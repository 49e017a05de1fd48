//! The declaration parser: turns the raw declarative block into a syntax
//! tree of named entries, each tagged with its source span.
//!
//! The accepted syntax is a sequence of entries, each a name followed by a
//! brace-delimited attribute list:
//!
//! ```text
//! emails { kind = topic; durable = true; }
//! logs { kind = fanout; }
//! ```
//!
//! Words (names, keys, values) are runs of letters, digits, `_`, `-` and
//! `.`. The parser enforces only lexical and structural well-formedness;
//! the semantic rules live in the validator.

use crate::report::{Expected, ParseError, Span};
use crate::text::{is_word_char, is_ws, spec_is_word_char, spec_is_ws};
use vstd::prelude::*;
use vstd::string::StrSliceExecFns;

verus! {

/// One parsed `key = value;` attribute of an entry.
#[derive(Debug, Clone, PartialEq, Eq)]
pub struct RawAttr {
    /// The attribute key.
    pub key: String,
    /// The attribute value, kept as its literal word.
    pub value: String,
    /// The source region of the whole attribute.
    pub span: Span,
}

/// One parsed entry: a name and its attribute list.
#[derive(Debug, Clone, PartialEq, Eq)]
pub struct RawEntry {
    /// The declared name of the entry.
    pub name: String,
    /// The entry's attributes, in source order.
    pub attrs: Vec<RawAttr>,
    /// The source region of the whole entry.
    pub span: Span,
}

/// The mathematical model of a parsed attribute.
#[verifier::ext_equal]
pub ghost struct AttrModel {
    /// The attribute key.
    pub key: Seq<char>,
    /// The attribute value.
    pub value: Seq<char>,
    /// The source region of the whole attribute.
    pub span: Span,
}

/// The mathematical model of a parsed entry.
#[verifier::ext_equal]
pub ghost struct EntryModel {
    /// The declared name of the entry.
    pub name: Seq<char>,
    /// The entry's attributes, in source order.
    pub attrs: Seq<AttrModel>,
    /// The source region of the whole entry.
    pub span: Span,
}

impl DeepView for RawAttr {
    type V = AttrModel;

    open spec fn deep_view(&self) -> AttrModel {
        AttrModel { key: self.key@, value: self.value@, span: self.span }
    }
}

impl DeepView for RawEntry {
    type V = EntryModel;

    open spec fn deep_view(&self) -> EntryModel {
        EntryModel { name: self.name@, attrs: self.attrs.deep_view(), span: self.span }
    }
}

/// The first position at or after `i` that does not hold whitespace.
pub open spec fn spec_skip_ws(s: Seq<char>, i: int) -> int
    decreases s.len() - i,
{
    if 0 <= i < s.len() && spec_is_ws(s[i]) {
        spec_skip_ws(s, i + 1)
    } else {
        i
    }
}

/// The first position at or after `i` that does not hold a word character:
/// the end of the word starting at `i`.
pub open spec fn spec_scan_word(s: Seq<char>, i: int) -> int
    decreases s.len() - i,
{
    if 0 <= i < s.len() && spec_is_word_char(s[i]) {
        spec_scan_word(s, i + 1)
    } else {
        i
    }
}

/// Skipping whitespace never moves backwards nor past the end.
pub proof fn lemma_skip_ws_bounds(s: Seq<char>, i: int)
    requires
        0 <= i <= s.len(),
    ensures
        i <= spec_skip_ws(s, i) <= s.len(),
    decreases s.len() - i,
{
    if i < s.len() && spec_is_ws(s[i]) {
        lemma_skip_ws_bounds(s, i + 1);
    }
}

/// Scanning a word never moves backwards nor past the end.
pub proof fn lemma_scan_word_bounds(s: Seq<char>, i: int)
    requires
        0 <= i <= s.len(),
    ensures
        i <= spec_scan_word(s, i) <= s.len(),
    decreases s.len() - i,
{
    if i < s.len() && spec_is_word_char(s[i]) {
        lemma_scan_word_bounds(s, i + 1);
    }
}

/// The parse of one attribute (`key = value;`) starting at position `i`
/// (with leading whitespace already consumed): the attribute's model and
/// the position just past its `;`, or the first parse error.
pub open spec fn spec_parse_attr(s: Seq<char>, i: int) -> Result<(AttrModel, int), ParseError> {
    let ke = spec_scan_word(s, i);
    if ke == i {
        Err(ParseError { at: i as usize, expected: Expected::KeyOrCloseBrace })
    } else {
        let j = spec_skip_ws(s, ke);
        if j < s.len() && s[j] == '=' {
            let vs = spec_skip_ws(s, j + 1);
            let ve = spec_scan_word(s, vs);
            if ve == vs {
                Err(ParseError { at: vs as usize, expected: Expected::Value })
            } else {
                let k = spec_skip_ws(s, ve);
                if k < s.len() && s[k] == ';' {
                    Ok(
                        (
                            AttrModel {
                                key: s.subrange(i, ke),
                                value: s.subrange(vs, ve),
                                span: Span { start: i as usize, end: (k + 1) as usize },
                            },
                            k + 1,
                        ),
                    )
                } else {
                    Err(ParseError { at: k as usize, expected: Expected::Semicolon })
                }
            }
        } else {
            Err(ParseError { at: j as usize, expected: Expected::Equals })
        }
    }
}

/// The parse of an attribute list from position `i` up to its closing `}`:
/// the attributes parsed so far are in `acc`. Returns the full attribute
/// list and the position just past the `}`, or the first parse error.
pub open spec fn spec_parse_attrs(s: Seq<char>, i: int, acc: Seq<AttrModel>) -> Result<
    (Seq<AttrModel>, int),
    ParseError,
>
    decreases s.len() - i,
{
    let j = spec_skip_ws(s, i);
    if j < s.len() && s[j] == '}' {
        Ok((acc, j + 1))
    } else if j >= s.len() {
        Err(ParseError { at: j as usize, expected: Expected::KeyOrCloseBrace })
    } else {
        match spec_parse_attr(s, j) {
            Err(e) => Err(e),
            Ok((a, k)) => if i < k <= s.len() {
                spec_parse_attrs(s, k, acc.push(a))
            } else {
                // A successful attribute parse always advances within
                // bounds; this branch only keeps the recursion
                // well-founded.
                Err(ParseError { at: j as usize, expected: Expected::KeyOrCloseBrace })
            },
        }
    }
}

/// The parse of the block's entry sequence from position `i`: the entries
/// parsed so far are in `acc`. Returns every entry of the block, or the
/// first parse error.
pub open spec fn spec_parse_entries(s: Seq<char>, i: int, acc: Seq<EntryModel>) -> Result<
    Seq<EntryModel>,
    ParseError,
>
    decreases s.len() - i,
{
    let j = spec_skip_ws(s, i);
    if j >= s.len() {
        Ok(acc)
    } else {
        let ne = spec_scan_word(s, j);
        if ne == j {
            Err(ParseError { at: j as usize, expected: Expected::EntryName })
        } else {
            let b = spec_skip_ws(s, ne);
            if b < s.len() && s[b] == '{' {
                match spec_parse_attrs(s, b + 1, Seq::empty()) {
                    Err(e) => Err(e),
                    Ok((attrs, k)) => {
                        let entry = EntryModel {
                            name: s.subrange(j, ne),
                            attrs,
                            span: Span { start: j as usize, end: k as usize },
                        };
                        if i < k <= s.len() {
                            spec_parse_entries(s, k, acc.push(entry))
                        } else {
                            // Unreachable for the same reason as in
                            // `spec_parse_attrs`.
                            Err(ParseError { at: b as usize, expected: Expected::OpenBrace })
                        }
                    },
                }
            } else {
                Err(ParseError { at: b as usize, expected: Expected::OpenBrace })
            }
        }
    }
}

/// The parse of a whole declarative block.
pub open spec fn spec_parse(s: Seq<char>) -> Result<Seq<EntryModel>, ParseError> {
    spec_parse_entries(s, 0, Seq::empty())
}

/// Whether an executable parse result matches a model parse result.
pub open spec fn parse_result_matches(
    r: Result<Vec<RawEntry>, ParseError>,
    m: Result<Seq<EntryModel>, ParseError>,
) -> bool {
    match (r, m) {
        (Ok(es), Ok(ms)) => es.deep_view() == ms,
        (Err(e), Err(me)) => e == me,
        _ => false,
    }
}

/// Executable mirror of [`spec_skip_ws`].
fn skip_ws(s: &str, i: usize) -> (r: usize)
    requires
        i <= s@.len(),
    ensures
        r as int == spec_skip_ws(s@, i as int),
        i <= r <= s@.len(),
    decreases s@.len() - i,
{
    let n = s.unicode_len();
    if i < n && is_ws(s.get_char(i)) {
        skip_ws(s, i + 1)
    } else {
        i
    }
}

/// Executable mirror of [`spec_scan_word`].
fn scan_word(s: &str, i: usize) -> (r: usize)
    requires
        i <= s@.len(),
    ensures
        r as int == spec_scan_word(s@, i as int),
        i <= r <= s@.len(),
    decreases s@.len() - i,
{
    let n = s.unicode_len();
    if i < n && is_word_char(s.get_char(i)) {
        scan_word(s, i + 1)
    } else {
        i
    }
}

/// Executable mirror of [`spec_parse_attr`].
fn parse_attr(s: &str, i: usize) -> (r: Result<(RawAttr, usize), ParseError>)
    requires
        i <= s@.len(),
    ensures
        (match (r, spec_parse_attr(s@, i as int)) {
            (Ok((a, j)), Ok((am, jm))) => a.deep_view() == am && j as int == jm && j <= s@.len(),
            (Err(e), Err(em)) => e == em,
            _ => false,
        }),
{
    let n = s.unicode_len();
    let ke = scan_word(s, i);
    if ke == i {
        return Err(ParseError { at: i, expected: Expected::KeyOrCloseBrace });
    }
    let j = skip_ws(s, ke);
    if !(j < n && s.get_char(j) == '=') {
        return Err(ParseError { at: j, expected: Expected::Equals });
    }
    let vs = skip_ws(s, j + 1);
    let ve = scan_word(s, vs);
    if ve == vs {
        return Err(ParseError { at: vs, expected: Expected::Value });
    }
    let k = skip_ws(s, ve);
    if !(k < n && s.get_char(k) == ';') {
        return Err(ParseError { at: k, expected: Expected::Semicolon });
    }
    let key = s.substring_char(i, ke).to_owned();
    let value = s.substring_char(vs, ve).to_owned();
    Ok((RawAttr { key, value, span: Span { start: i, end: k + 1 } }, k + 1))
}

/// Executable mirror of [`spec_parse_attrs`].
fn parse_attrs(s: &str, i: usize, acc: Vec<RawAttr>) -> (r: Result<
    (Vec<RawAttr>, usize),
    ParseError,
>)
    requires
        i <= s@.len(),
    ensures
        (match (r, spec_parse_attrs(s@, i as int, acc.deep_view())) {
            (Ok((attrs, j)), Ok((ams, jm))) => attrs.deep_view() == ams && j as int == jm && j
                <= s@.len(),
            (Err(e), Err(em)) => e == em,
            _ => false,
        }),
    decreases s@.len() - i,
{
    let n = s.unicode_len();
    let j = skip_ws(s, i);
    if j < n && s.get_char(j) == '}' {
        return Ok((acc, j + 1));
    }
    if j >= n {
        return Err(ParseError { at: j, expected: Expected::KeyOrCloseBrace });
    }
    match parse_attr(s, j) {
        Err(e) => Err(e),
        Ok((a, k)) => {
            if i < k {
                let ghost acc_model = acc.deep_view();
                let mut acc2 = acc;
                acc2.push(a);
                proof {
                    assert(acc2.deep_view() =~= acc_model.push(a.deep_view()));
                }
                parse_attrs(s, k, acc2)
            } else {
                Err(ParseError { at: j, expected: Expected::KeyOrCloseBrace })
            }
        },
    }
}

/// Executable mirror of [`spec_parse_entries`].
fn parse_entries(s: &str, i: usize, acc: Vec<RawEntry>) -> (r: Result<Vec<RawEntry>, ParseError>)
    requires
        i <= s@.len(),
    ensures
        parse_result_matches(r, spec_parse_entries(s@, i as int, acc.deep_view())),
    decreases s@.len() - i,
{
    let n = s.unicode_len();
    let j = skip_ws(s, i);
    if j >= n {
        return Ok(acc);
    }
    let ne = scan_word(s, j);
    if ne == j {
        return Err(ParseError { at: j, expected: Expected::EntryName });
    }
    let b = skip_ws(s, ne);
    if !(b < n && s.get_char(b) == '{') {
        return Err(ParseError { at: b, expected: Expected::OpenBrace });
    }
    let empty_attrs: Vec<RawAttr> = Vec::new();
    proof {
        assert(empty_attrs.deep_view() =~= Seq::<AttrModel>::empty());
    }
    match parse_attrs(s, b + 1, empty_attrs) {
        Err(e) => Err(e),
        Ok((attrs, k)) => {
            let name = s.substring_char(j, ne).to_owned();
            let entry = RawEntry { name, attrs, span: Span { start: j, end: k } };
            if i < k {
                let ghost acc_model = acc.deep_view();
                let mut acc2 = acc;
                acc2.push(entry);
                proof {
                    assert(acc2.deep_view() =~= acc_model.push(entry.deep_view()));
                }
                parse_entries(s, k, acc2)
            } else {
                Err(ParseError { at: b, expected: Expected::OpenBrace })
            }
        },
    }
}

/// Parse a declarative block into its entry list, or fail with the first
/// lexical or structural error.
pub fn parse(s: &str) -> (r: Result<Vec<RawEntry>, ParseError>)
    ensures
        parse_result_matches(r, spec_parse(s@)),
{
    let empty: Vec<RawEntry> = Vec::new();
    proof {
        assert(empty.deep_view() =~= Seq::<EntryModel>::empty());
    }
    parse_entries(s, 0, empty)
}

} // verus!
