//! The semantic validator: checks a parsed entry list against the
//! structural rules of its declaration kind and either produces the
//! validated, default-filled model or accumulates every violation of the
//! block into a diagnostic list. It never stops at the first error, and a
//! block with any diagnostic produces no model at all.

use crate::parse::{AttrModel, EntryModel, RawAttr, RawEntry};
use crate::report::{Diag, DiagKind};
use crate::text::str_eq;
use vstd::prelude::*;

verus! {

/// The kind of a declared exchange, deciding how messages are routed to
/// the queues bound to it.
#[derive(Debug, Clone, Copy, PartialEq, Eq, Structural)]
pub enum ExchangeKind {
    /// Routes a message to the queues bound with exactly its routing key.
    Direct,
    /// Routes a message by pattern-matching its routing key.
    Topic,
    /// Routes a message to every bound queue, ignoring routing keys.
    Fanout,
    /// Routes a message by its header values, ignoring routing keys.
    Headers,
}

/// A validated exchange declaration with its defaults filled in.
#[derive(Debug, Clone, PartialEq, Eq)]
pub struct ExchangeDecl {
    /// The unique name of the exchange.
    pub name: String,
    /// The declared kind of the exchange.
    pub kind: ExchangeKind,
    /// Whether the exchange survives a broker restart; defaults to `true`.
    pub durable: bool,
}

/// The mathematical model of a validated exchange declaration.
#[verifier::ext_equal]
pub ghost struct ExchangeModel {
    /// The unique name of the exchange.
    pub name: Seq<char>,
    /// The declared kind of the exchange.
    pub kind: ExchangeKind,
    /// Whether the exchange survives a broker restart.
    pub durable: bool,
}

impl DeepView for ExchangeDecl {
    type V = ExchangeModel;

    open spec fn deep_view(&self) -> ExchangeModel {
        ExchangeModel { name: self.name@, kind: self.kind, durable: self.durable }
    }
}

/// A validated queue declaration with its defaults filled in.
#[derive(Debug, Clone, PartialEq, Eq)]
pub struct QueueDecl {
    /// The unique name of the queue.
    pub name: String,
    /// The exchange the queue is bound to; `None` means the broker's
    /// implicit default exchange.
    pub bound_exchange: Option<String>,
    /// The routing key of the binding, where the bound exchange's kind
    /// demands one.
    pub routing_key: Option<String>,
    /// Whether the queue survives a broker restart; defaults to `true`.
    pub durable: bool,
}

/// The mathematical model of a validated queue declaration.
#[verifier::ext_equal]
pub ghost struct QueueModel {
    /// The unique name of the queue.
    pub name: Seq<char>,
    /// The exchange the queue is bound to; `None` means the implicit
    /// default exchange.
    pub bound_exchange: Option<Seq<char>>,
    /// The routing key of the binding, where present.
    pub routing_key: Option<Seq<char>>,
    /// Whether the queue survives a broker restart.
    pub durable: bool,
}

impl DeepView for QueueDecl {
    type V = QueueModel;

    open spec fn deep_view(&self) -> QueueModel {
        QueueModel {
            name: self.name@,
            bound_exchange: self.bound_exchange.deep_view(),
            routing_key: self.routing_key.deep_view(),
            durable: self.durable,
        }
    }
}

/// The exchange kind named by an attribute value, if any.
pub open spec fn spec_kind_of_word(w: Seq<char>) -> Option<ExchangeKind> {
    if w == "direct"@ {
        Some(ExchangeKind::Direct)
    } else if w == "topic"@ {
        Some(ExchangeKind::Topic)
    } else if w == "fanout"@ {
        Some(ExchangeKind::Fanout)
    } else if w == "headers"@ {
        Some(ExchangeKind::Headers)
    } else {
        None
    }
}

/// The boolean named by an attribute value, if any.
pub open spec fn spec_bool_of_word(w: Seq<char>) -> Option<bool> {
    if w == "true"@ {
        Some(true)
    } else if w == "false"@ {
        Some(false)
    } else {
        None
    }
}

/// Whether `k` is a recognized attribute key of the declaration kind:
/// queues take `exchange`, `routing_key` and `durable`; exchanges take
/// `kind` and `durable`.
pub open spec fn spec_key_known(queue_block: bool, k: Seq<char>) -> bool {
    if queue_block {
        k == "exchange"@ || k == "routing_key"@ || k == "durable"@
    } else {
        k == "kind"@ || k == "durable"@
    }
}

/// The first attribute of `attrs` at or after position `i` whose key is
/// `key`.
pub open spec fn spec_find_attr_from(attrs: Seq<AttrModel>, key: Seq<char>, i: int) -> Option<
    AttrModel,
>
    decreases attrs.len() - i,
{
    if 0 <= i < attrs.len() {
        if attrs[i].key == key {
            Some(attrs[i])
        } else {
            spec_find_attr_from(attrs, key, i + 1)
        }
    } else {
        None
    }
}

/// The first attribute of `attrs` whose key is `key`. Where a key is
/// repeated, the first occurrence is the one that counts.
pub open spec fn spec_find_attr(attrs: Seq<AttrModel>, key: Seq<char>) -> Option<AttrModel> {
    spec_find_attr_from(attrs, key, 0)
}

/// Whether one of the first `n` entries is named `name`.
pub open spec fn spec_name_in_prefix(entries: Seq<EntryModel>, n: int, name: Seq<char>) -> bool {
    exists|k: int| 0 <= k < n && entries[k].name == name
}

/// The unknown-attribute-key diagnostics of the first `n` attributes.
pub open spec fn spec_unknown_key_diags(queue_block: bool, attrs: Seq<AttrModel>, n: int) -> Seq<
    Diag,
>
    decreases n,
{
    if n <= 0 {
        Seq::empty()
    } else {
        spec_unknown_key_diags(queue_block, attrs, n - 1) + if !spec_key_known(
            queue_block,
            attrs[n - 1].key,
        ) {
            seq![Diag { kind: DiagKind::UnknownAttribute, span: attrs[n - 1].span }]
        } else {
            Seq::empty()
        }
    }
}

/// The diagnostics of an entry's `durable` attribute: its value, where the
/// attribute is present, must be `true` or `false`.
pub open spec fn spec_durable_diags(attrs: Seq<AttrModel>) -> Seq<Diag> {
    match spec_find_attr(attrs, "durable"@) {
        None => Seq::empty(),
        Some(a) => if spec_bool_of_word(a.value) is None {
            seq![Diag { kind: DiagKind::InvalidValue, span: a.span }]
        } else {
            Seq::empty()
        },
    }
}

/// The declared durability of an entry: the value of its `durable`
/// attribute, defaulting to `true`.
pub open spec fn spec_durable_of(attrs: Seq<AttrModel>) -> bool {
    match spec_find_attr(attrs, "durable"@) {
        None => true,
        Some(a) => match spec_bool_of_word(a.value) {
            Some(b) => b,
            None => true,
        },
    }
}

/// The diagnostics of one exchange entry: unrecognized keys, a missing or
/// invalid `kind`, and an invalid `durable` value.
pub open spec fn spec_exchange_entry_diags(e: EntryModel) -> Seq<Diag> {
    spec_unknown_key_diags(false, e.attrs, e.attrs.len() as int) + (match spec_find_attr(
        e.attrs,
        "kind"@,
    ) {
        None => seq![Diag { kind: DiagKind::MissingAttribute, span: e.span }],
        Some(a) => if spec_kind_of_word(a.value) is None {
            seq![Diag { kind: DiagKind::InvalidValue, span: a.span }]
        } else {
            Seq::empty()
        },
    }) + spec_durable_diags(e.attrs)
}

/// The validated model of one exchange entry. The fallbacks for a missing
/// or invalid `kind` never reach a caller: an entry that needs them also
/// produces a diagnostic, and a block with any diagnostic produces no
/// model.
pub open spec fn spec_exchange_model_of(e: EntryModel) -> ExchangeModel {
    ExchangeModel {
        name: e.name,
        kind: match spec_find_attr(e.attrs, "kind"@) {
            None => ExchangeKind::Direct,
            Some(a) => match spec_kind_of_word(a.value) {
                Some(k) => k,
                None => ExchangeKind::Direct,
            },
        },
        durable: spec_durable_of(e.attrs),
    }
}

/// The diagnostics of the first `n` exchange entries, in source order:
/// for each entry a duplicate-name diagnostic where its name was already
/// declared, then the entry's own diagnostics.
pub open spec fn spec_exchange_diags_upto(entries: Seq<EntryModel>, n: int) -> Seq<Diag>
    decreases n,
{
    if n <= 0 {
        Seq::empty()
    } else {
        spec_exchange_diags_upto(entries, n - 1) + (if spec_name_in_prefix(
            entries,
            n - 1,
            entries[n - 1].name,
        ) {
            seq![Diag { kind: DiagKind::DuplicateName, span: entries[n - 1].span }]
        } else {
            Seq::empty()
        }) + spec_exchange_entry_diags(entries[n - 1])
    }
}

/// The models of the first `n` exchange entries, in source order.
pub open spec fn spec_exchange_models_upto(entries: Seq<EntryModel>, n: int) -> Seq<ExchangeModel>
    decreases n,
{
    if n <= 0 {
        Seq::empty()
    } else {
        spec_exchange_models_upto(entries, n - 1).push(spec_exchange_model_of(entries[n - 1]))
    }
}

/// The validation of an exchange block: the ordered, default-filled models
/// of its entries, or the non-empty list of every diagnostic of the block.
pub open spec fn spec_validate_exchanges(entries: Seq<EntryModel>) -> Result<
    Seq<ExchangeModel>,
    Seq<Diag>,
> {
    let diags = spec_exchange_diags_upto(entries, entries.len() as int);
    if diags.len() == 0 {
        Ok(spec_exchange_models_upto(entries, entries.len() as int))
    } else {
        Err(diags)
    }
}

/// Executable mirror of [`spec_kind_of_word`].
pub fn kind_of_word(w: &str) -> (r: Option<ExchangeKind>)
    ensures
        r == spec_kind_of_word(w@),
{
    if str_eq(w, "direct") {
        Some(ExchangeKind::Direct)
    } else if str_eq(w, "topic") {
        Some(ExchangeKind::Topic)
    } else if str_eq(w, "fanout") {
        Some(ExchangeKind::Fanout)
    } else if str_eq(w, "headers") {
        Some(ExchangeKind::Headers)
    } else {
        None
    }
}

/// Executable mirror of [`spec_bool_of_word`].
pub fn bool_of_word(w: &str) -> (r: Option<bool>)
    ensures
        r == spec_bool_of_word(w@),
{
    if str_eq(w, "true") {
        Some(true)
    } else if str_eq(w, "false") {
        Some(false)
    } else {
        None
    }
}

/// Executable mirror of [`spec_key_known`].
fn key_known(queue_block: bool, k: &str) -> (r: bool)
    ensures
        r == spec_key_known(queue_block, k@),
{
    if queue_block {
        str_eq(k, "exchange") || str_eq(k, "routing_key") || str_eq(k, "durable")
    } else {
        str_eq(k, "kind") || str_eq(k, "durable")
    }
}

/// Executable mirror of [`spec_find_attr_from`].
fn find_attr_from<'a>(attrs: &'a Vec<RawAttr>, key: &str, i: usize) -> (r: Option<&'a RawAttr>)
    requires
        i <= attrs@.len(),
    ensures
        (match (r, spec_find_attr_from(attrs.deep_view(), key@, i as int)) {
            (Some(a), Some(m)) => a.deep_view() == m,
            (None, None) => true,
            _ => false,
        }),
    decreases attrs@.len() - i,
{
    if i < attrs.len() {
        if str_eq(attrs[i].key.as_str(), key) {
            Some(&attrs[i])
        } else {
            find_attr_from(attrs, key, i + 1)
        }
    } else {
        None
    }
}

/// Executable mirror of [`spec_find_attr`].
pub fn find_attr<'a>(attrs: &'a Vec<RawAttr>, key: &str) -> (r: Option<&'a RawAttr>)
    ensures
        (match (r, spec_find_attr(attrs.deep_view(), key@)) {
            (Some(a), Some(m)) => a.deep_view() == m,
            (None, None) => true,
            _ => false,
        }),
{
    find_attr_from(attrs, key, 0)
}

/// Executable mirror of [`spec_name_in_prefix`].
fn name_in_prefix(entries: &Vec<RawEntry>, n: usize, name: &str) -> (r: bool)
    requires
        n <= entries@.len(),
    ensures
        r == spec_name_in_prefix(entries.deep_view(), n as int, name@),
{
    let mut k: usize = 0;
    while k < n
        invariant
            0 <= k <= n <= entries@.len(),
            forall|j: int| 0 <= j < k ==> entries.deep_view()[j].name != name@,
        decreases n - k,
    {
        if str_eq(entries[k].name.as_str(), name) {
            assert(entries.deep_view()[k as int].name == name@);
            return true;
        }
        k = k + 1;
    }
    false
}

/// Append the unknown-key diagnostics of one entry's attribute list to
/// `diags`.
fn push_unknown_key_diags(queue_block: bool, attrs: &Vec<RawAttr>, diags: &mut Vec<Diag>)
    ensures
        final(diags)@ == old(diags)@ + spec_unknown_key_diags(
            queue_block,
            attrs.deep_view(),
            attrs.deep_view().len() as int,
        ),
{
    let ghost attrs_model = attrs.deep_view();
    let ghost diags0 = diags@;
    let mut i: usize = 0;
    while i < attrs.len()
        invariant
            0 <= i <= attrs@.len(),
            attrs_model == attrs.deep_view(),
            diags@ == diags0 + spec_unknown_key_diags(queue_block, attrs_model, i as int),
        decreases attrs@.len() - i,
    {
        if !key_known(queue_block, attrs[i].key.as_str()) {
            diags.push(Diag { kind: DiagKind::UnknownAttribute, span: attrs[i].span });
        }
        i = i + 1;
        proof {
            assert(diags@ =~= diags0 + spec_unknown_key_diags(queue_block, attrs_model, i as int));
        }
    }
}

/// Append the invalid-`durable` diagnostic of one entry's attribute list,
/// where there is one, to `diags`.
fn push_durable_diags(attrs: &Vec<RawAttr>, diags: &mut Vec<Diag>)
    ensures
        final(diags)@ == old(diags)@ + spec_durable_diags(attrs.deep_view()),
{
    match find_attr(attrs, "durable") {
        None => {},
        Some(a) => {
            if bool_of_word(a.value.as_str()).is_none() {
                diags.push(Diag { kind: DiagKind::InvalidValue, span: a.span });
            }
        },
    }
    proof {
        assert(diags@ =~= old(diags)@ + spec_durable_diags(attrs.deep_view()));
    }
}

/// Executable mirror of [`spec_durable_of`].
fn durable_of(attrs: &Vec<RawAttr>) -> (r: bool)
    ensures
        r == spec_durable_of(attrs.deep_view()),
{
    match find_attr(attrs, "durable") {
        None => true,
        Some(a) => match bool_of_word(a.value.as_str()) {
            Some(b) => b,
            None => true,
        },
    }
}

/// Append the diagnostics of one exchange entry to `diags`.
fn push_exchange_entry_diags(e: &RawEntry, diags: &mut Vec<Diag>)
    ensures
        final(diags)@ == old(diags)@ + spec_exchange_entry_diags(e.deep_view()),
{
    let ghost diags0 = diags@;
    let ghost em = e.deep_view();
    push_unknown_key_diags(false, &e.attrs, diags);
    match find_attr(&e.attrs, "kind") {
        None => {
            diags.push(Diag { kind: DiagKind::MissingAttribute, span: e.span });
        },
        Some(a) => {
            if kind_of_word(a.value.as_str()).is_none() {
                diags.push(Diag { kind: DiagKind::InvalidValue, span: a.span });
            }
        },
    }
    push_durable_diags(&e.attrs, diags);
    proof {
        assert(diags@ =~= diags0 + spec_exchange_entry_diags(em));
    }
}

/// Executable mirror of [`spec_exchange_model_of`].
fn exchange_decl_of(e: &RawEntry) -> (d: ExchangeDecl)
    ensures
        d.deep_view() == spec_exchange_model_of(e.deep_view()),
{
    let kind = match find_attr(&e.attrs, "kind") {
        None => ExchangeKind::Direct,
        Some(a) => match kind_of_word(a.value.as_str()) {
            Some(k) => k,
            None => ExchangeKind::Direct,
        },
    };
    ExchangeDecl { name: e.name.clone(), kind, durable: durable_of(&e.attrs) }
}

/// Validate an exchange block: return the ordered, default-filled
/// declarations, or the non-empty list of every diagnostic found in one
/// pass over the block. A block with any diagnostic produces zero
/// declarations.
pub fn validate_exchanges(entries: &Vec<RawEntry>) -> (r: Result<Vec<ExchangeDecl>, Vec<Diag>>)
    ensures
        (match (r, spec_validate_exchanges(entries.deep_view())) {
            (Ok(ds), Ok(ms)) => ds.deep_view() == ms,
            (Err(dv), Err(dm)) => dv@ == dm && dm.len() > 0,
            _ => false,
        }),
{
    let ghost em = entries.deep_view();
    let mut diags: Vec<Diag> = Vec::new();
    let mut decls: Vec<ExchangeDecl> = Vec::new();
    let mut i: usize = 0;
    proof {
        assert(diags@ =~= Seq::<Diag>::empty() + spec_exchange_diags_upto(em, 0));
        assert(decls.deep_view() =~= spec_exchange_models_upto(em, 0));
    }
    while i < entries.len()
        invariant
            0 <= i <= entries@.len(),
            em == entries.deep_view(),
            diags@ == spec_exchange_diags_upto(em, i as int),
            decls.deep_view() == spec_exchange_models_upto(em, i as int),
        decreases entries@.len() - i,
    {
        let ghost diags_pre = diags@;
        let e = &entries[i];
        if name_in_prefix(entries, i, e.name.as_str()) {
            diags.push(Diag { kind: DiagKind::DuplicateName, span: e.span });
        }
        push_exchange_entry_diags(e, &mut diags);
        let ghost decls_pre = decls@;
        let d = exchange_decl_of(e);
        decls.push(d);
        proof {
            assert(em[i as int] == e.deep_view());
            assert(diags@ =~= spec_exchange_diags_upto(em, i as int + 1));
            assert(decls.deep_view() =~= spec_exchange_models_upto(em, i as int + 1));
        }
        i = i + 1;
    }
    if diags.len() == 0 {
        Ok(decls)
    } else {
        Err(diags)
    }
}

/// The kind of the first declared exchange at or after position `i` named
/// `name`, if any.
pub open spec fn spec_lookup_kind_from(exs: Seq<ExchangeModel>, name: Seq<char>, i: int) -> Option<
    ExchangeKind,
>
    decreases exs.len() - i,
{
    if 0 <= i < exs.len() {
        if exs[i].name == name {
            Some(exs[i].kind)
        } else {
            spec_lookup_kind_from(exs, name, i + 1)
        }
    } else {
        None
    }
}

/// The kind of the declared exchange named `name`, if any.
pub open spec fn spec_lookup_kind(exs: Seq<ExchangeModel>, name: Seq<char>) -> Option<
    ExchangeKind,
> {
    spec_lookup_kind_from(exs, name, 0)
}

/// Whether an exchange named `name` is among the declarations `exs`.
pub open spec fn spec_has_exchange(exs: Seq<ExchangeModel>, name: Seq<char>) -> bool {
    exists|k: int| 0 <= k < exs.len() && exs[k].name == name
}

/// Looking a name up among the exchange declarations fails exactly when no
/// declaration carries that name.
pub proof fn lemma_lookup_kind_none_iff_absent(exs: Seq<ExchangeModel>, name: Seq<char>, i: int)
    requires
        0 <= i <= exs.len(),
    ensures
        spec_lookup_kind_from(exs, name, i) is None <==> !exists|k: int|
            i <= k < exs.len() && exs[k].name == name,
    decreases exs.len() - i,
{
    if i < exs.len() {
        lemma_lookup_kind_none_iff_absent(exs, name, i + 1);
    }
}

/// Whether an exchange kind demands a routing key on the queues bound to
/// it: direct and topic exchanges route by key, fanout and headers
/// exchanges ignore it.
pub open spec fn spec_kind_needs_routing_key(k: ExchangeKind) -> bool {
    k == ExchangeKind::Direct || k == ExchangeKind::Topic
}

/// The diagnostics of one queue entry: unrecognized keys, an invalid
/// `durable` value, an unresolved `exchange` reference, and a
/// `routing_key` that is absent where the bound exchange demands one or
/// present where it forbids one. A queue without an `exchange` attribute
/// is bound to the implicit default exchange, which routes by queue name,
/// so a declared `routing_key` is a violation there too.
#[verifier::opaque]
pub open spec fn spec_queue_entry_diags(e: EntryModel, exs: Seq<ExchangeModel>) -> Seq<Diag> {
    spec_unknown_key_diags(true, e.attrs, e.attrs.len() as int) + spec_durable_diags(e.attrs) + (
    match spec_find_attr(e.attrs, "exchange"@) {
        None => match spec_find_attr(e.attrs, "routing_key"@) {
            None => Seq::empty(),
            Some(ra) => seq![Diag { kind: DiagKind::RoutingKeyViolation, span: ra.span }],
        },
        Some(a) => match spec_lookup_kind(exs, a.value) {
            None => seq![Diag { kind: DiagKind::UnknownExchange, span: a.span }],
            Some(k) => match spec_find_attr(e.attrs, "routing_key"@) {
                None => if spec_kind_needs_routing_key(k) {
                    seq![Diag { kind: DiagKind::RoutingKeyViolation, span: e.span }]
                } else {
                    Seq::empty()
                },
                Some(ra) => if spec_kind_needs_routing_key(k) {
                    Seq::empty()
                } else {
                    seq![Diag { kind: DiagKind::RoutingKeyViolation, span: ra.span }]
                },
            },
        },
    })
}

/// The validated model of one queue entry.
pub open spec fn spec_queue_model_of(e: EntryModel) -> QueueModel {
    QueueModel {
        name: e.name,
        bound_exchange: match spec_find_attr(e.attrs, "exchange"@) {
            None => None,
            Some(a) => Some(a.value),
        },
        routing_key: match spec_find_attr(e.attrs, "routing_key"@) {
            None => None,
            Some(a) => Some(a.value),
        },
        durable: spec_durable_of(e.attrs),
    }
}

/// The diagnostics of the first `n` queue entries, in source order.
pub open spec fn spec_queue_diags_upto(
    entries: Seq<EntryModel>,
    exs: Seq<ExchangeModel>,
    n: int,
) -> Seq<Diag>
    decreases n,
{
    if n <= 0 {
        Seq::empty()
    } else {
        spec_queue_diags_upto(entries, exs, n - 1) + (if spec_name_in_prefix(
            entries,
            n - 1,
            entries[n - 1].name,
        ) {
            seq![Diag { kind: DiagKind::DuplicateName, span: entries[n - 1].span }]
        } else {
            Seq::empty()
        }) + spec_queue_entry_diags(entries[n - 1], exs)
    }
}

/// The models of the first `n` queue entries, in source order.
pub open spec fn spec_queue_models_upto(entries: Seq<EntryModel>, n: int) -> Seq<QueueModel>
    decreases n,
{
    if n <= 0 {
        Seq::empty()
    } else {
        spec_queue_models_upto(entries, n - 1).push(spec_queue_model_of(entries[n - 1]))
    }
}

/// The validation of a queue block against the exchange declarations in
/// scope: the ordered, default-filled models of its entries, or the
/// non-empty list of every diagnostic of the block.
pub open spec fn spec_validate_queues(entries: Seq<EntryModel>, exs: Seq<ExchangeModel>) -> Result<
    Seq<QueueModel>,
    Seq<Diag>,
> {
    let diags = spec_queue_diags_upto(entries, exs, entries.len() as int);
    if diags.len() == 0 {
        Ok(spec_queue_models_upto(entries, entries.len() as int))
    } else {
        Err(diags)
    }
}

/// Executable mirror of [`spec_lookup_kind_from`].
fn lookup_kind_from(exs: &Vec<ExchangeDecl>, name: &str, i: usize) -> (r: Option<ExchangeKind>)
    requires
        i <= exs@.len(),
    ensures
        r == spec_lookup_kind_from(exs.deep_view(), name@, i as int),
    decreases exs@.len() - i,
{
    if i < exs.len() {
        if str_eq(exs[i].name.as_str(), name) {
            Some(exs[i].kind)
        } else {
            lookup_kind_from(exs, name, i + 1)
        }
    } else {
        None
    }
}

/// Executable mirror of [`spec_lookup_kind`].
pub fn lookup_kind(exs: &Vec<ExchangeDecl>, name: &str) -> (r: Option<ExchangeKind>)
    ensures
        r == spec_lookup_kind(exs.deep_view(), name@),
{
    lookup_kind_from(exs, name, 0)
}

/// Executable mirror of [`spec_kind_needs_routing_key`].
pub fn kind_needs_routing_key(k: ExchangeKind) -> (r: bool)
    ensures
        r == spec_kind_needs_routing_key(k),
{
    match k {
        ExchangeKind::Direct => true,
        ExchangeKind::Topic => true,
        ExchangeKind::Fanout => false,
        ExchangeKind::Headers => false,
    }
}

/// Append the diagnostics of one queue entry to `diags`.
fn push_queue_entry_diags(e: &RawEntry, exs: &Vec<ExchangeDecl>, diags: &mut Vec<Diag>)
    ensures
        final(diags)@ == old(diags)@ + spec_queue_entry_diags(e.deep_view(), exs.deep_view()),
{
    proof {
        reveal(spec_queue_entry_diags);
    }
    let ghost diags0 = diags@;
    let ghost em = e.deep_view();
    push_unknown_key_diags(true, &e.attrs, diags);
    push_durable_diags(&e.attrs, diags);
    match find_attr(&e.attrs, "exchange") {
        None => {
            match find_attr(&e.attrs, "routing_key") {
                None => {},
                Some(ra) => {
                    diags.push(Diag { kind: DiagKind::RoutingKeyViolation, span: ra.span });
                },
            }
        },
        Some(a) => {
            match lookup_kind(exs, a.value.as_str()) {
                None => {
                    diags.push(Diag { kind: DiagKind::UnknownExchange, span: a.span });
                },
                Some(k) => {
                    let needs = kind_needs_routing_key(k);
                    match find_attr(&e.attrs, "routing_key") {
                        None => {
                            if needs {
                                diags.push(
                                    Diag { kind: DiagKind::RoutingKeyViolation, span: e.span },
                                );
                            }
                        },
                        Some(ra) => {
                            if !needs {
                                diags.push(
                                    Diag { kind: DiagKind::RoutingKeyViolation, span: ra.span },
                                );
                            }
                        },
                    }
                },
            }
        },
    }
    proof {
        assert(diags@ =~= diags0 + spec_queue_entry_diags(em, exs.deep_view()));
    }
}

/// Executable mirror of [`spec_queue_model_of`].
fn queue_decl_of(e: &RawEntry) -> (d: QueueDecl)
    ensures
        d.deep_view() == spec_queue_model_of(e.deep_view()),
{
    let bound_exchange = match find_attr(&e.attrs, "exchange") {
        None => None,
        Some(a) => Some(a.value.clone()),
    };
    let routing_key = match find_attr(&e.attrs, "routing_key") {
        None => None,
        Some(a) => Some(a.value.clone()),
    };
    QueueDecl { name: e.name.clone(), bound_exchange, routing_key, durable: durable_of(&e.attrs) }
}

/// Validate a queue block against the exchange declarations in scope:
/// return the ordered, default-filled declarations, or the non-empty list
/// of every diagnostic found in one pass over the block. A block with any
/// diagnostic produces zero declarations.
#[verifier::rlimit(100)]
pub fn validate_queues(entries: &Vec<RawEntry>, exchanges: &Vec<ExchangeDecl>) -> (r: Result<
    Vec<QueueDecl>,
    Vec<Diag>,
>)
    ensures
        (match (r, spec_validate_queues(entries.deep_view(), exchanges.deep_view())) {
            (Ok(ds), Ok(ms)) => ds.deep_view() == ms,
            (Err(dv), Err(dm)) => dv@ == dm && dm.len() > 0,
            _ => false,
        }),
{
    let ghost em = entries.deep_view();
    let ghost exm = exchanges.deep_view();
    let mut diags: Vec<Diag> = Vec::new();
    let mut decls: Vec<QueueDecl> = Vec::new();
    let mut i: usize = 0;
    proof {
        assert(diags@ =~= Seq::<Diag>::empty() + spec_queue_diags_upto(em, exm, 0));
        assert(decls.deep_view() =~= spec_queue_models_upto(em, 0));
    }
    while i < entries.len()
        invariant
            0 <= i <= entries@.len(),
            em == entries.deep_view(),
            exm == exchanges.deep_view(),
            diags@ == spec_queue_diags_upto(em, exm, i as int),
            decls.deep_view() == spec_queue_models_upto(em, i as int),
        decreases entries@.len() - i,
    {
        let ghost diags_pre = diags@;
        let e = &entries[i];
        proof {
            assert(em[i as int] == e.deep_view());
        }
        let ghost dupseq: Seq<Diag> = if spec_name_in_prefix(em, i as int, em[i as int].name) {
            seq![Diag { kind: DiagKind::DuplicateName, span: em[i as int].span }]
        } else {
            Seq::<Diag>::empty()
        };
        if name_in_prefix(entries, i, e.name.as_str()) {
            diags.push(Diag { kind: DiagKind::DuplicateName, span: e.span });
        }
        proof {
            assert(diags@ =~= diags_pre + dupseq);
        }
        push_queue_entry_diags(e, exchanges, &mut diags);
        proof {
            assert(diags@ == diags_pre + dupseq + spec_queue_entry_diags(em[i as int], exm));
            assert(spec_queue_diags_upto(em, exm, i as int + 1) == spec_queue_diags_upto(
                em,
                exm,
                i as int,
            ) + dupseq + spec_queue_entry_diags(em[i as int], exm));
        }
        let ghost decls_pre = decls.deep_view();
        let d = queue_decl_of(e);
        decls.push(d);
        proof {
            assert(decls.deep_view() =~= decls_pre.push(d.deep_view()));
            assert(decls.deep_view() == spec_queue_models_upto(em, i as int + 1));
        }
        i = i + 1;
    }
    if diags.len() == 0 {
        Ok(decls)
    } else {
        Err(diags)
    }
}

/// The validated exchange models keep declaration order: the model list
/// has one record per entry, and the record at each position is the model
/// of the entry at that position.
pub proof fn lemma_exchange_models_preserve_order(entries: Seq<EntryModel>, n: int)
    requires
        0 <= n <= entries.len(),
    ensures
        spec_exchange_models_upto(entries, n).len() == n,
        forall|k: int|
            0 <= k < n ==> spec_exchange_models_upto(entries, n)[k] == spec_exchange_model_of(
                entries[k],
            ),
    decreases n,
{
    if n > 0 {
        lemma_exchange_models_preserve_order(entries, n - 1);
    }
}

/// The validated queue models keep declaration order, as the exchange
/// models do.
pub proof fn lemma_queue_models_preserve_order(entries: Seq<EntryModel>, n: int)
    requires
        0 <= n <= entries.len(),
    ensures
        spec_queue_models_upto(entries, n).len() == n,
        forall|k: int|
            0 <= k < n ==> spec_queue_models_upto(entries, n)[k] == spec_queue_model_of(
                entries[k],
            ),
    decreases n,
{
    if n > 0 {
        lemma_queue_models_preserve_order(entries, n - 1);
    }
}

/// Whether some diagnostic of `ds` has kind `k`.
pub open spec fn diags_contain_kind(ds: Seq<Diag>, k: DiagKind) -> bool {
    exists|i: int| 0 <= i < ds.len() && ds[i].kind == k
}

/// A concatenation contains a diagnostic kind exactly when one of its
/// parts does.
pub proof fn lemma_contains_kind_concat(a: Seq<Diag>, b: Seq<Diag>, k: DiagKind)
    ensures
        diags_contain_kind(a + b, k) == (diags_contain_kind(a, k) || diags_contain_kind(b, k)),
{
    if diags_contain_kind(a, k) {
        let i = choose|i: int| 0 <= i < a.len() && a[i].kind == k;
        assert((a + b)[i].kind == k);
    } else if diags_contain_kind(b, k) {
        let i = choose|i: int| 0 <= i < b.len() && b[i].kind == k;
        assert((a + b)[a.len() + i].kind == k);
    } else if diags_contain_kind(a + b, k) {
        let i = choose|i: int| 0 <= i < (a + b).len() && (a + b)[i].kind == k;
        if i < a.len() {
            assert(a[i].kind == k);
        } else {
            assert(b[i - a.len()].kind == k);
        }
    }
}

proof fn lemma_dup_in_exchange_diags_upto(entries: Seq<EntryModel>, i: int, j: int, n: int)
    requires
        0 <= i < j < n <= entries.len(),
        entries[i].name == entries[j].name,
    ensures
        diags_contain_kind(spec_exchange_diags_upto(entries, n), DiagKind::DuplicateName),
    decreases n,
{
    let head = spec_exchange_diags_upto(entries, n - 1);
    let dup: Seq<Diag> = if spec_name_in_prefix(entries, n - 1, entries[n - 1].name) {
        seq![Diag { kind: DiagKind::DuplicateName, span: entries[n - 1].span }]
    } else {
        Seq::<Diag>::empty()
    };
    let tail = spec_exchange_entry_diags(entries[n - 1]);
    if j == n - 1 {
        assert(spec_name_in_prefix(entries, n - 1, entries[n - 1].name));
        assert(dup[0].kind == DiagKind::DuplicateName);
        assert(diags_contain_kind(dup, DiagKind::DuplicateName));
    } else {
        lemma_dup_in_exchange_diags_upto(entries, i, j, n - 1);
    }
    lemma_contains_kind_concat(head, dup, DiagKind::DuplicateName);
    lemma_contains_kind_concat(head + dup, tail, DiagKind::DuplicateName);
}

/// Two exchange entries sharing a name make validation fail with a
/// duplicate-name diagnostic and produce zero declarations for the block.
pub proof fn lemma_duplicate_exchange_name_rejected(entries: Seq<EntryModel>, i: int, j: int)
    requires
        0 <= i < j < entries.len(),
        entries[i].name == entries[j].name,
    ensures
        spec_validate_exchanges(entries) is Err,
        diags_contain_kind(spec_validate_exchanges(entries)->Err_0, DiagKind::DuplicateName),
{
    lemma_dup_in_exchange_diags_upto(entries, i, j, entries.len() as int);
}

proof fn lemma_dup_in_queue_diags_upto(
    entries: Seq<EntryModel>,
    exs: Seq<ExchangeModel>,
    i: int,
    j: int,
    n: int,
)
    requires
        0 <= i < j < n <= entries.len(),
        entries[i].name == entries[j].name,
    ensures
        diags_contain_kind(spec_queue_diags_upto(entries, exs, n), DiagKind::DuplicateName),
    decreases n,
{
    let head = spec_queue_diags_upto(entries, exs, n - 1);
    let dup: Seq<Diag> = if spec_name_in_prefix(entries, n - 1, entries[n - 1].name) {
        seq![Diag { kind: DiagKind::DuplicateName, span: entries[n - 1].span }]
    } else {
        Seq::<Diag>::empty()
    };
    let tail = spec_queue_entry_diags(entries[n - 1], exs);
    if j == n - 1 {
        assert(spec_name_in_prefix(entries, n - 1, entries[n - 1].name));
        assert(dup[0].kind == DiagKind::DuplicateName);
        assert(diags_contain_kind(dup, DiagKind::DuplicateName));
    } else {
        lemma_dup_in_queue_diags_upto(entries, exs, i, j, n - 1);
    }
    lemma_contains_kind_concat(head, dup, DiagKind::DuplicateName);
    lemma_contains_kind_concat(head + dup, tail, DiagKind::DuplicateName);
}

/// Two queue entries sharing a name make validation fail with a
/// duplicate-name diagnostic and produce zero declarations for the block.
pub proof fn lemma_duplicate_queue_name_rejected(
    entries: Seq<EntryModel>,
    exs: Seq<ExchangeModel>,
    i: int,
    j: int,
)
    requires
        0 <= i < j < entries.len(),
        entries[i].name == entries[j].name,
    ensures
        spec_validate_queues(entries, exs) is Err,
        diags_contain_kind(spec_validate_queues(entries, exs)->Err_0, DiagKind::DuplicateName),
{
    lemma_dup_in_queue_diags_upto(entries, exs, i, j, entries.len() as int);
}

proof fn lemma_unknown_exchange_in_entry_diags(e: EntryModel, exs: Seq<ExchangeModel>)
    requires
        spec_find_attr(e.attrs, "exchange"@) is Some,
        !spec_has_exchange(exs, spec_find_attr(e.attrs, "exchange"@)->Some_0.value),
    ensures
        diags_contain_kind(spec_queue_entry_diags(e, exs), DiagKind::UnknownExchange),
{
    reveal(spec_queue_entry_diags);
    let a = spec_find_attr(e.attrs, "exchange"@)->Some_0;
    lemma_lookup_kind_none_iff_absent(exs, a.value, 0);
    assert(spec_lookup_kind(exs, a.value) is None);
    let head = spec_unknown_key_diags(true, e.attrs, e.attrs.len() as int);
    let mid = spec_durable_diags(e.attrs);
    let tail = seq![Diag { kind: DiagKind::UnknownExchange, span: a.span }];
    assert(tail[0].kind == DiagKind::UnknownExchange);
    assert(diags_contain_kind(tail, DiagKind::UnknownExchange));
    assert(spec_queue_entry_diags(e, exs) == head + mid + tail);
    lemma_contains_kind_concat(head, mid, DiagKind::UnknownExchange);
    lemma_contains_kind_concat(head + mid, tail, DiagKind::UnknownExchange);
}

proof fn lemma_unknown_in_queue_diags_upto(
    entries: Seq<EntryModel>,
    exs: Seq<ExchangeModel>,
    i: int,
    n: int,
)
    requires
        0 <= i < n <= entries.len(),
        spec_find_attr(entries[i].attrs, "exchange"@) is Some,
        !spec_has_exchange(exs, spec_find_attr(entries[i].attrs, "exchange"@)->Some_0.value),
    ensures
        diags_contain_kind(spec_queue_diags_upto(entries, exs, n), DiagKind::UnknownExchange),
    decreases n,
{
    let head = spec_queue_diags_upto(entries, exs, n - 1);
    let dup: Seq<Diag> = if spec_name_in_prefix(entries, n - 1, entries[n - 1].name) {
        seq![Diag { kind: DiagKind::DuplicateName, span: entries[n - 1].span }]
    } else {
        Seq::<Diag>::empty()
    };
    let tail = spec_queue_entry_diags(entries[n - 1], exs);
    if i == n - 1 {
        lemma_unknown_exchange_in_entry_diags(entries[i], exs);
    } else {
        lemma_unknown_in_queue_diags_upto(entries, exs, i, n - 1);
    }
    lemma_contains_kind_concat(head, dup, DiagKind::UnknownExchange);
    lemma_contains_kind_concat(head + dup, tail, DiagKind::UnknownExchange);
}

/// A queue entry whose `exchange` attribute names no declared exchange
/// makes validation fail with an unresolved-reference diagnostic and
/// produce zero declarations for the block.
pub proof fn lemma_unresolved_exchange_rejected(
    entries: Seq<EntryModel>,
    exs: Seq<ExchangeModel>,
    i: int,
)
    requires
        0 <= i < entries.len(),
        spec_find_attr(entries[i].attrs, "exchange"@) is Some,
        !spec_has_exchange(exs, spec_find_attr(entries[i].attrs, "exchange"@)->Some_0.value),
    ensures
        spec_validate_queues(entries, exs) is Err,
        diags_contain_kind(spec_validate_queues(entries, exs)->Err_0, DiagKind::UnknownExchange),
{
    lemma_unknown_in_queue_diags_upto(entries, exs, i, entries.len() as int);
}

} // verus!
