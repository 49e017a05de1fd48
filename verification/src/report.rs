//! Source spans, parse errors, semantic diagnostics and the aggregate
//! failure report of a compilation unit.

use vstd::prelude::*;

verus! {

/// A half-open range of character positions in the declarative source text.
#[derive(Clone, Copy, Debug, PartialEq, Eq, Structural)]
pub struct Span {
    /// Position of the first character of the spanned region.
    pub start: usize,
    /// Position one past the last character of the spanned region.
    pub end: usize,
}

/// The token class the parser expected at the position where it failed.
#[derive(Clone, Copy, Debug, PartialEq, Eq, Structural)]
pub enum Expected {
    /// The name of an entry, at the start of a declaration.
    EntryName,
    /// The `{` opening an entry's attribute list.
    OpenBrace,
    /// An attribute key, or the `}` closing the attribute list.
    KeyOrCloseBrace,
    /// The `=` between an attribute key and its value.
    Equals,
    /// An attribute value.
    Value,
    /// The `;` ending an attribute.
    Semicolon,
}

/// A failure of the declaration parser: the position it stopped at and the
/// token class it expected there.
#[derive(Clone, Copy, Debug, PartialEq, Eq, Structural)]
pub struct ParseError {
    /// The character position at which parsing failed.
    pub at: usize,
    /// The token class expected at that position.
    pub expected: Expected,
}

/// The closed set of semantic-validation violations.
#[derive(Clone, Copy, Debug, PartialEq, Eq, Structural)]
pub enum DiagKind {
    /// Two entries share a name within the same declaration kind.
    DuplicateName,
    /// A required attribute (the `kind` of an exchange) is absent.
    MissingAttribute,
    /// An attribute key is not recognized for this declaration kind.
    UnknownAttribute,
    /// A queue's bound exchange names no declared exchange.
    UnknownExchange,
    /// A `routing_key` is absent where the bound exchange's kind demands
    /// one, or present where it forbids one.
    RoutingKeyViolation,
    /// An attribute value lies outside the allowed set for its key.
    InvalidValue,
}

/// The severity of a diagnostic. Every current diagnostic is fatal: there
/// are no warnings.
#[derive(Clone, Copy, Debug, PartialEq, Eq, Structural)]
pub enum Severity {
    /// The declaration block fails and produces zero descriptors.
    Fatal,
}

/// One semantic diagnostic: what was violated and where.
#[derive(Clone, Copy, Debug, PartialEq, Eq, Structural)]
pub struct Diag {
    /// The violated rule.
    pub kind: DiagKind,
    /// The source region the violation points at.
    pub span: Span,
}

/// The human-readable message text of each diagnostic kind.
pub open spec fn spec_diag_message(k: DiagKind) -> Seq<char> {
    match k {
        DiagKind::DuplicateName => "duplicate declaration name"@,
        DiagKind::MissingAttribute => "missing required attribute"@,
        DiagKind::UnknownAttribute => "unknown attribute key"@,
        DiagKind::UnknownExchange => "reference to an undeclared exchange"@,
        DiagKind::RoutingKeyViolation => "routing_key required by direct and topic exchanges and forbidden otherwise"@,
        DiagKind::InvalidValue => "attribute value outside its allowed set"@,
    }
}

impl Diag {
    /// The human-readable message of this diagnostic.
    pub fn message(&self) -> (r: String)
        ensures
            r@ == spec_diag_message(self.kind),
    {
        match self.kind {
            DiagKind::DuplicateName => "duplicate declaration name".to_owned(),
            DiagKind::MissingAttribute => "missing required attribute".to_owned(),
            DiagKind::UnknownAttribute => "unknown attribute key".to_owned(),
            DiagKind::UnknownExchange => "reference to an undeclared exchange".to_owned(),
            DiagKind::RoutingKeyViolation => "routing_key required by direct and topic exchanges and forbidden otherwise".to_owned(),
            DiagKind::InvalidValue => "attribute value outside its allowed set".to_owned(),
        }
    }

    /// The severity of this diagnostic; every current diagnostic is fatal.
    pub fn severity(&self) -> (r: Severity)
        ensures
            r == Severity::Fatal,
    {
        Severity::Fatal
    }
}

/// One item of a compilation unit's failure report: a parse error or a
/// semantic diagnostic.
#[derive(Clone, Copy, Debug, PartialEq, Eq, Structural)]
pub enum ReportItem {
    /// Malformed declarative syntax.
    Parse(ParseError),
    /// A semantic-validation violation.
    Semantic(Diag),
}

/// The aggregate failure report of one compilation unit. A declaration
/// block fails all-or-nothing: whenever a report is produced it is
/// non-empty, and the block yields zero descriptors.
#[derive(Debug)]
pub struct Report {
    /// Every diagnostic of the compilation unit, in source order.
    pub items: Vec<ReportItem>,
}

impl Report {
    /// The number of diagnostics in the report.
    pub fn len(&self) -> (r: usize)
        ensures
            r == self.items@.len(),
    {
        self.items.len()
    }

    /// The diagnostic at position `i` of the report.
    pub fn item(&self, i: usize) -> (r: ReportItem)
        requires
            i < self.items@.len(),
        ensures
            r == self.items@[i as int],
    {
        self.items[i]
    }
}

} // verus!
