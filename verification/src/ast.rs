use vstd::prelude::*;

verus! {

/// A half-open range of source positions. Diagnostics carry the span of the
/// construct they complain about, so the host can point at the right place.
#[derive(Clone, Copy, PartialEq, Eq, Structural, Debug)]
pub struct Span {
    pub lo: usize,
    pub hi: usize,
}

/// Whether a borrow (or a generated declaration) permits mutation.
#[derive(Clone, Copy, PartialEq, Eq, Structural, Debug)]
pub enum Mutability {
    Immutable,
    Mutable,
}

/// An argument expression, as the host's expression sub-parser hands it over.
///
/// Only two shapes are accepted downstream: a byte-text literal (`ByteTextLit`)
/// and an immutable reference to an array literal of byte-valued constants
/// (`ArrayRef` with `Mutability::Immutable`). The remaining variants exist so
/// that classification is an exhaustive match over a closed set of shapes with
/// no silent fallback: a plain text literal, any other literal, a reference to
/// something that is not an array literal, and any other expression shape.
///
/// Array elements are carried as plain constants; whether each value fits in a
/// byte is not checked here and is left to downstream type checking.
#[derive(Debug)]
pub enum Expr {
    ByteTextLit(Vec<u8>),
    TextLit(String),
    OtherLit,
    ArrayRef(Mutability, Vec<u64>),
    OtherRef(Mutability),
    Other,
}

/// One token of an invocation's argument stream. An `Expression` token stands
/// for a run of source tokens that the host's sub-parser turned into an
/// expression; a position where an expression is required but no `Expression`
/// token stands models a sub-parser failure there.
#[derive(Debug)]
pub enum TokenKind {
    Ident(String),
    Comma,
    Expression(Expr),
}

/// A token together with the source span it came from.
#[derive(Debug)]
pub struct TokenTree {
    pub span: Span,
    pub kind: TokenKind,
}

/// The raw argument token sequence of one use-site, consumed once.
#[derive(Debug)]
pub struct Invocation {
    pub span: Span,
    pub tokens: Vec<TokenTree>,
}

/// The closed taxonomy of failures. Every failing invocation produces exactly
/// one diagnostic, of exactly one of these kinds.
#[derive(Clone, Copy, PartialEq, Eq, Structural, Debug)]
pub enum DiagnosticKind {
    MissingIdentifier,
    MissingComma,
    ExpressionParseError,
    TrailingTokens,
    UnsupportedLiteralKind,
}

/// A single report for a failing invocation: what went wrong, and where.
#[derive(Clone, Copy, PartialEq, Eq, Structural, Debug)]
pub struct Diagnostic {
    pub kind: DiagnosticKind,
    pub span: Span,
}

/// A classified literal value: the closed variant that survives
/// classification. No other shape is representable past that point.
#[derive(Debug)]
pub enum LiteralValue {
    ByteText(Vec<u8>),
    ByteArray(Vec<u64>),
}

/// How the generated declaration's symbol is named. `ExternalFixedName` means
/// the compiled symbol equals the source identifier exactly, with no
/// compiler-applied decoration, so foreign callers can look it up by name.
#[derive(Clone, Copy, PartialEq, Eq, Structural, Debug)]
pub enum Linkage {
    ExternalFixedName,
    Decorated,
}

/// The generated top-level declaration: a fixed-size, read-only array of
/// bytes. The element type is always a byte, carried by the initializer's
/// shape; `length` is the number of elements, terminator included.
#[derive(Debug)]
pub struct Declaration {
    pub name: String,
    pub length: usize,
    pub init: LiteralValue,
    pub linkage: Linkage,
    pub mutability: Mutability,
}

/// The fixed wording for each diagnostic kind, for hosts that render
/// diagnostics as text. The unsupported-literal message names the two
/// accepted shapes; the rest name the token the splitter required.
pub fn diagnostic_message(kind: &DiagnosticKind) -> (r: &'static str)
    ensures
        kind is MissingIdentifier ==> r@ == "expected identifier"@,
        kind is MissingComma ==> r@ == "expected `,`"@,
        kind is ExpressionParseError ==> r@ == "expected expression"@,
        kind is TrailingTokens ==> r@ == "expected `)`"@,
        kind is UnsupportedLiteralKind ==> r@
            == "only byte string literals and references to array literals are supported"@,
{
    match kind {
        DiagnosticKind::MissingIdentifier => "expected identifier",
        DiagnosticKind::MissingComma => "expected `,`",
        DiagnosticKind::ExpressionParseError => "expected expression",
        DiagnosticKind::TrailingTokens => "expected `)`",
        DiagnosticKind::UnsupportedLiteralKind => "only byte string literals and references to array literals are supported",
    }
}

/// The number of elements a classified value holds.
pub open spec fn init_len(v: LiteralValue) -> nat {
    match v {
        LiteralValue::ByteText(b) => b@.len(),
        LiteralValue::ByteArray(e) => e@.len(),
    }
}

/// The value is non-empty and its final element is the zero byte constant.
pub open spec fn last_is_zero(v: LiteralValue) -> bool {
    match v {
        LiteralValue::ByteText(b) => b@.len() > 0 && b@.last() == 0u8,
        LiteralValue::ByteArray(e) => e@.len() > 0 && e@.last() == 0u64,
    }
}

/// The invariant of every generated declaration: its recorded length matches
/// its initializer, it is terminated by a zero element, it is immutable, and
/// its symbol is exported under the unchanged source name.
pub open spec fn decl_well_formed(d: Declaration) -> bool {
    &&& d.length == init_len(d.init)
    &&& d.length >= 1
    &&& last_is_zero(d.init)
    &&& d.linkage is ExternalFixedName
    &&& d.mutability is Immutable
}

} // verus!
