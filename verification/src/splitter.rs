use vstd::prelude::*;

use crate::ast::{Diagnostic, DiagnosticKind, Expr, Invocation, Span, TokenKind, TokenTree};

verus! {

/// The two arguments of one invocation: the declared name and the literal
/// expression giving its value, with the expression's span for reporting.
#[derive(Debug)]
pub struct ParsedArguments {
    pub name: String,
    pub value: Expr,
    pub value_span: Span,
}

/// The argument stream parses cleanly: one identifier, a comma, one
/// expression, and nothing after it.
pub open spec fn args_well_formed(t: Seq<TokenTree>) -> bool {
    &&& t.len() == 3
    &&& t[0].kind is Ident
    &&& t[1].kind is Comma
    &&& t[2].kind is Expression
}

/// The single diagnostic for a malformed argument stream: the first stage
/// that fails decides the kind, reported at the failing token, or at the
/// invocation's own span when the input ended too early.
pub open spec fn split_diagnostic(inv_span: Span, t: Seq<TokenTree>) -> Diagnostic
    recommends
        !args_well_formed(t),
{
    if t.len() == 0 {
        Diagnostic { kind: DiagnosticKind::MissingIdentifier, span: inv_span }
    } else if !(t[0].kind is Ident) {
        Diagnostic { kind: DiagnosticKind::MissingIdentifier, span: t[0].span }
    } else if t.len() == 1 {
        Diagnostic { kind: DiagnosticKind::MissingComma, span: inv_span }
    } else if !(t[1].kind is Comma) {
        Diagnostic { kind: DiagnosticKind::MissingComma, span: t[1].span }
    } else if t.len() == 2 {
        Diagnostic { kind: DiagnosticKind::ExpressionParseError, span: inv_span }
    } else if !(t[2].kind is Expression) {
        Diagnostic { kind: DiagnosticKind::ExpressionParseError, span: t[2].span }
    } else {
        Diagnostic { kind: DiagnosticKind::TrailingTokens, span: t[3].span }
    }
}

/// Argument splitter: parse one identifier, require a comma, parse exactly
/// one expression, require end of input. The invocation is consumed; on
/// success the name and the expression are handed on unchanged, and on
/// failure the one diagnostic of the first failing stage comes back.
pub fn split_arguments(inv: Invocation) -> (r: Result<ParsedArguments, Diagnostic>)
    ensures
        r is Ok <==> args_well_formed(inv.tokens@),
        r matches Ok(p) ==> {
            &&& inv.tokens@[0].kind matches TokenKind::Ident(n) && p.name == n
            &&& inv.tokens@[2].kind matches TokenKind::Expression(e) && p.value == e
            &&& p.value_span == inv.tokens@[2].span
        },
        r matches Err(d) ==> d == split_diagnostic(inv.span, inv.tokens@),
{
    let Invocation { span: inv_span, tokens: mut tokens } = inv;
    if tokens.len() == 0 {
        return Err(Diagnostic { kind: DiagnosticKind::MissingIdentifier, span: inv_span });
    }
    let t0 = tokens.remove(0);
    let name: String = match t0 {
        TokenTree { span: _, kind: TokenKind::Ident(n) } => n,
        t => {
            return Err(Diagnostic { kind: DiagnosticKind::MissingIdentifier, span: t.span });
        },
    };
    if tokens.len() == 0 {
        return Err(Diagnostic { kind: DiagnosticKind::MissingComma, span: inv_span });
    }
    let t1 = tokens.remove(0);
    match t1.kind {
        TokenKind::Comma => {},
        _ => {
            return Err(Diagnostic { kind: DiagnosticKind::MissingComma, span: t1.span });
        },
    }
    if tokens.len() == 0 {
        return Err(Diagnostic { kind: DiagnosticKind::ExpressionParseError, span: inv_span });
    }
    let t2 = tokens.remove(0);
    let (value, value_span): (Expr, Span) = match t2 {
        TokenTree { span: s, kind: TokenKind::Expression(e) } => (e, s),
        t => {
            return Err(Diagnostic { kind: DiagnosticKind::ExpressionParseError, span: t.span });
        },
    };
    if tokens.len() > 0 {
        let trailing_span = tokens[0].span;
        return Err(Diagnostic { kind: DiagnosticKind::TrailingTokens, span: trailing_span });
    }
    Ok(ParsedArguments { name, value, value_span })
}

} // verus!
