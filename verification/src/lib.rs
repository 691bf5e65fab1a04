//! A source-level declaration generator for NUL-terminated byte buffers.
//!
//! Given a symbolic name and a literal value — either a byte-text literal or
//! an immutable reference to an array literal of byte constants — the
//! processor appends a terminating zero byte and produces a fixed-layout,
//! externally visible, read-only byte-array declaration bound to that name,
//! so code written against a foreign-function convention can declare such
//! buffers with native literal syntax and a guaranteed terminator.
//!
//! Processing is a pure, per-invocation transform of four stages with no
//! shared state: argument splitting, literal classification, terminator
//! appending, and declaration emission. Each invocation either yields exactly
//! one declaration or exactly one diagnostic, never both and never more.

pub mod ast;
pub mod splitter;
pub mod classifier;
pub mod appender;
pub mod emitter;

use vstd::prelude::*;

use crate::ast::{
    decl_well_formed, Declaration, Diagnostic, DiagnosticKind, Expr, Invocation, LiteralValue,
    Span, TokenKind, TokenTree,
};
use crate::appender::{append_terminator, with_terminator};
use crate::classifier::{accepted_shape, classify};
use crate::emitter::emit_declaration;
use crate::splitter::{args_well_formed, split_arguments, split_diagnostic};

verus! {

/// The invocation expands to a declaration: its arguments parse as name,
/// comma, expression with nothing trailing, and the expression has one of
/// the two accepted literal shapes.
pub open spec fn invocation_valid(t: Seq<TokenTree>) -> bool {
    &&& args_well_formed(t)
    &&& t[2].kind matches TokenKind::Expression(e) && accepted_shape(e)
}

/// What the generated declaration looks like for a valid invocation: it is
/// bound to the parsed identifier unchanged, its initializer is the input
/// value extended by one zero element in the input's own literal family, its
/// length is the input length plus one, and it is a well-formed immutable
/// declaration with a fixed external symbol name.
pub open spec fn expansion_ok(t: Seq<TokenTree>, d: Declaration) -> bool {
    &&& t[0].kind matches TokenKind::Ident(n) && d.name == n
    &&& t[2].kind matches TokenKind::Expression(e) && {
        &&& (e matches Expr::ByteTextLit(b) ==> d.init matches LiteralValue::ByteText(out)
            && out@ == with_terminator(b@, 0u8) && d.length == b@.len() + 1)
        &&& (e matches Expr::ArrayRef(_, a) ==> d.init matches LiteralValue::ByteArray(out)
            && out@ == with_terminator(a@, 0u64) && d.length == a@.len() + 1)
    }
    &&& decl_well_formed(d)
}

/// The single diagnostic of a failing invocation: a malformed argument
/// stream reports the first failing parse stage, and a well-formed stream
/// whose expression has an unaccepted shape reports that shape at the
/// expression's span.
pub open spec fn expansion_diagnostic(inv_span: Span, t: Seq<TokenTree>) -> Diagnostic
    recommends
        !invocation_valid(t),
{
    if !args_well_formed(t) {
        split_diagnostic(inv_span, t)
    } else {
        Diagnostic { kind: DiagnosticKind::UnsupportedLiteralKind, span: t[2].span }
    }
}

/// Directive processor: expand one invocation to its declaration.
///
/// The four stages run in order — split, classify, append the terminator,
/// emit — with no state shared between invocations. Exactly one declaration
/// comes back on success; exactly one diagnostic, and no partial or
/// placeholder declaration, on failure.
pub fn process_invocation(inv: Invocation) -> (r: Result<Declaration, Diagnostic>)
    ensures
        r is Ok <==> invocation_valid(inv.tokens@),
        r matches Ok(d) ==> expansion_ok(inv.tokens@, d),
        r matches Err(g) ==> g == expansion_diagnostic(inv.span, inv.tokens@),
{
    let args = match split_arguments(inv) {
        Ok(a) => a,
        Err(g) => {
            return Err(g);
        },
    };
    let lit = match classify(args.value, args.value_span) {
        Ok(v) => v,
        Err(g) => {
            return Err(g);
        },
    };
    let full = append_terminator(lit);
    let decl = emit_declaration(args.name, full);
    Ok(decl)
}

} // verus!
