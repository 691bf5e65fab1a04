use vstd::prelude::*;

use crate::ast::{Diagnostic, DiagnosticKind, Expr, LiteralValue, Mutability, Span};

verus! {

/// The expression has one of the two accepted shapes: a byte-text literal,
/// or an immutable reference to an array literal of byte constants.
pub open spec fn accepted_shape(e: Expr) -> bool {
    ||| e is ByteTextLit
    ||| e matches Expr::ArrayRef(Mutability::Immutable, _)
}

/// The classified value of an accepted expression: the byte-text's bytes, or
/// the array's elements, in their original order.
pub open spec fn classified(e: Expr) -> LiteralValue
    recommends
        accepted_shape(e),
{
    match e {
        Expr::ByteTextLit(b) => LiteralValue::ByteText(b),
        Expr::ArrayRef(_, a) => LiteralValue::ByteArray(a),
        _ => arbitrary(),
    }
}

/// Literal classifier: accept exactly the two shapes of `accepted_shape`,
/// exhaustively; every other expression shape yields one
/// `UnsupportedLiteralKind` diagnostic at the expression's span. Element
/// value-range checking is deferred to downstream type checking.
pub fn classify(value: Expr, value_span: Span) -> (r: Result<LiteralValue, Diagnostic>)
    ensures
        r is Ok <==> accepted_shape(value),
        r matches Ok(v) ==> v == classified(value),
        r matches Err(d) ==> d == (Diagnostic {
            kind: DiagnosticKind::UnsupportedLiteralKind,
            span: value_span,
        }),
{
    match value {
        Expr::ByteTextLit(b) => Ok(LiteralValue::ByteText(b)),
        Expr::ArrayRef(Mutability::Immutable, a) => Ok(LiteralValue::ByteArray(a)),
        _ => Err(Diagnostic { kind: DiagnosticKind::UnsupportedLiteralKind, span: value_span }),
    }
}

} // verus!
