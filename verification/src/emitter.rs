use vstd::prelude::*;

use crate::ast::{Declaration, LiteralValue, Linkage, Mutability, init_len};

verus! {

/// Declaration emitter: build the one generated declaration. The name is the
/// parsed identifier unchanged, the length is the element count of the
/// (already terminated) value, the initializer is that value in its original
/// literal family, and the declaration is immutable with a fixed external
/// symbol name.
pub fn emit_declaration(name: String, value: LiteralValue) -> (d: Declaration)
    ensures
        d.name == name,
        d.init == value,
        d.length == init_len(value),
        d.linkage is ExternalFixedName,
        d.mutability is Immutable,
{
    let length: usize = match &value {
        LiteralValue::ByteText(b) => b.len(),
        LiteralValue::ByteArray(a) => a.len(),
    };
    Declaration {
        name,
        length,
        init: value,
        linkage: Linkage::ExternalFixedName,
        mutability: Mutability::Immutable,
    }
}

} // verus!
