use vstd::prelude::*;

use crate::ast::LiteralValue;

verus! {

/// A sequence extended with its terminating zero element.
pub open spec fn with_terminator<T>(s: Seq<T>, zero: T) -> Seq<T> {
    s.push(zero)
}

/// Terminator appender: append one zero element of the value's own literal
/// family. Pure and total over classified values; it cannot fail.
pub fn append_terminator(value: LiteralValue) -> (r: LiteralValue)
    ensures
        value matches LiteralValue::ByteText(b) ==> r matches LiteralValue::ByteText(out)
            && out@ == with_terminator(b@, 0u8),
        value matches LiteralValue::ByteArray(a) ==> r matches LiteralValue::ByteArray(out)
            && out@ == with_terminator(a@, 0u64),
{
    match value {
        LiteralValue::ByteText(mut b) => {
            b.push(0u8);
            LiteralValue::ByteText(b)
        },
        LiteralValue::ByteArray(mut a) => {
            a.push(0u64);
            LiteralValue::ByteArray(a)
        },
    }
}

/// For every byte-text value `s`, the terminated value has length
/// `s.len() + 1`, its last byte is zero, and its first `s.len()` bytes are
/// `s`, in order.
pub proof fn lemma_byte_text_termination(s: Seq<u8>)
    ensures
        with_terminator(s, 0u8).len() == s.len() + 1,
        with_terminator(s, 0u8).last() == 0u8,
        forall|i: int| 0 <= i < s.len() ==> with_terminator(s, 0u8)[i] == s[i],
{
}

/// For every array value `s`, the terminated value has length `s.len() + 1`,
/// its last element is the zero constant, and its first `s.len()` elements
/// equal `s`, in order.
pub proof fn lemma_byte_array_termination(s: Seq<u64>)
    ensures
        with_terminator(s, 0u64).len() == s.len() + 1,
        with_terminator(s, 0u64).last() == 0u64,
        forall|i: int| 0 <= i < s.len() ==> with_terminator(s, 0u64)[i] == s[i],
{
}

} // verus!
