//! Console output: text goes out one UTF-8 byte per SBI request.
use crate::sbi::{console_putchar, request, SbiCall, SBI_CONSOLE_PUTCHAR};
use vstd::prelude::*;
use vstd::string::StringSliceAdditionalSpecFns;

verus! {

/// The requests that print the bytes `b`, one per byte, in order.
pub open spec fn putchar_requests(b: Seq<u8>) -> Seq<SbiCall> {
    Seq::new(b.len(), |i: int| request(SBI_CONSOLE_PUTCHAR, b[i] as usize))
}

/// The SBI requests that print `s`: one console request per byte of its UTF-8
/// encoding, so that a character outside ASCII takes several.
pub fn print(s: &str) -> (r: Vec<SbiCall>)
    ensures
        r@ == putchar_requests(s.spec_bytes()),
{
    let bytes = s.as_bytes();
    let mut r: Vec<SbiCall> = Vec::new();
    let mut i: usize = 0;
    while i < bytes.len()
        invariant
            bytes@ == s.spec_bytes(),
            i <= bytes@.len(),
            r@ == putchar_requests(bytes@.subrange(0, i as int)),
        decreases bytes@.len() - i,
    {
        r.push(console_putchar(bytes[i] as usize));
        i = i + 1;
        assert(r@ =~= putchar_requests(bytes@.subrange(0, i as int)));
    }
    assert(bytes@.subrange(0, i as int) =~= bytes@);
    r
}

} // verus!
