use vstd::prelude::*;

verus! {

/// A buffer of `length` zero bytes for the native side to fill.
pub fn zeroed_buffer(length: u32) -> (buffer: Vec<u8>)
    ensures
        buffer@.len() == length,
        forall|i: int| 0 <= i < length ==> buffer@[i] == 0,
{
    let mut buffer: Vec<u8> = Vec::new();
    let mut i: u32 = 0;
    while i < length
        invariant
            i <= length,
            buffer@.len() == i,
            forall|j: int| 0 <= j < i ==> buffer@[j] == 0,
        decreases length - i,
    {
        buffer.push(0);
        i = i + 1;
    }
    buffer
}

} // verus!
