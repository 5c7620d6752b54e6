//! Building large uniform buffers, for experiments in how far an
//! allocation can be pushed. The experiment itself — trapping the abort
//! when memory runs out — belongs to the surrounding program; the buffer
//! that is asked for is built here.

use vstd::prelude::*;

verus! {

/// A buffer of `size` copies of `byte`.
pub fn filled_bytes(size: usize, byte: u8) -> (r: Vec<u8>)
    ensures
        r@.len() == size,
        forall|i: int| 0 <= i < size ==> r@[i] == byte,
{
    let mut r: Vec<u8> = Vec::new();
    let mut i: usize = 0;
    while i < size
        invariant
            i <= size,
            r@.len() == i,
            forall|j: int| 0 <= j < i ==> r@[j] == byte,
        decreases size - i,
    {
        r.push(byte);
        i += 1;
    }
    r
}

} // verus!
