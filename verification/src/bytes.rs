//! Byte strings of the one fixed width that keys have.

use vstd::prelude::*;

verus! {

/// The bytes of a byte string of exactly 32 bytes, as an array. A byte
/// string of another length has none: it is neither cut nor filled up.
pub fn to_array(bytes: &Vec<u8>) -> (r: Option<[u8; 32]>)
    ensures
        match r {
            Some(array) => bytes@.len() == 32 && array@ == bytes@,
            None => bytes@.len() != 32,
        },
{
    if bytes.len() != 32 {
        return None;
    }
    let mut out = [0u8; 32];
    let mut i: usize = 0;
    while i < 32
        invariant
            i <= 32,
            bytes@.len() == 32,
            out@.len() == 32,
            forall|j: int| 0 <= j < i ==> out@[j] == bytes@[j],
        decreases 32 - i,
    {
        out[i] = bytes[i];
        i = i + 1;
    }
    assert(out@ =~= bytes@);
    Some(out)
}

/// The bytes of an array, as a byte string.
pub fn to_vec(array: &[u8; 32]) -> (r: Vec<u8>)
    ensures
        r@ == array@,
{
    let mut out: Vec<u8> = Vec::new();
    let mut i: usize = 0;
    while i < 32
        invariant
            i <= 32,
            out@.len() == i,
            forall|j: int| 0 <= j < i ==> out@[j] == array@[j],
        decreases 32 - i,
    {
        out.push(array[i]);
        i = i + 1;
    }
    assert(out@ =~= array@);
    out
}

} // verus!
