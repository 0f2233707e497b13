//! Small helpers for exercising the service from test harnesses.

use vstd::prelude::*;

verus! {

/// A vector of `n` copies of `c`, defaulting to the byte `'A'` when no fill
/// byte is given.
pub fn generate_nbytes(n: usize, c: Option<u8>) -> (r: Vec<u8>)
    ensures
        r@.len() == n,
        forall|i: int|
            0 <= i < r@.len() ==> r@[i] == (match c {
                Some(b) => b,
                None => 65u8,
            }),
{
    let c: u8 = match c {
        Some(c) => c,
        None => 65u8,
    };
    vec![c; n]
}

} // verus!
