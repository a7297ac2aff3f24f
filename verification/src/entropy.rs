//! The source of the arbitrary bytes that stand for memory at power-on.

use crate::state::RAM_SIZE;
use rand::Rng;
use vstd::prelude::*;

verus! {

/// One byte from `rand::thread_rng().gen()`.
///
/// Nothing is claimed of the byte: the generator is seeded by the operating
/// system, and two calls need not agree. The generator panics only if the
/// system cannot seed it.
#[verifier::external_body]
fn random_byte() -> (byte: u8) {
    rand::thread_rng().gen()
}

/// A full video memory of arbitrary bytes, as a real chip holds at power-on.
pub(crate) fn random_memory() -> (ram: Vec<u8>)
    ensures
        ram@.len() == RAM_SIZE,
{
    let mut ram: Vec<u8> = Vec::with_capacity(RAM_SIZE);
    let mut filled: usize = 0;
    while filled < RAM_SIZE
        invariant
            filled <= RAM_SIZE,
            ram@.len() == filled,
        decreases RAM_SIZE - filled,
    {
        ram.push(random_byte());
        filled += 1;
    }
    ram
}

} // verus!
