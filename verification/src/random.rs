//! The random source. Everything in this file is trusted rather than proved: it
//! states what the `rand` crate and `core::char` promise of the calls made here.

use rand::rngs::ThreadRng;
use rand::Rng;
use vstd::prelude::*;

verus! {

/// `rand::rngs::ThreadRng`, the generator that every draw of the simulation comes
/// from. Its state is hidden, so no contract can speak of which value comes next.
#[verifier::external_type_specification]
#[verifier::external_body]
pub struct ExThreadRng(ThreadRng);

/// `rand::thread_rng` hands out the calling thread's generator, seeded by the
/// system. Nothing is claimed of the generator it returns.
pub assume_specification[ rand::thread_rng ]() -> (rng: ThreadRng);

/// Calls `Rng::gen_range` with the inclusive range `low..=high`. The call panics on
/// an empty range, which `requires` rules out; the value it returns lies within the
/// range. Which value that is depends on the generator, so nothing more is said.
#[verifier::external_body]
pub(crate) fn random_between(rng: &mut ThreadRng, low: u32, high: u32) -> (r: u32)
    requires
        low <= high,
    ensures
        low <= r <= high,
{
    rng.gen_range(low..=high)
}

/// Whether `code` is a Unicode scalar value: any code point but a surrogate.
pub open spec fn is_scalar_value(code: u32) -> bool {
    code <= 0xD7FF || 0xE000 <= code <= 0x10FFFF
}

/// `core::char::from_u32` returns the character with the given code point, and
/// `None` exactly when the number is not a Unicode scalar value.
pub assume_specification[ core::char::from_u32 ](code: u32) -> (c: Option<char>)
    ensures
        is_scalar_value(code) ==> c == Some(code as char),
        !is_scalar_value(code) ==> c.is_none(),
;

} // verus!
