//! The random tail of an identifier.

use crate::alphabet::{all_alphanumeric, is_alphanumeric};
use rand::distributions::Alphanumeric;
use rand::rngs::ThreadRng;
use rand::Rng;
use vstd::prelude::*;

verus! {

/// The thread-local generator of the `rand` crate, carried as an opaque value.
#[verifier::external_type_specification]
#[verifier::external_body]
pub struct ExThreadRng(ThreadRng);

/// `rand::thread_rng` hands out the calling thread's generator. Nothing is
/// claimed of it.
pub assume_specification[ rand::thread_rng ]() -> ThreadRng;

/// Draws one byte with `Rng::sample` from `rand`'s `Alphanumeric`
/// distribution, which picks from the 62 codes of `A`-`Z`, `a`-`z` and
/// `0`-`9`. Which of them comes out is left open.
#[verifier::external_body]
fn sample_alphanumeric(rng: &mut ThreadRng) -> (b: u8)
    ensures
        is_alphanumeric(b as char),
{
    rng.sample(Alphanumeric)
}

/// Draws `elements` random ASCII letters and digits.
pub fn rnd_string(elements: u8) -> (s: String)
    ensures
        s@.len() == elements,
        all_alphanumeric(s@),
{
    let mut rng = rand::thread_rng();
    let mut s = String::new();
    let mut drawn: u8 = 0;
    while drawn < elements
        invariant
            drawn <= elements,
            s@.len() == drawn,
            all_alphanumeric(s@),
        decreases elements - drawn,
    {
        let b = sample_alphanumeric(&mut rng);
        s.push(b as char);
        drawn = drawn + 1;
    }
    s
}

} // verus!
