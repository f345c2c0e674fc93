//! Random draws for the generation engine: bounded integers for names and
//! sizes, and lowercase-letter payload strings.

use vstd::prelude::*;

use crate::text::push_char;
use rand::Rng;

verus! {

/// Whether `c` is one of the 26 lowercase ASCII letters.
pub open spec fn is_lowercase_letter(c: char) -> bool {
    'a' as int <= c as int <= 'z' as int
}

/// Relies on `rand::Rng::gen_range` over an inclusive integer range,
/// called on `rand::thread_rng()`: it returns a value within both bounds
/// and panics only when the range is empty.
#[verifier::external_body]
pub(crate) fn random_in_range(lo: u64, hi: u64) -> (r: u64)
    requires
        lo <= hi,
    ensures
        lo <= r <= hi,
{
    rand::thread_rng().gen_range(lo..=hi)
}

/// Produces a string of exactly `length` characters, each drawn from the
/// 26 lowercase ASCII letters.
pub fn generate_random_string(length: usize) -> (r: String)
    ensures
        r@.len() == length,
        forall|i: int| 0 <= i < r@.len() ==> is_lowercase_letter(#[trigger] r@[i]),
{
    let mut s = String::new();
    let mut n: usize = 0;
    while n < length
        invariant
            n <= length,
            s@.len() == n,
            forall|i: int| 0 <= i < s@.len() ==> is_lowercase_letter(#[trigger] s@[i]),
        decreases length - n,
    {
        let d = random_in_range(0, 25);
        let b: u8 = 97 + (d as u8);
        let c: char = b as char;
        proof {
            assert(c as int == b as int);
            assert(is_lowercase_letter(c));
        }
        push_char(&mut s, c);
        n = n + 1;
    }
    s
}

} // verus!
