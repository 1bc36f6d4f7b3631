//! The mutation generator: on each timer tick it synthesizes a fresh random
//! fixed-length alphanumeric value to write under the watched key, for a
//! configured number of iterations, then signals completion.
//!
//! The timer and the bounded work queue the values travel through are the
//! surrounding program's concern; this module decides whether another
//! mutation is due and what value it carries.

use vstd::prelude::*;
use rand::RngExt;

verus! {

/// Length, in characters, of each randomly generated value.
pub const VALUE_LEN: usize = 30;

/// Whether `c` is one of the characters a generated value is drawn from:
/// ASCII letters and digits.
pub open spec fn is_alphanumeric_char(c: char) -> bool {
    ||| 'a' <= c <= 'z'
    ||| 'A' <= c <= 'Z'
    ||| '0' <= c <= '9'
}

/// A string fit to be written as a mutation value: exactly `len` characters,
/// all ASCII alphanumeric.
pub open spec fn valid_value(s: Seq<char>, len: nat) -> bool {
    &&& s.len() == len
    &&& forall|i: int| 0 <= i < s.len() ==> is_alphanumeric_char(#[trigger] s[i])
}

/// Relies on `rand`'s thread-local generator sampled through the
/// `Alphanumeric` distribution: every drawn character is an ASCII letter or
/// digit, and taking `len` of them yields a string of exactly `len`
/// characters. Nothing else is assumed of the values drawn.
#[verifier::external_body]
fn random_alphanumeric(len: usize) -> (r: String)
    ensures
        valid_value(r@, len as nat),
{
    rand::rng()
        .sample_iter(&rand::distr::Alphanumeric)
        .take(len)
        .map(char::from)
        .collect()
}

/// The generator's own state: how many mutations it has still to produce.
pub struct Generator {
    /// Mutations left to produce before the generator closes its queue.
    pub remaining: u64,
}

impl Generator {
    /// A generator that will produce `iterations` mutations, one per tick.
    pub fn new(iterations: u64) -> (g: Generator)
        ensures
            g.remaining == iterations,
    {
        Generator { remaining: iterations }
    }

    /// One timer tick: while iterations remain, produce a fresh random
    /// fixed-length value and count the iteration off; once none remain,
    /// produce nothing — the caller then closes the work queue, which is the
    /// generator's completion signal. Generation is pure computation and
    /// cannot fail.
    pub fn next_value(&mut self) -> (r: Option<String>)
        ensures
            old(self).remaining == 0 ==> r is None && *final(self) == *old(self),
            old(self).remaining > 0 ==> {
                &&& final(self).remaining == old(self).remaining - 1
                &&& r matches Some(v) && valid_value(v@, VALUE_LEN as nat)
            },
    {
        if self.remaining == 0 {
            None
        } else {
            self.remaining = self.remaining - 1;
            Some(random_alphanumeric(VALUE_LEN))
        }
    }
}

} // verus!
