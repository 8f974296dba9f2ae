//! Random identifiers.

use vstd::prelude::*;
use rand::Rng;
use crate::text::push_char;

verus! {

/// Whether `c` is an ASCII letter or digit.
pub open spec fn is_alphanumeric(c: char) -> bool {
    ('0' <= c && c <= '9') || ('A' <= c && c <= 'Z') || ('a' <= c && c <= 'z')
}

/// Whether `s` is made of `len` ASCII letters and digits.
pub open spec fn is_random_id(s: Seq<char>, len: nat) -> bool {
    &&& s.len() == len
    &&& forall|i: int| 0 <= i < s.len() ==> is_alphanumeric(#[trigger] s[i])
}

/// One random ASCII letter or digit.
///
/// Trusted: samples `rand::distributions::Alphanumeric` from
/// `rand::thread_rng()`. The distribution draws a byte from the 62 ASCII
/// letters and digits; which one is left open. The generator of the thread
/// panics if the operating system gives it no seed.
#[verifier::external_body]
fn random_alphanumeric() -> (c: char)
    ensures
        is_alphanumeric(c),
{
    char::from(rand::thread_rng().sample(rand::distributions::Alphanumeric))
}

/// A string of `len` random ASCII letters and digits.
pub fn random_string(len: usize) -> (s: String)
    ensures
        is_random_id(s@, len as nat),
{
    let mut s = String::new();
    let mut i: usize = 0;
    while i < len
        invariant
            i <= len,
            is_random_id(s@, i as nat),
        decreases len - i,
    {
        let c = random_alphanumeric();
        push_char(&mut s, c);
        i = i + 1;
    }
    s
}

} // verus!
