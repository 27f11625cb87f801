//! Random names for transcription jobs.

use rand::Rng;
use vstd::prelude::*;

use crate::text::push_char;

verus! {

/// Length of a generated job name.
pub const JOB_NAME_LEN: usize = 10;

/// An ASCII letter or digit, by code point.
pub open spec fn is_ascii_alphanumeric(code: u32) -> bool {
    (0x30 <= code <= 0x39) || (0x41 <= code <= 0x5a) || (0x61 <= code <= 0x7a)
}

/// Relies on `rand::thread_rng` sampled with `rand::distributions::Alphanumeric`:
/// each draw is one of `A-Z`, `a-z`, `0-9`.
#[verifier::external_body]
fn random_alphanumeric() -> (b: u8)
    ensures
        is_ascii_alphanumeric(b as u32),
{
    rand::thread_rng().sample(rand::distributions::Alphanumeric)
}

/// A fresh job name: ten random ASCII letters and digits.
pub fn generate_random_job_name() -> (name: String)
    ensures
        name@.len() == JOB_NAME_LEN,
        forall|i: int| 0 <= i < name@.len() ==> is_ascii_alphanumeric(#[trigger] name@[i] as u32),
{
    let mut name = String::new();
    let mut n: usize = 0;
    while n < JOB_NAME_LEN
        invariant
            n <= JOB_NAME_LEN,
            name@.len() == n,
            forall|i: int| 0 <= i < name@.len() ==> is_ascii_alphanumeric(#[trigger] name@[i] as u32),
        decreases JOB_NAME_LEN - n,
    {
        let b = random_alphanumeric();
        push_char(&mut name, b as char);
        n = n + 1;
    }
    name
}

} // verus!
