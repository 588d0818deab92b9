//! Small trusted wrappers around calls that vstd gives no specification
//! for: the wall clock, the CPU count, string prefix/suffix/replace
//! helpers, and shared-pointer cloning.

use vstd::prelude::*;
use std::sync::Arc;
use std::time::SystemTime;
use crate::text::spec_replace_char;

verus! {

/// Relies on std::time::SystemTime::now: the wall clock, read as whole
/// nanoseconds since the UNIX epoch (zero if the clock reports a time
/// before the epoch, `u64::MAX` if beyond range). Nothing is promised of
/// the value: callers must state what holds of every outcome.
#[verifier::external_body]
pub fn wall_clock_now_ns() -> u64 {
    match SystemTime::now().duration_since(SystemTime::UNIX_EPOCH) {
        Ok(d) => {
            let ns = d.as_nanos();
            if ns > u64::MAX as u128 {
                u64::MAX
            } else {
                ns as u64
            }
        },
        Err(_) => 0,
    }
}

/// Relies on num_cpus::get: the number of logical CPUs, which its
/// documentation promises is always at least one.
#[verifier::external_body]
pub fn cpu_count() -> (r: usize)
    ensures
        r >= 1,
{
    num_cpus::get()
}

/// Relies on str::starts_with: true exactly when the pattern's characters
/// are a prefix of the string's.
#[verifier::external_body]
pub fn str_starts_with(s: &str, p: &str) -> (r: bool)
    ensures
        r == (p@.len() <= s@.len() && s@.subrange(0, p@.len() as int) == p@),
{
    s.starts_with(p)
}

/// Relies on str::ends_with: true exactly when the pattern's characters are
/// a suffix of the string's.
#[verifier::external_body]
pub fn str_ends_with(s: &str, p: &str) -> (r: bool)
    ensures
        r == (p@.len() <= s@.len() && s@.subrange(s@.len() - p@.len(), s@.len() as int) == p@),
{
    s.ends_with(p)
}

/// Relies on str::replace: every occurrence of the one-character pattern is
/// replaced by the replacement, left to right.
#[verifier::external_body]
pub fn replace_char(s: &str, from: char, to: &str) -> (r: String)
    ensures
        r@ == spec_replace_char(s@, from, to@),
{
    s.replace(from, to)
}

/// Relies on std::sync::Arc::clone: the clone shares the same underlying
/// value, so it is equal to the original.
#[verifier::external_body]
pub fn arc_clone(a: &Arc<String>) -> (r: Arc<String>)
    ensures
        r == *a,
{
    Arc::clone(a)
}

} // verus!
