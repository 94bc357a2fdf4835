use std::time::Duration;
use rand::Rng;
use vstd::prelude::*;

verus! {

/// Whole milliseconds held by a duration, as `Duration::as_millis` reports them.
pub uninterp spec fn millis_of(d: Duration) -> u128;

/// A count of milliseconds capped at `u64::MAX`.
pub open spec fn saturated(ms: int) -> u64 {
    if ms > u64::MAX as int {
        u64::MAX
    } else {
        ms as u64
    }
}

/// A character that may stand in a random token: an ASCII letter or digit.
pub open spec fn is_token_char(c: char) -> bool {
    ('a' <= c && c <= 'z') || ('A' <= c && c <= 'Z') || ('0' <= c && c <= '9')
}

/// Relies on `Duration::as_millis`: the total number of whole milliseconds
/// in the duration, which depends on the duration alone.
#[verifier::external_body]
fn whole_millis(d: Duration) -> (r: u128)
    ensures
        r == millis_of(d),
{
    d.as_millis()
}

/// Relies on rand's `Rng::gen_ascii_chars` on the thread-local generator:
/// each character it yields is drawn from `A-Z`, `a-z` and `0-9`.
#[verifier::external_body]
fn random_token_char() -> (c: char)
    ensures
        is_token_char(c),
{
    rand::thread_rng().gen_ascii_chars().next().unwrap()
}

/// Relies on rand's `Rng::gen_range` on the thread-local generator: a value
/// in `[low, high)`; it panics unless `low < high`.
#[verifier::external_body]
pub(crate) fn random_between(low: i64, high: i64) -> (r: i64)
    requires
        low < high,
    ensures
        low <= r < high,
{
    rand::thread_rng().gen_range(low, high)
}

/// Relies on `String::push`: appends the character at the end.
#[verifier::external_body]
fn push_char(s: &mut String, c: char)
    ensures
        final(s)@ == old(s)@.push(c),
{
    s.push(c)
}

/// A string of `len` characters, each an ASCII letter or digit drawn at random.
pub fn get_random_string(len: usize) -> (r: String)
    ensures
        r@.len() == len,
        forall|i: int| 0 <= i < len ==> #[trigger] is_token_char(r@[i]),
{
    let mut s = String::new();
    let mut i: usize = 0;
    while i < len
        invariant
            i <= len,
            s@.len() == i,
            forall|k: int| 0 <= k < i ==> #[trigger] is_token_char(s@[k]),
        decreases len - i,
    {
        let c = random_token_char();
        push_char(&mut s, c);
        i = i + 1;
    }
    s
}

/// Narrows a count of milliseconds to `u64`, saturating at `u64::MAX`.
pub fn saturate_millis(ms: u128) -> (r: u64)
    ensures
        r == saturated(ms as int),
{
    if ms > u64::MAX as u128 {
        u64::MAX
    } else {
        ms as u64
    }
}

/// The whole milliseconds of a duration; saturates at `u64::MAX` rather
/// than wrapping.
pub fn num_milliseconds(duration: Duration) -> (r: u64)
    ensures
        r == saturated(millis_of(duration) as int),
{
    saturate_millis(whole_millis(duration))
}

} // verus!
