use vstd::prelude::*;
use crate::request::Reply;

verus! {

/// Sets the key to the value, with a time to live in milliseconds, only if
/// the key is absent. Replies "OK" when it set the key, nil otherwise.
pub const LOCK: &'static str = "
    return redis.call(\"set\", KEYS[1], ARGV[1], \"NX\", \"PX\", ARGV[2])
  ";

/// Deletes the key only if it holds the value. Replies 1 when it deleted
/// the key, 0 otherwise.
pub const UNLOCK: &'static str = "
    if redis.call(\"get\", KEYS[1]) == ARGV[1] then
      return redis.call(\"del\", KEYS[1])
    else
      return 0
    end
  ";

/// Resets the key's time to live, in milliseconds, only if it holds the
/// value. Replies 1 when it did, 0 otherwise.
pub const EXTEND: &'static str = "
    if redis.call(\"get\", KEYS[1]) == ARGV[1] then
      return redis.call(\"pexpire\", KEYS[1], ARGV[2])
    else
      return 0
    end
  ";

/// The reply that a server gives for a script whose change did or did not
/// take effect.
pub open spec fn reply_of(applied: bool) -> Reply {
    if applied {
        Reply::Applied
    } else {
        Reply::NotApplied
    }
}

/// `LOCK` on a live key: the key's new content and whether it was set.
pub open spec fn run_lock(key: Option<Seq<char>>, value: Seq<char>) -> (Option<Seq<char>>, bool) {
    if key is None {
        (Some(value), true)
    } else {
        (key, false)
    }
}

/// `UNLOCK` on a live key: the key's new content and whether it was deleted.
pub open spec fn run_unlock(key: Option<Seq<char>>, value: Seq<char>) -> (
    Option<Seq<char>>,
    bool,
) {
    if key == Some(value) {
        (None, true)
    } else {
        (key, false)
    }
}

/// `EXTEND` on a live key: the key's content, which it keeps, and whether
/// its time to live was reset.
pub open spec fn run_extend(key: Option<Seq<char>>, value: Seq<char>) -> (
    Option<Seq<char>>,
    bool,
) {
    (key, key == Some(value))
}

} // verus!
