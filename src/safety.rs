use vstd::prelude::*;
use crate::redlock::{deadline, quorum_of, spec_drift_ms};
use crate::request::{after_reply, count_of, Action, Reply, Request, RequestView, Stage};
use crate::scripts::{reply_of, run_lock, run_unlock};

verus! {

/// Number of servers whose key holds `value`.
pub open spec fn count_holding(keys: Seq<Option<Seq<char>>>, value: Seq<char>) -> nat
    decreases keys.len(),
{
    if keys.len() == 0 {
        0
    } else {
        count_holding(keys.drop_last(), value) + if keys.last() == Some(value) {
            1nat
        } else {
            0nat
        }
    }
}

/// Each reply is a failure or what `LOCK` with `value` answers on that
/// server's key.
pub open spec fn lock_replies(
    keys: Seq<Option<Seq<char>>>,
    value: Seq<char>,
    replies: Seq<Reply>,
) -> bool {
    &&& replies.len() == keys.len()
    &&& forall|i: int|
        0 <= i < keys.len() ==> #[trigger] replies[i] == Reply::Failed || replies[i] == reply_of(
            run_lock(keys[i], value).1,
        )
}

/// Each reply is a failure or what `UNLOCK` with `value` answers on that
/// server's key.
pub open spec fn unlock_replies(
    keys: Seq<Option<Seq<char>>>,
    value: Seq<char>,
    replies: Seq<Reply>,
) -> bool {
    &&& replies.len() == keys.len()
    &&& forall|i: int|
        0 <= i < keys.len() ==> #[trigger] replies[i] == Reply::Failed || replies[i] == reply_of(
            run_unlock(keys[i], value).1,
        )
}

proof fn lemma_lock_blocked(keys: Seq<Option<Seq<char>>>, held: Seq<char>, value: Seq<char>, replies: Seq<Reply>)
    requires
        lock_replies(keys, value, replies),
    ensures
        count_of(replies, Reply::Applied) + count_holding(keys, held) <= keys.len(),
    decreases keys.len(),
{
    if keys.len() > 0 {
        let k = keys.drop_last();
        let r = replies.drop_last();
        assert forall|i: int| 0 <= i < k.len() implies #[trigger] r[i] == Reply::Failed || r[i]
            == reply_of(run_lock(k[i], value).1) by {
            assert(replies[i] == Reply::Failed || replies[i] == reply_of(
                run_lock(keys[i], value).1,
            ));
        }
        lemma_lock_blocked(k, held, value, r);
        let last = keys.len() - 1;
        assert(replies[last] == Reply::Failed || replies[last] == reply_of(
            run_lock(keys[last], value).1,
        ));
    }
}

/// Mutual exclusion: while a quorum of the servers hold one lock's value,
/// an attempt to lock the same resource gathers fewer applied replies than
/// a quorum, whichever servers fail, so it cannot succeed.
pub proof fn lemma_mutual_exclusion(
    keys: Seq<Option<Seq<char>>>,
    held: Seq<char>,
    value: Seq<char>,
    replies: Seq<Reply>,
)
    requires
        count_holding(keys, held) >= quorum_of(keys.len() as int),
        lock_replies(keys, value, replies),
    ensures
        count_of(replies, Reply::Applied) < quorum_of(keys.len() as int),
        forall|v: RequestView, now: u64|
            v.replies == replies && v.quorum == quorum_of(keys.len() as int)
                ==> !#[trigger] v.attempt_succeeds(now),
{
    lemma_lock_blocked(keys, held, value, replies);
}

proof fn lemma_unlock_follows_lock(a: Seq<Reply>, b: Seq<Reply>)
    requires
        a.len() == b.len(),
        forall|i: int| 0 <= i < a.len() && #[trigger] a[i] == Reply::Applied ==> b[i]
            == Reply::Applied,
    ensures
        count_of(a, Reply::Applied) <= count_of(b, Reply::Applied),
    decreases a.len(),
{
    if a.len() > 0 {
        let a0 = a.drop_last();
        let b0 = b.drop_last();
        assert forall|i: int| 0 <= i < a0.len() && #[trigger] a0[i] == Reply::Applied implies b0[i]
            == Reply::Applied by {
            assert(a[i] == Reply::Applied);
        }
        lemma_unlock_follows_lock(a0, b0);
    }
}

/// Round trip: right after a lock was granted, a release that reaches the
/// servers that applied it gathers a quorum, and no server that it reaches
/// still holds the lock's value.
pub proof fn lemma_round_trip(
    keys: Seq<Option<Seq<char>>>,
    value: Seq<char>,
    locked: Seq<Reply>,
    released: Seq<Reply>,
)
    requires
        locked.len() == keys.len(),
        count_of(locked, Reply::Applied) >= quorum_of(keys.len() as int),
        forall|i: int| 0 <= i < keys.len() && #[trigger] locked[i] == Reply::Applied ==> keys[i]
            == Some(value),
        unlock_replies(keys, value, released),
        forall|i: int| 0 <= i < keys.len() && #[trigger] locked[i] == Reply::Applied ==> released[i]
            != Reply::Failed,
    ensures
        count_of(released, Reply::Applied) >= quorum_of(keys.len() as int),
        forall|v: RequestView, now: u64|
            v.kind == crate::request::RequestKind::Unlock && v.replies == released && v.quorum
                == quorum_of(keys.len() as int) ==> #[trigger] v.attempt_succeeds(now),
        forall|i: int|
            0 <= i < keys.len() && #[trigger] released[i] != Reply::Failed ==> run_unlock(
                keys[i],
                value,
            ).0 != Some(value),
{
    assert forall|i: int| 0 <= i < locked.len() && #[trigger] locked[i] == Reply::Applied implies released[i]
        == Reply::Applied by {
        assert(released[i] == Reply::Failed || released[i] == reply_of(
            run_unlock(keys[i], value).1,
        ));
    }
    lemma_unlock_follows_lock(locked, released);
}

proof fn lemma_disjoint_counts(a: Seq<Reply>, b: Seq<Reply>)
    requires
        a.len() == b.len(),
        forall|i: int|
            0 <= i < a.len() ==> !(#[trigger] a[i] == Reply::Applied && b[i] == Reply::Applied),
    ensures
        count_of(a, Reply::Applied) + count_of(b, Reply::Applied) <= a.len(),
    decreases a.len(),
{
    if a.len() > 0 {
        let a0 = a.drop_last();
        let b0 = b.drop_last();
        assert forall|i: int| 0 <= i < a0.len() implies !(#[trigger] a0[i] == Reply::Applied && b0[i]
            == Reply::Applied) by {
            assert(!(a[i] == Reply::Applied && b[i] == Reply::Applied));
        }
        lemma_disjoint_counts(a0, b0);
        assert(!(a[a.len() - 1] == Reply::Applied && b[a.len() - 1] == Reply::Applied));
    }
}

/// Two attempts that each gather a quorum of applied replies over the same
/// servers have a server in common.
pub proof fn lemma_quorums_share_server(a: Seq<Reply>, b: Seq<Reply>) -> (i: int)
    requires
        a.len() == b.len(),
        count_of(a, Reply::Applied) >= quorum_of(a.len() as int),
        count_of(b, Reply::Applied) >= quorum_of(a.len() as int),
    ensures
        0 <= i < a.len(),
        a[i] == Reply::Applied,
        b[i] == Reply::Applied,
{
    if forall|i: int| 0 <= i < a.len() ==> !(#[trigger] a[i] == Reply::Applied && b[i] == Reply::Applied) {
        lemma_disjoint_counts(a, b);
        assert(false);
    }
    choose|i: int| 0 <= i < a.len() && a[i] == Reply::Applied && b[i] == Reply::Applied
}

/// Mutual exclusion in time: two locks granted on the same resource over the
/// same servers are never both valid at once. Lock `a` was granted at `end_a`
/// after an attempt begun at `start_a`, its script applied on server `i` at
/// `at_a[i]`, and likewise for `b`. The servers' keys obey the scripts and
/// their clocks drift within the allowance: a key set by `LOCK` keeps its
/// value, in the callers' time, for at least the time to live less the
/// drift, so another `LOCK` on that server applies only after that. Then one
/// lock expires no later than the other is granted.
pub proof fn lemma_leases_disjoint(
    replies_a: Seq<Reply>,
    at_a: Seq<int>,
    start_a: u64,
    end_a: u64,
    ttl_a: u64,
    drift_a: int,
    replies_b: Seq<Reply>,
    at_b: Seq<int>,
    start_b: u64,
    end_b: u64,
    ttl_b: u64,
    drift_b: int,
)
    requires
        replies_b.len() == replies_a.len(),
        at_a.len() == replies_a.len(),
        at_b.len() == replies_a.len(),
        count_of(replies_a, Reply::Applied) >= quorum_of(replies_a.len() as int),
        count_of(replies_b, Reply::Applied) >= quorum_of(replies_a.len() as int),
        deadline(start_a, ttl_a, drift_a) > end_a,
        deadline(start_b, ttl_b, drift_b) > end_b,
        forall|i: int|
            0 <= i < replies_a.len() && #[trigger] replies_a[i] == Reply::Applied ==> start_a
                <= at_a[i] <= end_a,
        forall|i: int|
            0 <= i < replies_a.len() && #[trigger] replies_b[i] == Reply::Applied ==> start_b
                <= at_b[i] <= end_b,
        forall|i: int|
            0 <= i < replies_a.len() && #[trigger] replies_a[i] == Reply::Applied
                && replies_b[i] == Reply::Applied ==> {
                &&& at_a[i] <= at_b[i] ==> at_b[i] >= at_a[i] + ttl_a - drift_a
                &&& at_b[i] <= at_a[i] ==> at_a[i] >= at_b[i] + ttl_b - drift_b
            },
    ensures
        deadline(start_a, ttl_a, drift_a) <= end_b || deadline(start_b, ttl_b, drift_b) <= end_a,
{
    let i = lemma_quorums_share_server(replies_a, replies_b);
    assert(replies_a[i] == Reply::Applied);
    assert(replies_b[i] == Reply::Applied);
}

/// A granted lock: the attempt that granted it gathered, among all the
/// servers' replies, at least a majority of applied ones, and the lock
/// expires after `now` and no later than the attempt's start plus the time
/// to live less the drift.
pub proof fn lemma_granted<'a>(
    req: &Request<'a>,
    reply: Reply,
    now: u64,
    after: RequestView,
    a: Action<'a>,
)
    requires
        req.wf(),
        req@.stage == Stage::Polling,
        after_reply(req.spec_redlock(), req@.with_reply(reply), now, after, a),
    ensures
        a matches Action::Granted(l) ==> {
            &&& after.replies.len() == req.spec_redlock().n_servers()
            &&& count_of(after.replies, Reply::Applied) >= quorum_of(
                req.spec_redlock().n_servers() as int,
            )
            &&& l.spec_expiration() as int <= after.start + after.ttl_ms - spec_drift_ms(
                req.spec_redlock().spec_drift_factor_ppm(),
                after.ttl_ms,
            )
            &&& l.spec_expiration() > now
        },
{
}

/// Fencing: `UNLOCK` leaves alone a key that does not hold the lock's value.
pub proof fn lemma_value_fencing(key: Option<Seq<char>>, value: Seq<char>)
    requires
        key != Some(value),
    ensures
        run_unlock(key, value) == (key, false),
{
}

proof fn lemma_no_applied(replies: Seq<Reply>)
    requires
        forall|i: int| 0 <= i < replies.len() ==> #[trigger] replies[i] != Reply::Applied,
    ensures
        count_of(replies, Reply::Applied) == 0,
    decreases replies.len(),
{
    if replies.len() > 0 {
        let r = replies.drop_last();
        assert forall|i: int| 0 <= i < r.len() implies #[trigger] r[i] != Reply::Applied by {
            assert(replies[i] != Reply::Applied);
        }
        lemma_no_applied(r);
        assert(replies[replies.len() - 1] != Reply::Applied);
    }
}

/// Releasing twice: the second release is applied on no server, so none of
/// its attempts succeeds, and it leaves every key as the first left it.
pub proof fn lemma_release_twice(
    keys: Seq<Option<Seq<char>>>,
    value: Seq<char>,
    replies: Seq<Reply>,
)
    requires
        unlock_replies(keys.map_values(|k: Option<Seq<char>>| run_unlock(k, value).0), value, replies),
    ensures
        count_of(replies, Reply::Applied) == 0,
        forall|v: RequestView, now: u64|
            v.replies == replies && v.quorum >= 1 ==> !#[trigger] v.attempt_succeeds(now),
        forall|i: int|
            0 <= i < keys.len() ==> run_unlock(run_unlock(#[trigger] keys[i], value).0, value).0
                == run_unlock(keys[i], value).0,
{
    let after = keys.map_values(|k: Option<Seq<char>>| run_unlock(k, value).0);
    assert forall|i: int| 0 <= i < replies.len() implies #[trigger] replies[i] != Reply::Applied by {
        assert(after[i] == run_unlock(keys[i], value).0);
        assert(replies[i] == Reply::Failed || replies[i] == reply_of(run_unlock(after[i], value).1));
    }
    lemma_no_applied(replies);
}

} // verus!
