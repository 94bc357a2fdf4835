use vstd::prelude::*;
use crate::errors::RedlockError;
use crate::redlock::{
    quorum_of, deadline, drift_ms, lease_expiration, spec_drift_ms, within_backoff, Lock,
    Redlock,
};
use crate::util::{get_random_string, is_token_char};

verus! {

/// Length of the random value that identifies one acquisition.
pub const TOKEN_LEN: usize = 32;

/// A value that may identify an acquisition: `TOKEN_LEN` ASCII letters
/// and digits.
pub open spec fn is_token(s: Seq<char>) -> bool {
    &&& s.len() == TOKEN_LEN
    &&& forall|i: int| 0 <= i < s.len() ==> #[trigger] is_token_char(s[i])
}

/// What a request asks of each server.
#[derive(Clone, Copy, Debug, PartialEq, Eq, Structural)]
pub enum RequestKind {
    /// Set the key to a fresh random value if it is absent.
    Lock,
    /// Reset the key's time to live if it holds the lock's value.
    Extend,
    /// Delete the key if it holds the lock's value.
    Unlock,
}

/// One server's answer to one script.
#[derive(Clone, Copy, Debug, PartialEq, Eq, Structural)]
pub enum Reply {
    /// The script's change took effect.
    Applied,
    /// The server answered but the script's condition was false.
    NotApplied,
    /// The server could not be reached or answered with an error.
    Failed,
}

/// Where a request stands.
#[derive(Clone, Copy, Debug, PartialEq, Eq, Structural)]
pub enum Stage {
    /// Between attempts: `start` decides whether to try again.
    Idle,
    /// A pause was asked for: `woke` begins the next attempt.
    Waiting,
    /// A server was asked to run the script: `replied` takes its answer.
    Polling,
    /// Every server was asked to drop the attempt's value: `released` goes on.
    Cleaning,
    /// The request is over.
    Finished,
}

/// What the caller is to do next for a request.
pub enum Action<'a> {
    /// Sleep this many milliseconds, then call `woke` with the clock.
    Wait { ms: u64 },
    /// Run the request's script on this server, then call `replied`.
    Run { server: usize },
    /// Run the unlock script with the request's value on every server,
    /// ignoring the answers, then call `released`.
    ReleaseAll,
    /// The lock was acquired or extended.
    Granted(Lock<'a>),
    /// The lock was released.
    Unlocked,
    /// The request gave up.
    Failed(RedlockError),
}

/// Number of replies equal to `r`.
pub open spec fn count_of(s: Seq<Reply>, r: Reply) -> nat
    decreases s.len(),
{
    if s.len() == 0 {
        0
    } else {
        count_of(s.drop_last(), r) + if s.last() == r {
            1nat
        } else {
            0nat
        }
    }
}

/// The error a request of this kind gives once its attempts are spent.
pub open spec fn exhausted_error(kind: RequestKind) -> RedlockError {
    match kind {
        RequestKind::Lock => RedlockError::UnableToLock,
        RequestKind::Extend => RedlockError::UnableToExtend,
        RequestKind::Unlock => RedlockError::UnableToUnlock,
    }
}

/// The state of a request, as the contracts see it.
pub struct RequestView {
    pub kind: RequestKind,
    pub stage: Stage,
    pub resource_name: Seq<char>,
    pub value: Seq<char>,
    pub ttl_ms: u64,
    pub drift_ms: int,
    /// Attempts begun so far.
    pub attempts: nat,
    /// Clock reading at the start of the current attempt.
    pub start: u64,
    /// Replies gathered in the current attempt, in server order.
    pub replies: Seq<Reply>,
    pub n_servers: nat,
    pub quorum: nat,
    pub retry_count: nat,
    pub retry_delay_ms: u64,
    pub retry_jitter: u32,
}

impl RequestView {
    /// The current attempt holds a quorum of applied replies and, but for a
    /// release, its lock is still valid at `now`.
    pub open spec fn attempt_succeeds(self, now: u64) -> bool {
        &&& count_of(self.replies, Reply::Applied) >= self.quorum
        &&& (self.kind == RequestKind::Unlock || deadline(self.start, self.ttl_ms, self.drift_ms)
            > now)
    }

    /// The current attempt is abandoned: too many servers failed, or all
    /// replied without success.
    pub open spec fn attempt_fails(self, now: u64) -> bool {
        count_of(self.replies, Reply::Failed) > self.quorum || (self.replies.len() == self.n_servers
            && !self.attempt_succeeds(now))
    }
}

/// Counting a reply appended at the end.
pub proof fn lemma_count_push(s: Seq<Reply>, x: Reply, r: Reply)
    ensures
        count_of(s.push(x), r) == count_of(s, r) + if x == r {
            1nat
        } else {
            0nat
        },
{
    assert(s.push(x).drop_last() =~= s);
}

/// No more replies of one kind than replies.
pub proof fn lemma_count_bound(s: Seq<Reply>, r: Reply)
    ensures
        count_of(s, r) <= s.len(),
    decreases s.len(),
{
    if s.len() > 0 {
        lemma_count_bound(s.drop_last(), r);
    }
}

/// After a reply: the attempt is abandoned (a release retries at once, the
/// others first drop their value), the next server is asked, or the
/// request succeeds.
pub open spec fn after_reply<'a>(
    redlock: &'a Redlock,
    mid: RequestView,
    now: u64,
    after: RequestView,
    a: Action<'a>,
) -> bool {
    if mid.attempt_fails(now) {
        if mid.kind == RequestKind::Unlock {
            next_attempt(RequestView { stage: Stage::Idle, ..mid }, after, a)
        } else {
            &&& after == RequestView { stage: Stage::Cleaning, ..mid }
            &&& a == Action::ReleaseAll
        }
    } else if mid.replies.len() < mid.n_servers {
        &&& after == mid
        &&& a == Action::Run { server: mid.replies.len() as usize }
    } else {
        &&& after == RequestView { stage: Stage::Finished, ..mid }
        &&& if mid.kind == RequestKind::Unlock {
            a == Action::Unlocked
        } else {
            &&& a matches Action::Granted(l)
            &&& l.spec_redlock() == redlock
            &&& l.spec_resource_name() == mid.resource_name
            &&& l.spec_value() == mid.value
            &&& l.spec_expiration() == deadline(mid.start, mid.ttl_ms, mid.drift_ms)
        }
    }
}

/// From `before`, between attempts: either the attempts are spent and the
/// request fails, or a pause is asked for (none before the first attempt).
pub open spec fn next_attempt<'a>(before: RequestView, after: RequestView, a: Action<'a>) -> bool {
    if before.attempts >= before.retry_count {
        &&& after == RequestView { stage: Stage::Finished, ..before }
        &&& a == Action::Failed(exhausted_error(before.kind))
    } else {
        &&& after == RequestView { stage: Stage::Waiting, ..before }
        &&& a matches Action::Wait { ms }
        &&& before.attempts == 0 ==> ms == 0
        &&& before.attempts > 0 ==> within_backoff(ms, before.retry_delay_ms, before.retry_jitter)
    }
}

/// One lock, extend or unlock operation, run as a sequence of attempts.
/// The caller performs each `Action` and reports back.
pub struct Request<'a> {
    redlock: &'a Redlock,
    kind: RequestKind,
    stage: Stage,
    resource_name: String,
    value: String,
    ttl_ms: u64,
    drift_ms: u128,
    attempts: u32,
    start: u64,
    votes: usize,
    errors: usize,
    replied: usize,
    replies: Ghost<Seq<Reply>>,
}

impl<'a> View for Request<'a> {
    type V = RequestView;

    closed spec fn view(&self) -> RequestView {
        RequestView {
            kind: self.kind,
            stage: self.stage,
            resource_name: self.resource_name@,
            value: self.value@,
            ttl_ms: self.ttl_ms,
            drift_ms: self.drift_ms as int,
            attempts: self.attempts as nat,
            start: self.start,
            replies: self.replies@,
            n_servers: self.redlock.n_servers(),
            quorum: self.redlock.spec_quorum(),
            retry_count: self.redlock.spec_retry_count() as nat,
            retry_delay_ms: self.redlock.spec_retry_delay_ms(),
            retry_jitter: self.redlock.spec_retry_jitter(),
        }
    }
}

impl RequestView {
    /// The state once `reply` is counted in the current attempt.
    pub open spec fn with_reply(self, reply: Reply) -> RequestView {
        RequestView { replies: self.replies.push(reply), ..self }
    }
}

impl<'a> Request<'a> {
    pub closed spec fn spec_redlock(&self) -> &'a Redlock {
        self.redlock
    }

    /// The settings that every request carries from its lock manager, and
    /// the bookkeeping of the current attempt.
    pub open spec fn wf(&self) -> bool {
        &&& self.inner_wf()
        &&& self.spec_redlock().wf()
        &&& self@.n_servers == self.spec_redlock().n_servers()
        &&& self@.n_servers >= 1
        &&& self@.quorum == quorum_of(self@.n_servers as int)
        &&& self@.retry_count == self.spec_redlock().spec_retry_count()
        &&& self@.retry_jitter as int <= self@.retry_delay_ms as int
        &&& self@.drift_ms == spec_drift_ms(self.spec_redlock().spec_drift_factor_ppm(), self@.ttl_ms)
        &&& self@.replies.len() <= self@.n_servers
        &&& self@.stage == Stage::Polling ==> self@.replies.len() < self@.n_servers
        &&& self@.attempts <= self@.retry_count
    }

    pub closed spec fn inner_wf(&self) -> bool {
        &&& self.redlock.wf()
        &&& self.attempts <= self.redlock.spec_retry_count()
        &&& self.drift_ms as int == spec_drift_ms(self.redlock.spec_drift_factor_ppm(), self.ttl_ms)
        &&& self.replied == self.replies@.len()
        &&& self.replies@.len() <= self.redlock.n_servers()
        &&& self.votes == count_of(self.replies@, Reply::Applied)
        &&& self.errors == count_of(self.replies@, Reply::Failed)
        &&& self.stage == Stage::Polling ==> self.replies@.len() < self.redlock.n_servers()
        &&& self.stage == Stage::Polling ==> self.attempts >= 1
        &&& self.stage == Stage::Waiting ==> self.attempts < self.redlock.spec_retry_count()
    }

    /// A request that has made no attempt yet.
    pub(crate) fn new(
        redlock: &'a Redlock,
        kind: RequestKind,
        resource_name: &str,
        value: String,
        ttl_ms: u64,
    ) -> (r: Request<'a>)
        requires
            redlock.wf(),
        ensures
            r.wf(),
            r.spec_redlock() == redlock,
            r@.n_servers == redlock.n_servers(),
            r@.quorum == redlock.spec_quorum(),
            r@.retry_count == redlock.spec_retry_count(),
            r@.retry_delay_ms == redlock.spec_retry_delay_ms(),
            r@.retry_jitter == redlock.spec_retry_jitter(),
            r@.kind == kind,
            r@.stage == Stage::Idle,
            r@.resource_name == resource_name@,
            r@.value == value@,
            r@.ttl_ms == ttl_ms,
            r@.drift_ms == spec_drift_ms(redlock.spec_drift_factor_ppm(), ttl_ms),
            r@.attempts == 0,
            r@.replies == Seq::<Reply>::empty(),
    {
        Request {
            redlock,
            kind,
            stage: Stage::Idle,
            resource_name: resource_name.to_owned(),
            value,
            ttl_ms,
            drift_ms: drift_ms(redlock.drift_factor_ppm(), ttl_ms),
            attempts: 0,
            start: 0,
            votes: 0,
            errors: 0,
            replied: 0,
            replies: Ghost(Seq::empty()),
        }
    }

    /// The lock manager whose servers the request asks.
    pub fn redlock(&self) -> (r: &'a Redlock)
        ensures
            r == self.spec_redlock(),
    {
        self.redlock
    }

    pub fn kind(&self) -> (r: RequestKind)
        ensures
            r == self@.kind,
    {
        self.kind
    }

    pub fn stage(&self) -> (r: Stage)
        ensures
            r == self@.stage,
    {
        self.stage
    }

    pub fn resource_name(&self) -> (r: &str)
        ensures
            r@ == self@.resource_name,
    {
        self.resource_name.as_str()
    }

    /// The value that the current attempt writes or matches.
    pub fn value(&self) -> (r: &str)
        ensures
            r@ == self@.value,
    {
        self.value.as_str()
    }

    pub fn ttl_ms(&self) -> (r: u64)
        ensures
            r == self@.ttl_ms,
    {
        self.ttl_ms
    }

    pub fn attempts(&self) -> (r: u32)
        ensures
            r == self@.attempts,
    {
        self.attempts
    }

    /// Decides, between attempts, whether to try again.
    fn next(&mut self) -> (a: Action<'a>)
        requires
            old(self).wf(),
            old(self)@.stage == Stage::Idle,
        ensures
            final(self).wf(),
            final(self).spec_redlock() == old(self).spec_redlock(),
            next_attempt(old(self)@, final(self)@, a),
    {
        if self.attempts >= self.redlock.retry_count() {
            self.stage = Stage::Finished;
            let e = match self.kind {
                RequestKind::Lock => RedlockError::UnableToLock,
                RequestKind::Extend => RedlockError::UnableToExtend,
                RequestKind::Unlock => RedlockError::UnableToUnlock,
            };
            Action::Failed(e)
        } else {
            self.stage = Stage::Waiting;
            let ms = if self.attempts == 0 {
                0
            } else {
                self.redlock.get_retry_timeout()
            };
            Action::Wait { ms }
        }
    }

    /// Begins the request.
    pub fn start(&mut self) -> (a: Action<'a>)
        requires
            old(self).wf(),
            old(self)@.stage == Stage::Idle,
        ensures
            final(self).wf(),
            final(self).spec_redlock() == old(self).spec_redlock(),
            next_attempt(old(self)@, final(self)@, a),
    {
        self.next()
    }

    /// Begins an attempt at clock reading `now`: a lock draws a fresh random
    /// value, and the first server is asked.
    pub fn woke(&mut self, now: u64) -> (a: Action<'a>)
        requires
            old(self).wf(),
            old(self)@.stage == Stage::Waiting,
        ensures
            final(self).wf(),
            final(self).spec_redlock() == old(self).spec_redlock(),
            final(self)@.kind == RequestKind::Lock ==> is_token(final(self)@.value),
            final(self)@ == (RequestView {
                stage: Stage::Polling,
                attempts: old(self)@.attempts + 1,
                start: now,
                replies: Seq::<Reply>::empty(),
                value: final(self)@.value,
                ..old(self)@
            }),
            old(self)@.kind != RequestKind::Lock ==> final(self)@.value == old(self)@.value,
            a == (Action::Run { server: 0 }),
    {
        self.attempts = self.attempts + 1;
        self.start = now;
        self.votes = 0;
        self.errors = 0;
        self.replied = 0;
        self.replies = Ghost(Seq::empty());
        if self.kind == RequestKind::Lock {
            self.value = get_random_string(TOKEN_LEN);
        }
        self.stage = Stage::Polling;
        Action::Run { server: 0 }
    }

    /// Counts the reply of the server last asked, read with the clock at
    /// `now`, and decides what follows.
    pub fn replied(&mut self, reply: Reply, now: u64) -> (a: Action<'a>)
        requires
            old(self).wf(),
            old(self)@.stage == Stage::Polling,
        ensures
            final(self).wf(),
            final(self).spec_redlock() == old(self).spec_redlock(),
            after_reply(old(self).spec_redlock(), old(self)@.with_reply(reply), now, final(self)@, a),
            a matches Action::Granted(l) ==> {
                &&& count_of(final(self)@.replies, Reply::Applied) >= final(self)@.quorum
                &&& final(self)@.drift_ms == spec_drift_ms(
                    old(self).spec_redlock().spec_drift_factor_ppm(),
                    final(self)@.ttl_ms,
                )
                &&& l.spec_expiration() as int <= final(self)@.start + final(self)@.ttl_ms
                    - final(self)@.drift_ms
                &&& l.spec_expiration() > now
            },
    {
        proof {
            lemma_count_push(self.replies@, reply, Reply::Applied);
            lemma_count_push(self.replies@, reply, Reply::Failed);
            lemma_count_bound(self.replies@.push(reply), Reply::Applied);
            lemma_count_bound(self.replies@.push(reply), Reply::Failed);
        }
        let n = self.redlock.clients().len();
        let quorum = self.redlock.quorum();
        self.replies = Ghost(self.replies@.push(reply));
        self.replied = self.replied + 1;
        match reply {
            Reply::Applied => self.votes = self.votes + 1,
            Reply::Failed => self.errors = self.errors + 1,
            Reply::NotApplied => {},
        }
        if self.errors <= quorum {
            if self.replied < n {
                return Action::Run { server: self.replied };
            }
            if self.votes >= quorum {
            if self.kind == RequestKind::Unlock {
                self.stage = Stage::Finished;
                return Action::Unlocked;
            }
            proof {
                let f = self.redlock.spec_drift_factor_ppm() as int;
                let t = self.ttl_ms as int;
                assert(f * t <= 0xffff_ffff * 0xffff_ffff_ffff_ffff) by (nonlinear_arith)
                    requires
                        0 <= f <= 0xffff_ffff,
                        0 <= t <= 0xffff_ffff_ffff_ffff,
                ;
            }
            match lease_expiration(self.start, self.ttl_ms, self.drift_ms, now) {
                Some(e) => {
                    self.stage = Stage::Finished;
                    let lock = Lock::granted(
                        self.redlock,
                        self.resource_name.as_str(),
                        self.value.as_str(),
                        e,
                    );
                    return Action::Granted(lock);
                },
                None => {},
            }
            }
        }
        if self.kind == RequestKind::Unlock {
            self.stage = Stage::Idle;
            self.next()
        } else {
            self.stage = Stage::Cleaning;
            Action::ReleaseAll
        }
    }

    /// Goes on once every server was asked to drop the attempt's value.
    pub fn released(&mut self) -> (a: Action<'a>)
        requires
            old(self).wf(),
            old(self)@.stage == Stage::Cleaning,
        ensures
            final(self).wf(),
            final(self).spec_redlock() == old(self).spec_redlock(),
            next_attempt(RequestView { stage: Stage::Idle, ..old(self)@ }, final(self)@, a),
    {
        self.stage = Stage::Idle;
        self.next()
    }
}

} // verus!
