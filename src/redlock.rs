use std::time::Duration;
use vstd::prelude::*;
use crate::errors::RedlockError;
use crate::request::{Request, RequestKind, RequestView, Reply, Stage};
use crate::util::{millis_of, num_milliseconds, random_between, saturated};

verus! {

#[verifier::external_type_specification]
#[verifier::external_body]
pub struct ExClient(redis::Client);

/// Whether the redis client accepts `addr` as the address of a server.
pub uninterp spec fn accepts_address(addr: Seq<char>) -> bool;

/// Relies on `redis::Client::open`: it only parses the address into
/// connection parameters (no connection is made), so whether it succeeds
/// depends on the address alone.
#[verifier::external_body]
fn open_client(addr: &str) -> (r: Result<redis::Client, redis::RedisError>)
    ensures
        r is Ok <==> accepts_address(addr@),
{
    redis::Client::open(addr)
}

/// Relies on `Duration::from_millis`: the duration holds exactly `millis`
/// milliseconds.
pub assume_specification[ Duration::from_millis ](millis: u64) -> (r: Duration)
    ensures
        millis_of(r) == millis as u128,
;

/// The address of a server on the local machine.
pub const LOCAL_SERVER: &'static str = "redis://127.0.0.1";

/// Settings of a lock manager.
pub struct Config {
    /// Addresses of the independent servers.
    pub addrs: Vec<String>,
    /// Attempts made by each operation before it gives up.
    pub retry_count: u32,
    /// Base pause between two attempts.
    pub retry_delay: Duration,
    /// Largest change, in milliseconds, made at random to each pause.
    pub retry_jitter: u32,
    /// Allowance for clock drift, in millionths of the lock's time to live.
    pub drift_factor_ppm: u32,
}

impl Default for Config {
    /// One local server, ten attempts 400 ms apart with up to 400 ms of
    /// jitter, and a drift factor of 0.01.
    fn default() -> (r: Self)
        ensures
            r.addrs@.len() == 1,
            r.addrs@[0]@ == LOCAL_SERVER@,
            r.retry_count == 10,
            millis_of(r.retry_delay) == 400,
            r.retry_jitter == 400,
            r.drift_factor_ppm == 10_000,
    {
        Config {
            addrs: vec![LOCAL_SERVER.to_owned()],
            retry_count: 10,
            retry_delay: Duration::from_millis(400),
            retry_jitter: 400,
            drift_factor_ppm: 10_000,
        }
    }
}

/// The majority of `n` servers.
pub open spec fn quorum_of(n: int) -> int {
    n / 2 + 1
}

/// Whether every address is accepted by the redis client.
pub open spec fn all_accepted(addrs: Seq<String>) -> bool {
    forall|i: int| 0 <= i < addrs.len() ==> accepts_address(#[trigger] addrs[i]@)
}

/// Milliseconds taken off a lock's time to live for clock drift: the drift
/// factor times the time to live, rounded to the nearest millisecond, plus
/// two milliseconds for rounding on short times.
pub open spec fn spec_drift_ms(drift_factor_ppm: u32, ttl_ms: u64) -> int {
    (drift_factor_ppm as int * ttl_ms as int + 500_000) / 1_000_000 + 2
}

/// The instant, in milliseconds, until which a lock taken at `start` with
/// the given time to live and drift may be relied on.
pub open spec fn deadline(start: u64, ttl_ms: u64, drift_ms: int) -> int {
    start as int + ttl_ms as int - drift_ms
}

/// The pause before a retry, for a signed jitter draw: never negative.
pub open spec fn spec_backoff_ms(delay_ms: u64, draw: i64) -> u64 {
    if delay_ms as int + draw as int <= 0 {
        0
    } else {
        saturated(delay_ms as int + draw as int)
    }
}

/// A pause that lies within the jitter around the delay.
pub open spec fn within_backoff(ms: u64, delay_ms: u64, jitter: u32) -> bool {
    if jitter == 0 {
        ms == delay_ms
    } else {
        &&& ms as int >= (if delay_ms >= jitter as u64 { delay_ms - jitter } else { 0 })
        &&& (ms as int) < delay_ms as int + jitter as int
    }
}

/// Milliseconds taken off a lock's time to live for clock drift.
pub fn drift_ms(drift_factor_ppm: u32, ttl_ms: u64) -> (r: u128)
    ensures
        r as int == spec_drift_ms(drift_factor_ppm, ttl_ms),
{
    let f = drift_factor_ppm as u128;
    let t = ttl_ms as u128;
    assert(f * t <= 0xffff_ffffu128 * 0xffff_ffff_ffff_ffffu128) by (nonlinear_arith)
        requires
            f <= 0xffff_ffffu128,
            t <= 0xffff_ffff_ffff_ffffu128,
    ;
    (f * t + 500_000) / 1_000_000 + 2
}

/// The expiration of a lock taken at `start`, if it is still valid at
/// `now`: `start + ttl - drift` when that lies after `now`, and `None`
/// otherwise.
pub fn lease_expiration(start: u64, ttl_ms: u64, drift: u128, now: u64) -> (r: Option<u128>)
    requires
        drift <= u64::MAX as u128 * 0x1_0000_0000u128,
    ensures
        r matches Some(e) <==> deadline(start, ttl_ms, drift as int) > now,
        r matches Some(e) ==> e == deadline(start, ttl_ms, drift as int),
{
    let end = start as u128 + ttl_ms as u128;
    if end > drift + now as u128 {
        Some(end - drift)
    } else {
        None
    }
}

/// The pause before a retry: the delay moved by the signed draw, and zero
/// where the draw would make it negative.
pub fn backoff_ms(delay_ms: u64, draw: i64) -> (r: u64)
    ensures
        r == spec_backoff_ms(delay_ms, draw),
{
    let total = delay_ms as i128 + draw as i128;
    if total <= 0 {
        0
    } else if total > u64::MAX as i128 {
        u64::MAX
    } else {
        total as u64
    }
}

/// A request that has made no attempt yet.
pub open spec fn fresh_request(
    r: RequestView,
    redlock: &Redlock,
    kind: RequestKind,
    resource_name: Seq<char>,
    value: Seq<char>,
    ttl_ms: u64,
) -> bool {
    &&& r.n_servers == redlock.n_servers()
    &&& r.quorum == redlock.spec_quorum()
    &&& r.retry_count == redlock.spec_retry_count()
    &&& r.retry_delay_ms == redlock.spec_retry_delay_ms()
    &&& r.retry_jitter == redlock.spec_retry_jitter()
    &&& r.drift_ms == spec_drift_ms(redlock.spec_drift_factor_ppm(), ttl_ms)
    &&& r.kind == kind
    &&& r.stage == Stage::Idle
    &&& r.resource_name == resource_name
    &&& r.value == value
    &&& r.ttl_ms == ttl_ms
    &&& r.attempts == 0
    &&& r.replies == Seq::<Reply>::empty()
}

/// A lock manager over a fixed set of servers.
pub struct Redlock {
    clients: Vec<redis::Client>,
    addrs: Ghost<Seq<Seq<char>>>,
    retry_count: u32,
    retry_delay_ms: u64,
    retry_jitter: u32,
    drift_factor_ppm: u32,
    quorum: usize,
}

impl Redlock {
    pub closed spec fn n_servers(&self) -> nat {
        self.clients@.len()
    }

    /// The addresses that the clients were opened from, in order.
    pub closed spec fn spec_addrs(&self) -> Seq<Seq<char>> {
        self.addrs@
    }

    pub closed spec fn spec_quorum(&self) -> nat {
        self.quorum as nat
    }

    pub closed spec fn spec_retry_count(&self) -> u32 {
        self.retry_count
    }

    pub closed spec fn spec_retry_delay_ms(&self) -> u64 {
        self.retry_delay_ms
    }

    pub closed spec fn spec_retry_jitter(&self) -> u32 {
        self.retry_jitter
    }

    pub closed spec fn spec_drift_factor_ppm(&self) -> u32 {
        self.drift_factor_ppm
    }

    /// At least one server, a majority quorum, and a jitter no larger than
    /// the delay.
    pub open spec fn wf(&self) -> bool {
        &&& self.n_servers() >= 1
        &&& self.spec_quorum() == quorum_of(self.n_servers() as int)
        &&& self.spec_retry_jitter() as int <= self.spec_retry_delay_ms() as int
    }

    /// Builds a lock manager: fails when no server is given, when the
    /// jitter exceeds the delay, or when the client refuses an address.
    pub fn new(config: Config) -> (r: Result<Redlock, RedlockError>)
        ensures
            config.addrs@.len() == 0 <==> r matches Err(RedlockError::NoServerError),
            config.addrs@.len() > 0 && config.retry_jitter as int > saturated(
                millis_of(config.retry_delay) as int,
            ) <==> r matches Err(RedlockError::DelayJitterError),
            config.addrs@.len() > 0 && config.retry_jitter as int <= saturated(
                millis_of(config.retry_delay) as int,
            ) && !all_accepted(config.addrs@) <==> r matches Err(RedlockError::RedisError(_)),
            config.addrs@.len() > 0 && config.retry_jitter as int <= saturated(
                millis_of(config.retry_delay) as int,
            ) && all_accepted(config.addrs@) ==> r is Ok,
            r matches Ok(rl) ==> {
                &&& rl.wf()
                &&& rl.n_servers() == config.addrs@.len()
                &&& rl.spec_addrs() == config.addrs@.map_values(|s: String| s@)
                &&& rl.spec_quorum() == quorum_of(config.addrs@.len() as int)
                &&& rl.spec_retry_count() == config.retry_count
                &&& rl.spec_retry_delay_ms() == saturated(millis_of(config.retry_delay) as int)
                &&& rl.spec_retry_jitter() == config.retry_jitter
                &&& rl.spec_drift_factor_ppm() == config.drift_factor_ppm
            },
    {
        if config.addrs.len() == 0 {
            return Err(RedlockError::NoServerError);
        }
        let retry_delay_ms = num_milliseconds(config.retry_delay);
        if config.retry_jitter as u64 > retry_delay_ms {
            return Err(RedlockError::DelayJitterError);
        }
        let mut clients: Vec<redis::Client> = Vec::new();
        let mut i: usize = 0;
        while i < config.addrs.len()
            invariant
                i <= config.addrs@.len(),
                config.addrs@.len() > 0,
                retry_delay_ms == saturated(millis_of(config.retry_delay) as int),
                config.retry_jitter as int <= retry_delay_ms as int,
                clients@.len() == i,
                forall|k: int| 0 <= k < i ==> accepts_address(#[trigger] config.addrs@[k]@),
            decreases config.addrs@.len() - i,
        {
            match open_client(config.addrs[i].as_str()) {
                Ok(client) => clients.push(client),
                Err(e) => {
                    assert(!accepts_address(config.addrs@[i as int]@));
                    return Err(RedlockError::RedisError(e));
                },
            }
            i = i + 1;
        }
        let quorum = clients.len() / 2 + 1;
        Ok(Redlock {
            clients,
            addrs: Ghost(config.addrs@.map_values(|s: String| s@)),
            retry_count: config.retry_count,
            retry_delay_ms,
            retry_jitter: config.retry_jitter,
            drift_factor_ppm: config.drift_factor_ppm,
            quorum,
        })
    }

    /// The pause before a retry: the delay moved by a jitter drawn at random
    /// from `[-retry_jitter, retry_jitter)`.
    pub fn get_retry_timeout(&self) -> (r: u64)
        requires
            self.wf(),
        ensures
            within_backoff(r, self.spec_retry_delay_ms(), self.spec_retry_jitter()),
    {
        if self.retry_jitter == 0 {
            return self.retry_delay_ms;
        }
        let j = self.retry_jitter as i64;
        let draw = random_between(-j, j);
        backoff_ms(self.retry_delay_ms, draw)
    }

    /// A request to lock `resource_name` for `ttl`; each attempt draws a
    /// fresh random value.
    pub fn lock(&self, resource_name: &str, ttl: Duration) -> (r: Request<'_>)
        requires
            self.wf(),
        ensures
            r.wf(),
            r.spec_redlock() == self,
            fresh_request(
                r@,
                self,
                RequestKind::Lock,
                resource_name@,
                Seq::<char>::empty(),
                saturated(millis_of(ttl) as int),
            ),
    {
        Request::new(self, RequestKind::Lock, resource_name, String::new(), num_milliseconds(ttl))
    }

    /// A request to reset the time to live of `resource_name` where it holds
    /// `value`.
    fn extend(&self, resource_name: &str, value: &str, ttl: Duration) -> (r: Request<'_>)
        requires
            self.wf(),
        ensures
            r.wf(),
            r.spec_redlock() == self,
            fresh_request(
                r@,
                self,
                RequestKind::Extend,
                resource_name@,
                value@,
                saturated(millis_of(ttl) as int),
            ),
    {
        Request::new(
            self,
            RequestKind::Extend,
            resource_name,
            value.to_owned(),
            num_milliseconds(ttl),
        )
    }

    /// A request to delete `resource_name` where it holds `value`.
    fn unlock(&self, resource_name: &str, value: &str) -> (r: Request<'_>)
        requires
            self.wf(),
        ensures
            r.wf(),
            r.spec_redlock() == self,
            fresh_request(r@, self, RequestKind::Unlock, resource_name@, value@, 0),
    {
        Request::new(self, RequestKind::Unlock, resource_name, value.to_owned(), 0)
    }

    /// The servers' clients, in configured order.
    pub fn clients(&self) -> (r: &Vec<redis::Client>)
        ensures
            r@.len() == self.n_servers(),
    {
        &self.clients
    }

    /// Number of servers that must agree for an operation to succeed.
    pub fn quorum(&self) -> (r: usize)
        ensures
            r == self.spec_quorum(),
    {
        self.quorum
    }

    pub fn retry_count(&self) -> (r: u32)
        ensures
            r == self.spec_retry_count(),
    {
        self.retry_count
    }

    pub fn retry_delay_ms(&self) -> (r: u64)
        ensures
            r == self.spec_retry_delay_ms(),
    {
        self.retry_delay_ms
    }

    pub fn retry_jitter(&self) -> (r: u32)
        ensures
            r == self.spec_retry_jitter(),
    {
        self.retry_jitter
    }

    pub fn drift_factor_ppm(&self) -> (r: u32)
        ensures
            r == self.spec_drift_factor_ppm(),
    {
        self.drift_factor_ppm
    }
}

/// A lock held on a resource until `expiration`.
pub struct Lock<'a> {
    redlock: &'a Redlock,
    resource_name: String,
    value: String,
    expiration: u128,
}

impl<'a> Lock<'a> {
    pub open spec fn wf(&self) -> bool {
        self.spec_redlock().wf()
    }

    /// A request to release the lock: the keys that still hold its value
    /// are deleted.
    pub fn unlock(&self) -> (r: Request<'a>)
        requires
            self.wf(),
        ensures
            r.wf(),
            r.spec_redlock() == self.spec_redlock(),
            fresh_request(
                r@,
                self.spec_redlock(),
                RequestKind::Unlock,
                self.spec_resource_name(),
                self.spec_value(),
                0,
            ),
    {
        self.redlock.unlock(self.resource_name.as_str(), self.value.as_str())
    }

    /// A request to extend the lock to `ttl` from the attempt that succeeds,
    /// keeping its value; fails at once with `LockExpired`, asking no
    /// server, where the clock reading `now` has reached the expiration.
    pub fn extend(&self, ttl: Duration, now: u64) -> (r: Result<Request<'a>, RedlockError>)
        requires
            self.wf(),
        ensures
            now as int >= self.spec_expiration() <==> r matches Err(RedlockError::LockExpired),
            r is Err ==> r matches Err(RedlockError::LockExpired),
            r matches Ok(req) ==> {
                &&& req.wf()
                &&& req.spec_redlock() == self.spec_redlock()
                &&& fresh_request(
                    req@,
                    self.spec_redlock(),
                    RequestKind::Extend,
                    self.spec_resource_name(),
                    self.spec_value(),
                    saturated(millis_of(ttl) as int),
                )
            },
    {
        if now as u128 >= self.expiration {
            return Err(RedlockError::LockExpired);
        }
        Ok(self.redlock.extend(self.resource_name.as_str(), self.value.as_str(), ttl))
    }

    pub closed spec fn spec_redlock(&self) -> &'a Redlock {
        self.redlock
    }

    pub closed spec fn spec_resource_name(&self) -> Seq<char> {
        self.resource_name@
    }

    pub closed spec fn spec_value(&self) -> Seq<char> {
        self.value@
    }

    pub closed spec fn spec_expiration(&self) -> u128 {
        self.expiration
    }

    pub(crate) fn granted(
        redlock: &'a Redlock,
        resource_name: &str,
        value: &str,
        expiration: u128,
    ) -> (r: Lock<'a>)
        ensures
            r.spec_redlock() == redlock,
            r.spec_resource_name() == resource_name@,
            r.spec_value() == value@,
            r.spec_expiration() == expiration,
    {
        Lock {
            redlock,
            resource_name: resource_name.to_owned(),
            value: value.to_owned(),
            expiration,
        }
    }

    pub fn resource_name(&self) -> (r: &str)
        ensures
            r@ == self.spec_resource_name(),
    {
        self.resource_name.as_str()
    }

    /// The random value that identifies this lock on the servers.
    pub fn value(&self) -> (r: &str)
        ensures
            r@ == self.spec_value(),
    {
        self.value.as_str()
    }

    /// Clock reading, in milliseconds, until which the lock may be relied on.
    pub fn expiration(&self) -> (r: u128)
        ensures
            r == self.spec_expiration(),
    {
        self.expiration
    }
}

} // verus!
