use std::time::Duration;

use redlock::redlock::{backoff_ms, drift_ms, lease_expiration, LOCAL_SERVER};
use redlock::{
    get_random_string, num_milliseconds, Action, Config, Lock, Redlock, RedlockError, Reply,
    Request, RequestKind, Stage,
};

/// One key on each of a few in-memory servers, with the scripts' rules.
struct Servers {
    keys: Vec<Option<(String, u64)>>,
    down: Vec<bool>,
    now: u64,
    reply_ms: u64,
    asked: usize,
}

impl Servers {
    fn new(n: usize, now: u64) -> Servers {
        Servers { keys: vec![None; n], down: vec![false; n], now, reply_ms: 0, asked: 0 }
    }

    fn get(&self, i: usize) -> Option<String> {
        match &self.keys[i] {
            Some((v, until)) if *until > self.now => Some(v.clone()),
            _ => None,
        }
    }

    fn ttl_left(&self, i: usize) -> u64 {
        match &self.keys[i] {
            Some((_, until)) if *until > self.now => until - self.now,
            _ => 0,
        }
    }

    fn run(&mut self, i: usize, kind: RequestKind, value: &str, ttl_ms: u64) -> Reply {
        self.asked += 1;
        if self.down[i] {
            return Reply::Failed;
        }
        let current = self.get(i);
        let applied = match kind {
            RequestKind::Lock => {
                if current.is_none() {
                    self.keys[i] = Some((value.to_string(), self.now + ttl_ms));
                    true
                } else {
                    false
                }
            }
            RequestKind::Unlock => {
                if current.as_deref() == Some(value) {
                    self.keys[i] = None;
                    true
                } else {
                    false
                }
            }
            RequestKind::Extend => {
                if current.as_deref() == Some(value) {
                    self.keys[i] = Some((value.to_string(), self.now + ttl_ms));
                    true
                } else {
                    false
                }
            }
        };
        if applied { Reply::Applied } else { Reply::NotApplied }
    }

    /// Performs each action of the request until it is over.
    fn drive<'a>(&mut self, mut req: Request<'a>) -> Action<'a> {
        let mut action = req.start();
        loop {
            action = match action {
                Action::Wait { ms } => {
                    self.now += ms;
                    req.woke(self.now)
                }
                Action::Run { server } => {
                    let reply = self.run(server, req.kind(), req.value(), req.ttl_ms());
                    self.now += self.reply_ms;
                    req.replied(reply, self.now)
                }
                Action::ReleaseAll => {
                    for i in 0..self.keys.len() {
                        self.run(i, RequestKind::Unlock, req.value(), 0);
                    }
                    req.released()
                }
                done => return done,
            };
        }
    }
}

fn config(n: usize) -> Config {
    Config {
        addrs: vec![LOCAL_SERVER.to_string(); n],
        retry_count: 10,
        retry_delay: Duration::from_millis(400),
        retry_jitter: 400,
        drift_factor_ppm: 10_000,
    }
}

fn granted(a: Action<'_>) -> Lock<'_> {
    match a {
        Action::Granted(lock) => lock,
        _ => panic!("the lock was not granted"),
    }
}

fn failed_with(a: Action<'_>) -> RedlockError {
    match a {
        Action::Failed(e) => e,
        _ => panic!("the request did not fail"),
    }
}

const T0: u64 = 1_700_000_000_000;

#[test]
fn test_config_default() {
    let default_config = Config::default();
    assert_eq!(default_config.addrs, vec!["redis://127.0.0.1"]);
    assert_eq!(default_config.retry_count, 10);
    assert_eq!(default_config.retry_delay, Duration::from_millis(400));
    assert_eq!(default_config.retry_jitter, 400);
    assert_eq!(default_config.drift_factor_ppm, 10_000);
}

#[test]
#[should_panic]
fn test_new_with_no_server() {
    Redlock::new(Config {
        addrs: vec![],
        retry_count: 10,
        retry_delay: Duration::from_millis(400),
        retry_jitter: 400,
        drift_factor_ppm: 10_000,
    })
    .unwrap();
}

#[test]
fn test_new() {
    let redlock = Redlock::new(Config::default()).unwrap();
    assert_eq!(redlock.clients().len(), 1);
    assert_eq!(redlock.retry_count(), 10);
    assert_eq!(redlock.retry_delay_ms(), 400);
}

#[test]
fn test_lock() {
    let redlock = Redlock::new(config(1)).unwrap();
    let mut servers = Servers::new(1, T0);
    servers.reply_ms = 3;
    let resource_name = "test_lock";
    let one_second = Duration::from_millis(1000);
    let lock = granted(servers.drive(redlock.lock(resource_name, one_second)));
    assert!(lock.expiration() < servers.now as u128 + 1000);
}

#[test]
fn test_lock_twice() {
    let redlock = Redlock::new(config(1)).unwrap();
    let mut servers = Servers::new(1, T0);
    let resource_name = "test_lock_twice";
    let one_second = Duration::from_millis(1000);
    let start = servers.now;
    let lock = granted(servers.drive(redlock.lock(resource_name, one_second)));
    assert!(lock.expiration() > start as u128);
    assert!(lock.expiration() < start as u128 + 1000);
    // the first lock expires while the second one retries
    let second = servers.drive(redlock.lock(resource_name, one_second));
    assert!(matches!(second, Action::Granted(_)));
}

#[test]
fn test_unlock() {
    let redlock = Redlock::new(config(1)).unwrap();
    let mut servers = Servers::new(1, T0);
    let resource_name = "test_unlock";
    let lock = granted(servers.drive(redlock.lock(resource_name, Duration::from_millis(2000))));
    let value = servers.get(0).unwrap();
    assert_eq!(value.len(), 32);
    assert!(matches!(servers.drive(lock.unlock()), Action::Unlocked));
    assert!(servers.get(0).is_none());
}

#[test]
fn test_extend() {
    let redlock = Redlock::new(config(1)).unwrap();
    let mut servers = Servers::new(1, T0);
    let resource_name = "test_extend";
    let lock = granted(servers.drive(redlock.lock(resource_name, Duration::from_millis(2000))));
    let req = lock.extend(Duration::from_millis(2000), servers.now).unwrap();
    let lock_extended = granted(servers.drive(req));
    assert!(lock_extended.expiration() < servers.now as u128 + 2000);
    assert_eq!(lock_extended.value(), lock.value());
}

#[test]
fn test_extend_expired_resource() {
    let redlock = Redlock::new(config(1)).unwrap();
    let mut servers = Servers::new(1, T0);
    let one_second = Duration::from_millis(1000);
    let resource_name = "test_extend_expired_resource";
    let lock = granted(servers.drive(redlock.lock(resource_name, one_second)));
    servers.now += 2 * 1000;
    assert!(lock.extend(one_second, servers.now).is_err());
}

#[test]
fn test_get_random_string() {
    assert_eq!(get_random_string(32).len(), 32);
}

#[test]
fn test_num_milliseconds() {
    let duration = Duration::from_millis(5010);
    assert_eq!(num_milliseconds(duration), 5010);
}

#[test]
fn random_string_is_letters_and_digits() {
    let a = get_random_string(64);
    assert_eq!(a.chars().count(), 64);
    assert!(a.chars().all(|c| c.is_ascii_alphanumeric()));
    assert_ne!(a, get_random_string(64));
    assert_eq!(get_random_string(0), "");
}

#[test]
fn num_milliseconds_drops_sub_millisecond_part() {
    assert_eq!(num_milliseconds(Duration::new(5, 10_999_999)), 5010);
    assert_eq!(num_milliseconds(Duration::from_micros(999)), 0);
}

#[test]
fn num_milliseconds_saturates() {
    assert_eq!(num_milliseconds(Duration::MAX), u64::MAX);
    assert_eq!(num_milliseconds(Duration::from_secs(u64::MAX / 1000 + 1)), u64::MAX);
}

#[test]
fn drift_is_rounded_factor_plus_two() {
    assert_eq!(drift_ms(10_000, 1000), 12);
    assert_eq!(drift_ms(10_000, 50), 3);
    assert_eq!(drift_ms(10_000, 49), 2);
    assert_eq!(drift_ms(0, 1000), 2);
    assert_eq!(drift_ms(u32::MAX, u64::MAX), (u32::MAX as u128 * u64::MAX as u128 + 500_000) / 1_000_000 + 2);
}

#[test]
fn lease_expiration_needs_time_left() {
    assert_eq!(lease_expiration(1000, 100, 12, 1087), Some(1088));
    assert_eq!(lease_expiration(1000, 100, 12, 1088), None);
    assert_eq!(lease_expiration(0, 1, 2, 0), None);
    assert_eq!(lease_expiration(u64::MAX, u64::MAX, 2, 0), Some(2 * u64::MAX as u128 - 2));
}

#[test]
fn backoff_is_clamped_at_zero() {
    assert_eq!(backoff_ms(400, -500), 0);
    assert_eq!(backoff_ms(400, -400), 0);
    assert_eq!(backoff_ms(400, -1), 399);
    assert_eq!(backoff_ms(400, 399), 799);
    assert_eq!(backoff_ms(u64::MAX, 5), u64::MAX);
}

#[test]
fn retry_timeout_lies_within_jitter() {
    let redlock = Redlock::new(config(1)).unwrap();
    for _ in 0..200 {
        let ms = redlock.get_retry_timeout();
        assert!(ms < 800);
    }
    let mut c = config(1);
    c.retry_jitter = 0;
    let steady = Redlock::new(c).unwrap();
    assert_eq!(steady.get_retry_timeout(), 400);
    let mut c = config(1);
    c.retry_jitter = 100;
    let narrow = Redlock::new(c).unwrap();
    for _ in 0..200 {
        let ms = narrow.get_retry_timeout();
        assert!(300 <= ms && ms < 500);
    }
}

#[test]
fn single_server_happy_path() {
    let redlock = Redlock::new(config(1)).unwrap();
    let mut servers = Servers::new(1, T0);
    let lock = granted(servers.drive(redlock.lock("R1", Duration::from_millis(2000))));
    assert_eq!(lock.value().len(), 32);
    assert_eq!(lock.resource_name(), "R1");
    assert_eq!(servers.get(0).as_deref(), Some(lock.value()));
    let ttl = servers.ttl_left(0);
    assert!(0 < ttl && ttl <= 2000);
    assert!(matches!(servers.drive(lock.unlock()), Action::Unlocked));
    assert_eq!(servers.get(0), None);
}

#[test]
fn default_config_construction() {
    let redlock = Redlock::new(Config::default()).unwrap();
    assert_eq!(redlock.quorum(), 1);
    assert_eq!(redlock.clients().len(), 1);
    assert_eq!(redlock.drift_factor_ppm(), 10_000);
    assert_eq!(redlock.retry_jitter(), 400);
}

#[test]
fn empty_server_list() {
    let mut c = config(1);
    c.addrs = vec![];
    assert!(matches!(Redlock::new(c), Err(RedlockError::NoServerError)));
}

#[test]
fn jitter_over_delay() {
    let mut c = config(1);
    c.retry_delay = Duration::from_millis(100);
    c.retry_jitter = 200;
    assert!(matches!(Redlock::new(c), Err(RedlockError::DelayJitterError)));
    let mut c = config(1);
    c.retry_delay = Duration::from_millis(100);
    c.retry_jitter = 100;
    assert!(Redlock::new(c).is_ok());
}

#[test]
fn refused_address() {
    let mut c = config(2);
    c.addrs[1] = "not an address".to_string();
    assert!(matches!(Redlock::new(c), Err(RedlockError::RedisError(_))));
}

#[test]
fn quorum_is_majority() {
    for (n, q) in [(1, 1), (2, 2), (3, 2), (4, 3), (5, 3)] {
        assert_eq!(Redlock::new(config(n)).unwrap().quorum(), q);
    }
}

#[test]
fn double_acquire_contention() {
    let redlock = Redlock::new(config(1)).unwrap();
    let mut servers = Servers::new(1, T0);
    let first = granted(servers.drive(redlock.lock("R2", Duration::from_millis(500))));
    let second = servers.drive(redlock.lock("R2", Duration::from_millis(500)));
    match second {
        Action::Granted(lock) => {
            assert!(servers.now as u128 >= first.expiration());
            assert_ne!(lock.value(), first.value());
        }
        Action::Failed(e) => assert!(matches!(e, RedlockError::UnableToLock)),
        _ => panic!("the request did not finish"),
    }
}

#[test]
fn contention_without_expiry_gives_up() {
    let mut c = config(3);
    c.retry_count = 4;
    let redlock = Redlock::new(c).unwrap();
    let mut servers = Servers::new(3, T0);
    for i in 0..3 {
        servers.keys[i] = Some(("someone else".to_string(), u64::MAX));
    }
    let mut req = redlock.lock("R2", Duration::from_millis(500));
    let mut action = req.start();
    let mut attempts = 0;
    loop {
        action = match action {
            Action::Wait { ms } => {
                servers.now += ms;
                attempts += 1;
                req.woke(servers.now)
            }
            Action::Run { server } => {
                let reply = servers.run(server, req.kind(), req.value(), req.ttl_ms());
                req.replied(reply, servers.now)
            }
            Action::ReleaseAll => req.released(),
            _ => break,
        };
    }
    assert_eq!(attempts, 4);
    assert_eq!(req.attempts(), 4);
    assert_eq!(req.stage(), Stage::Finished);
    assert!(matches!(failed_with(action), RedlockError::UnableToLock));
    assert_eq!(servers.get(0).as_deref(), Some("someone else"));
}

#[test]
fn extend_on_expired_lease() {
    let redlock = Redlock::new(config(1)).unwrap();
    let mut servers = Servers::new(1, T0);
    let lock = granted(servers.drive(redlock.lock("R3", Duration::from_millis(100))));
    servers.now += 300;
    let asked = servers.asked;
    assert!(matches!(lock.extend(Duration::from_millis(100), servers.now), Err(RedlockError::LockExpired)));
    assert_eq!(servers.asked, asked);
    let at_expiry = lock.expiration() as u64;
    assert!(matches!(lock.extend(Duration::from_millis(100), at_expiry), Err(RedlockError::LockExpired)));
    assert!(lock.extend(Duration::from_millis(100), at_expiry - 1).is_ok());
}

#[test]
fn five_servers_two_unreachable() {
    let redlock = Redlock::new(config(5)).unwrap();
    assert_eq!(redlock.quorum(), 3);
    let mut servers = Servers::new(5, T0);
    servers.down[1] = true;
    servers.down[3] = true;
    let start = servers.now;
    let lock = granted(servers.drive(redlock.lock("R4", Duration::from_millis(1000))));
    assert_eq!(lock.expiration(), start as u128 + 988);
    assert_eq!(servers.get(0).as_deref(), Some(lock.value()));
    assert_eq!(servers.get(4).as_deref(), Some(lock.value()));
}

#[test]
fn too_many_failures_abandon_attempt_early() {
    let mut c = config(5);
    c.retry_count = 1;
    let redlock = Redlock::new(c).unwrap();
    let mut req = redlock.lock("R5", Duration::from_millis(1000));
    assert!(matches!(req.start(), Action::Wait { ms: 0 }));
    assert!(matches!(req.woke(T0), Action::Run { server: 0 }));
    assert!(matches!(req.replied(Reply::Failed, T0), Action::Run { server: 1 }));
    assert!(matches!(req.replied(Reply::Failed, T0), Action::Run { server: 2 }));
    assert!(matches!(req.replied(Reply::Failed, T0), Action::Run { server: 3 }));
    assert!(matches!(req.replied(Reply::Failed, T0), Action::ReleaseAll));
    assert_eq!(req.stage(), Stage::Cleaning);
    assert!(matches!(failed_with(req.released()), RedlockError::UnableToLock));
}

#[test]
fn late_replies_lose_the_lock() {
    let mut c = config(3);
    c.retry_count = 2;
    let redlock = Redlock::new(c).unwrap();
    let mut servers = Servers::new(3, T0);
    servers.reply_ms = 400;
    let a = servers.drive(redlock.lock("R6", Duration::from_millis(1000)));
    assert!(matches!(failed_with(a), RedlockError::UnableToLock));
    for i in 0..3 {
        assert_eq!(servers.get(i), None);
    }
}

#[test]
fn quorum_granted_with_a_refusal() {
    let redlock = Redlock::new(config(3)).unwrap();
    let mut req = redlock.lock("R7", Duration::from_millis(1000));
    req.start();
    req.woke(T0);
    assert!(matches!(req.replied(Reply::Applied, T0), Action::Run { server: 1 }));
    assert!(matches!(req.replied(Reply::NotApplied, T0), Action::Run { server: 2 }));
    let lock = granted(req.replied(Reply::Applied, T0 + 10));
    assert_eq!(lock.expiration(), T0 as u128 + 988);
    assert_eq!(lock.value(), req.value());
}

#[test]
fn no_retries_gives_up_at_once() {
    let mut c = config(1);
    c.retry_count = 0;
    let redlock = Redlock::new(c).unwrap();
    let mut req = redlock.lock("R8", Duration::from_millis(1000));
    assert!(matches!(failed_with(req.start()), RedlockError::UnableToLock));
    assert_eq!(req.attempts(), 0);
}

#[test]
fn extend_after_key_lost() {
    let mut c = config(1);
    c.retry_count = 3;
    let redlock = Redlock::new(c).unwrap();
    let mut servers = Servers::new(1, T0);
    let lock = granted(servers.drive(redlock.lock("R9", Duration::from_millis(5000))));
    servers.keys[0] = None;
    let req = lock.extend(Duration::from_millis(5000), servers.now).unwrap();
    assert!(matches!(failed_with(servers.drive(req)), RedlockError::UnableToExtend));
}

#[test]
fn release_twice() {
    let mut c = config(3);
    c.retry_count = 2;
    let redlock = Redlock::new(c).unwrap();
    let mut servers = Servers::new(3, T0);
    let lock = granted(servers.drive(redlock.lock("R10", Duration::from_millis(5000))));
    assert!(matches!(servers.drive(lock.unlock()), Action::Unlocked));
    let second = servers.drive(lock.unlock());
    assert!(matches!(failed_with(second), RedlockError::UnableToUnlock));
    for i in 0..3 {
        assert_eq!(servers.get(i), None);
    }
}

#[test]
fn release_leaves_other_values() {
    let redlock = Redlock::new(config(3)).unwrap();
    let mut servers = Servers::new(3, T0);
    let lock = granted(servers.drive(redlock.lock("R11", Duration::from_millis(5000))));
    servers.keys[2] = Some(("other".to_string(), u64::MAX));
    assert!(matches!(servers.drive(lock.unlock()), Action::Unlocked));
    assert_eq!(servers.get(0), None);
    assert_eq!(servers.get(2).as_deref(), Some("other"));
}

#[test]
fn second_locker_excluded_while_first_holds() {
    let mut c = config(5);
    c.retry_count = 3;
    let redlock = Redlock::new(c).unwrap();
    let mut servers = Servers::new(5, T0);
    let first = granted(servers.drive(redlock.lock("R12", Duration::from_millis(60_000))));
    servers.down[0] = true;
    let second = servers.drive(redlock.lock("R12", Duration::from_millis(60_000)));
    assert!(matches!(failed_with(second), RedlockError::UnableToLock));
    assert_eq!(servers.get(1).as_deref(), Some(first.value()));
}

#[test]
fn release_ignores_validity() {
    let redlock = Redlock::new(config(1)).unwrap();
    let lock = {
        let mut req = redlock.lock("R13", Duration::from_millis(100));
        req.start();
        req.woke(T0);
        granted(req.replied(Reply::Applied, T0))
    };
    let mut req = lock.unlock();
    assert_eq!(req.kind(), RequestKind::Unlock);
    assert_eq!(req.resource_name(), "R13");
    req.start();
    assert!(matches!(req.woke(T0 + 1_000_000), Action::Run { server: 0 }));
    assert!(matches!(req.replied(Reply::Applied, T0 + 2_000_000), Action::Unlocked));
}
