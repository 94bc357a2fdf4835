use vstd::prelude::*;

verus! {

#[verifier::external_type_specification]
#[verifier::external_body]
pub struct ExRedisError(redis::RedisError);

#[verifier::external_type_specification]
#[verifier::external_body]
pub struct ExSystemTimeError(std::time::SystemTimeError);

/// Everything that a lock operation can fail with.
#[derive(Debug)]
pub enum RedlockError {
    /// A server address was refused by the redis client.
    RedisError(redis::RedisError),
    /// The system clock could not be read as a time after the Unix epoch.
    TimeError(std::time::SystemTimeError),
    /// The configuration names no server.
    NoServerError,
    /// A request ran out of time.
    TimeoutError,
    /// The retry jitter exceeds the retry delay.
    DelayJitterError,
    /// The lock expired before it could be extended.
    LockExpired,
    /// No attempt gathered a quorum of servers for the lock.
    UnableToLock,
    /// No attempt gathered a quorum of servers for the release.
    UnableToUnlock,
    /// No attempt gathered a quorum of servers for the extension.
    UnableToExtend,
}

pub type RedlockResult<T> = Result<T, RedlockError>;

} // verus!
