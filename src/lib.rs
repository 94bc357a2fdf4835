use vstd::prelude::*;

pub mod errors;
pub mod redlock;
pub mod request;
pub mod safety;
pub mod scripts;
pub mod util;

pub use errors::{RedlockError, RedlockResult};
pub use redlock::{Config, Lock, Redlock};
pub use request::{Action, Reply, Request, RequestKind, Stage};
pub use util::{get_random_string, num_milliseconds};
