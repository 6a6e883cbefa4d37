//! A condition variable built on a 32-bit generation counter and the
//! futex-style wait/wake operations of `atomic_wait`, together with a
//! mutex adapter whose guards remember their lock and a verified model of
//! the wait/notify handshake.

pub mod cond_var;
pub mod lock;
pub mod protocol;

pub use cond_var::{notify_needed, Condvar};
pub use lock::{Mutex, MutexGuard};
