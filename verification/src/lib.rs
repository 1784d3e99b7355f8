//! Watch-mode rebuild orchestration for a module bundler.
//!
//! The crate models the subsystem that observes filesystem changes, decides
//! when to trigger a new build, guarantees at most one build runs at a time,
//! and publishes an ordered lifecycle-event stream to external listeners.
//! It also contains the ESM chunk renderer and the scanner rule for
//! `new URL('path', import.meta.url)` expressions.

pub mod bridge;
pub mod emitter;
pub mod esm;
pub mod events;
pub mod new_url;
pub mod types;
pub mod watch_set;
pub mod watcher;
