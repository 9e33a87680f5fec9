//! A wrapper that lets a value of any type travel between threads while
//! access to the value stays reserved to the thread that created the wrapper.
//!
//! The library is written against an explicit thread identity: every
//! operation that the thread check guards takes the identity of the calling
//! thread as a [`ThreadId`], and its contract says what that check decides.
//! Where the decision also rests on the compiler's answer whether a type has
//! drop glue, the operation returns that answer beside its verdict.

pub mod laws;
pub mod messages;
pub mod thread_id;
pub mod wrapper;

pub use messages::{invalid_deref, invalid_drop, invalid_poll};
pub use thread_id::ThreadId;
pub use wrapper::SendWrapper;
