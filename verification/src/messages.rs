use vstd::prelude::*;

verus! {

/// The message of a refused access to the value from a foreign thread.
pub open spec fn deref_error_message() -> Seq<char> {
    "Dereferenced SendWrapper<T> variable from a thread different to the one it has been created with."@
}

/// The message of a refused poll of a wrapped future or stream from a
/// foreign thread.
pub open spec fn poll_error_message() -> Seq<char> {
    "Polling SendWrapper<T> variable from a thread different to the one it has been created with."@
}

/// The message of a refused drop of the wrapper on a foreign thread.
pub open spec fn drop_error_message() -> Seq<char> {
    "Dropped SendWrapper<T> variable from a thread different to the one it has been created with."@
}

/// The message with which an access to the value from a foreign thread is
/// refused.
pub fn invalid_deref() -> (msg: &'static str)
    ensures
        msg@ == deref_error_message(),
{
    "Dereferenced SendWrapper<T> variable from a thread different to the one it has been created with."
}

/// The message with which a poll of a wrapped future or stream from a
/// foreign thread is refused.
pub fn invalid_poll() -> (msg: &'static str)
    ensures
        msg@ == poll_error_message(),
{
    "Polling SendWrapper<T> variable from a thread different to the one it has been created with."
}

/// What a drop on a foreign thread reports: the message to fail with, or
/// nothing when the thread is already `panicking`, so that one failure does
/// not turn into a second one.
pub fn invalid_drop(panicking: bool) -> (msg: Option<&'static str>)
    ensures
        msg is Some <==> !panicking,
        msg matches Some(m) ==> m@ == drop_error_message(),
{
    if panicking {
        None
    } else {
        Some("Dropped SendWrapper<T> variable from a thread different to the one it has been created with.")
    }
}

} // verus!
