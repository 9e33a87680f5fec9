use vstd::prelude::*;

use crate::thread_id::ThreadId;
use crate::wrapper::SendWrapper;

verus! {

/// At most one thread may reach the value of a wrapper: two threads on
/// which it is valid are the same thread.
pub proof fn lemma_single_owner<T>(w: SendWrapper<T>, t1: ThreadId, t2: ThreadId)
    requires
        w.valid_on(t1),
        w.valid_on(t2),
    ensures
        t1 == t2,
{
}

/// The owner thread sees the wrapped value, and every other thread sees
/// nothing.
pub proof fn lemma_access_by_thread<T>(w: SendWrapper<T>, t: ThreadId)
    ensures
        w.access(w.owner()) == Some(w.value()),
        t != w.owner() ==> w.access(t) is None,
{
}

/// A value written through the reference that `get_mut` hands to the owner
/// is what a following `get` on the owner thread returns, and the owner
/// stays the same.
pub proof fn lemma_write_then_read<T>(
    before: SendWrapper<T>,
    after: SendWrapper<T>,
    current: ThreadId,
    written: T,
    read: Option<&T>,
)
    requires
        SendWrapper::mutable_access(before, after, current, Some(written)),
        after.shared_access(current, read),
    ensures
        read == Some(&written),
        after.owner() == before.owner(),
        after.valid_on(current),
{
}

/// A `get_mut` from a thread other than the owner hands out nothing and
/// leaves the wrapper as it was, so a following `get` there returns nothing
/// and the owner still sees the old value.
pub proof fn lemma_foreign_mutable_access<T>(
    before: SendWrapper<T>,
    after: SendWrapper<T>,
    current: ThreadId,
    read: Option<&T>,
)
    requires
        !before.valid_on(current),
        SendWrapper::mutable_access(before, after, current, None),
        after.shared_access(current, read),
    ensures
        read is None,
        after.access(after.owner()) == before.access(before.owner()),
{
}

/// A tracker made from a wrapper answers the validity question as the
/// wrapper does, on every thread.
pub proof fn lemma_tracker_agrees<T>(w: SendWrapper<T>, tracker: SendWrapper<()>, t: ThreadId)
    requires
        tracker.owner() == w.owner(),
    ensures
        tracker.valid_on(t) == w.valid_on(t),
{
}

/// Validity is ownership: a wrapper is valid on a thread exactly when that
/// thread created it, and what an access sees there is the wrapped value.
pub proof fn lemma_valid_is_ownership<T>(w: SendWrapper<T>, t: ThreadId)
    ensures
        w.valid_on(t) <==> w.owner() == t,
        w.owner() == t ==> w.access(t) == Some(w.value()),
        w.owner() != t ==> w.access(t) is None,
{
}

/// Every result that `get` may give on the owner thread is a reference to
/// the wrapped value, whatever the value's type: `get` never refuses the
/// owner.
pub proof fn lemma_get_on_owner<T>(w: SendWrapper<T>, t: ThreadId, read: Option<&T>)
    requires
        w.owner() == t,
        w.shared_access(t, read),
    ensures
        read == Some(&w.value()),
{
}

/// Every result that `get` may give on a thread other than the owner is
/// `None`.
pub proof fn lemma_get_elsewhere<T>(w: SendWrapper<T>, t: ThreadId, read: Option<&T>)
    requires
        w.owner() != t,
        w.shared_access(t, read),
    ensures
        read is None,
{
}

/// On the owner thread `get_mut` always hands out a reference, whatever the
/// value's type, and what is written through it becomes the wrapped value;
/// the owner never changes.
pub proof fn lemma_get_mut_on_owner<T>(
    before: SendWrapper<T>,
    after: SendWrapper<T>,
    t: ThreadId,
    written: Option<T>,
)
    requires
        before.owner() == t,
        SendWrapper::mutable_access(before, after, t, written),
    ensures
        written is Some,
        after.value() == written->0,
        after.owner() == before.owner(),
{
}

/// On a thread other than the owner `get_mut` hands out nothing and leaves
/// the wrapper as it was.
pub proof fn lemma_get_mut_elsewhere<T>(
    before: SendWrapper<T>,
    after: SendWrapper<T>,
    t: ThreadId,
    written: Option<T>,
)
    requires
        before.owner() != t,
        SendWrapper::mutable_access(before, after, t, written),
    ensures
        written is None,
        after.value() == before.value(),
        after.owner() == before.owner(),
{
}

} // verus!
