use vstd::prelude::*;

use crate::thread_id::ThreadId;

verus! {

/// A wrapper around a value that may be moved between threads, while the
/// value itself may be reached only from the thread that created the wrapper.
///
/// A wrapper is *valid* on a thread when that thread is its owner, the thread
/// that created it.
///
/// Dropping a `SendWrapper` drops the value on whatever thread drops it: this
/// type makes no thread check of its own at drop time. That check is
/// [`SendWrapper::drop_check`], which a destructor that owns the wrapper asks
/// before it lets the value go.
pub struct SendWrapper<T> {
    data: T,
    thread_id: ThreadId,
}

impl<T> SendWrapper<T> {
    /// The wrapped value.
    pub closed spec fn value(self) -> T {
        self.data
    }

    /// The thread that created the wrapper.
    pub closed spec fn owner(self) -> ThreadId {
        self.thread_id
    }

    /// Whether the value may be reached from thread `current`.
    pub open spec fn valid_on(self, current: ThreadId) -> bool {
        self.owner() == current
    }

    /// What an access from thread `current` sees: the value on the owner
    /// thread, nothing elsewhere.
    pub open spec fn access(self, current: ThreadId) -> Option<T> {
        if self.valid_on(current) {
            Some(self.value())
        } else {
            None
        }
    }

    /// What a shared access from thread `current` returns, as `get` does:
    /// the value exactly on the owner thread.
    pub open spec fn shared_access(self, current: ThreadId, result: Option<&T>) -> bool {
        match result {
            Some(r) => self.access(current) == Some(*r),
            None => self.access(current) is None,
        }
    }

    /// How a mutable access from thread `current`, as `get_mut` makes it,
    /// takes the wrapper from `before` to `after`, where `written` is what the
    /// caller left behind the returned reference, or `None` when no
    /// reference was returned: the owner never changes; on the owner thread
    /// the value becomes what was written, elsewhere it stays as it was.
    pub open spec fn mutable_access(
        before: SendWrapper<T>,
        after: SendWrapper<T>,
        current: ThreadId,
        written: Option<T>,
    ) -> bool {
        &&& after.owner() == before.owner()
        &&& match written {
            Some(v) => before.valid_on(current) && after.value() == v,
            None => !before.valid_on(current) && after.value() == before.value(),
        }
    }

    /// Wraps `data`; the calling thread `current` becomes the owner.
    pub fn new(data: T, current: ThreadId) -> (w: SendWrapper<T>)
        ensures
            w.value() == data,
            w.owner() == current,
    {
        SendWrapper { data, thread_id: current }
    }

    /// Whether the value may be reached from thread `current`.
    pub fn valid(&self, current: ThreadId) -> (b: bool)
        ensures
            b == self.valid_on(current),
            b == (self.owner() == current),
    {
        self.thread_id == current
    }

    /// The thread that created the wrapper.
    pub fn thread_id(&self) -> (t: ThreadId)
        ensures
            t == self.owner(),
    {
        self.thread_id
    }

    /// Takes the value out of the wrapper, whatever thread asks.
    pub fn take_unchecked(self) -> (v: T)
        ensures
            v == self.value(),
    {
        self.data
    }

    /// Takes the value out of the wrapper, on its owner thread.
    pub fn take(self, current: ThreadId) -> (v: Option<T>)
        requires
            self.valid_on(current),
        ensures
            v == self.access(current),
            v == Some(self.value()),
    {
        Some(self.take_unchecked())
    }

    /// A reference to the value, whatever thread asks.
    pub fn get_unchecked(&self) -> (v: &T)
        ensures
            *v == self.value(),
    {
        &self.data
    }

    /// A mutable reference to the value, whatever thread asks.
    pub fn get_unchecked_mut(&mut self) -> (v: &mut T)
        ensures
            *v == old(self).value(),
            final(self).value() == *final(v),
            final(self).owner() == old(self).owner(),
    {
        &mut self.data
    }

    /// A reference to the value if thread `current` owns the wrapper.
    pub fn get(&self, current: ThreadId) -> (v: Option<&T>)
        ensures
            self.shared_access(current, v),
            self.owner() == current ==> v == Some(&self.value()),
            self.owner() != current ==> v is None,
    {
        if self.valid(current) {
            Some(&self.data)
        } else {
            None
        }
    }

    /// A mutable reference to the value if thread `current` owns the wrapper.
    pub fn get_mut(&mut self, current: ThreadId) -> (v: Option<&mut T>)
        ensures
            old(self).owner() == current ==> v is Some,
            old(self).owner() != current ==> v is None,
            v matches Some(r) ==> *r == old(self).value(),
            final(self).owner() == old(self).owner(),
            match v {
                Some(r) => final(self).value() == *final(r),
                None => final(self).value() == old(self).value(),
            },
            Self::mutable_access(
                *old(self),
                *final(self),
                current,
                match v {
                    Some(r) => Some(*final(r)),
                    None => None,
                },
            ),
    {
        if self.valid(current) {
            Some(&mut self.data)
        } else {
            None
        }
    }

    /// Whether dropping the wrapper on thread `current` may drop the value,
    /// given whether the value's type has any drop glue (`needs_drop`): a
    /// value without drop glue may be dropped anywhere, any other value only
    /// on the owner thread.
    pub fn drop_allowed(&self, current: ThreadId, needs_drop: bool) -> (b: bool)
        ensures
            b == (!needs_drop || self.valid_on(current)),
            b == (!needs_drop || self.owner() == current),
    {
        !needs_drop || self.valid(current)
    }

    /// Whether dropping the wrapper on thread `current` may drop the value,
    /// asking the compiler whether `T` has drop glue. Returns that verdict
    /// together with the compiler's answer: the drop is allowed exactly when
    /// the answer is that `T` has no drop glue or `current` is the owner.
    pub fn drop_check(&self, current: ThreadId) -> (r: (bool, bool))
        ensures
            r.0 == (!r.1 || self.valid_on(current)),
            self.owner() == current ==> r.0,
            self.owner() != current ==> r.0 == !r.1,
    {
        let needs_drop = type_needs_drop::<T>();
        (self.drop_allowed(current, needs_drop), needs_drop)
    }

    /// A wrapper of `()` with the same owner, which tells on any thread
    /// whether that thread is the owner.
    pub fn tracker(&self) -> (t: SendWrapper<()>)
        ensures
            t.owner() == self.owner(),
            t.value() == (),
    {
        SendWrapper { data: (), thread_id: self.thread_id }
    }
}

impl<T: Clone> SendWrapper<T> {
    /// A new wrapper around a clone of the value, owned by the calling
    /// thread `current`, which must be the owner of `self`.
    pub fn clone(&self, current: ThreadId) -> (w: SendWrapper<T>)
        requires
            self.valid_on(current),
        ensures
            w.owner() == current,
            w.owner() == self.owner(),
            cloned(self.value(), w.value()),
    {
        let data = self.data.clone();
        SendWrapper::new(data, current)
    }
}

/// Whether values of type `T` have drop glue, by `std::mem::needs_drop`.
///
/// Nothing is stated of the answer: it is a property of the type that the
/// compiler decides, and std's documentation allows it to be `true` even for
/// types that need no drop.
#[verifier::external_body]
fn type_needs_drop<T>() -> bool {
    std::mem::needs_drop::<T>()
}

} // verus!
