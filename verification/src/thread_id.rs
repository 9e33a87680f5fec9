use vstd::prelude::*;

verus! {

/// The identity of a thread, as a plain number.
///
/// Two values are equal exactly when they name the same thread.
#[derive(Clone, Copy, Debug, PartialEq, Eq, Hash, Structural)]
pub struct ThreadId(u64);

impl ThreadId {
    /// The number that this identity stands for.
    pub closed spec fn id(self) -> u64 {
        self.0
    }

    /// Makes the identity of the thread numbered `id`.
    pub fn new(id: u64) -> (t: ThreadId)
        ensures
            t.id() == id,
    {
        ThreadId(id)
    }

    /// The number that this identity stands for.
    pub fn as_u64(&self) -> (id: u64)
        ensures
            id == self.id(),
    {
        self.0
    }

    /// Two identities are equal exactly when their numbers are.
    pub proof fn lemma_eq_by_id(a: ThreadId, b: ThreadId)
        ensures
            (a == b) <==> (a.id() == b.id()),
    {
    }
}

} // verus!
