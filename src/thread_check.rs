//! The runtime stand-in for the thread partitioning, where a static proof of
//! the calling context is not available: main-thread data is handed out only
//! to the thread recorded when it was created.
use vstd::prelude::*;

verus! {

/// The error of an access from a thread other than the recorded one.
#[derive(Clone, Copy, Debug, PartialEq, Eq, Structural)]
pub struct WrongThreadError {
    pub expected: u64,
    pub found: u64,
}

/// Data of the main-thread partition, with the identifier of the thread that
/// owns it.
pub struct MainThreadCell<M> {
    owner: u64,
    data: M,
}

impl<M> MainThreadCell<M> {
    pub closed spec fn spec_owner(&self) -> u64 {
        self.owner
    }

    pub closed spec fn spec_data(&self) -> M {
        self.data
    }

    /// Data owned by the thread `owner`, the one creating the instance.
    pub fn new(owner: u64, data: M) -> (r: MainThreadCell<M>)
        ensures
            r.spec_owner() == owner,
            r.spec_data() == data,
    {
        MainThreadCell { owner, data }
    }

    pub fn owner(&self) -> (r: u64)
        ensures
            r == self.spec_owner(),
    {
        self.owner
    }

    /// Whether `current` is the owning thread.
    pub fn is_owner(&self, current: u64) -> (r: bool)
        ensures
            r == (current == self.spec_owner()),
    {
        current == self.owner
    }

    /// The data, for the owning thread only.
    pub fn get(&self, current: u64) -> (r: Result<&M, WrongThreadError>)
        ensures
            current == self.spec_owner() ==> r is Ok && *r->Ok_0 == self.spec_data(),
            current != self.spec_owner() ==> r == Err::<&M, _>(
                WrongThreadError { expected: self.spec_owner(), found: current },
            ),
    {
        if current == self.owner {
            Ok(&self.data)
        } else {
            Err(WrongThreadError { expected: self.owner, found: current })
        }
    }

    /// The data for writing, for the owning thread only; the owner never changes.
    pub fn get_mut(&mut self, current: u64) -> (r: Result<&mut M, WrongThreadError>)
        ensures
            final(self).spec_owner() == old(self).spec_owner(),
            current == old(self).spec_owner() ==> r is Ok && *r->Ok_0 == old(self).spec_data()
                && final(self).spec_data() == *final(r->Ok_0),
            current != old(self).spec_owner() ==> r == Err::<&mut M, _>(
                WrongThreadError { expected: old(self).spec_owner(), found: current },
            ) && final(self).spec_data() == old(self).spec_data(),
    {
        if current == self.owner {
            Ok(&mut self.data)
        } else {
            Err(WrongThreadError { expected: self.owner, found: current })
        }
    }

    /// Gives the data back, for the owning thread only; otherwise the cell
    /// comes back unchanged in the error.
    pub fn into_inner(self, current: u64) -> (r: Result<M, (WrongThreadError, MainThreadCell<M>)>)
        ensures
            current == self.spec_owner() ==> r == Ok::<M, (WrongThreadError, MainThreadCell<M>)>(self.spec_data()),
            current != self.spec_owner() ==> r is Err && r->Err_0.0 == (WrongThreadError {
                expected: self.spec_owner(),
                found: current,
            }) && r->Err_0.1 == self,
    {
        if current == self.owner {
            Ok(self.data)
        } else {
            let e = WrongThreadError { expected: self.owner, found: current };
            Err((e, self))
        }
    }
}

} // verus!
