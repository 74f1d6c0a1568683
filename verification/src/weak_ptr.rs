use vstd::prelude::*;
use core::marker::PhantomData;

verus! {

/// A non-owning handle to a backend interface object, recorded as the
/// address it designates; address zero is the null handle. The renderer
/// owns each object it creates and releases it exactly once, so these
/// handles only name objects, they never free them.
pub struct WeakPtr<T> {
    /// The address this handle designates; zero when null.
    pub addr: usize,
    pub _marker: PhantomData<T>,
}

impl<T> WeakPtr<T> {
    /// The null handle: designates no object.
    pub fn null() -> (r: Self)
        ensures
            r.addr == 0,
    {
        WeakPtr { addr: 0, _marker: PhantomData }
    }

    /// Wraps an address handed out by the backend.
    pub fn from_raw(raw: usize) -> (r: Self)
        ensures
            r.addr == raw,
    {
        WeakPtr { addr: raw, _marker: PhantomData }
    }

    /// True exactly when this is the null handle.
    pub fn is_null(&self) -> (r: bool)
        ensures
            r == (self.addr == 0),
    {
        self.addr == 0
    }

    /// The designated address, for read-only use.
    pub fn as_ptr(&self) -> (r: usize)
        ensures
            r == self.addr,
    {
        self.addr
    }

    /// The designated address, for mutating use.
    pub fn as_mut_ptr(&self) -> (r: usize)
        ensures
            r == self.addr,
    {
        self.addr
    }
}

impl<T> Clone for WeakPtr<T> {
    /// A clone designates the same object.
    fn clone(&self) -> (r: Self)
        ensures
            r.addr == self.addr,
    {
        WeakPtr { addr: self.addr, _marker: PhantomData }
    }
}

impl<T> Copy for WeakPtr<T> {

}

} // verus!
