//! Addresses in the traced process's address space.

use core::marker::PhantomData;
use vstd::prelude::*;

verus! {

/// The address of a `T` in the traced process.
pub struct RemotePtr<T> {
    ptr: usize,
    phantom: PhantomData<T>,
}

impl<T> RemotePtr<T> {
    /// The address itself.
    pub closed spec fn addr(&self) -> usize {
        self.ptr
    }

    pub fn new_from_val(val: usize) -> (r: RemotePtr<T>)
        ensures
            r.addr() == val,
    {
        RemotePtr { ptr: val, phantom: PhantomData }
    }

    pub fn as_usize(&self) -> (r: usize)
        ensures
            r == self.addr(),
    {
        self.ptr
    }
}

/// The address of an instruction in the traced process.
#[derive(Copy, Clone, Debug, PartialEq, Eq, Structural)]
pub struct RemoteCodePtr {
    ptr: usize,
}

impl RemoteCodePtr {
    /// The address itself.
    pub closed spec fn addr(&self) -> usize {
        self.ptr
    }

    pub fn new_from_val(val: usize) -> (r: RemoteCodePtr)
        ensures
            r.addr() == val,
    {
        RemoteCodePtr { ptr: val }
    }

    pub fn as_usize(&self) -> (r: usize)
        ensures
            r == self.addr(),
    {
        self.ptr
    }
}

} // verus!
