//! Wrapper for userspace addresses.
//!
//! A user-supplied address is never dereferenced implicitly: this wrapper
//! carries the raw address as a plain value and offers only explicit,
//! validated operations. The actual memory accesses live outside the
//! verified library, at the hardware edge.

use crate::errno::{EFAULT, EINVAL};
use vstd::prelude::*;

verus! {

/// Wraps a raw userspace address to prevent accidental dereference and
/// enforce explicit, checked copying.
#[derive(Debug)]
pub struct UserPtr<T> {
    addr: usize,
    _marker: core::marker::PhantomData<T>,
}

impl<T> Clone for UserPtr<T> {
    fn clone(&self) -> (r: Self)
        ensures
            r == *self,
    {
        UserPtr { addr: self.addr, _marker: core::marker::PhantomData }
    }
}

impl<T> Copy for UserPtr<T> {

}

impl<T> UserPtr<T> {
    /// The raw address the pointer carries.
    pub closed spec fn addr_spec(&self) -> usize {
        self.addr
    }

    /// Create a new `UserPtr` from a raw address.
    pub fn new(addr: usize) -> (p: UserPtr<T>)
        ensures
            p.addr_spec() == addr,
    {
        UserPtr { addr, _marker: core::marker::PhantomData }
    }

    /// Returns the raw address value.
    pub fn as_ptr(&self) -> (addr: usize)
        ensures
            addr == self.addr_spec(),
    {
        self.addr
    }

    /// Check if the pointer is null.
    pub fn is_null(&self) -> (b: bool)
        ensures
            b == (self.addr_spec() == 0),
    {
        self.addr == 0
    }

    /// Check if the pointer is null or misaligned for type `T`.
    pub fn check(&self) -> (r: Result<(), isize>)
        ensures
            self.addr_spec() == 0 ==> r == Err::<(), isize>((-EFAULT) as isize),
            self.addr_spec() != 0 && self.addr_spec() as nat % vstd::layout::align_of::<T>() != 0
                ==> r == Err::<(), isize>((-EINVAL) as isize),
            self.addr_spec() != 0 && self.addr_spec() as nat % vstd::layout::align_of::<T>() == 0
                ==> r == Ok::<(), isize>(()),
    {
        if self.addr == 0 {
            return Err(-EFAULT);
        }
        vstd::layout::layout_for_type_is_valid::<T>();
        let align = core::mem::align_of::<T>();
        if self.addr % align != 0 {
            return Err(-EINVAL);
        }
        Ok(())
    }
}

} // verus!
