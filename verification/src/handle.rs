//! Ownership of native resources. A resource is known here by its address;
//! the null address stands for "no resource".
use vstd::prelude::*;
use core::marker::PhantomData;
use crate::error::Status;
use crate::error::status_result;
use crate::native::ErrorCode;

verus! {

/// A thin wrapper around the address of a native resource of kind `T`. It
/// tells a live address from the null one and hands the address on; it does
/// not free anything.
#[derive(Debug)]
pub struct Handle<T> {
    handle: usize,
    _marker: PhantomData<T>,
}

impl<T> Handle<T> {
    /// The address held: `0` once the handle was taken or if it never held
    /// a resource.
    pub closed spec fn addr(&self) -> usize {
        self.handle
    }

    /// Whether the handle holds no resource.
    pub open spec fn spec_is_null(&self) -> bool {
        self.addr() == 0
    }

    /// A handle to the resource at `handle`, or `None` for the null address.
    pub fn from_raw(handle: usize) -> (r: Option<Self>)
        ensures
            handle == 0 <==> r is None,
            r matches Some(h) ==> h.addr() == handle,
    {
        if handle == 0 {
            None
        } else {
            Some(Handle::from_raw_unchecked(handle))
        }
    }

    /// A handle to whatever is at `handle`, the null address included.
    pub fn from_raw_unchecked(handle: usize) -> (h: Self)
        ensures
            h.addr() == handle,
    {
        Self { handle, _marker: PhantomData }
    }

    /// Whether the handle holds no resource.
    pub fn is_null(&self) -> (b: bool)
        ensures
            b == self.spec_is_null(),
    {
        self.handle == 0
    }

    /// Empties the handle and returns the address it held.
    pub fn take(&mut self) -> (ptr: usize)
        ensures
            ptr == old(self).addr(),
            final(self).addr() == 0,
    {
        let ptr = self.handle;
        self.handle = 0;
        ptr
    }

    /// The address of the resource, for a call that reads it. The handle must
    /// hold one.
    pub fn as_ptr(&self) -> (ptr: usize)
        requires
            !self.spec_is_null(),
        ensures
            ptr == self.addr(),
            ptr != 0,
    {
        self.handle
    }

    /// The address of the resource, for a call that changes it. The handle
    /// must hold one, and keeps it.
    pub fn as_mut_ptr(&mut self) -> (ptr: usize)
        requires
            !old(self).spec_is_null(),
        ensures
            ptr == old(self).addr(),
            ptr != 0,
            *final(self) == *old(self),
    {
        self.handle
    }

    /// Gives the address up to the caller, who owns the resource from now on.
    pub fn into_raw(self) -> (ptr: usize)
        ensures
            ptr == self.addr(),
    {
        self.handle
    }
}

/// The condition that a native constructor returned the null address.
#[derive(Clone, Copy, Debug, PartialEq, Eq, Structural)]
pub struct NullHandle;

/// The one owner of a native resource, together with the function that
/// releases it.
///
/// A handle is made for a non-null address only. It is either live, with
/// the address and the release function, which has not been called, or
/// released, with the address cleared and the function gone. The release
/// function can be called once: the handle holds it until it calls it and
/// gives it up in the call. The handle also counts the calls, so that
/// contracts can say "exactly once".
#[verifier::reject_recursive_types(U)]
#[verifier::reject_recursive_types(F)]
pub struct OwnedExternHandle<U, F: FnOnce(usize) -> U> {
    handle: usize,
    drop_fn: Option<F>,
    releases: Ghost<nat>,
    _result: PhantomData<U>,
}

impl<U, F: FnOnce(usize) -> U> OwnedExternHandle<U, F> {
    #[verifier::type_invariant]
    closed spec fn releasable(self) -> bool {
        &&& self.handle != 0 <==> self.drop_fn is Some
        &&& self.handle != 0 ==> call_requires(self.drop_fn->0, (self.handle,))
    }

    /// The address owned: `0` once released.
    pub closed spec fn addr(self) -> usize {
        self.handle
    }

    /// The function that releases the resource, for as long as the handle
    /// holds it: a live handle does, and a handle that has called it does
    /// not.
    pub closed spec fn release_fn(self) -> Option<F> {
        self.drop_fn
    }

    /// How often this handle has called its release function.
    pub closed spec fn release_count(self) -> nat {
        self.releases@
    }

    /// Whether the resource was released.
    pub open spec fn spec_dropped(self) -> bool {
        self.addr() == 0
    }

    /// The handle as one release leaves it. A live handle is cleared, has
    /// given its release function up and has called it once more; a handle
    /// that was released before is as it was.
    pub closed spec fn after_release(self) -> Self {
        if self.handle == 0 {
            self
        } else {
            OwnedExternHandle {
                handle: 0,
                drop_fn: None,
                releases: Ghost(self.releases@ + 1),
                _result: PhantomData,
            }
        }
    }

    /// What `after_release` does to the parts of a handle.
    pub proof fn lemma_after_release(self)
        ensures
            self.after_release().addr() == 0,
            !self.spec_dropped() ==> self.after_release().release_fn() is None,
            self.after_release().release_count() == self.release_count() + (if self.spec_dropped() {
                0nat
            } else {
                1nat
            }),
            self.spec_dropped() ==> self.after_release() == self,
    {
    }

    /// Releasing twice is releasing once: the second release finds the handle
    /// cleared, changes nothing and calls nothing, so that a live handle has
    /// called its release function exactly once after any number of releases.
    pub proof fn lemma_release_idempotent(self)
        requires
            !self.spec_dropped(),
        ensures
            self.after_release().spec_dropped(),
            self.after_release().after_release() == self.after_release(),
            self.after_release().release_count() == self.release_count() + 1,
            self.after_release().after_release().release_count() == self.release_count() + 1,
    {
        Self::lemma_after_release(self);
        Self::lemma_after_release(self.after_release());
    }

    /// Takes ownership of what a native constructor returned, to be released
    /// by `drop_fn`: a live handle, or `NullHandle` where the constructor
    /// returned the null address. No handle is made for the null address,
    /// and `drop_fn` is given up without being called.
    pub fn new(handle: usize, drop_fn: F) -> (r: Result<Self, NullHandle>)
        requires
            handle != 0 ==> call_requires(drop_fn, (handle,)),
        ensures
            handle == 0 ==> r == Err::<Self, NullHandle>(NullHandle),
            handle != 0 ==> (r matches Ok(h) && h.addr() == handle && h.release_fn() == Some(
                drop_fn,
            ) && h.release_count() == 0),
    {
        if handle == 0 {
            Err(NullHandle)
        } else {
            Ok(Self { handle, drop_fn: Some(drop_fn), releases: Ghost(0), _result: PhantomData })
        }
    }

    /// Whether the resource was released. A released handle holds no
    /// release function: there is nothing left that it could call.
    pub fn dropped(&self) -> (b: bool)
        ensures
            b == self.spec_dropped(),
            b == (self.release_fn() is None),
    {
        proof {
            use_type_invariant(self);
        }
        self.handle == 0
    }

    /// Releases a live handle: calls the release function on the address,
    /// once, clears the handle and returns what the function returned. The
    /// function is given up in the call, so that it cannot be called again.
    pub fn drop_handle_unsafe(&mut self) -> (r: U)
        requires
            !old(self).spec_dropped(),
        ensures
            *final(self) == old(self).after_release(),
            final(self).spec_dropped(),
            final(self).release_fn() is None,
            final(self).release_count() == old(self).release_count() + 1,
            old(self).release_fn() matches Some(release) && call_ensures(
                release,
                (old(self).addr(),),
                r,
            ),
    {
        proof {
            use_type_invariant(&*self);
        }
        let mut live = OwnedExternHandle {
            handle: 0,
            drop_fn: None,
            releases: Ghost(self.releases@ + 1),
            _result: PhantomData,
        };
        core::mem::swap(self, &mut live);
        let OwnedExternHandle { handle, drop_fn, releases: _, _result: _ } = live;
        match drop_fn {
            Some(release) => release(handle),
            None => vstd::pervasive::unreached(),
        }
    }

    /// The address of the resource, for a call that reads it. The handle must
    /// be live.
    pub fn as_raw(&self) -> (ptr: usize)
        requires
            !self.spec_dropped(),
        ensures
            ptr == self.addr(),
            ptr != 0,
    {
        self.handle
    }

    /// The address of the resource, for a call that changes it. The handle
    /// must be live, and stays so.
    pub fn as_raw_mut(&mut self) -> (ptr: usize)
        requires
            !old(self).spec_dropped(),
        ensures
            ptr == old(self).addr(),
            ptr != 0,
            *final(self) == *old(self),
    {
        self.handle
    }
}

impl<F: FnOnce(usize) -> ErrorCode> OwnedExternHandle<ErrorCode, F> {
    /// Releases the resource if it is live, and reports how that went. On a
    /// live handle the release function is called once, on the address, and
    /// its code is the result; on a released handle nothing is called,
    /// nothing changes and the result is `Ok(())`.
    pub fn drop_handle(&mut self) -> (r: Result<(), Status>)
        ensures
            *final(self) == old(self).after_release(),
            final(self).spec_dropped(),
            old(self).spec_dropped() ==> r == Ok::<(), Status>(()) && *final(self) == *old(self),
            !old(self).spec_dropped() ==> {
                &&& final(self).release_count() == old(self).release_count() + 1
                &&& final(self).release_fn() is None
                &&& old(self).release_fn() is Some
                &&& exists|code: ErrorCode|
                    call_ensures(old(self).release_fn()->0, (old(self).addr(),), code) && r
                        == status_result(Status::spec_from(code))
            },
    {
        if self.dropped() {
            proof {
                Self::lemma_after_release(*old(self));
            }
            Ok(())
        } else {
            let code = self.drop_handle_unsafe();
            Status::from(code).into_result()
        }
    }
}

} // verus!
