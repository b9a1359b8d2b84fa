//! Handle bridging: letting a foreign caller hold, duplicate and release
//! a heap-owned native object through an opaque handle.
//!
//! A handle is modelled as a bare address, null or not; the heap the
//! layer allocates from is modelled by an arena whose view is the
//! sequence of its slots, live or freed.  Validity of a handle - it came
//! from this layer's own allocation and has not been destroyed - is the
//! caller's precondition, exactly as at a real boundary, and is written
//! as one here.

use vstd::prelude::*;

use crate::error::FfiError;
use crate::foreign::OutParam;

verus! {

/// The opaque raw pointer a foreign caller holds: an address, where 0 is
/// null.
#[derive(Clone, Copy, Debug, PartialEq, Eq, Structural)]
pub struct RawHandle {
    pub addr: usize,
}

/// A native type whose values may be duplicated across the boundary: a
/// deep copy that equals the original by content.  Types that are
/// move-only at the boundary simply do not implement it.
pub trait BridgeClone: Sized {
    fn bridge_clone(&self) -> (r: Self)
        ensures
            r == *self,
    ;
}

impl BridgeClone for u8 {
    fn bridge_clone(&self) -> (r: u8) {
        *self
    }
}

impl BridgeClone for u32 {
    fn bridge_clone(&self) -> (r: u32) {
        *self
    }
}

impl BridgeClone for u64 {
    fn bridge_clone(&self) -> (r: u64) {
        *self
    }
}

impl BridgeClone for bool {
    fn bridge_clone(&self) -> (r: bool) {
        *self
    }
}

impl BridgeClone for String {
    fn bridge_clone(&self) -> (r: String) {
        self.clone()
    }
}

/// The heap this layer allocates handles from, for one opaque native
/// type.  Its view is the sequence of slots ever allocated; a freed slot
/// stays as `None` so that an address is never reused.
pub struct HandleArena<T> {
    slots: Vec<Option<T>>,
}

impl<T> View for HandleArena<T> {
    type V = Seq<Option<T>>;

    closed spec fn view(&self) -> Seq<Option<T>> {
        self.slots@
    }
}

impl<T> HandleArena<T> {
    /// A non-null handle is valid while it points at a live allocation
    /// of this arena.
    pub open spec fn valid(&self, h: RawHandle) -> bool {
        1 <= h.addr && h.addr <= self@.len() && self@[h.addr - 1] is Some
    }

    /// The native value a valid handle refers to.
    pub open spec fn value_of(&self, h: RawHandle) -> T
        recommends
            self.valid(h),
    {
        self@[h.addr - 1]->0
    }
}

/// What boxing a new native object does to the arena: the handle is
/// non-null and fresh, it refers to the boxed value, and every other
/// handle keeps its standing and its value.
pub open spec fn box_post<T>(pre: HandleArena<T>, post: HandleArena<T>, value: T, h: RawHandle) -> bool {
    &&& h.addr != 0
    &&& !pre.valid(h)
    &&& post.valid(h)
    &&& post.value_of(h) == value
    &&& forall|g: RawHandle| g.addr != h.addr ==> (#[trigger] post.valid(g) <==> pre.valid(g))
    &&& forall|g: RawHandle|
        g.addr != h.addr && pre.valid(g) ==> #[trigger] post.value_of(g) == pre.value_of(g)
}

/// What destroying a handle does to the arena: null is a no-op; a valid
/// handle's allocation is reclaimed, and every other handle keeps its
/// standing and its value.
pub open spec fn destroy_post<T>(pre: HandleArena<T>, post: HandleArena<T>, h: RawHandle) -> bool {
    if h.addr == 0 {
        post == pre
    } else {
        &&& !post.valid(h)
        &&& forall|g: RawHandle| g.addr != h.addr ==> (#[trigger] post.valid(g) <==> pre.valid(g))
        &&& forall|g: RawHandle|
            g.addr != h.addr && pre.valid(g) ==> #[trigger] post.value_of(g) == pre.value_of(g)
    }
}

impl<T> HandleArena<T> {
    pub fn new() -> (arena: HandleArena<T>)
        ensures
            arena@.len() == 0,
    {
        HandleArena { slots: Vec::new() }
    }

    /// Box a freshly produced native object and hand its address across
    /// the boundary: the result-encoding rule for an opaque type.
    pub fn box_object(&mut self, value: T) -> (h: RawHandle)
        requires
            old(self)@.len() < usize::MAX,
        ensures
            box_post(*old(self), *final (self), value, h),
    {
        self.slots.push(Some(value));
        RawHandle { addr: self.slots.len() }
    }

    /// The result-encoding rule for an optional opaque type: "absent"
    /// becomes the null handle and allocates nothing.
    pub fn box_optional(&mut self, value: Option<T>) -> (h: RawHandle)
        requires
            old(self)@.len() < usize::MAX,
        ensures
            value matches Some(v) ==> box_post(*old(self), *final (self), v, h),
            value is None ==> h.addr == 0 && *final (self) == *old(self),
    {
        match value {
            Some(v) => self.box_object(v),
            None => RawHandle { addr: 0 },
        }
    }

    /// Reconstitute a shared reference from a handle: the
    /// argument-decoding rule for an opaque type.  Null fails with
    /// `NullPointer`; validity of a non-null handle is the caller's
    /// precondition.
    pub fn native_handle_cast(&self, h: RawHandle) -> (r: Result<&T, FfiError>)
        requires
            h.addr != 0 ==> self.valid(h),
        ensures
            h.addr == 0 ==> (r matches Err(e) && e == FfiError::NullPointer),
            h.addr != 0 ==> (r matches Ok(value) && *value == self.value_of(h)),
    {
        if h.addr == 0 {
            return Err(FfiError::NullPointer);
        }
        match &self.slots[h.addr - 1] {
            Some(value) => Ok(value),
            None => Err(FfiError::NullPointer),
        }
    }

    /// The argument-decoding rule for an optional opaque reference:
    /// null means "absent" rather than an error.
    pub fn native_handle_cast_optional(&self, h: RawHandle) -> (r: Result<Option<&T>, FfiError>)
        requires
            h.addr != 0 ==> self.valid(h),
        ensures
            h.addr == 0 ==> (r matches Ok(o) && o is None),
            h.addr != 0 ==> (r matches Ok(o) && o matches Some(value) && *value == self.value_of(
                h,
            )),
    {
        if h.addr == 0 {
            return Ok(None);
        }
        match self.native_handle_cast(h) {
            Ok(value) => Ok(Some(value)),
            Err(e) => Err(e),
        }
    }

    /// Write through an exclusive handle: the counterpart of
    /// reconstituting a mutable reference.  Only the addressed
    /// allocation changes; exclusivity is the caller's promise, as the
    /// layer performs no locking.
    pub fn native_handle_write(&mut self, h: RawHandle, value: T) -> (r: Result<(), FfiError>)
        requires
            h.addr != 0 ==> old(self).valid(h),
        ensures
            h.addr == 0 ==> (r matches Err(e) && e == FfiError::NullPointer && *final (self)
                == *old(self)),
            h.addr != 0 ==> {
                &&& r matches Ok(u)
                &&& final (self).valid(h)
                &&& final (self).value_of(h) == value
                &&& forall|g: RawHandle|
                    g.addr != h.addr ==> (#[trigger] final (self).valid(g) <==> old(self).valid(g))
                &&& forall|g: RawHandle|
                    g.addr != h.addr && old(self).valid(g) ==> #[trigger] final (self).value_of(g)
                        == old(self).value_of(g)
            },
    {
        if h.addr == 0 {
            return Err(FfiError::NullPointer);
        }
        self.slots[h.addr - 1] = Some(value);
        Ok(())
    }

    /// Release the allocation behind a handle.  Null is a safe no-op; a
    /// non-null handle must still be valid - destroying the same handle
    /// twice is the caller's contract breach, excluded here rather than
    /// guarded at run time.
    pub fn destroy(&mut self, h: RawHandle)
        requires
            h.addr != 0 ==> old(self).valid(h),
        ensures
            destroy_post(*old(self), *final (self), h),
    {
        if h.addr != 0 {
            self.slots[h.addr - 1] = None;
        }
    }

    /// Box a native result through a caller-supplied output slot: a null
    /// slot fails with `NullPointer` before anything is allocated or
    /// written, and a domain error passes through untouched.
    pub fn box_object_to(
        &mut self,
        out: &mut OutParam<RawHandle>,
        value: Result<T, FfiError>,
    ) -> (r: Result<(), FfiError>)
        requires
            old(self)@.len() < usize::MAX,
        ensures
            match *old(out) {
                OutParam::Null => r matches Err(e) && e == FfiError::NullPointer && *final (out)
                    == *old(out) && *final (self) == *old(self),
                OutParam::Slot(_) => match value {
                    Err(e0) => r matches Err(e) && e == e0 && *final (out) == *old(out)
                        && *final (self) == *old(self),
                    Ok(v) => r matches Ok(u) && *final (out) matches OutParam::Slot(written)
                        && written matches Some(h) && box_post(*old(self), *final (self), v, h),
                },
            },
    {
        let is_null = match &*out {
            OutParam::Null => true,
            _ => false,
        };
        if is_null {
            return Err(FfiError::NullPointer);
        }
        match value {
            Ok(v) => {
                let h = self.box_object(v);
                *out = OutParam::Slot(Some(h));
                Ok(())
            },
            Err(e) => Err(e),
        }
    }
}

impl<T: BridgeClone> HandleArena<T> {
    /// Duplicate the object behind a handle: reconstitute the reference,
    /// deep-copy it, box the copy.  The new handle is an independent
    /// allocation at a different address; the original stays valid and
    /// untouched.
    pub fn clone_object(&mut self, h: RawHandle) -> (r: Result<RawHandle, FfiError>)
        requires
            h.addr != 0 ==> old(self).valid(h),
            old(self)@.len() < usize::MAX,
        ensures
            h.addr == 0 ==> (r matches Err(e) && e == FfiError::NullPointer && *final (self)
                == *old(self)),
            h.addr != 0 ==> (r matches Ok(h2) && h2.addr != h.addr && box_post(
                *old(self),
                *final (self),
                old(self).value_of(h),
                h2,
            )),
    {
        let copy = match self.native_handle_cast(h) {
            Ok(value) => value.bridge_clone(),
            Err(e) => {
                return Err(e);
            },
        };
        Ok(self.box_object(copy))
    }

    /// The generated per-type clone entry point: cast the source handle,
    /// duplicate it, and deliver the new handle through the
    /// caller-supplied output slot.
    pub fn clone_entry(&mut self, new_obj: &mut OutParam<RawHandle>, obj: RawHandle) -> (r: Result<
        (),
        FfiError,
    >)
        requires
            obj.addr != 0 ==> old(self).valid(obj),
            old(self)@.len() < usize::MAX,
        ensures
            obj.addr == 0 ==> (r matches Err(e) && e == FfiError::NullPointer && *final (self)
                == *old(self) && *final (new_obj) == *old(new_obj)),
            obj.addr != 0 ==> match *old(new_obj) {
                OutParam::Null => r matches Err(e) && e == FfiError::NullPointer && *final (self)
                    == *old(self) && *final (new_obj) == *old(new_obj),
                OutParam::Slot(_) => r matches Ok(u) && *final (new_obj) matches OutParam::Slot(
                    written,
                ) && written matches Some(h2) && h2.addr != obj.addr && box_post(
                    *old(self),
                    *final (self),
                    old(self).value_of(obj),
                    h2,
                ),
            },
    {
        let copy = match self.native_handle_cast(obj) {
            Ok(value) => value.bridge_clone(),
            Err(e) => {
                return Err(e);
            },
        };
        self.box_object_to(new_obj, Ok(copy))
    }
}

/// Destroying a null handle changes nothing at all.
pub proof fn lemma_destroy_null_is_noop<T>(pre: HandleArena<T>, post: HandleArena<T>, h: RawHandle)
    requires
        destroy_post(pre, post, h),
        h.addr == 0,
    ensures
        post == pre,
{
}

/// A duplicate is an independent allocation: destroying the original
/// leaves the new handle valid, with the duplicated value intact.
pub proof fn lemma_clone_survives_destroy_of_original<T>(
    pre: HandleArena<T>,
    mid: HandleArena<T>,
    post: HandleArena<T>,
    h: RawHandle,
    h2: RawHandle,
)
    requires
        pre.valid(h),
        box_post(pre, mid, pre.value_of(h), h2),
        destroy_post(mid, post, h),
    ensures
        h2.addr != h.addr,
        post.valid(h2),
        post.value_of(h2) == pre.value_of(h),
{
}

/// And symmetrically: destroying the duplicate leaves the original
/// valid, with its value intact.
pub proof fn lemma_original_survives_destroy_of_clone<T>(
    pre: HandleArena<T>,
    mid: HandleArena<T>,
    post: HandleArena<T>,
    h: RawHandle,
    h2: RawHandle,
)
    requires
        pre.valid(h),
        box_post(pre, mid, pre.value_of(h), h2),
        destroy_post(mid, post, h2),
    ensures
        post.valid(h),
        post.value_of(h) == pre.value_of(h),
{
}

/// Destroying a boxed object exactly once returns the arena to the live
/// set it had before the allocation: no leak, and nothing else touched.
pub proof fn lemma_box_then_destroy_restores<T>(
    pre: HandleArena<T>,
    mid: HandleArena<T>,
    post: HandleArena<T>,
    value: T,
    h: RawHandle,
)
    requires
        box_post(pre, mid, value, h),
        destroy_post(mid, post, h),
    ensures
        forall|g: RawHandle| #[trigger] post.valid(g) <==> pre.valid(g),
        forall|g: RawHandle| pre.valid(g) ==> #[trigger] post.value_of(g) == pre.value_of(g),
{
}

} // verus!
