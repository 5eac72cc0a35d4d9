//! A simple mark-and-sweep arena: objects live in slots addressed by
//! handles, and a subset of the handles are roots.

use vstd::prelude::*;

verus! {

/// What the collector asks of the objects it manages.
pub trait GarbageCollected {
    fn mark(&mut self);

    fn unmark(&mut self);

    fn marked(&self) -> bool;
}

/// The handle of an object in the arena: its slot's index.
pub type GcHandle = usize;

/// The arena: a slot per object, and the handles of the roots.
pub struct Gc<T> where T: GarbageCollected {
    roots: Vec<GcHandle>,
    data: Vec<Option<Box<T>>>,
}

impl<T> Gc<T> where T: GarbageCollected {
    /// The number of slots handed out.
    pub closed spec fn spec_size(&self) -> nat {
        self.data@.len()
    }

    /// The handles registered as roots, in order of registration.
    pub closed spec fn spec_roots(&self) -> Seq<GcHandle> {
        self.roots@
    }

    /// Whether the slot of a handle is occupied.
    pub closed spec fn spec_live(&self, h: GcHandle) -> bool {
        h < self.data@.len() && self.data@[h as int] is Some
    }

    pub fn new() -> (r: Gc<T>)
        ensures
            r.spec_size() == 0,
            r.spec_roots() == Seq::<GcHandle>::empty(),
    {
        Gc { roots: Vec::new(), data: Vec::new() }
    }

    /// Adds an object to the heap and returns its handle: the next free
    /// slot, so handles are handed out in order.
    pub fn add(&mut self, obj: T) -> (h: GcHandle)
        ensures
            h == old(self).spec_size(),
            final(self).spec_size() == old(self).spec_size() + 1,
            final(self).spec_roots() == old(self).spec_roots(),
            final(self).spec_live(h),
            forall|k: GcHandle| old(self).spec_live(k) ==> final(self).spec_live(k),
    {
        self.data.push(Some(Box::new(obj)));
        self.data.len() - 1
    }

    /// Adds an object and registers its handle as a root.
    pub fn add_root(&mut self, obj: T) -> (h: GcHandle)
        ensures
            h == old(self).spec_size(),
            final(self).spec_size() == old(self).spec_size() + 1,
            final(self).spec_roots() == old(self).spec_roots().push(h),
            final(self).spec_live(h),
            forall|k: GcHandle| old(self).spec_live(k) ==> final(self).spec_live(k),
    {
        let handle = self.add(obj);
        self.roots.push(handle);
        handle
    }
}

} // verus!
