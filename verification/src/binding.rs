//! The shared-binding lifetime model.
//!
//! A loaded native library together with its resolved entry points is shared
//! by the loader object and by every resource handle derived from it. The
//! library must stay mapped until the last of those holders is gone, and its
//! unmapping must happen exactly once. This module states that discipline
//! over a reference count held as plain data: the unverified shell that owns
//! the real library image drives these transitions alongside its own
//! retain/release operations.

use vstd::prelude::*;

verus! {

/// The state of one shared binding: how many holders (the loader object and
/// every derived resource handle) it still has, whether the library image has
/// been unmapped, and how often the unmap routine ran.
#[derive(Clone, Copy, PartialEq, Eq, Structural, Debug)]
pub struct Binding {
    pub holders: u64,
    pub unloaded: bool,
    pub unload_calls: u64,
}

/// The binding invariant: the library is unmapped exactly when no holder is
/// left, and the unmap routine has run exactly once by then and never before.
pub open spec fn binding_wf(b: Binding) -> bool {
    &&& (b.unloaded <==> b.holders == 0)
    &&& b.unload_calls == if b.unloaded { 1int } else { 0int }
}

/// The state after one more holder appears.
pub open spec fn spec_retain(b: Binding) -> Binding {
    Binding { holders: (b.holders + 1) as u64, ..b }
}

/// The state after one holder disappears: the count drops by one, and the
/// library is unmapped exactly when that holder was the last.
pub open spec fn spec_release(b: Binding) -> Binding {
    Binding {
        holders: (b.holders - 1) as u64,
        unloaded: b.holders == 1,
        unload_calls: if b.holders == 1 { 1u64 } else { b.unload_calls },
    }
}

impl Binding {
    /// A binding fresh from a successful load, held only by the loader object.
    pub fn new() -> (b: Binding)
        ensures
            binding_wf(b),
            b.holders == 1,
            !b.unloaded,
            b.unload_calls == 0,
    {
        Binding { holders: 1, unloaded: false, unload_calls: 0 }
    }

    /// Record one more holder (a resource handle cloning the binding).
    pub fn retain(&mut self)
        requires
            binding_wf(*old(self)),
            !old(self).unloaded,
            old(self).holders < u64::MAX,
        ensures
            *final(self) == spec_retain(*old(self)),
            binding_wf(*final(self)),
            !final(self).unloaded,
    {
        self.holders = self.holders + 1;
    }

    /// Record that one holder is gone. Returns whether the library image is
    /// to be unmapped now: true exactly when the departing holder was the
    /// last one, so the unmap routine runs exactly once over the binding's
    /// whole life.
    pub fn release(&mut self) -> (unload_now: bool)
        requires
            binding_wf(*old(self)),
            !old(self).unloaded,
        ensures
            *final(self) == spec_release(*old(self)),
            binding_wf(*final(self)),
            final(self).holders == old(self).holders - 1,
            unload_now <==> old(self).holders == 1,
            final(self).unloaded <==> old(self).holders == 1,
            final(self).unload_calls == if unload_now { 1int } else { 0int },
    {
        self.holders = self.holders - 1;
        if self.holders == 0 {
            self.unloaded = true;
            self.unload_calls = self.unload_calls + 1;
            true
        } else {
            false
        }
    }
}

/// Dropping a holder that is not the last — for instance the original loader
/// object while a derived buffer is still alive — leaves the library mapped.
pub proof fn lemma_nonlast_release_keeps_loaded(b: Binding)
    requires
        binding_wf(b),
        b.holders >= 2,
    ensures
        !spec_release(b).unloaded,
        spec_release(b).unload_calls == 0,
        binding_wf(spec_release(b)),
{
}

/// Dropping the last holder unmaps the library, and the unmap routine has
/// then run exactly once.
pub proof fn lemma_last_release_unloads_once(b: Binding)
    requires
        binding_wf(b),
        b.holders == 1,
    ensures
        spec_release(b).unloaded,
        spec_release(b).unload_calls == 1,
        binding_wf(spec_release(b)),
{
}

} // verus!
