//! The synthesis engine's result handling and buffer lifecycle.
//!
//! The native synthesis entry point returns a raw buffer address and writes a
//! length slot; a null address means the slot carries an error code instead.
//! That decision, and the exactly-once release discipline of the produced
//! audio buffer, are stated here over plain data. The unverified shell makes
//! the native call and hands the outcome (null or not, and the slot's value)
//! to [`AqWAV::from_synthe`], then mirrors every state transition of its real
//! buffer handle on this model.

use vstd::prelude::*;

use crate::binding::Binding;
use crate::binding::binding_wf;
use crate::binding::spec_release;
use crate::binding::spec_retain;
use crate::errors::AqErr;
use crate::errors::BindingError;

verus! {

/// The state of one audio buffer produced by the synthesis engine: its
/// length in bytes, whether it has been handed back to the native free
/// routine, and how often that routine ran on it.
#[derive(Clone, Copy, PartialEq, Eq, Structural, Debug)]
pub struct AqWAV {
    pub len: usize,
    pub released: bool,
    pub free_calls: u64,
}

/// The buffer invariant: the buffer is non-empty, and the native free
/// routine has run exactly once if it was released and never before.
pub open spec fn wav_wf(w: AqWAV) -> bool {
    &&& w.len >= 1
    &&& w.free_calls == if w.released { 1int } else { 0int }
}

/// The state after the buffer is handed to the native free routine.
pub open spec fn spec_free(w: AqWAV) -> AqWAV {
    AqWAV { released: true, free_calls: (w.free_calls + 1) as u64, ..w }
}

impl AqWAV {
    /// Interpret the outcome of one native synthesis call.
    ///
    /// A null buffer address means the length slot carries an error code:
    /// the code is translated into the synthesis domain and no buffer is
    /// produced. A non-null address with a positive length yields a buffer
    /// that holds one more reference to the shared binding. A non-null
    /// address with a non-positive length breaks the native interface's own
    /// convention; no buffer is wrapped around it and the slot's value is
    /// surfaced as a synthesis failure.
    pub fn from_synthe(binding: &mut Binding, wav_is_null: bool, size: i32) -> (r: Result<
        AqWAV,
        BindingError,
    >)
        requires
            binding_wf(*old(binding)),
            !old(binding).unloaded,
            old(binding).holders < u64::MAX,
        ensures
            binding_wf(*final(binding)),
            !final(binding).unloaded,
            wav_is_null ==> r == Err::<AqWAV, BindingError>(BindingError::Synthesis(AqErr(size)))
                && *final(binding) == *old(binding),
            !wav_is_null && size >= 1 ==> (r matches Ok(w) && {
                &&& w.len == size
                &&& !w.released
                &&& w.free_calls == 0
                &&& wav_wf(w)
            }) && *final(binding) == spec_retain(*old(binding)),
            !wav_is_null && size < 1 ==> r == Err::<AqWAV, BindingError>(
                BindingError::Synthesis(AqErr(size)),
            ) && *final(binding) == *old(binding),
    {
        if wav_is_null {
            Err(BindingError::Synthesis(AqErr(size)))
        } else if size >= 1 {
            binding.retain();
            Ok(AqWAV { len: size as usize, released: false, free_calls: 0 })
        } else {
            Err(BindingError::Synthesis(AqErr(size)))
        }
    }

    /// Release the buffer: the native free routine runs on it now, exactly
    /// once, and the buffer's reference on the shared binding is given up.
    /// Returns whether the library image is to be unmapped now (true exactly
    /// when this buffer was the binding's last holder).
    pub fn release(&mut self, binding: &mut Binding) -> (unload_now: bool)
        requires
            wav_wf(*old(self)),
            !old(self).released,
            binding_wf(*old(binding)),
            !old(binding).unloaded,
        ensures
            *final(self) == spec_free(*old(self)),
            final(self).released,
            final(self).free_calls == 1,
            final(self).len == old(self).len,
            *final(binding) == spec_release(*old(binding)),
            binding_wf(*final(binding)),
            unload_now <==> old(binding).holders == 1,
    {
        self.released = true;
        self.free_calls = self.free_calls + 1;
        binding.release()
    }
}

/// A successful synthesis call yields a non-empty buffer, and releasing that
/// buffer invokes the native free routine exactly once.
pub proof fn lemma_synthe_success_freed_once(w: AqWAV)
    requires
        wav_wf(w),
        !w.released,
    ensures
        w.len >= 1,
        spec_free(w).released,
        spec_free(w).free_calls == 1,
{
}

/// Releasing a live buffer frees its native memory exactly once even while
/// the shared binding has other outstanding holders, and in that case the
/// library stays mapped.
pub proof fn lemma_release_with_other_holders(w: AqWAV, b: Binding)
    requires
        wav_wf(w),
        !w.released,
        binding_wf(b),
        b.holders >= 2,
    ensures
        spec_free(w).free_calls == 1,
        !spec_release(b).unloaded,
        spec_release(b).unload_calls == 0,
{
}

} // verus!
