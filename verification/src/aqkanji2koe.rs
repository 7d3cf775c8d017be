//! The conversion engine's instance lifecycle and result handling.
//!
//! The native kanji-to-phonetic engine hands out an opaque instance handle;
//! every conversion writes into a buffer this layer allocates from the
//! process allocator, and the handle must be released through the native
//! release routine exactly once. Those decisions are stated here over plain
//! data; the unverified shell makes the native calls and mirrors every state
//! transition of its real handle on this model.

use vstd::prelude::*;

use crate::binding::Binding;
use crate::binding::binding_wf;
use crate::binding::spec_release;
use crate::binding::spec_retain;
use crate::errors::AqK2Kerr;
use crate::errors::BindingError;
use crate::marshal::has_interior_null;
use crate::marshal::is_valid_utf8;
use crate::marshal::lemma_first_null;
use crate::marshal::text_before_null;
use vstd::utf8::valid_utf8;

verus! {

/// The state of one conversion-engine instance: whether its native handle
/// has been handed to the native release routine, and how often that
/// routine ran on it.
#[derive(Clone, Copy, PartialEq, Eq, Structural, Debug)]
pub struct AqK2Kinstance {
    pub released: bool,
    pub release_calls: u64,
}

/// The instance invariant: the native release routine has run exactly once
/// if the instance was released and never before.
pub open spec fn instance_wf(ins: AqK2Kinstance) -> bool {
    ins.release_calls == if ins.released { 1int } else { 0int }
}

/// The state after the instance handle is handed to the native release routine.
pub open spec fn spec_release_instance(ins: AqK2Kinstance) -> AqK2Kinstance {
    AqK2Kinstance { released: true, release_calls: (ins.release_calls + 1) as u64 }
}

/// The converted text produced by one successful conversion call: the UTF-8
/// bytes of the null-terminated result, without the terminator. The backing
/// storage belongs to the process allocator and is returned to it when the
/// value is dropped — never to the native library's free routine, which did
/// not allocate it.
#[derive(Debug)]
pub struct AqK2Kstr {
    pub content: Vec<u8>,
}

/// The converted-text invariant: the stored bytes are the part before the
/// terminator, so none of them is null, and they form valid UTF-8 — a
/// result that is not is never wrapped.
pub open spec fn str_wf(s: AqK2Kstr) -> bool {
    &&& !has_interior_null(s.content@)
    &&& valid_utf8(s.content@)
}

impl AqK2Kstr {
    /// The converted text's bytes, without the terminator.
    pub fn as_bytes(&self) -> (r: &Vec<u8>)
        ensures
            r@ == self.content@,
    {
        &self.content
    }

    /// The converted text's length in bytes.
    pub fn len(&self) -> (n: usize)
        ensures
            n == self.content@.len(),
    {
        self.content.len()
    }

    /// Whether the converted text is empty.
    pub fn is_empty(&self) -> (b: bool)
        ensures
            b <==> self.content@.len() == 0,
    {
        self.content.len() == 0
    }
}

impl AqK2Kinstance {
    /// Interpret the outcome of one native create call (from a dictionary
    /// directory or from caller-owned in-memory dictionary blocks — both
    /// report the same way).
    ///
    /// A null instance handle means failure: the error-code slot is
    /// translated into the conversion domain and no instance is produced.
    /// Otherwise the new instance holds one more reference to the shared
    /// binding.
    pub fn from_create(binding: &mut Binding, instance_is_null: bool, errcode: i32) -> (r: Result<
        AqK2Kinstance,
        BindingError,
    >)
        requires
            binding_wf(*old(binding)),
            !old(binding).unloaded,
            old(binding).holders < u64::MAX,
        ensures
            binding_wf(*final(binding)),
            !final(binding).unloaded,
            instance_is_null ==> r == Err::<AqK2Kinstance, BindingError>(
                BindingError::Conversion(AqK2Kerr(errcode)),
            ) && *final(binding) == *old(binding),
            !instance_is_null ==> (r matches Ok(ins) && {
                &&& !ins.released
                &&& ins.release_calls == 0
                &&& instance_wf(ins)
            }) && *final(binding) == spec_retain(*old(binding)),
    {
        if instance_is_null {
            Err(BindingError::Conversion(AqK2Kerr(errcode)))
        } else {
            binding.retain();
            Ok(AqK2Kinstance { released: false, release_calls: 0 })
        }
    }

    /// Interpret the outcome of one native conversion call on this (still
    /// live) instance, taking ownership of the process-allocated output
    /// buffer the call wrote into.
    ///
    /// A nonzero return code is a failure translated into the conversion
    /// domain; the buffer is consumed and goes back to the process allocator
    /// when this call returns, so the failure path leaks nothing. A zero
    /// return code yields the buffer's content up to its first null byte,
    /// provided those bytes are valid UTF-8; a zero return code with no
    /// terminator anywhere in the buffer, or with a non-UTF-8 result before
    /// the terminator, breaks the native interface's convention and is
    /// reported as an encoding failure — a character string over invalid
    /// UTF-8 is never produced.
    pub fn convert_outcome(&self, errcode: i32, buffer: Vec<u8>) -> (r: Result<
        AqK2Kstr,
        BindingError,
    >)
        requires
            !self.released,
        ensures
            errcode != 0 ==> (r matches Err(e) && e == BindingError::Conversion(AqK2Kerr(errcode))),
            errcode == 0 && has_interior_null(buffer@) && valid_utf8(text_before_null(buffer@))
                ==> (r matches Ok(s) && {
                let c = s.content@;
                &&& c == text_before_null(buffer@)
                &&& c.len() < buffer@.len()
                &&& buffer@[c.len() as int] == 0
                &&& str_wf(s)
            }),
            errcode == 0 && has_interior_null(buffer@) && !valid_utf8(text_before_null(buffer@))
                ==> (r matches Err(e) && e == BindingError::EncodingError),
            errcode == 0 && !has_interior_null(buffer@) ==> (r matches Err(e) && e
                == BindingError::EncodingError),
    {
        if errcode != 0 {
            return Err(BindingError::Conversion(AqK2Kerr(errcode)));
        }
        let mut out: Vec<u8> = Vec::new();
        let mut i: usize = 0;
        while i < buffer.len()
            invariant
                errcode == 0,
                i <= buffer@.len(),
                out@ == buffer@.take(i as int),
                forall|j: int| 0 <= j < i ==> buffer@[j] != 0,
            decreases buffer@.len() - i,
        {
            let b = buffer[i];
            if b == 0 {
                proof {
                    lemma_first_null(buffer@, i as int);
                    assert(forall|j: int| 0 <= j < out@.len() ==> out@[j] == buffer@[j]);
                    assert(!has_interior_null(out@));
                    assert(text_before_null(buffer@) == out@);
                }
                if is_valid_utf8(&out) {
                    return Ok(AqK2Kstr { content: out });
                }
                return Err(BindingError::EncodingError);
            }
            out.push(b);
            i = i + 1;
        }
        Err(BindingError::EncodingError)
    }

    /// Release the instance: the native release routine runs on its handle
    /// now, exactly once, and the instance's reference on the shared binding
    /// is given up. Returns whether the library image is to be unmapped now
    /// (true exactly when this instance was the binding's last holder).
    pub fn release(&mut self, binding: &mut Binding) -> (unload_now: bool)
        requires
            instance_wf(*old(self)),
            !old(self).released,
            binding_wf(*old(binding)),
            !old(binding).unloaded,
        ensures
            *final(self) == spec_release_instance(*old(self)),
            final(self).released,
            final(self).release_calls == 1,
            *final(binding) == spec_release(*old(binding)),
            binding_wf(*final(binding)),
            unload_now <==> old(binding).holders == 1,
    {
        self.released = true;
        self.release_calls = self.release_calls + 1;
        binding.release()
    }
}

/// Releasing a live instance runs the native release routine exactly once
/// even while the shared binding has other outstanding holders, and in that
/// case the library stays mapped.
pub proof fn lemma_instance_release_with_other_holders(ins: AqK2Kinstance, b: Binding)
    requires
        instance_wf(ins),
        !ins.released,
        binding_wf(b),
        b.holders >= 2,
    ensures
        spec_release_instance(ins).release_calls == 1,
        !spec_release(b).unloaded,
        spec_release(b).unload_calls == 0,
{
}

} // verus!
