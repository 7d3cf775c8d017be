//! Marshalling of text between this layer and the native calls.
//!
//! A native entry point takes text as a null-terminated byte string, so a
//! text argument is representable exactly when it holds no embedded null
//! byte; the check happens here, before any native call can be made with the
//! marshalled value. In the other direction a native call hands text back as
//! a null-terminated buffer that must be valid UTF-8 to count as a
//! character string: the first-null bookkeeping and a UTF-8 validator,
//! proved against `vstd::utf8::valid_utf8`, live here too, along with the
//! capacity rule for the conversion engine's process-allocated output
//! buffer.

use vstd::prelude::*;
use vstd::utf8::decode_first_codepoint;
use vstd::utf8::length_of_first_codepoint;
use vstd::utf8::length_of_first_scalar;
use vstd::utf8::not_overlong_encoding;
use vstd::utf8::not_surrogate;
use vstd::utf8::partial_valid_partial_invalid_utf8;
use vstd::utf8::partial_valid_utf8;
use vstd::utf8::partial_valid_utf8_extend;
use vstd::utf8::valid_first_scalar;
use vstd::utf8::valid_leading_and_continuation_bytes_first_codepoint;
use vstd::utf8::valid_utf8;

use crate::errors::BindingError;

verus! {

/// Whether the byte string holds an embedded null byte.
pub open spec fn has_interior_null(s: Seq<u8>) -> bool {
    exists|i: int| 0 <= i < s.len() && s[i] == 0
}

/// Marshal `text` into a null-terminated native byte string.
///
/// Fails with `EncodingError` exactly when `text` holds an embedded null
/// byte; otherwise the result is `text` with a single null byte appended.
pub fn encode_z(text: &Vec<u8>) -> (r: Result<Vec<u8>, BindingError>)
    ensures
        has_interior_null(text@) ==> r == Err::<Vec<u8>, BindingError>(BindingError::EncodingError),
        !has_interior_null(text@) ==> (r matches Ok(v) && v@ == text@.push(0u8)),
{
    let mut out: Vec<u8> = Vec::new();
    let mut i: usize = 0;
    while i < text.len()
        invariant
            i <= text@.len(),
            out@ == text@.take(i as int),
            forall|j: int| 0 <= j < i ==> text@[j] != 0,
        decreases text@.len() - i,
    {
        let b = text[i];
        if b == 0 {
            assert(has_interior_null(text@));
            return Err(BindingError::EncodingError);
        }
        out.push(b);
        i = i + 1;
    }
    assert(out@ =~= text@);
    out.push(0);
    Ok(out)
}

/// The index of the first null byte in `s`, counted from the front.
pub open spec fn first_null(s: Seq<u8>) -> int
    decreases s.len(),
{
    if s.len() == 0 {
        0
    } else if s[0] == 0 {
        0
    } else {
        1 + first_null(s.skip(1))
    }
}

/// The text a null-terminated buffer carries: its bytes before the first
/// null.
pub open spec fn text_before_null(s: Seq<u8>) -> Seq<u8>
    recommends
        has_interior_null(s),
{
    s.take(first_null(s))
}

/// A position that holds a null byte with none before it is the first null.
pub proof fn lemma_first_null(s: Seq<u8>, w: int)
    requires
        0 <= w < s.len(),
        s[w] == 0,
        forall|j: int| 0 <= j < w ==> s[j] != 0,
    ensures
        first_null(s) == w,
    decreases s.len(),
{
    if s[0] == 0 {
        assert(w == 0);
    } else {
        let t = s.skip(1);
        assert(forall|j: int| 0 <= j < t.len() ==> t[j] == s[j + 1]);
        assert(t[w - 1] == 0);
        lemma_first_null(t, w - 1);
    }
}

/// A suffix that does not begin with a well-formed scalar makes the whole
/// sequence invalid, whatever valid prefix came before it.
proof fn lemma_invalid_scalar_at(bytes: Seq<u8>, i: int)
    requires
        0 <= i < bytes.len(),
        partial_valid_utf8(bytes, i),
        !valid_first_scalar(bytes.subrange(i, bytes.len() as int)),
    ensures
        !valid_utf8(bytes),
{
    let s = bytes.subrange(i, bytes.len() as int);
    assert(s.len() == bytes.len() - i);
    assert(!valid_utf8(s));
    partial_valid_partial_invalid_utf8(bytes, i);
}

/// Check whether the bytes form a valid UTF-8 encoding, in the sense of
/// `vstd::utf8::valid_utf8`.
pub fn is_valid_utf8(bytes: &Vec<u8>) -> (b: bool)
    ensures
        b <==> valid_utf8(bytes@),
{
    let n = bytes.len();
    let mut i: usize = 0;
    while i < n
        invariant
            n == bytes@.len(),
            i <= n,
            partial_valid_utf8(bytes@, i as int),
        decreases n - i,
    {
        let ghost s = bytes@.subrange(i as int, n as int);
        proof {
            assert(s.len() == n - i);
            assert(forall|k: int| 0 <= k < s.len() ==> s[k] == bytes@[i + k]);
        }
        let b0 = bytes[i];
        let rem = n - i;
        if b0 <= 0x7f {
            proof {
                assert(((b0 & 0x7f) as u32) <= 0x7f) by (bit_vector);
                assert(valid_first_scalar(s));
                assert(length_of_first_scalar(s) == 1);
                partial_valid_utf8_extend(bytes@, i as int);
            }
            i = i + 1;
        } else if b0 < 0xc2 {
            // A continuation byte cannot lead, and 0xc0/0xc1 only begin
            // overlong two-byte encodings.
            proof {
                if valid_leading_and_continuation_bytes_first_codepoint(s) {
                    assert(0xc0 <= b0 <= 0xc1);
                    let b1 = s[1];
                    assert(((((b0 & 0x1f) as u32) << 6) | ((b1 & 0x3f) as u32)) < 0x80)
                        by (bit_vector)
                        requires
                            0xc0 <= b0 <= 0xc1,
                    ;
                    assert(!not_overlong_encoding(
                        decode_first_codepoint(s),
                        length_of_first_codepoint(s),
                    ));
                }
                assert(!valid_first_scalar(s));
                lemma_invalid_scalar_at(bytes@, i as int);
            }
            return false;
        } else if b0 <= 0xdf {
            if rem < 2 {
                proof {
                    assert(!valid_first_scalar(s));
                    lemma_invalid_scalar_at(bytes@, i as int);
                }
                return false;
            }
            let b1 = bytes[i + 1];
            if b1 < 0x80 || 0xbf < b1 {
                proof {
                    assert(!valid_first_scalar(s));
                    lemma_invalid_scalar_at(bytes@, i as int);
                }
                return false;
            }
            proof {
                assert(0x80 <= ((((b0 & 0x1f) as u32) << 6) | ((b1 & 0x3f) as u32))
                    < 0xd800) by (bit_vector)
                    requires
                        0xc2 <= b0 <= 0xdf && 0x80 <= b1 <= 0xbf,
                ;
                assert(valid_first_scalar(s));
                assert(length_of_first_scalar(s) == 2);
                partial_valid_utf8_extend(bytes@, i as int);
            }
            i = i + 2;
        } else if b0 <= 0xef {
            if rem < 3 {
                proof {
                    assert(!valid_first_scalar(s));
                    lemma_invalid_scalar_at(bytes@, i as int);
                }
                return false;
            }
            let b1 = bytes[i + 1];
            let b2 = bytes[i + 2];
            if b1 < 0x80 || 0xbf < b1 || b2 < 0x80 || 0xbf < b2 {
                proof {
                    assert(!valid_first_scalar(s));
                    lemma_invalid_scalar_at(bytes@, i as int);
                }
                return false;
            }
            if b0 == 0xe0 && b1 < 0xa0 {
                // An overlong three-byte encoding.
                proof {
                    assert(((((b0 & 0x0f) as u32) << 12) | (((b1 & 0x3f) as u32) << 6) | ((b2
                        & 0x3f) as u32)) < 0x800) by (bit_vector)
                        requires
                            b0 == 0xe0 && 0x80 <= b1 <= 0x9f,
                    ;
                    assert(!not_overlong_encoding(
                        decode_first_codepoint(s),
                        length_of_first_codepoint(s),
                    ));
                    assert(!valid_first_scalar(s));
                    lemma_invalid_scalar_at(bytes@, i as int);
                }
                return false;
            }
            if b0 == 0xed && 0x9f < b1 {
                // A surrogate codepoint.
                proof {
                    assert(0xd800 <= ((((b0 & 0x0f) as u32) << 12) | (((b1 & 0x3f) as u32) << 6)
                        | ((b2 & 0x3f) as u32)) <= 0xdfff) by (bit_vector)
                        requires
                            b0 == 0xed && 0xa0 <= b1 <= 0xbf,
                    ;
                    assert(!not_surrogate(decode_first_codepoint(s)));
                    assert(!valid_first_scalar(s));
                    lemma_invalid_scalar_at(bytes@, i as int);
                }
                return false;
            }
            proof {
                assert(0x800 <= ((((b0 & 0x0f) as u32) << 12) | (((b1 & 0x3f) as u32) << 6) | ((
                b2 & 0x3f) as u32)) && !(0xd800 <= ((((b0 & 0x0f) as u32) << 12) | (((b1
                    & 0x3f) as u32) << 6) | ((b2 & 0x3f) as u32)) <= 0xdfff)) by (bit_vector)
                    requires
                        0xe0 <= b0 <= 0xef && 0x80 <= b1 <= 0xbf && 0x80 <= b2 <= 0xbf && (b0
                            == 0xe0 ==> 0xa0 <= b1) && (b0 == 0xed ==> b1 <= 0x9f),
                ;
                assert(valid_first_scalar(s));
                assert(length_of_first_scalar(s) == 3);
                partial_valid_utf8_extend(bytes@, i as int);
            }
            i = i + 3;
        } else if b0 <= 0xf4 {
            if rem < 4 {
                proof {
                    assert(!valid_first_scalar(s));
                    lemma_invalid_scalar_at(bytes@, i as int);
                }
                return false;
            }
            let b1 = bytes[i + 1];
            let b2 = bytes[i + 2];
            let b3 = bytes[i + 3];
            if b1 < 0x80 || 0xbf < b1 || b2 < 0x80 || 0xbf < b2 || b3 < 0x80 || 0xbf < b3 {
                proof {
                    assert(!valid_first_scalar(s));
                    lemma_invalid_scalar_at(bytes@, i as int);
                }
                return false;
            }
            if (b0 == 0xf0 && b1 < 0x90) || (b0 == 0xf4 && 0x8f < b1) {
                // Overlong, or beyond the last Unicode codepoint.
                proof {
                    assert(!(0x10000 <= ((((b0 & 0x07) as u32) << 18) | (((b1
                        & 0x3f) as u32) << 12) | (((b2 & 0x3f) as u32) << 6) | ((b3
                        & 0x3f) as u32)) <= 0x10ffff)) by (bit_vector)
                        requires
                            0xf0 <= b0 <= 0xf4 && 0x80 <= b1 <= 0xbf && ((b0 == 0xf0 && b1 < 0x90)
                                || (b0 == 0xf4 && 0x8f < b1)),
                    ;
                    assert(!not_overlong_encoding(
                        decode_first_codepoint(s),
                        length_of_first_codepoint(s),
                    ));
                    assert(!valid_first_scalar(s));
                    lemma_invalid_scalar_at(bytes@, i as int);
                }
                return false;
            }
            proof {
                assert(0x10000 <= ((((b0 & 0x07) as u32) << 18) | (((b1 & 0x3f) as u32) << 12) | (((
                b2 & 0x3f) as u32) << 6) | ((b3 & 0x3f) as u32)) <= 0x10ffff) by (bit_vector)
                    requires
                        0xf0 <= b0 <= 0xf4 && 0x80 <= b1 <= 0xbf && (b0 == 0xf0 ==> 0x90 <= b1) && (
                        b0 == 0xf4 ==> b1 <= 0x8f),
                ;
                assert(valid_first_scalar(s));
                assert(length_of_first_scalar(s) == 4);
                partial_valid_utf8_extend(bytes@, i as int);
            }
            i = i + 4;
        } else {
            // 0xf5 through 0xf7 lead only past the last Unicode codepoint;
            // 0xf8 and above lead nothing.
            proof {
                if valid_leading_and_continuation_bytes_first_codepoint(s) {
                    assert(0xf5 <= b0 <= 0xf7);
                    let b1 = s[1];
                    let b2 = s[2];
                    let b3 = s[3];
                    assert(((((b0 & 0x07) as u32) << 18) | (((b1 & 0x3f) as u32) << 12) | (((b2
                        & 0x3f) as u32) << 6) | ((b3 & 0x3f) as u32)) > 0x10ffff) by (bit_vector)
                        requires
                            0xf5 <= b0 <= 0xf7,
                    ;
                    assert(!not_overlong_encoding(
                        decode_first_codepoint(s),
                        length_of_first_codepoint(s),
                    ));
                }
                assert(!valid_first_scalar(s));
                lemma_invalid_scalar_at(bytes@, i as int);
            }
            return false;
        }
    }
    proof {
        assert(bytes@.subrange(0, n as int) =~= bytes@);
    }
    true
}

/// The capacity rule for the conversion engine's output buffer: the
/// requested size if one is given, else twice the input length plus one,
/// with an enforced minimum of 256 bytes.
pub open spec fn spec_convert_capacity(text_len: int, buffersize: Option<usize>) -> int {
    let base = match buffersize {
        Some(s) => s as int,
        None => 2 * (text_len + 1),
    };
    if base < 256 {
        256
    } else {
        base
    }
}

/// Determine the output-buffer capacity for a conversion call.
pub fn convert_capacity(text_len: usize, buffersize: Option<usize>) -> (cap: usize)
    requires
        buffersize is None ==> text_len <= (usize::MAX - 2) / 2,
    ensures
        cap == spec_convert_capacity(text_len as int, buffersize),
        cap >= 256,
        buffersize matches Some(s) ==> cap >= s,
        buffersize is None ==> cap >= 2 * (text_len + 1),
{
    let mut size: usize = match buffersize {
        Some(s) => s,
        None => (text_len + 1) * 2,
    };
    if size < 256 {
        size = 256;
    }
    size
}

/// Whether a buffer capacity is representable in the native call's
/// signed 32-bit capacity argument.
pub fn capacity_fits_native(cap: usize) -> (b: bool)
    ensures
        b <==> cap <= i32::MAX,
{
    cap <= i32::MAX as usize
}

/// Narrow a capacity to the native call's signed 32-bit argument.
pub fn capacity_as_native(cap: usize) -> (r: i32)
    requires
        cap <= i32::MAX,
    ensures
        r == cap,
{
    cap as i32
}

} // verus!
