//! The Validator: locating the terminator of a nul-terminated byte range and
//! checking UTF-8 well-formedness, with full functional contracts.

use vstd::prelude::*;
use vstd::slice::slice_index_get;
use vstd::slice::slice_subrange;
use vstd::utf8::codepoint_width_2;
use vstd::utf8::codepoint_width_3;
use vstd::utf8::codepoint_width_4;
use vstd::utf8::is_continuation_byte;
use vstd::utf8::length_of_first_scalar;
use vstd::utf8::partial_valid_partial_invalid_utf8;
use vstd::utf8::partial_valid_utf8;
use vstd::utf8::partial_valid_utf8_extend;
use vstd::utf8::valid_first_scalar;
use vstd::utf8::valid_utf8;

use crate::buffer::BoundaryError;
use crate::buffer::ByteHandle;

verus! {

/// Index of the first nul byte in `s`, or `s.len()` when `s` holds none.
pub open spec fn nul_index(s: Seq<u8>) -> int
    decreases s.len(),
{
    if s.len() == 0 {
        0
    } else if s[0] == 0u8 {
        0
    } else {
        1 + nul_index(s.drop_first())
    }
}

/// The bytes of `s` before its first nul: what a terminator scan yields.
pub open spec fn nul_content(s: Seq<u8>) -> Seq<u8> {
    s.take(nul_index(s))
}

/// The first nul of `s` lies within `s`, nothing before it is nul, and when
/// no nul occurs at all the index equals the length.
pub proof fn lemma_nul_index(s: Seq<u8>)
    ensures
        0 <= nul_index(s) <= s.len(),
        nul_index(s) < s.len() ==> s[nul_index(s)] == 0u8,
        forall|j: int| 0 <= j < nul_index(s) ==> s[j] != 0u8,
        s.contains(0u8) ==> nul_index(s) < s.len(),
    decreases s.len(),
{
    if s.len() == 0 {
    } else if s[0] == 0u8 {
    } else {
        let t = s.drop_first();
        lemma_nul_index(t);
        assert forall|j: int| 0 <= j < nul_index(s) implies s[j] != 0u8 by {
            if j > 0 {
                assert(t[j - 1] == s[j]);
            }
        }
        if s.contains(0u8) {
            let i = choose|i: int| 0 <= i < s.len() && s[i] == 0u8;
            assert(t[i - 1] == 0u8);
            assert(t.contains(0u8));
        }
    }
}

/// A position holding a nul with none before it is the first nul.
pub proof fn lemma_nul_index_of_first(s: Seq<u8>, i: int)
    requires
        0 <= i < s.len(),
        s[i] == 0u8,
        forall|j: int| 0 <= j < i ==> s[j] != 0u8,
    ensures
        nul_index(s) == i,
{
    lemma_nul_index(s);
    if nul_index(s) < i {
        assert(s[nul_index(s)] == 0u8);
    }
}

/// The content read up to the first nul never itself holds a nul.
pub proof fn lemma_nul_content_has_no_nul(s: Seq<u8>)
    ensures
        !nul_content(s).contains(0u8),
{
    lemma_nul_index(s);
    assert forall|j: int| 0 <= j < nul_content(s).len() implies nul_content(s)[j] != 0u8 by {
        assert(nul_content(s)[j] == s[j]);
    }
}

/// Scans `bytes` once for its first nul; `None` when it holds no nul.
pub fn find_nul(bytes: &[u8]) -> (r: Option<usize>)
    ensures
        match r {
            Some(i) => i == nul_index(bytes@) && i < bytes@.len(),
            None => !bytes@.contains(0u8) && nul_index(bytes@) == bytes@.len(),
        },
{
    let n: usize = bytes.len();
    let mut i: usize = 0;
    while i < n
        invariant
            0 <= i <= n,
            n == bytes@.len(),
            forall|j: int| 0 <= j < i ==> bytes@[j] != 0u8,
        decreases n - i,
    {
        if *slice_index_get(bytes, i) == 0u8 {
            proof {
                lemma_nul_index_of_first(bytes@, i as int);
            }
            return Some(i);
        }
        i = i + 1;
    }
    proof {
        lemma_nul_index(bytes@);
        if bytes@.contains(0u8) {
            let k = choose|k: int| 0 <= k < bytes@.len() && bytes@[k] == 0u8;
            assert(bytes@[k] != 0u8);
        }
    }
    None
}

/// The Validator: rejects a null handle, then makes two passes over the
/// readable bytes — one to find the terminator, one to check that the
/// text before it is well-formed UTF-8 — and returns a view that aliases
/// the handle's own bytes. It never copies, never allocates, and never
/// returns a view of text it has not fully checked.
pub fn validate(handle: &ByteHandle) -> (r: Result<&[u8], BoundaryError>)
    requires
        handle.wf(),
    ensures
        handle is Null ==> (r matches Err(e) && e == BoundaryError::NullPointer),
        handle is Mem && !valid_utf8(handle.content()) ==> (r matches Err(e) && e
            == BoundaryError::InvalidUtf8),
        handle is Mem && valid_utf8(handle.content()) ==> (r matches Ok(v) && v@
            == handle.content()),
{
    match handle {
        ByteHandle::Null => Err(BoundaryError::NullPointer),
        ByteHandle::Mem { bytes } => {
            let slice = bytes.as_slice();
            let end: usize = match find_nul(slice) {
                Some(i) => i,
                None => slice.len(),
            };
            let view = slice_subrange(slice, 0, end);
            proof {
                assert(view@ =~= handle.content());
            }
            if validate_utf8(view) {
                Ok(view)
            } else {
                Err(BoundaryError::InvalidUtf8)
            }
        },
    }
}

/// A byte below 0x80 opens a well-formed one-byte scalar.
proof fn lemma_scalar_width_1(s: Seq<u8>)
    requires
        s.len() >= 1,
        s[0] < 0x80,
    ensures
        valid_first_scalar(s),
        length_of_first_scalar(s) == 1,
{
    let b0 = s[0];
    assert(b0 < 0x80 ==> (b0 & 0x7f) == b0) by (bit_vector);
}

/// A continuation byte, or a byte above 0xf7, cannot open any scalar.
proof fn lemma_scalar_unclassified(s: Seq<u8>)
    requires
        s.len() >= 1,
        0x80 <= s[0] <= 0xbf || 0xf8 <= s[0],
    ensures
        !valid_first_scalar(s),
{
}

/// Leading bytes 0xc0 and 0xc1 can only open an overlong two-byte encoding.
proof fn lemma_scalar_overlong_2(s: Seq<u8>)
    requires
        s.len() >= 1,
        0xc0 <= s[0] <= 0xc1,
    ensures
        !valid_first_scalar(s),
{
    if s.len() >= 2 && is_continuation_byte(s[1]) {
        let b0 = s[0];
        let b1 = s[1];
        assert((0xc0 <= b0 && b0 <= 0xc1 && 0x80 <= b1 && b1 <= 0xbf) ==> ((((b0
            & 0x1f) as u32) << 6) | ((b1 & 0x3f) as u32)) < 0x80) by (bit_vector);
        assert(codepoint_width_2(b0, b1) == ((((b0 & 0x1f) as u32) << 6) | ((b1
            & 0x3f) as u32)));
    }
}

/// A leading byte in 0xc2..=0xdf followed by a continuation byte opens a
/// well-formed two-byte scalar.
proof fn lemma_scalar_width_2(s: Seq<u8>)
    requires
        s.len() >= 2,
        0xc2 <= s[0] <= 0xdf,
        0x80 <= s[1] <= 0xbf,
    ensures
        valid_first_scalar(s),
        length_of_first_scalar(s) == 2,
{
    let b0 = s[0];
    let b1 = s[1];
    assert((0xc2 <= b0 && b0 <= 0xdf && 0x80 <= b1 && b1 <= 0xbf) ==> 0x80 <= ((((b0
        & 0x1f) as u32) << 6) | ((b1 & 0x3f) as u32)) && ((((b0 & 0x1f) as u32) << 6) | ((b1
        & 0x3f) as u32)) <= 0x7ff) by (bit_vector);
    assert(codepoint_width_2(b0, b1) == ((((b0 & 0x1f) as u32) << 6) | ((b1 & 0x3f) as u32)));
}

/// A two-byte lead without its continuation byte opens no scalar.
proof fn lemma_scalar_width_2_invalid(s: Seq<u8>)
    requires
        s.len() >= 1,
        0xc2 <= s[0] <= 0xdf,
        s.len() < 2 || !is_continuation_byte(s[1]),
    ensures
        !valid_first_scalar(s),
{
}

/// A three-byte lead whose second byte lies in the range the lead admits,
/// followed by a continuation byte, opens a well-formed three-byte scalar:
/// the admitted ranges exclude overlong encodings and the surrogate block.
proof fn lemma_scalar_width_3(s: Seq<u8>)
    requires
        s.len() >= 3,
        0xe0 <= s[0] <= 0xef,
        0x80 <= s[1] <= 0xbf,
        s[0] == 0xe0 ==> 0xa0 <= s[1],
        s[0] == 0xed ==> s[1] <= 0x9f,
        0x80 <= s[2] <= 0xbf,
    ensures
        valid_first_scalar(s),
        length_of_first_scalar(s) == 3,
{
    let b0 = s[0];
    let b1 = s[1];
    let b2 = s[2];
    assert((0xe0 <= b0 && b0 <= 0xef && 0x80 <= b1 && b1 <= 0xbf && 0x80 <= b2 && b2 <= 0xbf && (b0
        == 0xe0 ==> 0xa0 <= b1) && (b0 == 0xed ==> b1 <= 0x9f)) ==> 0x800 <= ((((b0
        & 0x0f) as u32) << 12) | (((b1 & 0x3f) as u32) << 6) | ((b2 & 0x3f) as u32)) && (((((b0
        & 0x0f) as u32) << 12) | (((b1 & 0x3f) as u32) << 6) | ((b2 & 0x3f) as u32)) < 0xd800 || ((((
        b0 & 0x0f) as u32) << 12) | (((b1 & 0x3f) as u32) << 6) | ((b2 & 0x3f) as u32))
        > 0xdfff)) by (bit_vector);
    assert(codepoint_width_3(b0, b1, b2) == ((((b0 & 0x0f) as u32) << 12) | (((b1
        & 0x3f) as u32) << 6) | ((b2 & 0x3f) as u32)));
}

/// A three-byte lead whose continuation bytes are missing, malformed, or
/// fall in a range that the lead does not admit opens no scalar.
proof fn lemma_scalar_width_3_invalid(s: Seq<u8>)
    requires
        s.len() >= 1,
        0xe0 <= s[0] <= 0xef,
        s.len() < 3 || !is_continuation_byte(s[1]) || !is_continuation_byte(s[2]) || (s[0] == 0xe0
            && s[1] < 0xa0) || (s[0] == 0xed && s[1] > 0x9f),
    ensures
        !valid_first_scalar(s),
{
    if s.len() >= 3 && is_continuation_byte(s[1]) && is_continuation_byte(s[2]) {
        let b0 = s[0];
        let b1 = s[1];
        let b2 = s[2];
        if b0 == 0xe0 && b1 < 0xa0 {
            assert((b0 == 0xe0 && 0x80 <= b1 && b1 < 0xa0 && 0x80 <= b2 && b2 <= 0xbf) ==> ((((b0
                & 0x0f) as u32) << 12) | (((b1 & 0x3f) as u32) << 6) | ((b2 & 0x3f) as u32))
                < 0x800) by (bit_vector);
        } else {
            assert((b0 == 0xed && 0x9f < b1 && b1 <= 0xbf && 0x80 <= b2 && b2 <= 0xbf) ==> 0xd800
                <= ((((b0 & 0x0f) as u32) << 12) | (((b1 & 0x3f) as u32) << 6) | ((b2
                & 0x3f) as u32)) && ((((b0 & 0x0f) as u32) << 12) | (((b1 & 0x3f) as u32) << 6) | ((
            b2 & 0x3f) as u32)) <= 0xdfff) by (bit_vector);
        }
        assert(codepoint_width_3(b0, b1, b2) == ((((b0 & 0x0f) as u32) << 12) | (((b1
            & 0x3f) as u32) << 6) | ((b2 & 0x3f) as u32)));
    }
}

/// A four-byte lead whose second byte lies in the range the lead admits,
/// followed by two continuation bytes, opens a well-formed four-byte scalar:
/// the admitted ranges exclude overlong encodings and values past 0x10ffff.
proof fn lemma_scalar_width_4(s: Seq<u8>)
    requires
        s.len() >= 4,
        0xf0 <= s[0] <= 0xf4,
        0x80 <= s[1] <= 0xbf,
        s[0] == 0xf0 ==> 0x90 <= s[1],
        s[0] == 0xf4 ==> s[1] <= 0x8f,
        0x80 <= s[2] <= 0xbf,
        0x80 <= s[3] <= 0xbf,
    ensures
        valid_first_scalar(s),
        length_of_first_scalar(s) == 4,
{
    let b0 = s[0];
    let b1 = s[1];
    let b2 = s[2];
    let b3 = s[3];
    assert((0xf0 <= b0 && b0 <= 0xf4 && 0x80 <= b1 && b1 <= 0xbf && 0x80 <= b2 && b2 <= 0xbf && 0x80
        <= b3 && b3 <= 0xbf && (b0 == 0xf0 ==> 0x90 <= b1) && (b0 == 0xf4 ==> b1 <= 0x8f))
        ==> 0x10000 <= ((((b0 & 0x07) as u32) << 18) | (((b1 & 0x3f) as u32) << 12) | (((b2
        & 0x3f) as u32) << 6) | ((b3 & 0x3f) as u32)) && ((((b0 & 0x07) as u32) << 18) | (((b1
        & 0x3f) as u32) << 12) | (((b2 & 0x3f) as u32) << 6) | ((b3 & 0x3f) as u32))
        <= 0x10ffff) by (bit_vector);
    assert(codepoint_width_4(b0, b1, b2, b3) == ((((b0 & 0x07) as u32) << 18) | (((b1
        & 0x3f) as u32) << 12) | (((b2 & 0x3f) as u32) << 6) | ((b3 & 0x3f) as u32)));
}

/// A four-byte lead whose continuation bytes are missing or malformed, or
/// whose second byte falls in a range the lead does not admit, or a lead in
/// 0xf5..=0xf7, opens no scalar.
proof fn lemma_scalar_width_4_invalid(s: Seq<u8>)
    requires
        s.len() >= 1,
        0xf0 <= s[0] <= 0xf7,
        s.len() < 4 || !is_continuation_byte(s[1]) || !is_continuation_byte(s[2])
            || !is_continuation_byte(s[3]) || (s[0] == 0xf0 && s[1] < 0x90) || (s[0] == 0xf4 && s[1]
            > 0x8f) || 0xf5 <= s[0],
    ensures
        !valid_first_scalar(s),
{
    if s.len() >= 4 && is_continuation_byte(s[1]) && is_continuation_byte(s[2])
        && is_continuation_byte(s[3]) {
        let b0 = s[0];
        let b1 = s[1];
        let b2 = s[2];
        let b3 = s[3];
        if b0 == 0xf0 && b1 < 0x90 {
            assert((b0 == 0xf0 && 0x80 <= b1 && b1 < 0x90 && 0x80 <= b2 && b2 <= 0xbf && 0x80 <= b3
                && b3 <= 0xbf) ==> ((((b0 & 0x07) as u32) << 18) | (((b1 & 0x3f) as u32) << 12) | (((
            b2 & 0x3f) as u32) << 6) | ((b3 & 0x3f) as u32)) < 0x10000) by (bit_vector);
        } else {
            assert(((0x8f < b1 || 0xf5 <= b0) && 0xf4 <= b0 && b0 <= 0xf7 && 0x80 <= b1 && b1
                <= 0xbf && 0x80 <= b2 && b2 <= 0xbf && 0x80 <= b3 && b3 <= 0xbf) ==> ((((b0
                & 0x07) as u32) << 18) | (((b1 & 0x3f) as u32) << 12) | (((b2 & 0x3f) as u32) << 6)
                | ((b3 & 0x3f) as u32)) > 0x10ffff) by (bit_vector);
        }
        assert(codepoint_width_4(b0, b1, b2, b3) == ((((b0 & 0x07) as u32) << 18) | (((b1
            & 0x3f) as u32) << 12) | (((b2 & 0x3f) as u32) << 6) | ((b3 & 0x3f) as u32)));
    }
}

/// Width of the well-formed scalar encoding that starts at `i`, or 0 when
/// the bytes at `i` open no well-formed scalar.
fn scalar_width_at(bytes: &[u8], i: usize) -> (w: usize)
    requires
        i < bytes@.len(),
    ensures
        ({
            let s = bytes@.subrange(i as int, bytes@.len() as int);
            &&& w == 0 ==> !valid_first_scalar(s)
            &&& w != 0 ==> valid_first_scalar(s) && w == length_of_first_scalar(s)
            &&& i + w <= bytes@.len()
        }),
{
    let ghost s = bytes@.subrange(i as int, bytes@.len() as int);
    let n: usize = bytes.len();
    let b0: u8 = *slice_index_get(bytes, i);
    proof {
        assert(s.len() == n - i);
        assert(s[0] == bytes@[i as int]);
    }
    if b0 < 0x80 {
        proof {
            lemma_scalar_width_1(s);
        }
        1
    } else if b0 < 0xc2 {
        proof {
            if b0 <= 0xbf {
                lemma_scalar_unclassified(s);
            } else {
                lemma_scalar_overlong_2(s);
            }
        }
        0
    } else if b0 < 0xe0 {
        if n - i < 2 {
            proof {
                lemma_scalar_width_2_invalid(s);
            }
            0
        } else {
            let b1: u8 = *slice_index_get(bytes, i + 1);
            proof {
                assert(s[1] == bytes@[i as int + 1]);
            }
            if b1 < 0x80 || b1 > 0xbf {
                proof {
                    lemma_scalar_width_2_invalid(s);
                }
                0
            } else {
                proof {
                    lemma_scalar_width_2(s);
                }
                2
            }
        }
    } else if b0 < 0xf0 {
        if n - i < 3 {
            proof {
                lemma_scalar_width_3_invalid(s);
            }
            0
        } else {
            let b1: u8 = *slice_index_get(bytes, i + 1);
            let b2: u8 = *slice_index_get(bytes, i + 2);
            proof {
                assert(s[1] == bytes@[i as int + 1]);
                assert(s[2] == bytes@[i as int + 2]);
            }
            let lo: u8 = if b0 == 0xe0 {
                0xa0
            } else {
                0x80
            };
            let hi: u8 = if b0 == 0xed {
                0x9f
            } else {
                0xbf
            };
            if b1 < lo || b1 > hi || b2 < 0x80 || b2 > 0xbf {
                proof {
                    lemma_scalar_width_3_invalid(s);
                }
                0
            } else {
                proof {
                    lemma_scalar_width_3(s);
                }
                3
            }
        }
    } else if b0 < 0xf5 {
        if n - i < 4 {
            proof {
                lemma_scalar_width_4_invalid(s);
            }
            0
        } else {
            let b1: u8 = *slice_index_get(bytes, i + 1);
            let b2: u8 = *slice_index_get(bytes, i + 2);
            let b3: u8 = *slice_index_get(bytes, i + 3);
            proof {
                assert(s[1] == bytes@[i as int + 1]);
                assert(s[2] == bytes@[i as int + 2]);
                assert(s[3] == bytes@[i as int + 3]);
            }
            let lo: u8 = if b0 == 0xf0 {
                0x90
            } else {
                0x80
            };
            let hi: u8 = if b0 == 0xf4 {
                0x8f
            } else {
                0xbf
            };
            if b1 < lo || b1 > hi || b2 < 0x80 || b2 > 0xbf || b3 < 0x80 || b3 > 0xbf {
                proof {
                    lemma_scalar_width_4_invalid(s);
                }
                0
            } else {
                proof {
                    lemma_scalar_width_4(s);
                }
                4
            }
        }
    } else {
        proof {
            if b0 <= 0xf7 {
                lemma_scalar_width_4_invalid(s);
            } else {
                lemma_scalar_unclassified(s);
            }
        }
        0
    }
}

/// Scans `bytes` once and reports whether the whole range is well-formed
/// UTF-8.
pub fn validate_utf8(bytes: &[u8]) -> (r: bool)
    ensures
        r == valid_utf8(bytes@),
{
    let n: usize = bytes.len();
    let mut i: usize = 0;
    while i < n
        invariant
            0 <= i <= n,
            n == bytes@.len(),
            partial_valid_utf8(bytes@, i as int),
        decreases n - i,
    {
        let w = scalar_width_at(bytes, i);
        if w == 0 {
            proof {
                let s = bytes@.subrange(i as int, bytes@.len() as int);
                assert(s.len() > 0);
                assert(!valid_utf8(s));
                partial_valid_partial_invalid_utf8(bytes@, i as int);
            }
            return false;
        }
        proof {
            partial_valid_utf8_extend(bytes@, i as int);
        }
        i = i + w;
    }
    proof {
        assert(bytes@.subrange(0, n as int) =~= bytes@);
    }
    true
}

} // verus!
