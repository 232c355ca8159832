//! The embedded business logic: a pure transform over text, one function
//! per aliasing behaviour a transform can exhibit.
//!
//! The policy throughout is to cut text to at most its first 15 bytes.
//! The cut is made at a byte offset, not a character boundary, so it may
//! split a multi-byte encoding; callers that re-validate a truncated
//! output must expect that.

use vstd::prelude::*;
use vstd::slice::slice_subrange;
use vstd::slice::slice_to_vec;

use crate::buffer::TransferBuffer;

verus! {

/// The transform: text of at most 15 bytes passes unchanged; longer text
/// is cut to its first 15 bytes.
pub open spec fn transform(text: Seq<u8>) -> Seq<u8> {
    if text.len() <= 15 {
        text
    } else {
        text.take(15)
    }
}

/// The transform never introduces a byte, so text without a nul stays
/// without one.
pub proof fn lemma_transform_no_nul(text: Seq<u8>)
    requires
        !text.contains(0u8),
    ensures
        !transform(text).contains(0u8),
{
    if transform(text).contains(0u8) {
        let k = choose|k: int| 0 <= k < transform(text).len() && transform(text)[k] == 0u8;
        assert(text[k] == 0u8);
        assert(text.contains(0u8));
    }
}

/// A plain computation passed across the boundary whole, to show the
/// trivial case: no buffer, no ownership question.
pub fn my_app_simple_rust_func_called_from_go(arg1: u8, arg2: u16, arg3: u32) -> (r: usize)
    requires
        arg1 + arg2 + arg3 <= usize::MAX,
    ensures
        r == arg1 + arg2 + arg3,
{
    arg1 as usize + arg2 as usize + arg3 as usize
}

/// Own-in / allocate-out: the transform owns its input, so text at or
/// below the threshold is returned without touching its storage, and
/// longer text gives up its tail in place.
pub fn my_app_receive_string_and_return_string(s: Vec<u8>) -> (r: Vec<u8>)
    ensures
        r@ == transform(s@),
        s@.len() <= 15 ==> r@ == s@,
        s@.len() > 15 ==> r@ == s@.take(15),
{
    let mut s = s;
    if s.len() > 15 {
        s.truncate(15);
    }
    s
}

/// Borrow-in / allocate-out: the input stays with the caller, and either
/// path allocates a fresh buffer for the result.
pub fn my_app_receive_str_and_return_string(s: &[u8]) -> (r: Vec<u8>)
    ensures
        r@ == transform(s@),
        s@.len() <= 15 ==> r@ == s@,
        s@.len() > 15 ==> r@ == s@.take(15),
{
    if s.len() > 15 {
        let r = slice_to_vec(slice_subrange(s, 0, 15));
        proof {
            assert(r@ =~= transform(s@));
        }
        r
    } else {
        slice_to_vec(s)
    }
}

/// Borrow-in / borrow-out: the result is a sub-range of the input and
/// aliases its bytes; neither path allocates.
pub fn my_app_receive_str_and_return_str<'a>(s: &'a [u8]) -> (r: &'a [u8])
    ensures
        r@ == transform(s@),
        s@.len() <= 15 ==> r@ == s@,
        s@.len() > 15 ==> r@ == s@.take(15),
{
    if s.len() > 15 {
        let r = slice_subrange(s, 0, 15);
        proof {
            assert(r@ =~= transform(s@));
        }
        r
    } else {
        s
    }
}

/// Own-in / borrow-out: the transform adopts the input buffer, hands its
/// ownership onward as a transfer descriptor, and describes the result as
/// a length into that same buffer — the view aliases the descriptor's
/// bytes and nothing is copied.
pub fn my_app_receive_string_and_return_str(s: Vec<u8>) -> (r: (usize, TransferBuffer))
    ensures
        r.1@ == s@,
        r.0 == transform(s@).len(),
        transform(s@) == r.1@.take(r.0 as int),
{
    let len: usize = if s.len() > 15 {
        15
    } else {
        s.len()
    };
    proof {
        assert(transform(s@) =~= s@.take(len as int));
    }
    (len, TransferBuffer::from_vec(s))
}

/// Destroys a buffer previously handed out as a transfer descriptor. The
/// descriptor is consumed: its storage is released here, exactly once.
pub fn my_app_free_string_by_raw_parts(parts: TransferBuffer) {
    let _ = parts;
}

} // verus!
