//! The boundary functions: one entry point per combination of input and
//! output representation. Each composes the Validator, the transform and
//! the Encoder, and its contract says exactly which side owns which buffer
//! after the call.
//!
//! Inputs arrive as a borrowed [`ByteHandle`]; the caller keeps ownership
//! of it in every case. An owned output ([`NulBuffer`] or
//! [`TransferBuffer`]) belongs to this side's allocator and must come back
//! through the matching deallocation entry point, exactly once. A borrowed
//! output aliases the caller's own bytes and must never be passed to a
//! deallocation entry point.

use vstd::prelude::*;
use vstd::utf8::valid_utf8;

use crate::buffer::c_encode;
use crate::buffer::BoundaryError;
use crate::buffer::ByteHandle;
use crate::buffer::NulBuffer;
use crate::buffer::TransferBuffer;
use crate::my_app;
use crate::my_app::transform;
use crate::validate::lemma_nul_content_has_no_nul;
use crate::validate::validate;

verus! {

/// Forwards the plain computation across the boundary unchanged.
pub fn simple_rust_func_called_from_go(arg1: u8, arg2: u16, arg3: u32) -> (r: usize)
    requires
        arg1 + arg2 + arg3 <= usize::MAX,
    ensures
        r == arg1 + arg2 + arg3,
{
    my_app::my_app_simple_rust_func_called_from_go(arg1, arg2, arg3)
}

/// Borrow-in, owned-out: validates the caller's bytes in place, transforms
/// the borrowed text, and allocates a fresh nul-terminated buffer for the
/// result. The input stays with the caller; the output is owned by this
/// side and must be freed through [`free_cstring_alloc_by_rust`].
pub fn receive_str_and_return_string(s: &ByteHandle) -> (r: Result<NulBuffer, BoundaryError>)
    requires
        s.wf(),
    ensures
        s is Null ==> (r matches Err(e) && e == BoundaryError::NullPointer),
        s is Mem && !valid_utf8(s.content()) ==> (r matches Err(e) && e
            == BoundaryError::InvalidUtf8),
        s is Mem && valid_utf8(s.content()) ==> (r matches Ok(c) && c@ == c_encode(
            transform(s.content()),
        )),
{
    let view = match validate(s) {
        Ok(v) => v,
        Err(e) => {
            return Err(e);
        },
    };
    let out = my_app::my_app_receive_str_and_return_string(view);
    proof {
        lemma_nul_content_has_no_nul(s.mem());
        my_app::lemma_transform_no_nul(s.content());
    }
    match NulBuffer::from_bytes(out) {
        Ok(c) => Ok(c),
        Err(e) => Err(e),
    }
}

/// Owned-in, owned-out: the caller's bytes are copied into a buffer this
/// side owns before the transform runs on that owned copy. The caller
/// still owns its original; the output is owned by this side and must be
/// freed through [`free_cstring_alloc_by_rust`].
pub fn receive_string_and_return_string(s: &ByteHandle) -> (r: Result<NulBuffer, BoundaryError>)
    requires
        s.wf(),
    ensures
        s is Null ==> (r matches Err(e) && e == BoundaryError::NullPointer),
        s is Mem && !valid_utf8(s.content()) ==> (r matches Err(e) && e
            == BoundaryError::InvalidUtf8),
        s is Mem && valid_utf8(s.content()) ==> (r matches Ok(c) && c@ == c_encode(
            transform(s.content()),
        )),
{
    let view = match validate(s) {
        Ok(v) => v,
        Err(e) => {
            return Err(e);
        },
    };
    let owned = vstd::slice::slice_to_vec(view);
    let out = my_app::my_app_receive_string_and_return_string(owned);
    proof {
        lemma_nul_content_has_no_nul(s.mem());
        my_app::lemma_transform_no_nul(s.content());
    }
    match NulBuffer::from_bytes(out) {
        Ok(c) => Ok(c),
        Err(e) => Err(e),
    }
}

/// Borrow-in, borrow-out in the transform — yet the output must still be
/// re-terminated, so a fresh owned buffer is allocated all the same. The
/// input stays with the caller; the output is owned by this side and must
/// be freed through [`free_cstring_alloc_by_rust`].
pub fn receive_str_and_return_str(s: &ByteHandle) -> (r: Result<NulBuffer, BoundaryError>)
    requires
        s.wf(),
    ensures
        s is Null ==> (r matches Err(e) && e == BoundaryError::NullPointer),
        s is Mem && !valid_utf8(s.content()) ==> (r matches Err(e) && e
            == BoundaryError::InvalidUtf8),
        s is Mem && valid_utf8(s.content()) ==> (r matches Ok(c) && c@ == c_encode(
            transform(s.content()),
        )),
{
    let view = match validate(s) {
        Ok(v) => v,
        Err(e) => {
            return Err(e);
        },
    };
    let ret = my_app::my_app_receive_str_and_return_str(view);
    let out = vstd::slice::slice_to_vec(ret);
    proof {
        lemma_nul_content_has_no_nul(s.mem());
        my_app::lemma_transform_no_nul(s.content());
    }
    match NulBuffer::from_bytes(out) {
        Ok(c) => Ok(c),
        Err(e) => Err(e),
    }
}

/// Owned-in, borrow-out: the caller's bytes are copied into a buffer this
/// side owns; the transform's view aliases that owned buffer, so both the
/// re-terminated result and the origin buffer cross the boundary. After an
/// `Ok`, this side owns two allocations: the nul-terminated result, to be
/// freed through [`free_cstring_alloc_by_rust`], and the origin buffer
/// described by the transfer descriptor, to be freed through
/// [`free_string_alloc_by_rust_by_raw_parts`]. A deliberately awkward
/// combination, kept to show how many raw slots it forces on the caller.
pub fn receive_string_and_return_str(s: &ByteHandle) -> (r: Result<
    (NulBuffer, TransferBuffer),
    BoundaryError,
>)
    requires
        s.wf(),
    ensures
        s is Null ==> (r matches Err(e) && e == BoundaryError::NullPointer),
        s is Mem && !valid_utf8(s.content()) ==> (r matches Err(e) && e
            == BoundaryError::InvalidUtf8),
        s is Mem && valid_utf8(s.content()) ==> (r matches Ok(p) && p.0@ == c_encode(
            transform(s.content()),
        ) && p.1@ == s.content()),
{
    let view = match validate(s) {
        Ok(v) => v,
        Err(e) => {
            return Err(e);
        },
    };
    let owned = vstd::slice::slice_to_vec(view);
    let (len, origin) = my_app::my_app_receive_string_and_return_str(owned);
    let ret = vstd::slice::slice_subrange(origin.as_slice(), 0, len);
    let out = vstd::slice::slice_to_vec(ret);
    proof {
        lemma_nul_content_has_no_nul(s.mem());
        my_app::lemma_transform_no_nul(s.content());
        assert(out@ =~= transform(s.content()));
    }
    match NulBuffer::from_bytes(out) {
        Ok(c) => Ok((c, origin)),
        Err(e) => Err(e),
    }
}

/// Borrow-in, borrow-out, no copy: the returned view aliases the caller's
/// own bytes — a prefix of them — and carries its length explicitly
/// instead of a terminator. Nothing is allocated and no ownership moves:
/// the caller must not pass the view to any deallocation entry point.
pub fn receive_str_and_return_str_no_copy<'a>(s: &'a ByteHandle) -> (r: Result<
    &'a [u8],
    BoundaryError,
>)
    requires
        s.wf(),
    ensures
        s is Null ==> (r matches Err(e) && e == BoundaryError::NullPointer),
        s is Mem && !valid_utf8(s.content()) ==> (r matches Err(e) && e
            == BoundaryError::InvalidUtf8),
        s is Mem && valid_utf8(s.content()) ==> (r matches Ok(v) && v@ == transform(s.content())),
{
    match validate(s) {
        Ok(view) => Ok(my_app::my_app_receive_str_and_return_str(view)),
        Err(e) => Err(e),
    }
}

/// Destroys a nul-terminated buffer this side handed out. The buffer is
/// consumed: its storage is released here, exactly once, by the allocator
/// that created it.
pub fn free_cstring_alloc_by_rust(buffer: NulBuffer) {
    let _ = buffer;
}

/// Destroys a buffer this side handed out as a transfer descriptor. The
/// descriptor is consumed: its storage is released here, exactly once, by
/// the allocator that created it.
pub fn free_string_alloc_by_rust_by_raw_parts(parts: TransferBuffer) {
    let _ = parts;
}

} // verus!
