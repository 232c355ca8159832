//! Owned buffer representations that cross the boundary, the handle a
//! caller supplies, and the error taxonomy of the protocol.
//!
//! Ownership is carried by the Rust types themselves: a value of
//! [`NulBuffer`] or [`TransferBuffer`] is the sole capability to destroy
//! the storage it stands for, so destruction happens exactly once — a
//! second deallocation of the same buffer is a use of a moved value and
//! cannot even be written.

use vstd::prelude::*;

use crate::validate::lemma_nul_index;
use crate::validate::lemma_nul_index_of_first;
use crate::validate::nul_content;
use crate::validate::nul_index;

verus! {

/// How a boundary call fails. Every failure is caused by the caller's
/// input; none leaves any buffer half-transferred.
#[derive(Clone, Copy, Debug, PartialEq, Eq, Structural)]
pub enum BoundaryError {
    /// The caller handed a null handle to an entry point that must read it.
    NullPointer,
    /// The byte range up to its terminator is not well-formed UTF-8.
    InvalidUtf8,
    /// The text holds an interior nul, which the nul-terminated
    /// representation cannot express.
    EmbeddedNull,
}

/// A caller-supplied byte range: either a null handle, or the bytes
/// readable from the caller's pointer. The caller keeps ownership; the
/// boundary only ever borrows a handle.
#[derive(Debug)]
pub enum ByteHandle {
    /// The caller passed no memory at all.
    Null,
    /// The bytes readable at the caller's pointer, terminator included.
    Mem { bytes: Vec<u8> },
}

impl ByteHandle {
    /// The readable bytes; meaningful only for a non-null handle.
    pub open spec fn mem(&self) -> Seq<u8> {
        self->bytes@
    }

    /// The text the handle designates: its bytes up to the first nul.
    pub open spec fn content(&self) -> Seq<u8> {
        nul_content(self.mem())
    }

    /// A non-null handle must hold a terminator inside its readable range;
    /// the caller warrants this, exactly as it warrants that the pointer
    /// is readable at all.
    pub open spec fn wf(&self) -> bool {
        self matches ByteHandle::Mem { bytes } ==> bytes@.contains(0u8)
    }
}

/// Bytes of the nul-terminated representation of `text`: the text followed
/// by its terminator.
pub open spec fn c_encode(text: Seq<u8>) -> Seq<u8> {
    text.push(0u8)
}

/// Bytes a terminator scan reads back out of a buffer.
pub open spec fn c_decode(bytes: Seq<u8>) -> Seq<u8> {
    nul_content(bytes)
}

/// Round trip: text without an interior nul survives the nul-terminated
/// representation unchanged.
pub proof fn lemma_nul_round_trip(text: Seq<u8>)
    requires
        !text.contains(0u8),
    ensures
        c_decode(c_encode(text)) == text,
{
    let b = c_encode(text);
    assert forall|j: int| 0 <= j < text.len() implies b[j] != 0u8 by {
        assert(b[j] == text[j]);
        if text[j] == 0u8 {
            assert(text.contains(0u8));
        }
    }
    lemma_nul_index_of_first(b, text.len() as int);
    assert(c_decode(c_encode(text)) =~= text);
}

/// A nul-terminated owned text buffer: heap storage holding the text and
/// exactly one nul, which terminates it. This is the representation a
/// boundary call returns when the other side expects a C-style string.
#[derive(Debug)]
pub struct NulBuffer {
    bytes: Vec<u8>,
}

impl View for NulBuffer {
    type V = Seq<u8>;

    closed spec fn view(&self) -> Seq<u8> {
        self.bytes@
    }
}

impl NulBuffer {
    /// The terminator is the last byte and the only nul.
    #[verifier::type_invariant]
    closed spec fn wf(&self) -> bool {
        &&& self.bytes@.len() >= 1
        &&& self.bytes@[self.bytes@.len() - 1] == 0u8
        &&& forall|j: int| 0 <= j < self.bytes@.len() - 1 ==> self.bytes@[j] != 0u8
    }

    /// The Encoder's nul-terminated target: adopts the owned text and
    /// appends the terminator, refusing text that holds an interior nul.
    pub fn from_bytes(text: Vec<u8>) -> (r: Result<NulBuffer, BoundaryError>)
        ensures
            text@.contains(0u8) ==> (r matches Err(e) && e == BoundaryError::EmbeddedNull),
            !text@.contains(0u8) ==> (r matches Ok(c) && c@ == c_encode(text@)),
    {
        match crate::validate::find_nul(text.as_slice()) {
            Some(_) => {
                proof {
                    lemma_nul_index(text@);
                }
                Err(BoundaryError::EmbeddedNull)
            },
            None => {
                let mut bytes = text;
                bytes.push(0u8);
                Ok(NulBuffer { bytes })
            },
        }
    }

    /// Reads the text back: scans to the terminator and copies out the
    /// bytes before it.
    pub fn decode(&self) -> (r: Vec<u8>)
        ensures
            r@ == c_decode(self@),
            self@ == c_encode(r@),
    {
        proof {
            use_type_invariant(self);
            lemma_nul_index_of_first(self@, self@.len() - 1);
        }
        let slice = self.bytes.as_slice();
        let n: usize = slice.len();
        let r = vstd::slice::slice_to_vec(vstd::slice::slice_subrange(slice, 0, n - 1));
        proof {
            assert(r@ =~= c_decode(self@));
            assert(self@ =~= c_encode(r@));
        }
        r
    }

    /// Number of bytes held, terminator included.
    pub fn len(&self) -> (r: usize)
        ensures
            r == self@.len(),
            r >= 1,
    {
        proof {
            use_type_invariant(self);
        }
        self.bytes.len()
    }

    /// Surrenders the owned storage, terminator included, to whoever will
    /// carry it across the boundary.
    pub fn into_bytes(self) -> (r: Vec<u8>)
        ensures
            r@ == self@,
            r@.len() >= 1,
            r@[r@.len() - 1] == 0u8,
            nul_index(r@) == r@.len() - 1,
    {
        proof {
            use_type_invariant(&self);
            lemma_nul_index_of_first(self@, self@.len() - 1);
        }
        self.bytes
    }
}

/// An owned buffer handed across the boundary as a raw
/// (pointer, length, capacity) triple. The receiving side treats the
/// triple as opaque: its only use is to come back through the matching
/// deallocation entry point, which this type enforces by ownership.
#[derive(Debug)]
pub struct TransferBuffer {
    bytes: Vec<u8>,
}

impl View for TransferBuffer {
    type V = Seq<u8>;

    closed spec fn view(&self) -> Seq<u8> {
        self.bytes@
    }
}

impl TransferBuffer {
    /// Adopts an owned buffer so it can be described to the other side.
    pub fn from_vec(bytes: Vec<u8>) -> (r: TransferBuffer)
        ensures
            r@ == bytes@,
    {
        TransferBuffer { bytes }
    }

    /// Borrows the described bytes. A view a boundary call returns may
    /// alias these bytes rather than copy them.
    pub fn as_slice(&self) -> (r: &[u8])
        ensures
            r@ == self@,
    {
        self.bytes.as_slice()
    }

    /// Surrenders the owned storage, for the side that must reconstruct
    /// the raw triple.
    pub fn into_vec(self) -> (r: Vec<u8>)
        ensures
            r@ == self@,
    {
        self.bytes
    }
}

} // verus!
