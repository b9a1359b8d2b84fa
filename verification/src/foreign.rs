//! Models of the foreign argument and result representations.
//!
//! A raw pointer itself cannot appear in verified code, so each foreign
//! shape is modelled by a type that carries exactly what the marshalling
//! rules may legitimately read through it: whether the pointer is null,
//! and the bytes of the memory region the caller promised it addresses.
//! The unverified boundary shim owns the actual reinterpretation of raw
//! pointers into these values.

use vstd::prelude::*;

verus! {

/// A foreign `const` byte pointer: null, or the addressable region of
/// bytes behind it.  Paired with an explicit length when it stands for
/// variable-length binary data.
#[derive(Debug, PartialEq, Eq)]
pub enum BytePtr {
    Null,
    Region(Vec<u8>),
}

impl BytePtr {
    /// A pointer passed with an explicit length must address at least
    /// that many bytes; this is the caller's documented obligation, not
    /// something the layer can check.
    pub open spec fn covers(&self, len: usize) -> bool {
        match self {
            BytePtr::Null => true,
            BytePtr::Region(region) => len <= region@.len(),
        }
    }
}

/// A foreign string pointer: null, or the raw bytes of the buffer behind
/// it, terminator included.
#[derive(Debug, PartialEq, Eq)]
pub enum CStrPtr {
    Null,
    Buf(Vec<u8>),
}

/// The index of the first terminator byte in a buffer, or the buffer's
/// length when no terminator occurs.
pub open spec fn first_nul(bytes: Seq<u8>) -> int
    decreases bytes.len(),
{
    if bytes.len() == 0 {
        0
    } else if bytes[0] == 0 {
        0
    } else {
        1 + first_nul(bytes.drop_first())
    }
}

/// The content of a terminated buffer: the bytes before its first
/// terminator.
pub open spec fn cstr_content(bytes: Seq<u8>) -> Seq<u8> {
    bytes.subrange(0, first_nul(bytes))
}

impl CStrPtr {
    /// A non-null foreign string pointer must address a terminated
    /// buffer: again the caller's obligation at the boundary.
    pub open spec fn wf(&self) -> bool {
        match self {
            CStrPtr::Null => true,
            CStrPtr::Buf(buf) => exists|i: int| 0 <= i < buf@.len() && buf@[i] == 0,
        }
    }
}

/// A caller-supplied output slot: null, or a place a result can be
/// written to.  `Slot(None)` is a slot nothing has been written to yet.
#[derive(Debug, PartialEq, Eq)]
pub enum OutParam<U> {
    Null,
    Slot(Option<U>),
}

/// `first_nul` points at a terminator whenever one exists, and every
/// byte before it is non-zero.
pub proof fn lemma_first_nul_spec(bytes: Seq<u8>)
    ensures
        0 <= first_nul(bytes) <= bytes.len(),
        first_nul(bytes) < bytes.len() ==> bytes[first_nul(bytes)] == 0,
        forall|j: int| 0 <= j < first_nul(bytes) ==> bytes[j] != 0,
        (exists|i: int| 0 <= i < bytes.len() && bytes[i] == 0) ==> first_nul(bytes) < bytes.len(),
    decreases bytes.len(),
{
    if bytes.len() == 0 {
    } else if bytes[0] == 0 {
    } else {
        lemma_first_nul_spec(bytes.drop_first());
        assert forall|j: int| 0 <= j < first_nul(bytes) implies bytes[j] != 0 by {
            if j > 0 {
                assert(bytes.drop_first()[j - 1] != 0);
            }
        }
        if exists|i: int| 0 <= i < bytes.len() && bytes[i] == 0 {
            let i = choose|i: int| 0 <= i < bytes.len() && bytes[i] == 0;
            assert(bytes.drop_first()[i - 1] == 0);
        }
    }
}

/// Any position that is a terminator with only non-zero bytes before it
/// is exactly `first_nul`.
pub proof fn lemma_first_nul_unique(bytes: Seq<u8>, k: int)
    requires
        0 <= k < bytes.len(),
        bytes[k] == 0,
        forall|j: int| 0 <= j < k ==> bytes[j] != 0,
    ensures
        first_nul(bytes) == k,
    decreases bytes.len(),
{
    if k == 0 {
    } else {
        assert(forall|j: int| 0 <= j < k - 1 ==> bytes.drop_first()[j] == bytes[j + 1]);
        lemma_first_nul_unique(bytes.drop_first(), k - 1);
    }
}

/// Appending a terminator to a terminator-free byte sequence makes a
/// buffer whose content is exactly that sequence.
pub proof fn lemma_content_of_terminated(bytes: Seq<u8>)
    requires
        forall|j: int| 0 <= j < bytes.len() ==> bytes[j] != 0,
    ensures
        first_nul(bytes.push(0)) == bytes.len(),
        cstr_content(bytes.push(0)) == bytes,
{
    let buf = bytes.push(0);
    assert(buf[bytes.len() as int] == 0);
    assert(forall|j: int| 0 <= j < bytes.len() ==> buf[j] == bytes[j]);
    lemma_first_nul_unique(buf, bytes.len() as int);
    assert(cstr_content(buf) =~= bytes);
}

} // verus!
