//! Sized argument decoding: reconstituting a (pointer, length) pair into
//! a bounded view of exactly `length` bytes.
//!
//! The rule: a null pointer is legal only together with length zero, and
//! then stands for the empty sequence; a null pointer with a non-zero
//! length is a `NullPointer` failure; a non-null pointer yields a view of
//! exactly `length` bytes, read without copying and without validation
//! beyond range construction.

use vstd::prelude::*;
use vstd::slice::{slice_subrange, slice_to_vec, SliceAdditionalExecFns};

use crate::error::FfiError;
use crate::foreign::BytePtr;

verus! {

/// Decode a foreign (pointer, length) pair into a borrowed bounded view.
///
/// The caller-side precondition `input.covers(input_len)` records the
/// foreign contract that a non-null pointer addresses at least
/// `input_len` bytes; nothing at the boundary can check it.
pub fn convert_byte_slice<'a>(input: &'a BytePtr, input_len: usize) -> (r: Result<
    &'a [u8],
    FfiError,
>)
    requires
        input.covers(input_len),
    ensures
        input is Null && input_len != 0 ==> (r matches Err(e) && e == FfiError::NullPointer),
        input is Null && input_len == 0 ==> (r matches Ok(view) && view@ == Seq::<u8>::empty()),
        input matches BytePtr::Region(region) ==> (r matches Ok(view) && view@
            == region@.subrange(0, input_len as int)),
{
    match input {
        BytePtr::Null => {
            if input_len != 0 {
                Err(FfiError::NullPointer)
            } else {
                let empty: &[u8] = &[];
                Ok(empty)
            }
        },
        BytePtr::Region(region) => Ok(slice_subrange(region.as_slice(), 0, input_len)),
    }
}

/// The mutable counterpart: decode a foreign (pointer, length) pair into
/// a bounded view that the operation overwrites.  Because the model
/// cannot hand out the raw view itself, the overwrite travels with the
/// decode: on success the first `input_len` bytes of the region are
/// replaced by `data` and the rest stay untouched.
pub fn convert_byte_slice_mut(input: &mut BytePtr, input_len: usize, data: &[u8]) -> (r: Result<
    (),
    FfiError,
>)
    requires
        old(input).covers(input_len),
        data@.len() == input_len,
    ensures
        *old(input) is Null && input_len != 0 ==> (r matches Err(e) && e == FfiError::NullPointer
            && *final (input) == *old(input)),
        *old(input) is Null && input_len == 0 ==> (r matches Ok(u) && *final (input) == *old(
            input,
        )),
        *old(input) matches BytePtr::Region(region) ==> (r matches Ok(u) && *final (input) matches
            BytePtr::Region(written) && written@ == data@ + region@.subrange(
            input_len as int,
            region@.len() as int,
        )),
{
    match input {
        BytePtr::Null => {
            if input_len != 0 {
                Err(FfiError::NullPointer)
            } else {
                Ok(())
            }
        },
        BytePtr::Region(region) => {
            let ghost pre = region@;
            let mut i: usize = 0;
            while i < input_len
                invariant
                    i <= input_len,
                    input_len <= region@.len(),
                    data@.len() == input_len,
                    region@.len() == pre.len(),
                    forall|j: int| 0 <= j < i ==> region@[j] == data@[j],
                    forall|j: int| i <= j < pre.len() ==> region@[j] == pre[j],
                decreases input_len - i,
            {
                region.set(i, data[i]);
                i += 1;
            }
            assert(region@ =~= data@ + pre.subrange(input_len as int, pre.len() as int));
            Ok(())
        },
    }
}

/// The environment's buffer rule: decoded binary input is handed to the
/// native operation as an owned buffer holding exactly the same bytes.
pub fn buffer(input: &[u8]) -> (r: Vec<u8>)
    ensures
        r@ == input@,
{
    slice_to_vec(input)
}

} // verus!
