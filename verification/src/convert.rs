//! Argument decoding and result encoding.
//!
//! One trait per direction, exactly as the layer is composed per
//! exported operation: decode every argument, run the native operation,
//! encode the result.  Each native type declares its foreign
//! representation through the associated type, a well-formedness
//! condition the boundary owes it, and a relation that pins the
//! conversion's outcome for every input.

use vstd::prelude::*;
use vstd::string::{StrSliceExecFns, StringSliceAdditionalSpecFns};
use vstd::utf8::{decode_utf8, encode_utf8, valid_utf8};

use crate::error::{CipherError, FfiError, ProtocolError};
use crate::foreign::{cstr_content, lemma_content_of_terminated, CStrPtr, OutParam};
use crate::sentinel::{spec_decode_optional_u32, spec_encode_optional_u32};
use crate::strings::{bytes_into_string, contains_nul, read_cstr_content};

verus! {

/// A native type that can be decoded from a foreign argument.
///
/// `arg_wf` is what the foreign caller owes for the argument to be
/// meaningful at all (a terminated string buffer, for instance);
/// `convert_from_post` pins the decoded outcome for every argument the
/// boundary can hand over.
pub trait ArgTypeInfo: Sized {
    type ArgType;

    spec fn arg_wf(foreign: &Self::ArgType) -> bool;

    spec fn convert_from_post(foreign: Self::ArgType, r: Result<Self, FfiError>) -> bool;

    fn convert_from(foreign: Self::ArgType) -> (r: Result<Self, FfiError>)
        requires
            Self::arg_wf(&foreign),
        ensures
            Self::convert_from_post(foreign, r),
    ;
}

/// A native type that can be encoded into a foreign result.
///
/// `res_wf` is the programming contract the native side owes before its
/// value may cross the boundary (no interior terminator in output text);
/// a violation is fatal in kind, so it stands as a precondition rather
/// than a runtime branch.  `convert_into_post` pins the encoded outcome.
pub trait ResultTypeInfo: Sized {
    type ResultType;

    spec fn res_wf(&self) -> bool;

    spec fn convert_into_post(self, r: Result<Self::ResultType, FfiError>) -> bool;

    fn convert_into(self) -> (r: Result<Self::ResultType, FfiError>)
        requires
            self.res_wf(),
        ensures
            Self::convert_into_post(self, r),
    ;
}

/// Encode a result through a caller-supplied output slot.  A null slot
/// is a `NullPointer` failure before anything is written; an encoding
/// failure propagates and leaves the slot untouched.
pub fn write_to<T: ResultTypeInfo>(ptr: &mut OutParam<T::ResultType>, value: T) -> (r: Result<
    (),
    FfiError,
>)
    requires
        value.res_wf(),
    ensures
        *old(ptr) is Null ==> (r matches Err(e) && e == FfiError::NullPointer && *final (ptr)
            == *old(ptr)),
        *old(ptr) matches OutParam::Slot(_) ==> exists|mid: Result<T::ResultType, FfiError>|
            {
                &&& #[trigger] T::convert_into_post(value, mid)
                &&& match mid {
                    Ok(encoded) => r matches Ok(u) && *final (ptr) == OutParam::Slot(Some(encoded)),
                    Err(e) => r matches Err(e2) && e2 == e && *final (ptr) == *old(ptr),
                }
            },
{
    let is_null = match &*ptr {
        OutParam::Null => true,
        _ => false,
    };
    if is_null {
        return Err(FfiError::NullPointer);
    }
    match value.convert_into() {
        Ok(encoded) => {
            *ptr = OutParam::Slot(Some(encoded));
            Ok(())
        },
        Err(e) => Err(e),
    }
}

impl ArgTypeInfo for u8 {
    type ArgType = u8;

    open spec fn arg_wf(foreign: &u8) -> bool {
        true
    }

    open spec fn convert_from_post(foreign: u8, r: Result<u8, FfiError>) -> bool {
        r == Ok::<u8, FfiError>(foreign)
    }

    fn convert_from(foreign: u8) -> (r: Result<u8, FfiError>) {
        Ok(foreign)
    }
}

impl ArgTypeInfo for i32 {
    type ArgType = i32;

    open spec fn arg_wf(foreign: &i32) -> bool {
        true
    }

    open spec fn convert_from_post(foreign: i32, r: Result<i32, FfiError>) -> bool {
        r == Ok::<i32, FfiError>(foreign)
    }

    fn convert_from(foreign: i32) -> (r: Result<i32, FfiError>) {
        Ok(foreign)
    }
}

impl ArgTypeInfo for u32 {
    type ArgType = u32;

    open spec fn arg_wf(foreign: &u32) -> bool {
        true
    }

    open spec fn convert_from_post(foreign: u32, r: Result<u32, FfiError>) -> bool {
        r == Ok::<u32, FfiError>(foreign)
    }

    fn convert_from(foreign: u32) -> (r: Result<u32, FfiError>) {
        Ok(foreign)
    }
}

impl ArgTypeInfo for u64 {
    type ArgType = u64;

    open spec fn arg_wf(foreign: &u64) -> bool {
        true
    }

    open spec fn convert_from_post(foreign: u64, r: Result<u64, FfiError>) -> bool {
        r == Ok::<u64, FfiError>(foreign)
    }

    fn convert_from(foreign: u64) -> (r: Result<u64, FfiError>) {
        Ok(foreign)
    }
}

impl ArgTypeInfo for usize {
    type ArgType = usize;

    open spec fn arg_wf(foreign: &usize) -> bool {
        true
    }

    open spec fn convert_from_post(foreign: usize, r: Result<usize, FfiError>) -> bool {
        r == Ok::<usize, FfiError>(foreign)
    }

    fn convert_from(foreign: usize) -> (r: Result<usize, FfiError>) {
        Ok(foreign)
    }
}

impl ArgTypeInfo for bool {
    type ArgType = bool;

    open spec fn arg_wf(foreign: &bool) -> bool {
        true
    }

    open spec fn convert_from_post(foreign: bool, r: Result<bool, FfiError>) -> bool {
        r == Ok::<bool, FfiError>(foreign)
    }

    fn convert_from(foreign: bool) -> (r: Result<bool, FfiError>) {
        Ok(foreign)
    }
}

impl ArgTypeInfo for Option<u32> {
    type ArgType = u32;

    open spec fn arg_wf(foreign: &u32) -> bool {
        true
    }

    open spec fn convert_from_post(foreign: u32, r: Result<Option<u32>, FfiError>) -> bool {
        r == Ok::<Option<u32>, FfiError>(spec_decode_optional_u32(foreign))
    }

    fn convert_from(foreign: u32) -> (r: Result<Option<u32>, FfiError>) {
        if foreign == u32::MAX {
            Ok(None)
        } else {
            Ok(Some(foreign))
        }
    }
}

impl ArgTypeInfo for String {
    type ArgType = CStrPtr;

    open spec fn arg_wf(foreign: &CStrPtr) -> bool {
        foreign.wf()
    }

    open spec fn convert_from_post(foreign: CStrPtr, r: Result<String, FfiError>) -> bool {
        match foreign {
            CStrPtr::Null => r matches Err(e) && e == FfiError::NullPointer,
            CStrPtr::Buf(buf) => {
                if valid_utf8(cstr_content(buf@)) {
                    r matches Ok(s) && s@ == decode_utf8(cstr_content(buf@))
                } else {
                    r matches Err(e) && e == FfiError::InvalidUtf8String
                }
            },
        }
    }

    fn convert_from(foreign: CStrPtr) -> (r: Result<String, FfiError>) {
        match foreign {
            CStrPtr::Null => Err(FfiError::NullPointer),
            CStrPtr::Buf(buf) => {
                let content = read_cstr_content(&buf);
                match bytes_into_string(content) {
                    Some(s) => Ok(s),
                    None => Err(FfiError::InvalidUtf8String),
                }
            },
        }
    }
}

impl ArgTypeInfo for Option<String> {
    type ArgType = CStrPtr;

    open spec fn arg_wf(foreign: &CStrPtr) -> bool {
        foreign.wf()
    }

    open spec fn convert_from_post(foreign: CStrPtr, r: Result<Option<String>, FfiError>) -> bool {
        match foreign {
            CStrPtr::Null => r matches Ok(o) && o is None,
            CStrPtr::Buf(buf) => {
                if valid_utf8(cstr_content(buf@)) {
                    r matches Ok(o) && o matches Some(s) && s@ == decode_utf8(cstr_content(buf@))
                } else {
                    r matches Err(e) && e == FfiError::InvalidUtf8String
                }
            },
        }
    }

    fn convert_from(foreign: CStrPtr) -> (r: Result<Option<String>, FfiError>) {
        let is_null = match &foreign {
            CStrPtr::Null => true,
            _ => false,
        };
        if is_null {
            Ok(None)
        } else {
            match String::convert_from(foreign) {
                Ok(s) => Ok(Some(s)),
                Err(e) => Err(e),
            }
        }
    }
}

impl ResultTypeInfo for u8 {
    type ResultType = u8;

    open spec fn res_wf(&self) -> bool {
        true
    }

    open spec fn convert_into_post(self, r: Result<u8, FfiError>) -> bool {
        r == Ok::<u8, FfiError>(self)
    }

    fn convert_into(self) -> (r: Result<u8, FfiError>) {
        Ok(self)
    }
}

impl ResultTypeInfo for i32 {
    type ResultType = i32;

    open spec fn res_wf(&self) -> bool {
        true
    }

    open spec fn convert_into_post(self, r: Result<i32, FfiError>) -> bool {
        r == Ok::<i32, FfiError>(self)
    }

    fn convert_into(self) -> (r: Result<i32, FfiError>) {
        Ok(self)
    }
}

impl ResultTypeInfo for u32 {
    type ResultType = u32;

    open spec fn res_wf(&self) -> bool {
        true
    }

    open spec fn convert_into_post(self, r: Result<u32, FfiError>) -> bool {
        r == Ok::<u32, FfiError>(self)
    }

    fn convert_into(self) -> (r: Result<u32, FfiError>) {
        Ok(self)
    }
}

impl ResultTypeInfo for u64 {
    type ResultType = u64;

    open spec fn res_wf(&self) -> bool {
        true
    }

    open spec fn convert_into_post(self, r: Result<u64, FfiError>) -> bool {
        r == Ok::<u64, FfiError>(self)
    }

    fn convert_into(self) -> (r: Result<u64, FfiError>) {
        Ok(self)
    }
}

impl ResultTypeInfo for usize {
    type ResultType = usize;

    open spec fn res_wf(&self) -> bool {
        true
    }

    open spec fn convert_into_post(self, r: Result<usize, FfiError>) -> bool {
        r == Ok::<usize, FfiError>(self)
    }

    fn convert_into(self) -> (r: Result<usize, FfiError>) {
        Ok(self)
    }
}

impl ResultTypeInfo for bool {
    type ResultType = bool;

    open spec fn res_wf(&self) -> bool {
        true
    }

    open spec fn convert_into_post(self, r: Result<bool, FfiError>) -> bool {
        r == Ok::<bool, FfiError>(self)
    }

    fn convert_into(self) -> (r: Result<bool, FfiError>) {
        Ok(self)
    }
}

impl ResultTypeInfo for Option<u32> {
    type ResultType = u32;

    open spec fn res_wf(&self) -> bool {
        true
    }

    open spec fn convert_into_post(self, r: Result<u32, FfiError>) -> bool {
        r == Ok::<u32, FfiError>(spec_encode_optional_u32(self))
    }

    fn convert_into(self) -> (r: Result<u32, FfiError>) {
        match self {
            Some(v) => Ok(v),
            None => Ok(u32::MAX),
        }
    }
}

impl ResultTypeInfo for String {
    type ResultType = CStrPtr;

    open spec fn res_wf(&self) -> bool {
        !encode_utf8(self@).contains(0u8)
    }

    open spec fn convert_into_post(self, r: Result<CStrPtr, FfiError>) -> bool {
        r matches Ok(p) && p matches CStrPtr::Buf(buf) && buf@ == encode_utf8(self@).push(0u8)
    }

    fn convert_into(self) -> (r: Result<CStrPtr, FfiError>) {
        let mut bytes = self.as_str().as_bytes_vec();
        bytes.push(0);
        Ok(CStrPtr::Buf(bytes))
    }
}

impl<'a> ResultTypeInfo for &'a str {
    type ResultType = CStrPtr;

    open spec fn res_wf(&self) -> bool {
        !encode_utf8(self@).contains(0u8)
    }

    open spec fn convert_into_post(self, r: Result<CStrPtr, FfiError>) -> bool {
        r matches Ok(p) && p matches CStrPtr::Buf(buf) && buf@ == encode_utf8(self@).push(0u8)
    }

    fn convert_into(self) -> (r: Result<CStrPtr, FfiError>) {
        let mut bytes = self.as_bytes_vec();
        bytes.push(0);
        Ok(CStrPtr::Buf(bytes))
    }
}

impl ResultTypeInfo for Option<String> {
    type ResultType = CStrPtr;

    open spec fn res_wf(&self) -> bool {
        self matches Some(s) ==> !encode_utf8(s@).contains(0u8)
    }

    open spec fn convert_into_post(self, r: Result<CStrPtr, FfiError>) -> bool {
        match self {
            Some(s) => r matches Ok(p) && p matches CStrPtr::Buf(buf) && buf@ == encode_utf8(
                s@,
            ).push(0u8),
            None => r == Ok::<CStrPtr, FfiError>(CStrPtr::Null),
        }
    }

    fn convert_into(self) -> (r: Result<CStrPtr, FfiError>) {
        match self {
            Some(s) => s.convert_into(),
            None => Ok(CStrPtr::Null),
        }
    }
}

impl<T: ResultTypeInfo> ResultTypeInfo for Result<T, ProtocolError> {
    type ResultType = T::ResultType;

    open spec fn res_wf(&self) -> bool {
        self matches Ok(value) ==> value.res_wf()
    }

    open spec fn convert_into_post(self, r: Result<T::ResultType, FfiError>) -> bool {
        match self {
            Ok(value) => T::convert_into_post(value, r),
            Err(e) => r matches Err(e2) && e2 == FfiError::Protocol(e),
        }
    }

    fn convert_into(self) -> (r: Result<T::ResultType, FfiError>) {
        match self {
            Ok(value) => value.convert_into(),
            Err(e) => Err(FfiError::Protocol(e)),
        }
    }
}

impl<T: ResultTypeInfo> ResultTypeInfo for Result<T, CipherError> {
    type ResultType = T::ResultType;

    open spec fn res_wf(&self) -> bool {
        self matches Ok(value) ==> value.res_wf()
    }

    open spec fn convert_into_post(self, r: Result<T::ResultType, FfiError>) -> bool {
        match self {
            Ok(value) => T::convert_into_post(value, r),
            Err(e) => r matches Err(e2) && e2 == FfiError::Cipher(e),
        }
    }

    fn convert_into(self) -> (r: Result<T::ResultType, FfiError>) {
        match self {
            Ok(value) => value.convert_into(),
            Err(e) => Err(FfiError::Cipher(e)),
        }
    }
}

/// Encode an owned string after checking the programming contract at
/// run time instead of assuming it: an interior terminator yields no
/// foreign representation rather than a fatal fault.
pub fn convert_string_checked(s: String) -> (r: Option<CStrPtr>)
    ensures
        encode_utf8(s@).contains(0u8) ==> r is None,
        !encode_utf8(s@).contains(0u8) ==> (r matches Some(p) && p matches CStrPtr::Buf(buf)
            && buf@ == encode_utf8(s@).push(0u8)),
{
    let bytes = s.as_str().as_bytes_vec();
    if contains_nul(&bytes) {
        None
    } else {
        match s.convert_into() {
            Ok(p) => Some(p),
            Err(_) => None,
        }
    }
}

/// Text survives the boundary: encoding an owned string and decoding
/// the foreign buffer it produced yields identical string content, for
/// every string the foreign representation can carry at all (one with no
/// interior terminator in its byte encoding).
pub proof fn lemma_string_round_trip(s: String, p: CStrPtr, r: Result<String, FfiError>)
    requires
        !encode_utf8(s@).contains(0u8),
        <String as ResultTypeInfo>::convert_into_post(s, Ok(p)),
        <String as ArgTypeInfo>::convert_from_post(p, r),
    ensures
        p.wf(),
        r matches Ok(t) && t@ == s@,
{
    broadcast use vstd::utf8::encode_utf8_valid_utf8, vstd::utf8::encode_utf8_decode_utf8;

    let bytes = encode_utf8(s@);
    assert(forall|j: int| 0 <= j < bytes.len() ==> bytes[j] != 0u8) by {
        assert(forall|j: int| 0 <= j < bytes.len() && bytes[j] == 0u8 ==> bytes.contains(0u8));
    }
    lemma_content_of_terminated(bytes);
    let buf = p->Buf_0;
    assert(buf@ == bytes.push(0u8));
    assert(buf@[bytes.len() as int] == 0u8);
}

} // verus!
