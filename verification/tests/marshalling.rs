use ffi_marshal::convert::{convert_string_checked, write_to, ArgTypeInfo, ResultTypeInfo};
use ffi_marshal::error::{CipherError, FfiError, ProtocolError};
use ffi_marshal::foreign::{BytePtr, CStrPtr, OutParam};
use ffi_marshal::sized::{buffer, convert_byte_slice, convert_byte_slice_mut};
use ffi_marshal::strings::{contains_nul, read_cstr_content};

#[test]
fn byte_slice_round_trip_reads_exact_bytes() {
    let region = BytePtr::Region(vec![10, 20, 30, 40, 50]);
    let view = convert_byte_slice(&region, 5).unwrap();
    assert_eq!(view, &[10, 20, 30, 40, 50]);
}

#[test]
fn byte_slice_reads_exactly_the_given_length() {
    let region = BytePtr::Region(vec![1, 2, 3, 4]);
    let view = convert_byte_slice(&region, 2).unwrap();
    assert_eq!(view, &[1, 2]);
}

#[test]
fn null_with_zero_length_is_empty_view() {
    let view = convert_byte_slice(&BytePtr::Null, 0).unwrap();
    assert_eq!(view.len(), 0);
}

#[test]
fn null_with_nonzero_length_is_null_pointer_error() {
    assert_eq!(convert_byte_slice(&BytePtr::Null, 3), Err(FfiError::NullPointer));
}

#[test]
fn mutable_byte_slice_overwrites_prefix_only() {
    let mut region = BytePtr::Region(vec![9, 9, 9, 9]);
    assert_eq!(convert_byte_slice_mut(&mut region, 2, &[7, 8]), Ok(()));
    assert_eq!(region, BytePtr::Region(vec![7, 8, 9, 9]));
}

#[test]
fn mutable_null_with_zero_length_is_noop() {
    let mut ptr = BytePtr::Null;
    assert_eq!(convert_byte_slice_mut(&mut ptr, 0, &[]), Ok(()));
    assert_eq!(ptr, BytePtr::Null);
}

#[test]
fn mutable_null_with_nonzero_length_is_null_pointer_error() {
    let mut ptr = BytePtr::Null;
    assert_eq!(convert_byte_slice_mut(&mut ptr, 2, &[1, 2]), Err(FfiError::NullPointer));
    assert_eq!(ptr, BytePtr::Null);
}

#[test]
fn buffer_copies_bytes() {
    assert_eq!(buffer(&[4, 5, 6]), vec![4, 5, 6]);
}

#[test]
fn optional_u32_decodes_plain_value() {
    assert_eq!(<Option<u32> as ArgTypeInfo>::convert_from(7), Ok(Some(7)));
}

#[test]
fn optional_u32_decodes_sentinel_to_absent() {
    assert_eq!(<Option<u32> as ArgTypeInfo>::convert_from(u32::MAX), Ok(None));
}

#[test]
fn optional_u32_encodes_absent_as_sentinel() {
    assert_eq!(None::<u32>.convert_into(), Ok(u32::MAX));
    assert_eq!(Some(41u32).convert_into(), Ok(41));
}

#[test]
fn optional_u32_round_trips_every_plain_value() {
    for v in [0u32, 1, 12345, u32::MAX - 1] {
        let decoded = <Option<u32> as ArgTypeInfo>::convert_from(v).unwrap();
        assert_eq!(decoded, Some(v));
        assert_eq!(decoded.convert_into(), Ok(v));
    }
}

#[test]
fn trivial_scalars_pass_through() {
    assert_eq!(<u8 as ArgTypeInfo>::convert_from(200), Ok(200));
    assert_eq!(<i32 as ArgTypeInfo>::convert_from(-5), Ok(-5));
    assert_eq!(<u64 as ArgTypeInfo>::convert_from(1 << 40), Ok(1 << 40));
    assert_eq!(<usize as ArgTypeInfo>::convert_from(17), Ok(17));
    assert_eq!(<bool as ArgTypeInfo>::convert_from(true), Ok(true));
    assert_eq!(9u8.convert_into(), Ok(9));
    assert_eq!((-3i32).convert_into(), Ok(-3));
    assert_eq!(88u64.convert_into(), Ok(88));
    assert_eq!(21usize.convert_into(), Ok(21));
    assert_eq!(false.convert_into(), Ok(false));
}

#[test]
fn valid_utf8_string_decodes_to_identical_content() {
    let ptr = CStrPtr::Buf(vec![104, 195, 169, 108, 108, 111, 0]);
    assert_eq!(<String as ArgTypeInfo>::convert_from(ptr), Ok(String::from("h\u{e9}llo")));
}

#[test]
fn string_decoding_stops_at_first_terminator() {
    let ptr = CStrPtr::Buf(vec![104, 105, 0, 120, 0]);
    assert_eq!(<String as ArgTypeInfo>::convert_from(ptr), Ok(String::from("hi")));
}

#[test]
fn invalid_utf8_fails_with_invalid_utf8_error() {
    let ptr = CStrPtr::Buf(vec![0xff, 0xfe, 0]);
    assert_eq!(<String as ArgTypeInfo>::convert_from(ptr), Err(FfiError::InvalidUtf8String));
}

#[test]
fn null_string_pointer_fails_for_required_string() {
    assert_eq!(<String as ArgTypeInfo>::convert_from(CStrPtr::Null), Err(FfiError::NullPointer));
}

#[test]
fn null_string_pointer_is_absent_for_optional_string() {
    assert_eq!(<Option<String> as ArgTypeInfo>::convert_from(CStrPtr::Null), Ok(None));
}

#[test]
fn optional_string_delegates_for_non_null() {
    let ptr = CStrPtr::Buf(vec![111, 107, 0]);
    assert_eq!(
        <Option<String> as ArgTypeInfo>::convert_from(ptr),
        Ok(Some(String::from("ok")))
    );
    let bad = CStrPtr::Buf(vec![0x80, 0]);
    assert_eq!(
        <Option<String> as ArgTypeInfo>::convert_from(bad),
        Err(FfiError::InvalidUtf8String)
    );
}

#[test]
fn string_encodes_to_terminated_utf8_buffer() {
    let encoded = String::from("h\u{e9}llo").convert_into();
    assert_eq!(encoded, Ok(CStrPtr::Buf(vec![104, 195, 169, 108, 108, 111, 0])));
}

#[test]
fn str_slice_encodes_like_owned_string() {
    assert_eq!("abc".convert_into(), Ok(CStrPtr::Buf(vec![97, 98, 99, 0])));
}

#[test]
fn optional_string_encodes_absent_as_null() {
    assert_eq!(None::<String>.convert_into(), Ok(CStrPtr::Null));
    assert_eq!(
        Some(String::from("a")).convert_into(),
        Ok(CStrPtr::Buf(vec![97, 0]))
    );
}

#[test]
fn checked_string_encoding_rejects_interior_terminator() {
    assert_eq!(convert_string_checked(String::from("a\u{0}b")), None);
    assert_eq!(
        convert_string_checked(String::from("ab")),
        Some(CStrPtr::Buf(vec![97, 98, 0]))
    );
}

#[test]
fn string_encode_then_decode_round_trips() {
    let original = String::from("gr\u{fc}\u{df}e \u{2764}");
    let encoded = original.clone().convert_into().unwrap();
    assert_eq!(<String as ArgTypeInfo>::convert_from(encoded), Ok(original));
}

#[test]
fn protocol_error_is_forwarded_unchanged() {
    let value: Result<u32, ProtocolError> = Err(ProtocolError { code: 17 });
    assert_eq!(
        value.convert_into(),
        Err(FfiError::Protocol(ProtocolError { code: 17 }))
    );
}

#[test]
fn cipher_error_is_forwarded_unchanged() {
    let value: Result<u32, CipherError> = Err(CipherError { code: 3 });
    assert_eq!(value.convert_into(), Err(FfiError::Cipher(CipherError { code: 3 })));
}

#[test]
fn wrapped_success_delegates_to_inner_encoding() {
    let value: Result<Option<u32>, ProtocolError> = Ok(None);
    assert_eq!(value.convert_into(), Ok(u32::MAX));
    let text: Result<String, CipherError> = Ok(String::from("x"));
    assert_eq!(text.convert_into(), Ok(CStrPtr::Buf(vec![120, 0])));
}

#[test]
fn write_to_valid_slot_writes_encoded_value() {
    let mut slot: OutParam<u32> = OutParam::Slot(None);
    let value: Result<Option<u32>, ProtocolError> = Ok(Some(6));
    assert_eq!(write_to(&mut slot, value), Ok(()));
    assert_eq!(slot, OutParam::Slot(Some(6)));
}

#[test]
fn write_to_null_slot_fails_and_writes_nothing() {
    let mut slot: OutParam<u32> = OutParam::Null;
    let value: Result<Option<u32>, ProtocolError> = Ok(Some(6));
    assert_eq!(write_to(&mut slot, value), Err(FfiError::NullPointer));
    assert_eq!(slot, OutParam::Null);
}

#[test]
fn write_to_propagates_domain_error_without_writing() {
    let mut slot: OutParam<u32> = OutParam::Slot(None);
    let value: Result<u32, ProtocolError> = Err(ProtocolError { code: 9 });
    assert_eq!(
        write_to(&mut slot, value),
        Err(FfiError::Protocol(ProtocolError { code: 9 }))
    );
    assert_eq!(slot, OutParam::Slot(None));
}

#[test]
fn write_to_delivers_string_results() {
    let mut slot: OutParam<CStrPtr> = OutParam::Slot(None);
    assert_eq!(write_to(&mut slot, String::from("hi")), Ok(()));
    assert_eq!(slot, OutParam::Slot(Some(CStrPtr::Buf(vec![104, 105, 0]))));
}

#[test]
fn cstr_content_reads_up_to_first_terminator() {
    assert_eq!(read_cstr_content(&vec![1, 2, 3, 0, 4]), vec![1, 2, 3]);
}

#[test]
fn nul_scan_finds_interior_terminator() {
    assert!(contains_nul(&vec![1, 0, 2]));
    assert!(!contains_nul(&vec![1, 2]));
}
