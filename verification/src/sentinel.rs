//! Sentinel encoding of optional unsigned 32-bit scalars.
//!
//! The foreign convention has no native "no value" for non-pointer
//! scalars, so the maximum representable value is reserved to mean
//! "absent"; every other value means "present with that value".

use vstd::prelude::*;

verus! {

/// What decoding a foreign scalar yields: the sentinel decodes to
/// "absent", anything else to "present".
pub open spec fn spec_decode_optional_u32(foreign: u32) -> Option<u32> {
    if foreign == u32::MAX {
        None
    } else {
        Some(foreign)
    }
}

/// What encoding an optional scalar yields: "absent" becomes the
/// sentinel, "present with v" becomes v.
pub open spec fn spec_encode_optional_u32(value: Option<u32>) -> u32 {
    match value {
        None => u32::MAX,
        Some(v) => v,
    }
}

/// Encoding after decoding gives back the foreign scalar: the sentinel
/// scheme loses no foreign value.
pub proof fn lemma_optional_u32_decode_then_encode(foreign: u32)
    ensures
        spec_encode_optional_u32(spec_decode_optional_u32(foreign)) == foreign,
{
}

/// Decoding after encoding gives back the optional value, for every
/// value the scheme can represent: everything except "present with the
/// sentinel itself", which the reservation makes unrepresentable.
pub proof fn lemma_optional_u32_encode_then_decode(value: Option<u32>)
    requires
        value matches Some(v) ==> v != u32::MAX,
    ensures
        spec_decode_optional_u32(spec_encode_optional_u32(value)) == value,
{
}

} // verus!
