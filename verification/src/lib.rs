//! A verified type-marshalling layer for a C-style foreign calling
//! convention.
//!
//! The layer sits between callers that speak in fixed-width integers, raw
//! pointers, pointer+length pairs and null-terminated byte strings, and
//! native code that works with owned, validated values.  Because Verus
//! admits no raw pointers, every foreign representation is modelled by a
//! type of this crate that carries exactly what the marshalling rules
//! read: whether a pointer is null, the bytes it addresses, whether an
//! output slot is present, and which heap allocations a handle may refer
//! to.  The conversion rules themselves - null checks, length checks,
//! UTF-8 validation, the sentinel scheme for optional scalars, boxing and
//! releasing of opaque handles - are ordinary verified code with exact
//! contracts.

pub mod convert;
pub mod error;
pub mod foreign;
pub mod handles;
pub mod sentinel;
pub mod sized;
pub mod strings;
