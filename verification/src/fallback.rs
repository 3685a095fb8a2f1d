//! The placeholder fallback for failed generation.
//!
//! When extraction fails, the cache slot is still left servable: the open
//! cache file is truncated and filled with a fixed placeholder image, and
//! the original extraction error — not a success — is what the caller
//! learns, unless writing the placeholder itself failed, in which case
//! that I/O error takes precedence.

use vstd::prelude::*;
use crate::error::Io;
use crate::thumbnail::GenerateError;

verus! {

/// The fixed placeholder payload: a one-pixel transparent PNG, always a
/// valid image, written verbatim into the cache slot of a failed
/// generation.
pub open spec fn spec_placeholder_payload() -> Seq<u8> {
    seq![
        0x89u8, 0x50u8, 0x4eu8, 0x47u8, 0x0du8, 0x0au8, 0x1au8, 0x0au8,
        0x00u8, 0x00u8, 0x00u8, 0x0du8, 0x49u8, 0x48u8, 0x44u8, 0x52u8,
        0x00u8, 0x00u8, 0x00u8, 0x01u8, 0x00u8, 0x00u8, 0x00u8, 0x01u8,
        0x08u8, 0x06u8, 0x00u8, 0x00u8, 0x00u8, 0x1fu8, 0x15u8, 0xc4u8,
        0x89u8, 0x00u8, 0x00u8, 0x00u8, 0x0bu8, 0x49u8, 0x44u8, 0x41u8,
        0x54u8, 0x78u8, 0xdau8, 0x63u8, 0x60u8, 0x00u8, 0x02u8, 0x00u8,
        0x00u8, 0x05u8, 0x00u8, 0x01u8, 0xe9u8, 0xfau8, 0xdcu8, 0xd8u8,
        0x00u8, 0x00u8, 0x00u8, 0x00u8, 0x49u8, 0x45u8, 0x4eu8, 0x44u8,
        0xaeu8, 0x42u8, 0x60u8, 0x82u8,
    ]
}

/// The placeholder image's bytes, ready to be written to the cache file.
pub fn placeholder_payload() -> (v: Vec<u8>)
    ensures
        v@ == spec_placeholder_payload(),
{
    let v: Vec<u8> = vec![
        0x89, 0x50, 0x4e, 0x47, 0x0d, 0x0a, 0x1a, 0x0a,
        0x00, 0x00, 0x00, 0x0d, 0x49, 0x48, 0x44, 0x52,
        0x00, 0x00, 0x00, 0x01, 0x00, 0x00, 0x00, 0x01,
        0x08, 0x06, 0x00, 0x00, 0x00, 0x1f, 0x15, 0xc4,
        0x89, 0x00, 0x00, 0x00, 0x0b, 0x49, 0x44, 0x41,
        0x54, 0x78, 0xda, 0x63, 0x60, 0x00, 0x02, 0x00,
        0x00, 0x05, 0x00, 0x01, 0xe9, 0xfa, 0xdc, 0xd8,
        0x00, 0x00, 0x00, 0x00, 0x49, 0x45, 0x4e, 0x44,
        0xae, 0x42, 0x60, 0x82,
    ];
    proof {
        assert(v@ =~= spec_placeholder_payload());
    }
    v
}

/// Whether a cache file's bytes are exactly the placeholder, marking it as
/// the leavings of a failed generation; the retry-on-failure policy treats
/// such a file as stale.
pub fn is_placeholder(bytes: &[u8]) -> (r: bool)
    ensures
        r == (bytes@ == spec_placeholder_payload()),
{
    let payload = placeholder_payload();
    if bytes.len() != payload.len() {
        return false;
    }
    let mut i: usize = 0;
    while i < payload.len()
        invariant
            i <= payload@.len(),
            bytes@.len() == payload@.len(),
            payload@ == spec_placeholder_payload(),
            forall|j: int| 0 <= j < i ==> bytes@[j] == payload@[j],
        decreases payload@.len() - i,
    {
        if bytes[i] != payload[i] {
            return false;
        }
        i += 1;
    }
    proof {
        assert(bytes@ =~= payload@);
    }
    true
}

/// What a failed generation reports after the fallback write: the original
/// extraction error, unless the placeholder write itself failed, whose
/// labelled I/O error then takes precedence.
pub open spec fn spec_fallback_outcome(original: GenerateError, write: Result<(), Io>)
    -> GenerateError {
    match write {
        Ok(u) => original,
        Err(io) => GenerateError::Io { context: io.context, kind: io.kind },
    }
}

/// Decides what a failed generation reports, given the outcome of writing
/// the placeholder into the truncated cache file. The failure is never
/// swallowed: the caller always learns an error, while the cache file is
/// left holding the placeholder (or the write's error explains why not).
pub fn fallback_outcome(original: GenerateError, write: Result<(), Io>) -> (e: GenerateError)
    ensures
        e == spec_fallback_outcome(original, write),
{
    match write {
        Ok(u) => original,
        Err(io) => GenerateError::Io { context: io.context, kind: io.kind },
    }
}

} // verus!
