//! The wording of the diagnostics that the signature primitives raise when
//! they refuse a byte buffer.

use vstd::prelude::*;

verus! {

/// What `fastcrypto` says of bytes that do not encode what was asked for.
pub open spec fn invalid_input_text() -> Seq<char> {
    "Invalid value was given to the function"@
}

/// What `fastcrypto` says of a buffer that should have held 32 bytes.
pub open spec fn expected_32_text() -> Seq<char> {
    "Expected input of length exactly 32"@
}

/// What `fastcrypto` says of a buffer that should have held 64 bytes.
pub open spec fn expected_64_text() -> Seq<char> {
    "Expected input of length exactly 64"@
}

} // verus!
