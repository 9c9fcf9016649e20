//! The byte-oriented destination that the streaming variants write to.
//!
//! The writer itself is outside the proof: nothing can be stated about its
//! state. The streaming variants compute each output unit with the verified
//! engine and hand it to the writer as-is, stopping at the first failure.

use vstd::prelude::*;

verus! {

/// The standard library's I/O error, carried through unchanged when a write
/// fails.
#[verifier::external_type_specification]
#[verifier::external_body]
pub struct ExIoError(std::io::Error);

/// Relies on `std::io::Write::write_all`: it writes the whole buffer to the
/// destination, or reports the first error it hits. Nothing is stated of the
/// destination's state.
#[verifier::external_body]
pub(crate) fn write_all_bytes<W: std::io::Write>(output: &mut W, bytes: &[u8]) -> (r: Result<
    (),
    std::io::Error,
>) {
    output.write_all(bytes)
}

} // verus!
