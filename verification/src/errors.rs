//! Error kinds reported by the AMAC core.

use vstd::prelude::*;

verus! {

/// An error in the manipulation of a MAC keypair or tag.
///
/// All fallible operations in this crate classify their failure as one of
/// these kinds; nothing here panics on untrusted input.
#[derive(Clone, Copy, Debug, PartialEq, Eq, Structural)]
pub enum MacError {
    /// Byte input was too short, a scalar field was not a canonical
    /// encoding, or the group element's encoding was invalid.
    KeypairDeserialisation,
    /// More attributes were supplied than the system parameters support;
    /// `length` reports the configured maximum.
    MessageLengthError { length: usize },
    /// The recomputed tag does not match the presented one.
    AuthenticationError,
}

} // verus!
