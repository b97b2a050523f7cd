//! The plaintext of the symmetric encryption scheme used for hidden group
//! element attributes.
//!
//! The encryption scheme itself is owned by a collaborating subsystem; the
//! AMAC core only reads the plaintext's group element `m1` when deriving
//! messages, and zeroes it when a secret attribute is erased.

use vstd::prelude::*;

use crate::group::Point;
use crate::group::Scalar;
use crate::group::base_mul;
use crate::group::base_point_scale;
use crate::group::point_wf;
use crate::group::reduced_scalar;
use crate::group::scalar_reduce;
use crate::group::zeros32;

verus! {

/// A plaintext: a message of up to thirty bytes encoded as a Ristretto
/// group element.
#[derive(Clone, Copy, Debug)]
pub struct Plaintext {
    /// The group element carrying the message.
    pub m1: Point,
}

/// A well-formed plaintext carries a valid group element.
pub open spec fn plaintext_wf(p: Plaintext) -> bool {
    point_wf(p.m1)
}

impl Plaintext {
    /// Encode a thirty-byte message as a group element, by reducing it
    /// modulo the group order and multiplying the basepoint by it.
    pub fn from_bytes(bytes: &[u8; 30]) -> (r: Plaintext)
        ensures
            r.m1@ == base_point_scale(reduced_scalar(bytes@)),
            plaintext_wf(r),
    {
        let s: Scalar = scalar_reduce(bytes.as_slice());
        Plaintext { m1: base_mul(&s) }
    }

    /// Overwrite this plaintext's group element with the group identity.
    ///
    /// Group elements admit no all-zero bit pattern that is still a valid
    /// element, so erasure substitutes the identity, whose compressed
    /// encoding happens to be all zero bytes.
    pub fn zeroize(&mut self)
        ensures
            final(self).m1@ == zeros32(),
            plaintext_wf(*final(self)),
    {
        self.m1 = Point::identity();
    }
}

} // verus!
