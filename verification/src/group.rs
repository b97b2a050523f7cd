//! Scalars and group elements of the Ristretto prime-order group.
//!
//! A [`Scalar`] carries the canonical (fully reduced, little-endian) 32-byte
//! encoding of an element of the scalar field; a [`Point`] carries the
//! canonical compressed 32-byte encoding of a group element.  Both encodings
//! are unique per element, so equality of encodings is equality of elements.
//! All group arithmetic is performed by `curve25519-dalek` behind the
//! trusted wrappers in this module; what each operation returns is named by
//! an uninterpreted spec function over the operands' encodings.

use vstd::prelude::*;

use curve25519_dalek::ristretto::CompressedRistretto;
use curve25519_dalek::ristretto::RistrettoPoint;
use curve25519_dalek::traits::Identity;
use curve25519_dalek::traits::MultiscalarMul;

use rand_core::OsRng;

use zeroize::Zeroize;

verus! {

/// Whether `b` is the canonical encoding of a scalar, i.e. the unique fully
/// reduced little-endian representation of an integer modulo the group
/// order.  Names the success of `curve25519_dalek::scalar::Scalar::from_canonical_bytes`.
pub uninterp spec fn is_canonical_scalar(b: Seq<u8>) -> bool;

/// Whether `b` is the canonical compressed encoding of a Ristretto group
/// element.  Names the success of `CompressedRistretto::decompress`.
pub uninterp spec fn is_valid_point_encoding(b: Seq<u8>) -> bool;

/// The canonical encoding of the product of the two scalars encoded by `a`
/// and `b`.  Names the result of scalar multiplication in `curve25519-dalek`.
pub uninterp spec fn scalar_product(a: Seq<u8>, b: Seq<u8>) -> Seq<u8>;

/// The canonical encoding of the scalar obtained by interpreting `b`
/// (zero-padded to 32 bytes) as a little-endian integer and reducing it
/// modulo the group order.  Names the result of `Scalar::from_bytes_mod_order`.
pub uninterp spec fn reduced_scalar(b: Seq<u8>) -> Seq<u8>;

/// The compressed encoding of the sum of the two group elements encoded by
/// `a` and `b`.  Names the result of point addition in `curve25519-dalek`.
pub uninterp spec fn point_sum(a: Seq<u8>, b: Seq<u8>) -> Seq<u8>;

/// The compressed encoding of the group element encoded by `p` multiplied by
/// the scalar encoded by `s`.  Names the result of scalar-point
/// multiplication in `curve25519-dalek`.
pub uninterp spec fn point_scale(s: Seq<u8>, p: Seq<u8>) -> Seq<u8>;

/// The compressed encoding of the multiscalar product
/// `sum_i scalars[i] * points[i]`.  Names the result of
/// `RistrettoPoint::multiscalar_mul`.
pub uninterp spec fn msm_value(scalars: Seq<Seq<u8>>, points: Seq<Seq<u8>>) -> Seq<u8>;

/// The compressed encoding of the Ristretto basepoint multiplied by the
/// scalar encoded by `s`.  Names the result of multiplying
/// `constants::RISTRETTO_BASEPOINT_POINT` by a scalar.
pub uninterp spec fn base_point_scale(s: Seq<u8>) -> Seq<u8>;

/// Thirty-two zero bytes: the canonical encoding of the zero scalar and the
/// compressed encoding of the group identity element.
pub open spec fn zeros32() -> Seq<u8> {
    Seq::new(32, |i: int| 0u8)
}

/// The canonical encoding of the scalar one: a one byte followed by
/// thirty-one zero bytes.
pub open spec fn one_bytes() -> Seq<u8> {
    zeros32().update(0, 1u8)
}

/// An element of the scalar field of the Ristretto group, held as its
/// canonical 32-byte little-endian encoding.
#[derive(Clone, Copy, Debug)]
pub struct Scalar {
    /// The canonical encoding; well-formed values only ever hold one.
    pub bytes: [u8; 32],
}

/// A Ristretto group element, held as its canonical compressed 32-byte
/// encoding.
#[derive(Clone, Copy, Debug)]
pub struct Point {
    /// The canonical compressed encoding; well-formed values only ever hold one.
    pub bytes: [u8; 32],
}

impl View for Scalar {
    type V = Seq<u8>;

    open spec fn view(&self) -> Seq<u8> {
        self.bytes@
    }
}

impl View for Point {
    type V = Seq<u8>;

    open spec fn view(&self) -> Seq<u8> {
        self.bytes@
    }
}

/// A well-formed scalar holds a canonical encoding.
pub open spec fn scalar_wf(s: Scalar) -> bool {
    is_canonical_scalar(s@)
}

/// A well-formed group element holds a valid compressed encoding.
pub open spec fn point_wf(p: Point) -> bool {
    is_valid_point_encoding(p@)
}

impl Scalar {
    /// Draw a scalar uniformly at random from a cryptographically secure
    /// source.
    ///
    /// Relies on `Scalar::random` of `curve25519-dalek` over
    /// `rand_core::OsRng`: the result is a reduced scalar, so its encoding
    /// is canonical.  Nothing more is promised of a random value.
    #[verifier::external_body]
    pub fn random() -> (r: Scalar)
        ensures
            scalar_wf(r),
    {
        let s = curve25519_dalek::scalar::Scalar::random(&mut OsRng);
        Scalar { bytes: s.to_bytes() }
    }

    /// Draw a random scalar that is not zero.
    ///
    /// In the overwhelmingly probable case the first draw is already
    /// nonzero; after a bounded number of zero draws the scalar one is
    /// returned so that the result is nonzero on every path.
    pub fn random_nonzero() -> (r: Scalar)
        ensures
            scalar_wf(r),
            r@ != zeros32(),
    {
        let mut tries: usize = 0;
        while tries < 64
            invariant
                true,
            decreases 64 - tries,
        {
            let s = Scalar::random();
            if !s.is_zero() {
                return s;
            }
            tries = tries + 1;
        }
        let s = Scalar::one();
        proof {
            assert(one_bytes()[0] == 1u8);
            assert(zeros32()[0] == 0u8);
        }
        s
    }

    /// The scalar one.
    ///
    /// Relies on `Scalar::ONE` of `curve25519-dalek`: its canonical encoding
    /// is the little-endian encoding of 1.
    #[verifier::external_body]
    fn one() -> (r: Scalar)
        ensures
            r@ == one_bytes(),
            scalar_wf(r),
    {
        Scalar { bytes: curve25519_dalek::scalar::Scalar::ONE.to_bytes() }
    }

    /// Attempt to read a scalar from its canonical encoding, rejecting any
    /// non-canonical (not fully reduced) input.
    ///
    /// Relies on `Scalar::from_canonical_bytes` of `curve25519-dalek`: it
    /// succeeds exactly on canonical encodings, and the accepted scalar
    /// re-encodes to the same bytes.
    #[verifier::external_body]
    pub(crate) fn from_canonical_slice(b: &[u8]) -> (r: Option<Scalar>)
        requires
            b@.len() == 32,
        ensures
            match r {
                Some(s) => s@ == b@ && is_canonical_scalar(b@),
                None => !is_canonical_scalar(b@),
            },
    {
        let mut chunk = [0u8; 32];
        chunk.copy_from_slice(b);
        let c: Option<curve25519_dalek::scalar::Scalar> =
            curve25519_dalek::scalar::Scalar::from_canonical_bytes(chunk).into();
        match c {
            Some(_) => Some(Scalar { bytes: chunk }),
            None => None,
        }
    }

    /// Attempt to read a scalar from its canonical encoding.
    pub fn from_canonical_bytes(b: &[u8; 32]) -> (r: Option<Scalar>)
        ensures
            match r {
                Some(s) => s@ == b@ && is_canonical_scalar(b@),
                None => !is_canonical_scalar(b@),
            },
    {
        Scalar::from_canonical_slice(b.as_slice())
    }

    /// The canonical encoding of this scalar.
    pub fn to_bytes(&self) -> (r: [u8; 32])
        ensures
            r@ == self@,
    {
        self.bytes
    }

    /// Whether this scalar is zero, i.e. whether its canonical encoding is
    /// all zero bytes.
    pub fn is_zero(&self) -> (r: bool)
        ensures
            r == (self@ == zeros32()),
    {
        let mut i: usize = 0;
        while i < 32
            invariant
                i <= 32,
                self@.len() == 32,
                forall|j: int| 0 <= j < i ==> self@[j] == 0u8,
            decreases 32 - i,
        {
            if self.bytes[i] != 0 {
                assert(self@[i as int] != zeros32()[i as int]);
                return false;
            }
            i = i + 1;
        }
        proof {
            assert(self@ =~= zeros32());
        }
        true
    }

    /// Overwrite this scalar's encoding with zero bytes.
    ///
    /// Relies on `zeroize::Zeroize` for byte arrays: the buffer is filled
    /// with zeroes through a write the compiler will not elide.
    #[verifier::external_body]
    pub fn zeroize(&mut self)
        ensures
            final(self)@ == zeros32(),
    {
        self.bytes.zeroize();
    }
}

impl Point {
    /// Draw a group element uniformly at random from a cryptographically
    /// secure source.
    ///
    /// Relies on `RistrettoPoint::random` of `curve25519-dalek` over
    /// `rand_core::OsRng`: the result is a group element, so compressing it
    /// yields a valid encoding.  Nothing more is promised of a random value.
    #[verifier::external_body]
    pub fn random() -> (r: Point)
        ensures
            point_wf(r),
    {
        let p = RistrettoPoint::random(&mut OsRng);
        Point { bytes: p.compress().to_bytes() }
    }

    /// The group identity element, whose compressed encoding is all zero
    /// bytes.
    ///
    /// Relies on `RistrettoPoint::identity` of `curve25519-dalek` and on the
    /// Ristretto encoding, under which the identity compresses to 32 zero
    /// bytes.
    #[verifier::external_body]
    pub fn identity() -> (r: Point)
        ensures
            r@ == zeros32(),
            point_wf(r),
    {
        Point { bytes: RistrettoPoint::identity().compress().to_bytes() }
    }

    /// Attempt to read a group element from its compressed encoding,
    /// rejecting any byte string that does not encode a group element.
    ///
    /// Relies on `CompressedRistretto::decompress` of `curve25519-dalek`: it
    /// succeeds exactly on valid encodings, and decompression followed by
    /// compression returns the same bytes.
    #[verifier::external_body]
    pub(crate) fn decode_slice(b: &[u8]) -> (r: Option<Point>)
        requires
            b@.len() == 32,
        ensures
            match r {
                Some(p) => p@ == b@ && is_valid_point_encoding(b@),
                None => !is_valid_point_encoding(b@),
            },
    {
        let mut chunk = [0u8; 32];
        chunk.copy_from_slice(b);
        match CompressedRistretto(chunk).decompress() {
            Some(_) => Some(Point { bytes: chunk }),
            None => None,
        }
    }

    /// Attempt to read a group element from its compressed encoding.
    pub fn from_bytes(b: &[u8; 32]) -> (r: Option<Point>)
        ensures
            match r {
                Some(p) => p@ == b@ && is_valid_point_encoding(b@),
                None => !is_valid_point_encoding(b@),
            },
    {
        Point::decode_slice(b.as_slice())
    }

    /// The compressed encoding of this group element.
    pub fn to_bytes(&self) -> (r: [u8; 32])
        ensures
            r@ == self@,
    {
        self.bytes
    }
}

/// Multiply two scalars.
///
/// Relies on scalar multiplication of `curve25519-dalek`: the product of two
/// reduced scalars re-encodes canonically, as a function of the operands
/// alone.
#[verifier::external_body]
pub(crate) fn scalar_mul(a: &Scalar, b: &Scalar) -> (r: Scalar)
    requires
        scalar_wf(*a),
        scalar_wf(*b),
    ensures
        r@ == scalar_product(a@, b@),
        scalar_wf(r),
{
    let x = curve25519_dalek::scalar::Scalar::from_canonical_bytes(a.bytes).unwrap();
    let y = curve25519_dalek::scalar::Scalar::from_canonical_bytes(b.bytes).unwrap();
    Scalar { bytes: (x * y).to_bytes() }
}

/// Interpret up to 32 bytes as a little-endian integer and reduce it modulo
/// the group order.
///
/// Relies on `Scalar::from_bytes_mod_order` of `curve25519-dalek`, applied
/// to the input zero-padded to 32 bytes: the result is reduced, hence
/// canonically encoded, and a function of the input alone.
#[verifier::external_body]
pub(crate) fn scalar_reduce(b: &[u8]) -> (r: Scalar)
    requires
        b@.len() <= 32,
    ensures
        r@ == reduced_scalar(b@),
        scalar_wf(r),
{
    let mut chunk = [0u8; 32];
    chunk[..b.len()].copy_from_slice(b);
    Scalar { bytes: curve25519_dalek::scalar::Scalar::from_bytes_mod_order(chunk).to_bytes() }
}

/// Add two group elements.
///
/// Relies on point addition of `curve25519-dalek`: the sum of two group
/// elements is a group element, and a function of the operands alone.
#[verifier::external_body]
pub(crate) fn point_add(a: &Point, b: &Point) -> (r: Point)
    requires
        point_wf(*a),
        point_wf(*b),
    ensures
        r@ == point_sum(a@, b@),
        point_wf(r),
{
    let x = CompressedRistretto(a.bytes).decompress().unwrap();
    let y = CompressedRistretto(b.bytes).decompress().unwrap();
    Point { bytes: (x + y).compress().to_bytes() }
}

/// Multiply a group element by a scalar.
///
/// Relies on scalar-point multiplication of `curve25519-dalek`: the result
/// is a group element, and a function of the operands alone.
#[verifier::external_body]
pub(crate) fn point_scalar_mul(s: &Scalar, p: &Point) -> (r: Point)
    requires
        scalar_wf(*s),
        point_wf(*p),
    ensures
        r@ == point_scale(s@, p@),
        point_wf(r),
{
    let x = curve25519_dalek::scalar::Scalar::from_canonical_bytes(s.bytes).unwrap();
    let y = CompressedRistretto(p.bytes).decompress().unwrap();
    Point { bytes: (x * y).compress().to_bytes() }
}

/// Multiply the Ristretto basepoint by a scalar.
///
/// Relies on multiplication of `constants::RISTRETTO_BASEPOINT_POINT` of
/// `curve25519-dalek` by a scalar: the result is a group element, and a
/// function of the scalar alone.
#[verifier::external_body]
pub(crate) fn base_mul(s: &Scalar) -> (r: Point)
    requires
        scalar_wf(*s),
    ensures
        r@ == base_point_scale(s@),
        point_wf(r),
{
    let x = curve25519_dalek::scalar::Scalar::from_canonical_bytes(s.bytes).unwrap();
    Point { bytes: (curve25519_dalek::constants::RISTRETTO_BASEPOINT_POINT * x).compress().to_bytes() }
}

/// Compute the multiscalar product `sum_i scalars[i] * points[i]` as a
/// single batched multiscalar multiplication.
///
/// Relies on `RistrettoPoint::multiscalar_mul` of `curve25519-dalek`: for
/// equal-length inputs it returns exactly that sum, a group element and a
/// function of the operands alone.
#[verifier::external_body]
pub(crate) fn multiscalar_mul(scalars: &[Scalar], points: &[Point]) -> (r: Point)
    requires
        scalars@.len() == points@.len(),
        forall|i: int| 0 <= i < scalars@.len() ==> scalar_wf(scalars@[i]),
        forall|i: int| 0 <= i < points@.len() ==> point_wf(points@[i]),
    ensures
        r@ == msm_value(
            scalars@.map_values(|s: Scalar| s@),
            points@.map_values(|p: Point| p@),
        ),
        point_wf(r),
{
    let ss: Vec<curve25519_dalek::scalar::Scalar> = scalars
        .iter()
        .map(|s| curve25519_dalek::scalar::Scalar::from_canonical_bytes(s.bytes).unwrap())
        .collect();
    let ps: Vec<RistrettoPoint> = points
        .iter()
        .map(|p| CompressedRistretto(p.bytes).decompress().unwrap())
        .collect();
    Point { bytes: RistrettoPoint::multiscalar_mul(ss.iter(), ps.iter()).compress().to_bytes() }
}

/// Compare two group elements for equality in constant structure.
///
/// Relies on `PartialEq` for `RistrettoPoint` of `curve25519-dalek`, which
/// compares in constant time, and on the Ristretto encoding being
/// canonical: two group elements are equal exactly when their compressed
/// encodings are equal.
#[verifier::external_body]
pub(crate) fn point_eq(a: &Point, b: &Point) -> (r: bool)
    requires
        point_wf(*a),
        point_wf(*b),
    ensures
        r == (a@ == b@),
{
    let x = CompressedRistretto(a.bytes).decompress().unwrap();
    let y = CompressedRistretto(b.bytes).decompress().unwrap();
    x == y
}

} // verus!
