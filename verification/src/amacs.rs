//! The AMAC core: secret key lifecycle, attributes, message derivation, and
//! the tagging and verification algorithm of the MAC_GGM scheme.
//!
//! An AMAC secret key is `(w, w', x_0, x_1, y_1 .. y_n, W)` where
//! `W = g_w * w` for the distinguished generator `g_w` of the
//! [`SystemParameters`].  Tagging a vector of attributes produces
//! `(t, U, V)` with `t` and `U` fresh and random and
//! `V = W + U * x_0 + U * (x_1 * t) + sum_i y_i * M_i`, where the `M_i` are
//! the group elements derived from the attributes.  Verification re-derives
//! `V` with the same key and accepts exactly when it matches.

use vstd::prelude::*;

use vstd::bytes::lemma_auto_spec_u32_to_from_le_bytes;
use vstd::bytes::spec_u32_from_le_bytes;
use vstd::bytes::spec_u32_to_le_bytes;
use vstd::bytes::u32_from_le_bytes;
use vstd::bytes::u32_to_le_bytes;
use vstd::slice::slice_subrange;

use crate::errors::MacError;
use crate::group::Point;
use crate::group::Scalar;
use crate::group::is_canonical_scalar;
use crate::group::is_valid_point_encoding;
use crate::group::msm_value;
use crate::group::multiscalar_mul;
use crate::group::point_add;
use crate::group::point_eq;
use crate::group::point_scalar_mul;
use crate::group::point_scale;
use crate::group::point_sum;
use crate::group::point_wf;
use crate::group::scalar_mul;
use crate::group::scalar_product;
use crate::group::scalar_wf;
use crate::group::zeros32;
use crate::parameters::SystemParameters;
use crate::parameters::system_parameters_wf;
use crate::symmetric::Plaintext;
use crate::symmetric::plaintext_wf;

verus! {

/// The size, in bytes, of a serialised [`SecretKey`] with
/// `number_of_attributes` attributes: a four-byte attribute count, the four
/// scalars `w`, `w_prime`, `x_0`, `x_1`, one scalar per attribute, and the
/// compressed group element `W`, 32 bytes each.
pub open spec fn spec_sizeof_secret_key(number_of_attributes: nat) -> nat {
    32 * (5 + number_of_attributes) + 4
}

/// Determine the size of a [`SecretKey`], in bytes.
pub fn sizeof_secret_key(number_of_attributes: u32) -> (r: usize)
    requires
        32 * (5 + number_of_attributes as nat) + 4 <= usize::MAX,
    ensures
        r == spec_sizeof_secret_key(number_of_attributes as nat),
{
    32 * (5 + number_of_attributes as usize) + 4
}

/// An AMAC secret key `(w, w', x_0, x_1, y_1 .. y_n, W)` where `W = g_w * w`
/// and `g_w` is the distinguished generator of the [`SystemParameters`].
///
/// The size of the secret key is linear in the number of attributes the
/// anonymous credential is to carry, which is fixed at generation.
#[derive(Clone, Debug)]
pub struct SecretKey {
    /// The scalar the key is committed to through `big_w`.
    pub w: Scalar,
    /// The scalar used elsewhere in the credential scheme for blinding.
    pub w_prime: Scalar,
    /// The scalar multiplying `U` in the MAC equation.
    pub x_0: Scalar,
    /// The scalar multiplying `U * t` in the MAC equation.
    pub x_1: Scalar,
    /// One scalar per attribute slot, multiplying the derived messages.
    pub y: Vec<Scalar>,
    /// The commitment `g_w * w` to the scalar `w`.
    pub big_w: Point,
}

/// A well-formed secret key: every scalar is canonically encoded, `big_w` is
/// a group element, and there is a scalar `y_i` for each of at least one and
/// at most `u32::MAX` attributes (the serialised attribute count is a
/// `u32`).
pub open spec fn secret_key_wf(k: SecretKey) -> bool {
    &&& scalar_wf(k.w)
    &&& scalar_wf(k.w_prime)
    &&& scalar_wf(k.x_0)
    &&& scalar_wf(k.x_1)
    &&& forall|i: int| 0 <= i < k.y@.len() ==> scalar_wf(#[trigger] k.y@[i])
    &&& point_wf(k.big_w)
    &&& 1 <= k.y@.len() <= u32::MAX
}

/// Whether a key has one `y_i` scalar per attribute slot of the parameters
/// it is used with, i.e. was generated (or loaded) for those parameters.
pub open spec fn key_matches_parameters(k: SecretKey, p: SystemParameters) -> bool {
    k.y@.len() == p.g_m@.len()
}

/// The concatenation of the canonical encodings of a sequence of scalars.
pub open spec fn scalar_seq_bytes(y: Seq<Scalar>) -> Seq<u8>
    decreases y.len(),
{
    if y.len() == 0 {
        Seq::empty()
    } else {
        y.first()@ + scalar_seq_bytes(y.drop_first())
    }
}

/// The fixed-layout little-endian serialisation of a secret key: the
/// attribute count as a `u32`, then `w`, `w_prime`, `x_0`, `x_1`, each `y_i`
/// in order, and the compressed encoding of `big_w`.
pub open spec fn spec_secret_key_bytes(k: SecretKey) -> Seq<u8> {
    spec_u32_to_le_bytes(k.y@.len() as u32) + k.w@ + k.w_prime@ + k.x_0@ + k.x_1@
        + scalar_seq_bytes(k.y@) + k.big_w@
}

/// The `i`-th 32-byte scalar field of serialised key bytes: fields 0 to 3
/// are `w`, `w_prime`, `x_0`, `x_1`, and field `4 + j` is `y_j`.
pub open spec fn key_chunk(b: Seq<u8>, i: int) -> Seq<u8> {
    b.subrange(4 + 32 * i, 36 + 32 * i)
}

/// The attribute count read from the first four bytes of serialised key
/// bytes.
pub open spec fn spec_key_count(b: Seq<u8>) -> nat {
    spec_u32_from_le_bytes(b.subrange(0, 4)) as nat
}

/// Whether `b` deserialises to a secret key: it is at least as long as a
/// one-attribute key, exactly as long as its attribute count demands, every
/// scalar field is a canonical encoding, and the trailing group element
/// encoding is valid.
pub open spec fn key_bytes_wf(b: Seq<u8>) -> bool {
    &&& spec_sizeof_secret_key(1) <= b.len()
    &&& b.len() == spec_sizeof_secret_key(spec_key_count(b))
    &&& forall|i: int|
        0 <= i < spec_key_count(b) + 4 ==> is_canonical_scalar(#[trigger] key_chunk(b, i))
    &&& is_valid_point_encoding(b.subrange(b.len() - 32, b.len() as int))
}

proof fn lemma_scalar_seq_bytes_len(y: Seq<Scalar>)
    ensures
        scalar_seq_bytes(y).len() == 32 * y.len(),
    decreases y.len(),
{
    if y.len() > 0 {
        lemma_scalar_seq_bytes_len(y.drop_first());
    }
}

proof fn lemma_scalar_seq_bytes_index(y: Seq<Scalar>, i: int)
    requires
        0 <= i < y.len(),
    ensures
        scalar_seq_bytes(y).subrange(32 * i, 32 * i + 32) == y[i]@,
    decreases i,
{
    lemma_scalar_seq_bytes_len(y.drop_first());
    if i == 0 {
        assert(scalar_seq_bytes(y).subrange(0, 32) =~= y.first()@);
    } else {
        lemma_scalar_seq_bytes_index(y.drop_first(), i - 1);
        assert(scalar_seq_bytes(y).subrange(32 * i, 32 * i + 32) =~= scalar_seq_bytes(
            y.drop_first(),
        ).subrange(32 * (i - 1), 32 * (i - 1) + 32));
    }
}

proof fn lemma_scalar_seq_bytes_snoc(y: Seq<Scalar>, s: Scalar)
    ensures
        scalar_seq_bytes(y.push(s)) == scalar_seq_bytes(y) + s@,
    decreases y.len(),
{
    assert(scalar_seq_bytes(y.push(s)) == y.push(s).first()@ + scalar_seq_bytes(
        y.push(s).drop_first(),
    ));
    if y.len() == 0 {
        assert(y.push(s).first() == s);
        assert(y.push(s).drop_first() =~= y);
        assert(scalar_seq_bytes(y.push(s)) =~= scalar_seq_bytes(y) + s@);
    } else {
        lemma_scalar_seq_bytes_snoc(y.drop_first(), s);
        assert(y.push(s).first() == y.first());
        assert(y.push(s).drop_first() =~= y.drop_first().push(s));
        assert(scalar_seq_bytes(y.push(s)) == y.first()@ + (scalar_seq_bytes(y.drop_first())
            + s@));
        assert(scalar_seq_bytes(y) == y.first()@ + scalar_seq_bytes(y.drop_first()));
        assert(scalar_seq_bytes(y.push(s)) =~= scalar_seq_bytes(y) + s@);
    }
}

proof fn lemma_scalar_seq_bytes_from_chunks(y: Seq<Scalar>, b: Seq<u8>, start: int)
    requires
        0 <= start,
        start + 32 * y.len() <= b.len(),
        forall|i: int|
            0 <= i < y.len() ==> (#[trigger] y[i])@ == b.subrange(
                start + 32 * i,
                start + 32 * i + 32,
            ),
    ensures
        scalar_seq_bytes(y) == b.subrange(start, start + 32 * y.len()),
    decreases y.len(),
{
    if y.len() == 0 {
        assert(scalar_seq_bytes(y) =~= b.subrange(start, start));
    } else {
        let rest = y.drop_first();
        assert forall|i: int| 0 <= i < rest.len() implies (#[trigger] rest[i])@ == b.subrange(
            start + 32 + 32 * i,
            start + 32 + 32 * i + 32,
        ) by {
            assert(rest[i] == y[i + 1]);
        }
        lemma_scalar_seq_bytes_from_chunks(rest, b, start + 32);
        assert(y[0]@ == b.subrange(start, start + 32));
        lemma_scalar_seq_bytes_len(rest);
        assert(scalar_seq_bytes(y) =~= b.subrange(start, start + 32 * y.len()));
    }
}

/// The pieces of a serialised secret key: its length, and each field read
/// back as the matching subrange.
proof fn lemma_secret_key_bytes_parts(k: SecretKey)
    requires
        k.y@.len() <= u32::MAX,
    ensures
        spec_secret_key_bytes(k).len() == spec_sizeof_secret_key(k.y@.len() as nat),
        spec_secret_key_bytes(k).subrange(0, 4) == spec_u32_to_le_bytes(k.y@.len() as u32),
        key_chunk(spec_secret_key_bytes(k), 0) == k.w@,
        key_chunk(spec_secret_key_bytes(k), 1) == k.w_prime@,
        key_chunk(spec_secret_key_bytes(k), 2) == k.x_0@,
        key_chunk(spec_secret_key_bytes(k), 3) == k.x_1@,
        forall|i: int|
            0 <= i < k.y@.len() ==> key_chunk(spec_secret_key_bytes(k), 4 + i) == (
            #[trigger] k.y@[i])@,
        spec_secret_key_bytes(k).subrange(
            spec_secret_key_bytes(k).len() - 32,
            spec_secret_key_bytes(k).len() as int,
        ) == k.big_w@,
{
    let b = spec_secret_key_bytes(k);
    let n = k.y@.len() as int;
    lemma_auto_spec_u32_to_from_le_bytes();
    lemma_scalar_seq_bytes_len(k.y@);
    assert(b.len() == 164 + 32 * n);
    assert(b.subrange(0, 4) =~= spec_u32_to_le_bytes(k.y@.len() as u32));
    assert(key_chunk(b, 0) =~= k.w@);
    assert(key_chunk(b, 1) =~= k.w_prime@);
    assert(key_chunk(b, 2) =~= k.x_0@);
    assert(key_chunk(b, 3) =~= k.x_1@);
    assert forall|i: int| 0 <= i < n implies key_chunk(b, 4 + i) == (#[trigger] k.y@[i])@ by {
        assert(key_chunk(b, 4 + i) =~= scalar_seq_bytes(k.y@).subrange(32 * i, 32 * i + 32));
        lemma_scalar_seq_bytes_index(k.y@, i);
    }
    assert(b.subrange(b.len() - 32, b.len() as int) =~= k.big_w@);
}

/// Round-trip, first half: the serialisation of a well-formed secret key is
/// well-formed key bytes, so deserialising what a key serialised to always
/// succeeds.
pub proof fn lemma_serialised_key_wf(k: SecretKey)
    requires
        secret_key_wf(k),
    ensures
        key_bytes_wf(spec_secret_key_bytes(k)),
        spec_key_count(spec_secret_key_bytes(k)) == k.y@.len(),
{
    let b = spec_secret_key_bytes(k);
    lemma_secret_key_bytes_parts(k);
    lemma_auto_spec_u32_to_from_le_bytes();
    assert(spec_key_count(b) == k.y@.len());
    assert forall|i: int|
        0 <= i < spec_key_count(b) + 4 implies is_canonical_scalar(#[trigger] key_chunk(b, i)) by {
        if 4 <= i {
            assert(key_chunk(b, i) == k.y@[i - 4]@);
        }
    }
}

/// Round-trip, second half: serialisation is injective on well-formed keys.
/// Two keys with the same serialisation agree on the attribute count and on
/// the encodings of every scalar and group element field, so the key
/// deserialised from a key's bytes reproduces that key's fields exactly.
pub proof fn lemma_secret_key_bytes_injective(k1: SecretKey, k2: SecretKey)
    requires
        k1.y@.len() <= u32::MAX,
        k2.y@.len() <= u32::MAX,
        spec_secret_key_bytes(k1) == spec_secret_key_bytes(k2),
    ensures
        k1.y@.len() == k2.y@.len(),
        k1.w@ == k2.w@,
        k1.w_prime@ == k2.w_prime@,
        k1.x_0@ == k2.x_0@,
        k1.x_1@ == k2.x_1@,
        forall|i: int| 0 <= i < k1.y@.len() ==> (#[trigger] k1.y@[i])@ == k2.y@[i]@,
        k1.big_w@ == k2.big_w@,
{
    lemma_secret_key_bytes_parts(k1);
    lemma_secret_key_bytes_parts(k2);
    lemma_auto_spec_u32_to_from_le_bytes();
    assert(spec_u32_from_le_bytes(spec_u32_to_le_bytes(k1.y@.len() as u32)) == k1.y@.len() as u32);
    assert(spec_u32_from_le_bytes(spec_u32_to_le_bytes(k2.y@.len() as u32)) == k2.y@.len() as u32);
}

impl SecretKey {
    /// Given the [`SystemParameters`], generate a secret key.
    ///
    /// Draws `w`, `w_prime`, `x_0`, `x_1` and one `y_i` per attribute slot
    /// independently and uniformly at random from the scalar field, with `w`
    /// guaranteed nonzero, and commits to `w` as `big_w = g_w * w`.
    pub fn generate(system_parameters: &SystemParameters) -> (r: SecretKey)
        requires
            system_parameters_wf(*system_parameters),
        ensures
            secret_key_wf(r),
            key_matches_parameters(r, *system_parameters),
            r.w@ != zeros32(),
            r.big_w@ == point_scale(r.w@, system_parameters.g_w@),
    {
        let w = Scalar::random_nonzero();
        let w_prime = Scalar::random();
        let x_0 = Scalar::random();
        let x_1 = Scalar::random();

        let mut y: Vec<Scalar> = Vec::new();
        let mut i: u32 = 0;
        while i < system_parameters.number_of_attributes
            invariant
                i <= system_parameters.number_of_attributes,
                y@.len() == i,
                forall|j: int| 0 <= j < y@.len() ==> scalar_wf(#[trigger] y@[j]),
            decreases system_parameters.number_of_attributes - i,
        {
            y.push(Scalar::random());
            i = i + 1;
        }

        let big_w = point_scalar_mul(&w, &system_parameters.g_w);

        SecretKey { w, w_prime, x_0, x_1, y, big_w }
    }

    /// Serialise this AMAC secret key to a vector of bytes, in the
    /// fixed-layout little-endian wire format.
    pub fn to_bytes(&self) -> (r: Vec<u8>)
        requires
            self.y@.len() <= u32::MAX,
        ensures
            r@ == spec_secret_key_bytes(*self),
            r@.len() == spec_sizeof_secret_key(self.y@.len() as nat),
    {
        let mut bytes: Vec<u8> = Vec::new();
        let mut count_bytes = u32_to_le_bytes(self.y.len() as u32);
        bytes.append(&mut count_bytes);
        let w_bytes = self.w.to_bytes();
        bytes.extend_from_slice(w_bytes.as_slice());
        let w_prime_bytes = self.w_prime.to_bytes();
        bytes.extend_from_slice(w_prime_bytes.as_slice());
        let x_0_bytes = self.x_0.to_bytes();
        bytes.extend_from_slice(x_0_bytes.as_slice());
        let x_1_bytes = self.x_1.to_bytes();
        bytes.extend_from_slice(x_1_bytes.as_slice());

        let ghost header = spec_u32_to_le_bytes(self.y@.len() as u32) + self.w@ + self.w_prime@
            + self.x_0@ + self.x_1@;

        let mut i: usize = 0;
        while i < self.y.len()
            invariant
                i <= self.y@.len(),
                self.y@.len() <= u32::MAX,
                header == spec_u32_to_le_bytes(self.y@.len() as u32) + self.w@ + self.w_prime@
                    + self.x_0@ + self.x_1@,
                bytes@ == header + scalar_seq_bytes(self.y@.take(i as int)),
            decreases self.y@.len() - i,
        {
            let y_bytes = self.y[i].to_bytes();
            bytes.extend_from_slice(y_bytes.as_slice());
            proof {
                lemma_scalar_seq_bytes_snoc(self.y@.take(i as int), self.y@[i as int]);
                assert(self.y@.take(i + 1 as int) =~= self.y@.take(i as int).push(
                    self.y@[i as int],
                ));
            }
            i = i + 1;
        }
        assert(self.y@.take(self.y@.len() as int) =~= self.y@);

        let big_w_bytes = self.big_w.to_bytes();
        bytes.extend_from_slice(big_w_bytes.as_slice());

        proof {
            lemma_secret_key_bytes_parts(*self);
        }
        bytes
    }

    /// Attempt to deserialise an AMAC secret key from bytes.
    ///
    /// Succeeds exactly on well-formed key bytes: input at least as long as
    /// a one-attribute key and exactly as long as its attribute count
    /// demands, every scalar field canonical (non-canonical encodings are
    /// rejected, not reduced), and a valid group element encoding for
    /// `big_w`.  Everything else is a [`MacError::KeypairDeserialisation`].
    /// The `big_w = g_w * w` invariant is trusted from the wire, not
    /// re-derived.
    pub fn from_bytes(bytes: &[u8]) -> (r: Result<SecretKey, MacError>)
        ensures
            r is Ok <==> key_bytes_wf(bytes@),
            r matches Ok(k) ==> spec_secret_key_bytes(k) == bytes@ && secret_key_wf(k)
                && k.y@.len() == spec_key_count(bytes@),
            r is Err ==> r == Err::<SecretKey, MacError>(MacError::KeypairDeserialisation),
    {
        proof {
            lemma_auto_spec_u32_to_from_le_bytes();
        }
        // No one creates a key for fewer than one attribute.
        if bytes.len() < sizeof_secret_key(1) {
            return Err(MacError::KeypairDeserialisation);
        }
        let n = u32_from_le_bytes(slice_subrange(bytes, 0, 4));
        // The length must match the attribute count exactly; the size is
        // computed in u64 so that it cannot overflow on any platform.
        if bytes.len() as u64 != 32u64 * (5u64 + n as u64) + 4u64 {
            return Err(MacError::KeypairDeserialisation);
        }
        assert(bytes@.len() == 164 + 32 * (n as int));
        assert(spec_key_count(bytes@) == n as nat);

        let w = match Scalar::from_canonical_slice(slice_subrange(bytes, 4, 36)) {
            Some(s) => s,
            None => {
                assert(!is_canonical_scalar(key_chunk(bytes@, 0)));
                return Err(MacError::KeypairDeserialisation);
            },
        };
        let w_prime = match Scalar::from_canonical_slice(slice_subrange(bytes, 36, 68)) {
            Some(s) => s,
            None => {
                assert(!is_canonical_scalar(key_chunk(bytes@, 1)));
                return Err(MacError::KeypairDeserialisation);
            },
        };
        let x_0 = match Scalar::from_canonical_slice(slice_subrange(bytes, 68, 100)) {
            Some(s) => s,
            None => {
                assert(!is_canonical_scalar(key_chunk(bytes@, 2)));
                return Err(MacError::KeypairDeserialisation);
            },
        };
        let x_1 = match Scalar::from_canonical_slice(slice_subrange(bytes, 100, 132)) {
            Some(s) => s,
            None => {
                assert(!is_canonical_scalar(key_chunk(bytes@, 3)));
                return Err(MacError::KeypairDeserialisation);
            },
        };

        let mut y: Vec<Scalar> = Vec::new();
        let mut i: usize = 0;
        while i < n as usize
            invariant
                i <= n as usize,
                bytes@.len() == 164 + 32 * (n as int),
                bytes@.len() <= usize::MAX,
                y@.len() == i,
                forall|j: int| 0 <= j < y@.len() ==> scalar_wf(#[trigger] y@[j]),
                forall|j: int|
                    0 <= j < y@.len() ==> (#[trigger] y@[j])@ == key_chunk(bytes@, 4 + j),
                forall|j: int|
                    0 <= j < y@.len() ==> is_canonical_scalar(#[trigger] key_chunk(bytes@, 4 + j)),
            decreases n as usize - i,
        {
            proof {
                assert(132 + 32 * (i as int) + 32 <= bytes@.len());
            }
            let off = 132 + 32 * i;
            let y_i = match Scalar::from_canonical_slice(slice_subrange(bytes, off, off + 32)) {
                Some(s) => s,
                None => {
                    assert(!is_canonical_scalar(key_chunk(bytes@, 4 + i)));
                    return Err(MacError::KeypairDeserialisation);
                },
            };
            y.push(y_i);
            i = i + 1;
        }

        let big_w = match Point::decode_slice(
            slice_subrange(bytes, bytes.len() - 32, bytes.len()),
        ) {
            Some(p) => p,
            None => {
                return Err(MacError::KeypairDeserialisation);
            },
        };

        let k = SecretKey { w, w_prime, x_0, x_1, y, big_w };
        proof {
            assert(key_chunk(bytes@, 0) =~= bytes@.subrange(4, 36));
            assert(key_chunk(bytes@, 1) =~= bytes@.subrange(36, 68));
            assert(key_chunk(bytes@, 2) =~= bytes@.subrange(68, 100));
            assert(key_chunk(bytes@, 3) =~= bytes@.subrange(100, 132));
            assert forall|j: int|
                0 <= j < spec_key_count(bytes@) + 4 implies is_canonical_scalar(
                #[trigger] key_chunk(bytes@, j),
            ) by {
                if 4 <= j {
                    let idx = j - 4;
                    assert(is_canonical_scalar(key_chunk(bytes@, 4 + idx)));
                }
            }
            assert(key_bytes_wf(bytes@));
            lemma_scalar_seq_bytes_from_chunks(k.y@, bytes@, 132);
            assert(spec_secret_key_bytes(k) =~= bytes@);
        }
        Ok(k)
    }

    /// Overwrite all secret key material: every scalar with zero bytes, and
    /// the group element `big_w` (for which no zeroed bit pattern is a valid
    /// element) with the group identity, whose encoding is all zero bytes.
    pub fn zeroize(&mut self)
        ensures
            final(self).w@ == zeros32(),
            final(self).w_prime@ == zeros32(),
            final(self).x_0@ == zeros32(),
            final(self).x_1@ == zeros32(),
            final(self).y@.len() == old(self).y@.len(),
            forall|i: int| 0 <= i < final(self).y@.len() ==> (#[trigger] final(self).y@[i])@
                == zeros32(),
            final(self).big_w@ == zeros32(),
            point_wf(final(self).big_w),
    {
        self.w.zeroize();
        self.w_prime.zeroize();
        self.x_0.zeroize();
        self.x_1.zeroize();
        let mut i: usize = 0;
        while i < self.y.len()
            invariant
                i <= self.y@.len(),
                self.y@.len() == old(self).y@.len(),
                forall|j: int| 0 <= j < i ==> (#[trigger] self.y@[j])@ == zeros32(),
                self.w@ == zeros32(),
                self.w_prime@ == zeros32(),
                self.x_0@ == zeros32(),
                self.x_1@ == zeros32(),
            decreases self.y@.len() - i,
        {
            let mut s = self.y[i];
            s.zeroize();
            self.y[i] = s;
            i = i + 1;
        }
        self.big_w = Point::identity();
    }
}

/// Attributes are either group elements `M_i` or scalars `m_j`, lifted to
/// group elements as `M_j = g_m[j] * m_j` with the slot's generator from the
/// [`SystemParameters`].
///
/// When a credential is shown, each attribute may be revealed or hidden from
/// the issuer; these are all the valid attribute types.
#[derive(Clone)]
pub enum Attribute {
    /// A scalar attribute which is revealed upon credential presentation.
    PublicScalar(Scalar),
    /// A scalar attribute which is hidden upon credential presentation.
    SecretScalar(Scalar),
    /// A group element attribute which is always revealed upon credential
    /// presentation.
    PublicPoint(Point),
    /// A group element attribute which can be hidden or revealed upon
    /// credential presentation.
    EitherPoint(Plaintext),
    /// A group element attribute which is hidden upon credential
    /// presentation.
    SecretPoint(Plaintext),
}

/// A well-formed attribute carries a canonical scalar or a valid group
/// element.
pub open spec fn attribute_wf(a: Attribute) -> bool {
    match a {
        Attribute::PublicScalar(m) => scalar_wf(m),
        Attribute::SecretScalar(m) => scalar_wf(m),
        Attribute::PublicPoint(p) => point_wf(p),
        Attribute::EitherPoint(p) => plaintext_wf(p),
        Attribute::SecretPoint(p) => plaintext_wf(p),
    }
}

impl Attribute {
    /// Overwrite the secret attribute variants: the scalar of a
    /// `SecretScalar` with zero bytes, and the plaintext of a `SecretPoint`
    /// with the group identity.  Public (and either) variants carry no
    /// secret and are left untouched.
    pub fn zeroize(&mut self)
        ensures
            match *old(self) {
                Attribute::SecretScalar(_) => *final(self) matches Attribute::SecretScalar(s)
                    && s@ == zeros32(),
                Attribute::SecretPoint(_) => *final(self) matches Attribute::SecretPoint(p)
                    && p.m1@ == zeros32(),
                _ => *final(self) == *old(self),
            },
    {
        match self {
            Attribute::SecretScalar(s) => {
                s.zeroize();
            },
            Attribute::SecretPoint(p) => {
                p.zeroize();
            },
            _ => {},
        }
    }
}

/// The form attributes take during credential presentation, when hidden
/// scalars have been committed to and hidden group elements encrypted, each
/// to be proven in zero-knowledge elsewhere.  A data shape only: no
/// behaviour is defined on it here.
#[derive(Clone)]
pub enum EncryptedAttribute {
    /// A scalar attribute which is revealed upon credential presentation.
    PublicScalar(Scalar),
    /// A scalar attribute which is hidden upon credential presentation.
    SecretScalar,
    /// A group element attribute which is revealed upon credential
    /// presentation.
    PublicPoint(Point),
    /// A group element attribute which is hidden upon credential
    /// presentation.
    SecretPoint,
}

/// The group element an attribute contributes to the MAC: scalars are
/// lifted with the slot's generator, group elements pass through.
pub open spec fn spec_message_bytes(a: Attribute, g: Point) -> Seq<u8> {
    match a {
        Attribute::PublicScalar(m) => point_scale(m@, g@),
        Attribute::SecretScalar(m) => point_scale(m@, g@),
        Attribute::PublicPoint(p) => p@,
        Attribute::EitherPoint(p) => p.m1@,
        Attribute::SecretPoint(p) => p.m1@,
    }
}

/// The encodings of the messages derived from an attribute vector,
/// index-aligned with it and with the generators.
pub open spec fn spec_messages_of(attrs: Seq<Attribute>, gm: Seq<Point>) -> Seq<Seq<u8>> {
    Seq::new(attrs.len(), |i: int| spec_message_bytes(attrs[i], gm[i]))
}

/// Messages are the group elements the MAC equation is evaluated over,
/// derived from the attributes by lifting scalars with their slot's
/// generator `g_m[i]`.  Ephemeral: derived fresh for every tag or verify
/// call, never persisted.
pub struct Messages(pub Vec<Point>);

impl Messages {
    /// Derive the message vector from an attribute vector, positionally: a
    /// scalar attribute at index `i` becomes `g_m[i] * m`, a group element
    /// attribute passes through unchanged.
    pub fn from_attributes(attributes: &Vec<Attribute>, system_parameters: &SystemParameters) -> (r:
        Messages)
        requires
            system_parameters_wf(*system_parameters),
            attributes@.len() <= system_parameters.g_m@.len(),
            forall|i: int| 0 <= i < attributes@.len() ==> attribute_wf(#[trigger] attributes@[i]),
        ensures
            r.0@.len() == attributes@.len(),
            forall|i: int|
                0 <= i < attributes@.len() ==> (#[trigger] r.0@[i])@ == spec_message_bytes(
                    attributes@[i],
                    system_parameters.g_m@[i],
                ),
            forall|i: int| 0 <= i < r.0@.len() ==> point_wf(#[trigger] r.0@[i]),
    {
        let mut messages: Vec<Point> = Vec::new();
        let mut i: usize = 0;
        while i < attributes.len()
            invariant
                i <= attributes@.len(),
                attributes@.len() <= system_parameters.g_m@.len(),
                system_parameters_wf(*system_parameters),
                forall|j: int|
                    0 <= j < attributes@.len() ==> attribute_wf(#[trigger] attributes@[j]),
                messages@.len() == i,
                forall|j: int|
                    0 <= j < i ==> (#[trigger] messages@[j])@ == spec_message_bytes(
                        attributes@[j],
                        system_parameters.g_m@[j],
                    ),
                forall|j: int| 0 <= j < messages@.len() ==> point_wf(#[trigger] messages@[j]),
            decreases attributes@.len() - i,
        {
            let m_i: Point = match &attributes[i] {
                Attribute::PublicScalar(m) => point_scalar_mul(m, &system_parameters.g_m[i]),
                Attribute::SecretScalar(m) => point_scalar_mul(m, &system_parameters.g_m[i]),
                Attribute::PublicPoint(p) => *p,
                Attribute::EitherPoint(p) => p.m1,
                Attribute::SecretPoint(p) => p.m1,
            };
            messages.push(m_i);
            i = i + 1;
        }
        Messages(messages)
    }
}

/// An algebraic message authentication code `(t, U, V)`, with `t` a scalar
/// and `U`, `V` group elements.
#[derive(Clone, Debug)]
pub struct Amac {
    /// The random scalar of this tag.
    pub t: Scalar,
    /// The random group element of this tag.
    pub u: Point,
    /// The sole algebraically derived component:
    /// `V = W + U * x_0 + U * (x_1 * t) + sum_i y_i * M_i`.
    pub v: Point,
}

/// A well-formed tag: a canonical scalar and valid group elements.
pub open spec fn amac_wf(a: Amac) -> bool {
    &&& scalar_wf(a.t)
    &&& point_wf(a.u)
    &&& point_wf(a.v)
}

/// The encoding of `V = W + U * x_0 + U * (x_1 * t) + sum_i y_i * M_i`, the
/// algebraic MAC equation evaluated over the encodings of the key's
/// components, the derived messages, and the tag randomness `t` and `u`.
pub open spec fn spec_compute_v(
    k: SecretKey,
    gm: Seq<Point>,
    attrs: Seq<Attribute>,
    t: Seq<u8>,
    u: Seq<u8>,
) -> Seq<u8> {
    point_sum(
        point_sum(point_sum(k.big_w@, point_scale(k.x_0@, u)), point_scale(scalar_product(k.x_1@, t), u)),
        msm_value(
            k.y@.take(attrs.len() as int).map_values(|s: Scalar| s@),
            spec_messages_of(attrs, gm),
        ),
    )
}

/// Whether a tag is the one the key re-derives for this attribute vector:
/// exactly the condition under which [`Amac::verify`] accepts.
pub open spec fn spec_amac_accepts(
    amac: Amac,
    k: SecretKey,
    gm: Seq<Point>,
    attrs: Seq<Attribute>,
) -> bool {
    amac.v@ == spec_compute_v(k, gm, attrs, amac.t@, amac.u@)
}

/// Tag/verify completeness: a tag whose `V` component is the MAC equation
/// evaluated with a key over an attribute vector — which
/// [`Amac::tag`] ensures of every tag it returns — is accepted by
/// [`Amac::verify`] with the same key and the same attribute vector.
pub proof fn lemma_tag_verify_completeness(
    amac: Amac,
    secret_key: SecretKey,
    system_parameters: SystemParameters,
    attributes: Seq<Attribute>,
)
    requires
        amac.v@ == spec_compute_v(
            secret_key,
            system_parameters.g_m@,
            attributes,
            amac.t@,
            amac.u@,
        ),
    ensures
        spec_amac_accepts(amac, secret_key, system_parameters.g_m@, attributes),
{
}

impl Amac {
    /// Compute `V = W + U * x_0 + U * (x_1 * t) + sum_i y_i * M_i`, the
    /// summation batched as a single multiscalar multiplication.
    fn compute_v(
        system_parameters: &SystemParameters,
        secret_key: &SecretKey,
        attributes: &Vec<Attribute>,
        t: &Scalar,
        u: &Point,
    ) -> (r: Point)
        requires
            system_parameters_wf(*system_parameters),
            secret_key_wf(*secret_key),
            key_matches_parameters(*secret_key, *system_parameters),
            attributes@.len() <= system_parameters.g_m@.len(),
            forall|i: int| 0 <= i < attributes@.len() ==> attribute_wf(#[trigger] attributes@[i]),
            scalar_wf(*t),
            point_wf(*u),
        ensures
            r@ == spec_compute_v(*secret_key, system_parameters.g_m@, attributes@, t@, u@),
            point_wf(r),
    {
        let messages = Messages::from_attributes(attributes, system_parameters);

        // V = W + U * x_0 + U * (x_1 * t)
        let u_x0 = point_scalar_mul(&secret_key.x_0, u);
        let x1_t = scalar_mul(&secret_key.x_1, t);
        let u_x1_t = point_scalar_mul(&x1_t, u);
        let v_head = point_add(&point_add(&secret_key.big_w, &u_x0), &u_x1_t);

        // V += sum_i y_i * M_i
        let ys = slice_subrange(secret_key.y.as_slice(), 0, attributes.len());
        let summation = multiscalar_mul(ys, messages.0.as_slice());
        let v = point_add(&v_head, &summation);

        proof {
            assert(ys@.map_values(|s: Scalar| s@) =~= secret_key.y@.take(
                attributes@.len() as int,
            ).map_values(|s: Scalar| s@));
            assert(messages.0@.map_values(|p: Point| p@) =~= spec_messages_of(
                attributes@,
                system_parameters.g_m@,
            ));
        }
        v
    }

    /// Compute an algebraic message authentication code over a vector of
    /// attributes with a secret key.
    ///
    /// Fails with [`MacError::MessageLengthError`] exactly when more
    /// attributes are supplied than the parameters support; otherwise draws
    /// fresh random `t` and `U` and derives `V` from the MAC equation.
    pub fn tag(
        system_parameters: &SystemParameters,
        secret_key: &SecretKey,
        messages: &Vec<Attribute>,
    ) -> (r: Result<Amac, MacError>)
        requires
            system_parameters_wf(*system_parameters),
            secret_key_wf(*secret_key),
            key_matches_parameters(*secret_key, *system_parameters),
            forall|i: int| 0 <= i < messages@.len() ==> attribute_wf(#[trigger] messages@[i]),
        ensures
            r is Ok <==> messages@.len() <= system_parameters.g_m@.len(),
            r matches Ok(a) ==> amac_wf(a) && spec_amac_accepts(
                a,
                *secret_key,
                system_parameters.g_m@,
                messages@,
            ),
            r is Err ==> r == Err::<Amac, MacError>(
                MacError::MessageLengthError {
                    length: system_parameters.number_of_attributes as usize,
                },
            ),
    {
        if messages.len() > system_parameters.number_of_attributes as usize {
            return Err(
                MacError::MessageLengthError {
                    length: system_parameters.number_of_attributes as usize,
                },
            );
        }

        let t = Scalar::random();
        let u = Point::random();
        let v = Amac::compute_v(system_parameters, secret_key, messages, &t, &u);

        Ok(Amac { t, u, v })
    }

    /// Verify this algebraic MAC with respect to a secret key and a vector
    /// of attributes: re-derive `V` with the same equation and accept
    /// exactly when it equals this tag's `V`, comparing group elements in
    /// constant structure.  A mismatch is an expected outcome of verifying a
    /// forged or mismatched credential, reported as
    /// [`MacError::AuthenticationError`].
    pub fn verify(
        &self,
        system_parameters: &SystemParameters,
        secret_key: &SecretKey,
        messages: &Vec<Attribute>,
    ) -> (r: Result<(), MacError>)
        requires
            system_parameters_wf(*system_parameters),
            secret_key_wf(*secret_key),
            key_matches_parameters(*secret_key, *system_parameters),
            messages@.len() <= system_parameters.g_m@.len(),
            forall|i: int| 0 <= i < messages@.len() ==> attribute_wf(#[trigger] messages@[i]),
            amac_wf(*self),
        ensures
            r is Ok <==> spec_amac_accepts(*self, *secret_key, system_parameters.g_m@, messages@),
            r is Err ==> r == Err::<(), MacError>(MacError::AuthenticationError),
    {
        let v_prime = Amac::compute_v(system_parameters, secret_key, messages, &self.t, &self.u);

        if point_eq(&self.v, &v_prime) {
            Ok(())
        } else {
            Err(MacError::AuthenticationError)
        }
    }
}

} // verus!

