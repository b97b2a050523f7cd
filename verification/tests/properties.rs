use amacs::Amac;
use amacs::Attribute;
use amacs::MacError;
use amacs::Plaintext;
use amacs::Point;
use amacs::Scalar;
use amacs::SecretKey;
use amacs::SystemParameters;
use amacs::sizeof_secret_key;

fn sample_attributes(n: usize) -> Vec<Attribute> {
    let mut attributes = Vec::new();
    for i in 0..n {
        match i % 5 {
            0 => attributes.push(Attribute::PublicScalar(Scalar::random())),
            1 => attributes.push(Attribute::SecretScalar(Scalar::random())),
            2 => attributes.push(Attribute::PublicPoint(Point::random())),
            3 => attributes.push(Attribute::EitherPoint(Plaintext::from_bytes(&[3u8; 30]))),
            _ => attributes.push(Attribute::SecretPoint(Plaintext::from_bytes(&[4u8; 30]))),
        }
    }
    attributes
}

#[test]
fn generated_w_is_nonzero_for_several_keys() {
    let params = SystemParameters::generate(1);
    for _ in 0..8 {
        let sk = SecretKey::generate(&params);
        assert!(sk.w.to_bytes() != [0u8; 32]);
    }
}

#[test]
fn round_trip_reproduces_key_exactly() {
    for n in [1u32, 3, 8] {
        let params = SystemParameters::generate(n);
        let sk = SecretKey::generate(&params);
        let bytes = sk.to_bytes();
        let sk_prime = SecretKey::from_bytes(&bytes).unwrap();
        assert_eq!(sk_prime.to_bytes(), bytes);
        assert_eq!(sk_prime.w.to_bytes(), sk.w.to_bytes());
        assert_eq!(sk_prime.w_prime.to_bytes(), sk.w_prime.to_bytes());
        assert_eq!(sk_prime.x_0.to_bytes(), sk.x_0.to_bytes());
        assert_eq!(sk_prime.x_1.to_bytes(), sk.x_1.to_bytes());
        assert_eq!(sk_prime.y.len(), sk.y.len());
        for i in 0..sk.y.len() {
            assert_eq!(sk_prime.y[i].to_bytes(), sk.y[i].to_bytes());
        }
        assert_eq!(sk_prime.big_w.to_bytes(), sk.big_w.to_bytes());
    }
}

#[test]
fn serialised_size_follows_formula() {
    assert_eq!(sizeof_secret_key(1), 196);
    assert_eq!(sizeof_secret_key(5), 324);
    for n in [1u32, 2, 5, 9] {
        let params = SystemParameters::generate(n);
        let sk = SecretKey::generate(&params);
        assert_eq!(sk.to_bytes().len(), 32 * (5 + n as usize) + 4);
    }
}

#[test]
fn tag_and_verify_succeed_up_to_capacity() {
    let params = SystemParameters::generate(5);
    let sk = SecretKey::generate(&params);
    for n in 0..=5usize {
        let attributes = sample_attributes(n);
        let amac = Amac::tag(&params, &sk, &attributes).unwrap();
        assert!(amac.verify(&params, &sk, &attributes).is_ok());
    }
}

#[test]
fn tag_rejects_overlong_attribute_vector() {
    let params = SystemParameters::generate(2);
    let sk = SecretKey::generate(&params);
    let attributes = sample_attributes(3);
    let r = Amac::tag(&params, &sk, &attributes);
    assert_eq!(r.unwrap_err(), MacError::MessageLengthError { length: 2 });
}

#[test]
fn verify_rejects_different_key() {
    let params = SystemParameters::generate(4);
    let sk = SecretKey::generate(&params);
    let other = SecretKey::generate(&params);
    let attributes = sample_attributes(4);
    let amac = Amac::tag(&params, &sk, &attributes).unwrap();
    assert_eq!(amac.verify(&params, &other, &attributes).unwrap_err(), MacError::AuthenticationError);
}

#[test]
fn verify_rejects_changed_attribute() {
    let params = SystemParameters::generate(4);
    let sk = SecretKey::generate(&params);
    let attributes = sample_attributes(4);
    let amac = Amac::tag(&params, &sk, &attributes).unwrap();
    let mut changed = attributes.clone();
    changed[0] = Attribute::PublicScalar(Scalar::random());
    assert_eq!(amac.verify(&params, &sk, &changed).unwrap_err(), MacError::AuthenticationError);
}

#[test]
fn verify_rejects_tampered_tag() {
    let params = SystemParameters::generate(3);
    let sk = SecretKey::generate(&params);
    let attributes = sample_attributes(3);
    let amac = Amac::tag(&params, &sk, &attributes).unwrap();

    let mut bad_t = amac.clone();
    bad_t.t = Scalar::random();
    assert_eq!(bad_t.verify(&params, &sk, &attributes).unwrap_err(), MacError::AuthenticationError);

    let mut bad_u = amac.clone();
    bad_u.u = Point::random();
    assert_eq!(bad_u.verify(&params, &sk, &attributes).unwrap_err(), MacError::AuthenticationError);

    let mut bad_v = amac.clone();
    bad_v.v = Point::random();
    assert_eq!(bad_v.verify(&params, &sk, &attributes).unwrap_err(), MacError::AuthenticationError);
}

#[test]
fn from_bytes_rejects_truncated_input() {
    let params = SystemParameters::generate(2);
    let sk = SecretKey::generate(&params);
    let bytes = sk.to_bytes();
    assert_eq!(SecretKey::from_bytes(&[]).unwrap_err(), MacError::KeypairDeserialisation);
    assert_eq!(SecretKey::from_bytes(&bytes[..100]).unwrap_err(), MacError::KeypairDeserialisation);
    assert_eq!(
        SecretKey::from_bytes(&bytes[..bytes.len() - 1]).unwrap_err(),
        MacError::KeypairDeserialisation
    );
}

#[test]
fn from_bytes_rejects_wrong_count() {
    let params = SystemParameters::generate(2);
    let sk = SecretKey::generate(&params);
    let mut bytes = sk.to_bytes();
    // Claim three attributes while carrying two.
    bytes[0] = 3;
    assert_eq!(SecretKey::from_bytes(&bytes).unwrap_err(), MacError::KeypairDeserialisation);
}

#[test]
fn from_bytes_rejects_non_canonical_scalar() {
    let params = SystemParameters::generate(2);
    let sk = SecretKey::generate(&params);
    let mut bytes = sk.to_bytes();
    // 2^256 - 1 is far above the group order, so this encoding is not
    // canonical for any of the scalar fields.
    for b in bytes.iter_mut().take(36).skip(4) {
        *b = 0xff;
    }
    assert_eq!(SecretKey::from_bytes(&bytes).unwrap_err(), MacError::KeypairDeserialisation);
}

#[test]
fn from_bytes_rejects_invalid_point_encoding() {
    let params = SystemParameters::generate(2);
    let sk = SecretKey::generate(&params);
    let mut bytes = sk.to_bytes();
    let len = bytes.len();
    for b in bytes.iter_mut().skip(len - 32) {
        *b = 0xff;
    }
    assert_eq!(SecretKey::from_bytes(&bytes).unwrap_err(), MacError::KeypairDeserialisation);
}

#[test]
fn scalar_codec_accepts_only_canonical_encodings() {
    assert!(Scalar::from_canonical_bytes(&[0xffu8; 32]).is_none());
    let mut one = [0u8; 32];
    one[0] = 1;
    let s = Scalar::from_canonical_bytes(&one).unwrap();
    assert_eq!(s.to_bytes(), one);
    let r = Scalar::random();
    let back = Scalar::from_canonical_bytes(&r.to_bytes()).unwrap();
    assert_eq!(back.to_bytes(), r.to_bytes());
}

#[test]
fn point_codec_accepts_only_valid_encodings() {
    assert!(Point::from_bytes(&[0xffu8; 32]).is_none());
    // The identity element encodes as all zero bytes.
    assert!(Point::from_bytes(&[0u8; 32]).is_some());
    let p = Point::random();
    let back = Point::from_bytes(&p.to_bytes()).unwrap();
    assert_eq!(back.to_bytes(), p.to_bytes());
}

#[test]
fn random_scalars_and_points_differ() {
    assert!(Scalar::random().to_bytes() != Scalar::random().to_bytes());
    assert!(Point::random().to_bytes() != Point::random().to_bytes());
    assert!(Scalar::random_nonzero().to_bytes() != [0u8; 32]);
}

#[test]
fn plaintexts_from_different_messages_differ() {
    let p0 = Plaintext::from_bytes(&[0u8; 30]);
    let p1 = Plaintext::from_bytes(&[1u8; 30]);
    let p1_again = Plaintext::from_bytes(&[1u8; 30]);
    assert!(p0.m1.to_bytes() != p1.m1.to_bytes());
    assert_eq!(p1.m1.to_bytes(), p1_again.m1.to_bytes());
}

#[test]
fn secret_key_zeroize_clears_material() {
    let params = SystemParameters::generate(3);
    let mut sk = SecretKey::generate(&params);
    sk.zeroize();
    let bytes = sk.to_bytes();
    // The attribute count survives; every scalar and the group element read
    // as zero (the group element is the identity, which encodes as zeroes).
    assert_eq!(&bytes[..4], &3u32.to_le_bytes());
    assert!(bytes[4..].iter().all(|&b| b == 0));
}

#[test]
fn attribute_zeroize_clears_only_secret_variants() {
    let mut secret_scalar = Attribute::SecretScalar(Scalar::random());
    secret_scalar.zeroize();
    match secret_scalar {
        Attribute::SecretScalar(s) => assert_eq!(s.to_bytes(), [0u8; 32]),
        _ => panic!("variant changed by erasure"),
    }

    let mut secret_point = Attribute::SecretPoint(Plaintext::from_bytes(&[7u8; 30]));
    secret_point.zeroize();
    match secret_point {
        Attribute::SecretPoint(p) => assert_eq!(p.m1.to_bytes(), [0u8; 32]),
        _ => panic!("variant changed by erasure"),
    }

    let kept = Scalar::random();
    let mut public_scalar = Attribute::PublicScalar(kept);
    public_scalar.zeroize();
    match public_scalar {
        Attribute::PublicScalar(s) => assert_eq!(s.to_bytes(), kept.to_bytes()),
        _ => panic!("variant changed by erasure"),
    }
}

#[test]
fn empty_attribute_vector_tags_and_verifies() {
    let params = SystemParameters::generate(1);
    let sk = SecretKey::generate(&params);
    let attributes: Vec<Attribute> = Vec::new();
    let amac = Amac::tag(&params, &sk, &attributes).unwrap();
    assert!(amac.verify(&params, &sk, &attributes).is_ok());
}
