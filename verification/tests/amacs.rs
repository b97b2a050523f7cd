use amacs::Amac;
use amacs::Attribute;
use amacs::Plaintext;
use amacs::Point;
use amacs::Scalar;
use amacs::SecretKey;
use amacs::SystemParameters;
use amacs::sizeof_secret_key;

#[test]
fn secret_key_generate() {
    let params = SystemParameters::generate(2);
    let sk = SecretKey::generate(&params);

    assert!(sk.w.to_bytes() != [0u8; 32]);
}

#[test]
fn secret_key_from_bytes_2_attributes() {
    let params = SystemParameters::generate(2);
    let sk = SecretKey::generate(&params);
    let bytes = sk.to_bytes();
    let sk_prime = SecretKey::from_bytes(&bytes);

    assert!(sk_prime.is_ok());
}

#[test]
fn secret_key_sizeof() {
    let params = SystemParameters::generate(2);
    let sk = SecretKey::generate(&params);
    let sizeof = sizeof_secret_key(2);
    let serialised = sk.to_bytes();

    // We use 4 bytes for storing the number of attributes.
    assert!(sizeof == serialised.len(), "{} != {}", sizeof, serialised.len());
}

#[test]
fn amac_verification() {
    let params = SystemParameters::generate(8);
    let sk = SecretKey::generate(&params);
    let mut messages = Vec::new();

    let p1: Plaintext = Plaintext::from_bytes(&[0u8; 30]);
    let p2: Plaintext = Plaintext::from_bytes(&[1u8; 30]);
    let p3: Plaintext = Plaintext::from_bytes(&[2u8; 30]);

    messages.push(Attribute::PublicScalar(Scalar::random()));
    messages.push(Attribute::SecretPoint(p1));
    messages.push(Attribute::PublicScalar(Scalar::random()));
    messages.push(Attribute::SecretPoint(p2));
    messages.push(Attribute::SecretPoint(p3));
    messages.push(Attribute::SecretScalar(Scalar::random()));
    messages.push(Attribute::PublicPoint(Point::random()));
    messages.push(Attribute::PublicScalar(Scalar::random()));

    let amac = Amac::tag(&params, &sk, &messages).unwrap();

    assert!(amac.verify(&params, &sk, &messages).is_ok());
}
