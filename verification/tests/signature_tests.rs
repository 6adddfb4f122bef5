use near_primitives::errors::ParseError;
use near_primitives::signature::{
    get_key_pair, sign, verify, PublicKey, SecretKey, Signature, WirePublicKey, ED25519_KEY_TYPE,
    PUBLIC_KEY_LENGTH, SECRET_KEY_LENGTH, SIGNATURE_LENGTH,
};

#[test]
fn test_verify() {
    let (public_key, private_key) = get_key_pair();
    let data = b"123";
    let signature = sign(data, &private_key);
    assert!(verify(data, &signature, &public_key));
}

#[test]
fn test_verify_rejects_tampered_data() {
    let (public_key, private_key) = get_key_pair();
    let signature = sign(b"123", &private_key);
    assert!(!verify(b"124", &signature, &public_key));
    assert!(!verify(b"", &signature, &public_key));
}

#[test]
fn test_verify_rejects_wrong_key() {
    let (_, private_key) = get_key_pair();
    let (other_public_key, _) = get_key_pair();
    let data = b"123";
    let signature = sign(data, &private_key);
    assert!(!verify(data, &signature, &other_public_key));
}

#[test]
fn test_end_to_end_flipped_byte() {
    let (public_key, private_key) = get_key_pair();
    let data = b"123";
    let signature = sign(data, &private_key);
    assert!(verify(data, &signature, &public_key));
    let mut raw = signature.to_vec();
    raw[10] ^= 0xff;
    let tampered = Signature::try_from_bytes(&raw).unwrap();
    assert!(!verify(data, &tampered, &public_key));
}

#[test]
fn test_byte_round_trip() {
    let (public_key, secret_key) = get_key_pair();
    let signature = sign(b"round trip", &secret_key);

    let pk = PublicKey::try_from_bytes(&public_key.to_vec()).unwrap();
    assert!(pk == public_key);
    let sk = SecretKey::try_from_bytes(&secret_key.to_vec()).unwrap();
    assert!(sk == secret_key);
    let sig = Signature::try_from_bytes(&signature.to_vec()).unwrap();
    assert!(sig == signature);
}

#[test]
fn test_string_round_trip() {
    let (public_key, secret_key) = get_key_pair();
    let signature = sign(b"round trip", &secret_key);

    let pk = PublicKey::try_from_str(&public_key.to_base()).unwrap();
    assert!(pk == public_key);
    let sk = SecretKey::try_from_str(&secret_key.to_base()).unwrap();
    assert!(sk == secret_key);
    let sig = Signature::try_from_str(&signature.to_base()).unwrap();
    assert!(sig == signature);
}

#[test]
fn test_size_validation() {
    for n in [0usize, 31, 33, 64] {
        let buf = vec![7u8; n];
        let r = PublicKey::try_from_bytes(&buf);
        if n == PUBLIC_KEY_LENGTH {
            assert!(r.is_ok());
        } else {
            assert_eq!(
                r.err().unwrap(),
                ParseError::SizeMismatch { expected: PUBLIC_KEY_LENGTH, actual: n }
            );
        }
    }
    for n in [0usize, 32, 63, 65] {
        let buf = vec![7u8; n];
        let sk = SecretKey::try_from_bytes(&buf);
        let sig = Signature::try_from_bytes(&buf);
        if n == SECRET_KEY_LENGTH {
            assert!(sk.is_ok());
            assert!(sig.is_ok());
        } else {
            assert_eq!(
                sk.err().unwrap(),
                ParseError::SizeMismatch { expected: SECRET_KEY_LENGTH, actual: n }
            );
            assert_eq!(
                sig.err().unwrap(),
                ParseError::SizeMismatch { expected: SIGNATURE_LENGTH, actual: n }
            );
        }
    }
}

#[test]
fn test_empty_key_canonical_text() {
    // 32 zero bytes encode to 32 base-58 "ones" under the bitcoin alphabet.
    let empty = PublicKey::empty();
    assert_eq!(empty.to_base(), "11111111111111111111111111111111");
    let decoded = PublicKey::try_from_str("11111111111111111111111111111111").unwrap();
    assert!(decoded == empty);
    assert_eq!(empty.to_vec(), vec![0u8; PUBLIC_KEY_LENGTH]);
}

#[test]
fn test_try_from_str_decode_error() {
    // '0' and 'O' are not in the base-58 alphabet.
    assert_eq!(PublicKey::try_from_str("0O0O").err().unwrap(), ParseError::DecodeError);
    assert_eq!(SecretKey::try_from_str("not-base58!").err().unwrap(), ParseError::DecodeError);
    assert_eq!(Signature::try_from_str("l1l1").err().unwrap(), ParseError::DecodeError);
}

#[test]
fn test_try_from_str_wrong_length() {
    // "abc" is valid base-58 but decodes to fewer bytes than a key holds.
    let err = PublicKey::try_from_str("abc").err().unwrap();
    match err {
        ParseError::SizeMismatch { expected, actual } => {
            assert_eq!(expected, PUBLIC_KEY_LENGTH);
            assert!(actual != PUBLIC_KEY_LENGTH);
        }
        other => panic!("expected a size mismatch, got {:?}", other),
    }
}

#[test]
fn test_to_readable() {
    let (public_key, _) = get_key_pair();
    assert_eq!(public_key.to_readable().0, public_key.to_base());
}

#[test]
fn test_default_signature_is_all_zero() {
    assert_eq!(Signature::default().to_vec(), vec![0u8; SIGNATURE_LENGTH]);
}

#[test]
fn test_public_key_equality_and_order() {
    let low = vec![0u8; PUBLIC_KEY_LENGTH];
    let mut mid = vec![0u8; PUBLIC_KEY_LENGTH];
    let mut high = vec![0u8; PUBLIC_KEY_LENGTH];
    mid[31] = 1;
    high[0] = 1;
    let a = PublicKey::try_from_bytes(&low).unwrap();
    let b = PublicKey::try_from_bytes(&mid).unwrap();
    let c = PublicKey::try_from_bytes(&high).unwrap();

    assert!(a == PublicKey::empty());
    assert!(a != b);
    assert!(a < b);
    assert!(b < c);
    assert!(a < c);
    assert!(!(b < a));
    assert!(a <= a);
    assert!(c > b);
}

#[test]
fn test_wire_round_trip() {
    let (public_key, _) = get_key_pair();
    let wire = public_key.to_wire();
    assert_eq!(wire.key_type, ED25519_KEY_TYPE);
    assert_eq!(wire.data, public_key.to_vec());
    let back = PublicKey::try_from_wire(&wire).unwrap();
    assert!(back == public_key);
}

#[test]
fn test_wire_rejects_unknown_tag() {
    let (public_key, _) = get_key_pair();
    let wire = WirePublicKey { key_type: ED25519_KEY_TYPE + 1, data: public_key.to_vec() };
    assert_eq!(PublicKey::try_from_wire(&wire).err().unwrap(), ParseError::UnsupportedKeyType);
}

#[test]
fn test_wire_rejects_wrong_size() {
    let wire = WirePublicKey { key_type: ED25519_KEY_TYPE, data: vec![1u8; 16] };
    assert_eq!(
        PublicKey::try_from_wire(&wire).err().unwrap(),
        ParseError::SizeMismatch { expected: PUBLIC_KEY_LENGTH, actual: 16 }
    );
}

#[test]
fn test_sign_is_deterministic() {
    let (_, secret_key) = get_key_pair();
    let first = sign(b"123", &secret_key);
    let second = sign(b"123", &secret_key);
    assert!(first == second);
}
