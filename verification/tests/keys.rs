use seeded_wallet::keys::{
    generate_key_pair, PublicKey, PUBLIC_KEY_LEN, SECRET_KEY_LEN, UNCOMPRESSED_MARKER,
};

fn generator_uncompressed() -> Vec<u8> {
    let mut encoded = vec![0x04u8];
    encoded.extend_from_slice(&secp256k1::constants::GENERATOR_X);
    encoded.extend_from_slice(&secp256k1::constants::GENERATOR_Y);
    encoded
}

#[test]
fn same_seed_gives_same_key_pair() {
    for seed in 0u64..32 {
        let first = generate_key_pair(seed);
        let second = generate_key_pair(seed);
        assert_eq!(first.0, second.0);
        assert_eq!(first.1, second.1);
        assert_eq!(first.0.secret_bytes(), second.0.secret_bytes());
        assert_eq!(
            first.1.serialize_uncompressed()[..],
            second.1.serialize_uncompressed()[..]
        );
    }
}

#[test]
fn extreme_seeds_have_key_pairs() {
    let zero = generate_key_pair(0);
    let max = generate_key_pair(u64::MAX);
    assert_ne!(zero.0, max.0);
    assert_ne!(zero.1, max.1);
    assert_eq!(zero.1.serialize_uncompressed()[0], 0x04);
    assert_eq!(max.1.serialize_uncompressed()[0], 0x04);
}

#[test]
fn distinct_seeds_give_distinct_secret_keys() {
    let keys: Vec<[u8; 32]> = (0u64..64)
        .map(|seed| generate_key_pair(seed).0.secret_bytes())
        .collect();
    for i in 0..keys.len() {
        for j in (i + 1)..keys.len() {
            assert_ne!(keys[i], keys[j]);
        }
    }
}

#[test]
fn key_lengths_and_marker() {
    assert_eq!(SECRET_KEY_LEN, 32);
    assert_eq!(PUBLIC_KEY_LEN, 65);
    assert_eq!(UNCOMPRESSED_MARKER, 0x04);
    for seed in 0u64..32 {
        let (secret, public) = generate_key_pair(seed);
        assert_eq!(secret.secret_bytes().len(), SECRET_KEY_LEN);
        let encoded = public.serialize_uncompressed();
        assert_eq!(encoded.len(), PUBLIC_KEY_LEN);
        assert_eq!(encoded[0], UNCOMPRESSED_MARKER);
    }
}

#[test]
fn secret_keys_are_scalars_in_range() {
    for seed in (0u64..64).chain([u64::MAX - 1, u64::MAX]) {
        let bytes = generate_key_pair(seed).0.secret_bytes();
        assert_ne!(bytes, [0u8; 32]);
        assert!(bytes < secp256k1::constants::CURVE_ORDER);
    }
}

#[test]
fn public_key_belongs_to_secret_key() {
    let secp = secp256k1::Secp256k1::new();
    for seed in 0u64..16 {
        let (secret, public) = generate_key_pair(seed);
        let scalar = secp256k1::SecretKey::from_slice(&secret.secret_bytes())
            .expect("a derived secret key is a valid scalar");
        let point = secp256k1::PublicKey::from_secret_key(&secp, &scalar);
        assert_eq!(
            public.serialize_uncompressed()[..],
            point.serialize_uncompressed()[..]
        );
    }
}

#[test]
fn seed_one_key_pair_is_pinned() {
    let (secret, public) = generate_key_pair(1);
    let expected_secret: [u8; 32] = [
        0xa1, 0xe1, 0xd4, 0x60, 0x5d, 0xce, 0x4a, 0x95, 0x75, 0xc2, 0xe8, 0xe7, 0x53, 0xfb, 0x3c,
        0x86, 0xaa, 0xfb, 0x32, 0x9e, 0x8f, 0x41, 0xad, 0xfb, 0x09, 0xb4, 0xe5, 0xcb, 0x73, 0x65,
        0xaa, 0x85,
    ];
    let expected_public: [u8; 65] = [
        0x04, 0x6d, 0xe8, 0xc7, 0xd1, 0x1b, 0x89, 0xa5, 0x97, 0x2a, 0x8c, 0x2e, 0xb2, 0x71, 0xb3,
        0x0a, 0x43, 0x76, 0x08, 0xa6, 0xf8, 0x68, 0x82, 0x44, 0xa6, 0xf8, 0x41, 0xad, 0xf8, 0xe3,
        0x78, 0x1c, 0x13, 0x20, 0xa7, 0x58, 0x9d, 0xf9, 0x82, 0x0b, 0x57, 0x28, 0xa7, 0xda, 0x31,
        0x0b, 0x60, 0x47, 0x83, 0x32, 0x1b, 0xc2, 0x68, 0x34, 0xab, 0x82, 0x1c, 0x44, 0xbb, 0x1e,
        0x1b, 0x12, 0xdd, 0x73, 0xb9,
    ];
    assert_eq!(secret.secret_bytes(), expected_secret);
    assert_eq!(public.serialize_uncompressed()[..], expected_public[..]);
}

#[test]
fn parses_uncompressed_generator() {
    let encoded = generator_uncompressed();
    let key = PublicKey::from_slice(&encoded).expect("the generator is on the curve");
    assert_eq!(key.serialize_uncompressed()[..], encoded[..]);
}

#[test]
fn parses_compressed_generator_into_uncompressed() {
    let mut compressed = vec![0x02u8];
    compressed.extend_from_slice(&secp256k1::constants::GENERATOR_X);
    let key = PublicKey::from_slice(&compressed).expect("the generator is on the curve");
    let encoded = key.serialize_uncompressed();
    assert_eq!(encoded.len(), 65);
    assert_eq!(encoded[..], generator_uncompressed()[..]);
    assert_eq!(
        Some(key),
        PublicKey::from_slice(&generator_uncompressed())
    );
}

#[test]
fn parses_hybrid_generator_into_uncompressed() {
    let mut hybrid = generator_uncompressed();
    hybrid[0] = 0x06;
    let key = PublicKey::from_slice(&hybrid).expect("the generator has an even Y");
    assert_eq!(key.serialize_uncompressed()[0], 0x04);
    assert_eq!(key.serialize_uncompressed()[..], generator_uncompressed()[..]);
    hybrid[0] = 0x07;
    assert_eq!(PublicKey::from_slice(&hybrid), None);
}

#[test]
fn rejects_what_is_no_point() {
    assert_eq!(PublicKey::from_slice(&[]), None);
    assert_eq!(PublicKey::from_slice(&[0x04]), None);
    assert_eq!(PublicKey::from_slice(&[0u8; 65]), None);
    assert_eq!(PublicKey::from_slice(&[0u8; 33]), None);
    let mut off_curve = generator_uncompressed();
    off_curve[64] ^= 1;
    assert_eq!(PublicKey::from_slice(&off_curve), None);
    let mut wrong_marker = generator_uncompressed();
    wrong_marker[0] = 0x05;
    assert_eq!(PublicKey::from_slice(&wrong_marker), None);
    let short = &generator_uncompressed()[..64];
    assert_eq!(PublicKey::from_slice(short), None);
}

#[test]
fn parsing_a_derived_key_gives_it_back() {
    for seed in 0u64..16 {
        let (_, public) = generate_key_pair(seed);
        let encoded = public.serialize_uncompressed();
        assert_eq!(PublicKey::from_slice(&encoded), Some(public));
    }
}
