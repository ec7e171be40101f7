use vrf_cards::identity::{Identity, PublicKey};

#[test]
fn public_key_is_the_one_schnorrkel_derives() {
    let mut secret = [0u8; 64];
    secret[0] = 9;
    secret[40] = 1;
    let identity = Identity::from_secret_bytes(&secret).unwrap();
    let expected = schnorrkel::SecretKey::from_bytes(&secret).unwrap().to_public().to_bytes();
    assert_eq!(identity.public_key().to_bytes(), expected);
    assert_ne!(&identity.public_key().to_bytes()[..], &secret[..32]);
    assert_eq!(identity.secret_bytes(), secret);
}

#[test]
fn secret_key_with_scalar_one_has_the_base_point() {
    let mut secret = [0u8; 64];
    secret[0] = 1;
    let identity = Identity::from_secret_bytes(&secret).unwrap();
    // The Ristretto base point.
    let base: [u8; 32] = [
        0xe2, 0xf2, 0xae, 0x0a, 0x6a, 0xbc, 0x4e, 0x71, 0xa8, 0x84, 0xa9, 0x61, 0xc5, 0x00, 0x51,
        0x5f, 0x58, 0xe3, 0x0b, 0x6a, 0xa5, 0x82, 0xdd, 0x8d, 0xb6, 0xa6, 0x59, 0x45, 0xe0, 0x8d,
        0x2d, 0x76,
    ];
    assert_eq!(identity.public_key().to_bytes(), base);
}

#[test]
fn secret_key_needs_a_scalar_below_the_group_order() {
    let order: [u8; 32] = [
        0xed, 0xd3, 0xf5, 0x5c, 0x1a, 0x63, 0x12, 0x58, 0xd6, 0x9c, 0xf7, 0xa2, 0xde, 0xf9, 0xde,
        0x14, 0, 0, 0, 0, 0, 0, 0, 0, 0, 0, 0, 0, 0, 0, 0, 0x10,
    ];
    let mut secret = [0u8; 64];
    secret[..32].copy_from_slice(&order);
    assert!(Identity::from_secret_bytes(&secret).is_none());
    secret[0] -= 1;
    assert!(Identity::from_secret_bytes(&secret).is_some());
    secret[0] += 2;
    assert!(Identity::from_secret_bytes(&secret).is_none());
    assert!(Identity::from_secret_bytes(&[255u8; 64]).is_none());
    assert!(Identity::from_secret_bytes(&[0u8; 64]).is_some());
    // The nonce seed is free.
    let mut free = [255u8; 64];
    for i in 0..32 {
        free[i] = 0;
    }
    assert!(Identity::from_secret_bytes(&free).is_some());
}

#[test]
fn generated_identities_are_valid_and_differ() {
    let first = Identity::generate();
    let second = Identity::generate();
    assert_ne!(first.secret_bytes(), second.secret_bytes());
    assert_ne!(first.public_key(), second.public_key());
    let again = Identity::from_secret_bytes(&first.secret_bytes()).unwrap();
    assert_eq!(again.public_key(), first.public_key());
}

#[test]
fn public_key_keeps_its_bytes() {
    let bytes = [7u8; 32];
    assert_eq!(PublicKey::from_bytes(bytes).to_bytes(), bytes);
}
