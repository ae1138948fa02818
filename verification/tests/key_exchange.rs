use rand_core::OsRng;
use tls_keys::curve::{P256Secret, X25519Secret};
use tls_keys::key_exchange::{to_array, write_front, EphemeralSecret, NamedGroup, SharedSecret};

fn hex(text: &str) -> Vec<u8> {
    (0..text.len() / 2).map(|i| u8::from_str_radix(&text[2 * i..2 * i + 2], 16).unwrap()).collect()
}

fn counting_from(first: u8) -> [u8; 32] {
    let mut bytes = [0u8; 32];
    for (i, b) in bytes.iter_mut().enumerate() {
        *b = first + i as u8;
    }
    bytes
}

const P256_A: &str = "04515c3d6eb9e396b904d3feca7f54fdcd0cc1e997bf375dca515ad0a6c3b4035f4536be3a50f318fbf9a5475902a221502bef0d57e08c53b2cc0a56f17d9f9354";
const P256_B: &str = "04254ee6d1bad1c74ce2fd28ac529a166af4950a0e3da0bc53d96bf40dce38ebe7df5937f11e869d453729a222f63e709d0740b97544e1416b1e5a401b385fb950";
const P256_B_COMPRESSED: &str = "02254ee6d1bad1c74ce2fd28ac529a166af4950a0e3da0bc53d96bf40dce38ebe7";
const P256_AB: &str = "06ffe83794e29d2f01c6bf4366e57da374a099401b7812d3d7ca2f0782a4e96e";
const X25519_A: &str = "07a37cbc142093c8b755dc1b10e86cb426374ad16aa853ed0bdfc0b2b86d1c7c";
const X25519_B: &str = "5714769d116bf76436ae74bc793d2c30ad1903c59ac5273805c7e2698b410c36";
const X25519_AB: &str = "c9ea6a3f79a000b60b076d4afc990b272f3f0b5aaa3f0b8713c209273e363863";
const P256_ORDER: &str = "ffffffff00000000ffffffffffffffffbce6faada7179e84f3b9cac2fc632551";
const P256_LAST: &str = "ffffffff00000000ffffffffffffffffbce6faada7179e84f3b9cac2fc632550";

fn secret(group: NamedGroup, first: u8) -> EphemeralSecret {
    EphemeralSecret::from_secret_bytes(group, counting_from(first)).unwrap()
}

fn shared(s: Option<SharedSecret>) -> Vec<u8> {
    s.unwrap().raw_secret_bytes().to_vec()
}

#[test]
fn p256_public_key_is_the_uncompressed_point() {
    let mut buf = [0xeeu8; 128];
    let written = secret(NamedGroup::Secp256r1, 1).public_key_bytes(&mut buf).to_vec();
    assert_eq!(written, hex(P256_A));
    assert_eq!(buf[..65].to_vec(), written);
    assert_eq!(buf[65..].to_vec(), vec![0xeeu8; 63]);
}

#[test]
fn x25519_public_key_is_32_bytes() {
    let mut buf = [0xeeu8; 128];
    let written = secret(NamedGroup::X25519, 1).public_key_bytes(&mut buf).to_vec();
    assert_eq!(written, hex(X25519_A));
    assert_eq!(buf[32..].to_vec(), vec![0xeeu8; 96]);
}

#[test]
fn p256_shares_the_x_coordinate() {
    let a = secret(NamedGroup::Secp256r1, 1);
    assert_eq!(shared(a.diffie_hellman(&hex(P256_B))), hex(P256_AB));
    let b = secret(NamedGroup::Secp256r1, 101);
    assert_eq!(shared(b.diffie_hellman(&hex(P256_A))), hex(P256_AB));
}

#[test]
fn p256_takes_a_compressed_point() {
    let a = secret(NamedGroup::Secp256r1, 1);
    assert_eq!(shared(a.diffie_hellman(&hex(P256_B_COMPRESSED))), hex(P256_AB));
}

#[test]
fn p256_tags_pick_a_y_coordinate() {
    // Both points of an x-coordinate share the same x-coordinate.
    for tag in [2u8, 3, 5] {
        let mut encoded = hex(P256_B_COMPRESSED);
        encoded[0] = tag;
        let a = secret(NamedGroup::Secp256r1, 1);
        assert_eq!(shared(a.diffie_hellman(&encoded)), hex(P256_AB));
    }
    // No y-coordinate goes with 1, one goes with 5, and 5 plus the prime of the
    // field is no coordinate.
    let with_x = |x: Vec<u8>| {
        let encoded = [vec![2u8], x].concat();
        secret(NamedGroup::Secp256r1, 1).diffie_hellman(&encoded)
    };
    let mut x = vec![0u8; 32];
    x[31] = 1;
    assert!(with_x(x.clone()).is_none());
    x[31] = 5;
    assert!(with_x(x).is_some());
    let beyond = hex("ffffffff00000001000000000000000000000001000000000000000000000004");
    assert!(with_x(beyond).is_none());
}

#[test]
fn p256_keys_are_accepted_whatever_the_secret() {
    let mut off_curve = hex(P256_B);
    off_curve[64] ^= 1;
    for first in [1u8, 50, 101] {
        assert!(secret(NamedGroup::Secp256r1, first).diffie_hellman(&hex(P256_A)).is_some());
        assert!(secret(NamedGroup::Secp256r1, first).diffie_hellman(&off_curve).is_none());
    }
}

#[test]
fn x25519_shares_a_secret() {
    let a = secret(NamedGroup::X25519, 1);
    assert_eq!(shared(a.diffie_hellman(&hex(X25519_B))), hex(X25519_AB));
    let b = secret(NamedGroup::X25519, 101);
    assert_eq!(shared(b.diffie_hellman(&hex(X25519_A))), hex(X25519_AB));
}

#[test]
fn p256_refuses_what_is_no_point() {
    let a = || secret(NamedGroup::Secp256r1, 1);
    assert!(a().diffie_hellman(&[]).is_none());
    assert!(a().diffie_hellman(&[0]).is_none());
    assert!(a().diffie_hellman(&hex(X25519_B)).is_none());
    let mut off_curve = hex(P256_B);
    off_curve[64] ^= 1;
    assert!(a().diffie_hellman(&off_curve).is_none());
    let mut wrong_tag = hex(P256_B);
    wrong_tag[0] = 6;
    assert!(a().diffie_hellman(&wrong_tag).is_none());
    let mut long = hex(P256_B);
    long.push(0);
    assert!(a().diffie_hellman(&long).is_none());
}

#[test]
fn x25519_refuses_other_lengths() {
    let a = || secret(NamedGroup::X25519, 1);
    assert!(a().diffie_hellman(&[]).is_none());
    assert!(a().diffie_hellman(&[9u8; 31]).is_none());
    assert!(a().diffie_hellman(&[9u8; 33]).is_none());
    assert!(a().diffie_hellman(&hex(P256_B)).is_none());
}

#[test]
fn only_x25519_is_not_p256() {
    let others = [
        NamedGroup::Secp256r1,
        NamedGroup::Secp384r1,
        NamedGroup::Secp521r1,
        NamedGroup::X448,
        NamedGroup::Ffdhe2048,
        NamedGroup::Ffdhe3072,
        NamedGroup::Ffdhe4096,
        NamedGroup::Ffdhe6144,
        NamedGroup::Ffdhe8192,
    ];
    for group in others {
        assert_eq!(EphemeralSecret::random(group, &mut OsRng).group(), NamedGroup::Secp256r1);
        assert_eq!(secret(group, 1).group(), NamedGroup::Secp256r1);
    }
    let x = EphemeralSecret::random(NamedGroup::X25519, &mut OsRng);
    assert_eq!(x.group(), NamedGroup::X25519);
    assert_eq!(secret(NamedGroup::X25519, 1).group(), NamedGroup::X25519);
}

#[test]
fn random_secrets_agree() {
    for group in [NamedGroup::Secp256r1, NamedGroup::X25519] {
        let a = EphemeralSecret::random(group, &mut OsRng);
        let b = EphemeralSecret::random(group, &mut OsRng);
        let (mut buf_a, mut buf_b) = ([0u8; 128], [0u8; 128]);
        let public_a = a.public_key_bytes(&mut buf_a).to_vec();
        let public_b = b.public_key_bytes(&mut buf_b).to_vec();
        assert_ne!(public_a, public_b);
        assert_eq!(shared(a.diffie_hellman(&public_b)), shared(b.diffie_hellman(&public_a)));
    }
}

#[test]
fn p256_secrets_run_from_one_to_the_order() {
    let make = |bytes: Vec<u8>| {
        EphemeralSecret::from_secret_bytes(NamedGroup::Secp256r1, to_array(&bytes).unwrap())
    };
    assert!(make(vec![0u8; 32]).is_none());
    assert!(make(hex(P256_ORDER)).is_none());
    assert!(make(vec![0xffu8; 32]).is_none());
    let last = make(hex(P256_LAST)).unwrap();
    let mut buf = [0u8; 128];
    // The negative of the generator has the generator's x-coordinate.
    assert_eq!(
        last.public_key_bytes(&mut buf)[..33].to_vec(),
        hex("046b17d1f2e12c4247f8bce6e563a440f277037d812deb33a0f4a13945d898c296")
    );
    let mut one = vec![0u8; 32];
    one[31] = 1;
    assert!(make(one).is_some());
}

#[test]
fn x25519_takes_any_bytes() {
    assert!(EphemeralSecret::from_secret_bytes(NamedGroup::X25519, [0u8; 32]).is_some());
    assert!(EphemeralSecret::from_secret_bytes(NamedGroup::X25519, [0xffu8; 32]).is_some());
}

#[test]
fn group_secrets_stand_alone() {
    let p = P256Secret::from_bytes(counting_from(1)).unwrap();
    assert_eq!(p.public_key(), hex(P256_A));
    assert_eq!(p.diffie_hellman(&hex(P256_B)).unwrap().to_vec(), hex(P256_AB));
    assert!(P256Secret::from_bytes([0u8; 32]).is_none());
    let x = X25519Secret::from_bytes(counting_from(1));
    assert_eq!(x.public_key().to_vec(), hex(X25519_A));
    let public = to_array(&hex(X25519_B)).unwrap();
    assert_eq!(x.diffie_hellman(&public).to_vec(), hex(X25519_AB));
}

#[test]
fn slices_and_arrays() {
    assert_eq!(to_array(&counting_from(5)), Some(counting_from(5)));
    assert_eq!(to_array(&[1u8; 31]), None);
    assert_eq!(to_array(&[1u8; 33]), None);
    let mut buf = [7u8; 128];
    assert_eq!(write_front(&mut buf, &[1, 2, 3]).to_vec(), vec![1, 2, 3]);
    assert_eq!(buf[..5].to_vec(), vec![1, 2, 3, 7, 7]);
    assert_eq!(write_front(&mut buf, &[]).to_vec(), Vec::<u8>::new());
    assert_eq!(write_front(&mut buf, &[9u8; 128]).to_vec(), vec![9u8; 128]);
}
