use fastcrypto::ed25519::Ed25519KeyPair;
use fastcrypto::hash::{Blake2b256, HashFunction};
use fastcrypto::traits::{KeyPair, ToFromBytes};
use indexer_facade::base_types::{ObjectID, SuiAddress};
use indexer_facade::crypto::{
    get_key_pair_from_rng, AuthorityKeyPair, EcdsaKeys, Ed25519Keys, SuiKeyPair, ED25519_FLAG,
    SECP256K1_FLAG, SECP256R1_FLAG,
};
use rand::rngs::StdRng;
use rand::SeedableRng;

#[test]
fn address_is_the_digest_of_flag_and_key() {
    assert_eq!(
        SuiAddress::from_public_key(0, &vec![0u8; 32]),
        SuiAddress([
            216, 144, 140, 22, 93, 238, 120, 89, 36, 231, 66, 26, 15, 208, 65, 138, 25, 213, 218,
            238, 195, 149, 253, 80, 90, 146, 160, 253, 49, 23, 228, 40
        ])
    );
    assert_eq!(
        SuiAddress::from_public_key(1, &vec![7u8; 33]),
        SuiAddress([
            201, 188, 163, 228, 204, 226, 24, 208, 113, 222, 126, 155, 245, 7, 138, 211, 117, 194,
            199, 246, 41, 114, 124, 168, 178, 136, 40, 103, 69, 132, 109, 206
        ])
    );
    assert_eq!(
        SuiAddress::from_public_key(0, &Vec::new()),
        SuiAddress([
            3, 23, 10, 46, 117, 151, 183, 183, 227, 216, 76, 5, 57, 29, 19, 154, 98, 177, 87, 231,
            135, 134, 216, 192, 130, 242, 157, 207, 76, 17, 19, 20
        ])
    );
}

#[test]
fn address_depends_on_the_flag() {
    let key = vec![9u8; 32];
    assert_ne!(SuiAddress::from_public_key(0, &key), SuiAddress::from_public_key(1, &key));
}

#[test]
fn flags_of_the_schemes() {
    let ed = SuiKeyPair::Ed25519(Ed25519Keys { secret: vec![1; 32], public: vec![2; 32] });
    let k1 = SuiKeyPair::Secp256k1(EcdsaKeys { secret: vec![1; 32], public: vec![3; 33] });
    let r1 = SuiKeyPair::Secp256r1(EcdsaKeys { secret: vec![1; 32], public: vec![4; 33] });
    assert_eq!(ed.flag(), 0);
    assert_eq!(k1.flag(), 1);
    assert_eq!(r1.flag(), 2);
    assert_eq!(ED25519_FLAG, 0);
    assert_eq!(SECP256K1_FLAG, 1);
    assert_eq!(SECP256R1_FLAG, 2);
    assert_eq!(ed.public(), &vec![2u8; 32]);
    assert_eq!(k1.public(), &vec![3u8; 33]);
    assert_eq!(r1.public(), &vec![4u8; 33]);
    assert_eq!(ed.address(), SuiAddress::from_public_key(0, &vec![2u8; 32]));
    assert_eq!(k1.address(), SuiAddress::from_public_key(1, &vec![3u8; 33]));
    assert_eq!(r1.address(), SuiAddress::from_public_key(2, &vec![4u8; 33]));
}

#[test]
fn generated_ed25519_keys_belong_together() {
    let mut rng = StdRng::seed_from_u64(7);
    let keys = Ed25519Keys::generate(&mut rng);
    assert_eq!(keys.secret.len(), 32);
    assert_eq!(keys.public.len(), 32);
    let pair = Ed25519KeyPair::from_bytes(&keys.secret).unwrap();
    assert_eq!(pair.public().as_ref(), keys.public.as_slice());
}

#[test]
fn generated_ed25519_keys_follow_the_generator() {
    let mut rng = StdRng::seed_from_u64(7);
    let keys = Ed25519Keys::generate(&mut rng);
    let mut same_rng = StdRng::seed_from_u64(7);
    let expected = Ed25519KeyPair::generate(&mut same_rng);
    assert_eq!(keys.secret.as_slice(), expected.as_ref());
    assert_eq!(keys.public.as_slice(), expected.public().as_ref());
    let next = Ed25519Keys::generate(&mut rng);
    assert_ne!(next, keys);
}

#[test]
fn generated_authority_keys_have_the_lengths_of_the_scheme() {
    let mut rng = StdRng::seed_from_u64(7);
    let keys = AuthorityKeyPair::generate(&mut rng);
    assert_eq!(keys.secret.len(), 32);
    assert_eq!(keys.public.len(), 96);
    let mut same_rng = StdRng::seed_from_u64(7);
    assert_eq!(AuthorityKeyPair::generate(&mut same_rng), keys);
}

#[test]
fn key_pair_from_rng_comes_with_its_address() {
    let mut rng = StdRng::seed_from_u64(3);
    let (address, keys) = get_key_pair_from_rng(&mut rng);
    assert_eq!(address, keys.address());
    let mut data = vec![0u8];
    data.extend_from_slice(&keys.public);
    assert_eq!(address.0, Blake2b256::digest(&data).digest);
}

#[test]
fn key_pair_from_rng_draws_from_a_generator_of_its_own() {
    let mut rng = StdRng::seed_from_u64(3);
    let (_, keys) = get_key_pair_from_rng(&mut rng);
    let mut parent = StdRng::seed_from_u64(3);
    let mut child = StdRng::from_rng(&mut parent).unwrap();
    let expected = Ed25519KeyPair::generate(&mut child);
    assert_eq!(keys.secret.as_slice(), expected.as_ref());
    let (_, second) = get_key_pair_from_rng(&mut rng);
    assert_ne!(second, keys);
}

#[test]
fn random_ids_from_a_seed_are_predictable() {
    let mut rng = StdRng::seed_from_u64(0);
    let first = ObjectID::random_from_rng(&mut rng);
    let second = ObjectID::random_from_rng(&mut rng);
    assert_ne!(first, second);
    let mut again = StdRng::seed_from_u64(0);
    assert_eq!(ObjectID::random_from_rng(&mut again), first);
    assert_eq!(ObjectID::random_from_rng(&mut again), second);
}

#[test]
fn random_ids_differ() {
    assert_ne!(ObjectID::random(), ObjectID::random());
}
