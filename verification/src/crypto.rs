//! Key material as plain bytes, the address that a public key gives, and the
//! generators of keys and identifiers.
//!
//! Keys are made and hashes are computed by `fastcrypto`, random numbers are
//! drawn by `rand`: the functions that call them state what is taken on trust.

use crate::base_types::{ObjectID, SuiAddress};
use vstd::prelude::*;

verus! {

broadcast use vstd::array::group_array_axioms;

/// The standard generator of `rand`, carried around as a value that is not
/// looked into.
#[verifier::external_type_specification]
#[verifier::external_body]
pub struct ExStdRng(rand::rngs::StdRng);

/// Number of bytes in an Ed25519 secret key and in an Ed25519 public key.
pub const ED25519_KEY_LENGTH: usize = 32;

/// Number of bytes in a BLS12-381 secret key.
pub const BLS_SECRET_KEY_LENGTH: usize = 32;

/// Number of bytes in a BLS12-381 public key of the minimal-signature scheme.
pub const BLS_PUBLIC_KEY_LENGTH: usize = 96;

/// An Ed25519 key pair.
#[derive(Clone, Debug, PartialEq, Eq)]
pub struct Ed25519Keys {
    pub secret: Vec<u8>,
    pub public: Vec<u8>,
}

/// The key pair of an account.
pub type AccountKeyPair = Ed25519Keys;

/// The key pair by which a node is known on the network.
pub type NetworkKeyPair = Ed25519Keys;

/// The BLS12-381 key pair of an authority.
#[derive(Clone, Debug, PartialEq, Eq)]
pub struct AuthorityKeyPair {
    pub secret: Vec<u8>,
    pub public: Vec<u8>,
}

/// An ECDSA key pair.
#[derive(Clone, Debug, PartialEq, Eq)]
pub struct EcdsaKeys {
    pub secret: Vec<u8>,
    pub public: Vec<u8>,
}

/// A key pair of one of the schemes that an account may sign with.
#[derive(Clone, Debug, PartialEq, Eq)]
pub enum SuiKeyPair {
    Ed25519(Ed25519Keys),
    Secp256k1(EcdsaKeys),
    Secp256r1(EcdsaKeys),
}

/// The byte that marks the Ed25519 scheme.
pub const ED25519_FLAG: u8 = 0x00;

/// The byte that marks the Secp256k1 scheme.
pub const SECP256K1_FLAG: u8 = 0x01;

/// The byte that marks the Secp256r1 scheme.
pub const SECP256R1_FLAG: u8 = 0x02;

impl SuiKeyPair {
    /// The byte that marks the scheme of the key pair.
    pub open spec fn spec_flag(&self) -> u8 {
        match self {
            SuiKeyPair::Ed25519(_) => ED25519_FLAG,
            SuiKeyPair::Secp256k1(_) => SECP256K1_FLAG,
            SuiKeyPair::Secp256r1(_) => SECP256R1_FLAG,
        }
    }

    /// The bytes of the public key.
    pub open spec fn spec_public(&self) -> Seq<u8> {
        match self {
            SuiKeyPair::Ed25519(keys) => keys.public@,
            SuiKeyPair::Secp256k1(keys) => keys.public@,
            SuiKeyPair::Secp256r1(keys) => keys.public@,
        }
    }

    pub fn flag(&self) -> (flag: u8)
        ensures
            flag == self.spec_flag(),
    {
        match self {
            SuiKeyPair::Ed25519(_) => ED25519_FLAG,
            SuiKeyPair::Secp256k1(_) => SECP256K1_FLAG,
            SuiKeyPair::Secp256r1(_) => SECP256R1_FLAG,
        }
    }

    pub fn public(&self) -> (public: &Vec<u8>)
        ensures
            public@ == self.spec_public(),
    {
        match self {
            SuiKeyPair::Ed25519(keys) => &keys.public,
            SuiKeyPair::Secp256k1(keys) => &keys.public,
            SuiKeyPair::Secp256r1(keys) => &keys.public,
        }
    }

    /// The address of the account that signs with this key pair.
    pub fn address(&self) -> (address: SuiAddress)
        ensures
            address.0@ == spec_address(self.spec_flag(), self.spec_public()),
    {
        SuiAddress::from_public_key(self.flag(), self.public())
    }
}

/// The BLAKE2b-256 digest of `data`, as `fastcrypto::hash::Blake2b256` computes it.
pub uninterp spec fn blake2b256(data: Seq<u8>) -> Seq<u8>;

/// Calls `<fastcrypto::hash::Blake2b256 as HashFunction<32>>::digest` on the
/// bytes and takes the 32 bytes out of the digest. The digest depends on the
/// bytes alone; the contract only gives it its name.
#[verifier::external_body]
fn blake2b256_digest(data: &Vec<u8>) -> (digest: [u8; 32])
    ensures
        digest@ == blake2b256(data@),
{
    <fastcrypto::hash::Blake2b256 as fastcrypto::hash::HashFunction<32>>::digest(data).digest
}

/// The address of the account whose public key is `public`, of the scheme
/// marked by `flag`: the digest of the flag followed by the key.
pub open spec fn spec_address(flag: u8, public: Seq<u8>) -> Seq<u8> {
    blake2b256(seq![flag] + public)
}

impl SuiAddress {
    /// Derives the address of a public key.
    pub fn from_public_key(flag: u8, public: &Vec<u8>) -> (address: SuiAddress)
        ensures
            address.0@ == spec_address(flag, public@),
    {
        let mut data: Vec<u8> = Vec::new();
        data.push(flag);
        let mut i: usize = 0;
        while i < public.len()
            invariant
                i <= public.len(),
                data@ == seq![flag] + public@.take(i as int),
            decreases public.len() - i,
        {
            data.push(public[i]);
            assert(public@.take(i + 1) =~= public@.take(i as int).push(public@[i as int]));
            assert(data@ =~= seq![flag] + public@.take(i + 1));
            i = i + 1;
        }
        assert(public@.take(public.len() as int) =~= public@);
        SuiAddress(blake2b256_digest(&data))
    }
}

/// Calls `rand::SeedableRng::seed_from_u64` for `rand::rngs::StdRng`. The
/// generator is a function of the seed; nothing is stated of it here.
#[verifier::external_body]
pub(crate) fn seeded_rng(seed: u64) -> (rng: rand::rngs::StdRng) {
    <rand::rngs::StdRng as rand::SeedableRng>::seed_from_u64(seed)
}

/// Calls `rand::SeedableRng::from_rng` for `rand::rngs::StdRng`, which draws
/// the seed of a new generator from `rng`. Nothing is stated of either.
#[verifier::external_body]
pub(crate) fn derived_rng(rng: &mut rand::rngs::StdRng) -> (derived: rand::rngs::StdRng) {
    <rand::rngs::StdRng as rand::SeedableRng>::from_rng(rng).unwrap()
}

/// Calls `rand::Rng::gen` on `rng` for 32 bytes. Nothing is stated of them.
#[verifier::external_body]
fn random_bytes(rng: &mut rand::rngs::StdRng) -> (bytes: [u8; 32]) {
    rand::Rng::gen(rng)
}

/// Calls `rand::Rng::gen` on `rand::rngs::OsRng`, the system's generator, for
/// 32 bytes. Nothing is stated of them.
#[verifier::external_body]
fn system_random_bytes() -> (bytes: [u8; 32]) {
    rand::Rng::gen(&mut rand::rngs::OsRng)
}

/// Calls `<fastcrypto::ed25519::Ed25519KeyPair as KeyPair>::generate` with
/// `rng` and copies the bytes of the two keys out. Of the keys only their
/// lengths are stated.
#[verifier::external_body]
fn generate_ed25519(rng: &mut rand::rngs::StdRng) -> (keys: Ed25519Keys)
    ensures
        keys.secret@.len() == ED25519_KEY_LENGTH,
        keys.public@.len() == ED25519_KEY_LENGTH,
{
    let pair = <fastcrypto::ed25519::Ed25519KeyPair as fastcrypto::traits::KeyPair>::generate(rng);
    Ed25519Keys {
        secret: pair.as_ref().to_vec(),
        public: fastcrypto::traits::KeyPair::public(&pair).as_ref().to_vec(),
    }
}

/// Calls `<fastcrypto::bls12381::min_sig::BLS12381KeyPair as KeyPair>::generate`
/// with `rng` and copies the bytes of the two keys out. Of the keys only their
/// lengths are stated.
#[verifier::external_body]
fn generate_bls12381(rng: &mut rand::rngs::StdRng) -> (keys: AuthorityKeyPair)
    ensures
        keys.secret@.len() == BLS_SECRET_KEY_LENGTH,
        keys.public@.len() == BLS_PUBLIC_KEY_LENGTH,
{
    let pair =
        <fastcrypto::bls12381::min_sig::BLS12381KeyPair as fastcrypto::traits::KeyPair>::generate(
        rng,
    );
    AuthorityKeyPair {
        secret: pair.as_ref().to_vec(),
        public: fastcrypto::traits::KeyPair::public(&pair).as_ref().to_vec(),
    }
}

impl Ed25519Keys {
    /// True of a pair whose keys have the lengths of the scheme.
    pub open spec fn wf(&self) -> bool {
        self.secret@.len() == ED25519_KEY_LENGTH && self.public@.len() == ED25519_KEY_LENGTH
    }

    /// A fresh key pair, drawn from `rng`.
    pub fn generate(rng: &mut rand::rngs::StdRng) -> (keys: Self)
        ensures
            keys.wf(),
    {
        generate_ed25519(rng)
    }

    /// The address of the account that signs with this key pair.
    pub fn address(&self) -> (address: SuiAddress)
        ensures
            address.0@ == spec_address(ED25519_FLAG, self.public@),
    {
        SuiAddress::from_public_key(ED25519_FLAG, &self.public)
    }
}

impl AuthorityKeyPair {
    /// True of a pair whose keys have the lengths of the scheme.
    pub open spec fn wf(&self) -> bool {
        self.secret@.len() == BLS_SECRET_KEY_LENGTH && self.public@.len() == BLS_PUBLIC_KEY_LENGTH
    }

    /// A fresh key pair, drawn from `rng`.
    pub fn generate(rng: &mut rand::rngs::StdRng) -> (keys: Self)
        ensures
            keys.wf(),
    {
        generate_bls12381(rng)
    }
}

/// A fresh account key pair and its address. The key is drawn from a generator
/// of its own, which is seeded from `rng`.
pub fn get_key_pair_from_rng(rng: &mut rand::rngs::StdRng) -> (pair: (SuiAddress, AccountKeyPair))
    ensures
        pair.1.wf(),
        pair.0.0@ == spec_address(ED25519_FLAG, pair.1.public@),
{
    let mut derived = derived_rng(rng);
    let keys = Ed25519Keys::generate(&mut derived);
    let address = keys.address();
    (address, keys)
}

impl ObjectID {
    /// An id drawn from the system's generator.
    pub fn random() -> (id: ObjectID) {
        ObjectID(system_random_bytes())
    }

    /// An id drawn from `rng`.
    pub fn random_from_rng(rng: &mut rand::rngs::StdRng) -> (id: ObjectID) {
        ObjectID(random_bytes(rng))
    }
}

} // verus!
