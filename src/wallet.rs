//! Wallets derived from seeds: an sr25519 keypair and its SS58 address.
use vstd::prelude::*;
use crate::codec::{encode, hex_of};

verus! {

/// The sr25519 public key of the keypair that a seed expands to.
pub uninterp spec fn sr25519_public_of(seed: Seq<u8>) -> Seq<u8>;

/// The SS58 address, in the generic Substrate format, of a public key.
pub uninterp spec fn ss58_of(public: Seq<u8>) -> Seq<char>;

/// The address of the wallet that a seed identifies.
pub open spec fn address_of(seed: Seq<u8>) -> Seq<char> {
    ss58_of(sr25519_public_of(seed))
}

/// Relies on sp_core's sr25519 `Pair::from_seed` and `Pair::public`: the
/// seed is taken as a mini secret key and expanded the Ed25519 way, which
/// depends on the seed alone and accepts every 32-byte value.
#[verifier::external_body]
fn sr25519_public(seed: &[u8; 32]) -> (r: [u8; 32])
    ensures
        r@ == sr25519_public_of(seed@),
{
    let pair = <sp_core::sr25519::Pair as sp_core::crypto::Pair>::from_seed(seed);
    sp_core::crypto::Pair::public(&pair).to_raw()
}

/// Relies on sp_core's `Ss58Codec::to_ss58check_with_version`, called with
/// the generic Substrate account format: a function of the key alone.
#[verifier::external_body]
fn ss58_address(public: &[u8; 32]) -> (r: String)
    ensures
        r@ == ss58_of(public@),
{
    let key = sp_core::sr25519::Public::from_raw(*public);
    let format = sp_core::crypto::Ss58AddressFormatRegistry::SubstrateAccount.into();
    sp_core::crypto::Ss58Codec::to_ss58check_with_version(&key, format)
}

/// The keys and address of one wallet, each as text.
pub struct Wallet {
    /// The sr25519 public key, in lowercase hex.
    pub public_key: String,
    /// The seed, in lowercase hex: it recreates the keypair.
    pub private_key: String,
    /// The SS58 address.
    pub address: String,
}

/// The address of the wallet that a seed identifies.
pub fn derive_address(seed: &[u8; 32]) -> (r: String)
    ensures
        r@ == address_of(seed@),
{
    let public = sr25519_public(seed);
    ss58_address(&public)
}

/// The wallet that a seed identifies.
pub fn derive_wallet(seed: &[u8; 32]) -> (w: Wallet)
    ensures
        w.public_key@ == hex_of(sr25519_public_of(seed@)),
        w.private_key@ == hex_of(seed@),
        w.address@ == address_of(seed@),
{
    let public = sr25519_public(seed);
    let address = ss58_address(&public);
    Wallet { public_key: encode(&public), private_key: encode(seed), address }
}

/// Derivation is a function of the seed: two derivations from equal seeds
/// give equal keys and equal addresses.
pub proof fn lemma_derivation_deterministic(a: Seq<u8>, b: Seq<u8>)
    requires
        a == b,
    ensures
        sr25519_public_of(a) == sr25519_public_of(b),
        address_of(a) == address_of(b),
{
}

} // verus!
