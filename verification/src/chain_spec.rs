//! What a node needs to name its chain and its collators.

use vstd::prelude::*;
use vstd::string::*;

verus! {

/// Where a parachain sits: the relay chain it is attached to and its identifier there.
#[derive(Debug, Clone, PartialEq)]
pub struct Extensions {
    /// The relay chain of the parachain.
    pub relay_chain: String,
    /// The identifier of the parachain.
    pub para_id: u32,
}

/// The public session key of a collator: an sr25519 public key.
#[derive(Debug, Clone, Copy, PartialEq, Eq)]
pub struct AuraId {
    /// The 32 bytes of the key.
    pub key: [u8; 32],
}

/// The sr25519 public key that a secret URI stands for, `None` where the URI is
/// not a valid one.
pub uninterp spec fn sr25519_public(suri: Seq<char>) -> Option<Seq<u8>>;

/// Calls `sp_core::sr25519::Pair::from_string` with no password override and takes the
/// public half of the pair. The derivation reads nothing but the URI, so the result is
/// named `sr25519_public`.
#[verifier::external_body]
fn sr25519_public_from_string(suri: &str) -> (key: Option<[u8; 32]>)
    ensures
        match key {
            Some(k) => sr25519_public(suri@) == Some(k@),
            None => sr25519_public(suri@) is None,
        },
{
    match <sp_core::sr25519::Pair as sp_core::Pair>::from_string(suri, None) {
        Ok(pair) => Some(sp_core::Pair::public(&pair).0),
        Err(_) => None,
    }
}

/// The secret URI of a development seed: the seed behind `//`, a path of junctions
/// under the development phrase.
pub open spec fn dev_suri(seed: Seq<char>) -> Seq<char> {
    "//"@ + seed
}

/// Generates the collator session key of a development seed such as `"Alice"`: the
/// sr25519 public key of the secret URI of the seed. A seed that gives no valid URI,
/// such as the empty one, has no key.
pub fn get_collator_keys_from_seed(seed: &str) -> (keys: Option<AuraId>)
    ensures
        match keys {
            Some(id) => sr25519_public(dev_suri(seed@)) == Some(id.key@),
            None => sr25519_public(dev_suri(seed@)) is None,
        },
{
    let suri = String::from_str("//").concat(seed);
    match sr25519_public_from_string(suri.as_str()) {
        Some(key) => Some(AuraId { key }),
        None => None,
    }
}

} // verus!
