use vstd::prelude::*;
use deep_space::private_key::PrivateKey;
use crate::error::ScenarioError;

verus! {

/// Which of a validator's three keys an address is derived from.
#[derive(Debug, Clone, Copy, PartialEq, Eq, Structural)]
pub enum KeyKind {
    /// The Cosmos consensus (operator) key.
    Consensus,
    /// The key its oracle process signs attestations with.
    Oracle,
    /// The Ethereum key.
    Chain,
}

/// One validator: the secrets of its three keys. Immutable once generated.
#[derive(Debug, Clone)]
pub struct ValidatorIdentity {
    pub consensus_secret: [u8; 32],
    pub oracle_secret: [u8; 32],
    pub chain_secret: [u8; 32],
}

/// The bech32 address of the Cosmos key made from `secret`, under `prefix`
/// (`None` when the key or the prefix is refused).
pub uninterp spec fn cosmos_address_of(secret: Seq<u8>, prefix: Seq<char>) -> Option<Seq<char>>;

/// The checksummed hex address of the Ethereum key with these bytes (`None` when
/// the bytes are no valid key).
pub uninterp spec fn eth_address_of(secret: Seq<u8>) -> Option<Seq<char>>;

/// Relies on deep_space's `CosmosPrivateKey::from_secret`, `to_address` and
/// `Address::to_bech32`: the address depends on the secret and the prefix alone.
#[verifier::external_body]
fn cosmos_address(secret: &[u8; 32], prefix: &str) -> (r: Option<String>)
    ensures
        match r {
            Some(a) => cosmos_address_of(secret@, prefix@) == Some(a@),
            None => cosmos_address_of(secret@, prefix@) is None,
        },
{
    let key = deep_space::private_key::CosmosPrivateKey::from_secret(secret);
    key.to_address(prefix).ok().and_then(|a| a.to_bech32(prefix).ok())
}

/// Relies on clarity's `PrivateKey::from_bytes` and `to_address`: the address
/// depends on the key bytes alone.
#[verifier::external_body]
fn eth_address(secret: &[u8; 32]) -> (r: Option<String>)
    ensures
        match r {
            Some(a) => eth_address_of(secret@) == Some(a@),
            None => eth_address_of(secret@) is None,
        },
{
    clarity::PrivateKey::from_bytes(*secret).ok().map(|k| k.to_address().to_string())
}

/// The address of `id`'s key of kind `kind`.
pub open spec fn address_spec(id: ValidatorIdentity, kind: KeyKind, prefix: Seq<char>) -> Option<
    Seq<char>,
> {
    match kind {
        KeyKind::Consensus => cosmos_address_of(id.consensus_secret@, prefix),
        KeyKind::Oracle => cosmos_address_of(id.oracle_secret@, prefix),
        KeyKind::Chain => eth_address_of(id.chain_secret@),
    }
}

/// Derives the address of one of a validator's keys; `prefix` is ignored for the
/// Ethereum key. Fails with `InvalidKey` exactly when no address can be derived.
pub fn derive_address(identity: &ValidatorIdentity, kind: KeyKind, prefix: &str) -> (r: Result<
    String,
    ScenarioError,
>)
    ensures
        match r {
            Ok(a) => address_spec(*identity, kind, prefix@) == Some(a@),
            Err(e) => address_spec(*identity, kind, prefix@) is None && e is InvalidKey,
        },
{
    let derived = match kind {
        KeyKind::Consensus => cosmos_address(&identity.consensus_secret, prefix),
        KeyKind::Oracle => cosmos_address(&identity.oracle_secret, prefix),
        KeyKind::Chain => eth_address(&identity.chain_secret),
    };
    match derived {
        Some(a) => Ok(a),
        None => Err(ScenarioError::InvalidKey),
    }
}

/// An ordered roster of validators; index 0 is the honest baseline validator
/// and the proposer of recovery.
#[derive(Debug, Clone)]
pub struct ValidatorSet {
    pub members: Vec<ValidatorIdentity>,
}

impl ValidatorSet {
    pub open spec fn spec_len(&self) -> nat {
        self.members@.len()
    }

    /// Builds a set from identities generated elsewhere, keeping their order.
    pub fn new(members: Vec<ValidatorIdentity>) -> (r: ValidatorSet)
        ensures
            r.members@ == members@,
    {
        ValidatorSet { members }
    }

    pub fn len(&self) -> (r: usize)
        ensures
            r == self.spec_len(),
    {
        self.members.len()
    }

    /// The addresses of every member's key of kind `kind`, in roster order; fails
    /// with `InvalidKey` exactly when one of them cannot be derived.
    pub fn addresses(&self, kind: KeyKind, prefix: &str) -> (r: Result<Vec<String>, ScenarioError>)
        ensures
            match r {
                Ok(v) => v@.len() == self.members@.len() && forall|i: int|
                    0 <= i < v@.len() ==> address_spec(self.members@[i], kind, prefix@) == Some(
                        #[trigger] v@[i]@,
                    ),
                Err(e) => e is InvalidKey && exists|i: int|
                    0 <= i < self.members@.len() && (#[trigger] address_spec(
                        self.members@[i],
                        kind,
                        prefix@,
                    )) is None,
            },
    {
        let mut out: Vec<String> = Vec::new();
        let mut i: usize = 0;
        while i < self.members.len()
            invariant
                i <= self.members@.len(),
                out@.len() == i,
                forall|j: int|
                    0 <= j < i ==> address_spec(self.members@[j], kind, prefix@) == Some(
                        #[trigger] out@[j]@,
                    ),
            decreases self.members@.len() - i,
        {
            match derive_address(&self.members[i], kind, prefix) {
                Ok(a) => out.push(a),
                Err(e) => {
                    assert(address_spec(self.members@[i as int], kind, prefix@) is None);
                    return Err(e);
                },
            }
            i += 1;
        }
        Ok(out)
    }
}

} // verus!
