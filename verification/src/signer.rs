//! The registration that makes a delegate a signer of the wallet.

use vstd::prelude::*;
use crate::types::{Address, DelegateKey, SignerKey};

verus! {

/// Where the wallet keeps a signer.
#[derive(Clone, Copy, Debug, PartialEq, Eq, Structural)]
pub enum SignerStorage {
    Persistent,
    Temporary,
}

/// The contracts a signer may act on, each with the signers that have to
/// agree to what it does there.
#[derive(Debug, PartialEq, Eq)]
pub struct SignerLimit {
    pub contract: Address,
    pub signers: Option<Vec<SignerKey>>,
}

/// A delegate as the wallet registers it.
#[derive(Debug, PartialEq, Eq)]
pub struct DelegateSigner {
    /// The delegate's key.
    pub key: DelegateKey,
    /// The ledger sequence after which the registration lapses, if any.
    pub expiration: Option<u32>,
    /// The contracts the delegate is limited to; `None` for no limit.
    pub limits: Option<Vec<SignerLimit>>,
    /// Where the wallet keeps the registration.
    pub storage: SignerStorage,
}

impl DelegateSigner {
    /// Whether this registration lets the delegate `user` act on `vault`
    /// alone, and there only with the agreement of `policy`; never lapses;
    /// and is kept persistently.
    pub open spec fn grants(self, user: Seq<u8>, vault: Seq<char>, policy: Seq<char>) -> bool {
        &&& self.key@ == user
        &&& self.expiration.is_none()
        &&& self.storage == SignerStorage::Persistent
        &&& match self.limits {
            Some(limits) => limits@.len() == 1 && limits@[0].contract@ == vault && (
            match limits@[0].signers {
                Some(signers) => signers@.len() == 1 && (match signers@[0] {
                    SignerKey::Policy(p) => p@ == policy,
                    _ => false,
                }),
                None => false,
            }),
            None => false,
        }
    }
}

/// The registration under which `add_wallet` has the wallet take up a
/// delegate: `user` may act on `vault` only, and every such action is put
/// before the policy contract `policy`.
pub fn delegate_signer(user: DelegateKey, vault: Address, policy: Address) -> (signer:
    DelegateSigner)
    ensures
        signer.grants(user@, vault@, policy@),
{
    let mut signers: Vec<SignerKey> = Vec::new();
    signers.push(SignerKey::Policy(policy));
    let mut limits: Vec<SignerLimit> = Vec::new();
    limits.push(SignerLimit { contract: vault, signers: Some(signers) });
    DelegateSigner {
        key: user,
        expiration: None,
        limits: Some(limits),
        storage: SignerStorage::Persistent,
    }
}

} // verus!
