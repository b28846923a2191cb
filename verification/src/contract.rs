//! The policy's state and the operations on it: the administrator's slot,
//! the allowances that the administrator grants, and the sequence of each
//! delegate's last accepted deposit.

use vstd::prelude::*;
use crate::error::Error;
use crate::policy::{allowance_view, decide, delegate_of, deposit_request, verdict};
use crate::signer::{delegate_signer, DelegateSigner};
use crate::table::Table;
use crate::types::{
    Address, AllowanceView, Context, DelegateKey, SignerKey, StorageKey, VaultAllowance,
};

verus! {

/// The mathematical value of the policy's state.
pub struct State {
    /// The administrator, once set.
    pub admin: Option<Seq<char>>,
    /// Each delegate's allowance.
    pub allowances: Map<Seq<u8>, AllowanceView>,
    /// The ledger sequence of each delegate's last accepted deposit.
    pub previous: Map<Seq<u8>, u32>,
}

impl State {
    /// The allowance on record for a delegate.
    pub open spec fn allowance_of(self, key: Seq<u8>) -> Option<AllowanceView> {
        if self.allowances.contains_key(key) {
            Some(self.allowances[key])
        } else {
            None
        }
    }

    /// The sequence of a delegate's last accepted deposit.
    pub open spec fn previous_of(self, key: Seq<u8>) -> Option<u32> {
        if self.previous.contains_key(key) {
            Some(self.previous[key])
        } else {
            None
        }
    }

    /// Whether a slot of the state is filled.
    pub open spec fn has(self, key: StorageKey) -> bool {
        match key {
            StorageKey::Admin => self.admin.is_some(),
            StorageKey::Previous(k) => self.previous.contains_key(k@),
            StorageKey::VaultAllowance(k) => self.allowances.contains_key(k@),
        }
    }

    /// What the policy answers to a request in this state. The records that
    /// count are those of the delegate that signed.
    pub open spec fn answer(self, signer: SignerKey, contexts: Seq<Context>, current: u32) -> Result<
        (),
        Error,
    > {
        match delegate_of(signer) {
            Some(key) => verdict(
                signer,
                contexts,
                self.previous_of(key),
                self.allowance_of(key),
                current,
            ),
            None => Err(Error::NotAllowed),
        }
    }

    /// The state after the policy has answered a request: an accepted deposit
    /// is recorded under its delegate, and a rejection changes nothing.
    pub open spec fn after(self, signer: SignerKey, contexts: Seq<Context>, current: u32) -> State {
        match (self.answer(signer, contexts, current), delegate_of(signer)) {
            (Ok(_), Some(key)) => State { previous: self.previous.insert(key, current), ..self },
            _ => self,
        }
    }
}

/// The policy's state: one administrator slot and two tables keyed by
/// delegate.
pub struct Contract {
    admin: Option<Address>,
    allowances: Table<VaultAllowance>,
    previous: Table<u32>,
}

impl View for Contract {
    type V = State;

    closed spec fn view(&self) -> State {
        State {
            admin: match self.admin {
                Some(a) => Some(a@),
                None => None,
            },
            allowances: Map::new(
                |k: Seq<u8>| self.allowances@.contains_key(k),
                |k: Seq<u8>| self.allowances@[k]@,
            ),
            previous: self.previous@,
        }
    }
}

impl Contract {
    /// The state's invariant: both tables are well formed.
    pub closed spec fn wf(&self) -> bool {
        self.allowances.wf() && self.previous.wf()
    }

    /// A contract without administrator, allowances or accepted deposits.
    pub fn new() -> (contract: Contract)
        ensures
            contract.wf(),
            contract@.admin.is_none(),
            contract@.allowances == Map::<Seq<u8>, AllowanceView>::empty(),
            contract@.previous == Map::<Seq<u8>, u32>::empty(),
    {
        let contract = Contract { admin: None, allowances: Table::new(), previous: Table::new() };
        assert(contract@.allowances =~= Map::<Seq<u8>, AllowanceView>::empty());
        contract
    }

    /// Sets the administrator. This can be done once: a second call is
    /// rejected as `AlreadyInitialized` and changes nothing.
    pub fn init(&mut self, admin: Address) -> (done: Result<(), Error>)
        requires
            old(self).wf(),
        ensures
            final(self).wf(),
            match done {
                Ok(_) => old(self)@.admin.is_none() && final(self)@ == (State {
                    admin: Some(admin@),
                    ..old(self)@
                }),
                Err(e) => e == Error::AlreadyInitialized && old(self)@.admin.is_some()
                    && final(self)@ == old(self)@,
            },
    {
        if self.admin.is_some() {
            return Err(Error::AlreadyInitialized);
        }
        self.admin = Some(admin);
        Ok(())
    }

    /// The administrator, whose authorization every change of the allowances
    /// needs; `NotInitialized` where none has been set.
    pub fn get_admin_address(&self) -> (admin: Result<&Address, Error>)
        ensures
            match admin {
                Ok(a) => self@.admin == Some(a@),
                Err(e) => e == Error::NotInitialized && self@.admin.is_none(),
            },
    {
        match &self.admin {
            Some(a) => Ok(a),
            None => Err(Error::NotInitialized),
        }
    }

    /// Grants `user` the right to deposit up to `amount` into `vault`, in
    /// place of any allowance `user` had, and returns the registration under
    /// which the wallet is to take `user` up as a signer: for `vault` only,
    /// and subject to the policy contract `policy`. The caller has the
    /// administrator authorize the call and hands the registration to the
    /// wallet.
    pub fn add_wallet(
        &mut self,
        policy: &Address,
        user: DelegateKey,
        vault: Address,
        amount: i128,
    ) -> (done: Result<DelegateSigner, Error>)
        requires
            old(self).wf(),
        ensures
            final(self).wf(),
            match done {
                Ok(signer) => old(self)@.admin.is_some() && signer.grants(user@, vault@, policy@)
                    && final(self)@ == (State {
                    allowances: old(self)@.allowances.insert(
                        user@,
                        AllowanceView { vault: vault@, amount },
                    ),
                    ..old(self)@
                }),
                Err(e) => e == Error::NotInitialized && old(self)@.admin.is_none() && final(self)@
                    == old(self)@,
            },
    {
        if self.admin.is_none() {
            return Err(Error::NotInitialized);
        }
        let signer = delegate_signer(user, vault.clone(), policy.clone());
        self.allowances.set(user, VaultAllowance { vault, amount });
        assert(self@.allowances =~= old(self)@.allowances.insert(
            user@,
            AllowanceView { vault: vault@, amount },
        ));
        Ok(signer)
    }

    /// Withdraws the allowance of `user`, and returns the signer that the
    /// wallet is to drop. The sequence of the last accepted deposit stays on
    /// record. The caller has the administrator authorize the call and has
    /// the wallet drop the signer.
    pub fn remove_wallet(&mut self, user: &DelegateKey) -> (done: Result<SignerKey, Error>)
        requires
            old(self).wf(),
        ensures
            final(self).wf(),
            match done {
                Ok(signer) => old(self)@.admin.is_some() && signer == SignerKey::Ed25519(*user)
                    && final(self)@ == (State {
                    allowances: old(self)@.allowances.remove(user@),
                    ..old(self)@
                }),
                Err(e) => e == Error::NotInitialized && old(self)@.admin.is_none() && final(self)@
                    == old(self)@,
            },
    {
        if self.admin.is_none() {
            return Err(Error::NotInitialized);
        }
        self.allowances.remove(user);
        assert(self@.allowances =~= old(self)@.allowances.remove(user@));
        Ok(SignerKey::Ed25519(*user))
    }

    /// Changes the allowance of `user`: the vault, the amount, or both. A
    /// part that is not given stays as it was. Without an allowance on record
    /// the call is rejected as `NotFound`.
    pub fn update_wallet(
        &mut self,
        user: &DelegateKey,
        vault: Option<Address>,
        amount: Option<i128>,
    ) -> (done: Result<(), Error>)
        requires
            old(self).wf(),
        ensures
            final(self).wf(),
            match done {
                Ok(_) => old(self)@.admin.is_some() && old(self)@.allowances.contains_key(user@)
                    && final(self)@ == (State {
                    allowances: old(self)@.allowances.insert(
                        user@,
                        AllowanceView {
                            vault: match vault {
                                Some(v) => v@,
                                None => old(self)@.allowances[user@].vault,
                            },
                            amount: match amount {
                                Some(a) => a,
                                None => old(self)@.allowances[user@].amount,
                            },
                        },
                    ),
                    ..old(self)@
                }),
                Err(e) => final(self)@ == old(self)@ && if old(self)@.admin.is_none() {
                    e == Error::NotInitialized
                } else {
                    e == Error::NotFound && !old(self)@.allowances.contains_key(user@)
                },
            },
    {
        if self.admin.is_none() {
            return Err(Error::NotInitialized);
        }
        let merged = match self.allowances.get(user) {
            Some(held) => VaultAllowance {
                vault: match vault {
                    Some(v) => v,
                    None => held.vault.clone(),
                },
                amount: match amount {
                    Some(a) => a,
                    None => held.amount,
                },
            },
            None => {
                return Err(Error::NotFound);
            },
        };
        let ghost merged_view = merged@;
        self.allowances.set(*user, merged);
        assert(self@.allowances =~= old(self)@.allowances.insert(user@, merged_view));
        Ok(())
    }

    /// The allowance on record for `user`.
    pub fn allowance(&self, user: &DelegateKey) -> (found: Option<&VaultAllowance>)
        requires
            self.wf(),
        ensures
            allowance_view(found) == self@.allowance_of(user@),
    {
        self.allowances.get(user)
    }

    /// The ledger sequence of the last accepted deposit of `user`.
    pub fn previous(&self, user: &DelegateKey) -> (found: Option<u32>)
        requires
            self.wf(),
        ensures
            found == self@.previous_of(user@),
    {
        match self.previous.get(user) {
            Some(last) => Some(*last),
            None => None,
        }
    }

    /// Whether a slot of the state is filled.
    pub fn has(&self, key: &StorageKey) -> (filled: bool)
        requires
            self.wf(),
        ensures
            filled == self@.has(*key),
    {
        match key {
            StorageKey::Admin => self.admin.is_some(),
            StorageKey::Previous(user) => self.previous.get(user).is_some(),
            StorageKey::VaultAllowance(user) => self.allowances.get(user).is_some(),
        }
    }

    /// Answers a request that `signer` signed at ledger sequence `current`.
    /// An accepted deposit is recorded as the delegate's last; a rejection
    /// changes nothing. `_source`, the wallet that asks, has no part in the
    /// answer.
    pub fn policy__(
        &mut self,
        current: u32,
        _source: &Address,
        signer: &SignerKey,
        contexts: &Vec<Context>,
    ) -> (answer: Result<(), Error>)
        requires
            old(self).wf(),
        ensures
            final(self).wf(),
            answer == old(self)@.answer(*signer, contexts@, current),
            final(self)@ == old(self)@.after(*signer, contexts@, current),
    {
        let (user, call) = match deposit_request(signer, contexts) {
            Some(request) => request,
            None => {
                return Err(Error::NotAllowed);
            },
        };
        let last = self.previous(&user);
        let answer = decide(call, last, self.allowances.get(&user), current);
        if answer.is_ok() {
            self.previous.set(user, current);
        }
        answer
    }
}

} // verus!
