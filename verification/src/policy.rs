//! The decision itself: which requests a delegate may make, and why not.
//!
//! Everything here is a function of plain values. The checks are made in a
//! fixed order (shape of the request, cooldown, allowance, amount,
//! destination), and the first one that fails names the error.

use vstd::prelude::*;
use crate::error::Error;
use crate::types::{
    AllowanceView, Context, ContractContext, DelegateKey, SignerKey, Val, VaultAllowance,
    MONTH_IN_LEDGERS,
};

verus! {

/// The delegate a signer stands for: only an Ed25519 key is one.
pub open spec fn delegate_of(signer: SignerKey) -> Option<Seq<u8>> {
    match signer {
        SignerKey::Ed25519(key) => Some(key@),
        _ => None,
    }
}

/// The deposit call that a request consists of: there is one where the
/// request holds exactly one context, and that context calls `deposit`.
pub open spec fn deposit_of(contexts: Seq<Context>) -> Option<ContractContext> {
    if contexts.len() == 1 {
        match contexts[0] {
            Context::Contract(call) => if call.fn_name@ == "deposit"@ {
                Some(call)
            } else {
                None
            },
            _ => None,
        }
    } else {
        None
    }
}

/// The ledgers that have passed since the last accepted deposit. A delegate
/// without such a deposit counts as having waited one full period.
pub open spec fn elapsed(previous: Option<u32>, current: u32) -> int {
    match previous {
        Some(last) => current - last,
        None => MONTH_IN_LEDGERS as int,
    }
}

/// The amount that a deposit call asks for: the first element of its first
/// argument, which has to be a list that starts with a 128-bit integer.
/// Without a first argument the call is `NotAllowed`; with one of any other
/// form the error is `Debug`.
pub open spec fn amount_of(args: Seq<Val>) -> Result<i128, Error> {
    if args.len() == 0 {
        Err(Error::NotAllowed)
    } else {
        match args[0] {
            Val::List(items) => if items@.len() > 0 {
                match items@[0] {
                    Val::I128(amount) => Ok(amount),
                    _ => Err(Error::Debug),
                }
            } else {
                Err(Error::Debug)
            },
            _ => Err(Error::Debug),
        }
    }
}

/// What the policy answers to a deposit call, given the sequence of the
/// delegate's last accepted deposit, the delegate's allowance and the
/// current ledger sequence.
pub open spec fn deposit_verdict(
    call: ContractContext,
    previous: Option<u32>,
    allowance: Option<AllowanceView>,
    current: u32,
) -> Result<(), Error> {
    if elapsed(previous, current) < MONTH_IN_LEDGERS {
        Err(Error::TooSoon)
    } else {
        match allowance {
            None => Err(Error::NotFound),
            Some(allowed) => match amount_of(call.args@) {
                Err(e) => Err(e),
                Ok(amount) => if amount > allowed.amount {
                    Err(Error::TooMuch)
                } else if call.contract@ != allowed.vault {
                    Err(Error::WrongVault)
                } else {
                    Ok(())
                },
            },
        }
    }
}

/// What the policy answers to a request: `NotAllowed` unless the signer is a
/// delegate and the request is a single deposit call, and else the verdict
/// on that call.
pub open spec fn verdict(
    signer: SignerKey,
    contexts: Seq<Context>,
    previous: Option<u32>,
    allowance: Option<AllowanceView>,
    current: u32,
) -> Result<(), Error> {
    match (delegate_of(signer), deposit_of(contexts)) {
        (Some(_), Some(call)) => deposit_verdict(call, previous, allowance, current),
        _ => Err(Error::NotAllowed),
    }
}

/// The view of an allowance that may be absent.
pub open spec fn allowance_view(allowance: Option<&VaultAllowance>) -> Option<AllowanceView> {
    match allowance {
        Some(a) => Some(a@),
        None => None,
    }
}

/// Reads the shape of a request: the delegate that signed it and the deposit
/// call it consists of, or `None` where the policy rejects it as
/// `NotAllowed` whatever the delegate's state.
pub fn deposit_request<'a>(signer: &SignerKey, contexts: &'a Vec<Context>) -> (request: Option<
    (DelegateKey, &'a ContractContext),
>)
    ensures
        match request {
            Some((key, call)) => delegate_of(*signer) == Some(key@) && deposit_of(contexts@)
                == Some(*call),
            None => delegate_of(*signer).is_none() || deposit_of(contexts@).is_none(),
        },
{
    if contexts.len() != 1 {
        return None;
    }
    match signer {
        SignerKey::Ed25519(key) => match &contexts[0] {
            Context::Contract(call) => {
                let name = "deposit".to_owned();
                if call.fn_name == name {
                    Some((*key, call))
                } else {
                    None
                }
            },
            _ => None,
        },
        _ => None,
    }
}

/// Whether a full cooldown period lies between the last accepted deposit and
/// the current ledger.
pub fn cooldown_elapsed(previous: Option<u32>, current: u32) -> (ready: bool)
    ensures
        ready == (elapsed(previous, current) >= MONTH_IN_LEDGERS),
{
    match previous {
        Some(last) => current >= last && current - last >= MONTH_IN_LEDGERS,
        None => true,
    }
}

/// Decodes the amount that a deposit call asks for.
pub fn decode_amount(args: &Vec<Val>) -> (amount: Result<i128, Error>)
    ensures
        amount == amount_of(args@),
{
    if args.len() == 0 {
        return Err(Error::NotAllowed);
    }
    match &args[0] {
        Val::List(items) => {
            if items.len() == 0 {
                return Err(Error::Debug);
            }
            match &items[0] {
                Val::I128(amount) => Ok(*amount),
                _ => Err(Error::Debug),
            }
        },
        _ => Err(Error::Debug),
    }
}

/// Decides on a deposit call. The caller records `current` as the sequence
/// of the delegate's last accepted deposit exactly when the answer is `Ok`.
pub fn decide(
    call: &ContractContext,
    previous: Option<u32>,
    allowance: Option<&VaultAllowance>,
    current: u32,
) -> (answer: Result<(), Error>)
    ensures
        answer == deposit_verdict(*call, previous, allowance_view(allowance), current),
{
    if !cooldown_elapsed(previous, current) {
        return Err(Error::TooSoon);
    }
    let allowed = match allowance {
        Some(a) => a,
        None => {
            return Err(Error::NotFound);
        },
    };
    let amount = match decode_amount(&call.args) {
        Ok(amount) => amount,
        Err(e) => {
            return Err(e);
        },
    };
    if amount > allowed.amount {
        return Err(Error::TooMuch);
    }
    if !call.contract.same(&allowed.vault) {
        return Err(Error::WrongVault);
    }
    Ok(())
}

} // verus!
