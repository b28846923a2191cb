//! What holds of every state and every request, proved from the
//! definitions that the operations' contracts are stated in.

use vstd::prelude::*;
use crate::contract::State;
use crate::error::Error;
use crate::policy::{amount_of, delegate_of, deposit_of, elapsed};
use crate::types::{Context, SignerKey, MONTH_IN_LEDGERS};

verus! {

/// A delegate without an accepted deposit on record is eligible at any
/// ledger sequence: a deposit within the allowance is accepted whatever
/// `first` is, and `first` becomes the sequence of the delegate's last
/// accepted deposit. After that, every deposit request of the same delegate
/// less than a full period later is rejected as `TooSoon`, whatever it asks
/// for.
pub proof fn lemma_first_deposit_then_cooldown(
    state: State,
    signer: SignerKey,
    contexts: Seq<Context>,
    first: u32,
    again: Seq<Context>,
    k: u32,
)
    requires
        delegate_of(signer).is_some(),
        state.previous_of(delegate_of(signer).unwrap()).is_none(),
        state.allowance_of(delegate_of(signer).unwrap()).is_some(),
        deposit_of(contexts).is_some(),
        amount_of(deposit_of(contexts).unwrap().args@).is_ok(),
        amount_of(deposit_of(contexts).unwrap().args@).unwrap() <= state.allowance_of(
            delegate_of(signer).unwrap(),
        ).unwrap().amount,
        deposit_of(contexts).unwrap().contract@ == state.allowance_of(
            delegate_of(signer).unwrap(),
        ).unwrap().vault,
        deposit_of(again).is_some(),
        k < MONTH_IN_LEDGERS,
        first + k <= u32::MAX,
    ensures
        state.answer(signer, contexts, first).is_ok(),
        state.after(signer, contexts, first).previous_of(delegate_of(signer).unwrap()) == Some(
            first,
        ),
        state.after(signer, contexts, first).answer(signer, again, (first + k) as u32) == Err::<
            (),
            Error,
        >(Error::TooSoon),
{
}

/// The cooldown never stands in the way of a delegate's first deposit: at
/// no ledger sequence is a delegate without an accepted deposit on record
/// rejected as `TooSoon`.
pub proof fn lemma_first_use_is_never_too_soon(
    state: State,
    signer: SignerKey,
    contexts: Seq<Context>,
    current: u32,
)
    requires
        delegate_of(signer).is_some(),
        state.previous_of(delegate_of(signer).unwrap()).is_none(),
    ensures
        state.answer(signer, contexts, current) != Err::<(), Error>(Error::TooSoon),
{
}

/// A deposit is accepted only where the delegate has an allowance, the
/// amount asked for is at most its ceiling, and the destination is its vault.
pub proof fn lemma_accepted_within_allowance(
    state: State,
    signer: SignerKey,
    contexts: Seq<Context>,
    current: u32,
)
    requires
        state.answer(signer, contexts, current).is_ok(),
    ensures
        delegate_of(signer).is_some(),
        deposit_of(contexts).is_some(),
        state.allowance_of(delegate_of(signer).unwrap()).is_some(),
        amount_of(deposit_of(contexts).unwrap().args@).is_ok(),
        amount_of(deposit_of(contexts).unwrap().args@).unwrap() <= state.allowance_of(
            delegate_of(signer).unwrap(),
        ).unwrap().amount,
        deposit_of(contexts).unwrap().contract@ == state.allowance_of(
            delegate_of(signer).unwrap(),
        ).unwrap().vault,
{
}

/// Where a deposit passes the cooldown and the delegate has an allowance,
/// an amount above the ceiling sent to the right vault is rejected as
/// `TooMuch`, and an amount within the ceiling sent elsewhere as
/// `WrongVault`. Where both fail, the amount is named: `TooMuch`.
pub proof fn lemma_amount_and_vault_errors(
    state: State,
    signer: SignerKey,
    contexts: Seq<Context>,
    current: u32,
)
    requires
        delegate_of(signer).is_some(),
        deposit_of(contexts).is_some(),
        elapsed(state.previous_of(delegate_of(signer).unwrap()), current) >= MONTH_IN_LEDGERS,
        state.allowance_of(delegate_of(signer).unwrap()).is_some(),
        amount_of(deposit_of(contexts).unwrap().args@).is_ok(),
    ensures
        ({
            let allowed = state.allowance_of(delegate_of(signer).unwrap()).unwrap();
            let call = deposit_of(contexts).unwrap();
            let amount = amount_of(call.args@).unwrap();
            let answer = state.answer(signer, contexts, current);
            &&& amount > allowed.amount ==> answer == Err::<(), Error>(Error::TooMuch)
            &&& amount <= allowed.amount && call.contract@ != allowed.vault ==> answer == Err::<
                (),
                Error,
            >(Error::WrongVault)
            &&& amount <= allowed.amount && call.contract@ == allowed.vault ==> answer.is_ok()
        }),
{
}

/// Without an allowance no deposit is accepted: once the cooldown has
/// passed the request is rejected as `NotFound`, and before that as
/// `TooSoon`.
pub proof fn lemma_no_allowance_no_deposit(
    state: State,
    signer: SignerKey,
    contexts: Seq<Context>,
    current: u32,
)
    requires
        delegate_of(signer).is_some(),
        deposit_of(contexts).is_some(),
        state.allowance_of(delegate_of(signer).unwrap()).is_none(),
    ensures
        state.answer(signer, contexts, current) == if elapsed(
            state.previous_of(delegate_of(signer).unwrap()),
            current,
        ) < MONTH_IN_LEDGERS {
            Err::<(), Error>(Error::TooSoon)
        } else {
            Err::<(), Error>(Error::NotFound)
        },
{
}

/// A rejection changes nothing, so the same request at the same ledger
/// sequence is rejected again, for the same reason.
pub proof fn lemma_rejection_repeats(
    state: State,
    signer: SignerKey,
    contexts: Seq<Context>,
    current: u32,
)
    requires
        state.answer(signer, contexts, current).is_err(),
    ensures
        state.after(signer, contexts, current) == state,
        state.after(signer, contexts, current).answer(signer, contexts, current) == state.answer(
            signer,
            contexts,
            current,
        ),
{
}

/// A request with no context, or with more than one, is rejected as
/// `NotAllowed` in every state, for every signer and at every ledger
/// sequence, and changes nothing.
pub proof fn lemma_one_context_only(
    state: State,
    signer: SignerKey,
    contexts: Seq<Context>,
    current: u32,
)
    requires
        contexts.len() != 1,
    ensures
        state.answer(signer, contexts, current) == Err::<(), Error>(Error::NotAllowed),
        state.after(signer, contexts, current) == state,
{
}

/// An accepted deposit changes the delegate's last accepted sequence and
/// nothing else: the administrator, the allowances and the other delegates'
/// records stay.
pub proof fn lemma_acceptance_touches_one_record(
    state: State,
    signer: SignerKey,
    contexts: Seq<Context>,
    current: u32,
    other: Seq<u8>,
)
    requires
        state.answer(signer, contexts, current).is_ok(),
        delegate_of(signer) != Some(other),
    ensures
        state.after(signer, contexts, current).admin == state.admin,
        state.after(signer, contexts, current).allowances == state.allowances,
        state.after(signer, contexts, current).previous_of(other) == state.previous_of(other),
        state.after(signer, contexts, current).previous_of(delegate_of(signer).unwrap()) == Some(
            current,
        ),
{
}

} // verus!
