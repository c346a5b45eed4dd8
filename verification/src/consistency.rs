use vstd::prelude::*;
use crate::account::Account;
use crate::address::Address;
use crate::error::LedgerError;
use crate::instruction::{carried_out, Instruction, Outcome};
use crate::record::BalanceAccount;

verus! {

/// The state that one instruction leaves of `state`. A credit or a debit
/// that is turned down leaves the state as it was, and so does a provision,
/// which never touches a record that exists.
pub open spec fn state_after(state: BalanceAccount, instruction: Instruction) -> BalanceAccount {
    match instruction {
        Instruction::Provision { bump } => state,
        Instruction::Credit { amount } => match state.spec_credit(amount) {
            Ok(next) => next,
            Err(_) => state,
        },
        Instruction::Debit { amount } => match state.spec_debit(amount) {
            Ok(next) => next,
            Err(_) => state,
        },
    }
}

/// The state of a record that was provisioned and then saw `history`, first
/// instruction first.
pub open spec fn state_reached(history: Seq<Instruction>) -> BalanceAccount
    decreases history.len(),
{
    if history.len() == 0 {
        BalanceAccount::spec_zero()
    } else {
        state_after(state_reached(history.drop_last()), history.last())
    }
}

/// A credit keeps the invariant, never lowers a counter and leaves the
/// debited total alone.
pub proof fn lemma_credit_keeps_invariant(state: BalanceAccount, amount: u32)
    requires
        state.consistent(),
    ensures
        state.spec_credit(amount) matches Ok(next) ==> {
            &&& next.consistent()
            &&& next.credited_amount == state.credited_amount + amount
            &&& next.debited_amount == state.debited_amount
        },
        state.spec_credit(amount) is Err <==> state.credited_amount + amount > u32::MAX,
{
}

/// A debit keeps the invariant, never lowers a counter and leaves the
/// credited total alone. From a state that meets the invariant it fails only
/// for want of funds.
pub proof fn lemma_debit_keeps_invariant(state: BalanceAccount, amount: u32)
    requires
        state.consistent(),
    ensures
        state.spec_debit(amount) matches Ok(next) ==> {
            &&& next.consistent()
            &&& next.credited_amount == state.credited_amount
            &&& next.debited_amount == state.debited_amount + amount
        },
        state.spec_debit(amount) is Err <==> state.balance < amount,
        state.spec_debit(amount) is Err ==> state.spec_debit(amount) == Err::<
            BalanceAccount,
            LedgerError,
        >(LedgerError::InsufficientFunds),
{
}

/// One instruction keeps the invariant and lowers neither counter.
pub proof fn lemma_step_keeps_invariant(state: BalanceAccount, instruction: Instruction)
    requires
        state.consistent(),
    ensures
        state_after(state, instruction).consistent(),
        state_after(state, instruction).credited_amount >= state.credited_amount,
        state_after(state, instruction).debited_amount >= state.debited_amount,
{
}

/// Every state that a record can reach meets the invariant: the balance is
/// what was credited less what was debited, and no more was debited than
/// credited.
pub proof fn lemma_reached_state_consistent(history: Seq<Instruction>)
    ensures
        state_reached(history).consistent(),
    decreases history.len(),
{
    if history.len() > 0 {
        lemma_reached_state_consistent(history.drop_last());
        lemma_step_keeps_invariant(state_reached(history.drop_last()), history.last());
    }
}

/// The invariant holds of the bytes too: where the first account held the
/// record of a state that meets the invariant before an instruction was
/// carried out, it holds such a record afterwards, whether the instruction
/// succeeded or failed; and that state is the one that `state_after` names
/// whenever the program was allowed to touch the account.
pub proof fn lemma_persisted_record_consistent(
    program_id: Address,
    before: Seq<Account>,
    after: Seq<Account>,
    instruction: Instruction,
    outcome: Result<Outcome, LedgerError>,
)
    requires
        carried_out(program_id, before, after, instruction, outcome),
        before.len() >= 1,
        BalanceAccount::decoded(before[0].data@) matches Some(state) && state.consistent(),
    ensures
        after.len() == before.len(),
        BalanceAccount::decoded(after[0].data@) matches Some(state) && state.consistent(),
        before[0].owner == program_id ==> BalanceAccount::decoded(after[0].data@) == Some(
            state_after(BalanceAccount::decoded(before[0].data@).unwrap(), instruction),
        ),
        before[0].owner != program_id ==> after == before,
{
    let state = BalanceAccount::decoded(before[0].data@).unwrap();
    lemma_step_keeps_invariant(state, instruction);
    match instruction {
        Instruction::Provision { bump } => {},
        Instruction::Credit { amount } => {
            if let Ok(next) = state.spec_credit(amount) {
                BalanceAccount::lemma_decode_encode(next);
            }
        },
        Instruction::Debit { amount } => {
            if let Ok(next) = state.spec_debit(amount) {
                BalanceAccount::lemma_decode_encode(next);
            }
        },
    }
}

} // verus!
