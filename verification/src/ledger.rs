use vstd::prelude::*;
use crate::account::Account;
use crate::address::Address;
use crate::error::LedgerError;
use crate::record::BalanceAccount;

verus! {

/// The state that the first of `accounts` holds, provided `program_id` may
/// touch it: there is such an account, the program owns it, and its data is
/// a record. Ownership is decided before a byte of the data is looked at.
pub open spec fn loaded_record(program_id: Address, accounts: Seq<Account>) -> Result<
    BalanceAccount,
    LedgerError,
> {
    if accounts.len() < 1 {
        Err(LedgerError::NotEnoughAccountKeys)
    } else if accounts[0].owner != program_id {
        Err(LedgerError::OwnershipError)
    } else {
        match BalanceAccount::decoded(accounts[0].data@) {
            Some(state) => Ok(state),
            None => Err(LedgerError::InvalidAccountData),
        }
    }
}

/// The state that a credit of `amount` leaves in the first of `accounts`, or
/// the reason why there is no credit.
pub open spec fn credit_outcome(program_id: Address, accounts: Seq<Account>, amount: u32) -> Result<
    BalanceAccount,
    LedgerError,
> {
    match loaded_record(program_id, accounts) {
        Ok(state) => state.spec_credit(amount),
        Err(error) => Err(error),
    }
}

/// The state that a debit of `amount` leaves in the first of `accounts`, or
/// the reason why there is no debit.
pub open spec fn debit_outcome(program_id: Address, accounts: Seq<Account>, amount: u32) -> Result<
    BalanceAccount,
    LedgerError,
> {
    match loaded_record(program_id, accounts) {
        Ok(state) => state.spec_debit(amount),
        Err(error) => Err(error),
    }
}

/// `after` is `before` with the data of its first account replaced by the
/// record of `state`; the account's key and owner, and every other account,
/// are as they were.
pub open spec fn record_replaced(before: Seq<Account>, after: Seq<Account>, state: BalanceAccount) -> bool {
    &&& before.len() >= 1
    &&& after.len() == before.len()
    &&& after[0].key == before[0].key
    &&& after[0].owner == before[0].owner
    &&& after[0].data@ == state.encoded()
    &&& forall|i: int| 1 <= i < before.len() ==> after[i] == before[i]
}

/// Reads the record of the first account, after the ownership guard.
pub fn load_record(program_id: &Address, accounts: &Vec<Account>) -> (outcome: Result<
    BalanceAccount,
    LedgerError,
>)
    ensures
        outcome == loaded_record(*program_id, accounts@),
{
    if accounts.len() < 1 {
        return Err(LedgerError::NotEnoughAccountKeys);
    }
    if !accounts[0].is_owned_by(program_id) {
        return Err(LedgerError::OwnershipError);
    }
    BalanceAccount::try_from_slice(accounts[0].data.as_slice())
}

/// Writes the record of `state` over the data of the first account, in one
/// piece.
fn store_record(accounts: &mut Vec<Account>, state: &BalanceAccount)
    requires
        old(accounts).len() >= 1,
    ensures
        record_replaced(old(accounts)@, final(accounts)@, *state),
{
    let data = state.to_bytes();
    accounts[0].data = data;
}

/// Credits `amount` to the balance record that is the first of `accounts`.
///
/// On success the record holds the credited state and nothing else has
/// changed; on any failure nothing has changed at all.
pub fn process_credit_instruction(program_id: &Address, accounts: &mut Vec<Account>, amount: u32) -> (outcome:
    Result<(), LedgerError>)
    ensures
        match credit_outcome(*program_id, old(accounts)@, amount) {
            Ok(state) => outcome is Ok && record_replaced(old(accounts)@, final(accounts)@, state),
            Err(error) => outcome == Err::<(), LedgerError>(error) && final(accounts)@ == old(accounts)@,
        },
{
    let state = load_record(program_id, accounts)?;
    let next = state.credit(amount)?;
    store_record(accounts, &next);
    Ok(())
}

/// Debits `amount` from the balance record that is the first of `accounts`.
///
/// On success the record holds the debited state and nothing else has
/// changed; on any failure, a balance that does not cover `amount` among
/// them, nothing has changed at all.
pub fn process_debit_instruction(program_id: &Address, accounts: &mut Vec<Account>, amount: u32) -> (outcome:
    Result<(), LedgerError>)
    ensures
        match debit_outcome(*program_id, old(accounts)@, amount) {
            Ok(state) => outcome is Ok && record_replaced(old(accounts)@, final(accounts)@, state),
            Err(error) => outcome == Err::<(), LedgerError>(error) && final(accounts)@ == old(accounts)@,
        },
{
    let state = load_record(program_id, accounts)?;
    let next = state.debit(amount)?;
    store_record(accounts, &next);
    Ok(())
}

} // verus!
