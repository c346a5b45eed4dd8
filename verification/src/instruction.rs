use vstd::prelude::*;
use crate::account::Account;
use crate::address::Address;
use crate::error::LedgerError;
use crate::ledger::{
    credit_outcome, debit_outcome, process_credit_instruction, process_debit_instruction,
    record_replaced,
};
use crate::provision::{
    process_create_balance_account_instruction, provision_outcome, ProvisionRequest,
};
use crate::record::{le_value, read_u32_le};

verus! {

/// Opcode of the instruction that provisions a balance record.
pub const OPCODE_PROVISION: u8 = 1;

/// Opcode of the instruction that credits a balance record.
pub const OPCODE_CREDIT: u8 = 2;

/// Opcode of the instruction that debits a balance record.
pub const OPCODE_DEBIT: u8 = 3;

/// A decoded instruction.
#[derive(Clone, Copy, Debug, PartialEq, Eq, Structural)]
pub enum Instruction {
    /// Allocate the balance record of the first account's user.
    Provision { bump: u8 },
    /// Add `amount` to the credited total and to the balance.
    Credit { amount: u32 },
    /// Add `amount` to the debited total and take it from the balance.
    Debit { amount: u32 },
}

/// What an accepted instruction leaves to be done.
#[derive(Clone, Copy, Debug, PartialEq, Eq)]
pub enum Outcome {
    /// The balance record has been rewritten; nothing is left to do.
    Updated,
    /// The host is to allocate the record that the request describes.
    Allocate(ProvisionRequest),
}

impl Instruction {
    /// The instruction that `payload` spells, if it spells one.
    ///
    /// The first byte is the opcode. A provision carries exactly one more
    /// byte, the bump; a credit and a debit carry exactly four more, the
    /// amount, least significant byte first.
    pub open spec fn parsed(payload: Seq<u8>) -> Option<Instruction> {
        if payload.len() == 0 {
            None
        } else if payload[0] == OPCODE_PROVISION && payload.len() == 2 {
            Some(Instruction::Provision { bump: payload[1] })
        } else if payload[0] == OPCODE_CREDIT && payload.len() == 5 {
            Some(Instruction::Credit { amount: le_value(payload.subrange(1, 5)) as u32 })
        } else if payload[0] == OPCODE_DEBIT && payload.len() == 5 {
            Some(Instruction::Debit { amount: le_value(payload.subrange(1, 5)) as u32 })
        } else {
            None
        }
    }

    /// Decodes a payload.
    pub fn parse(payload: &[u8]) -> (outcome: Result<Instruction, LedgerError>)
        ensures
            outcome == match Self::parsed(payload@) {
                Some(instruction) => Ok::<Instruction, LedgerError>(instruction),
                None => Err(LedgerError::InvalidInstructionData),
            },
    {
        if payload.len() < 1 {
            return Err(LedgerError::InvalidInstructionData);
        }
        let opcode: u8 = payload[0];
        if opcode == OPCODE_PROVISION {
            if payload.len() != 2 {
                return Err(LedgerError::InvalidInstructionData);
            }
            Ok(Instruction::Provision { bump: payload[1] })
        } else if opcode == OPCODE_CREDIT || opcode == OPCODE_DEBIT {
            if payload.len() != 5 {
                return Err(LedgerError::InvalidInstructionData);
            }
            let amount = read_u32_le(payload[1], payload[2], payload[3], payload[4]);
            assert(payload@.subrange(1, 5) =~= seq![payload[1], payload[2], payload[3], payload[4]]);
            if opcode == OPCODE_CREDIT {
                Ok(Instruction::Credit { amount })
            } else {
                Ok(Instruction::Debit { amount })
            }
        } else {
            Err(LedgerError::InvalidInstructionData)
        }
    }
}

/// `outcome` and `after` are what carrying out `instruction` under
/// `program_id` makes of the accounts `before`.
///
/// A provision changes no account and hands back the request for the host.
/// A credit and a debit rewrite the record of the first account. Where the
/// instruction fails, no account has changed.
pub open spec fn carried_out(
    program_id: Address,
    before: Seq<Account>,
    after: Seq<Account>,
    instruction: Instruction,
    outcome: Result<Outcome, LedgerError>,
) -> bool {
    match instruction {
        Instruction::Provision { bump } => {
            &&& after == before
            &&& outcome == match provision_outcome(program_id, before, bump) {
                Ok(request) => Ok::<Outcome, LedgerError>(Outcome::Allocate(request)),
                Err(error) => Err(error),
            }
        },
        Instruction::Credit { amount } => match credit_outcome(program_id, before, amount) {
            Ok(state) => outcome == Ok::<Outcome, LedgerError>(Outcome::Updated) && record_replaced(
                before,
                after,
                state,
            ),
            Err(error) => outcome == Err::<Outcome, LedgerError>(error) && after == before,
        },
        Instruction::Debit { amount } => match debit_outcome(program_id, before, amount) {
            Ok(state) => outcome == Ok::<Outcome, LedgerError>(Outcome::Updated) && record_replaced(
                before,
                after,
                state,
            ),
            Err(error) => outcome == Err::<Outcome, LedgerError>(error) && after == before,
        },
    }
}

/// Carries out a decoded instruction on the accounts that came with it.
pub fn dispatch(program_id: &Address, accounts: &mut Vec<Account>, instruction: Instruction) -> (outcome:
    Result<Outcome, LedgerError>)
    ensures
        carried_out(*program_id, old(accounts)@, final(accounts)@, instruction, outcome),
{
    match instruction {
        Instruction::Provision { bump } => {
            let request = process_create_balance_account_instruction(program_id, accounts, bump)?;
            Ok(Outcome::Allocate(request))
        },
        Instruction::Credit { amount } => {
            process_credit_instruction(program_id, accounts, amount)?;
            Ok(Outcome::Updated)
        },
        Instruction::Debit { amount } => {
            process_debit_instruction(program_id, accounts, amount)?;
            Ok(Outcome::Updated)
        },
    }
}

/// The program's entry: decodes `instruction_data` and carries the
/// instruction out on `accounts`.
///
/// A payload that spells no instruction is turned down before any account
/// is looked at.
pub fn process_instruction(
    program_id: &Address,
    accounts: &mut Vec<Account>,
    instruction_data: &[u8],
) -> (outcome: Result<Outcome, LedgerError>)
    ensures
        match Instruction::parsed(instruction_data@) {
            Some(instruction) => carried_out(
                *program_id,
                old(accounts)@,
                final(accounts)@,
                instruction,
                outcome,
            ),
            None => outcome == Err::<Outcome, LedgerError>(LedgerError::InvalidInstructionData)
                && final(accounts)@ == old(accounts)@,
        },
{
    let instruction = Instruction::parse(instruction_data)?;
    dispatch(program_id, accounts, instruction)
}

} // verus!
