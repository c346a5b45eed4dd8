use vstd::prelude::*;
use crate::account::Account;
use crate::address::Address;
use crate::derivation::{
    balance_account_address, balance_account_seeds, signer_seeds, spec_balance_account_address,
};
use crate::error::LedgerError;

verus! {

/// Bytes of storage that a balance record is allocated with.
pub const RECORD_SPACE: u64 = 12;

/// How an instruction for the host refers to one account.
#[derive(Clone, Copy, Debug, PartialEq, Eq)]
pub struct AccountRole {
    pub key: Address,
    pub is_signer: bool,
    pub is_writable: bool,
}

/// An instruction for another program on the host.
#[derive(Clone, Debug, PartialEq, Eq)]
pub struct HostInstruction {
    pub program_id: Address,
    pub accounts: Vec<AccountRole>,
    pub data: Vec<u8>,
}

/// The identity of the host's system program, which allocates accounts:
/// thirty-two zero bytes.
pub open spec fn system_program_id() -> Seq<u8> {
    Seq::new(32, |i: int| 0u8)
}

/// The payload of the system program's instruction that creates an account,
/// as the host's library encodes it.
pub uninterp spec fn create_account_data(
    from: Seq<u8>,
    to: Seq<u8>,
    lamports: u64,
    space: u64,
    owner: Seq<u8>,
) -> Seq<u8>;

/// Calls `solana_program::system_instruction::create_account`.
///
/// Trusted: the instruction is for the system program; it names `from` and
/// then `to`, each as a writable signer; its payload is
/// `create_account_data` of the five arguments.
#[verifier::external_body]
fn system_create_account(
    from: &Address,
    to: &Address,
    lamports: u64,
    space: u64,
    owner: &Address,
) -> (instruction: HostInstruction)
    ensures
        instruction.program_id@ == system_program_id(),
        instruction.accounts@ == seq![
            AccountRole { key: *from, is_signer: true, is_writable: true },
            AccountRole { key: *to, is_signer: true, is_writable: true },
        ],
        instruction.data@ == create_account_data(from@, to@, lamports, space, owner@),
{
    let made = solana_program::system_instruction::create_account(
        &solana_program::pubkey::Pubkey::new_from_array(from.bytes),
        &solana_program::pubkey::Pubkey::new_from_array(to.bytes),
        lamports,
        space,
        &solana_program::pubkey::Pubkey::new_from_array(owner.bytes),
    );
    let roles = made.accounts.iter().map(
        |meta| AccountRole { key: Address::new(meta.pubkey.to_bytes()), is_signer: meta.is_signer, is_writable: meta.is_writable },
    );
    HostInstruction { program_id: Address::new(made.program_id.to_bytes()), accounts: roles.collect(), data: made.data }
}

/// What provisioning asks of the host once the accounts have been checked:
/// `space` bytes at `target`, paid for by `funder` and owned by `owner`,
/// signed for with the seeds of `funder` and `bump`.
#[derive(Clone, Copy, Debug, PartialEq, Eq)]
pub struct ProvisionRequest {
    pub funder: Address,
    pub target: Address,
    pub allocator: Address,
    pub owner: Address,
    pub space: u64,
    pub bump: u8,
}

/// A call into the host: the instruction, the accounts that go with it, in
/// order, and the seeds with which the program signs for the derived
/// address.
#[derive(Clone, Debug, PartialEq, Eq)]
pub struct Invocation {
    pub instruction: HostInstruction,
    pub account_keys: Vec<Address>,
    pub signer_seeds: Vec<Vec<u8>>,
}

/// What provisioning decides for `accounts` and `bump` under `program_id`.
///
/// The accounts are, in order, the user (who pays), the balance record to
/// be, and the system allocator. The record must lie at the address derived
/// from the user's identity and the bump.
pub open spec fn provision_outcome(program_id: Address, accounts: Seq<Account>, bump: u8) -> Result<
    ProvisionRequest,
    LedgerError,
> {
    if accounts.len() < 3 {
        Err(LedgerError::NotEnoughAccountKeys)
    } else if spec_balance_account_address(accounts[0].key, bump, program_id) != Some(
        accounts[1].key@,
    ) {
        Err(LedgerError::ProvisionFailed)
    } else {
        Ok(
            ProvisionRequest {
                funder: accounts[0].key,
                target: accounts[1].key,
                allocator: accounts[2].key,
                owner: program_id,
                space: RECORD_SPACE,
                bump,
            },
        )
    }
}

/// First step of provisioning: checks the accounts and says what to ask of
/// the host.
pub fn process_create_balance_account_instruction(
    program_id: &Address,
    accounts: &Vec<Account>,
    bump: u8,
) -> (outcome: Result<ProvisionRequest, LedgerError>)
    ensures
        outcome == provision_outcome(*program_id, accounts@, bump),
        outcome matches Ok(request) ==> {
            &&& request.space == RECORD_SPACE
            &&& request.owner == *program_id
            &&& spec_balance_account_address(request.funder, request.bump, *program_id) == Some(
                request.target@,
            )
        },
{
    if accounts.len() < 3 {
        return Err(LedgerError::NotEnoughAccountKeys);
    }
    let funder: Address = accounts[0].key;
    let target: Address = accounts[1].key;
    let allocator: Address = accounts[2].key;
    match balance_account_address(&funder, bump, program_id) {
        Some(derived) => {
            if derived != target {
                return Err(LedgerError::ProvisionFailed);
            }
        },
        None => {
            return Err(LedgerError::ProvisionFailed);
        },
    }
    Ok(ProvisionRequest { funder, target, allocator, owner: *program_id, space: RECORD_SPACE, bump })
}

impl ProvisionRequest {
    /// Second step of provisioning: the call that allocates the record, once
    /// the host has said how many lamports keep `space` bytes exempt from
    /// rent.
    pub fn invocation(&self, lamports: u64) -> (call: Invocation)
        ensures
            call.instruction.program_id@ == system_program_id(),
            call.instruction.accounts@ == seq![
                AccountRole { key: self.funder, is_signer: true, is_writable: true },
                AccountRole { key: self.target, is_signer: true, is_writable: true },
            ],
            call.instruction.data@ == create_account_data(
                self.funder@,
                self.target@,
                lamports,
                self.space,
                self.owner@,
            ),
            call.account_keys@ == seq![self.funder, self.target, self.allocator],
            call.signer_seeds.deep_view() == balance_account_seeds(self.funder, self.bump),
    {
        let instruction = system_create_account(
            &self.funder,
            &self.target,
            lamports,
            self.space,
            &self.owner,
        );
        let account_keys: Vec<Address> = vec![self.funder, self.target, self.allocator];
        let signer_seeds = signer_seeds(&self.funder, self.bump);
        Invocation { instruction, account_keys, signer_seeds }
    }

    /// Last step of provisioning: whatever made the host refuse (the target
    /// exists already, the funder cannot pay, the signature does not fit),
    /// it is reported as the one failure of provisioning.
    pub fn conclude(&self, accepted: bool) -> (outcome: Result<(), LedgerError>)
        ensures
            outcome == if accepted {
                Ok::<(), LedgerError>(())
            } else {
                Err(LedgerError::ProvisionFailed)
            },
    {
        if accepted {
            Ok(())
        } else {
            Err(LedgerError::ProvisionFailed)
        }
    }
}

} // verus!
