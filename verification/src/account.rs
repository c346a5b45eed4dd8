use vstd::prelude::*;
use crate::address::Address;

verus! {

/// An account as the host hands it to an instruction: where it lives, which
/// program owns it, and the bytes it holds.
#[derive(Clone, Debug, PartialEq, Eq)]
pub struct Account {
    pub key: Address,
    pub owner: Address,
    pub data: Vec<u8>,
}

impl Account {
    /// An account at `key`, owned by `owner`, holding `data`.
    pub fn new(key: Address, owner: Address, data: Vec<u8>) -> (account: Account)
        ensures
            account.key == key,
            account.owner == owner,
            account.data == data,
    {
        Account { key, owner, data }
    }

    /// The ownership guard: does the account belong to `program_id`? Only
    /// then may an instruction of that program read or change its record.
    pub fn is_owned_by(&self, program_id: &Address) -> (owned: bool)
        ensures
            owned == (self.owner == *program_id),
    {
        proof {
            Address::lemma_view_injective(self.owner, *program_id);
        }
        self.owner == *program_id
    }
}

} // verus!
