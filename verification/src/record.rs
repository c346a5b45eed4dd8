use vstd::prelude::*;
use crate::error::LedgerError;

verus! {

/// Number of bytes a persisted balance record occupies.
pub const RECORD_LEN: usize = 12;

/// The four bytes of `value`, least significant first.
pub open spec fn le_bytes(value: u32) -> Seq<u8> {
    seq![
        (value % 256) as u8,
        ((value / 256) % 256) as u8,
        ((value / 65536) % 256) as u8,
        (value / 16777216) as u8,
    ]
}

/// The number that the first four bytes of `bytes` spell, least significant
/// byte first.
pub open spec fn le_value(bytes: Seq<u8>) -> int
    recommends
        bytes.len() >= 4,
{
    bytes[0] + 256 * bytes[1] + 65536 * bytes[2] + 16777216 * bytes[3]
}

/// Reading back the four bytes written for a number gives that number.
pub proof fn lemma_le_value_of_le_bytes(value: u32)
    ensures
        le_bytes(value).len() == 4,
        le_value(le_bytes(value)) == value,
{
}

/// Writing the number that four bytes spell gives those four bytes back.
pub proof fn lemma_le_bytes_of_le_value(bytes: Seq<u8>)
    requires
        bytes.len() == 4,
    ensures
        0 <= le_value(bytes) <= u32::MAX,
        le_bytes(le_value(bytes) as u32) == bytes,
{
    let b0: int = bytes[0] as int;
    let b1: int = bytes[1] as int;
    let b2: int = bytes[2] as int;
    let b3: int = bytes[3] as int;
    let upper: int = b2 + 256 * b3;
    let middle: int = b1 + 256 * upper;
    let value: int = b0 + 256 * middle;
    assert(value == le_value(bytes));
    assert(value % 256 == b0 && value / 256 == middle);
    assert(middle % 256 == b1 && middle / 256 == upper);
    assert(upper % 256 == b2 && upper / 256 == b3);
    assert(value / 65536 == upper) by {
        assert(value == (b0 + 256 * b1) + 65536 * upper);
    }
    assert(value / 16777216 == b3) by {
        assert(value == (b0 + 256 * b1 + 65536 * b2) + 16777216 * b3);
    }
    assert(le_bytes(value as u32) =~= bytes);
}

/// Decodes four bytes, least significant first.
pub fn read_u32_le(b0: u8, b1: u8, b2: u8, b3: u8) -> (value: u32)
    ensures
        value == le_value(seq![b0, b1, b2, b3]),
{
    let low: u32 = b0 as u32 + b1 as u32 * 256;
    let high: u32 = b2 as u32 * 65536 + b3 as u32 * 16777216;
    low + high
}

/// Appends the four bytes of `value`, least significant first.
pub fn write_u32_le(out: &mut Vec<u8>, value: u32)
    ensures
        final(out)@ == old(out)@ + le_bytes(value),
{
    out.push((value % 256) as u8);
    out.push(((value / 256) % 256) as u8);
    out.push(((value / 65536) % 256) as u8);
    out.push((value / 16777216) as u8);
    assert(out@ =~= old(out)@ + le_bytes(value));
}

/// The state kept for one user: what was credited in total, what was debited
/// in total, and what can still be spent.
#[derive(Clone, Copy, Debug, PartialEq, Eq, Structural)]
pub struct BalanceAccount {
    pub credited_amount: u32,
    pub debited_amount: u32,
    pub balance: u32,
}

impl BalanceAccount {
    /// The ledger's invariant: the balance is what was credited less what was
    /// debited, and no more was debited than credited.
    pub open spec fn consistent(self) -> bool {
        &&& self.credited_amount >= self.debited_amount
        &&& self.balance == self.credited_amount - self.debited_amount
    }

    /// The record of a freshly provisioned account.
    pub open spec fn spec_zero() -> BalanceAccount {
        BalanceAccount { credited_amount: 0, debited_amount: 0, balance: 0 }
    }

    /// The twelve bytes that persist this state: the three counters in the
    /// order credited, debited, balance, each least significant byte first.
    pub open spec fn encoded(self) -> Seq<u8> {
        le_bytes(self.credited_amount) + le_bytes(self.debited_amount) + le_bytes(self.balance)
    }

    /// The state that `data` persists, if `data` is a record at all, that is
    /// if it has exactly twelve bytes.
    pub open spec fn decoded(data: Seq<u8>) -> Option<BalanceAccount> {
        if data.len() == RECORD_LEN {
            Some(
                BalanceAccount {
                    credited_amount: le_value(data.subrange(0, 4)) as u32,
                    debited_amount: le_value(data.subrange(4, 8)) as u32,
                    balance: le_value(data.subrange(8, 12)) as u32,
                },
            )
        } else {
            None
        }
    }

    /// What a credit of `amount` makes of this state: both the credited total
    /// and the balance grow by `amount`, unless either would leave the 32-bit
    /// range.
    pub open spec fn spec_credit(self, amount: u32) -> Result<BalanceAccount, LedgerError> {
        if self.credited_amount + amount > u32::MAX || self.balance + amount > u32::MAX {
            Err(LedgerError::OverflowError)
        } else {
            Ok(
                BalanceAccount {
                    credited_amount: (self.credited_amount + amount) as u32,
                    debited_amount: self.debited_amount,
                    balance: (self.balance + amount) as u32,
                },
            )
        }
    }

    /// What a debit of `amount` makes of this state. Sufficiency is decided
    /// first; then the debited total grows and the balance shrinks by
    /// `amount`, unless the debited total would leave the 32-bit range.
    pub open spec fn spec_debit(self, amount: u32) -> Result<BalanceAccount, LedgerError> {
        if self.balance < amount {
            Err(LedgerError::InsufficientFunds)
        } else if self.debited_amount + amount > u32::MAX {
            Err(LedgerError::OverflowError)
        } else {
            Ok(
                BalanceAccount {
                    credited_amount: self.credited_amount,
                    debited_amount: (self.debited_amount + amount) as u32,
                    balance: (self.balance - amount) as u32,
                },
            )
        }
    }

    /// The record of a freshly provisioned account: all counters zero.
    pub fn zero() -> (state: BalanceAccount)
        ensures
            state == Self::spec_zero(),
            state.consistent(),
    {
        BalanceAccount { credited_amount: 0, debited_amount: 0, balance: 0 }
    }

    /// Reads a state from the bytes of an account. The bytes are a record
    /// exactly when there are twelve of them.
    pub fn try_from_slice(data: &[u8]) -> (outcome: Result<BalanceAccount, LedgerError>)
        ensures
            outcome == match Self::decoded(data@) {
                Some(state) => Ok::<BalanceAccount, LedgerError>(state),
                None => Err(LedgerError::InvalidAccountData),
            },
    {
        if data.len() != RECORD_LEN {
            return Err(LedgerError::InvalidAccountData);
        }
        let credited_amount = read_u32_le(data[0], data[1], data[2], data[3]);
        let debited_amount = read_u32_le(data[4], data[5], data[6], data[7]);
        let balance = read_u32_le(data[8], data[9], data[10], data[11]);
        proof {
            assert(data@.subrange(0, 4) =~= seq![data[0], data[1], data[2], data[3]]);
            assert(data@.subrange(4, 8) =~= seq![data[4], data[5], data[6], data[7]]);
            assert(data@.subrange(8, 12) =~= seq![data[8], data[9], data[10], data[11]]);
        }
        Ok(BalanceAccount { credited_amount, debited_amount, balance })
    }

    /// The twelve bytes that persist this state.
    pub fn to_bytes(&self) -> (data: Vec<u8>)
        ensures
            data@ == self.encoded(),
            data@.len() == RECORD_LEN,
            Self::decoded(data@) == Some(*self),
    {
        let mut data: Vec<u8> = Vec::new();
        write_u32_le(&mut data, self.credited_amount);
        write_u32_le(&mut data, self.debited_amount);
        write_u32_le(&mut data, self.balance);
        proof {
            assert(data@ =~= self.encoded());
            Self::lemma_decode_encode(*self);
        }
        data
    }

    /// Credits `amount`, with checked arithmetic.
    pub fn credit(&self, amount: u32) -> (outcome: Result<BalanceAccount, LedgerError>)
        ensures
            outcome == self.spec_credit(amount),
            self.consistent() ==> (outcome matches Ok(next) ==> next.consistent()),
    {
        match (self.credited_amount.checked_add(amount), self.balance.checked_add(amount)) {
            (Some(credited_amount), Some(balance)) => Ok(
                BalanceAccount { credited_amount, debited_amount: self.debited_amount, balance },
            ),
            _ => Err(LedgerError::OverflowError),
        }
    }

    /// Debits `amount` if the balance covers it, with checked arithmetic.
    pub fn debit(&self, amount: u32) -> (outcome: Result<BalanceAccount, LedgerError>)
        ensures
            outcome == self.spec_debit(amount),
            self.consistent() ==> (outcome matches Ok(next) ==> next.consistent()),
    {
        if self.balance < amount {
            return Err(LedgerError::InsufficientFunds);
        }
        match self.debited_amount.checked_add(amount) {
            Some(debited_amount) => Ok(
                BalanceAccount {
                    credited_amount: self.credited_amount,
                    debited_amount,
                    balance: self.balance - amount,
                },
            ),
            None => Err(LedgerError::OverflowError),
        }
    }

    /// Decoding the bytes written for a state gives that state back, field
    /// for field.
    pub proof fn lemma_decode_encode(state: BalanceAccount)
        ensures
            state.encoded().len() == RECORD_LEN,
            Self::decoded(state.encoded()) == Some(state),
    {
        let data = state.encoded();
        assert(data.subrange(0, 4) =~= le_bytes(state.credited_amount));
        assert(data.subrange(4, 8) =~= le_bytes(state.debited_amount));
        assert(data.subrange(8, 12) =~= le_bytes(state.balance));
        lemma_le_value_of_le_bytes(state.credited_amount);
        lemma_le_value_of_le_bytes(state.debited_amount);
        lemma_le_value_of_le_bytes(state.balance);
    }

    /// Every twelve-byte record decodes, and encoding what it decodes to
    /// gives the same twelve bytes back.
    pub proof fn lemma_encode_decode(data: Seq<u8>)
        requires
            data.len() == RECORD_LEN,
        ensures
            Self::decoded(data) is Some,
            Self::decoded(data).unwrap().encoded() == data,
    {
        lemma_le_bytes_of_le_value(data.subrange(0, 4));
        lemma_le_bytes_of_le_value(data.subrange(4, 8));
        lemma_le_bytes_of_le_value(data.subrange(8, 12));
        assert(Self::decoded(data).unwrap().encoded() =~= data);
    }

    /// Twelve zero bytes, as the host hands them out for a new account, are
    /// the record of the zero state.
    pub proof fn lemma_zero_record()
        ensures
            Self::spec_zero().encoded() == Seq::new(RECORD_LEN as nat, |i: int| 0u8),
            Self::decoded(Seq::new(RECORD_LEN as nat, |i: int| 0u8)) == Some(Self::spec_zero()),
            Self::spec_zero().consistent(),
    {
        assert(Self::spec_zero().encoded() =~= Seq::new(RECORD_LEN as nat, |i: int| 0u8));
        Self::lemma_decode_encode(Self::spec_zero());
    }
}

} // verus!
