use balance_ledger::{dispatch, process_instruction, Account, Address, Instruction, LedgerError, Outcome};

fn program() -> Address {
    Address::new([7u8; 32])
}

fn record() -> Vec<Account> {
    vec![Account::new(Address::new([9u8; 32]), program(), vec![0u8; 12])]
}

#[test]
fn parse_provision() {
    assert_eq!(Instruction::parse(&[1, 254]), Ok(Instruction::Provision { bump: 254 }));
    assert_eq!(Instruction::parse(&[1, 0]), Ok(Instruction::Provision { bump: 0 }));
}

#[test]
fn parse_credit_and_debit() {
    assert_eq!(
        Instruction::parse(&[2, 0x78, 0x56, 0x34, 0x12]),
        Ok(Instruction::Credit { amount: 0x1234_5678 })
    );
    assert_eq!(
        Instruction::parse(&[3, 0xe8, 0x03, 0, 0]),
        Ok(Instruction::Debit { amount: 1000 })
    );
    assert_eq!(
        Instruction::parse(&[3, 255, 255, 255, 255]),
        Ok(Instruction::Debit { amount: u32::MAX })
    );
}

#[test]
fn parse_empty_payload() {
    assert_eq!(Instruction::parse(&[]), Err(LedgerError::InvalidInstructionData));
}

#[test]
fn parse_unknown_opcode() {
    assert_eq!(Instruction::parse(&[0]), Err(LedgerError::InvalidInstructionData));
    assert_eq!(Instruction::parse(&[0, 1, 2, 3, 4]), Err(LedgerError::InvalidInstructionData));
    assert_eq!(Instruction::parse(&[4, 1, 2, 3, 4]), Err(LedgerError::InvalidInstructionData));
    assert_eq!(Instruction::parse(&[255, 1]), Err(LedgerError::InvalidInstructionData));
}

#[test]
fn parse_short_payload() {
    assert_eq!(Instruction::parse(&[1]), Err(LedgerError::InvalidInstructionData));
    assert_eq!(Instruction::parse(&[2]), Err(LedgerError::InvalidInstructionData));
    assert_eq!(Instruction::parse(&[2, 1, 2, 3]), Err(LedgerError::InvalidInstructionData));
    assert_eq!(Instruction::parse(&[3, 1]), Err(LedgerError::InvalidInstructionData));
}

#[test]
fn parse_long_payload() {
    assert_eq!(Instruction::parse(&[1, 2, 3]), Err(LedgerError::InvalidInstructionData));
    assert_eq!(Instruction::parse(&[2, 1, 2, 3, 4, 5]), Err(LedgerError::InvalidInstructionData));
    assert_eq!(Instruction::parse(&[3, 1, 2, 3, 4, 5]), Err(LedgerError::InvalidInstructionData));
}

#[test]
fn bad_payload_touches_no_account() {
    let mut accounts = record();
    let before = accounts.clone();
    for payload in [&[][..], &[9, 1, 0, 0, 0][..], &[2, 1, 0, 0][..], &[3][..]] {
        assert_eq!(
            process_instruction(&program(), &mut accounts, payload),
            Err(LedgerError::InvalidInstructionData)
        );
        assert_eq!(accounts, before);
    }
}

#[test]
fn bad_payload_is_refused_before_accounts_are_counted() {
    let mut accounts: Vec<Account> = Vec::new();
    assert_eq!(
        process_instruction(&program(), &mut accounts, &[2, 1]),
        Err(LedgerError::InvalidInstructionData)
    );
}

#[test]
fn dispatch_of_decoded_instructions() {
    let mut accounts = record();
    assert_eq!(
        dispatch(&program(), &mut accounts, Instruction::Credit { amount: 300 }),
        Ok(Outcome::Updated)
    );
    assert_eq!(
        dispatch(&program(), &mut accounts, Instruction::Debit { amount: 45 }),
        Ok(Outcome::Updated)
    );
    assert_eq!(accounts[0].data, vec![0x2c, 1, 0, 0, 45, 0, 0, 0, 255, 0, 0, 0]);
    assert_eq!(
        dispatch(&program(), &mut accounts, Instruction::Provision { bump: 1 }),
        Err(LedgerError::NotEnoughAccountKeys)
    );
}
