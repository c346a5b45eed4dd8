use balance_ledger::derivation::{balance_account_address, derive_address, signer_seeds};
use balance_ledger::{Address, ProvisionRequest};
use solana_program::instruction::AccountMeta;
use solana_program::pubkey::Pubkey;
use solana_program::{system_instruction, system_program};

fn program() -> Address {
    Address::new([7u8; 32])
}

fn user() -> Address {
    let mut bytes = [0u8; 32];
    for (i, byte) in bytes.iter_mut().enumerate() {
        *byte = (i * 3) as u8;
    }
    Address::new(bytes)
}

#[test]
fn seeds_are_prefix_identity_and_bump() {
    let seeds = signer_seeds(&user(), 253);
    assert_eq!(seeds.len(), 3);
    assert_eq!(seeds[0], b"balance_account".to_vec());
    assert_eq!(seeds[1], user().to_bytes().to_vec());
    assert_eq!(seeds[2], vec![253u8]);
}

#[test]
fn derivation_is_deterministic() {
    for bump in [255u8, 254, 200, 3, 0] {
        let first = balance_account_address(&user(), bump, &program());
        let second = balance_account_address(&user(), bump, &program());
        assert_eq!(first, second);
    }
    let seeds = vec![b"one".to_vec(), vec![2u8, 3]];
    assert_eq!(derive_address(&seeds, &program()), derive_address(&seeds.clone(), &program()));
}

#[test]
fn derivation_is_the_hosts() {
    let program_key = Pubkey::new_from_array(program().to_bytes());
    let user_bytes = user().to_bytes();
    let (expected, bump) =
        Pubkey::find_program_address(&[b"balance_account", &user_bytes], &program_key);
    let derived = balance_account_address(&user(), bump, &program());
    assert_eq!(derived, Some(Address::new(expected.to_bytes())));
    assert_ne!(derived, Some(user()));
    assert_ne!(derived, Some(program()));
    for higher in (bump as u16 + 1)..=255 {
        assert_eq!(balance_account_address(&user(), higher as u8, &program()), None);
    }
}

#[test]
fn derivation_depends_on_every_input() {
    let program_key = Pubkey::new_from_array(program().to_bytes());
    let user_bytes = user().to_bytes();
    let (_, bump) = Pubkey::find_program_address(&[b"balance_account", &user_bytes], &program_key);
    let here = balance_account_address(&user(), bump, &program());
    assert!(here.is_some());
    assert_ne!(here, balance_account_address(&Address::new([1u8; 32]), bump, &program()));
    assert_ne!(here, balance_account_address(&user(), bump, &Address::new([8u8; 32])));
    assert_ne!(here, balance_account_address(&user(), bump.wrapping_sub(1), &program()));
}

#[test]
fn derivation_of_arbitrary_seeds_is_the_hosts() {
    let program_key = Pubkey::new_from_array(program().to_bytes());
    for tag in 0u8..20 {
        let seeds = vec![b"vault".to_vec(), vec![tag]];
        let expected = Pubkey::create_program_address(&[b"vault", &[tag]], &program_key)
            .ok()
            .map(|key| Address::new(key.to_bytes()));
        assert_eq!(derive_address(&seeds, &program()), expected);
    }
}

#[test]
fn derivation_refuses_oversized_seeds() {
    assert_eq!(derive_address(&vec![vec![0u8; 33]], &program()), None);
    assert_eq!(derive_address(&vec![vec![1u8]; 17], &program()), None);
}

#[test]
fn invocation_is_the_system_allocation() {
    let target = Address::new([33u8; 32]);
    let request = ProvisionRequest {
        funder: user(),
        target,
        allocator: Address::new([0u8; 32]),
        owner: program(),
        space: 12,
        bump: 250,
    };
    let call = request.invocation(946_560);

    let expected = system_instruction::create_account(
        &Pubkey::new_from_array(user().to_bytes()),
        &Pubkey::new_from_array(target.to_bytes()),
        946_560,
        12,
        &Pubkey::new_from_array(program().to_bytes()),
    );
    assert_eq!(call.instruction.program_id.to_bytes(), system_program::id().to_bytes());
    assert_eq!(call.instruction.program_id, Address::new([0u8; 32]));
    assert_eq!(call.instruction.data, expected.data);
    let metas: Vec<AccountMeta> = call
        .instruction
        .accounts
        .iter()
        .map(|role| AccountMeta {
            pubkey: Pubkey::new_from_array(role.key.to_bytes()),
            is_signer: role.is_signer,
            is_writable: role.is_writable,
        })
        .collect();
    assert_eq!(metas, expected.accounts);

    let mut payload = vec![0u8, 0, 0, 0];
    payload.extend_from_slice(&946_560u64.to_le_bytes());
    payload.extend_from_slice(&12u64.to_le_bytes());
    payload.extend_from_slice(&program().to_bytes());
    assert_eq!(call.instruction.data, payload);

    assert_eq!(call.instruction.accounts.len(), 2);
    assert_eq!(call.instruction.accounts[0].key, user());
    assert!(call.instruction.accounts[0].is_signer && call.instruction.accounts[0].is_writable);
    assert_eq!(call.instruction.accounts[1].key, target);
    assert!(call.instruction.accounts[1].is_signer && call.instruction.accounts[1].is_writable);
    assert_eq!(call.account_keys, vec![user(), target, Address::new([0u8; 32])]);
    assert_eq!(call.signer_seeds, signer_seeds(&user(), 250));
}

#[test]
fn conclusion_reports_the_hosts_refusal() {
    let request = ProvisionRequest {
        funder: user(),
        target: Address::new([33u8; 32]),
        allocator: Address::new([0u8; 32]),
        owner: program(),
        space: 12,
        bump: 250,
    };
    assert_eq!(request.conclude(true), Ok(()));
    assert_eq!(request.conclude(false), Err(balance_ledger::LedgerError::ProvisionFailed));
}

#[test]
fn addresses_compare_by_their_bytes() {
    let mut bytes = [5u8; 32];
    let a = Address::new(bytes);
    assert_eq!(a, Address::new([5u8; 32]));
    assert_eq!(a.to_bytes(), bytes);
    assert_eq!(a.to_vec(), bytes.to_vec());
    bytes[31] = 6;
    assert_ne!(a, Address::new(bytes));
    bytes[31] = 5;
    bytes[0] = 4;
    assert_ne!(a, Address::new(bytes));
}
