use blueshift_vault::{
    seed, Account, Authority, Deposit, DepositAccounts, DepositInstructionData, VaultError,
    Withdraw, WithdrawAccounts,
};

const LAMPORTS_PER_SOL: u64 = 1_000_000_000;
const SYSTEM: [u8; 32] = [0u8; 32];
const OWNER_KEY: [u8; 32] = [3u8; 32];
const VAULT_KEY: [u8; 32] = [7u8; 32];
const BUMP: u8 = 254;

fn account(key: [u8; 32], owner: [u8; 32], lamports: u64, is_signer: bool) -> Account {
    Account { key, owner, lamports, is_signer }
}

fn deposit_data(bump: u8, amount: u64) -> Vec<u8> {
    let mut data = vec![bump];
    data.extend_from_slice(&amount.to_le_bytes());
    data
}

fn request(owner: Account, vault: Account) -> [Account; 3] {
    [owner, vault, account(SYSTEM, [9u8; 32], 1, false)]
}

#[test]
fn deposit_then_withdraw() {
    let mut owner = account(OWNER_KEY, SYSTEM, 2 * LAMPORTS_PER_SOL, true);
    let mut vault = account(VAULT_KEY, SYSTEM, 0, false);
    assert_eq!(owner.lamports, 2 * LAMPORTS_PER_SOL);

    let data = deposit_data(BUMP, LAMPORTS_PER_SOL);
    let mut deposit = Deposit::check(&data, &request(owner, vault), Some(VAULT_KEY)).unwrap();
    let transfer = deposit.process();
    assert_eq!(transfer.from, OWNER_KEY);
    assert_eq!(transfer.to, VAULT_KEY);
    assert!(matches!(transfer.authority, Authority::Signer));
    transfer.apply(&mut owner, &mut vault).unwrap();
    assert_eq!(vault.lamports, LAMPORTS_PER_SOL);
    assert_eq!(owner.lamports, LAMPORTS_PER_SOL);

    let data = vec![BUMP];
    let mut withdraw = Withdraw::check(&data, &request(owner, vault), Some(VAULT_KEY)).unwrap();
    let transfer = withdraw.process();
    assert_eq!(transfer.lamports, LAMPORTS_PER_SOL);
    transfer.apply(&mut vault, &mut owner).unwrap();
    assert_eq!(vault.lamports, 0);
    assert_eq!(owner.lamports, 2 * LAMPORTS_PER_SOL);
}

#[test]
fn redeposit_after_full_withdraw_is_allowed() {
    let mut owner = account(OWNER_KEY, SYSTEM, 500, true);
    let mut vault = account(VAULT_KEY, SYSTEM, 0, false);
    let data = deposit_data(BUMP, 200);
    let mut deposit = Deposit::check(&data, &request(owner, vault), Some(VAULT_KEY)).unwrap();
    deposit.process().apply(&mut owner, &mut vault).unwrap();
    let mut withdraw = Withdraw::check(&[BUMP], &request(owner, vault), Some(VAULT_KEY)).unwrap();
    withdraw.process().apply(&mut vault, &mut owner).unwrap();
    assert_eq!(owner.lamports, 500);
    let again = Deposit::check(&data, &request(owner, vault), Some(VAULT_KEY));
    assert!(again.is_ok());
}

#[test]
fn withdraw_from_empty_vault_transfers_zero() {
    let mut owner = account(OWNER_KEY, SYSTEM, 42, true);
    let mut vault = account(VAULT_KEY, SYSTEM, 0, false);
    let mut withdraw = Withdraw::check(&[BUMP], &request(owner, vault), Some(VAULT_KEY)).unwrap();
    let transfer = withdraw.process();
    assert_eq!(transfer.lamports, 0);
    transfer.apply(&mut vault, &mut owner).unwrap();
    assert_eq!(owner.lamports, 42);
    assert_eq!(vault.lamports, 0);
}

#[test]
fn withdraw_presents_the_derivation_seeds() {
    let owner = account(OWNER_KEY, SYSTEM, 1, true);
    let vault = account(VAULT_KEY, SYSTEM, 77, false);
    let mut withdraw = Withdraw::check(&[BUMP], &request(owner, vault), Some(VAULT_KEY)).unwrap();
    let transfer = withdraw.process();
    assert_eq!(transfer.from, VAULT_KEY);
    assert_eq!(transfer.to, OWNER_KEY);
    assert_eq!(transfer.lamports, 77);
    match transfer.authority {
        Authority::Derived(auth) => {
            assert_eq!(auth.seeds, vec![b"vault".to_vec(), OWNER_KEY.to_vec(), vec![BUMP]]);
        }
        Authority::Signer => panic!("a vault has no key to sign with"),
    }
}

#[test]
fn seed_is_the_vault_tag() {
    assert_eq!(&seed(), b"vault");
}

#[test]
fn wrong_vault_rejected_even_with_balance() {
    let owner = account(OWNER_KEY, SYSTEM, 100, true);
    let vault = account([8u8; 32], SYSTEM, 5_000, false);
    let accounts = request(owner, vault);
    let d = Deposit::check(&deposit_data(BUMP, 10), &accounts, Some(VAULT_KEY));
    assert_eq!(d, Err(VaultError::AddressMismatch));
    let w = Withdraw::check(&[BUMP], &accounts, Some(VAULT_KEY));
    assert_eq!(w, Err(VaultError::AddressMismatch));
}

#[test]
fn refused_derivation_is_address_mismatch() {
    let owner = account(OWNER_KEY, SYSTEM, 100, true);
    let vault = account(VAULT_KEY, SYSTEM, 0, false);
    let accounts = request(owner, vault);
    assert_eq!(
        DepositAccounts::check(&accounts, None),
        Err(VaultError::AddressMismatch)
    );
    assert_eq!(
        WithdrawAccounts::check(&accounts, None),
        Err(VaultError::AddressMismatch)
    );
}

#[test]
fn redeposit_into_funded_vault_rejected() {
    let owner = account(OWNER_KEY, SYSTEM, 100, true);
    let vault = account(VAULT_KEY, SYSTEM, 1, false);
    let d = Deposit::check(&deposit_data(BUMP, 10), &request(owner, vault), Some(VAULT_KEY));
    assert_eq!(d, Err(VaultError::NonEmptyVault));
}

#[test]
fn unsigned_owner_rejected() {
    let owner = account(OWNER_KEY, SYSTEM, 100, false);
    let vault = account(VAULT_KEY, SYSTEM, 0, false);
    let accounts = request(owner, vault);
    let d = Deposit::check(&deposit_data(BUMP, 10), &accounts, Some(VAULT_KEY));
    assert_eq!(d, Err(VaultError::NotSigner));
    let w = Withdraw::check(&[BUMP], &accounts, Some(VAULT_KEY));
    assert_eq!(w, Err(VaultError::NotSigner));
}

#[test]
fn vault_not_owned_by_system_rejected() {
    let owner = account(OWNER_KEY, SYSTEM, 100, true);
    let vault = account(VAULT_KEY, [5u8; 32], 0, false);
    let accounts = request(owner, vault);
    let d = Deposit::check(&deposit_data(BUMP, 10), &accounts, Some(VAULT_KEY));
    assert_eq!(d, Err(VaultError::WrongOwner));
    let w = Withdraw::check(&[BUMP], &accounts, Some(VAULT_KEY));
    assert_eq!(w, Err(VaultError::WrongOwner));
}

#[test]
fn malformed_parameters_rejected() {
    let owner = account(OWNER_KEY, SYSTEM, 100, true);
    let vault = account(VAULT_KEY, SYSTEM, 0, false);
    let accounts = request(owner, vault);
    let short = vec![BUMP, 1, 2, 3, 4, 5, 6, 7];
    assert_eq!(
        Deposit::check(&short, &accounts, Some(VAULT_KEY)),
        Err(VaultError::MalformedInput)
    );
    assert_eq!(
        Deposit::check(&[], &accounts, Some(VAULT_KEY)),
        Err(VaultError::MalformedInput)
    );
    assert_eq!(
        Withdraw::check(&[BUMP, 0], &accounts, Some(VAULT_KEY)),
        Err(VaultError::MalformedInput)
    );
    assert_eq!(
        Withdraw::check(&[], &accounts, Some(VAULT_KEY)),
        Err(VaultError::MalformedInput)
    );
    assert_eq!(
        DepositInstructionData::parse(&[1, 2, 3]),
        Err(VaultError::MalformedInput)
    );
}

#[test]
fn missing_accounts_rejected() {
    let owner = account(OWNER_KEY, SYSTEM, 100, true);
    let vault = account(VAULT_KEY, SYSTEM, 0, false);
    let two = [owner, vault];
    assert_eq!(
        Deposit::check(&deposit_data(BUMP, 1), &two, Some(VAULT_KEY)),
        Err(VaultError::MissingAccounts)
    );
    assert_eq!(
        Withdraw::check(&[BUMP], &two, Some(VAULT_KEY)),
        Err(VaultError::MissingAccounts)
    );
    assert_eq!(
        Deposit::parse(&deposit_data(BUMP, 1), &two, &[4u8; 32]),
        Err(VaultError::MissingAccounts)
    );
    assert_eq!(
        Withdraw::parse(&[BUMP], &two, &[4u8; 32]),
        Err(VaultError::MissingAccounts)
    );
}

#[test]
fn amount_is_little_endian() {
    let parsed = DepositInstructionData::parse(&[1, 2, 3, 4, 5, 6, 7, 8]).unwrap();
    assert_eq!(parsed.amount, 0x0807_0605_0403_0201);
    let max = DepositInstructionData::parse(&[0xff; 8]).unwrap();
    assert_eq!(max.amount, u64::MAX);
    let owner = account(OWNER_KEY, SYSTEM, 100, true);
    let vault = account(VAULT_KEY, SYSTEM, 0, false);
    let d = Deposit::check(&deposit_data(BUMP, 1_000_000_000), &request(owner, vault), Some(VAULT_KEY))
        .unwrap();
    assert_eq!(d.instruction_datas.amount, 1_000_000_000);
}

#[test]
fn overdrawing_deposit_fails_without_change() {
    let mut owner = account(OWNER_KEY, SYSTEM, 10, true);
    let mut vault = account(VAULT_KEY, SYSTEM, 0, false);
    let mut deposit =
        Deposit::check(&deposit_data(BUMP, 11), &request(owner, vault), Some(VAULT_KEY)).unwrap();
    let r = deposit.process().apply(&mut owner, &mut vault);
    assert_eq!(r, Err(VaultError::InsufficientBalance));
    assert_eq!(owner.lamports, 10);
    assert_eq!(vault.lamports, 0);
}

#[test]
fn discriminators_route_the_operations() {
    assert_eq!(Deposit::DISCRIMINATOR, 0);
    assert_eq!(Withdraw::DISCRIMINATOR, 1);
}
