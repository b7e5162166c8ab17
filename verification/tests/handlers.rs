use fund::accounts::fund::{Fund, FundType};
use fund::accounts::vault::derive_vault_authority;
use fund::custody::{self, AccountMeta, Instruction};
use fund::error::{ErrorClass, FundError, FundErrorCode};
use fund::host::AccountView;
use fund::identity::Identity;
use fund::{close, withdraw};
use solana_program::program_error::ProgramError;
use solana_program::program_option::COption;
use solana_program::program_pack::Pack;
use solana_program::pubkey::Pubkey;

fn id(n: u8) -> Identity {
    Identity::new([n; 32])
}

fn this_program() -> Identity {
    id(42)
}

fn refused<T>(c: FundErrorCode) -> Result<T, FundError> {
    Err(FundError::ErrorCode(c))
}

fn view(key: Identity, owner: Identity, is_signer: bool, data: Vec<u8>) -> AccountView {
    AccountView {
        key,
        is_signer,
        is_writable: false,
        lamports: 0,
        data,
        owner,
        executable: false,
        rent_epoch: 0,
    }
}

fn derived(fund_addr: &Identity) -> (u8, Identity) {
    let (va, bump) = Pubkey::find_program_address(&[&fund_addr.bytes], &Pubkey::new_from_array(this_program().bytes));
    (bump, Identity::new(va.to_bytes()))
}

fn fund_at(fund_addr: &Identity, balance: u64) -> Fund {
    Fund {
        initialized: true,
        open: true,
        fund_type: FundType::FundMe,
        owner: id(1),
        authority: id(2),
        max_balance: 500,
        balance,
        nonce: derived(fund_addr).0,
        mint: id(3),
        vault: id(4),
        shares: 0,
        nft_account: id(5),
        nft_mint: id(6),
        whitelist: id(7),
        payback_vault: id(8),
        payback_bal: 0,
    }
}

fn vault_data(f: &Fund, owner: Identity) -> Vec<u8> {
    let acc = spl_token::state::Account {
        mint: Pubkey::new_from_array(f.mint.bytes),
        owner: Pubkey::new_from_array(owner.bytes),
        amount: 1_000,
        delegate: COption::None,
        state: spl_token::state::AccountState::Initialized,
        is_native: COption::None,
        delegated_amount: 0,
        close_authority: COption::None,
    };
    let mut data = vec![0u8; spl_token::state::Account::LEN];
    spl_token::state::Account::pack(acc, &mut data).unwrap();
    data
}

fn withdraw_accounts(f: &Fund) -> Vec<AccountView> {
    let (_, va) = derived(&id(10));
    vec![
        view(f.vault, custody::id(), false, vault_data(f, va)),
        view(id(10), this_program(), false, f.pack()),
        view(f.owner, id(0), true, vec![]),
        view(va, id(0), false, vec![]),
        view(custody::id(), id(0), false, vec![]),
    ]
}

fn close_accounts(f: &Fund) -> Vec<AccountView> {
    vec![view(id(10), this_program(), false, f.pack()), view(f.owner, id(0), true, vec![])]
}

#[test]
fn close_by_the_owner_closes_the_fund() {
    let f = fund_at(&id(10), 100);
    let data = close::handler(&this_program(), &close_accounts(&f)).unwrap();
    assert_eq!(Fund::unpack(&data), Ok(Fund { open: false, ..f }));
    assert_eq!(data.len(), f.pack().len());
}

#[test]
fn close_by_a_signer_who_is_not_the_owner_is_unauthorized() {
    let f = fund_at(&id(10), 100);
    let mut accounts = close_accounts(&f);
    accounts[1].key = id(66);
    let before = accounts.clone();
    let r = close::handler(&this_program(), &accounts);
    assert_eq!(r, refused(FundErrorCode::Unauthorized));
    assert_eq!(r.unwrap_err().class(), ErrorClass::Authorization);
    assert_eq!(accounts, before);
    assert!(Fund::unpack(&accounts[0].data).unwrap().open);
}

#[test]
fn close_without_a_signature_is_unauthorized() {
    let f = fund_at(&id(10), 100);
    let mut accounts = close_accounts(&f);
    accounts[1].is_signer = false;
    assert_eq!(close::handler(&this_program(), &accounts), refused(FundErrorCode::Unauthorized));
    assert_eq!(
        close::access_control(&this_program(), &accounts[0], &accounts[1]),
        refused(FundErrorCode::Unauthorized)
    );
}

#[test]
fn close_twice_commits_the_same_record() {
    let f = fund_at(&id(10), 100);
    let mut accounts = close_accounts(&f);
    let once = close::handler(&this_program(), &accounts).unwrap();
    accounts[0].data = once.clone();
    let twice = close::handler(&this_program(), &accounts).unwrap();
    assert_eq!(twice, once);
    assert!(!Fund::unpack(&twice).unwrap().open);
}

#[test]
fn close_needs_two_accounts() {
    let f = fund_at(&id(10), 100);
    let accounts = close_accounts(&f);
    let r = close::handler(&this_program(), &accounts[..1]);
    assert_eq!(r, refused(FundErrorCode::NotEnoughAccountKeys));
    assert_eq!(r.unwrap_err().class(), ErrorClass::Host);
    assert_eq!(close::handler(&this_program(), &[]), refused(FundErrorCode::NotEnoughAccountKeys));
}

#[test]
fn close_of_an_account_of_another_program_is_refused() {
    let f = fund_at(&id(10), 100);
    let mut accounts = close_accounts(&f);
    accounts[0].owner = id(99);
    assert_eq!(close::handler(&this_program(), &accounts), refused(FundErrorCode::InvalidAccountOwner));
}

#[test]
fn close_state_transition_clears_open() {
    let mut f = fund_at(&id(10), 100);
    assert_eq!(close::state_transition(&mut f), Ok(()));
    assert_eq!(f, Fund { open: false, ..fund_at(&id(10), 100) });
}

#[test]
fn withdraw_deducts_and_transfers_once() {
    let f = fund_at(&id(10), 100);
    let accounts = withdraw_accounts(&f);
    let (nonce, va) = derived(&id(10));
    let w = withdraw::handler(&this_program(), &accounts, 30).unwrap();
    let after = Fund::unpack(&w.fund_data).unwrap();
    assert_eq!(after.balance, 70);
    assert_eq!(after, Fund { balance: 70, ..f });
    assert_eq!(
        w.transfer,
        Instruction {
            program_id: custody::id(),
            accounts: vec![
                AccountMeta { pubkey: f.vault, is_signer: false, is_writable: true },
                AccountMeta { pubkey: f.owner, is_signer: false, is_writable: true },
                AccountMeta { pubkey: va, is_signer: true, is_writable: false },
            ],
            data: vec![3, 30, 0, 0, 0, 0, 0, 0, 0],
        }
    );
    assert_eq!(w.signer_seeds, vec![vec![10u8; 32], vec![nonce]]);
}

#[test]
fn withdraw_builds_the_custody_systems_own_instruction() {
    let f = fund_at(&id(10), 0x0102_0305);
    let (_, va) = derived(&id(10));
    let w = withdraw::handler(&this_program(), &withdraw_accounts(&f), 0x0102_0304).unwrap();
    let real = spl_token::instruction::transfer(
        &spl_token::ID,
        &Pubkey::new_from_array(f.vault.bytes),
        &Pubkey::new_from_array(f.owner.bytes),
        &Pubkey::new_from_array(va.bytes),
        &[],
        0x0102_0304,
    )
    .unwrap();
    assert_eq!(w.transfer.program_id.bytes, real.program_id.to_bytes());
    assert_eq!(w.transfer.data, real.data);
    assert_eq!(w.transfer.data, vec![3, 4, 3, 2, 1, 0, 0, 0, 0]);
    assert_eq!(w.transfer.accounts.len(), real.accounts.len());
    for (ours, theirs) in w.transfer.accounts.iter().zip(real.accounts.iter()) {
        assert_eq!(ours.pubkey.bytes, theirs.pubkey.to_bytes());
        assert_eq!(ours.is_signer, theirs.is_signer);
        assert_eq!(ours.is_writable, theirs.is_writable);
    }
}

#[test]
fn withdraw_with_a_wrong_vault_authority_is_a_derivation_mismatch() {
    let f = fund_at(&id(10), 100);
    let mut accounts = withdraw_accounts(&f);
    accounts[3].key = id(77);
    let before = accounts.clone();
    let r = withdraw::handler(&this_program(), &accounts, 30);
    assert_eq!(r, refused(FundErrorCode::InvalidVault));
    assert_eq!(r.unwrap_err().class(), ErrorClass::DerivationMismatch);
    assert_eq!(accounts, before);
    assert_eq!(Fund::unpack(&accounts[1].data).unwrap().balance, 100);
}

#[test]
fn withdraw_with_a_nonce_that_derives_another_authority_is_refused() {
    let (nonce, _) = derived(&id(10));
    let mut other = nonce;
    loop {
        other = other.wrapping_sub(1);
        if derive_vault_authority(&id(10), &other, &this_program()).is_some() {
            break;
        }
    }
    let good = fund_at(&id(10), 100);
    let mut accounts = withdraw_accounts(&good);
    accounts[1].data = Fund { nonce: other, ..good }.pack();
    assert_eq!(withdraw::handler(&this_program(), &accounts, 30), refused(FundErrorCode::InvalidVault));
}

#[test]
fn withdraw_for_a_beneficiary_who_is_not_the_owner_is_refused() {
    let f = fund_at(&id(10), 100);
    let mut accounts = withdraw_accounts(&f);
    accounts[2].key = id(66);
    let r = withdraw::handler(&this_program(), &accounts, 30);
    assert_eq!(r, refused(FundErrorCode::Unauthorized));
    assert_eq!(r.unwrap_err().class(), ErrorClass::Authorization);
}

#[test]
fn withdraw_without_a_signature_is_unauthorized() {
    let f = fund_at(&id(10), 100);
    let mut accounts = withdraw_accounts(&f);
    accounts[2].is_signer = false;
    assert_eq!(withdraw::handler(&this_program(), &accounts, 30), refused(FundErrorCode::Unauthorized));
}

#[test]
fn withdraw_of_more_than_the_balance_is_refused() {
    let f = fund_at(&id(10), 100);
    let accounts = withdraw_accounts(&f);
    let r = withdraw::handler(&this_program(), &accounts, 101);
    assert_eq!(r, refused(FundErrorCode::FundBalanceUnderflow));
    assert_eq!(r.unwrap_err().class(), ErrorClass::InvariantViolation);
    let all = withdraw::handler(&this_program(), &accounts, 100).unwrap();
    assert_eq!(Fund::unpack(&all.fund_data).unwrap().balance, 0);
}

#[test]
fn withdraw_from_an_empty_fund_leaves_the_record_alone() {
    let f = fund_at(&id(10), 0);
    let accounts = withdraw_accounts(&f);
    let w = withdraw::handler(&this_program(), &accounts, 30).unwrap();
    assert_eq!(w.fund_data, f.pack());
    assert_eq!(w.transfer.data, vec![3, 30, 0, 0, 0, 0, 0, 0, 0]);
}

#[test]
fn withdraw_needs_five_accounts() {
    let f = fund_at(&id(10), 100);
    let accounts = withdraw_accounts(&f);
    assert_eq!(
        withdraw::handler(&this_program(), &accounts[..4], 30),
        refused(FundErrorCode::NotEnoughAccountKeys)
    );
}

#[test]
fn withdraw_passes_on_the_first_failed_check() {
    let f = fund_at(&id(10), 100);
    let mut accounts = withdraw_accounts(&f);
    accounts[1].owner = id(99);
    assert_eq!(withdraw::handler(&this_program(), &accounts, 30), refused(FundErrorCode::InvalidAccountOwner));
    let mut accounts = withdraw_accounts(&f);
    accounts[0].owner = id(99);
    assert_eq!(withdraw::handler(&this_program(), &accounts, 30), refused(FundErrorCode::InvalidAccountOwner));
    let mut accounts = withdraw_accounts(&f);
    accounts[0].data = vec![0; 165];
    assert_eq!(
        withdraw::handler(&this_program(), &accounts, 30),
        Err(FundError::ProgramError(ProgramError::UninitializedAccount))
    );
    let mut accounts = withdraw_accounts(&f);
    accounts[0].key = id(44);
    assert_eq!(withdraw::handler(&this_program(), &accounts, 30), refused(FundErrorCode::InvalidVault));
    let mut accounts = withdraw_accounts(&f);
    accounts[0].data = vault_data(&f, id(55));
    assert_eq!(withdraw::handler(&this_program(), &accounts, 30), refused(FundErrorCode::InvalidVault));
}

#[test]
fn withdraw_access_control_runs_every_check() {
    let f = fund_at(&id(10), 100);
    let a = withdraw_accounts(&f);
    assert_eq!(withdraw::access_control(&this_program(), &a[1], &a[2], &a[0], &a[3]), Ok(()));
    let stranger = view(id(66), id(0), true, vec![]);
    assert_eq!(
        withdraw::access_control(&this_program(), &a[1], &stranger, &a[0], &a[3]),
        refused(FundErrorCode::Unauthorized)
    );
}

#[test]
fn withdraw_state_transition_refuses_before_building_a_transfer() {
    let mut f = fund_at(&id(10), 100);
    let r = withdraw::state_transition(&mut f, &id(10), &id(1), &id(4), &id(9), 500);
    assert_eq!(r, refused(FundErrorCode::FundBalanceUnderflow));
    assert_eq!(f, fund_at(&id(10), 100));
    let (ix, seeds) = withdraw::state_transition(&mut f, &id(10), &id(1), &id(4), &id(9), 40).unwrap();
    assert_eq!(f.balance, 60);
    assert_eq!(ix.accounts[0].pubkey, id(4));
    assert_eq!(ix.accounts[1].pubkey, id(1));
    assert_eq!(ix.accounts[2].pubkey, id(9));
    assert_eq!(seeds, vec![vec![10u8; 32], vec![f.nonce]]);
}
