use fund::accounts::fund::{Fund, FundType};
use fund::error::{ErrorClass, FundError, FundErrorCode};
use fund::identity::Identity;

fn record(fund_type: FundType, balance: u64, max_balance: u64) -> Fund {
    Fund {
        initialized: true,
        open: true,
        fund_type,
        owner: Identity::new([1; 32]),
        authority: Identity::new([2; 32]),
        max_balance,
        balance,
        nonce: 254,
        mint: Identity::new([3; 32]),
        vault: Identity::new([4; 32]),
        shares: 0,
        nft_account: Identity::new([5; 32]),
        nft_mint: Identity::new([6; 32]),
        whitelist: Identity::new([7; 32]),
        payback_vault: Identity::new([8; 32]),
        payback_bal: 0,
    }
}

#[test]
fn deposit_into_fund_me_leaves_shares_alone() {
    let mut fund = record(FundType::FundMe, 100, 500);
    fund.add(50);
    assert_eq!(fund.balance, 150);
    assert_eq!(fund.shares, 0);
    assert_eq!(fund, Fund { balance: 150, ..record(FundType::FundMe, 100, 500) });
}

#[test]
fn deposit_into_public_raise_issues_shares() {
    let mut fund = record(FundType::Raise { private: false }, 0, 500);
    fund.add(50);
    assert_eq!(fund.balance, 50);
    assert_eq!(fund.shares, 50);
}

#[test]
fn deposit_into_private_raise_issues_shares() {
    let mut fund = record(FundType::Raise { private: true }, 10, 500);
    fund.shares = 7;
    fund.add(50);
    assert_eq!(fund.balance, 60);
    assert_eq!(fund.shares, 57);
}

#[test]
fn deposit_of_zero_changes_nothing() {
    let mut fund = record(FundType::Raise { private: false }, 10, 500);
    fund.add(0);
    assert_eq!(fund, record(FundType::Raise { private: false }, 10, 500));
}

#[test]
fn deposit_up_to_the_largest_balance() {
    let mut fund = record(FundType::FundMe, u64::MAX - 5, u64::MAX);
    fund.add(5);
    assert_eq!(fund.balance, u64::MAX);
}

#[test]
fn deduct_takes_the_amount_out() {
    let mut fund = record(FundType::FundMe, 100, 500);
    assert_eq!(fund.deduct(30), Ok(()));
    assert_eq!(fund.balance, 70);
    assert_eq!(fund, Fund { balance: 70, ..record(FundType::FundMe, 100, 500) });
}

#[test]
fn deduct_of_the_whole_balance_empties_the_fund() {
    let mut fund = record(FundType::FundMe, 100, 500);
    assert_eq!(fund.deduct(100), Ok(()));
    assert_eq!(fund.balance, 0);
}

#[test]
fn deduct_more_than_a_positive_balance_is_refused() {
    let mut fund = record(FundType::FundMe, 100, 500);
    let r = fund.deduct(101);
    assert_eq!(r, Err(FundError::ErrorCode(FundErrorCode::FundBalanceUnderflow)));
    assert_eq!(r.unwrap_err().class(), ErrorClass::InvariantViolation);
    assert_eq!(fund, record(FundType::FundMe, 100, 500));
}

#[test]
fn deduct_from_an_empty_fund_changes_nothing() {
    let mut fund = record(FundType::FundMe, 0, 500);
    assert_eq!(fund.deduct(30), Ok(()));
    assert_eq!(fund, record(FundType::FundMe, 0, 500));
    assert_eq!(fund.deduct(0), Ok(()));
    assert_eq!(fund.balance, 0);
}

#[test]
fn deduct_does_not_lower_shares() {
    let mut fund = record(FundType::Raise { private: false }, 0, 500);
    fund.add(80);
    assert_eq!(fund.deduct(30), Ok(()));
    assert_eq!(fund.balance, 50);
    assert_eq!(fund.shares, 80);
}

#[test]
fn close_fund_is_idempotent() {
    let mut once = record(FundType::FundMe, 100, 500);
    once.close_fund();
    assert!(!once.open);
    assert_eq!(once, Fund { open: false, ..record(FundType::FundMe, 100, 500) });
    let mut twice = once;
    twice.close_fund();
    assert_eq!(twice, once);
    assert!(!twice.open);
}

#[test]
fn add_payback_bal_leaves_the_balance_alone() {
    let mut fund = record(FundType::FundMe, 100, 500);
    fund.add_payback_bal(40);
    fund.add_payback_bal(2);
    assert_eq!(fund.payback_bal, 42);
    assert_eq!(fund.balance, 100);
    assert_eq!(fund, Fund { payback_bal: 42, ..record(FundType::FundMe, 100, 500) });
}

#[test]
fn share_distribution_is_one_to_one() {
    assert_eq!(Fund::get_share_dist(), 1);
}

#[test]
fn default_fund_is_blank() {
    let fund = Fund::default();
    assert_eq!(FundType::default(), FundType::FundMe);
    assert!(!fund.initialized);
    assert!(!fund.open);
    assert_eq!(fund.fund_type, FundType::FundMe);
    assert_eq!(fund.owner, Identity::new([0; 32]));
    assert_eq!(fund.owner, Identity::zero());
    assert_eq!(fund.payback_vault, Identity::zero());
    assert_eq!((fund.balance, fund.max_balance, fund.shares, fund.payback_bal, fund.nonce), (0, 0, 0, 0, 0));
}

#[test]
fn identities_compare_by_their_bytes() {
    let mut bytes = [9u8; 32];
    let a = Identity::new(bytes);
    assert_eq!(a, Identity::new([9; 32]));
    assert_eq!(a.to_bytes(), [9; 32]);
    bytes[31] = 8;
    assert_ne!(a, Identity::new(bytes));
    bytes[31] = 9;
    bytes[0] = 0;
    assert_ne!(a, Identity::new(bytes));
}

#[test]
fn every_code_has_its_class() {
    let classes = [
        (FundErrorCode::NotEnoughAccountKeys, ErrorClass::Host),
        (FundErrorCode::InvalidAccountData, ErrorClass::Host),
        (FundErrorCode::InvalidAccountOwner, ErrorClass::AccountOwnership),
        (FundErrorCode::InvalidAccount, ErrorClass::AccountOwnership),
        (FundErrorCode::InvalidRentSysvar, ErrorClass::AccountOwnership),
        (FundErrorCode::NotInitialized, ErrorClass::InitializationState),
        (FundErrorCode::UnitializedTokenMint, ErrorClass::InitializationState),
        (FundErrorCode::Unauthorized, ErrorClass::Authorization),
        (FundErrorCode::FundClosed, ErrorClass::InvariantViolation),
        (FundErrorCode::FundBalanceOverflow, ErrorClass::InvariantViolation),
        (FundErrorCode::FundBalanceUnderflow, ErrorClass::InvariantViolation),
        (FundErrorCode::WhitelistEntryNotFound, ErrorClass::Membership),
        (FundErrorCode::InvalidWhitelist, ErrorClass::AssetBinding),
        (FundErrorCode::InvalidMint, ErrorClass::AssetBinding),
        (FundErrorCode::InvalidTokenAccountMint, ErrorClass::AssetBinding),
        (FundErrorCode::InvalidVault, ErrorClass::DerivationMismatch),
        (FundErrorCode::InvalidVaultNonce, ErrorClass::DerivationMismatch),
    ];
    for (code, class) in classes {
        assert_eq!(code.class(), class);
        assert_eq!(FundError::ErrorCode(code).class(), class);
        assert_eq!(FundError::ErrorCode(code).code(), Some(code));
    }
}

#[test]
fn errors_convert_from_codes_and_host_errors() {
    let e: FundError = FundErrorCode::FundClosed.into();
    assert_eq!(e, FundError::ErrorCode(FundErrorCode::FundClosed));
    let e: FundError = solana_program::program_error::ProgramError::InvalidArgument.into();
    assert_eq!(e, FundError::ProgramError(solana_program::program_error::ProgramError::InvalidArgument));
    assert_eq!(e.code(), None);
    assert_eq!(e.class(), ErrorClass::Host);
    assert_eq!(
        fund::error::from_host(Err::<u8, _>(solana_program::program_error::ProgramError::InvalidArgument)),
        Err(e)
    );
    assert_eq!(fund::error::from_host(Ok(5u8)), Ok(5u8));
}
