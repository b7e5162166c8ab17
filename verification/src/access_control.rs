//! The checks that guard every instruction. Each reads account views and gives back what it
//! parsed, or the first condition that is violated.

use crate::accounts::fund::Fund;
use crate::accounts::vault::{derive_vault_authority, spec_vault_authority};
use crate::accounts::whitelist::{spec_members, Whitelist};
use crate::custody::{
    is_token_program, spec_is_token_program, spl_account, spl_mint, unpack_account, unpack_mint,
    AccountState, Mint, TokenAccount,
};
use crate::error::{fail, from_host, spec_from_host, FundError, FundErrorCode};
use crate::host::{is_rent_sysvar, rent_from_account, spec_is_rent_sysvar, sysvar_rent, AccountView};
use crate::identity::Identity;
use crate::pack::{spec_unpack, spec_unpack_result};
use solana_program::program_error::ProgramError;
use solana_program::rent::Rent;
use vstd::prelude::*;

verus! {

/// What the token-account check makes of an account's owner and of its unpacked data.
pub open spec fn token_of(owner: Identity, unpacked: Result<TokenAccount, ProgramError>) -> Result<
    TokenAccount,
    FundError,
> {
    if !spec_is_token_program(owner) {
        fail(FundErrorCode::InvalidAccountOwner)
    } else {
        match unpacked {
            Err(e) => Err(FundError::ProgramError(e)),
            Ok(token) => if token.state != AccountState::Initialized {
                fail(FundErrorCode::NotInitialized)
            } else {
                Ok(token)
            },
        }
    }
}

/// The token-account check on an account.
pub open spec fn spec_token(acc_info: AccountView) -> Result<TokenAccount, FundError> {
    token_of(acc_info.owner, spl_account(acc_info.data@))
}

/// Decides the token-account check from the account's owner and the outcome of unpacking its
/// data: the owner must be the custody program, the data must unpack, and the account must be
/// in the initialized state.
pub fn token_from_unpacked(owner: &Identity, unpacked: Result<TokenAccount, ProgramError>) -> (r:
    Result<TokenAccount, FundError>)
    ensures
        r == token_of(*owner, unpacked),
{
    if !is_token_program(owner) {
        return Err(FundError::ErrorCode(FundErrorCode::InvalidAccountOwner));
    }
    match unpacked {
        Err(e) => Err(FundError::ProgramError(e)),
        Ok(token) => {
            match token.state {
                AccountState::Initialized => Ok(token),
                _ => Err(FundError::ErrorCode(FundErrorCode::NotInitialized)),
            }
        },
    }
}

/// Checks that the account is an initialized token account of the custody program.
pub fn token(acc_info: &AccountView) -> (r: Result<TokenAccount, FundError>)
    ensures
        r == spec_token(*acc_info),
{
    if !is_token_program(&acc_info.owner) {
        return Err(FundError::ErrorCode(FundErrorCode::InvalidAccountOwner));
    }
    token_from_unpacked(&acc_info.owner, unpack_account(acc_info.data.as_slice()))
}

/// The fund check on an account.
pub open spec fn spec_fund(acc_info: AccountView, program_id: Identity) -> Result<Fund, FundError> {
    if acc_info.owner != program_id {
        fail(FundErrorCode::InvalidAccountOwner)
    } else {
        match spec_unpack(acc_info.data@) {
            None => fail(FundErrorCode::InvalidAccountData),
            Some(fund) => if !fund.initialized {
                fail(FundErrorCode::NotInitialized)
            } else {
                Ok(fund)
            },
        }
    }
}

/// Checks that the account is owned by this program and holds an initialized fund.
pub fn fund(acc_info: &AccountView, program_id: &Identity) -> (r: Result<Fund, FundError>)
    ensures
        r == spec_fund(*acc_info, *program_id),
{
    if acc_info.owner != *program_id {
        return Err(FundError::ErrorCode(FundErrorCode::InvalidAccountOwner));
    }
    match Fund::unpack(acc_info.data.as_slice()) {
        Err(e) => Err(e),
        Ok(fund) => {
            if !fund.initialized {
                Err(FundError::ErrorCode(FundErrorCode::NotInitialized))
            } else {
                Ok(fund)
            }
        },
    }
}

/// The fund check passes exactly for an account of this program that holds an initialized
/// fund, and gives that fund.
pub proof fn fund_passes_exactly_when(acc_info: AccountView, program_id: Identity)
    ensures
        spec_fund(acc_info, program_id) is Ok <==> {
            &&& acc_info.owner == program_id
            &&& spec_unpack(acc_info.data@) matches Some(fund)
            &&& fund.initialized
        },
        spec_fund(acc_info, program_id) matches Ok(fund) ==> spec_unpack(acc_info.data@) == Some(
            fund,
        ),
{
}

/// The whitelist check on an account.
pub open spec fn spec_whitelist(wl_acc_info: AccountView, fund: Fund, program_id: Identity) -> Result<
    Seq<Identity>,
    FundError,
> {
    if program_id != wl_acc_info.owner {
        fail(FundErrorCode::InvalidAccountOwner)
    } else if fund.whitelist != wl_acc_info.key {
        fail(FundErrorCode::InvalidWhitelist)
    } else {
        match spec_members(wl_acc_info.data@) {
            None => fail(FundErrorCode::InvalidWhitelist),
            Some(members) => Ok(members),
        }
    }
}

/// Checks that the account is owned by this program and is the whitelist that the fund
/// names, and reads its members.
pub fn whitelist(wl_acc_info: &AccountView, fund: &Fund, program_id: &Identity) -> (r: Result<
    Whitelist,
    FundError,
>)
    ensures
        match spec_whitelist(*wl_acc_info, *fund, *program_id) {
            Ok(members) => r matches Ok(w) && w@ == members,
            Err(e) => r == Err::<Whitelist, FundError>(e),
        },
{
    if *program_id != wl_acc_info.owner {
        return Err(FundError::ErrorCode(FundErrorCode::InvalidAccountOwner));
    }
    if fund.whitelist != wl_acc_info.key {
        return Err(FundError::ErrorCode(FundErrorCode::InvalidWhitelist));
    }
    Whitelist::new(wl_acc_info)
}

/// The owner check.
pub open spec fn spec_check_owner(
    program_id: Identity,
    acc_info: AccountView,
    owner_acc_info: AccountView,
) -> Result<(), FundError> {
    if !owner_acc_info.is_signer {
        fail(FundErrorCode::Unauthorized)
    } else {
        match spec_fund(acc_info, program_id) {
            Err(e) => Err(e),
            Ok(fund) => if fund.owner != owner_acc_info.key {
                fail(FundErrorCode::Unauthorized)
            } else {
                Ok(())
            },
        }
    }
}

/// Checks that the requester signed the transaction and owns the fund.
pub fn check_owner(program_id: &Identity, acc_info: &AccountView, owner_acc_info: &AccountView) -> (r:
    Result<(), FundError>)
    ensures
        r == spec_check_owner(*program_id, *acc_info, *owner_acc_info),
{
    if !owner_acc_info.is_signer {
        return Err(FundError::ErrorCode(FundErrorCode::Unauthorized));
    }
    match fund(acc_info, program_id) {
        Err(e) => Err(e),
        Ok(fund) => {
            if fund.owner != owner_acc_info.key {
                Err(FundError::ErrorCode(FundErrorCode::Unauthorized))
            } else {
                Ok(())
            }
        },
    }
}

/// The owner check passes exactly when the requester signed and owns the fund that the
/// account holds.
pub proof fn check_owner_passes_exactly_when(
    program_id: Identity,
    acc_info: AccountView,
    owner_acc_info: AccountView,
)
    ensures
        spec_check_owner(program_id, acc_info, owner_acc_info) is Ok <==> {
            &&& owner_acc_info.is_signer
            &&& spec_fund(acc_info, program_id) matches Ok(fund)
            &&& fund.owner == owner_acc_info.key
        },
{
}

/// The open-fund check.
pub open spec fn spec_fund_open(acc_info: AccountView, program_id: Identity) -> Result<
    (),
    FundError,
> {
    match spec_fund(acc_info, program_id) {
        Err(e) => Err(e),
        Ok(fund) => if !fund.open {
            fail(FundErrorCode::FundClosed)
        } else {
            Ok(())
        },
    }
}

/// Checks that the account holds a fund that is still open.
pub fn fund_open(acc_info: &AccountView, program_id: &Identity) -> (r: Result<(), FundError>)
    ensures
        r == spec_fund_open(*acc_info, *program_id),
{
    match fund(acc_info, program_id) {
        Err(e) => Err(e),
        Ok(fund) => {
            if !fund.open {
                Err(FundError::ErrorCode(FundErrorCode::FundClosed))
            } else {
                Ok(())
            }
        },
    }
}

/// What the mint check makes of an account's owner and of its unpacked data.
pub open spec fn mint_of(owner: Identity, unpacked: Result<Mint, ProgramError>) -> Result<
    Mint,
    FundError,
> {
    if !spec_is_token_program(owner) {
        fail(FundErrorCode::InvalidMint)
    } else {
        match unpacked {
            Err(e) => Err(FundError::ProgramError(e)),
            Ok(mint) => if !mint.is_initialized {
                fail(FundErrorCode::UnitializedTokenMint)
            } else {
                Ok(mint)
            },
        }
    }
}

/// The mint check on an account.
pub open spec fn spec_mint(acc_info: AccountView) -> Result<Mint, FundError> {
    mint_of(acc_info.owner, spl_mint(acc_info.data@))
}

/// Decides the mint check from the account's owner and the outcome of unpacking its data:
/// the owner must be the custody program, the data must unpack, and the mint must be
/// initialized.
pub fn mint_from_unpacked(owner: &Identity, unpacked: Result<Mint, ProgramError>) -> (r: Result<
    Mint,
    FundError,
>)
    ensures
        r == mint_of(*owner, unpacked),
{
    if !is_token_program(owner) {
        return Err(FundError::ErrorCode(FundErrorCode::InvalidMint));
    }
    match unpacked {
        Err(e) => Err(FundError::ProgramError(e)),
        Ok(mint) => {
            if !mint.is_initialized {
                Err(FundError::ErrorCode(FundErrorCode::UnitializedTokenMint))
            } else {
                Ok(mint)
            }
        },
    }
}

/// Checks that the account is an initialized mint of the custody program.
pub fn mint(acc_info: &AccountView) -> (r: Result<Mint, FundError>)
    ensures
        r == spec_mint(*acc_info),
{
    if !is_token_program(&acc_info.owner) {
        return Err(FundError::ErrorCode(FundErrorCode::InvalidMint));
    }
    mint_from_unpacked(&acc_info.owner, unpack_mint(acc_info.data.as_slice()))
}

/// The rent-sysvar check on an account.
pub open spec fn spec_rent(acc_info: AccountView) -> Result<Rent, FundError> {
    if !spec_is_rent_sysvar(acc_info.key) {
        fail(FundErrorCode::InvalidRentSysvar)
    } else {
        spec_from_host(sysvar_rent(acc_info.key@, acc_info.data@))
    }
}

/// Checks that the account is the rent sysvar, and reads the rent configuration from it.
pub fn rent(acc_info: &AccountView) -> (r: Result<Rent, FundError>)
    ensures
        r == spec_rent(*acc_info),
        !spec_is_rent_sysvar(acc_info.key) ==> r == Err::<Rent, FundError>(
            FundError::ErrorCode(FundErrorCode::InvalidRentSysvar),
        ),
{
    if !is_rent_sysvar(&acc_info.key) {
        return Err(FundError::ErrorCode(FundErrorCode::InvalidRentSysvar));
    }
    from_host(rent_from_account(acc_info))
}

/// What the vault-authority check makes of the supplied authority and the derived one.
pub open spec fn vault_authority_of(supplied: Identity, derived: Option<Identity>) -> Result<
    Identity,
    FundError,
> {
    match derived {
        None => fail(FundErrorCode::InvalidVaultNonce),
        Some(va) => if va != supplied {
            fail(FundErrorCode::InvalidVault)
        } else {
            Ok(va)
        },
    }
}

/// The vault-authority check.
pub open spec fn spec_vault_authority_check(
    vault_authority_acc_info: AccountView,
    fund_addr: Identity,
    fund: Fund,
    program_id: Identity,
) -> Result<Identity, FundError> {
    vault_authority_of(
        vault_authority_acc_info.key,
        spec_vault_authority(fund_addr, fund.nonce, program_id),
    )
}

/// Decides the vault-authority check from the supplied authority and the outcome of the
/// derivation: there must be a derived authority, and the supplied one must be it.
pub fn vault_authority_from_derived(supplied: &Identity, derived: Option<Identity>) -> (r: Result<
    Identity,
    FundError,
>)
    ensures
        r == vault_authority_of(*supplied, derived),
{
    match derived {
        None => Err(FundError::ErrorCode(FundErrorCode::InvalidVaultNonce)),
        Some(va) => {
            if va != *supplied {
                Err(FundError::ErrorCode(FundErrorCode::InvalidVault))
            } else {
                Ok(va)
            }
        },
    }
}

/// Derives the fund's vault authority again and checks that the supplied account is it.
pub fn vault_authority(
    vault_authority_acc_info: &AccountView,
    fund_addr: &Identity,
    fund: &Fund,
    program_id: &Identity,
) -> (r: Result<Identity, FundError>)
    ensures
        r == spec_vault_authority_check(*vault_authority_acc_info, *fund_addr, *fund, *program_id),
{
    vault_authority_from_derived(
        &vault_authority_acc_info.key,
        derive_vault_authority(fund_addr, &fund.nonce, program_id),
    )
}

/// What the vault check makes of a fund, of the token account at the vault's address and of
/// the derived authority.
pub open spec fn vault_of(
    vault_key: Identity,
    supplied_authority: Identity,
    fund: Fund,
    vault: TokenAccount,
    derived: Option<Identity>,
) -> Result<TokenAccount, FundError> {
    if vault_key != fund.vault {
        fail(FundErrorCode::InvalidVault)
    } else {
        match vault_authority_of(supplied_authority, derived) {
            Err(e) => Err(e),
            Ok(va) => if va != vault.owner {
                fail(FundErrorCode::InvalidVault)
            } else {
                Ok(vault)
            },
        }
    }
}

/// The vault check.
pub open spec fn spec_vault(
    acc_info: AccountView,
    vault_authority_acc_info: AccountView,
    fund_acc_info: AccountView,
    program_id: Identity,
) -> Result<TokenAccount, FundError> {
    match spec_fund(fund_acc_info, program_id) {
        Err(e) => Err(e),
        Ok(fund) => match spec_token(acc_info) {
            Err(e) => Err(e),
            Ok(vault) => vault_of(
                acc_info.key,
                vault_authority_acc_info.key,
                fund,
                vault,
                spec_vault_authority(fund_acc_info.key, fund.nonce, program_id),
            ),
        },
    }
}

/// Decides the vault check from the parsed fund, the parsed token account and the outcome of
/// the derivation: the account must be the fund's vault, the supplied authority must be the
/// derived one, and the derived one must own the vault.
pub fn vault_checked(
    vault_key: &Identity,
    supplied_authority: &Identity,
    fund: &Fund,
    vault: TokenAccount,
    derived: Option<Identity>,
) -> (r: Result<TokenAccount, FundError>)
    ensures
        r == vault_of(*vault_key, *supplied_authority, *fund, vault, derived),
{
    if *vault_key != fund.vault {
        return Err(FundError::ErrorCode(FundErrorCode::InvalidVault));
    }
    match vault_authority_from_derived(supplied_authority, derived) {
        Err(e) => Err(e),
        Ok(va) => {
            if va != vault.owner {
                return Err(FundError::ErrorCode(FundErrorCode::InvalidVault));
            }
            if va != *supplied_authority {
                return Err(FundError::ErrorCode(FundErrorCode::InvalidVault));
            }
            Ok(vault)
        },
    }
}

/// Checks the vault of a fund: the fund account must hold an initialized fund of this
/// program, the vault account must be an initialized token account at the address the fund
/// names, and the supplied authority must be the derived vault authority and own the vault.
pub fn vault(
    acc_info: &AccountView,
    vault_authority_acc_info: &AccountView,
    fund_acc_info: &AccountView,
    program_id: &Identity,
) -> (r: Result<TokenAccount, FundError>)
    ensures
        r == spec_vault(*acc_info, *vault_authority_acc_info, *fund_acc_info, *program_id),
{
    let fund = match fund(fund_acc_info, program_id) {
        Err(e) => {
            return Err(e);
        },
        Ok(fund) => fund,
    };
    let vault = match token(acc_info) {
        Err(e) => {
            return Err(e);
        },
        Ok(vault) => vault,
    };
    if acc_info.key != fund.vault {
        return Err(FundError::ErrorCode(FundErrorCode::InvalidVault));
    }
    let derived = derive_vault_authority(&fund_acc_info.key, &fund.nonce, program_id);
    vault_checked(&acc_info.key, &vault_authority_acc_info.key, &fund, vault, derived)
}

/// Checks the vault of a fund as `vault` does, and then the authority once more. The second
/// look never changes the outcome.
pub fn vault_join(
    acc_info: &AccountView,
    vault_authority_acc_info: &AccountView,
    fund_acc_info: &AccountView,
    program_id: &Identity,
) -> (r: Result<TokenAccount, FundError>)
    ensures
        r == spec_vault(*acc_info, *vault_authority_acc_info, *fund_acc_info, *program_id),
{
    let fund = match fund(fund_acc_info, program_id) {
        Err(e) => {
            return Err(e);
        },
        Ok(fund) => fund,
    };
    let vault = match vault(acc_info, vault_authority_acc_info, fund_acc_info, program_id) {
        Err(e) => {
            return Err(e);
        },
        Ok(vault) => vault,
    };
    let va = match vault_authority(vault_authority_acc_info, &fund_acc_info.key, &fund, program_id) {
        Err(e) => {
            return Err(e);
        },
        Ok(va) => va,
    };
    if va != vault.owner {
        return Err(FundError::ErrorCode(FundErrorCode::InvalidVault));
    }
    if va != vault_authority_acc_info.key {
        return Err(FundError::ErrorCode(FundErrorCode::InvalidVault));
    }
    Ok(vault)
}

/// The vault check passes exactly when every one of its conditions holds.
pub proof fn vault_passes_exactly_when(
    acc_info: AccountView,
    vault_authority_acc_info: AccountView,
    fund_acc_info: AccountView,
    program_id: Identity,
)
    ensures
        spec_vault(acc_info, vault_authority_acc_info, fund_acc_info, program_id) is Ok <==> {
            &&& fund_acc_info.owner == program_id
            &&& spec_unpack(fund_acc_info.data@) matches Some(fund)
            &&& fund.initialized
            &&& spec_is_token_program(acc_info.owner)
            &&& spl_account(acc_info.data@) matches Ok(vault)
            &&& vault.state == AccountState::Initialized
            &&& acc_info.key == fund.vault
            &&& spec_vault_authority(fund_acc_info.key, fund.nonce, program_id) == Some(
                vault_authority_acc_info.key,
            )
            &&& vault.owner == vault_authority_acc_info.key
        },
        spec_vault(acc_info, vault_authority_acc_info, fund_acc_info, program_id) matches Ok(vault)
            ==> spl_account(acc_info.data@) == Ok::<TokenAccount, ProgramError>(vault),
{
}

/// A supplied authority other than the derived one never passes the vault check: the check
/// fails with `InvalidVault` once the fund, the vault account and its address are in order.
pub proof fn wrong_authority_is_a_derivation_mismatch(
    acc_info: AccountView,
    vault_authority_acc_info: AccountView,
    fund_acc_info: AccountView,
    program_id: Identity,
)
    requires
        spec_fund(fund_acc_info, program_id) is Ok,
        spec_token(acc_info) is Ok,
        acc_info.key == spec_fund(fund_acc_info, program_id)->Ok_0.vault,
        spec_vault_authority(
            fund_acc_info.key,
            spec_fund(fund_acc_info, program_id)->Ok_0.nonce,
            program_id,
        ) matches Some(va) && va != vault_authority_acc_info.key,
    ensures
        spec_vault(acc_info, vault_authority_acc_info, fund_acc_info, program_id) == fail::<
            TokenAccount,
        >(FundErrorCode::InvalidVault),
{
}

/// The withdrawal check.
pub open spec fn spec_withdraw(
    program_id: Identity,
    fund_acc_info: AccountView,
    withdraw_acc_beneficiary_info: AccountView,
) -> Result<Fund, FundError> {
    match spec_unpack(fund_acc_info.data@) {
        None => fail(FundErrorCode::InvalidAccountData),
        Some(fund) => if fund_acc_info.owner != program_id {
            fail(FundErrorCode::InvalidAccount)
        } else if !fund.initialized {
            fail(FundErrorCode::NotInitialized)
        } else if fund.owner != withdraw_acc_beneficiary_info.key {
            fail(FundErrorCode::Unauthorized)
        } else {
            Ok(fund)
        },
    }
}

/// Checks that the fund account holds an initialized fund of this program whose owner is the
/// beneficiary of the withdrawal.
pub fn withdraw(
    program_id: &Identity,
    fund_acc_info: &AccountView,
    withdraw_acc_beneficiary_info: &AccountView,
) -> (r: Result<Fund, FundError>)
    ensures
        r == spec_withdraw(*program_id, *fund_acc_info, *withdraw_acc_beneficiary_info),
{
    let fund = match Fund::unpack(fund_acc_info.data.as_slice()) {
        Err(e) => {
            return Err(e);
        },
        Ok(fund) => fund,
    };
    if fund_acc_info.owner != *program_id {
        return Err(FundError::ErrorCode(FundErrorCode::InvalidAccount));
    }
    if !fund.initialized {
        return Err(FundError::ErrorCode(FundErrorCode::NotInitialized));
    }
    if fund.owner != withdraw_acc_beneficiary_info.key {
        return Err(FundError::ErrorCode(FundErrorCode::Unauthorized));
    }
    Ok(fund)
}

/// The withdrawal check passes exactly when the account is this program's and holds an
/// initialized fund that the beneficiary owns.
pub proof fn withdraw_passes_exactly_when(
    program_id: Identity,
    fund_acc_info: AccountView,
    withdraw_acc_beneficiary_info: AccountView,
)
    ensures
        spec_withdraw(program_id, fund_acc_info, withdraw_acc_beneficiary_info) is Ok <==> {
            &&& spec_fund(fund_acc_info, program_id) matches Ok(fund)
            &&& fund.owner == withdraw_acc_beneficiary_info.key
        },
        spec_withdraw(program_id, fund_acc_info, withdraw_acc_beneficiary_info) matches Ok(fund)
            ==> spec_fund(fund_acc_info, program_id) == Ok::<Fund, FundError>(fund),
{
}

/// Checks that a deposit of `amount` keeps the fund within its cap. It fails exactly when
/// the balance and the amount together exceed the cap.
pub fn check_balance_cap(fund: &Fund, amount: u64) -> (r: Result<(), FundError>)
    ensures
        fund.has_room(amount) ==> r == Ok::<(), FundError>(()),
        !fund.has_room(amount) ==> r == fail::<()>(FundErrorCode::FundBalanceOverflow),
        r is Err <==> fund.balance + amount > fund.max_balance,
{
    match fund.balance.checked_add(amount) {
        None => Err(FundError::ErrorCode(FundErrorCode::FundBalanceOverflow)),
        Some(sum) => {
            if sum > fund.max_balance {
                Err(FundError::ErrorCode(FundErrorCode::FundBalanceOverflow))
            } else {
                Ok(())
            }
        },
    }
}

/// The balance check on a fund account.
pub open spec fn spec_check_balance(fund_acc_info: AccountView, amount: u64) -> Result<
    (),
    FundError,
> {
    match spec_unpack(fund_acc_info.data@) {
        None => fail(FundErrorCode::InvalidAccountData),
        Some(fund) => if fund.has_room(amount) {
            Ok(())
        } else {
            fail(FundErrorCode::FundBalanceOverflow)
        },
    }
}

/// Reads the fund out of the account and checks that a deposit of `amount` keeps it within
/// its cap.
pub fn check_balance(fund_acc_info: &AccountView, amount: u64) -> (r: Result<(), FundError>)
    ensures
        r == spec_check_balance(*fund_acc_info, amount),
        spec_unpack(fund_acc_info.data@) matches Some(fund) ==> (r is Err <==> fund.balance + amount
            > fund.max_balance),
{
    match Fund::unpack(fund_acc_info.data.as_slice()) {
        Err(e) => Err(e),
        Ok(fund) => check_balance_cap(&fund, amount),
    }
}

/// Checks that the depositor is on the whitelist. It fails exactly when the depositor is
/// absent from the members.
pub fn check_depositor_membership(whitelist: &Whitelist, depositor: &Identity) -> (r: Result<
    (),
    FundError,
>)
    ensures
        whitelist@.contains(*depositor) ==> r == Ok::<(), FundError>(()),
        !whitelist@.contains(*depositor) ==> r == fail::<()>(FundErrorCode::WhitelistEntryNotFound),
        r is Err <==> !whitelist@.contains(*depositor),
{
    match whitelist.index_of(depositor) {
        Err(e) => Err(e),
        Ok(_) => Ok(()),
    }
}

/// The depositor check.
pub open spec fn spec_check_depositor(
    program_id: Identity,
    wl_acc_info: AccountView,
    fund: Fund,
    depositor_acc_info: AccountView,
) -> Result<(), FundError> {
    match spec_whitelist(wl_acc_info, fund, program_id) {
        Err(e) => Err(e),
        Ok(members) => if members.contains(depositor_acc_info.key) {
            Ok(())
        } else {
            fail(FundErrorCode::WhitelistEntryNotFound)
        },
    }
}

/// Checks that the whitelist account is this program's and the fund's, and that the
/// depositor is one of its members.
pub fn check_depositor(
    program_id: &Identity,
    wl_acc_info: &AccountView,
    fund: &Fund,
    depositor_acc_info: &AccountView,
) -> (r: Result<(), FundError>)
    ensures
        r == spec_check_depositor(*program_id, *wl_acc_info, *fund, *depositor_acc_info),
{
    match whitelist(wl_acc_info, fund, program_id) {
        Err(e) => Err(e),
        Ok(wl) => check_depositor_membership(&wl, &depositor_acc_info.key),
    }
}

/// Once the whitelist account is this program's, is the one the fund names and lists
/// `members`, the depositor check fails exactly when the depositor is absent from them.
pub proof fn depositor_check_is_membership(
    program_id: Identity,
    wl_acc_info: AccountView,
    fund: Fund,
    depositor_acc_info: AccountView,
    members: Seq<Identity>,
)
    requires
        wl_acc_info.owner == program_id,
        fund.whitelist == wl_acc_info.key,
        crate::accounts::whitelist::lists(wl_acc_info.data@, members),
    ensures
        spec_check_depositor(program_id, wl_acc_info, fund, depositor_acc_info) is Err
            <==> !members.contains(depositor_acc_info.key),
{
    crate::accounts::whitelist::members_are_unique(
        wl_acc_info.data@,
        members,
        spec_members(wl_acc_info.data@).unwrap(),
    );
}

/// What the NFT check makes of a fund, a mint address and a token account.
pub open spec fn nft_binding_of(fund: Fund, mint_key: Identity, token: TokenAccount) -> Result<
    (),
    FundError,
> {
    if token.mint != fund.nft_mint {
        fail(FundErrorCode::InvalidTokenAccountMint)
    } else if token.mint != mint_key {
        fail(FundErrorCode::InvalidMint)
    } else {
        Ok(())
    }
}

/// Checks that the token account holds the fund's NFT: its mint must be the fund's NFT mint
/// and the supplied mint.
pub fn check_nft_binding(fund: &Fund, mint_key: &Identity, token: &TokenAccount) -> (r: Result<
    (),
    FundError,
>)
    ensures
        r == nft_binding_of(*fund, *mint_key, *token),
        r is Ok <==> token.mint == fund.nft_mint && token.mint == *mint_key,
{
    if token.mint != fund.nft_mint {
        return Err(FundError::ErrorCode(FundErrorCode::InvalidTokenAccountMint));
    }
    if token.mint != *mint_key {
        return Err(FundError::ErrorCode(FundErrorCode::InvalidMint));
    }
    Ok(())
}

/// The NFT check.
pub open spec fn spec_check_nft(
    fund: Fund,
    mint_acc_info: AccountView,
    token_acc_info: AccountView,
) -> Result<(), FundError> {
    match spec_token(token_acc_info) {
        Err(e) => Err(e),
        Ok(token) => nft_binding_of(fund, mint_acc_info.key, token),
    }
}

/// Checks that the token account is an initialized token account that holds the fund's NFT.
pub fn check_nft(fund: &Fund, mint_acc_info: &AccountView, token_acc_info: &AccountView) -> (r:
    Result<(), FundError>)
    ensures
        r == spec_check_nft(*fund, *mint_acc_info, *token_acc_info),
{
    match token(token_acc_info) {
        Err(e) => Err(e),
        Ok(token_acc) => check_nft_binding(fund, &mint_acc_info.key, &token_acc),
    }
}

} // verus!
