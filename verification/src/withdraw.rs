//! The withdraw instruction: the owner takes tokens out of the fund's vault.
//!
//! Accounts, in order: the vault, the fund, the beneficiary, who must have signed, the vault
//! authority, and the custody program.

use crate::access_control::{
    fund, spec_fund, spec_token, spec_vault, spec_withdraw, vault_join, withdraw,
};
use crate::accounts::fund::Fund;
use crate::accounts::vault::{spec_vault_authority, TokenVault};
use crate::custody::{id, spec_id, spec_transfer, transfer, Instruction, InstructionView};
use crate::error::{fail, from_host, FundError, FundErrorCode};
use crate::host::AccountView;
use crate::identity::Identity;
use crate::pack::{lemma_pack_shape, pack_inverts_unpack, spec_pack, spec_unpack, unpack_inverts_pack};
use vstd::prelude::*;

verus! {

/// Number of accounts the instruction takes.
pub const ACCOUNTS: usize = 5;

/// What a withdrawal that passed every check asks of the caller: invoke the transfer, signed
/// with the seeds of the vault authority, then commit the fund account's new data. Where the
/// transfer fails, nothing is committed.
#[derive(Debug, PartialEq, Eq)]
pub struct Withdrawal {
    /// The fund account's new data.
    pub fund_data: Vec<u8>,
    /// The custody transfer from the vault to the beneficiary.
    pub transfer: Instruction,
    /// The seeds that the vault authority signs with.
    pub signer_seeds: Vec<Vec<u8>>,
}

/// A withdrawal with its lists as sequences.
pub struct WithdrawalView {
    /// The fund account's new data.
    pub fund_data: Seq<u8>,
    /// The custody transfer from the vault to the beneficiary.
    pub transfer: InstructionView,
    /// The seeds that the vault authority signs with.
    pub signer_seeds: Seq<Seq<u8>>,
}

impl View for Withdrawal {
    type V = WithdrawalView;

    open spec fn view(&self) -> WithdrawalView {
        WithdrawalView {
            fund_data: self.fund_data@,
            transfer: self.transfer@,
            signer_seeds: self.signer_seeds.deep_view(),
        }
    }
}

/// The access control of the instruction.
pub open spec fn spec_access_control(
    program_id: Identity,
    fund_acc_info: AccountView,
    withdraw_acc_info: AccountView,
    vault_acc_info: AccountView,
    vault_authority_acc_info: AccountView,
) -> Result<(), FundError> {
    if !withdraw_acc_info.is_signer {
        fail(FundErrorCode::Unauthorized)
    } else {
        match spec_fund(fund_acc_info, program_id) {
            Err(e) => Err(e),
            Ok(_) => match spec_vault(
                vault_acc_info,
                vault_authority_acc_info,
                fund_acc_info,
                program_id,
            ) {
                Err(e) => Err(e),
                Ok(_) => match spec_withdraw(program_id, fund_acc_info, withdraw_acc_info) {
                    Err(e) => Err(e),
                    Ok(_) => Ok(()),
                },
            },
        }
    }
}

/// What the transition gives for a fund that passed access control.
pub open spec fn spec_state_transition(
    fund: Fund,
    fund_key: Identity,
    withdraw_key: Identity,
    vault_key: Identity,
    vault_authority_key: Identity,
    amount: u64,
) -> Result<WithdrawalView, FundError> {
    if fund.overdrawn_by(amount) {
        fail(FundErrorCode::FundBalanceUnderflow)
    } else {
        Ok(
            WithdrawalView {
                fund_data: spec_pack(fund.withdrawn(amount)),
                transfer: spec_transfer(
                    spec_id(),
                    vault_key,
                    withdraw_key,
                    vault_authority_key,
                    amount,
                ),
                signer_seeds: TokenVault::spec_signer_seeds(fund_key, fund.nonce),
            },
        )
    }
}

/// What the instruction gives: the withdrawal to carry out, or the first check that failed.
pub open spec fn spec_handler(program_id: Identity, accounts: Seq<AccountView>, amount: u64) -> Result<
    WithdrawalView,
    FundError,
> {
    if accounts.len() < 5 {
        fail(FundErrorCode::NotEnoughAccountKeys)
    } else {
        match spec_access_control(program_id, accounts[1], accounts[2], accounts[0], accounts[3]) {
            Err(e) => Err(e),
            Ok(_) => spec_state_transition(
                spec_unpack(accounts[1].data@)->Some_0,
                accounts[1].key,
                accounts[2].key,
                accounts[0].key,
                accounts[3].key,
                amount,
            ),
        }
    }
}

/// Runs the access control: the beneficiary must have signed, the fund account must hold an
/// initialized fund of this program, the vault must be the fund's and be owned by the derived
/// authority, which the supplied authority must be, and the beneficiary must own the fund.
pub fn access_control(
    program_id: &Identity,
    fund_acc_info: &AccountView,
    withdraw_acc_info: &AccountView,
    vault_acc_info: &AccountView,
    vault_authority_acc_info: &AccountView,
) -> (r: Result<(), FundError>)
    ensures
        r == spec_access_control(
            *program_id,
            *fund_acc_info,
            *withdraw_acc_info,
            *vault_acc_info,
            *vault_authority_acc_info,
        ),
{
    if !withdraw_acc_info.is_signer {
        return Err(FundError::ErrorCode(FundErrorCode::Unauthorized));
    }
    match fund(fund_acc_info, program_id) {
        Err(e) => {
            return Err(e);
        },
        Ok(_) => {},
    }
    match vault_join(vault_acc_info, vault_authority_acc_info, fund_acc_info, program_id) {
        Err(e) => {
            return Err(e);
        },
        Ok(_) => {},
    }
    match withdraw(program_id, fund_acc_info, withdraw_acc_info) {
        Err(e) => Err(e),
        Ok(_) => Ok(()),
    }
}

/// Applies the transition: takes the amount out of the fund's balance and builds the
/// custody transfer from the vault to the beneficiary, with the seeds its authority signs
/// with. A fund that refuses the amount is left as it is, and no transfer is built.
pub fn state_transition(
    fund_acc: &mut Fund,
    fund_key: &Identity,
    withdraw_key: &Identity,
    vault_key: &Identity,
    vault_authority_key: &Identity,
    amount: u64,
) -> (r: Result<(Instruction, Vec<Vec<u8>>), FundError>)
    ensures
        *final(fund_acc) == old(fund_acc).withdrawn(amount),
        old(fund_acc).overdrawn_by(amount) ==> r == fail::<(Instruction, Vec<Vec<u8>>)>(
            FundErrorCode::FundBalanceUnderflow,
        ),
        !old(fund_acc).overdrawn_by(amount) ==> (r matches Ok((ix, seeds)) && ix@ == spec_transfer(
            spec_id(),
            *vault_key,
            *withdraw_key,
            *vault_authority_key,
            amount,
        ) && seeds.deep_view() == TokenVault::spec_signer_seeds(*fund_key, old(fund_acc).nonce)),
{
    match fund_acc.deduct(amount) {
        Err(e) => {
            return Err(e);
        },
        Ok(_) => {},
    }
    let token_program = id();
    let withdraw_instruction = match from_host(
        transfer(&token_program, vault_key, withdraw_key, vault_authority_key, amount),
    ) {
        Err(e) => {
            return Err(e);
        },
        Ok(ix) => ix,
    };
    let signer_seeds = TokenVault::signer_seeds(fund_key, &fund_acc.nonce);
    Ok((withdraw_instruction, signer_seeds))
}

/// Handles a withdraw instruction. Access control runs first; only when it has passed is the
/// record read, the amount deducted and the transfer built. What is returned is for the
/// caller to carry out; on an error there is nothing to commit and nothing to invoke.
pub fn handler(program_id: &Identity, accounts: &[AccountView], amount: u64) -> (r: Result<
    Withdrawal,
    FundError,
>)
    ensures
        match spec_handler(*program_id, accounts@, amount) {
            Ok(w) => r matches Ok(out) && out@ == w,
            Err(e) => r == Err::<Withdrawal, FundError>(e),
        },
        r matches Ok(out) ==> {
            &&& spec_fund(accounts@[1], *program_id) matches Ok(fund)
            &&& spec_unpack(out.fund_data@) == Some(fund.withdrawn(amount))
            &&& out.fund_data@.len() == accounts@[1].data@.len()
        },
{
    proof {
        if spec_handler(*program_id, accounts@, amount) is Ok {
            withdrawal_moves_what_it_deducts(*program_id, accounts@, amount);
        }
    }
    if accounts.len() < ACCOUNTS {
        return Err(FundError::ErrorCode(FundErrorCode::NotEnoughAccountKeys));
    }
    let vault_acc_info = &accounts[0];
    let fund_acc_info = &accounts[1];
    let withdraw_acc_info = &accounts[2];
    let vault_authority_acc_info = &accounts[3];
    match access_control(
        program_id,
        fund_acc_info,
        withdraw_acc_info,
        vault_acc_info,
        vault_authority_acc_info,
    ) {
        Err(e) => {
            return Err(e);
        },
        Ok(_) => {},
    }
    let mut fund_acc = match Fund::unpack(fund_acc_info.data.as_slice()) {
        Err(e) => {
            return Err(e);
        },
        Ok(fund_acc) => fund_acc,
    };
    let (transfer, signer_seeds) = match state_transition(
        &mut fund_acc,
        &fund_acc_info.key,
        &withdraw_acc_info.key,
        &vault_acc_info.key,
        &vault_authority_acc_info.key,
        amount,
    ) {
        Err(e) => {
            return Err(e);
        },
        Ok(built) => built,
    };
    Ok(Withdrawal { fund_data: fund_acc.pack(), transfer, signer_seeds })
}

/// A withdrawal is carried out exactly when all of this holds: five accounts are given; the
/// beneficiary signed and owns the fund, an initialized fund of this program; the vault is
/// the account the fund names, an initialized token account that the derived authority owns;
/// the supplied authority is the derived one; and the fund does not refuse the amount.
pub proof fn withdrawal_succeeds_exactly_when(
    program_id: Identity,
    accounts: Seq<AccountView>,
    amount: u64,
)
    ensures
        spec_handler(program_id, accounts, amount) is Ok <==> {
            &&& accounts.len() >= 5
            &&& accounts[2].is_signer
            &&& spec_fund(accounts[1], program_id) matches Ok(fund)
            &&& fund.owner == accounts[2].key
            &&& fund.vault == accounts[0].key
            &&& spec_token(accounts[0]) matches Ok(vault)
            &&& vault.owner == accounts[3].key
            &&& spec_vault_authority(accounts[1].key, fund.nonce, program_id) == Some(
                accounts[3].key,
            )
            &&& !fund.overdrawn_by(amount)
        },
{
}

/// A withdrawal that is carried out commits the same record with the balance lowered by the
/// amount, or untouched where the fund was empty, in as many bytes as before. It transfers
/// exactly the amount from the vault to the beneficiary on the word of the vault authority,
/// which signs with the fund's address and nonce.
pub proof fn withdrawal_moves_what_it_deducts(
    program_id: Identity,
    accounts: Seq<AccountView>,
    amount: u64,
)
    requires
        spec_handler(program_id, accounts, amount) is Ok,
    ensures
        spec_fund(accounts[1], program_id) matches Ok(fund) && {
            let w = spec_handler(program_id, accounts, amount)->Ok_0;
            &&& spec_unpack(w.fund_data) == Some(fund.withdrawn(amount))
            &&& fund.balance > 0 ==> fund.withdrawn(amount).balance == fund.balance - amount
            &&& fund.balance == 0 ==> fund.withdrawn(amount) == fund
            &&& w.fund_data.len() == accounts[1].data@.len()
            &&& w.transfer == spec_transfer(
                spec_id(),
                accounts[0].key,
                accounts[2].key,
                accounts[3].key,
                amount,
            )
            &&& w.signer_seeds == TokenVault::spec_signer_seeds(accounts[1].key, fund.nonce)
        },
{
    let fund = spec_unpack(accounts[1].data@)->Some_0;
    unpack_inverts_pack(fund.withdrawn(amount));
    pack_inverts_unpack(accounts[1].data@, fund);
    lemma_pack_shape(fund.withdrawn(amount));
}

/// A withdrawal with a supplied authority other than the derived one is refused with
/// `InvalidVault`, once the beneficiary has signed and the fund, the vault account and its
/// address are in order.
pub proof fn withdrawal_with_a_wrong_authority_is_refused(
    program_id: Identity,
    accounts: Seq<AccountView>,
    amount: u64,
)
    requires
        accounts.len() >= 5,
        accounts[2].is_signer,
        spec_fund(accounts[1], program_id) is Ok,
        spec_token(accounts[0]) is Ok,
        accounts[0].key == spec_fund(accounts[1], program_id)->Ok_0.vault,
        spec_vault_authority(
            accounts[1].key,
            spec_fund(accounts[1], program_id)->Ok_0.nonce,
            program_id,
        ) matches Some(va) && va != accounts[3].key,
    ensures
        spec_handler(program_id, accounts, amount) == fail::<WithdrawalView>(
            FundErrorCode::InvalidVault,
        ),
{
}

/// A withdrawal for a beneficiary who does not own the fund is refused as unauthorized,
/// once the beneficiary has signed and the fund and its vault are in order.
pub proof fn withdrawal_for_a_stranger_is_unauthorized(
    program_id: Identity,
    accounts: Seq<AccountView>,
    amount: u64,
)
    requires
        accounts.len() >= 5,
        accounts[2].is_signer,
        spec_vault(accounts[0], accounts[3], accounts[1], program_id) is Ok,
        spec_fund(accounts[1], program_id)->Ok_0.owner != accounts[2].key,
    ensures
        spec_handler(program_id, accounts, amount) == fail::<WithdrawalView>(
            FundErrorCode::Unauthorized,
        ),
{
}

} // verus!
