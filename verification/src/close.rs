//! The close instruction: the owner closes the fund to deposits.
//!
//! Accounts, in order: the fund, then the owner, who must have signed.

use crate::access_control::{check_owner, spec_check_owner, spec_fund};
use crate::accounts::fund::Fund;
use crate::error::{fail, FundError, FundErrorCode};
use crate::host::AccountView;
use crate::identity::Identity;
use crate::pack::{lemma_pack_shape, pack_inverts_unpack, spec_pack, spec_unpack, unpack_inverts_pack};
use vstd::prelude::*;

verus! {

/// Number of accounts the instruction takes.
pub const ACCOUNTS: usize = 2;

/// The access control of the instruction.
pub open spec fn spec_access_control(
    program_id: Identity,
    fund_acc_info: AccountView,
    fund_owner_acc_info: AccountView,
) -> Result<(), FundError> {
    spec_check_owner(program_id, fund_acc_info, fund_owner_acc_info)
}

/// What the instruction gives: the fund record to commit, or the first check that failed.
pub open spec fn spec_handler(program_id: Identity, accounts: Seq<AccountView>) -> Result<
    Seq<u8>,
    FundError,
> {
    if accounts.len() < 2 {
        fail(FundErrorCode::NotEnoughAccountKeys)
    } else {
        match spec_access_control(program_id, accounts[0], accounts[1]) {
            Err(e) => Err(e),
            Ok(_) => Ok(spec_pack(spec_unpack(accounts[0].data@)->Some_0.closed())),
        }
    }
}

/// Runs the access control: the owner must have signed and must own the fund.
pub fn access_control(
    program_id: &Identity,
    fund_acc_info: &AccountView,
    fund_owner_acc_info: &AccountView,
) -> (r: Result<(), FundError>)
    ensures
        r == spec_access_control(*program_id, *fund_acc_info, *fund_owner_acc_info),
{
    check_owner(program_id, fund_acc_info, fund_owner_acc_info)
}

/// Applies the transition: the fund is closed.
pub fn state_transition(fund_acc: &mut Fund) -> (r: Result<(), FundError>)
    ensures
        r == Ok::<(), FundError>(()),
        *final(fund_acc) == old(fund_acc).closed(),
{
    fund_acc.close_fund();
    Ok(())
}

/// Handles a close instruction. Access control runs first; only when it has passed is the record
/// read, closed and encoded again. The bytes returned are the fund account's new data, for
/// the caller to commit; on an error there is nothing to commit.
pub fn handler(program_id: &Identity, accounts: &[AccountView]) -> (r: Result<Vec<u8>, FundError>)
    ensures
        match spec_handler(*program_id, accounts@) {
            Ok(data) => r matches Ok(out) && out@ == data,
            Err(e) => r == Err::<Vec<u8>, FundError>(e),
        },
        r matches Ok(out) ==> {
            &&& spec_fund(accounts@[0], *program_id) matches Ok(fund)
            &&& spec_unpack(out@) == Some(fund.closed())
            &&& out@.len() == accounts@[0].data@.len()
        },
{
    proof {
        close_succeeds_exactly_for_the_signing_owner(*program_id, accounts@);
    }
    if accounts.len() < ACCOUNTS {
        return Err(FundError::ErrorCode(FundErrorCode::NotEnoughAccountKeys));
    }
    let fund_acc_info = &accounts[0];
    let fund_owner_acc_info = &accounts[1];
    match access_control(program_id, fund_acc_info, fund_owner_acc_info) {
        Err(e) => {
            return Err(e);
        },
        Ok(_) => {},
    }
    let mut fund_acc = match Fund::unpack(fund_acc_info.data.as_slice()) {
        Err(e) => {
            return Err(e);
        },
        Ok(fund_acc) => fund_acc,
    };
    match state_transition(&mut fund_acc) {
        Err(e) => {
            return Err(e);
        },
        Ok(_) => {},
    }
    Ok(fund_acc.pack())
}

/// A close is carried out exactly when the owner signed and owns an initialized fund of this
/// program. It then commits the same record with `open` cleared, in as many bytes as before;
/// nothing else in the record changes.
pub proof fn close_succeeds_exactly_for_the_signing_owner(
    program_id: Identity,
    accounts: Seq<AccountView>,
)
    ensures
        spec_handler(program_id, accounts) is Ok <==> {
            &&& accounts.len() >= 2
            &&& accounts[1].is_signer
            &&& spec_fund(accounts[0], program_id) matches Ok(fund)
            &&& fund.owner == accounts[1].key
        },
        spec_handler(program_id, accounts) matches Ok(data) ==> {
            &&& spec_fund(accounts[0], program_id) matches Ok(fund)
            &&& spec_unpack(data) == Some(fund.closed())
            &&& data.len() == accounts[0].data@.len()
        },
{
    if spec_handler(program_id, accounts) is Ok {
        let fund = spec_unpack(accounts[0].data@)->Some_0;
        unpack_inverts_pack(fund.closed());
        pack_inverts_unpack(accounts[0].data@, fund);
        lemma_pack_shape(fund.closed());
    }
}

/// A close asked for by anyone but the fund's owner is refused as unauthorized, whether or
/// not they signed.
pub proof fn close_by_a_stranger_is_unauthorized(program_id: Identity, accounts: Seq<AccountView>)
    requires
        accounts.len() >= 2,
        spec_fund(accounts[0], program_id) matches Ok(fund) && fund.owner != accounts[1].key,
    ensures
        spec_handler(program_id, accounts) == fail::<Seq<u8>>(FundErrorCode::Unauthorized),
{
}

/// Closing a fund that has just been closed commits the same bytes again.
pub proof fn closing_twice_changes_nothing(
    program_id: Identity,
    accounts: Seq<AccountView>,
    again: Seq<AccountView>,
)
    requires
        spec_handler(program_id, accounts) is Ok,
        again.len() >= 2,
        again[0].key == accounts[0].key,
        again[0].owner == accounts[0].owner,
        again[0].data@ == spec_handler(program_id, accounts)->Ok_0,
        again[1].key == accounts[1].key,
        again[1].is_signer,
    ensures
        spec_handler(program_id, again) == spec_handler(program_id, accounts),
{
    let fund = spec_unpack(accounts[0].data@)->Some_0;
    unpack_inverts_pack(fund.closed());
}

} // verus!
