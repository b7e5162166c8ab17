//! The fund record and its transitions.

use crate::error::{FundError, FundErrorCode};
use crate::identity::Identity;
use vstd::prelude::*;

verus! {

/// What kind of fund a record describes.
#[derive(Clone, Copy, Debug, PartialEq, Eq, Structural)]
pub enum FundType {
    /// Donation-like: deposits issue no shares.
    FundMe,
    /// A raise: every deposit issues shares.
    Raise { private: bool },
}

impl Default for FundType {
    fn default() -> (t: FundType)
        ensures
            t == FundType::FundMe,
    {
        FundType::FundMe
    }
}

impl FundType {
    /// Whether deposits into a fund of this type issue shares.
    pub open spec fn issues_shares(self) -> bool {
        self is Raise
    }
}

/// A pooled custodial fund. Its owner may withdraw some or all of the balance.
#[derive(Clone, Copy, Debug, PartialEq, Eq)]
pub struct Fund {
    /// Set once the record has been created.
    pub initialized: bool,
    /// Whether the fund takes deposits.
    pub open: bool,
    /// Kind of fund.
    pub fund_type: FundType,
    /// Who may close the fund and withdraw from it.
    pub owner: Identity,
    /// A second controlling identity.
    pub authority: Identity,
    /// Cap on the balance.
    pub max_balance: u64,
    /// What the fund holds.
    pub balance: u64,
    /// Seed byte of the vault authority.
    pub nonce: u8,
    /// Mint of the deposit asset.
    pub mint: Identity,
    /// Custody account that holds the deposits.
    pub vault: Identity,
    /// Shares issued; they grow with deposits and never shrink.
    pub shares: u64,
    /// Account of the gating NFT.
    pub nft_account: Identity,
    /// Mint of the gating NFT.
    pub nft_mint: Identity,
    /// Account listing who may deposit.
    pub whitelist: Identity,
    /// Custody account for returned capital.
    pub payback_vault: Identity,
    /// Returned capital held.
    pub payback_bal: u64,
}

impl Default for Fund {
    fn default() -> (f: Fund)
        ensures
            f == Fund::spec_default(),
    {
        let zero = Identity::zero();
        Fund {
            initialized: false,
            open: false,
            fund_type: FundType::FundMe,
            owner: zero,
            authority: zero,
            max_balance: 0,
            balance: 0,
            nonce: 0,
            mint: zero,
            vault: zero,
            shares: 0,
            nft_account: zero,
            nft_mint: zero,
            whitelist: zero,
            payback_vault: zero,
            payback_bal: 0,
        }
    }
}

impl Fund {
    /// The record with every field zero or false.
    pub open spec fn spec_default() -> Fund {
        let zero = Identity::spec_zero();
        Fund {
            initialized: false,
            open: false,
            fund_type: FundType::FundMe,
            owner: zero,
            authority: zero,
            max_balance: 0,
            balance: 0,
            nonce: 0,
            mint: zero,
            vault: zero,
            shares: 0,
            nft_account: zero,
            nft_mint: zero,
            whitelist: zero,
            payback_vault: zero,
            payback_bal: 0,
        }
    }

    /// The balance stays within the fund's cap.
    pub open spec fn within_cap(self) -> bool {
        self.balance <= self.max_balance
    }

    /// A deposit of `amount` keeps the balance within the cap.
    pub open spec fn has_room(self, amount: u64) -> bool {
        self.balance + amount <= self.max_balance
    }

    /// The record after a deposit of `amount`.
    pub open spec fn deposited(self, amount: u64) -> Fund
        recommends
            self.balance + amount <= u64::MAX,
            self.fund_type.issues_shares() ==> self.shares + amount <= u64::MAX,
    {
        Fund {
            balance: (self.balance + amount) as u64,
            shares: if self.fund_type.issues_shares() {
                (self.shares + amount) as u64
            } else {
                self.shares
            },
            ..self
        }
    }

    /// A withdrawal of `amount` is refused: the balance is positive and smaller than `amount`.
    pub open spec fn overdrawn_by(self, amount: u64) -> bool {
        0 < self.balance < amount
    }

    /// The record after a withdrawal of `amount`: an empty fund stays as it is, and so does a
    /// fund that refuses the withdrawal.
    pub open spec fn withdrawn(self, amount: u64) -> Fund {
        if self.balance == 0 || self.overdrawn_by(amount) {
            self
        } else {
            Fund { balance: (self.balance - amount) as u64, ..self }
        }
    }

    /// The record once closed.
    pub open spec fn closed(self) -> Fund {
        Fund { open: false, ..self }
    }

    /// The record after `amount` of capital has been returned.
    pub open spec fn paid_back(self, amount: u64) -> Fund
        recommends
            self.payback_bal + amount <= u64::MAX,
    {
        Fund { payback_bal: (self.payback_bal + amount) as u64, ..self }
    }

    /// Takes `amount` out of the balance. An empty fund is left as it is. A fund whose positive
    /// balance is smaller than `amount` refuses, and is left as it is.
    pub fn deduct(&mut self, amount: u64) -> (r: Result<(), FundError>)
        ensures
            *final(self) == old(self).withdrawn(amount),
            old(self).overdrawn_by(amount) ==> r == Err::<(), FundError>(
                FundError::ErrorCode(FundErrorCode::FundBalanceUnderflow),
            ),
            !old(self).overdrawn_by(amount) ==> r == Ok::<(), FundError>(()),
    {
        if self.balance > 0 {
            if amount > self.balance {
                return Err(FundError::ErrorCode(FundErrorCode::FundBalanceUnderflow));
            }
            self.balance -= amount;
        }
        Ok(())
    }

    /// Adds a deposit to the balance and, for a raise, issues as many shares.
    pub fn add(&mut self, amount: u64)
        requires
            old(self).balance + amount <= u64::MAX,
            old(self).fund_type.issues_shares() ==> old(self).shares + amount <= u64::MAX,
        ensures
            *final(self) == old(self).deposited(amount),
            final(self).balance == old(self).balance + amount,
            old(self).fund_type is FundMe ==> final(self).shares == old(self).shares,
            old(self).fund_type is Raise ==> final(self).shares == old(self).shares + amount,
            old(self).has_room(amount) ==> final(self).within_cap(),
    {
        self.balance += amount;
        match self.fund_type {
            FundType::FundMe => {},
            FundType::Raise { private: _ } => {
                self.shares += amount;
            },
        }
    }

    /// Closes the fund to deposits. A closed fund stays closed.
    pub fn close_fund(&mut self)
        ensures
            *final(self) == old(self).closed(),
            !final(self).open,
    {
        if self.open {
            self.open = false;
        }
    }

    /// Records `amount` of returned capital.
    pub fn add_payback_bal(&mut self, amount: u64)
        requires
            old(self).payback_bal + amount <= u64::MAX,
        ensures
            *final(self) == old(self).paid_back(amount),
            final(self).payback_bal == old(self).payback_bal + amount,
    {
        self.payback_bal += amount;
    }

    /// Shares issued per unit deposited.
    pub fn get_share_dist() -> (r: u64)
        ensures
            r == 1,
    {
        1
    }
}

/// Closing twice is the same as closing once, and a closed record is never open.
pub proof fn close_is_idempotent(fund: Fund)
    ensures
        fund.closed().closed() == fund.closed(),
        !fund.closed().open,
        !fund.open ==> fund.closed() == fund,
{
}

/// A deposit into a donation fund leaves the shares alone; a deposit into a raise issues
/// exactly the amount deposited. Either way the balance grows by the amount.
pub proof fn deposit_issues_shares_for_raises_only(fund: Fund, amount: u64)
    requires
        fund.balance + amount <= u64::MAX,
        fund.fund_type is Raise ==> fund.shares + amount <= u64::MAX,
    ensures
        fund.deposited(amount).balance == fund.balance + amount,
        fund.fund_type is FundMe ==> fund.deposited(amount).shares == fund.shares,
        fund.fund_type is Raise ==> fund.deposited(amount).shares == fund.shares + amount,
{
}

/// No transition lowers the shares, and none but a deposit into a raise changes them.
pub proof fn shares_never_shrink(fund: Fund, amount: u64)
    requires
        fund.fund_type is Raise ==> fund.shares + amount <= u64::MAX,
    ensures
        fund.deposited(amount).shares >= fund.shares,
        fund.withdrawn(amount).shares == fund.shares,
        fund.closed().shares == fund.shares,
        fund.paid_back(amount).shares == fund.shares,
{
}

/// A fund within its cap stays within it: after a deposit that has room, after a withdrawal,
/// after closing and after a payback.
pub proof fn cap_is_preserved(fund: Fund, amount: u64)
    requires
        fund.within_cap(),
    ensures
        fund.has_room(amount) ==> fund.deposited(amount).within_cap(),
        fund.withdrawn(amount).within_cap(),
        fund.closed().within_cap(),
        fund.paid_back(amount).within_cap(),
{
}

/// A withdrawal never takes more than the fund holds: the balance drops by `amount` when the
/// fund holds at least that much, and stays as it is otherwise.
pub proof fn withdrawal_never_overdraws(fund: Fund, amount: u64)
    ensures
        amount <= fund.balance && fund.balance > 0 ==> fund.withdrawn(amount).balance
            == fund.balance - amount,
        amount > fund.balance || fund.balance == 0 ==> fund.withdrawn(amount) == fund,
        fund.withdrawn(amount).balance <= fund.balance,
{
}

} // verus!
