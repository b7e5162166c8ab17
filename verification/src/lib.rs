//! A pooled custodial fund: its record, the access control that guards every instruction,
//! and the close and withdraw instructions.
//!
//! Users deposit an asset into a vault that no key controls; the fund's owner may later close
//! the fund or withdraw from it. The vault's authority is an address derived from the fund's
//! address and nonce, so only this program can sign for it.
//!
//! - [`accounts`]: the fund record and its transitions, the vault authority, the whitelist.
//! - [`pack`]: the byte layout of the fund record.
//! - [`access_control`]: the checks, each on account views, each failing on the first
//!   violated condition.
//! - [`close`], [`withdraw`]: the instructions. Each validates first and only then computes
//!   what is to be committed and, for a withdrawal, which transfer is to be invoked.
//! - [`custody`], [`host`]: what is taken from the token program and from the runtime.
//! - [`error`], [`identity`]: errors and addresses.

pub mod access_control;
pub mod accounts;
pub mod close;
pub mod custody;
pub mod error;
pub mod host;
pub mod identity;
pub mod pack;
pub mod withdraw;
