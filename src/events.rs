//! Errors, the token transfers that operations order, and the audit events
//! that they emit.
use vstd::prelude::*;
use crate::address::Address;
use crate::state::SwapAccount;

verus! {

/// Why an operation was refused. A refused operation changes nothing.
#[derive(Clone, Copy, Debug, PartialEq, Eq, Structural)]
pub enum SwapError {
    /// The signer of a consented refund is not the swap's redeemer.
    InvalidRedeemer,
    /// The secret does not hash to the swap's secret hash.
    InvalidSecret,
    /// The rent sponsor given is not the one that opened the record.
    InvalidRentSponsor,
    /// A refund without consent was tried at or before the expiry slot.
    RefundBeforeExpiry,
    /// A given authority, record or vault address is not the derived one.
    AddressDerivationMismatch,
    /// The opening slot plus the timelock does not fit in a `u64`.
    TimelockOverflow,
    /// A record with the same parameters is already open.
    SwapAlreadyExists,
    /// No record lives at the given address.
    SwapNotFound,
    /// A token account holds another token type or has another owner than
    /// the operation needs.
    InvalidTokenAccount,
}

/// What an operation reads of a token account: its address, its token type
/// and its owner.
#[derive(Clone, Copy, Debug)]
pub struct TokenAccount {
    pub address: Address,
    pub mint: Address,
    pub owner: Address,
}

/// An order to the token ledger: move `amount` from `from` to `to`, signed by
/// `authority`. The ledger performs it atomically or fails the operation.
#[derive(Clone, Copy, Debug)]
pub struct TokenTransfer {
    pub from: Address,
    pub to: Address,
    pub authority: Address,
    pub amount: u64,
}

/// A swap was opened and its funds moved into the vault.
#[derive(Clone, Debug)]
pub struct Initiated {
    pub mint: Address,
    pub redeemer: Address,
    pub refundee: Address,
    pub secret_hash: [u8; 32],
    pub swap_amount: u64,
    pub timelock: u64,
    /// Data on the other leg of the swap, passed through as it came.
    pub destination_data: Option<Vec<u8>>,
    pub funder: Address,
}

/// A swap was redeemed; the secret is published with it.
#[derive(Clone, Copy, Debug)]
pub struct Redeemed {
    pub mint: Address,
    pub redeemer: Address,
    pub refundee: Address,
    pub secret: [u8; 32],
    pub swap_amount: u64,
    pub timelock: u64,
}

/// A swap was refunded after its expiry.
#[derive(Clone, Copy, Debug)]
pub struct Refunded {
    pub mint: Address,
    pub redeemer: Address,
    pub refundee: Address,
    pub secret_hash: [u8; 32],
    pub swap_amount: u64,
    pub timelock: u64,
}

/// A swap was refunded with the redeemer's consent.
#[derive(Clone, Copy, Debug)]
pub struct InstantRefunded {
    pub mint: Address,
    pub redeemer: Address,
    pub refundee: Address,
    pub secret_hash: [u8; 32],
    pub swap_amount: u64,
    pub timelock: u64,
}

/// What a successful opening asks of the ledger, and what it announces.
#[derive(Clone, Debug)]
pub struct Opening {
    /// The record now stored.
    pub record: SwapAccount,
    /// From the funder's token account into the vault.
    pub transfer: TokenTransfer,
    pub event: Initiated,
}

/// What a successful settlement asks of the ledger.
#[derive(Clone, Copy, Debug)]
pub struct Payout {
    /// From the vault to the recipient, signed by the program's authority.
    pub transfer: TokenTransfer,
    /// Where the closed record's storage deposit goes.
    pub close_to: Address,
}

} // verus!
