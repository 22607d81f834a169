use vstd::prelude::*;
use crate::address::Address;

verus! {

/// Where a wager stands. `Settled` and `Refunded` are terminal.
#[derive(Clone, Copy, Debug, PartialEq, Eq, Structural)]
pub enum EscrowState {
    AwaitingJoiner,
    Active,
    Settled,
    Refunded,
}

impl EscrowState {
    pub open spec fn is_terminal(self) -> bool {
        self == EscrowState::Settled || self == EscrowState::Refunded
    }
}

/// The persistent record of one wager.
#[derive(Clone, Copy, Debug, PartialEq, Eq, Structural)]
pub struct Escrow {
    pub wager_id: u64,
    pub creator: Address,
    pub joiner: Address,
    pub oracle: Address,
    pub amount_lamports: u64,
    pub deadline_unix_timestamp: i64,
    pub state: EscrowState,
    pub bump: u8,
    pub vault_bump: u8,
}

impl Escrow {
    /// Ceiling on the stake of each side, checked at creation.
    pub const MAX_AMOUNT_LAMPORTS: u64 = 10_000_000_000;

    /// Bytes of the stored record: discriminator, then the fields in order.
    pub const SPACE: usize = 8 + 8 + 32 + 32 + 32 + 8 + 8 + 1 + 1 + 1;

    /// The joiner field has been filled in.
    pub open spec fn is_joined(self) -> bool {
        !self.joiner.is_unset()
    }

    /// What every record that the instructions produce satisfies: a stake in
    /// range, no joiner before joining, and a joiner other than the creator
    /// once the wager is active or settled.
    pub open spec fn inv(self) -> bool {
        &&& 0 < self.amount_lamports <= Escrow::MAX_AMOUNT_LAMPORTS
        &&& self.state == EscrowState::AwaitingJoiner ==> !self.is_joined()
        &&& (self.state == EscrowState::Active || self.state == EscrowState::Settled) ==> self.is_joined()
        &&& self.is_joined() ==> self.joiner != self.creator
    }
}

/// An account as an instruction sees it: its address and its balance.
#[derive(Clone, Copy, Debug, PartialEq, Eq, Structural)]
pub struct Account {
    pub key: Address,
    pub lamports: u64,
}

impl Account {
    pub open spec fn with_lamports(self, lamports: int) -> Account {
        Account { key: self.key, lamports: lamports as u64 }
    }
}

/// Why an instruction was rejected. A rejected instruction changes nothing.
#[derive(Clone, Copy, Debug, PartialEq, Eq, Structural)]
pub enum EscrowError {
    AmountZero,
    AmountTooLarge,
    DeadlineInPast,
    WagerIdMismatch,
    NotJoinable,
    JoinerAlreadySet,
    CreatorCannotJoin,
    NotActive,
    UnauthorizedOracle,
    JoinerMissing,
    CreatorAccountMismatch,
    JoinerAccountMismatch,
    InvalidWinner,
    MathOverflow,
    InsufficientVaultBalance,
    AlreadySettled,
    AlreadyRefunded,
    RefundNotAvailableYet,
    /// The depositing party cannot cover its stake.
    InsufficientFunds,
}

impl EscrowError {
    /// The message shown for the error.
    pub fn message(&self) -> (r: &'static str) {
        match self {
            EscrowError::AmountZero => "amount must be > 0",
            EscrowError::AmountTooLarge => "amount too large",
            EscrowError::DeadlineInPast => "deadline is in the past",
            EscrowError::WagerIdMismatch => "wager id mismatch",
            EscrowError::NotJoinable => "escrow not joinable",
            EscrowError::JoinerAlreadySet => "joiner already set",
            EscrowError::CreatorCannotJoin => "creator cannot join",
            EscrowError::NotActive => "escrow not active",
            EscrowError::UnauthorizedOracle => "unauthorized oracle",
            EscrowError::JoinerMissing => "joiner missing",
            EscrowError::CreatorAccountMismatch => "creator account mismatch",
            EscrowError::JoinerAccountMismatch => "joiner account mismatch",
            EscrowError::InvalidWinner => "invalid winner",
            EscrowError::MathOverflow => "math overflow",
            EscrowError::InsufficientVaultBalance => "insufficient vault balance",
            EscrowError::AlreadySettled => "already settled",
            EscrowError::AlreadyRefunded => "already refunded",
            EscrowError::RefundNotAvailableYet => "refund not available yet",
            EscrowError::InsufficientFunds => "insufficient funds for deposit",
        }
    }
}

} // verus!
