use vstd::prelude::*;
use crate::address::Address;
use crate::escrow::{Account, Escrow, EscrowError, EscrowState};
use crate::transfer::{deposit, drain_to, transfer_lamports};

verus! {

/// Accounts of `create`: the paying creator, the record to fill in, the vault,
/// and the derivation bumps of the record and vault addresses.
#[derive(Clone, Copy, Debug, PartialEq, Eq, Structural)]
pub struct Create {
    pub creator: Account,
    pub escrow: Escrow,
    pub vault: Account,
    pub escrow_bump: u8,
    pub vault_bump: u8,
}

/// Accounts of `join`: the paying joiner, the record and its vault.
#[derive(Clone, Copy, Debug, PartialEq, Eq, Structural)]
pub struct Join {
    pub joiner: Account,
    pub escrow: Escrow,
    pub vault: Account,
}

/// Accounts of `settle`: the signing oracle, the record, its vault and the two
/// parties that can be paid.
#[derive(Clone, Copy, Debug, PartialEq, Eq, Structural)]
pub struct Settle {
    pub oracle: Address,
    pub escrow: Escrow,
    pub vault: Account,
    pub creator: Account,
    pub joiner: Account,
}

/// Accounts of `refund`: whoever triggers it, the record, its vault and the two
/// parties. Without a joiner the `joiner` account is not looked at.
#[derive(Clone, Copy, Debug, PartialEq, Eq, Structural)]
pub struct Refund {
    pub trigger: Address,
    pub escrow: Escrow,
    pub vault: Account,
    pub creator: Account,
    pub joiner: Account,
}

// ---------------------------------------------------------------- create

/// The first check of `create` that fails, if any.
pub open spec fn create_error(
    ctx: Create,
    amount_lamports: u64,
    deadline_unix_timestamp: i64,
    now: i64,
) -> Option<EscrowError> {
    if amount_lamports == 0 {
        Some(EscrowError::AmountZero)
    } else if amount_lamports > Escrow::MAX_AMOUNT_LAMPORTS {
        Some(EscrowError::AmountTooLarge)
    } else if deadline_unix_timestamp <= now {
        Some(EscrowError::DeadlineInPast)
    } else if ctx.creator.lamports < amount_lamports {
        Some(EscrowError::InsufficientFunds)
    } else if ctx.vault.lamports + amount_lamports > u64::MAX {
        Some(EscrowError::MathOverflow)
    } else {
        None
    }
}

/// The accounts after a successful `create`.
pub open spec fn created(
    ctx: Create,
    wager_id: u64,
    amount_lamports: u64,
    deadline_unix_timestamp: i64,
    oracle: Address,
) -> Create {
    Create {
        creator: ctx.creator.with_lamports(ctx.creator.lamports - amount_lamports),
        escrow: Escrow {
            wager_id,
            creator: ctx.creator.key,
            joiner: Address::zero(),
            oracle,
            amount_lamports,
            deadline_unix_timestamp,
            state: EscrowState::AwaitingJoiner,
            bump: ctx.escrow_bump,
            vault_bump: ctx.vault_bump,
        },
        vault: ctx.vault.with_lamports(ctx.vault.lamports + amount_lamports),
        ..ctx
    }
}

/// Opens a wager: records its terms with no joiner yet and moves the
/// creator's stake into the vault. `now` is the runtime's current time.
pub fn create(
    ctx: &mut Create,
    wager_id: u64,
    amount_lamports: u64,
    deadline_unix_timestamp: i64,
    oracle: Address,
    now: i64,
) -> (r: Result<(), EscrowError>)
    ensures
        match create_error(*old(ctx), amount_lamports, deadline_unix_timestamp, now) {
            Some(e) => r == Err::<(), EscrowError>(e) && *final(ctx) == *old(ctx),
            None => r is Ok && *final(ctx) == created(
                *old(ctx),
                wager_id,
                amount_lamports,
                deadline_unix_timestamp,
                oracle,
            ),
        },
{
    if amount_lamports == 0 {
        return Err(EscrowError::AmountZero);
    }
    if amount_lamports > Escrow::MAX_AMOUNT_LAMPORTS {
        return Err(EscrowError::AmountTooLarge);
    }
    if deadline_unix_timestamp <= now {
        return Err(EscrowError::DeadlineInPast);
    }
    let mut creator = ctx.creator;
    let mut vault = ctx.vault;
    match deposit(&mut creator, &mut vault, amount_lamports) {
        Err(e) => return Err(e),
        Ok(()) => {},
    }
    ctx.escrow = Escrow {
        wager_id,
        creator: creator.key,
        joiner: Address::unset(),
        oracle,
        amount_lamports,
        deadline_unix_timestamp,
        state: EscrowState::AwaitingJoiner,
        bump: ctx.escrow_bump,
        vault_bump: ctx.vault_bump,
    };
    ctx.creator = creator;
    ctx.vault = vault;
    Ok(())
}

// ---------------------------------------------------------------- join

/// The first check of `join` that fails, if any.
pub open spec fn join_error(ctx: Join, wager_id: u64) -> Option<EscrowError> {
    let e = ctx.escrow;
    if e.wager_id != wager_id {
        Some(EscrowError::WagerIdMismatch)
    } else if e.state != EscrowState::AwaitingJoiner {
        Some(EscrowError::NotJoinable)
    } else if e.is_joined() {
        Some(EscrowError::JoinerAlreadySet)
    } else if e.creator == ctx.joiner.key {
        Some(EscrowError::CreatorCannotJoin)
    } else if ctx.joiner.lamports < e.amount_lamports {
        Some(EscrowError::InsufficientFunds)
    } else if ctx.vault.lamports + e.amount_lamports > u64::MAX {
        Some(EscrowError::MathOverflow)
    } else {
        None
    }
}

/// The accounts after a successful `join`.
pub open spec fn joined(ctx: Join) -> Join {
    let amount = ctx.escrow.amount_lamports;
    Join {
        joiner: ctx.joiner.with_lamports(ctx.joiner.lamports - amount),
        escrow: Escrow { joiner: ctx.joiner.key, state: EscrowState::Active, ..ctx.escrow },
        vault: ctx.vault.with_lamports(ctx.vault.lamports + amount),
    }
}

/// The counterparty takes the wager: its matching stake goes into the vault
/// and the wager becomes active. The first join wins.
pub fn join(ctx: &mut Join, wager_id: u64) -> (r: Result<(), EscrowError>)
    ensures
        match join_error(*old(ctx), wager_id) {
            Some(e) => r == Err::<(), EscrowError>(e) && *final(ctx) == *old(ctx),
            None => r is Ok && *final(ctx) == joined(*old(ctx)),
        },
{
    if ctx.escrow.wager_id != wager_id {
        return Err(EscrowError::WagerIdMismatch);
    }
    if ctx.escrow.state != EscrowState::AwaitingJoiner {
        return Err(EscrowError::NotJoinable);
    }
    if !ctx.escrow.joiner.is_unset_exec() {
        return Err(EscrowError::JoinerAlreadySet);
    }
    if ctx.escrow.creator == ctx.joiner.key {
        return Err(EscrowError::CreatorCannotJoin);
    }
    let mut joiner = ctx.joiner;
    let mut vault = ctx.vault;
    match deposit(&mut joiner, &mut vault, ctx.escrow.amount_lamports) {
        Err(e) => return Err(e),
        Ok(()) => {},
    }
    ctx.escrow.joiner = joiner.key;
    ctx.escrow.state = EscrowState::Active;
    ctx.joiner = joiner;
    ctx.vault = vault;
    Ok(())
}

// ---------------------------------------------------------------- settle

/// Winner code of `settle`: the creator takes both stakes.
pub const WINNER_CREATOR: u8 = 0;

/// Winner code of `settle`: the joiner takes both stakes.
pub const WINNER_JOINER: u8 = 1;

/// Winner code of `settle`: a tie, each side gets its stake back.
pub const WINNER_TIE: u8 = 2;

/// What the creator is paid out of the stakes for a winner code.
pub open spec fn creator_share(amount: int, winner: u8) -> int {
    if winner == WINNER_CREATOR {
        2 * amount
    } else if winner == WINNER_TIE {
        amount
    } else {
        0
    }
}

/// What the joiner is paid out of the stakes for a winner code.
pub open spec fn joiner_share(amount: int, winner: u8) -> int {
    if winner == WINNER_JOINER {
        2 * amount
    } else if winner == WINNER_TIE {
        amount
    } else {
        0
    }
}

/// The creator's balance after settling: its share, plus whatever the vault
/// holds beyond the two stakes.
pub open spec fn settled_creator_lamports(ctx: Settle, winner: u8) -> int {
    let amount = ctx.escrow.amount_lamports as int;
    ctx.creator.lamports + creator_share(amount, winner) + (ctx.vault.lamports - 2 * amount)
}

/// The joiner's balance after settling.
pub open spec fn settled_joiner_lamports(ctx: Settle, winner: u8) -> int {
    ctx.joiner.lamports + joiner_share(ctx.escrow.amount_lamports as int, winner)
}

/// The first check of `settle` that fails, if any.
pub open spec fn settle_error(ctx: Settle, wager_id: u64, winner: u8) -> Option<EscrowError> {
    let e = ctx.escrow;
    if e.wager_id != wager_id {
        Some(EscrowError::WagerIdMismatch)
    } else if e.state != EscrowState::Active {
        Some(EscrowError::NotActive)
    } else if ctx.oracle != e.oracle {
        Some(EscrowError::UnauthorizedOracle)
    } else if !e.is_joined() {
        Some(EscrowError::JoinerMissing)
    } else if ctx.creator.key != e.creator {
        Some(EscrowError::CreatorAccountMismatch)
    } else if ctx.joiner.key != e.joiner {
        Some(EscrowError::JoinerAccountMismatch)
    } else if 2 * e.amount_lamports > u64::MAX {
        Some(EscrowError::MathOverflow)
    } else if ctx.vault.lamports < 2 * e.amount_lamports {
        Some(EscrowError::InsufficientVaultBalance)
    } else if winner > WINNER_TIE {
        Some(EscrowError::InvalidWinner)
    } else if settled_creator_lamports(ctx, winner) > u64::MAX
        || settled_joiner_lamports(ctx, winner) > u64::MAX {
        Some(EscrowError::MathOverflow)
    } else {
        None
    }
}

/// The accounts after a successful `settle`: the vault is empty.
pub open spec fn settled(ctx: Settle, winner: u8) -> Settle {
    Settle {
        escrow: Escrow { state: EscrowState::Settled, ..ctx.escrow },
        vault: ctx.vault.with_lamports(0),
        creator: ctx.creator.with_lamports(settled_creator_lamports(ctx, winner)),
        joiner: ctx.joiner.with_lamports(settled_joiner_lamports(ctx, winner)),
        ..ctx
    }
}

/// The oracle declares the outcome: `winner` 0 pays both stakes to the
/// creator, 1 to the joiner, 2 returns each stake. Whatever else the vault
/// holds goes to the creator.
pub fn settle(ctx: &mut Settle, wager_id: u64, winner: u8) -> (r: Result<(), EscrowError>)
    ensures
        match settle_error(*old(ctx), wager_id, winner) {
            Some(e) => r == Err::<(), EscrowError>(e) && *final(ctx) == *old(ctx),
            None => r is Ok && *final(ctx) == settled(*old(ctx), winner),
        },
{
    if ctx.escrow.wager_id != wager_id {
        return Err(EscrowError::WagerIdMismatch);
    }
    if ctx.escrow.state != EscrowState::Active {
        return Err(EscrowError::NotActive);
    }
    if ctx.oracle != ctx.escrow.oracle {
        return Err(EscrowError::UnauthorizedOracle);
    }
    if ctx.escrow.joiner.is_unset_exec() {
        return Err(EscrowError::JoinerMissing);
    }
    if ctx.creator.key != ctx.escrow.creator {
        return Err(EscrowError::CreatorAccountMismatch);
    }
    if ctx.joiner.key != ctx.escrow.joiner {
        return Err(EscrowError::JoinerAccountMismatch);
    }
    let amount = ctx.escrow.amount_lamports;
    let total = match amount.checked_mul(2) {
        None => return Err(EscrowError::MathOverflow),
        Some(t) => t,
    };
    if ctx.vault.lamports < total {
        return Err(EscrowError::InsufficientVaultBalance);
    }
    let mut vault = ctx.vault;
    let mut creator = ctx.creator;
    let mut joiner = ctx.joiner;
    if winner == WINNER_CREATOR {
        match transfer_lamports(&mut vault, &mut creator, total) {
            Err(e) => return Err(e),
            Ok(()) => {},
        }
    } else if winner == WINNER_JOINER {
        match transfer_lamports(&mut vault, &mut joiner, total) {
            Err(e) => return Err(e),
            Ok(()) => {},
        }
    } else if winner == WINNER_TIE {
        match transfer_lamports(&mut vault, &mut creator, amount) {
            Err(e) => return Err(e),
            Ok(()) => {},
        }
        match transfer_lamports(&mut vault, &mut joiner, amount) {
            Err(e) => return Err(e),
            Ok(()) => {},
        }
    } else {
        return Err(EscrowError::InvalidWinner);
    }
    match drain_to(&mut vault, &mut creator) {
        Err(e) => return Err(e),
        Ok(()) => {},
    }
    ctx.vault = vault;
    ctx.creator = creator;
    ctx.joiner = joiner;
    ctx.escrow.state = EscrowState::Settled;
    Ok(())
}

// ---------------------------------------------------------------- refund

/// What the vault must hold to return every stake that was paid in.
pub open spec fn refund_owed(e: Escrow) -> int {
    if e.is_joined() {
        2 * e.amount_lamports
    } else {
        e.amount_lamports as int
    }
}

/// The creator's balance after a refund: everything in the vault but the
/// joiner's stake.
pub open spec fn refunded_creator_lamports(ctx: Refund) -> int {
    ctx.creator.lamports + ctx.vault.lamports - (refund_owed(ctx.escrow) - ctx.escrow.amount_lamports)
}

/// The joiner's balance after a refund; unchanged when nobody joined.
pub open spec fn refunded_joiner_lamports(ctx: Refund) -> int {
    if ctx.escrow.is_joined() {
        ctx.joiner.lamports + ctx.escrow.amount_lamports
    } else {
        ctx.joiner.lamports as int
    }
}

/// The first check of `refund` that fails, if any.
pub open spec fn refund_error(ctx: Refund, wager_id: u64, now: i64) -> Option<EscrowError> {
    let e = ctx.escrow;
    if e.wager_id != wager_id {
        Some(EscrowError::WagerIdMismatch)
    } else if e.state == EscrowState::Settled {
        Some(EscrowError::AlreadySettled)
    } else if e.state == EscrowState::Refunded {
        Some(EscrowError::AlreadyRefunded)
    } else if now <= e.deadline_unix_timestamp {
        Some(EscrowError::RefundNotAvailableYet)
    } else if ctx.creator.key != e.creator {
        Some(EscrowError::CreatorAccountMismatch)
    } else if e.is_joined() && ctx.joiner.key != e.joiner {
        Some(EscrowError::JoinerAccountMismatch)
    } else if ctx.vault.lamports < refund_owed(e) {
        Some(EscrowError::InsufficientVaultBalance)
    } else if refunded_creator_lamports(ctx) > u64::MAX || refunded_joiner_lamports(ctx) > u64::MAX {
        Some(EscrowError::MathOverflow)
    } else {
        None
    }
}

/// The accounts after a successful `refund`: the vault is empty.
pub open spec fn refunded(ctx: Refund) -> Refund {
    Refund {
        escrow: Escrow { state: EscrowState::Refunded, ..ctx.escrow },
        vault: ctx.vault.with_lamports(0),
        creator: ctx.creator.with_lamports(refunded_creator_lamports(ctx)),
        joiner: ctx.joiner.with_lamports(refunded_joiner_lamports(ctx)),
        ..ctx
    }
}

/// After the deadline anyone may return the stakes: each party gets its own
/// back, and whatever else the vault holds goes to the creator.
pub fn refund(ctx: &mut Refund, wager_id: u64, now: i64) -> (r: Result<(), EscrowError>)
    ensures
        match refund_error(*old(ctx), wager_id, now) {
            Some(e) => r == Err::<(), EscrowError>(e) && *final(ctx) == *old(ctx),
            None => r is Ok && *final(ctx) == refunded(*old(ctx)),
        },
{
    if ctx.escrow.wager_id != wager_id {
        return Err(EscrowError::WagerIdMismatch);
    }
    if ctx.escrow.state == EscrowState::Settled {
        return Err(EscrowError::AlreadySettled);
    }
    if ctx.escrow.state == EscrowState::Refunded {
        return Err(EscrowError::AlreadyRefunded);
    }
    if now <= ctx.escrow.deadline_unix_timestamp {
        return Err(EscrowError::RefundNotAvailableYet);
    }
    if ctx.creator.key != ctx.escrow.creator {
        return Err(EscrowError::CreatorAccountMismatch);
    }
    let amount = ctx.escrow.amount_lamports;
    let mut vault = ctx.vault;
    let mut creator = ctx.creator;
    let mut joiner = ctx.joiner;
    if ctx.escrow.joiner.is_unset_exec() {
        // Only the creator paid in.
        match transfer_lamports(&mut vault, &mut creator, amount) {
            Err(e) => return Err(e),
            Ok(()) => {},
        }
    } else {
        if ctx.joiner.key != ctx.escrow.joiner {
            return Err(EscrowError::JoinerAccountMismatch);
        }
        if vault.lamports < amount || vault.lamports - amount < amount {
            return Err(EscrowError::InsufficientVaultBalance);
        }
        match transfer_lamports(&mut vault, &mut creator, amount) {
            Err(e) => return Err(e),
            Ok(()) => {},
        }
        match transfer_lamports(&mut vault, &mut joiner, amount) {
            Err(e) => return Err(e),
            Ok(()) => {},
        }
    }
    match drain_to(&mut vault, &mut creator) {
        Err(e) => return Err(e),
        Ok(()) => {},
    }
    ctx.vault = vault;
    ctx.creator = creator;
    ctx.joiner = joiner;
    ctx.escrow.state = EscrowState::Refunded;
    Ok(())
}

} // verus!
