use vstd::prelude::*;
use crate::address::Address;
use crate::escrow::{Escrow, EscrowError, EscrowState};
use crate::instructions::{
    create_error, created, join_error, joined, refund_error, refunded, settle_error, settled, Create, Join,
    Refund, Settle,
};

verus! {

/// `create` succeeds only with a stake in `(0, MAX_AMOUNT_LAMPORTS]` and a
/// deadline later than now; a stake or a deadline outside that is rejected
/// with its own error (and a rejected instruction changes nothing).
pub proof fn lemma_create_checks_terms(ctx: Create, amount_lamports: u64, deadline_unix_timestamp: i64, now: i64)
    ensures
        create_error(ctx, amount_lamports, deadline_unix_timestamp, now) is None
            ==> 0 < amount_lamports <= Escrow::MAX_AMOUNT_LAMPORTS && deadline_unix_timestamp > now,
        amount_lamports == 0 ==> create_error(ctx, amount_lamports, deadline_unix_timestamp, now)
            == Some(EscrowError::AmountZero),
        amount_lamports > Escrow::MAX_AMOUNT_LAMPORTS ==> create_error(ctx, amount_lamports, deadline_unix_timestamp, now)
            == Some(EscrowError::AmountTooLarge),
        0 < amount_lamports <= Escrow::MAX_AMOUNT_LAMPORTS && deadline_unix_timestamp <= now
            ==> create_error(ctx, amount_lamports, deadline_unix_timestamp, now)
            == Some(EscrowError::DeadlineInPast),
{
}

/// The vault follows the stakes: an empty vault holds `amount` after `create`
/// and `2 * amount` after the following `join`.
pub proof fn lemma_vault_holds_stakes(
    c: Create,
    wager_id: u64,
    amount_lamports: u64,
    deadline_unix_timestamp: i64,
    oracle: Address,
    now: i64,
    j: Join,
)
    requires
        c.vault.lamports == 0,
        create_error(c, amount_lamports, deadline_unix_timestamp, now) is None,
        j.escrow == created(c, wager_id, amount_lamports, deadline_unix_timestamp, oracle).escrow,
        j.vault == created(c, wager_id, amount_lamports, deadline_unix_timestamp, oracle).vault,
        join_error(j, wager_id) is None,
    ensures
        created(c, wager_id, amount_lamports, deadline_unix_timestamp, oracle).vault.lamports == amount_lamports,
        joined(j).vault.lamports == 2 * amount_lamports,
{
}

/// A settled or refunded wager leaves its vault empty.
pub proof fn lemma_vault_empty_when_terminal(s: Settle, winner: u8, f: Refund)
    ensures
        settled(s, winner).vault.lamports == 0,
        refunded(f).vault.lamports == 0,
{
}

/// Joining an active wager always fails as not joinable.
pub proof fn lemma_join_active_fails(ctx: Join, wager_id: u64)
    requires
        ctx.escrow.wager_id == wager_id,
        ctx.escrow.state == EscrowState::Active,
    ensures
        join_error(ctx, wager_id) == Some(EscrowError::NotJoinable),
{
}

/// Once a wager is settled or refunded, every further `settle` and `refund`
/// fails (and so changes nothing).
pub proof fn lemma_terminal_is_final(s: Settle, f: Refund, wager_id: u64, winner: u8, now: i64)
    requires
        s.escrow.state.is_terminal(),
        f.escrow.state.is_terminal(),
    ensures
        settle_error(s, wager_id, winner) is Some,
        refund_error(f, wager_id, now) is Some,
{
}

/// Each instruction only moves lamports between its own accounts: their sum
/// is the same before and after.
pub proof fn lemma_instructions_conserve_lamports(
    c: Create,
    wager_id: u64,
    amount_lamports: u64,
    deadline_unix_timestamp: i64,
    oracle: Address,
    now: i64,
    j: Join,
    s: Settle,
    winner: u8,
    f: Refund,
)
    ensures
        create_error(c, amount_lamports, deadline_unix_timestamp, now) is None ==> {
            let c2 = created(c, wager_id, amount_lamports, deadline_unix_timestamp, oracle);
            c2.creator.lamports + c2.vault.lamports == c.creator.lamports + c.vault.lamports
        },
        join_error(j, wager_id) is None ==> joined(j).joiner.lamports + joined(j).vault.lamports
            == j.joiner.lamports + j.vault.lamports,
        settle_error(s, wager_id, winner) is None ==> {
            let s2 = settled(s, winner);
            s2.creator.lamports + s2.joiner.lamports + s2.vault.lamports
                == s.creator.lamports + s.joiner.lamports + s.vault.lamports
        },
        refund_error(f, wager_id, now) is None ==> {
            let f2 = refunded(f);
            f2.creator.lamports + f2.joiner.lamports + f2.vault.lamports
                == f.creator.lamports + f.joiner.lamports + f.vault.lamports
        },
{
}

/// Over a whole wager that starts from an empty vault, is joined and then
/// settled, the two parties are paid out exactly what they paid in.
pub proof fn lemma_settled_wager_pays_out_deposits(
    c: Create,
    wager_id: u64,
    amount_lamports: u64,
    deadline_unix_timestamp: i64,
    oracle: Address,
    now: i64,
    j: Join,
    s: Settle,
    winner: u8,
)
    requires
        c.vault.lamports == 0,
        create_error(c, amount_lamports, deadline_unix_timestamp, now) is None,
        j.escrow == created(c, wager_id, amount_lamports, deadline_unix_timestamp, oracle).escrow,
        j.vault == created(c, wager_id, amount_lamports, deadline_unix_timestamp, oracle).vault,
        join_error(j, wager_id) is None,
        s.escrow == joined(j).escrow,
        s.vault == joined(j).vault,
        settle_error(s, wager_id, winner) is None,
    ensures
        ({
            let c2 = created(c, wager_id, amount_lamports, deadline_unix_timestamp, oracle);
            let s2 = settled(s, winner);
            (s2.creator.lamports - s.creator.lamports) + (s2.joiner.lamports - s.joiner.lamports)
                == (c.creator.lamports - c2.creator.lamports) + (j.joiner.lamports - joined(j).joiner.lamports)
        }),
{
}

/// Over a whole wager that starts from an empty vault and is refunded, joined
/// or not, the parties are paid out exactly what they paid in.
pub proof fn lemma_refunded_wager_pays_out_deposits(
    c: Create,
    wager_id: u64,
    amount_lamports: u64,
    deadline_unix_timestamp: i64,
    oracle: Address,
    now: i64,
    j: Join,
    was_joined: bool,
    f: Refund,
    refund_time: i64,
)
    requires
        c.vault.lamports == 0,
        create_error(c, amount_lamports, deadline_unix_timestamp, now) is None,
        was_joined ==> {
            &&& j.escrow == created(c, wager_id, amount_lamports, deadline_unix_timestamp, oracle).escrow
            &&& j.vault == created(c, wager_id, amount_lamports, deadline_unix_timestamp, oracle).vault
            &&& join_error(j, wager_id) is None
            &&& f.escrow == joined(j).escrow
            &&& f.vault == joined(j).vault
        },
        !was_joined ==> {
            &&& f.escrow == created(c, wager_id, amount_lamports, deadline_unix_timestamp, oracle).escrow
            &&& f.vault == created(c, wager_id, amount_lamports, deadline_unix_timestamp, oracle).vault
        },
        refund_error(f, wager_id, refund_time) is None,
    ensures
        ({
            let c2 = created(c, wager_id, amount_lamports, deadline_unix_timestamp, oracle);
            let f2 = refunded(f);
            let paid_in = (c.creator.lamports - c2.creator.lamports) + if was_joined {
                j.joiner.lamports - joined(j).joiner.lamports
            } else {
                0
            };
            (f2.creator.lamports - f.creator.lamports) + (f2.joiner.lamports - f.joiner.lamports) == paid_in
        }),
{
}

/// Every instruction keeps the record well formed, and the state only moves
/// along `AwaitingJoiner -> Active -> {Settled, Refunded}` or
/// `AwaitingJoiner -> Refunded`. A joiner is a real party, never the unset
/// sentinel.
pub proof fn lemma_instructions_keep_record_valid(
    c: Create,
    wager_id: u64,
    amount_lamports: u64,
    deadline_unix_timestamp: i64,
    oracle: Address,
    now: i64,
    j: Join,
    s: Settle,
    winner: u8,
    f: Refund,
)
    requires
        !j.joiner.key.is_unset(),
        j.escrow.inv(),
        s.escrow.inv(),
        f.escrow.inv(),
    ensures
        create_error(c, amount_lamports, deadline_unix_timestamp, now) is None ==> {
            let e = created(c, wager_id, amount_lamports, deadline_unix_timestamp, oracle).escrow;
            e.inv() && e.state == EscrowState::AwaitingJoiner
        },
        join_error(j, wager_id) is None ==> joined(j).escrow.inv() && j.escrow.state == EscrowState::AwaitingJoiner
            && joined(j).escrow.state == EscrowState::Active,
        settle_error(s, wager_id, winner) is None ==> settled(s, winner).escrow.inv() && s.escrow.state
            == EscrowState::Active && settled(s, winner).escrow.state == EscrowState::Settled,
        refund_error(f, wager_id, now) is None ==> refunded(f).escrow.inv() && !f.escrow.state.is_terminal()
            && refunded(f).escrow.state == EscrowState::Refunded,
        ({
            let e2 = joined(j).escrow;
            join_error(j, wager_id) is None ==> e2.creator == j.escrow.creator && e2.oracle == j.escrow.oracle
                && e2.amount_lamports == j.escrow.amount_lamports
                && e2.deadline_unix_timestamp == j.escrow.deadline_unix_timestamp
        }),
{
}

} // verus!
