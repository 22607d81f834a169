use wager_escrow::instructions::{WINNER_CREATOR, WINNER_JOINER, WINNER_TIE};
use wager_escrow::{create, join, refund, settle, Account, Address, Create, Escrow, EscrowError, EscrowState, Join, Refund, Settle};

const T: i64 = 1_700_000_000;
const CREATOR: Address = Address(1, 0, 0, 0);
const JOINER: Address = Address(2, 0, 0, 0);
const ORACLE: Address = Address(3, 0, 0, 0);
const VAULT: Address = Address(4, 0, 0, 0);
const STRANGER: Address = Address(5, 0, 0, 0);

fn blank_escrow() -> Escrow {
    Escrow {
        wager_id: 0,
        creator: Address::unset(),
        joiner: Address::unset(),
        oracle: Address::unset(),
        amount_lamports: 0,
        deadline_unix_timestamp: 0,
        state: EscrowState::AwaitingJoiner,
        bump: 0,
        vault_bump: 0,
    }
}

fn create_ctx(creator_lamports: u64) -> Create {
    Create {
        creator: Account { key: CREATOR, lamports: creator_lamports },
        escrow: blank_escrow(),
        vault: Account { key: VAULT, lamports: 0 },
        escrow_bump: 254,
        vault_bump: 253,
    }
}

/// Scenario A's state: wager 1, stake 1000, deadline an hour after T.
fn created_wager() -> Create {
    let mut ctx = create_ctx(10_000);
    create(&mut ctx, 1, 1000, T + 3600, ORACLE, T).unwrap();
    ctx
}

/// Scenario B's state: the wager above, joined by JOINER.
fn joined_wager() -> (Create, Join) {
    let c = created_wager();
    let mut j = Join { joiner: Account { key: JOINER, lamports: 10_000 }, escrow: c.escrow, vault: c.vault };
    join(&mut j, 1).unwrap();
    (c, j)
}

fn settle_ctx(oracle: Address) -> Settle {
    let (c, j) = joined_wager();
    Settle { oracle, escrow: j.escrow, vault: j.vault, creator: c.creator, joiner: j.joiner }
}

#[test]
fn scenario_create() {
    let ctx = created_wager();
    assert_eq!(ctx.vault.lamports, 1000);
    assert_eq!(ctx.creator.lamports, 9000);
    assert_eq!(ctx.escrow.state, EscrowState::AwaitingJoiner);
    assert_eq!(ctx.escrow.wager_id, 1);
    assert_eq!(ctx.escrow.creator, CREATOR);
    assert_eq!(ctx.escrow.oracle, ORACLE);
    assert_eq!(ctx.escrow.amount_lamports, 1000);
    assert_eq!(ctx.escrow.deadline_unix_timestamp, T + 3600);
    assert_eq!(ctx.escrow.bump, 254);
    assert_eq!(ctx.escrow.vault_bump, 253);
    assert!(ctx.escrow.joiner.is_unset_exec());
}

#[test]
fn scenario_join() {
    let (_, j) = joined_wager();
    assert_eq!(j.vault.lamports, 2000);
    assert_eq!(j.joiner.lamports, 9000);
    assert_eq!(j.escrow.state, EscrowState::Active);
    assert_eq!(j.escrow.joiner, JOINER);
}

#[test]
fn scenario_settle_creator_wins() {
    let mut s = settle_ctx(ORACLE);
    settle(&mut s, 1, WINNER_CREATOR).unwrap();
    assert_eq!(s.creator.lamports, 9000 + 2000);
    assert_eq!(s.joiner.lamports, 9000);
    assert_eq!(s.vault.lamports, 0);
    assert_eq!(s.escrow.state, EscrowState::Settled);
}

#[test]
fn settle_joiner_wins() {
    let mut s = settle_ctx(ORACLE);
    settle(&mut s, 1, WINNER_JOINER).unwrap();
    assert_eq!(s.creator.lamports, 9000);
    assert_eq!(s.joiner.lamports, 9000 + 2000);
    assert_eq!(s.vault.lamports, 0);
    assert_eq!(s.escrow.state, EscrowState::Settled);
}

#[test]
fn scenario_settle_tie() {
    let mut s = settle_ctx(ORACLE);
    settle(&mut s, 1, WINNER_TIE).unwrap();
    assert_eq!(s.creator.lamports, 9000 + 1000);
    assert_eq!(s.joiner.lamports, 9000 + 1000);
    assert_eq!(s.vault.lamports, 0);
    assert_eq!(s.escrow.state, EscrowState::Settled);
}

#[test]
fn scenario_refund_without_joiner() {
    let c = created_wager();
    let mut f = Refund {
        trigger: STRANGER,
        escrow: c.escrow,
        vault: c.vault,
        creator: c.creator,
        joiner: c.creator,
    };
    refund(&mut f, 1, T + 3601).unwrap();
    assert_eq!(f.creator.lamports, 10_000);
    assert_eq!(f.vault.lamports, 0);
    assert_eq!(f.escrow.state, EscrowState::Refunded);
}

#[test]
fn scenario_settle_unauthorized_oracle() {
    let mut s = settle_ctx(STRANGER);
    let before = s;
    assert_eq!(settle(&mut s, 1, WINNER_CREATOR), Err(EscrowError::UnauthorizedOracle));
    assert_eq!(s, before);
    assert_eq!(EscrowError::UnauthorizedOracle.message(), "unauthorized oracle");
}

#[test]
fn refund_after_join_returns_both_stakes() {
    let (c, j) = joined_wager();
    let mut f = Refund { trigger: STRANGER, escrow: j.escrow, vault: j.vault, creator: c.creator, joiner: j.joiner };
    refund(&mut f, 1, T + 3601).unwrap();
    assert_eq!(f.creator.lamports, 10_000);
    assert_eq!(f.joiner.lamports, 10_000);
    assert_eq!(f.vault.lamports, 0);
    assert_eq!(f.escrow.state, EscrowState::Refunded);
}

#[test]
fn residual_vault_balance_goes_to_creator() {
    let mut s = settle_ctx(ORACLE);
    s.vault.lamports += 890;
    settle(&mut s, 1, WINNER_JOINER).unwrap();
    assert_eq!(s.creator.lamports, 9000 + 890);
    assert_eq!(s.joiner.lamports, 11_000);
    assert_eq!(s.vault.lamports, 0);
}

#[test]
fn create_rejects_bad_terms() {
    let mut ctx = create_ctx(100_000_000_000);
    let before = ctx;
    assert_eq!(create(&mut ctx, 1, 0, T + 10, ORACLE, T), Err(EscrowError::AmountZero));
    assert_eq!(
        create(&mut ctx, 1, Escrow::MAX_AMOUNT_LAMPORTS + 1, T + 10, ORACLE, T),
        Err(EscrowError::AmountTooLarge)
    );
    assert_eq!(create(&mut ctx, 1, 1000, T, ORACLE, T), Err(EscrowError::DeadlineInPast));
    assert_eq!(create(&mut ctx, 1, 1000, T - 1, ORACLE, T), Err(EscrowError::DeadlineInPast));
    assert_eq!(ctx, before);
}

#[test]
fn create_accepts_the_largest_stake() {
    let mut ctx = create_ctx(Escrow::MAX_AMOUNT_LAMPORTS);
    assert_eq!(create(&mut ctx, 9, Escrow::MAX_AMOUNT_LAMPORTS, T + 1, ORACLE, T), Ok(()));
    assert_eq!(ctx.creator.lamports, 0);
    assert_eq!(ctx.vault.lamports, 10_000_000_000);
}

#[test]
fn create_needs_funds_and_room() {
    let mut ctx = create_ctx(999);
    assert_eq!(create(&mut ctx, 1, 1000, T + 10, ORACLE, T), Err(EscrowError::InsufficientFunds));
    let mut ctx = create_ctx(1000);
    ctx.vault.lamports = u64::MAX - 999;
    let before = ctx;
    assert_eq!(create(&mut ctx, 1, 1000, T + 10, ORACLE, T), Err(EscrowError::MathOverflow));
    assert_eq!(ctx, before);
}

#[test]
fn join_again_is_not_joinable() {
    let (_, j) = joined_wager();
    let mut again = Join { joiner: Account { key: STRANGER, lamports: 10_000 }, escrow: j.escrow, vault: j.vault };
    let before = again;
    assert_eq!(join(&mut again, 1), Err(EscrowError::NotJoinable));
    assert_eq!(join(&mut again, 1), Err(EscrowError::NotJoinable));
    assert_eq!(again, before);
}

#[test]
fn join_errors() {
    let c = created_wager();
    let fresh = Join { joiner: Account { key: JOINER, lamports: 10_000 }, escrow: c.escrow, vault: c.vault };

    let mut j = fresh;
    assert_eq!(join(&mut j, 2), Err(EscrowError::WagerIdMismatch));

    let mut j = fresh;
    j.escrow.joiner = STRANGER;
    assert_eq!(join(&mut j, 1), Err(EscrowError::JoinerAlreadySet));

    let mut j = fresh;
    j.joiner.key = CREATOR;
    assert_eq!(join(&mut j, 1), Err(EscrowError::CreatorCannotJoin));

    let mut j = fresh;
    j.joiner.lamports = 999;
    assert_eq!(join(&mut j, 1), Err(EscrowError::InsufficientFunds));
    assert_eq!(j.joiner.lamports, 999);

    let mut j = fresh;
    j.vault.lamports = u64::MAX;
    assert_eq!(join(&mut j, 1), Err(EscrowError::MathOverflow));
}

#[test]
fn settle_errors() {
    let base = settle_ctx(ORACLE);

    let mut s = base;
    assert_eq!(settle(&mut s, 7, WINNER_CREATOR), Err(EscrowError::WagerIdMismatch));

    let c = created_wager();
    let mut s = Settle { oracle: ORACLE, escrow: c.escrow, vault: c.vault, creator: c.creator, joiner: c.creator };
    assert_eq!(settle(&mut s, 1, WINNER_CREATOR), Err(EscrowError::NotActive));

    let mut s = base;
    s.escrow.joiner = Address::unset();
    assert_eq!(settle(&mut s, 1, WINNER_CREATOR), Err(EscrowError::JoinerMissing));

    let mut s = base;
    s.creator.key = STRANGER;
    assert_eq!(settle(&mut s, 1, WINNER_CREATOR), Err(EscrowError::CreatorAccountMismatch));

    let mut s = base;
    s.joiner.key = STRANGER;
    assert_eq!(settle(&mut s, 1, WINNER_CREATOR), Err(EscrowError::JoinerAccountMismatch));

    let mut s = base;
    s.escrow.amount_lamports = u64::MAX / 2 + 1;
    assert_eq!(settle(&mut s, 1, WINNER_CREATOR), Err(EscrowError::MathOverflow));

    let mut s = base;
    s.vault.lamports = 1999;
    assert_eq!(settle(&mut s, 1, WINNER_CREATOR), Err(EscrowError::InsufficientVaultBalance));

    let mut s = base;
    let before = s;
    assert_eq!(settle(&mut s, 1, 3), Err(EscrowError::InvalidWinner));
    assert_eq!(s, before);

    let mut s = base;
    s.creator.lamports = u64::MAX - 999;
    let before = s;
    assert_eq!(settle(&mut s, 1, WINNER_TIE), Err(EscrowError::MathOverflow));
    assert_eq!(s, before);
}

#[test]
fn terminal_wagers_stay_terminal() {
    let mut s = settle_ctx(ORACLE);
    settle(&mut s, 1, WINNER_CREATOR).unwrap();
    let before = s;
    assert_eq!(settle(&mut s, 1, WINNER_JOINER), Err(EscrowError::NotActive));
    assert_eq!(s, before);
    let mut f = Refund { trigger: STRANGER, escrow: s.escrow, vault: s.vault, creator: s.creator, joiner: s.joiner };
    let before_f = f;
    assert_eq!(refund(&mut f, 1, T + 99_999), Err(EscrowError::AlreadySettled));
    assert_eq!(f, before_f);

    let c = created_wager();
    let mut f = Refund { trigger: STRANGER, escrow: c.escrow, vault: c.vault, creator: c.creator, joiner: c.creator };
    refund(&mut f, 1, T + 3601).unwrap();
    let before_f = f;
    assert_eq!(refund(&mut f, 1, T + 3602), Err(EscrowError::AlreadyRefunded));
    assert_eq!(f, before_f);
    let mut s = Settle { oracle: ORACLE, escrow: f.escrow, vault: f.vault, creator: f.creator, joiner: f.joiner };
    assert_eq!(settle(&mut s, 1, WINNER_TIE), Err(EscrowError::NotActive));
}

#[test]
fn refund_errors() {
    let (c, j) = joined_wager();
    let base = Refund { trigger: STRANGER, escrow: j.escrow, vault: j.vault, creator: c.creator, joiner: j.joiner };

    let mut f = base;
    assert_eq!(refund(&mut f, 2, T + 3601), Err(EscrowError::WagerIdMismatch));

    let mut f = base;
    assert_eq!(refund(&mut f, 1, T + 3600), Err(EscrowError::RefundNotAvailableYet));

    let mut f = base;
    f.creator.key = STRANGER;
    assert_eq!(refund(&mut f, 1, T + 3601), Err(EscrowError::CreatorAccountMismatch));

    let mut f = base;
    f.joiner.key = STRANGER;
    assert_eq!(refund(&mut f, 1, T + 3601), Err(EscrowError::JoinerAccountMismatch));

    let mut f = base;
    f.vault.lamports = 1999;
    let before = f;
    assert_eq!(refund(&mut f, 1, T + 3601), Err(EscrowError::InsufficientVaultBalance));
    assert_eq!(f, before);

    let mut f = base;
    f.joiner.lamports = u64::MAX;
    assert_eq!(refund(&mut f, 1, T + 3601), Err(EscrowError::MathOverflow));
}

#[test]
fn whole_wager_conserves_lamports() {
    let (c, j) = joined_wager();
    let paid_in = (10_000 - c.creator.lamports) + (10_000 - j.joiner.lamports);
    for winner in [WINNER_CREATOR, WINNER_JOINER, WINNER_TIE] {
        let mut s = Settle { oracle: ORACLE, escrow: j.escrow, vault: j.vault, creator: c.creator, joiner: j.joiner };
        settle(&mut s, 1, winner).unwrap();
        let paid_out = (s.creator.lamports - c.creator.lamports) + (s.joiner.lamports - j.joiner.lamports);
        assert_eq!(paid_out, paid_in);
        assert_eq!(paid_out, 2000);
    }
}

#[test]
fn unset_address_is_all_zero() {
    assert_eq!(Address::unset(), Address(0, 0, 0, 0));
    assert!(!CREATOR.is_unset_exec());
    assert_eq!(Escrow::SPACE, 131);
}
