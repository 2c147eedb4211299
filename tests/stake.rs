use vetoken::errors::CustomError;
use vetoken::stake::{handle, StakeArgs, StakeContext};
use vetoken::states::{Lockup, Namespace, Pubkey};
use vetoken::vote::{vote, VoteContext};
use vetoken::states::Proposal;

const DAY: i64 = 86400;
const YEAR: i64 = 86400 * 365;

fn key(b: u8) -> Pubkey {
    Pubkey::new_from_array([b; 32])
}

fn namespace(min_amount: u64) -> Namespace {
    Namespace {
        token_mint: key(0),
        deployer: key(0),
        security_council: key(0),
        review_council: key(0),
        override_now: 0,
        lockup_default_target_rewards_pct: 100,
        lockup_default_target_voting_pct: 2000,
        lockup_min_duration: 14 * DAY,
        lockup_min_amount: min_amount,
        lockup_max_saturation: (4 * YEAR) as u64,
        proposal_min_voting_power_for_quorum: 10000,
        proposal_min_pass_pct: 60,
        proposal_can_update_after_votes: false,
        lockup_amount: 0,
        proposal_nonce: 0,
    }
}

fn empty_lockup() -> Lockup {
    Lockup {
        ns: key(0),
        owner: key(0),
        amount: 0,
        start_ts: 0,
        end_ts: 0,
        weighted_start_ts: 0,
        target_rewards_pct: 0,
        target_voting_pct: 0,
    }
}

fn ctx(clock_ts: i64) -> StakeContext {
    StakeContext {
        ns_key: key(1),
        owner: key(2),
        lockup_data_len: 400,
        token_balance: u64::MAX,
        clock_ts,
    }
}

fn args(amount: u64, end_ts: i64) -> StakeArgs {
    StakeArgs { amount, end_ts }
}

#[test]
fn first_deposit_sets_defaults_and_caps_expiry() {
    let mut ns = namespace(1);
    let mut l = empty_lockup();
    assert_eq!(handle(&mut l, &mut ns, ctx(1000), args(500, 1000 + 10 * YEAR)), Ok(()));
    assert_eq!(l.amount, 500);
    assert_eq!(l.start_ts, 1000);
    assert_eq!(l.weighted_start_ts, 1000);
    assert_eq!(l.end_ts, 1000 + 4 * YEAR);
    assert_eq!(l.target_rewards_pct, 100);
    assert_eq!(l.target_voting_pct, 2000);
    assert_eq!(l.ns.bytes, [1; 32]);
    assert_eq!(l.owner.bytes, [2; 32]);
    assert_eq!(ns.lockup_amount, 500);
}

#[test]
fn first_deposit_then_saturated_power() {
    let mut ns = namespace(1);
    let mut l = empty_lockup();
    let now = 5000;
    assert_eq!(handle(&mut l, &mut ns, ctx(now), args(10000, now + 4 * YEAR)), Ok(()));
    assert_eq!(l.voting_power(&ns, now), Ok(10000 * 2000 / 100));
}

#[test]
fn extension_keeps_amount_and_conserves_area() {
    let mut ns = namespace(1);
    let mut l = empty_lockup();
    assert_eq!(handle(&mut l, &mut ns, ctx(100), args(1000, 100 + YEAR)), Ok(()));
    let half = 100 + YEAR / 2;
    assert_eq!(handle(&mut l, &mut ns, ctx(half), args(0, 100 + 2 * YEAR)), Ok(()));
    assert_eq!(l.amount, 1000);
    assert_eq!(l.end_ts, 100 + 2 * YEAR);
    // old duration 1y plus 1y extension, spread over the same 1000 units
    assert_eq!(l.weighted_start_ts, 100);
    assert_eq!(ns.lockup_amount, 1000);
}

#[test]
fn top_up_weights_added_tokens_by_remaining_time() {
    let mut ns = namespace(1);
    let mut l = empty_lockup();
    assert_eq!(handle(&mut l, &mut ns, ctx(0), args(100, 2 * YEAR)), Ok(()));
    assert_eq!(handle(&mut l, &mut ns, ctx(YEAR), args(100, 2 * YEAR)), Ok(()));
    // area 100 * 2y + 100 * 1y = 300y over 200 units: 1.5y before expiry
    assert_eq!(l.amount, 200);
    assert_eq!(l.weighted_start_ts, 2 * YEAR - 3 * YEAR / 2);
    assert_eq!(ns.lockup_amount, 200);
}

#[test]
fn top_up_division_truncates() {
    let mut ns = namespace(1);
    let mut l = empty_lockup();
    assert_eq!(handle(&mut l, &mut ns, ctx(0), args(3, 100 * DAY)), Ok(()));
    assert_eq!(handle(&mut l, &mut ns, ctx(10), args(0, 100 * DAY + 1)), Ok(()));
    // area 3 * 8640000 + 3 * 1 = 25920003, over 3 units: 8640001
    assert_eq!(l.weighted_start_ts, 0);
    assert_eq!(handle(&mut l, &mut ns, ctx(20), args(2, 100 * DAY + 1)), Ok(()));
    // area 3 * 8640001 + 2 * (8640001 - 20) = 43199967, over 5 units: 8639993
    assert_eq!(l.weighted_start_ts, 100 * DAY + 1 - 8639993);
}

#[test]
fn late_large_top_up_earns_little_multiplier() {
    let mut ns = namespace(1);
    let mut l = empty_lockup();
    let four_years = 4 * YEAR;
    assert_eq!(handle(&mut l, &mut ns, ctx(0), args(1, four_years)), Ok(()));
    // 99.9% of the way, fewer than the minimum 14 days remain: refused
    let very_late = four_years - four_years / 1000;
    assert_eq!(
        handle(&mut l, &mut ns, ctx(very_late), args(999_999, four_years)),
        Err(CustomError::InvalidTimestamp)
    );
    // 0.1 year before expiry
    let late = four_years - YEAR / 10;
    assert_eq!(handle(&mut l, &mut ns, ctx(late), args(999_999, four_years)), Ok(()));
    assert_eq!(l.amount, 1_000_000);
    // area 1 * 4y + 999999 * 0.1y = 3153722990400, over 1000000 units
    assert_eq!(l.weighted_start_ts, four_years - 3_153_722);
    let vp = l.voting_power(&ns, late).unwrap();
    assert_eq!(vp, 1_295_661);
    assert!(vp < 2 * 1_000_000, "got {}", vp);
}

#[test]
fn empty_request_on_valid_lockup_is_refused_and_harmless() {
    let mut ns = namespace(1);
    let mut l = empty_lockup();
    assert_eq!(handle(&mut l, &mut ns, ctx(0), args(1000, YEAR)), Ok(()));
    let before = l;
    let ns_before = ns;
    assert_eq!(handle(&mut l, &mut ns, ctx(10), args(0, 0)), Err(CustomError::InvalidTimestamp));
    assert_eq!(handle(&mut l, &mut ns, ctx(10), args(0, 0)), Err(CustomError::InvalidTimestamp));
    assert_eq!(l.weighted_start_ts, before.weighted_start_ts);
    assert_eq!(l.amount, before.amount);
    assert_eq!(l.end_ts, before.end_ts);
    assert_eq!(ns.lockup_amount, ns_before.lockup_amount);
    assert!(l.valid(&ns, 10));
}

#[test]
fn request_errors() {
    let mut ns = namespace(100);
    let mut l = empty_lockup();
    let mut c = ctx(0);
    c.token_balance = 50;
    assert_eq!(handle(&mut l, &mut ns, c, args(100, YEAR)), Err(CustomError::InvalidTokenAmount));
    assert_eq!(handle(&mut l, &mut ns, ctx(0), args(99, YEAR)), Err(CustomError::InvalidLockupAmount));
    assert_eq!(handle(&mut l, &mut ns, ctx(0), args(0, YEAR)), Err(CustomError::InvalidLockupAmount));
    assert_eq!(
        handle(&mut l, &mut ns, ctx(0), args(100, 14 * DAY - 1)),
        Err(CustomError::InvalidTimestamp)
    );
    assert_eq!(l.amount, 0);
    assert_eq!(ns.lockup_amount, 0);
}

#[test]
fn expired_lockup_cannot_be_extended() {
    let mut ns = namespace(1);
    let mut l = empty_lockup();
    assert_eq!(handle(&mut l, &mut ns, ctx(0), args(10, YEAR)), Ok(()));
    assert_eq!(
        handle(&mut l, &mut ns, ctx(YEAR + 1), args(10, 3 * YEAR)),
        Err(CustomError::InvalidTimestamp)
    );
}

#[test]
fn expiry_cannot_be_shortened() {
    let mut ns = namespace(1);
    let mut l = empty_lockup();
    assert_eq!(handle(&mut l, &mut ns, ctx(0), args(10, 2 * YEAR)), Ok(()));
    assert_eq!(
        handle(&mut l, &mut ns, ctx(0), args(10, YEAR)),
        Err(CustomError::InvalidTimestamp)
    );
    assert_eq!(l.amount, 10);
    assert_eq!(l.end_ts, 2 * YEAR);
}

#[test]
fn unset_expiry_is_set_fresh() {
    let mut ns = namespace(1);
    let mut l = empty_lockup();
    assert_eq!(handle(&mut l, &mut ns, ctx(0), args(10, 0)), Ok(()));
    assert_eq!(l.end_ts, 0);
    assert_eq!(handle(&mut l, &mut ns, ctx(50), args(5, YEAR)), Ok(()));
    assert_eq!(l.amount, 15);
    assert_eq!(l.end_ts, YEAR);
    assert_eq!(l.weighted_start_ts, 50);
}

#[test]
fn invalid_result_is_refused() {
    // saturation shorter than the requested minimum: capped expiry too early
    let mut ns = namespace(1);
    ns.lockup_max_saturation = (10 * DAY) as u64;
    let mut l = empty_lockup();
    assert_eq!(handle(&mut l, &mut ns, ctx(0), args(10, YEAR)), Err(CustomError::InvalidLockup));
    assert_eq!(l.amount, 0);
    assert_eq!(ns.lockup_amount, 0);
}

#[test]
fn running_total_overflow_is_refused() {
    let mut ns = namespace(1);
    ns.lockup_amount = u64::MAX;
    let mut l = empty_lockup();
    assert_eq!(
        handle(&mut l, &mut ns, ctx(0), args(1, YEAR)),
        Err(CustomError::ArithmeticOverflow)
    );
    assert_eq!(l.amount, 0);
}

#[test]
fn amount_overflow_is_refused() {
    let mut ns = namespace(1);
    let mut l = empty_lockup();
    assert_eq!(handle(&mut l, &mut ns, ctx(0), args(u64::MAX, YEAR)), Ok(()));
    ns.lockup_amount = 0;
    assert_eq!(
        handle(&mut l, &mut ns, ctx(0), args(1, YEAR)),
        Err(CustomError::ArithmeticOverflow)
    );
    assert_eq!(l.amount, u64::MAX);
}

#[test]
fn legacy_record_gets_start_as_weighted_start() {
    let mut ns = namespace(1);
    let mut l = empty_lockup();
    l.amount = 10;
    l.start_ts = 100;
    l.end_ts = 100 + YEAR;
    l.target_voting_pct = 2000;
    let mut c = ctx(100 + YEAR / 2);
    c.lockup_data_len = Lockup::LEGACY_SIZE;
    assert_eq!(handle(&mut l, &mut ns, c, args(0, 100 + YEAR)), Ok(()));
    assert_eq!(l.weighted_start_ts, 100);
}

#[test]
fn vote_records_power_once() {
    let ns = namespace(1);
    let l = Lockup {
        amount: 10000,
        start_ts: 0,
        end_ts: 4 * YEAR,
        target_rewards_pct: 100,
        target_voting_pct: 2000,
        ..empty_lockup()
    };
    let mut p = Proposal {
        ns: key(0),
        nonce: 0,
        owner: key(0),
        start_ts: 0,
        end_ts: 100,
        status: 0,
        voting_power_choices: [0; 6],
        uri: String::new(),
    };
    let vc = VoteContext {
        ns_key: key(1),
        owner: key(2),
        proposal_key: key(3),
        lockup_key: key(4),
        already_voted: false,
        clock_ts: 0,
    };
    let rec = vote(&mut p, &l, &ns, vc, 1).unwrap();
    assert_eq!(rec.voting_power, 200000);
    assert_eq!(rec.choice, 1);
    assert_eq!(rec.proposal.bytes, [3; 32]);
    assert_eq!(p.voting_power_choices, [0, 200000, 0, 0, 0, 0]);
    let again = VoteContext { already_voted: true, ..vc };
    assert_eq!(vote(&mut p, &l, &ns, again, 1).unwrap_err(), CustomError::DuplicateVote);
    assert_eq!(vote(&mut p, &l, &ns, vc, 6).unwrap_err(), CustomError::InvalidChoice);
    assert_eq!(p.voting_power_choices, [0, 200000, 0, 0, 0, 0]);
}
