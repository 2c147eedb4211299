//! The deposit/extend operation on a lockup.
use vstd::prelude::*;

use crate::errors::CustomError;
use crate::states::{normalized, trunc_div, Lockup, Namespace, Pubkey};

verus! {

/// What the owner asks for: tokens to add (may be zero) and the wished
/// expiry (zero leaves it unset).
#[derive(Clone, Copy, Debug)]
pub struct StakeArgs {
    pub amount: u64,
    pub end_ts: i64,
}

/// What the host environment knows about one deposit: the record keys, the
/// stored size of the lockup record, the owner's token balance and the
/// clock reading.
#[derive(Clone, Copy, Debug)]
pub struct StakeContext {
    pub ns_key: Pubkey,
    pub owner: Pubkey,
    pub lockup_data_len: usize,
    pub token_balance: u64,
    pub clock_ts: i64,
}

pub open spec fn min_int(a: int, b: int) -> int {
    if a <= b {
        a
    } else {
        b
    }
}

/// The first deposit: percentages from the namespace defaults, both starts
/// at `now`, expiry capped at saturation.
pub open spec fn first_deposit(l: Lockup, ns: Namespace, now: i64, args: StakeArgs) -> Lockup {
    Lockup {
        target_rewards_pct: ns.lockup_default_target_rewards_pct,
        target_voting_pct: ns.lockup_default_target_voting_pct,
        start_ts: now,
        weighted_start_ts: now,
        end_ts: min_int(args.end_ts as int, now + ns.lockup_max_saturation) as i64,
        amount: args.amount,
        ..l
    }
}

/// The requested expiry, capped at the lockup's start plus saturation.
pub open spec fn capped_end(l: Lockup, ns: Namespace, args: StakeArgs) -> int {
    min_int(args.end_ts as int, l.start_ts + ns.lockup_max_saturation)
}

/// Area kept by the old balance: its old duration plus any extension.
pub open spec fn kept_area(l: Lockup, ns: Namespace, args: StakeArgs) -> int {
    let ext = capped_end(l, ns, args) - l.end_ts;
    l.amount * l.spec_duration() + l.amount * (if ext > 0 {
        ext
    } else {
        0
    })
}

/// Area after the top-up: the kept area plus the added balance times the
/// time it remains locked.
pub open spec fn new_area(l: Lockup, ns: Namespace, now: i64, args: StakeArgs) -> int {
    kept_area(l, ns, args) + args.amount * (capped_end(l, ns, args) - now)
}

/// The stake-weighted start that conserves the area.
pub open spec fn new_weighted_start(l: Lockup, ns: Namespace, now: i64, args: StakeArgs) -> int {
    capped_end(l, ns, args) - trunc_div(new_area(l, ns, now, args), l.amount + args.amount)
}

/// Whether the conservation step leaves its 128-bit working range or the
/// result leaves the stored integer types.
pub open spec fn conservation_overflows(
    l: Lockup,
    ns: Namespace,
    now: i64,
    args: StakeArgs,
) -> bool {
    let rem = capped_end(l, ns, args) - now;
    ||| kept_area(l, ns, args) > u128::MAX
    ||| (rem >= 0 && new_area(l, ns, now, args) > u128::MAX)
    ||| !(i64::MIN <= new_weighted_start(l, ns, now, args) <= i64::MAX)
    ||| l.amount + args.amount > u64::MAX
}

/// The state transition on the lockup itself.
pub open spec fn transition(l: Lockup, ns: Namespace, now: i64, args: StakeArgs) -> Result<
    Lockup,
    CustomError,
> {
    let new_amount = l.amount + args.amount;
    let capped = capped_end(l, ns, args);
    if l.amount == 0 {
        Ok(first_deposit(l, ns, now, args))
    } else if args.end_ts <= now {
        Err(CustomError::InvalidTimestamp)
    } else if l.end_ts == 0 {
        if new_amount > u64::MAX {
            Err(CustomError::ArithmeticOverflow)
        } else {
            Ok(
                Lockup {
                    end_ts: capped as i64,
                    weighted_start_ts: now,
                    amount: new_amount as u64,
                    ..l
                },
            )
        }
    } else if l.end_ts <= l.start_ts || (args.end_ts as int) < l.end_ts {
        Err(CustomError::InvalidTimestamp)
    } else if l.spec_duration() < 0 || l.spec_duration() > i64::MAX {
        Err(CustomError::InvalidTimestamp)
    } else if conservation_overflows(l, ns, now, args) {
        Err(CustomError::ArithmeticOverflow)
    } else {
        Ok(
            Lockup {
                amount: new_amount as u64,
                end_ts: capped as i64,
                weighted_start_ts: new_weighted_start(l, ns, now, args) as i64,
                ..l
            },
        )
    }
}

/// The checks made on the request before anything changes.
pub open spec fn request_error(l: Lockup, ns: Namespace, ctx: StakeContext, args: StakeArgs) -> Option<
    CustomError,
> {
    let now = ns.spec_now(ctx.clock_ts);
    if args.amount > ctx.token_balance {
        Some(CustomError::InvalidTokenAmount)
    } else if !(args.amount >= ns.lockup_min_amount || (args.amount == 0 && l.amount != 0)) {
        Some(CustomError::InvalidLockupAmount)
    } else if !(args.end_ts >= now + ns.lockup_min_duration || args.end_ts == 0) {
        Some(CustomError::InvalidTimestamp)
    } else if !(l.end_ts >= now || l.end_ts == 0) {
        Some(CustomError::InvalidTimestamp)
    } else {
        None
    }
}

/// The whole deposit: request checks, migration, transition, keys, the
/// namespace's running total, and the invariant of the result.
pub open spec fn stake_result(l: Lockup, ns: Namespace, ctx: StakeContext, args: StakeArgs) -> Result<
    (Lockup, Namespace),
    CustomError,
> {
    let now = ns.spec_now(ctx.clock_ts);
    match request_error(l, ns, ctx, args) {
        Some(e) => Err(e),
        None => match transition(normalized(l, ctx.lockup_data_len), ns, now, args) {
            Err(e) => Err(e),
            Ok(t) => {
                let l2 = Lockup { ns: ctx.ns_key, owner: ctx.owner, ..t };
                let total = ns.lockup_amount + args.amount;
                if total > u64::MAX {
                    Err(CustomError::ArithmeticOverflow)
                } else {
                    let ns2 = Namespace { lockup_amount: total as u64, ..ns };
                    if !l2.spec_valid(&ns2, now as int) {
                        Err(CustomError::InvalidLockup)
                    } else {
                        Ok((l2, ns2))
                    }
                }
            },
        },
    }
}

/// The top-up of a lockup that already holds tokens; `l` is the stored
/// lockup after migration.
fn top_up(l: &Lockup, ns: &Namespace, now: i64, args: StakeArgs) -> (r: Result<Lockup, CustomError>)
    requires
        l.amount != 0,
    ensures
        r == transition(*l, *ns, now, args),
{
    if args.end_ts <= now {
        return Err(CustomError::InvalidTimestamp);
    }
    let old_amount: u128 = l.amount as u128;
    let delta: u128 = args.amount as u128;
    let new_amount: u128 = old_amount + delta;
    let cap_limit: i128 = l.start_ts as i128 + ns.lockup_max_saturation as i128;
    let capped: i128 = if (args.end_ts as i128) < cap_limit {
        args.end_ts as i128
    } else {
        cap_limit
    };
    assert(capped == capped_end(*l, *ns, args));
    if l.end_ts == 0 {
        if new_amount > u64::MAX as u128 {
            return Err(CustomError::ArithmeticOverflow);
        }
        return Ok(
            Lockup { end_ts: capped as i64, weighted_start_ts: now, amount: new_amount as u64, ..*l },
        );
    }
    if l.end_ts <= l.start_ts || args.end_ts < l.end_ts {
        return Err(CustomError::InvalidTimestamp);
    }
    let old_duration: i128 = l.end_ts as i128 - l.effective_start_ts() as i128;
    if old_duration < 0 || old_duration > i64::MAX as i128 {
        return Err(CustomError::InvalidTimestamp);
    }
    let dur: u128 = old_duration as u128;
    assert(old_amount * dur <= u128::MAX) by (nonlinear_arith)
        requires
            old_amount <= u64::MAX,
            dur <= i64::MAX,
    ;
    let old_area: u128 = old_amount * dur;
    let ext: i128 = capped - l.end_ts as i128;
    let ext_u: u128 = if ext > 0 {
        ext as u128
    } else {
        0
    };
    assert(old_amount * ext_u <= u128::MAX) by (nonlinear_arith)
        requires
            old_amount <= u64::MAX,
            ext_u <= u64::MAX,
    ;
    let ext_area: u128 = old_amount * ext_u;
    let base: u128 = match old_area.checked_add(ext_area) {
        Some(v) => v,
        None => return Err(CustomError::ArithmeticOverflow),
    };
    assert(base == kept_area(*l, *ns, args));
    let rem: i128 = capped - now as i128;
    let ghost area = new_area(*l, *ns, now, args);
    assert(area == base + delta * rem);
    let new_ws: i128;
    if rem >= 0 {
        let r: u128 = rem as u128;
        assert(delta * r <= u128::MAX) by (nonlinear_arith)
            requires
                delta <= u64::MAX,
                r <= u64::MAX,
        ;
        let added: u128 = delta * r;
        let total: u128 = match base.checked_add(added) {
            Some(v) => v,
            None => return Err(CustomError::ArithmeticOverflow),
        };
        let q: u128 = total / new_amount;
        let room: u128 = (capped - i64::MIN as i128) as u128;
        if q > room {
            return Err(CustomError::ArithmeticOverflow);
        }
        new_ws = capped - q as i128;
    } else {
        let r: u128 = (now as i128 - capped) as u128;
        assert(delta * r <= u128::MAX) by (nonlinear_arith)
            requires
                delta <= u64::MAX,
                r <= u64::MAX,
        ;
        let taken: u128 = delta * r;
        assert(delta * rem == -(delta * r)) by (nonlinear_arith)
            requires
                r == -rem,
        ;
        if base >= taken {
            let q: u128 = (base - taken) / new_amount;
            let room: u128 = (capped - i64::MIN as i128) as u128;
            if q > room {
                return Err(CustomError::ArithmeticOverflow);
            }
            new_ws = capped - q as i128;
        } else {
            let q: u128 = (taken - base) / new_amount;
            let room: u128 = (i64::MAX as i128 - capped) as u128;
            if q > room {
                return Err(CustomError::ArithmeticOverflow);
            }
            new_ws = capped + q as i128;
        }
    }
    assert(new_ws == new_weighted_start(*l, *ns, now, args));
    if new_amount > u64::MAX as u128 {
        return Err(CustomError::ArithmeticOverflow);
    }
    Ok(
        Lockup {
            amount: new_amount as u64,
            end_ts: capped as i64,
            weighted_start_ts: new_ws as i64,
            ..*l
        },
    )
}

/// Deposits `args.amount` into the owner's lockup and/or moves its expiry
/// to `args.end_ts`. On success the lockup and the namespace's running total
/// are updated; on any error neither changes.
pub fn handle(
    lockup: &mut Lockup,
    ns: &mut Namespace,
    ctx: StakeContext,
    args: StakeArgs,
) -> (r: Result<(), CustomError>)
    ensures
        match stake_result(*old(lockup), *old(ns), ctx, args) {
            Ok(p) => r is Ok && *final(lockup) == p.0 && *final(ns) == p.1,
            Err(e) => {
                &&& r == Err::<(), CustomError>(e)
                &&& *final(lockup) == *old(lockup)
                &&& *final(ns) == *old(ns)
            },
        },
{
    let now = ns.now(ctx.clock_ts);
    if args.amount > ctx.token_balance {
        return Err(CustomError::InvalidTokenAmount);
    }
    if !(args.amount >= ns.lockup_min_amount || (args.amount == 0 && lockup.amount != 0)) {
        return Err(CustomError::InvalidLockupAmount);
    }
    if !(args.end_ts as i128 >= now as i128 + ns.lockup_min_duration as i128 || args.end_ts == 0) {
        return Err(CustomError::InvalidTimestamp);
    }
    if !(lockup.end_ts >= now || lockup.end_ts == 0) {
        return Err(CustomError::InvalidTimestamp);
    }
    let mut next: Lockup = *lockup;
    next.normalize_weighted_start_ts(ctx.lockup_data_len);
    let moved: Lockup = if next.amount == 0 {
        let cap_limit: i128 = now as i128 + ns.lockup_max_saturation as i128;
        let end: i128 = if (args.end_ts as i128) < cap_limit {
            args.end_ts as i128
        } else {
            cap_limit
        };
        Lockup {
            target_rewards_pct: ns.lockup_default_target_rewards_pct,
            target_voting_pct: ns.lockup_default_target_voting_pct,
            start_ts: now,
            weighted_start_ts: now,
            end_ts: end as i64,
            amount: args.amount,
            ..next
        }
    } else {
        top_up(&next, ns, now, args)?
    };
    let result = Lockup { ns: ctx.ns_key, owner: ctx.owner, ..moved };
    let total: u64 = match ns.lockup_amount.checked_add(args.amount) {
        Some(v) => v,
        None => return Err(CustomError::ArithmeticOverflow),
    };
    let updated = Namespace { lockup_amount: total, ..*ns };
    if !result.valid(&updated, ctx.clock_ts) {
        return Err(CustomError::InvalidLockup);
    }
    *lockup = result;
    *ns = updated;
    Ok(())
}

} // verus!
