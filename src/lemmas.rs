//! Laws that relate the deposit operation and the voting-power curve.
use vstd::prelude::*;
use vstd::arithmetic::div_mod::lemma_fundamental_div_mod;

use crate::errors::CustomError;
use crate::stake::{capped_end, kept_area, new_area, stake_result, StakeArgs, StakeContext};
use crate::states::{normalized, Lockup, Namespace};

verus! {

/// A pure extension (no tokens added) keeps the locked amount, and on a
/// lockup with an expiry the new weighted start is the capped expiry minus
/// the kept area spread over the unchanged amount.
pub proof fn lemma_extension_keeps_amount(
    l: Lockup,
    ns: Namespace,
    ctx: StakeContext,
    args: StakeArgs,
)
    requires
        args.amount == 0,
        stake_result(l, ns, ctx, args) is Ok,
    ensures
        match stake_result(l, ns, ctx, args) {
            Ok(p) => {
                let ln = normalized(l, ctx.lockup_data_len);
                &&& p.0.amount == l.amount
                &&& (l.amount != 0 && ln.end_ts != 0) ==> {
                    &&& p.0.end_ts == capped_end(ln, ns, args)
                    &&& p.0.weighted_start_ts == capped_end(ln, ns, args) - kept_area(ln, ns, args)
                        / (l.amount as int)
                }
            },
            Err(_) => false,
        },
{
    let ln = normalized(l, ctx.lockup_data_len);
    if l.amount != 0 && ln.end_ts != 0 {
        let d = ln.spec_duration();
        let a = l.amount as int;
        let e = capped_end(ln, ns, args) - ln.end_ts;
        let ext = if e > 0 {
            e
        } else {
            0
        };
        if d >= 0 {
            assert(a * d >= 0 && a * ext >= 0) by (nonlinear_arith)
                requires
                    a >= 0,
                    d >= 0,
                    ext >= 0,
            ;
        }
    }
}

/// A first deposit whose expiry lies exactly one saturation duration ahead
/// has, at that same moment, the full multiplied voting power.
pub proof fn lemma_first_deposit_saturates(
    l: Lockup,
    ns: Namespace,
    ctx: StakeContext,
    args: StakeArgs,
)
    requires
        ns.spec_valid(),
        l.amount == 0,
        args.end_ts == ns.spec_now(ctx.clock_ts) + ns.lockup_max_saturation,
        stake_result(l, ns, ctx, args) is Ok,
    ensures
        match stake_result(l, ns, ctx, args) {
            Ok(p) => p.0.spec_voting_power(&p.1, ns.spec_now(ctx.clock_ts) as int) == args.amount
                * ns.lockup_default_target_voting_pct / 100,
            Err(_) => false,
        },
{
}

/// A live lockup whose effective duration is exactly the minimum duration
/// has voting power equal to its amount, whatever its target percentage.
pub proof fn lemma_min_duration_power(l: Lockup, ns: Namespace, now: int)
    requires
        now < l.end_ts,
        l.start_ts < l.end_ts,
        l.spec_duration() == ns.lockup_min_duration,
    ensures
        l.spec_voting_power(&ns, now) == l.amount,
{
}

/// Once its expiry has passed, a lockup has no voting power.
pub proof fn lemma_expired_power(l: Lockup, ns: Namespace, now: int)
    requires
        now >= l.end_ts,
    ensures
        l.spec_voting_power(&ns, now) == 0,
{
}

/// Repeating an empty request (no tokens, no expiry) on a valid lockup
/// leaves a valid lockup with the same amount, start and expiry and the same
/// namespace; from time zero on it is refused as a non-future expiry.
pub proof fn lemma_empty_request_is_stable(
    l: Lockup,
    ns: Namespace,
    ctx: StakeContext,
    args: StakeArgs,
)
    requires
        ns.spec_valid(),
        l.spec_valid(&ns, ns.spec_now(ctx.clock_ts) as int),
        args.amount == 0,
        args.end_ts == 0,
    ensures
        ns.spec_now(ctx.clock_ts) >= 0 ==> stake_result(l, ns, ctx, args) == Err::<
            (Lockup, Namespace),
            CustomError,
        >(CustomError::InvalidTimestamp),
        match stake_result(l, ns, ctx, args) {
            Ok(p) => {
                &&& p.0.spec_valid(&p.1, ns.spec_now(ctx.clock_ts) as int)
                &&& p.0.amount == l.amount
                &&& p.0.start_ts == l.start_ts
                &&& p.0.end_ts == l.end_ts
                &&& p.1 == ns
            },
            Err(_) => true,
        },
{
}

/// A top-up conserves area: the new amount times the new effective duration
/// equals, up to the truncation of one division, the old amount's area
/// (old duration plus any extension) plus the added tokens times the time
/// they actually stay locked. Added tokens thus never inherit the old
/// balance's duration.
pub proof fn lemma_top_up_conserves_area(
    l: Lockup,
    ns: Namespace,
    ctx: StakeContext,
    args: StakeArgs,
)
    requires
        l.amount != 0,
        normalized(l, ctx.lockup_data_len).end_ts != 0,
        capped_end(normalized(l, ctx.lockup_data_len), ns, args) >= ns.spec_now(ctx.clock_ts),
        stake_result(l, ns, ctx, args) is Ok,
    ensures
        match stake_result(l, ns, ctx, args) {
            Ok(p) => {
                let area = new_area(
                    normalized(l, ctx.lockup_data_len),
                    ns,
                    ns.spec_now(ctx.clock_ts),
                    args,
                );
                let dur = p.0.end_ts - p.0.weighted_start_ts;
                &&& p.0.amount * dur <= area
                &&& area < p.0.amount * (dur + 1)
            },
            Err(_) => false,
        },
{
    let ln = normalized(l, ctx.lockup_data_len);
    let now = ns.spec_now(ctx.clock_ts);
    let d = ln.spec_duration();
    let a = l.amount as int;
    let e = capped_end(ln, ns, args) - ln.end_ts;
    let ext = if e > 0 {
        e
    } else {
        0
    };
    let rem = capped_end(ln, ns, args) - now;
    assert(a * d >= 0 && a * ext >= 0 && args.amount * rem >= 0) by (nonlinear_arith)
        requires
            a >= 0,
            d >= 0,
            ext >= 0,
            rem >= 0,
            args.amount >= 0,
    ;
    let area = new_area(ln, ns, now, args);
    let n = a + args.amount;
    lemma_fundamental_div_mod(area, n);
    let q = area / n;
    assert(n * q <= area < n * (q + 1)) by (nonlinear_arith)
        requires
            area == n * q + area % n,
            0 <= area % n < n,
    ;
}

} // verus!
