use vstd::prelude::*;
use vstd::arithmetic::div_mod::{lemma_div_is_ordered, lemma_div_multiples_vanish};

use crate::errors::CustomError;

verus! {

/// Number of discrete choices a proposal offers.
pub const MAX_VOTING_CHOICES: usize = 6;

/// A 32-byte account identity.
#[derive(Clone, Copy, Debug)]
pub struct Pubkey {
    pub bytes: [u8; 32],
}

impl Pubkey {
    pub fn new_from_array(bytes: [u8; 32]) -> (r: Pubkey)
        ensures
            r.bytes == bytes,
    {
        Pubkey { bytes }
    }
}

/// Per-deployment governance configuration and running statistics.
#[derive(Clone, Copy, Debug)]
pub struct Namespace {
    pub token_mint: Pubkey,
    pub deployer: Pubkey,
    pub security_council: Pubkey,
    pub review_council: Pubkey,
    pub override_now: i64,
    pub lockup_default_target_rewards_pct: u16,
    pub lockup_default_target_voting_pct: u16,
    pub lockup_min_duration: i64,
    pub lockup_min_amount: u64,
    pub lockup_max_saturation: u64,
    pub proposal_min_voting_power_for_quorum: u64,
    pub proposal_min_pass_pct: u16,
    pub proposal_can_update_after_votes: bool,
    pub lockup_amount: u64,
    pub proposal_nonce: u32,
}

impl Namespace {
    /// The current time: the override when it is set, else the clock reading.
    pub open spec fn spec_now(&self, clock_ts: i64) -> i64 {
        if self.override_now != 0 {
            self.override_now
        } else {
            clock_ts
        }
    }

    pub open spec fn spec_valid(&self) -> bool {
        &&& self.lockup_min_duration > 0
        &&& self.lockup_min_amount > 0
        &&& self.lockup_max_saturation > self.lockup_min_duration
        &&& self.lockup_default_target_rewards_pct >= 100
        &&& 100 <= self.lockup_default_target_voting_pct <= 2500
        &&& self.proposal_min_voting_power_for_quorum > 0
        &&& 0 < self.proposal_min_pass_pct <= 100
    }

    /// `clock_ts` is the reading of the host clock; it is used only when no
    /// override is configured.
    pub fn now(&self, clock_ts: i64) -> (r: i64)
        ensures
            r == self.spec_now(clock_ts),
    {
        if self.override_now != 0 {
            return self.override_now;
        }
        clock_ts
    }

    pub fn valid(&self) -> (r: bool)
        ensures
            r == self.spec_valid(),
    {
        self.lockup_min_duration > 0 && self.lockup_min_amount > 0
            && self.lockup_max_saturation > (self.lockup_min_duration as u64)
            && self.lockup_default_target_rewards_pct >= 100
            && self.lockup_default_target_voting_pct >= 100
            && self.lockup_default_target_voting_pct <= 2500
            && self.proposal_min_voting_power_for_quorum > 0
            && self.proposal_min_pass_pct > 0 && self.proposal_min_pass_pct <= 100
    }
}

/// Division that truncates toward zero, as machine integer division does.
pub open spec fn trunc_div(a: int, b: int) -> int {
    if a >= 0 {
        a / b
    } else {
        -((-a) / b)
    }
}

/// The voting-power curve over a lockup's effective duration: the amount
/// itself up to the minimum duration, `amount * pct / 100` from the
/// saturation duration on, and a straight line in between.
pub open spec fn curve(amount: int, pct: int, duration: int, min_d: int, max_s: int) -> int {
    let max_power = amount * pct / 100;
    if duration <= min_d {
        amount
    } else if duration >= max_s {
        max_power
    } else {
        amount + trunc_div((max_power - amount) * (duration - min_d), max_s - min_d)
    }
}

/// Whether the product on the interpolated part of the curve leaves the
/// 128-bit range in which it is computed.
pub open spec fn curve_product_overflows(
    amount: int,
    pct: int,
    duration: int,
    min_d: int,
    max_s: int,
) -> bool {
    let max_power = amount * pct / 100;
    let diff = if max_power >= amount {
        max_power - amount
    } else {
        amount - max_power
    };
    min_d < duration < max_s && diff * (duration - min_d) > u128::MAX
}

/// `x * e / s` never exceeds `x` when `e <= s`.
proof fn lemma_scaled_le(x: int, e: int, s: int)
    requires
        x >= 0,
        0 <= e <= s,
        s > 0,
    ensures
        0 <= x * e / s <= x,
{
    assert(x * e <= x * s) by (nonlinear_arith)
        requires
            x >= 0,
            e <= s,
    ;
    assert(0 <= x * e) by (nonlinear_arith)
        requires
            x >= 0,
            e >= 0,
    ;
    lemma_div_is_ordered(x * e, x * s, s);
    lemma_div_is_ordered(0, x * e, s);
    assert(x * s == s * x) by (nonlinear_arith);
    lemma_div_multiples_vanish(x, s);
}

/// A legacy-sized record without a weighted start gets `start_ts` as one.
pub open spec fn normalized(l: Lockup, data_len: usize) -> Lockup {
    if data_len <= Lockup::LEGACY_SIZE && l.weighted_start_ts == 0 {
        Lockup { weighted_start_ts: l.start_ts, ..l }
    } else {
        l
    }
}

/// One owner's locked balance within a namespace.
#[derive(Clone, Copy, Debug)]
pub struct Lockup {
    pub ns: Pubkey,
    pub owner: Pubkey,
    pub amount: u64,
    pub start_ts: i64,
    pub end_ts: i64,
    /// Stake-weighted start used for durations; zero means "use `start_ts`".
    pub weighted_start_ts: i64,
    /// Percent-like scale: 100 means 1x.
    pub target_rewards_pct: u16,
    /// Percent-like scale: 100 means 1x.
    pub target_voting_pct: u16,
}

impl Lockup {
    /// Stored size of a record written before `weighted_start_ts` existed:
    /// discriminator, two keys, amount, start, end, two percentages, padding.
    pub const LEGACY_SIZE: usize = 8 + 32 + 32 + 8 + 8 + 8 + 2 + 2 + 240;

    pub open spec fn spec_effective_start_ts(&self) -> i64 {
        if self.weighted_start_ts == 0 {
            self.start_ts
        } else {
            self.weighted_start_ts
        }
    }

    /// The lockup invariant at time `now`.
    pub open spec fn spec_valid(&self, ns: &Namespace, now: int) -> bool {
        &&& self.amount >= ns.lockup_min_amount
        &&& self.start_ts >= 0
        &&& (self.end_ts >= now + ns.lockup_min_duration || self.end_ts == 0)
        &&& (self.end_ts >= self.start_ts || self.end_ts == 0)
        &&& 100 <= self.target_voting_pct <= 2500
    }

    /// Effective duration: from the effective start to the expiry.
    pub open spec fn spec_duration(&self) -> int {
        self.end_ts - self.spec_effective_start_ts()
    }

    /// Voting power at time `now`, as an unbounded integer.
    pub open spec fn spec_voting_power(&self, ns: &Namespace, now: int) -> int {
        if now >= self.end_ts || self.end_ts <= self.start_ts {
            0
        } else {
            curve(
                self.amount as int,
                self.target_voting_pct as int,
                self.spec_duration(),
                ns.lockup_min_duration as int,
                ns.lockup_max_saturation as int,
            )
        }
    }

    /// Whether computing the voting power at `now` overflows: the product on
    /// the curve's sloped part leaves 128 bits, or the power leaves 64 bits.
    pub open spec fn voting_power_overflows(&self, ns: &Namespace, now: int) -> bool {
        let live = !(now >= self.end_ts || self.end_ts <= self.start_ts);
        (live && curve_product_overflows(
            self.amount as int,
            self.target_voting_pct as int,
            self.spec_duration(),
            ns.lockup_min_duration as int,
            ns.lockup_max_saturation as int,
        )) || self.spec_voting_power(ns, now) > u64::MAX
    }

    /// The earliest expiry a request may ask for: now plus the minimum duration.
    pub fn min_end_ts(&self, ns: &Namespace, clock_ts: i64) -> (r: Result<i64, CustomError>)
        ensures
            ({
                let t = ns.spec_now(clock_ts) + ns.lockup_min_duration;
                match r {
                    Ok(v) => i64::MIN <= t <= i64::MAX && v == t,
                    Err(e) => e == CustomError::ArithmeticOverflow && !(i64::MIN <= t <= i64::MAX),
                }
            }),
    {
        let t: i128 = ns.now(clock_ts) as i128 + ns.lockup_min_duration as i128;
        if t < i64::MIN as i128 || t > i64::MAX as i128 {
            return Err(CustomError::ArithmeticOverflow);
        }
        Ok(t as i64)
    }

    pub fn valid(&self, ns: &Namespace, clock_ts: i64) -> (r: bool)
        ensures
            r == self.spec_valid(ns, ns.spec_now(clock_ts) as int),
    {
        let min_end: i128 = ns.now(clock_ts) as i128 + ns.lockup_min_duration as i128;
        self.amount >= ns.lockup_min_amount && self.start_ts >= 0 && (self.end_ts as i128
            >= min_end || self.end_ts == 0) && (self.end_ts >= self.start_ts || self.end_ts == 0)
            && self.target_voting_pct >= 100 && self.target_voting_pct <= 2500
    }

    pub fn effective_start_ts(&self) -> (r: i64)
        ensures
            r == self.spec_effective_start_ts(),
    {
        if self.weighted_start_ts == 0 {
            self.start_ts
        } else {
            self.weighted_start_ts
        }
    }

    /// A record stored in the legacy layout (no larger than `LEGACY_SIZE`
    /// bytes) that has no weighted start yet gets `start_ts` as one.
    pub fn normalize_weighted_start_ts(&mut self, data_len: usize)
        ensures
            *final(self) == normalized(*old(self), data_len),
    {
        if data_len <= Self::LEGACY_SIZE && self.weighted_start_ts == 0 {
            self.weighted_start_ts = self.start_ts;
        }
    }

    /// Voting power at the namespace's current time (see `Namespace::now`).
    pub fn voting_power(&self, ns: &Namespace, clock_ts: i64) -> (r: Result<u64, CustomError>)
        ensures
            ({
                let now = ns.spec_now(clock_ts) as int;
                match r {
                    Ok(v) => !self.voting_power_overflows(ns, now) && v == self.spec_voting_power(
                        ns,
                        now,
                    ),
                    Err(e) => e == CustomError::ArithmeticOverflow && self.voting_power_overflows(
                        ns,
                        now,
                    ),
                }
            }),
    {
        let now = ns.now(clock_ts);
        if now >= self.end_ts {
            return Ok(0);
        }
        if self.end_ts <= self.start_ts {
            return Ok(0);
        }
        let duration: i128 = self.end_ts as i128 - self.effective_start_ts() as i128;
        let amount: u128 = self.amount as u128;
        assert(amount * (self.target_voting_pct as u128) <= 0x1_0000_0000_0000_0000_0000) by (
        nonlinear_arith)
            requires
                amount <= u64::MAX,
                self.target_voting_pct <= u16::MAX,
        ;
        let max_voting_power: u128 = amount * (self.target_voting_pct as u128) / 100;
        let min_d: i128 = ns.lockup_min_duration as i128;
        if duration <= min_d {
            return Ok(self.amount);
        }
        if duration >= ns.lockup_max_saturation as i128 {
            if max_voting_power > u64::MAX as u128 {
                return Err(CustomError::ArithmeticOverflow);
            }
            return Ok(max_voting_power as u64);
        }
        let elapsed: u128 = (duration - min_d) as u128;
        let span: u128 = (ns.lockup_max_saturation as i128 - min_d) as u128;
        let ghost a = amount as int;
        let ghost m = max_voting_power as int;
        if max_voting_power >= amount {
            let diff: u128 = max_voting_power - amount;
            let product: u128 = match diff.checked_mul(elapsed) {
                Some(p) => p,
                None => return Err(CustomError::ArithmeticOverflow),
            };
            let step: u128 = product / span;
            proof {
                lemma_scaled_le(diff as int, elapsed as int, span as int);
            }
            let ret: u128 = amount + step;
            if ret > u64::MAX as u128 {
                return Err(CustomError::ArithmeticOverflow);
            }
            Ok(ret as u64)
        } else {
            let diff: u128 = amount - max_voting_power;
            let product: u128 = match diff.checked_mul(elapsed) {
                Some(p) => p,
                None => return Err(CustomError::ArithmeticOverflow),
            };
            let step: u128 = product / span;
            proof {
                lemma_scaled_le(diff as int, elapsed as int, span as int);
                assert((m - a) * (elapsed as int) == -(diff as int * elapsed as int)) by (nonlinear_arith)
                    requires
                        diff as int == a - m,
                ;
            }
            Ok((amount - step) as u64)
        }
    }

    /// Voting power scaled by the lockup's rewards percentage.
    pub fn rewards_power(&self, ns: &Namespace, clock_ts: i64) -> (r: Result<u64, CustomError>)
        ensures
            ({
                let now = ns.spec_now(clock_ts) as int;
                let vp = self.spec_voting_power(ns, now);
                let overflows = self.voting_power_overflows(ns, now) || vp
                    * self.target_rewards_pct > u64::MAX;
                match r {
                    Ok(v) => !overflows && v == vp * self.target_rewards_pct / 100,
                    Err(e) => e == CustomError::ArithmeticOverflow && overflows,
                }
            }),
    {
        let vp = self.voting_power(ns, clock_ts)?;
        match vp.checked_mul(self.target_rewards_pct as u64) {
            Some(p) => Ok(p / 100),
            None => Err(CustomError::ArithmeticOverflow),
        }
    }
}

/// Sum of a sequence of counters, as an unbounded integer.
pub open spec fn seq_sum(s: Seq<u64>) -> int
    decreases s.len(),
{
    if s.len() == 0 {
        0
    } else {
        seq_sum(s.drop_last()) + s.last()
    }
}

/// Sums of prefixes grow with the prefix.
proof fn lemma_prefix_sum_le(s: Seq<u64>, i: int, j: int)
    requires
        0 <= i <= j <= s.len(),
    ensures
        0 <= seq_sum(s.take(i)) <= seq_sum(s.take(j)),
    decreases j,
{
    if j == 0 {
        assert(s.take(0).len() == 0);
    } else {
        assert(s.take(j).drop_last() =~= s.take(j - 1));
        if i == j {
            lemma_prefix_sum_le(s, j - 1, j - 1);
        } else {
            lemma_prefix_sum_le(s, i, j - 1);
        }
    }
}

/// A governance question and the voting power cast for each choice.
#[derive(Debug)]
pub struct Proposal {
    pub ns: Pubkey,
    pub nonce: u32,
    pub owner: Pubkey,
    pub start_ts: i64,
    pub end_ts: i64,
    /// Reserved; no rule reads it.
    pub status: u8,
    pub voting_power_choices: [u64; MAX_VOTING_CHOICES],
    pub uri: String,
}

impl Proposal {
    /// The counters as a sequence.
    pub open spec fn choices(&self) -> Seq<u64> {
        self.voting_power_choices@
    }

    /// Total power cast, as an unbounded integer.
    pub open spec fn spec_total(&self) -> int {
        seq_sum(self.choices())
    }

    pub open spec fn spec_has_quorum(&self, ns: &Namespace) -> bool {
        self.spec_total() > ns.proposal_min_voting_power_for_quorum
    }

    /// Share of the total that a choice must exceed to pass.
    pub open spec fn spec_pass_threshold(&self, ns: &Namespace) -> int {
        self.spec_total() * ns.proposal_min_pass_pct / 100
    }

    /// Quorum reached, voting ended, and one choice above the pass share.
    pub open spec fn spec_has_passed(&self, ns: &Namespace, now: int) -> bool {
        &&& self.spec_has_quorum(ns)
        &&& now >= self.end_ts
        &&& exists|i: int|
            0 <= i < MAX_VOTING_CHOICES && #[trigger] self.choices()[i] > self.spec_pass_threshold(
                ns,
            )
    }

    /// Whether deciding `has_passed` at `now` overflows: the total leaves
    /// 64 bits, or, once quorum is reached and voting has ended, the total
    /// times the pass percentage does.
    pub open spec fn has_passed_overflows(&self, ns: &Namespace, now: int) -> bool {
        self.spec_total() > u64::MAX || (self.spec_has_quorum(ns) && now >= self.end_ts
            && self.spec_total() * ns.proposal_min_pass_pct > u64::MAX)
    }

    pub fn valid(&self) -> (r: bool)
        ensures
            r == ((vstd::utf8::encode_utf8(self.uri@).len() as usize) <= 255 && self.start_ts
                < self.end_ts),
    {
        self.uri.as_str().len() <= 255 && self.start_ts < self.end_ts
    }

    /// A proposal may be edited only while no power has been cast on it.
    pub fn can_update(&self) -> (r: bool)
        ensures
            r == (self.spec_total() == 0),
    {
        match self.total_voting_power() {
            Ok(t) => t == 0,
            Err(_) => false,
        }
    }

    /// Adds `voting_power` to the counter of `choice`.
    pub fn cast_vote(&mut self, choice: u8, voting_power: u64) -> (r: Result<(), CustomError>)
        ensures
            ({
                let c = choice as int;
                let fits = old(self).choices()[c] + voting_power <= u64::MAX;
                &&& c >= MAX_VOTING_CHOICES ==> r == Err::<(), CustomError>(
                    CustomError::InvalidChoice,
                )
                &&& (c < MAX_VOTING_CHOICES && !fits) ==> r == Err::<(), CustomError>(
                    CustomError::ArithmeticOverflow,
                )
                &&& (c < MAX_VOTING_CHOICES && fits) ==> r is Ok
                &&& r is Ok ==> *final(self) == (Proposal {
                    voting_power_choices: final(self).voting_power_choices,
                    ..*old(self)
                }) && final(self).choices() == old(self).choices().update(
                    c,
                    (old(self).choices()[c] + voting_power) as u64,
                )
                &&& r is Err ==> *final(self) == *old(self)
            }),
    {
        if choice as usize >= MAX_VOTING_CHOICES {
            return Err(CustomError::InvalidChoice);
        }
        let i = choice as usize;
        match self.voting_power_choices[i].checked_add(voting_power) {
            Some(v) => {
                self.voting_power_choices[i] = v;
                Ok(())
            },
            None => Err(CustomError::ArithmeticOverflow),
        }
    }

    pub fn total_voting_power(&self) -> (r: Result<u64, CustomError>)
        ensures
            match r {
                Ok(v) => v == self.spec_total(),
                Err(e) => e == CustomError::ArithmeticOverflow && self.spec_total() > u64::MAX,
            },
    {
        let ghost s = self.choices();
        let mut acc: u64 = 0;
        let mut i: usize = 0;
        assert(s.take(0).len() == 0);
        while i < MAX_VOTING_CHOICES
            invariant
                i <= MAX_VOTING_CHOICES,
                s == self.choices(),
                s.len() == MAX_VOTING_CHOICES,
                acc == seq_sum(s.take(i as int)),
            decreases MAX_VOTING_CHOICES - i,
        {
            assert(s.take(i + 1).drop_last() =~= s.take(i as int));
            match acc.checked_add(self.voting_power_choices[i]) {
                Some(v) => acc = v,
                None => {
                    proof {
                        lemma_prefix_sum_le(s, i + 1, MAX_VOTING_CHOICES as int);
                        assert(s.take(MAX_VOTING_CHOICES as int) =~= s);
                    }
                    return Err(CustomError::ArithmeticOverflow);
                },
            }
            i += 1;
        }
        assert(s.take(MAX_VOTING_CHOICES as int) =~= s);
        Ok(acc)
    }

    pub fn has_quorum(&self, ns: &Namespace) -> (r: Result<bool, CustomError>)
        ensures
            match r {
                Ok(b) => self.spec_total() <= u64::MAX && b == self.spec_has_quorum(ns),
                Err(e) => e == CustomError::ArithmeticOverflow && self.spec_total() > u64::MAX,
            },
    {
        let total = self.total_voting_power()?;
        Ok(total > ns.proposal_min_voting_power_for_quorum)
    }

    pub fn has_passed(&self, ns: &Namespace, clock_ts: i64) -> (r: Result<bool, CustomError>)
        ensures
            ({
                let now = ns.spec_now(clock_ts) as int;
                match r {
                    Ok(b) => !self.has_passed_overflows(ns, now) && b == self.spec_has_passed(
                        ns,
                        now,
                    ),
                    Err(e) => e == CustomError::ArithmeticOverflow && self.has_passed_overflows(
                        ns,
                        now,
                    ),
                }
            }),
    {
        if !self.has_quorum(ns)? {
            return Ok(false);
        }
        if ns.now(clock_ts) < self.end_ts {
            return Ok(false);
        }
        let total = self.total_voting_power()?;
        let pass_threshold = match total.checked_mul(ns.proposal_min_pass_pct as u64) {
            Some(p) => p / 100,
            None => return Err(CustomError::ArithmeticOverflow),
        };
        let ghost s = self.choices();
        let mut i: usize = 0;
        while i < MAX_VOTING_CHOICES
            invariant
                i <= MAX_VOTING_CHOICES,
                s == self.choices(),
                pass_threshold == self.spec_pass_threshold(ns),
                self.spec_has_quorum(ns),
                ns.spec_now(clock_ts) >= self.end_ts,
                !self.has_passed_overflows(ns, ns.spec_now(clock_ts) as int),
                forall|k: int| 0 <= k < i ==> s[k] <= pass_threshold,
            decreases MAX_VOTING_CHOICES - i,
        {
            if self.voting_power_choices[i] > pass_threshold {
                assert(self.choices()[i as int] > self.spec_pass_threshold(ns));
                return Ok(true);
            }
            i += 1;
        }
        Ok(false)
    }
}

/// Marks that one owner has voted on one proposal, and how.
#[derive(Clone, Copy, Debug)]
pub struct VoteRecord {
    pub ns: Pubkey,
    pub owner: Pubkey,
    pub proposal: Pubkey,
    pub lockup: Pubkey,
    pub choice: u8,
    pub voting_power: u64,
}

impl VoteRecord {
    pub fn valid(&self) -> (r: bool)
        ensures
            r == (self.choice < MAX_VOTING_CHOICES),
    {
        (self.choice as usize) < MAX_VOTING_CHOICES
    }
}

/// A reward distribution announced for a namespace.
#[derive(Clone, Copy, Debug)]
pub struct Distribution {
    pub ns: Pubkey,
    pub uuid: Pubkey,
    pub cosigner_1: Pubkey,
    pub cosigner_2: Pubkey,
    pub start_ts: i64,
    pub distribution_token_mint: Pubkey,
}

/// A claim paid out of a distribution, keyed by the digest of the
/// co-signed message.
#[derive(Clone, Copy, Debug)]
pub struct DistributionClaim {
    pub ns: Pubkey,
    pub distribution: Pubkey,
    pub claimant: Pubkey,
    pub distribution_token_mint: Pubkey,
    pub amount: u64,
    pub cosigned_msg: [u8; 32],
}

} // verus!
