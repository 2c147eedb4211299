//! Casting a lockup's voting power on a proposal.
use vstd::prelude::*;

use crate::errors::CustomError;
use crate::states::{Lockup, Namespace, Proposal, Pubkey, VoteRecord, MAX_VOTING_CHOICES};

verus! {

/// What the host environment knows about one vote: the record keys, whether
/// a vote record for (namespace, owner, proposal) already exists, and the
/// clock reading.
#[derive(Clone, Copy, Debug)]
pub struct VoteContext {
    pub ns_key: Pubkey,
    pub owner: Pubkey,
    pub proposal_key: Pubkey,
    pub lockup_key: Pubkey,
    pub already_voted: bool,
    pub clock_ts: i64,
}

/// Adds the lockup's current voting power to `choice` and returns the vote
/// record that marks the vote. A repeated vote, a choice out of range or an
/// overflow is refused and leaves the proposal unchanged.
pub fn vote(
    proposal: &mut Proposal,
    lockup: &Lockup,
    ns: &Namespace,
    ctx: VoteContext,
    choice: u8,
) -> (r: Result<VoteRecord, CustomError>)
    ensures
        ({
            let now = ns.spec_now(ctx.clock_ts) as int;
            let vp = lockup.spec_voting_power(ns, now);
            let c = choice as int;
            &&& ctx.already_voted ==> r == Err::<VoteRecord, CustomError>(
                CustomError::DuplicateVote,
            )
            &&& (!ctx.already_voted && c >= MAX_VOTING_CHOICES) ==> r == Err::<
                VoteRecord,
                CustomError,
            >(CustomError::InvalidChoice)
            &&& (!ctx.already_voted && c < MAX_VOTING_CHOICES) ==> {
                let fits = !lockup.voting_power_overflows(ns, now) && old(proposal).choices()[c]
                    + vp <= u64::MAX;
                &&& fits ==> r is Ok
                &&& !fits ==> r == Err::<VoteRecord, CustomError>(CustomError::ArithmeticOverflow)
            }
            &&& r is Err ==> *final(proposal) == *old(proposal)
            &&& match r {
                Ok(rec) => {
                    &&& rec == (VoteRecord {
                        ns: ctx.ns_key,
                        owner: ctx.owner,
                        proposal: ctx.proposal_key,
                        lockup: ctx.lockup_key,
                        choice,
                        voting_power: vp as u64,
                    })
                    &&& *final(proposal) == (Proposal {
                        voting_power_choices: final(proposal).voting_power_choices,
                        ..*old(proposal)
                    })
                    &&& final(proposal).choices() == old(proposal).choices().update(
                        c,
                        (old(proposal).choices()[c] + vp) as u64,
                    )
                },
                Err(_) => true,
            }
        }),
{
    if ctx.already_voted {
        return Err(CustomError::DuplicateVote);
    }
    if choice as usize >= MAX_VOTING_CHOICES {
        return Err(CustomError::InvalidChoice);
    }
    let voting_power = match lockup.voting_power(ns, ctx.clock_ts) {
        Ok(v) => v,
        Err(e) => return Err(e),
    };
    if let Err(e) = proposal.cast_vote(choice, voting_power) {
        return Err(e);
    }
    Ok(
        VoteRecord {
            ns: ctx.ns_key,
            owner: ctx.owner,
            proposal: ctx.proposal_key,
            lockup: ctx.lockup_key,
            choice,
            voting_power,
        },
    )
}

} // verus!
