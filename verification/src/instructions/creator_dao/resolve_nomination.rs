use crate::instructions::creator_dao::create_dao::CreatorDAOError;
use crate::key::Key;
use crate::state::admission_market::{capped_sum, AdmissionMarket, MarketOutcome, MarketStatus};
use crate::state::creator_dao::{CreatorDAO, CreatorScoreDetails, DAOMembership, Nomination};
use crate::state::SovereignIdentity;
use vstd::prelude::*;

verus! {

/// What the resolution of a nomination works on: the collective and the
/// nomination, the nominee's identity and score details, the nominator's
/// membership, the place for the nominee's own membership, and the market on
/// this admission, if one is passed along.
#[derive(Clone, Copy, Debug, PartialEq, Eq)]
pub struct ResolveNomination {
    pub dao_key: Key,
    pub dao: CreatorDAO,
    pub nomination_key: Key,
    pub nomination: Nomination,
    pub nominee_identity_key: Key,
    pub nominee_identity: SovereignIdentity,
    pub creator_score: CreatorScoreDetails,
    pub nominator_membership: DAOMembership,
    pub prediction_market: Option<AdmissionMarket>,
    /// The nominee's membership in this collective, if there is a record of
    /// one. An admission writes it anew.
    pub new_membership: Option<DAOMembership>,
    /// Bump of the address the nominee's membership is stored at.
    pub new_membership_bump: u8,
}

/// Why the resolution is refused, if it is. The records are checked in the
/// order in which they are listed, then the clock, then the quorum.
pub open spec fn rejection(accounts: ResolveNomination, now: i64) -> Option<CreatorDAOError> {
    if !accounts.dao.is_active {
        Some(CreatorDAOError::DAONotActive)
    } else if accounts.nomination.dao != accounts.dao_key {
        Some(CreatorDAOError::RecordMismatch)
    } else if accounts.nomination.is_resolved {
        Some(CreatorDAOError::AlreadyResolved)
    } else if accounts.nominee_identity.owner != accounts.nomination.nominee_wallet {
        Some(CreatorDAOError::RecordMismatch)
    } else if accounts.creator_score.identity != accounts.nominee_identity_key {
        Some(CreatorDAOError::RecordMismatch)
    } else if accounts.nominator_membership.dao != accounts.dao_key {
        Some(CreatorDAOError::RecordMismatch)
    } else if accounts.nominator_membership.member_wallet != accounts.nomination.nominator {
        Some(CreatorDAOError::RecordMismatch)
    } else if now <= accounts.nomination.voting_ends_at {
        Some(CreatorDAOError::VotingNotEnded)
    } else if !accounts.nomination.quorum_reached(accounts.dao.quorum) {
        Some(CreatorDAOError::QuorumNotReached)
    } else {
        None
    }
}

/// The decision: whether the decisive votes are not tied and their accepting
/// share meets the collective's admission threshold.
pub open spec fn accepts(accounts: ResolveNomination) -> bool {
    accounts.nomination.threshold_met(accounts.dao.admission_threshold)
}

/// Reputation points for being admitted to a collective of the given size,
/// the new member counted in.
pub open spec fn prestige_bonus(member_count: u16) -> int {
    if member_count <= 10 {
        100
    } else if member_count <= 50 {
        200
    } else if member_count <= 100 {
        300
    } else if member_count <= 150 {
        400
    } else {
        500
    }
}

/// Every counter that the resolution moves can take the step.
pub open spec fn within_limits(accounts: ResolveNomination, now: i64) -> bool {
    rejection(accounts, now) is None ==> if accepts(accounts) {
        &&& accounts.dao.total_admitted < u64::MAX
        &&& accounts.dao.member_count < u16::MAX
        &&& accounts.nominator_membership.successful_nominations < u16::MAX
        &&& accounts.creator_score.daos_accepted < u16::MAX
        &&& accounts.creator_score.dao_reputation_points + prestige_bonus(
            (accounts.dao.member_count + 1) as u16,
        ) <= u32::MAX
    } else {
        &&& accounts.dao.total_removed < u64::MAX
        &&& accounts.creator_score.failed_nominations < u16::MAX
    }
}

/// Whether a market is passed along that is on this very admission: on this
/// collective and on the nominee.
pub open spec fn settles_market(accounts: ResolveNomination) -> bool {
    accounts.prediction_market matches Some(market) && market.dao == accounts.dao_key
        && market.creator_identity == accounts.nomination.nominee_identity
}

/// The nomination once resolved: terminal, with the decision and its time.
pub open spec fn resolved_nomination(nomination: Nomination, accepted: bool, now: i64)
    -> Nomination {
    Nomination { is_resolved: true, was_accepted: accepted, resolved_at: Some(now), ..nomination }
}

/// The collective after a resolution: one nomination fewer in the backlog,
/// and one more member admitted or one more creator turned down.
pub open spec fn resolved_dao(dao: CreatorDAO, accepted: bool) -> CreatorDAO {
    let pending = if dao.pending_nominations == 0 {
        0u8
    } else {
        (dao.pending_nominations - 1) as u8
    };
    if accepted {
        CreatorDAO {
            pending_nominations: pending,
            total_admitted: (dao.total_admitted + 1) as u64,
            member_count: (dao.member_count + 1) as u16,
            ..dao
        }
    } else {
        CreatorDAO {
            pending_nominations: pending,
            total_removed: (dao.total_removed + 1) as u64,
            ..dao
        }
    }
}

/// The membership that an admission gives the nominee.
pub open spec fn admitted_membership(accounts: ResolveNomination, now: i64) -> DAOMembership {
    DAOMembership {
        dao: accounts.dao_key,
        member_identity: accounts.nomination.nominee_identity,
        member_wallet: accounts.nomination.nominee_wallet,
        admitted_at: now,
        nominated_by: Some(accounts.nomination.nominator),
        successful_nominations: 0,
        votes_cast: 0,
        is_active: true,
        bump: accounts.new_membership_bump,
    }
}

/// The nominee's score details after the decision, before any burn is
/// counted. An admission counts one more collective, notes the time of the
/// first one and awards the prestige bonus; a refusal counts one more failed
/// nomination.
pub open spec fn decided_score(
    score: CreatorScoreDetails,
    accepted: bool,
    members_after: u16,
    now: i64,
) -> CreatorScoreDetails {
    if accepted {
        CreatorScoreDetails {
            daos_accepted: (score.daos_accepted + 1) as u16,
            first_dao_acceptance: if score.first_dao_acceptance is None {
                Some(now)
            } else {
                score.first_dao_acceptance
            },
            dao_reputation_points: (score.dao_reputation_points + prestige_bonus(members_after)) as u32,
            last_updated: now,
            ..score
        }
    } else {
        CreatorScoreDetails { failed_nominations: (score.failed_nominations + 1) as u16, ..score }
    }
}

/// The market once settled by the nomination at `nomination_key`: resolved,
/// with the outcome that mirrors the decision and the burn taken off the pot.
pub open spec fn settled_market(
    market: AdmissionMarket,
    accepted: bool,
    nomination_key: Key,
    now: i64,
) -> AdmissionMarket {
    AdmissionMarket {
        status: MarketStatus::Resolved,
        outcome: if accepted {
            MarketOutcome::Accepted
        } else {
            MarketOutcome::Rejected
        },
        resolved_by_nomination: Some(nomination_key),
        resolved_at: Some(now),
        amount_burned: market.burn_share() as u64,
        ..market
    }
}

/// All records after a resolution at time `now`.
pub open spec fn effect(accounts: ResolveNomination, now: i64) -> ResolveNomination {
    let accepted = accepts(accounts);
    let dao = resolved_dao(accounts.dao, accepted);
    let score = decided_score(accounts.creator_score, accepted, dao.member_count, now);
    ResolveNomination {
        dao: dao,
        nomination: resolved_nomination(accounts.nomination, accepted, now),
        creator_score: if settles_market(accounts) {
            CreatorScoreDetails {
                total_burned: capped_sum(
                    score.total_burned as int,
                    accounts.prediction_market->0.burn_share(),
                ) as u64,
                ..score
            }
        } else {
            score
        },
        nominator_membership: if accepted {
            DAOMembership {
                successful_nominations: (accounts.nominator_membership.successful_nominations
                    + 1) as u16,
                ..accounts.nominator_membership
            }
        } else {
            accounts.nominator_membership
        },
        prediction_market: if settles_market(accounts) {
            Some(
                settled_market(
                    accounts.prediction_market->0,
                    accepted,
                    accounts.nomination_key,
                    now,
                ),
            )
        } else {
            accounts.prediction_market
        },
        new_membership: if accepted {
            Some(admitted_membership(accounts, now))
        } else {
            accounts.new_membership
        },
        ..accounts
    }
}

/// A resolved nomination is terminal: no resolution of it goes through, so
/// by the contract of `handler` a further call fails and changes nothing.
pub proof fn lemma_resolved_is_terminal(accounts: ResolveNomination, now: i64)
    requires
        accounts.nomination.is_resolved,
    ensures
        rejection(accounts, now) is Some,
{
}

/// Resolving twice fails the second time: what a resolution leaves behind is
/// refused as already resolved, at whatever time it is tried again.
pub proof fn lemma_second_resolution_fails(accounts: ResolveNomination, now: i64, later: i64)
    requires
        rejection(accounts, now) is None,
    ensures
        effect(accounts, now).nomination.is_resolved,
        rejection(effect(accounts, now), later) == Some(CreatorDAOError::AlreadyResolved),
{
}

/// A tie resolves to rejection, whatever the threshold; so does a vote in
/// which every voter abstained.
pub proof fn lemma_tie_resolves_to_rejection(accounts: ResolveNomination, now: i64)
    requires
        accounts.nomination.votes_accept == accounts.nomination.votes_reject,
    ensures
        !accepts(accounts),
        !effect(accounts, now).nomination.was_accepted,
        effect(accounts, now).new_membership == accounts.new_membership,
        effect(accounts, now).dao.member_count == accounts.dao.member_count,
{
}

/// A resolution leaves the tally as it found it.
pub proof fn lemma_resolution_keeps_tally(accounts: ResolveNomination, now: i64)
    ensures
        ({
            let after = effect(accounts, now).nomination;
            &&& after.votes_accept == accounts.nomination.votes_accept
            &&& after.votes_reject == accounts.nomination.votes_reject
            &&& after.votes_abstain == accounts.nomination.votes_abstain
            &&& after.total_votes() == accounts.nomination.total_votes()
        }),
{
}

/// The market mirrors the decision: the market on this admission, if one is
/// passed along, ends resolved, as accepted exactly when the nomination was,
/// with the burn taken off its pot and its pools as they were.
pub proof fn lemma_market_mirrors_decision(accounts: ResolveNomination, now: i64)
    requires
        settles_market(accounts),
    ensures
        ({
            let after = effect(accounts, now);
            &&& after.prediction_market is Some
            &&& after.prediction_market->0.status is Resolved
            &&& after.nomination.was_accepted ==> after.prediction_market->0.outcome is Accepted
            &&& !after.nomination.was_accepted ==> after.prediction_market->0.outcome is Rejected
            &&& after.prediction_market->0.amount_burned
                == accounts.prediction_market->0.burn_share()
            &&& after.prediction_market->0.yes_pool == accounts.prediction_market->0.yes_pool
            &&& after.prediction_market->0.no_pool == accounts.prediction_market->0.no_pool
            &&& accounts.prediction_market->0.well_formed()
                ==> after.prediction_market->0.well_formed()
        }),
{
    let market = accounts.prediction_market->0;
    assert(0 <= market.burn_share() <= u64::MAX) by {
        assert(0 <= market.pot() * market.burn_percentage_bps) by (nonlinear_arith)
            requires
                0 <= market.pot(),
                0 <= market.burn_percentage_bps,
        ;
    }
}

/// Whether the limits hold under which `handler` may be called.
pub fn check_limits(accounts: &ResolveNomination, now: i64) -> (ok: bool)
    ensures
        ok == within_limits(*accounts, now),
{
    let rejected = !accounts.dao.is_active || accounts.nomination.dao != accounts.dao_key
        || accounts.nomination.is_resolved || accounts.nominee_identity.owner
        != accounts.nomination.nominee_wallet || accounts.creator_score.identity
        != accounts.nominee_identity_key || accounts.nominator_membership.dao != accounts.dao_key
        || accounts.nominator_membership.member_wallet != accounts.nomination.nominator || now
        <= accounts.nomination.voting_ends_at || !accounts.nomination.has_quorum(
        accounts.dao.quorum,
    );
    if rejected {
        return true;
    }
    if accounts.nomination.meets_threshold(accounts.dao.admission_threshold) {
        accounts.dao.total_admitted < u64::MAX && accounts.dao.member_count < u16::MAX
            && accounts.nominator_membership.successful_nominations < u16::MAX
            && accounts.creator_score.daos_accepted < u16::MAX
            && accounts.creator_score.dao_reputation_points as u64 + bonus_for(
            accounts.dao.member_count + 1,
        ) as u64 <= u32::MAX as u64
    } else {
        accounts.dao.total_removed < u64::MAX && accounts.creator_score.failed_nominations
            < u16::MAX
    }
}

/// The prestige bonus for a collective of the given size.
pub fn bonus_for(member_count: u16) -> (bonus: u32)
    ensures
        bonus == prestige_bonus(member_count),
        100 <= bonus <= 500,
{
    if member_count <= 10 {
        100
    } else if member_count <= 50 {
        200
    } else if member_count <= 100 {
        300
    } else if member_count <= 150 {
        400
    } else {
        500
    }
}

/// Resolves a nomination whose vote has ended, in one step: decides it by
/// the votes, admits the nominee or counts the refusal, updates the scores,
/// and settles the market on this admission if one is passed along. A market
/// on another collective or creator is left alone.
///
/// Anyone may call this once the vote is over. If anything stands against
/// the resolution, no record changes. A resolved nomination is terminal: it
/// is never resolved again, and its tally is kept as it was.
pub fn handler(accounts: &mut ResolveNomination, now: i64) -> (result: Result<
    (),
    CreatorDAOError,
>)
    requires
        within_limits(*old(accounts), now),
    ensures
        match result {
            Ok(()) => {
                &&& rejection(*old(accounts), now) is None
                &&& *final(accounts) == effect(*old(accounts), now)
            },
            Err(error) => {
                &&& rejection(*old(accounts), now) == Some(error)
                &&& *final(accounts) == *old(accounts)
            },
        },
        final(accounts).nomination.total_votes() == old(accounts).nomination.total_votes(),
        old(accounts).dao.well_formed() ==> final(accounts).dao.well_formed(),
{
    if !accounts.dao.is_active {
        return Err(CreatorDAOError::DAONotActive);
    }
    if accounts.nomination.dao != accounts.dao_key {
        return Err(CreatorDAOError::RecordMismatch);
    }
    if accounts.nomination.is_resolved {
        return Err(CreatorDAOError::AlreadyResolved);
    }
    if accounts.nominee_identity.owner != accounts.nomination.nominee_wallet {
        return Err(CreatorDAOError::RecordMismatch);
    }
    if accounts.creator_score.identity != accounts.nominee_identity_key {
        return Err(CreatorDAOError::RecordMismatch);
    }
    if accounts.nominator_membership.dao != accounts.dao_key {
        return Err(CreatorDAOError::RecordMismatch);
    }
    if accounts.nominator_membership.member_wallet != accounts.nomination.nominator {
        return Err(CreatorDAOError::RecordMismatch);
    }
    if !(now > accounts.nomination.voting_ends_at) {
        return Err(CreatorDAOError::VotingNotEnded);
    }
    if !accounts.nomination.has_quorum(accounts.dao.quorum) {
        return Err(CreatorDAOError::QuorumNotReached);
    }
    let was_accepted = accounts.nomination.meets_threshold(accounts.dao.admission_threshold);

    accounts.nomination.is_resolved = true;
    accounts.nomination.was_accepted = was_accepted;
    accounts.nomination.resolved_at = Some(now);

    accounts.dao.pending_nominations = accounts.dao.pending_nominations.saturating_sub(1);

    if was_accepted {
        accounts.dao.total_admitted += 1;
        accounts.dao.member_count += 1;

        accounts.new_membership = Some(
            DAOMembership {
                dao: accounts.dao_key,
                member_identity: accounts.nomination.nominee_identity,
                member_wallet: accounts.nomination.nominee_wallet,
                admitted_at: now,
                nominated_by: Some(accounts.nomination.nominator),
                successful_nominations: 0,
                votes_cast: 0,
                is_active: true,
                bump: accounts.new_membership_bump,
            },
        );

        accounts.nominator_membership.successful_nominations += 1;

        accounts.creator_score.daos_accepted += 1;
        if accounts.creator_score.first_dao_acceptance.is_none() {
            accounts.creator_score.first_dao_acceptance = Some(now);
        }
        let prestige: u32 = bonus_for(accounts.dao.member_count);
        accounts.creator_score.dao_reputation_points += prestige;
        accounts.creator_score.last_updated = now;
    } else {
        accounts.dao.total_removed += 1;
        accounts.creator_score.failed_nominations += 1;
    }

    let mut burned: Option<u64> = None;
    match &mut accounts.prediction_market {
        Some(market) => {
            if market.dao == accounts.dao_key && market.creator_identity
                == accounts.nomination.nominee_identity {
                market.status = MarketStatus::Resolved;
                market.outcome = if was_accepted {
                    MarketOutcome::Accepted
                } else {
                    MarketOutcome::Rejected
                };
                market.resolved_by_nomination = Some(accounts.nomination_key);
                market.resolved_at = Some(now);
                let burn_amount: u64 = market.burn_amount();
                market.amount_burned = burn_amount;
                burned = Some(burn_amount);
            }
        },
        None => {},
    }
    match burned {
        Some(burn_amount) => {
            accounts.creator_score.total_burned = accounts.creator_score.total_burned.saturating_add(
                burn_amount,
            );
        },
        None => {},
    }
    Ok(())
}

} // verus!
