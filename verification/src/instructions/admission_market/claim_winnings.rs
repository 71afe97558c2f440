use crate::instructions::admission_market::create_market::AdmissionMarketError;
use crate::key::Key;
use crate::state::admission_market::{
    AdmissionMarket, MarketOutcome, MarketPosition, MarketStatus, SurfacingScore,
};
use crate::state::creator_dao::CreatorScoreDetails;
use vstd::prelude::*;

verus! {

/// What a claim works on: the resolved market, the claimant's position, and,
/// where they are passed along, the claimant's score details and the scouting
/// record of the market's opener.
#[derive(Clone, Copy, Debug, PartialEq, Eq)]
pub struct ClaimWinnings {
    /// The caller, who claims.
    pub predictor: Key,
    pub market_key: Key,
    pub market: AdmissionMarket,
    pub position: MarketPosition,
    pub creator_score: Option<CreatorScoreDetails>,
    pub surfacing_score: Option<SurfacingScore>,
}

/// Why the claim is refused, if it is.
pub open spec fn rejection(accounts: ClaimWinnings) -> Option<AdmissionMarketError> {
    if accounts.market.status != MarketStatus::Resolved {
        Some(AdmissionMarketError::MarketNotResolved)
    } else if accounts.position.market != accounts.market_key {
        Some(AdmissionMarketError::RecordMismatch)
    } else if accounts.position.predictor != accounts.predictor {
        Some(AdmissionMarketError::RecordMismatch)
    } else if accounts.position.claimed {
        Some(AdmissionMarketError::AlreadyClaimed)
    } else if accounts.creator_score matches Some(score) && score.identity != accounts.predictor {
        Some(AdmissionMarketError::RecordMismatch)
    } else if accounts.surfacing_score matches Some(score) && score.identity
        != accounts.market.market_creator {
        Some(AdmissionMarketError::RecordMismatch)
    } else if accounts.market.outcome is Pending {
        Some(AdmissionMarketError::MarketNotResolved)
    } else {
        None
    }
}

/// The tokens a position holds of the side that won; none while the market
/// is undecided or called off.
pub open spec fn winning_tokens(market: AdmissionMarket, position: MarketPosition) -> u64 {
    match market.outcome {
        MarketOutcome::Accepted => position.yes_tokens,
        MarketOutcome::Rejected => position.no_tokens,
        _ => 0,
    }
}

/// What a claim on `position` pays: the stake back if the market was called
/// off; else the position's share by its tokens of the winning side, which is
/// nothing for a position without such tokens.
pub open spec fn claimable(market: AdmissionMarket, position: MarketPosition) -> int {
    match market.outcome {
        MarketOutcome::Cancelled => position.total_staked as int,
        MarketOutcome::Accepted => market.payout_for(position.yes_tokens, true),
        MarketOutcome::Rejected => market.payout_for(position.no_tokens, false),
        MarketOutcome::Pending => 0,
    }
}

/// The share of correct predictions in basis points, rounded down.
pub open spec fn accuracy_bps(correct: int, incorrect: int) -> int {
    if correct + incorrect > 0 {
        correct * 10000 / (correct + incorrect)
    } else {
        0
    }
}

/// `x` held within the range of `i32`.
pub open spec fn within_i32(x: int) -> int {
    if x > i32::MAX {
        i32::MAX as int
    } else if x < i32::MIN {
        i32::MIN as int
    } else {
        x
    }
}

/// Profit or loss of a claim in basis points of the stake, rounded towards
/// zero and held within `i32`; zero for a position without a stake.
pub open spec fn pnl_bps(payout: u64, staked: u64) -> int {
    if staked == 0 {
        0
    } else if payout >= staked {
        within_i32((payout - staked) * 10000 / (staked as int))
    } else {
        -((staked - payout) * 10000 / (staked as int))
    }
}

/// The share of an opener's markets that ended in an admission, in basis
/// points, rounded down and held at the whole.
pub open spec fn surfacing_accuracy(successes: int, markets_created: int) -> int {
    if markets_created > 0 {
        let ratio = successes * 10000 / markets_created;
        if ratio > 10000 {
            10000
        } else {
            ratio
        }
    } else {
        0
    }
}

/// The claimant's score details after a claim on a decided market: one more
/// prediction counted as correct or incorrect and the accuracy recomputed;
/// for a winner the profit or loss is added to the running sum, which is
/// held within its range.
pub open spec fn scored_prediction(
    score: CreatorScoreDetails,
    won: bool,
    payout: u64,
    staked: u64,
    now: i64,
) -> CreatorScoreDetails {
    if won {
        CreatorScoreDetails {
            predictions_correct: (score.predictions_correct + 1) as u32,
            prediction_accuracy_bps: accuracy_bps(
                score.predictions_correct + 1,
                score.predictions_incorrect as int,
            ) as u16,
            prediction_pnl_bps: within_i32(score.prediction_pnl_bps + pnl_bps(payout, staked)) as i32,
            last_updated: now,
            ..score
        }
    } else {
        CreatorScoreDetails {
            predictions_incorrect: (score.predictions_incorrect + 1) as u32,
            prediction_accuracy_bps: accuracy_bps(
                score.predictions_correct as int,
                score.predictions_incorrect + 1,
            ) as u16,
            last_updated: now,
            ..score
        }
    }
}

/// Whether the claim earns the market's opener a successful surface: the
/// claimant wins, is the opener, the creator was admitted, and the opener's
/// scouting record is passed along.
pub open spec fn credits_scout(accounts: ClaimWinnings) -> bool {
    &&& accounts.market.outcome is Accepted
    &&& accounts.position.yes_tokens > 0
    &&& accounts.predictor == accounts.market.market_creator
    &&& accounts.surfacing_score is Some
}

/// A scouting record with one more successful surface, its accuracy and its
/// scout score recomputed.
pub open spec fn credited_scout(score: SurfacingScore, now: i64) -> SurfacingScore {
    let counted = SurfacingScore {
        successful_surfaces: (score.successful_surfaces + 1) as u32,
        surfacing_accuracy_bps: surfacing_accuracy(
            score.successful_surfaces + 1,
            score.markets_created as int,
        ) as u16,
        ..score
    };
    SurfacingScore { scout_score: counted.score() as u16, last_updated: now, ..counted }
}

/// Every counter that the claim moves can take the step.
pub open spec fn within_limits(accounts: ClaimWinnings) -> bool {
    rejection(accounts) is None && !(accounts.market.outcome is Cancelled) ==> {
        &&& accounts.creator_score matches Some(score) ==> if winning_tokens(
            accounts.market,
            accounts.position,
        ) > 0 {
            score.predictions_correct < u32::MAX
        } else {
            score.predictions_incorrect < u32::MAX
        }
        &&& credits_scout(accounts) ==> accounts.surfacing_score->0.successful_surfaces
            < u32::MAX
    }
}

/// All records after a claim at time `now`. The position is marked claimed
/// and holds its payout. A claim on a market that was called off touches
/// nothing else.
pub open spec fn effect(accounts: ClaimWinnings, now: i64) -> ClaimWinnings {
    let payout = claimable(accounts.market, accounts.position) as u64;
    let position = MarketPosition { claimed: true, payout: payout, ..accounts.position };
    if accounts.market.outcome is Cancelled {
        ClaimWinnings { position: position, ..accounts }
    } else {
        ClaimWinnings {
            position: position,
            creator_score: match accounts.creator_score {
                Some(score) => Some(
                    scored_prediction(
                        score,
                        winning_tokens(accounts.market, accounts.position) > 0,
                        payout,
                        accounts.position.total_staked,
                        now,
                    ),
                ),
                None => None,
            },
            surfacing_score: if credits_scout(accounts) {
                Some(credited_scout(accounts.surfacing_score->0, now))
            } else {
                accounts.surfacing_score
            },
            ..accounts
        }
    }
}

/// What claims on all of the given positions pay together.
pub open spec fn total_claimable(market: AdmissionMarket, positions: Seq<MarketPosition>) -> int
    decreases positions.len(),
{
    if positions.len() == 0 {
        0
    } else {
        total_claimable(market, positions.drop_last()) + claimable(market, positions.last())
    }
}

/// The tokens of the winning side that the given positions hold together.
pub open spec fn total_winning_tokens(market: AdmissionMarket, positions: Seq<MarketPosition>)
    -> int
    decreases positions.len(),
{
    if positions.len() == 0 {
        0
    } else {
        total_winning_tokens(market, positions.drop_last()) + winning_tokens(
            market,
            positions.last(),
        )
    }
}

/// In a decided market a payout, multiplied by the winning pool, is covered
/// by what is distributable multiplied by the position's winning tokens.
pub proof fn lemma_claim_is_proportional(market: AdmissionMarket, position: MarketPosition)
    requires
        market.outcome is Accepted || market.outcome is Rejected,
    ensures
        0 <= claimable(market, position),
        claimable(market, position) * market.pool_of(market.outcome is Accepted)
            <= market.distributable() * winning_tokens(market, position),
{
    let pool = market.pool_of(market.outcome is Accepted);
    let tokens = winning_tokens(market, position);
    let share = market.distributable();
    let paid = claimable(market, position);
    assert(0 <= share * tokens) by (nonlinear_arith)
        requires
            0 <= share,
            0 <= tokens,
    ;
    if pool == 0 {
        assert(paid == 0);
        assert(paid * pool == 0) by (nonlinear_arith)
            requires
                paid == 0,
        ;
    } else {
        let exact = share * tokens / pool;
        assert(0 <= exact && exact * pool <= share * tokens) by (nonlinear_arith)
            requires
                exact == share * tokens / pool,
                0 <= share * tokens,
                pool > 0,
        ;
        assert(0 <= paid <= exact);
        assert(paid * pool <= exact * pool) by (nonlinear_arith)
            requires
                0 <= paid <= exact,
                pool > 0,
        ;
    }
}

/// The bound of `lemma_claim_is_proportional`, summed over positions.
pub proof fn lemma_claims_are_proportional(
    market: AdmissionMarket,
    positions: Seq<MarketPosition>,
)
    requires
        market.outcome is Accepted || market.outcome is Rejected,
    ensures
        0 <= total_claimable(market, positions),
        0 <= total_winning_tokens(market, positions),
        total_claimable(market, positions) * market.pool_of(market.outcome is Accepted)
            <= market.distributable() * total_winning_tokens(market, positions),
    decreases positions.len(),
{
    let pool = market.pool_of(market.outcome is Accepted);
    let share = market.distributable();
    if positions.len() == 0 {
        assert(0 * pool == 0 && share * 0 == 0) by (nonlinear_arith);
    } else {
        let rest = positions.drop_last();
        let last = positions.last();
        lemma_claims_are_proportional(market, rest);
        lemma_claim_is_proportional(market, last);
        let a = total_claimable(market, rest);
        let b = claimable(market, last);
        let x = total_winning_tokens(market, rest);
        let y = winning_tokens(market, last) as int;
        assert((a + b) * pool == a * pool + b * pool && share * (x + y) == share * x + share * y)
            by (nonlinear_arith);
    }
}

/// Payouts are conserved: what all positions of a settled market can claim
/// together is at most both pools less the burn and the fees, as long as the
/// positions hold no more tokens of the winning side than the winning pool
/// itself and the pools cover the burn and the fees.
pub proof fn lemma_payouts_conserved(market: AdmissionMarket, positions: Seq<MarketPosition>)
    requires
        market.status is Resolved,
        market.outcome is Accepted || market.outcome is Rejected,
        market.amount_burned == market.burn_share(),
        market.amount_burned + market.accumulated_fees <= market.yes_pool + market.no_pool,
        total_winning_tokens(market, positions) <= market.pool_of(market.outcome is Accepted),
    ensures
        total_claimable(market, positions) <= market.yes_pool + market.no_pool
            - market.amount_burned - market.accumulated_fees,
{
    let pool = market.pool_of(market.outcome is Accepted);
    let share = market.distributable();
    let total = total_claimable(market, positions);
    let tokens = total_winning_tokens(market, positions);
    lemma_claims_are_proportional(market, positions);
    assert(share <= market.yes_pool + market.no_pool - market.amount_burned
        - market.accumulated_fees);
    if pool == 0 {
        assert(tokens == 0);
        assert(share * tokens == 0) by (nonlinear_arith)
            requires
                tokens == 0,
        ;
        lemma_nothing_from_an_empty_pool(market, positions);
    } else {
        assert(total <= share) by (nonlinear_arith)
            requires
                total * pool <= share * tokens,
                0 <= tokens <= pool,
                0 <= share,
                0 < pool,
                0 <= total,
        ;
    }
}

/// While the winning pool is empty, no claim in a decided market pays.
pub proof fn lemma_nothing_from_an_empty_pool(
    market: AdmissionMarket,
    positions: Seq<MarketPosition>,
)
    requires
        market.outcome is Accepted || market.outcome is Rejected,
        market.pool_of(market.outcome is Accepted) == 0,
    ensures
        total_claimable(market, positions) == 0,
    decreases positions.len(),
{
    if positions.len() > 0 {
        lemma_nothing_from_an_empty_pool(market, positions.drop_last());
    }
}

/// A claim on a market that was called off pays the stake back, whatever
/// tokens the position holds, and marks the position claimed.
pub proof fn lemma_cancelled_refunds_stake(accounts: ClaimWinnings, now: i64)
    requires
        accounts.market.outcome is Cancelled,
    ensures
        claimable(accounts.market, accounts.position) == accounts.position.total_staked,
        effect(accounts, now).position.payout == accounts.position.total_staked,
        effect(accounts, now).position.claimed,
        effect(accounts, now).creator_score == accounts.creator_score,
        effect(accounts, now).surfacing_score == accounts.surfacing_score,
{
}

/// A position is paid once: after a claim that went through, every further
/// claim on the position is refused, whatever else is passed with it.
pub proof fn lemma_claimed_once(accounts: ClaimWinnings, now: i64, later: ClaimWinnings)
    requires
        rejection(accounts) is None,
        later.position == effect(accounts, now).position,
    ensures
        rejection(later) is Some,
        rejection(effect(accounts, now)) == Some(AdmissionMarketError::AlreadyClaimed),
{
}

/// The share of correct predictions in basis points.
pub fn prediction_accuracy(correct: u32, incorrect: u32) -> (bps: u16)
    ensures
        bps == accuracy_bps(correct as int, incorrect as int),
        bps <= 10000,
{
    let total: u64 = correct as u64 + incorrect as u64;
    if total == 0 {
        return 0;
    }
    assert(correct * 10000 / (total as int) <= 10000) by (nonlinear_arith)
        requires
            0 <= correct <= total,
            total > 0,
    ;
    (correct as u64 * 10000 / total) as u16
}

/// Profit or loss of a claim in basis points of the stake.
pub fn profit_bps(payout: u64, staked: u64) -> (bps: i32)
    ensures
        bps == pnl_bps(payout, staked),
        payout < staked ==> -10000 <= bps <= 0,
        payout >= staked ==> bps >= 0,
{
    if staked == 0 {
        return 0;
    }
    if payout >= staked {
        let gain: u128 = (payout - staked) as u128 * 10000 / staked as u128;
        assert(gain >= 0);
        if gain > i32::MAX as u128 {
            i32::MAX
        } else {
            gain as i32
        }
    } else {
        let lost: u64 = staked - payout;
        assert(0 <= lost * 10000 / (staked as int) <= 10000) by (nonlinear_arith)
            requires
                0 < lost <= staked,
        ;
        let loss: u128 = lost as u128 * 10000 / staked as u128;
        -(loss as i32)
    }
}

/// The share of successful surfaces among the markets opened, in basis
/// points.
pub fn scouting_accuracy(successes: u32, markets_created: u32) -> (bps: u16)
    ensures
        bps == surfacing_accuracy(successes as int, markets_created as int),
        bps <= 10000,
{
    if markets_created == 0 {
        return 0;
    }
    let ratio: u64 = successes as u64 * 10000 / markets_created as u64;
    if ratio > 10000 {
        10000
    } else {
        ratio as u16
    }
}

/// Whether the limits hold under which `handler` may be called.
pub fn check_limits(accounts: &ClaimWinnings) -> (ok: bool)
    ensures
        ok == within_limits(*accounts),
{
    if accounts.market.status != MarketStatus::Resolved || accounts.position.market
        != accounts.market_key || accounts.position.predictor != accounts.predictor
        || accounts.position.claimed {
        return true;
    }
    let mut correct_fits = true;
    let mut incorrect_fits = true;
    match &accounts.creator_score {
        Some(score) => {
            if score.identity != accounts.predictor {
                return true;
            }
            correct_fits = score.predictions_correct < u32::MAX;
            incorrect_fits = score.predictions_incorrect < u32::MAX;
        },
        None => {},
    }
    let mut surfaces_fit = true;
    match &accounts.surfacing_score {
        Some(score) => {
            if score.identity != accounts.market.market_creator {
                return true;
            }
            surfaces_fit = score.successful_surfaces < u32::MAX;
        },
        None => {},
    }
    match accounts.market.outcome {
        MarketOutcome::Pending => true,
        MarketOutcome::Cancelled => true,
        MarketOutcome::Accepted => {
            if accounts.position.yes_tokens > 0 {
                correct_fits && (accounts.predictor != accounts.market.market_creator
                    || surfaces_fit)
            } else {
                incorrect_fits
            }
        },
        MarketOutcome::Rejected => {
            if accounts.position.no_tokens > 0 {
                correct_fits
            } else {
                incorrect_fits
            }
        },
    }
}

/// Claims a position in a resolved market. The position is marked claimed
/// and its payout is written into it: the stake itself if the market was
/// called off, the position's share of what is distributable if it holds
/// tokens of the winning side, nothing otherwise. A position is claimed at
/// most once: a second claim is refused and changes nothing.
pub fn handler(accounts: &mut ClaimWinnings, now: i64) -> (result: Result<
    (),
    AdmissionMarketError,
>)
    requires
        within_limits(*old(accounts)),
    ensures
        match result {
            Ok(()) => {
                &&& rejection(*old(accounts)) is None
                &&& *final(accounts) == effect(*old(accounts), now)
                &&& final(accounts).position.claimed
                &&& final(accounts).position.payout == claimable(
                    old(accounts).market,
                    old(accounts).position,
                )
                &&& old(accounts).market.outcome is Cancelled ==> final(accounts).position.payout
                    == old(accounts).position.total_staked
            },
            Err(error) => {
                &&& rejection(*old(accounts)) == Some(error)
                &&& *final(accounts) == *old(accounts)
            },
        },
        final(accounts).market == old(accounts).market,
{
    if accounts.market.status != MarketStatus::Resolved {
        return Err(AdmissionMarketError::MarketNotResolved);
    }
    if accounts.position.market != accounts.market_key {
        return Err(AdmissionMarketError::RecordMismatch);
    }
    if accounts.position.predictor != accounts.predictor {
        return Err(AdmissionMarketError::RecordMismatch);
    }
    if accounts.position.claimed {
        return Err(AdmissionMarketError::AlreadyClaimed);
    }
    match &accounts.creator_score {
        Some(score) => {
            if score.identity != accounts.predictor {
                return Err(AdmissionMarketError::RecordMismatch);
            }
        },
        None => {},
    }
    match &accounts.surfacing_score {
        Some(score) => {
            if score.identity != accounts.market.market_creator {
                return Err(AdmissionMarketError::RecordMismatch);
            }
        },
        None => {},
    }
    let (is_winner, winning): (bool, u64) = match accounts.market.outcome {
        MarketOutcome::Accepted => (accounts.position.yes_tokens > 0, accounts.position.yes_tokens),
        MarketOutcome::Rejected => (accounts.position.no_tokens > 0, accounts.position.no_tokens),
        MarketOutcome::Cancelled => {
            accounts.position.claimed = true;
            accounts.position.payout = accounts.position.total_staked;
            return Ok(());
        },
        MarketOutcome::Pending => {
            return Err(AdmissionMarketError::MarketNotResolved);
        },
    };

    if !is_winner {
        accounts.position.claimed = true;
        accounts.position.payout = 0;
        match accounts.creator_score {
            Some(score) => {
                let incorrect: u32 = score.predictions_incorrect + 1;
                accounts.creator_score = Some(
                    CreatorScoreDetails {
                        predictions_incorrect: incorrect,
                        prediction_accuracy_bps: prediction_accuracy(
                            score.predictions_correct,
                            incorrect,
                        ),
                        last_updated: now,
                        ..score
                    },
                );
            },
            None => {},
        }
        return Ok(());
    }
    let is_yes = accounts.market.outcome == MarketOutcome::Accepted;
    let payout: u64 = accounts.market.calculate_payout(winning, is_yes);

    accounts.position.claimed = true;
    accounts.position.payout = payout;

    match accounts.creator_score {
        Some(score) => {
            let correct: u32 = score.predictions_correct + 1;
            let earned: i32 = profit_bps(payout, accounts.position.total_staked);
            let sum: i64 = score.prediction_pnl_bps as i64 + earned as i64;
            let held: i32 = if sum > i32::MAX as i64 {
                i32::MAX
            } else if sum < i32::MIN as i64 {
                i32::MIN
            } else {
                sum as i32
            };
            accounts.creator_score = Some(
                CreatorScoreDetails {
                    predictions_correct: correct,
                    prediction_accuracy_bps: prediction_accuracy(
                        correct,
                        score.predictions_incorrect,
                    ),
                    prediction_pnl_bps: held,
                    last_updated: now,
                    ..score
                },
            );
        },
        None => {},
    }

    if accounts.predictor == accounts.market.market_creator {
        match accounts.surfacing_score {
            Some(score) => {
                if accounts.market.outcome == MarketOutcome::Accepted {
                    let successes: u32 = score.successful_surfaces + 1;
                    let counted = SurfacingScore {
                        successful_surfaces: successes,
                        surfacing_accuracy_bps: scouting_accuracy(successes, score.markets_created),
                        ..score
                    };
                    accounts.surfacing_score = Some(
                        SurfacingScore {
                            scout_score: counted.calculate_scout_score(),
                            last_updated: now,
                            ..counted
                        },
                    );
                }
            },
            None => {},
        }
    }
    Ok(())
}

} // verus!
