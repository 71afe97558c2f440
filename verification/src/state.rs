pub mod admission_market;
pub mod creator_dao;

use crate::errors::SovereignError;
use crate::key::Key;
use vstd::prelude::*;

verus! {

/// The largest score: ten thousand basis points.
pub const MAX_SCORE: u16 = 10000;

/// The five dimensions of reputation. Each has its own score and its own
/// authority: the one key that may write that score.
#[derive(Clone, Copy, Debug, PartialEq, Eq, Structural)]
pub enum Dimension {
    Trading,
    Civic,
    Developer,
    Infra,
    Creator,
}

impl Dimension {
    /// The weight of the dimension in the composite score, in percent.
    pub open spec fn weight(self) -> int {
        match self {
            Dimension::Trading => 30,
            Dimension::Civic => 20,
            Dimension::Developer => 15,
            Dimension::Infra => 10,
            Dimension::Creator => 25,
        }
    }
}


/// An identity with its reputation in five dimensions.
#[derive(Clone, Copy, Debug, PartialEq, Eq)]
pub struct SovereignIdentity {
    pub owner: Key,
    pub created_at: i64,
    pub trading_authority: Key,
    pub civic_authority: Key,
    pub developer_authority: Key,
    pub infra_authority: Key,
    pub creator_authority: Key,
    pub trading_score: u16,
    pub civic_score: u16,
    pub developer_score: u16,
    pub infra_score: u16,
    pub creator_score: u16,
    /// Weighted mean of the five scores.
    pub composite_score: u16,
    /// Band of the composite, 1 to 5.
    pub tier: u8,
    pub last_updated: i64,
    pub bump: u8,
}

impl SovereignIdentity {
    /// Width of the stored record in bytes.
    pub const SIZE: usize = 8 + 32 + 8 + 32 + 32 + 32 + 32 + 32 + 2 + 2 + 2 + 2 + 2 + 2 + 1 + 8
        + 1;

    /// The band of a composite score: bands are 2000 wide, and the fifth
    /// takes everything from 8000 up.
    pub open spec fn tier_of(composite: int) -> int {
        if composite >= 8000 {
            5
        } else {
            composite / 2000 + 1
        }
    }

    /// The score of one dimension.
    pub open spec fn score_of(self, dimension: Dimension) -> u16 {
        match dimension {
            Dimension::Trading => self.trading_score,
            Dimension::Civic => self.civic_score,
            Dimension::Developer => self.developer_score,
            Dimension::Infra => self.infra_score,
            Dimension::Creator => self.creator_score,
        }
    }

    /// The authority of one dimension.
    pub open spec fn authority_of(self, dimension: Dimension) -> Key {
        match dimension {
            Dimension::Trading => self.trading_authority,
            Dimension::Civic => self.civic_authority,
            Dimension::Developer => self.developer_authority,
            Dimension::Infra => self.infra_authority,
            Dimension::Creator => self.creator_authority,
        }
    }

    /// The identity with one authority replaced.
    pub open spec fn with_authority(self, dimension: Dimension, authority: Key) -> Self {
        match dimension {
            Dimension::Trading => SovereignIdentity { trading_authority: authority, ..self },
            Dimension::Civic => SovereignIdentity { civic_authority: authority, ..self },
            Dimension::Developer => SovereignIdentity { developer_authority: authority, ..self },
            Dimension::Infra => SovereignIdentity { infra_authority: authority, ..self },
            Dimension::Creator => SovereignIdentity { creator_authority: authority, ..self },
        }
    }

    /// The identity with one score replaced; composite and tier as they were.
    pub open spec fn with_score(self, dimension: Dimension, score: u16) -> Self {
        match dimension {
            Dimension::Trading => SovereignIdentity { trading_score: score, ..self },
            Dimension::Civic => SovereignIdentity { civic_score: score, ..self },
            Dimension::Developer => SovereignIdentity { developer_score: score, ..self },
            Dimension::Infra => SovereignIdentity { infra_score: score, ..self },
            Dimension::Creator => SovereignIdentity { creator_score: score, ..self },
        }
    }

    /// The weighted mean of the five scores, rounded down.
    pub open spec fn composite(self) -> int {
        (self.trading_score * 30 + self.civic_score * 20 + self.developer_score * 15
            + self.infra_score * 10 + self.creator_score * 25) / 100
    }

    /// The weighted mean as it was before there was a creator dimension.
    pub open spec fn legacy_composite(self) -> int {
        (self.trading_score * 40 + self.civic_score * 25 + self.developer_score * 20
            + self.infra_score * 15) / 100
    }

    /// The identity with composite and tier brought up to date.
    pub open spec fn recalculated(self) -> Self {
        SovereignIdentity {
            composite_score: self.composite() as u16,
            tier: Self::tier_of(self.composite()) as u8,
            ..self
        }
    }

    /// The identity with composite and tier by the former weights.
    pub open spec fn recalculated_legacy(self) -> Self {
        SovereignIdentity {
            composite_score: self.legacy_composite() as u16,
            tier: Self::tier_of(self.legacy_composite()) as u8,
            ..self
        }
    }

    /// Every score is within the scale, and composite and tier are those of
    /// the five scores.
    pub open spec fn well_formed(self) -> bool {
        &&& self.trading_score <= MAX_SCORE
        &&& self.civic_score <= MAX_SCORE
        &&& self.developer_score <= MAX_SCORE
        &&& self.infra_score <= MAX_SCORE
        &&& self.creator_score <= MAX_SCORE
        &&& self.composite_score == self.composite()
        &&& self.tier == Self::tier_of(self.composite())
    }

    /// The tier for a composite score.
    pub fn tier_for(composite: u16) -> (tier: u8)
        ensures
            tier == Self::tier_of(composite as int),
            1 <= tier <= 5,
    {
        if composite <= 1999 {
            1
        } else if composite <= 3999 {
            2
        } else if composite <= 5999 {
            3
        } else if composite <= 7999 {
            4
        } else {
            5
        }
    }

    /// Brings composite and tier up to date with the five scores.
    pub fn recalculate(&mut self)
        ensures
            *final(self) == old(self).recalculated(),
            final(self).composite_score == old(self).composite(),
            1 <= final(self).tier <= 5,
    {
        let weighted: u32 = self.trading_score as u32 * 30 + self.civic_score as u32 * 20
            + self.developer_score as u32 * 15 + self.infra_score as u32 * 10
            + self.creator_score as u32 * 25;
        self.composite_score = (weighted / 100) as u16;
        self.tier = Self::tier_for(self.composite_score);
    }

    /// Brings composite and tier up to date by the weights that were in use
    /// before the creator dimension: 40, 25, 20 and 15 percent.
    pub fn recalculate_legacy(&mut self)
        ensures
            *final(self) == old(self).recalculated_legacy(),
            final(self).composite_score == old(self).legacy_composite(),
            1 <= final(self).tier <= 5,
    {
        let weighted: u32 = self.trading_score as u32 * 40 + self.civic_score as u32 * 25
            + self.developer_score as u32 * 20 + self.infra_score as u32 * 15;
        self.composite_score = (weighted / 100) as u16;
        self.tier = Self::tier_for(self.composite_score);
    }

    /// The key that may write the given dimension.
    pub fn authority(&self, dimension: Dimension) -> (authority: Key)
        ensures
            authority == self.authority_of(dimension),
    {
        match dimension {
            Dimension::Trading => self.trading_authority,
            Dimension::Civic => self.civic_authority,
            Dimension::Developer => self.developer_authority,
            Dimension::Infra => self.infra_authority,
            Dimension::Creator => self.creator_authority,
        }
    }

    /// Hands the given dimension to a new authority.
    pub fn assign_authority(&mut self, dimension: Dimension, authority: Key)
        ensures
            *final(self) == old(self).with_authority(dimension, authority),
    {
        match dimension {
            Dimension::Trading => {
                self.trading_authority = authority;
            },
            Dimension::Civic => {
                self.civic_authority = authority;
            },
            Dimension::Developer => {
                self.developer_authority = authority;
            },
            Dimension::Infra => {
                self.infra_authority = authority;
            },
            Dimension::Creator => {
                self.creator_authority = authority;
            },
        }
    }

    /// Why a write of `score` to `dimension` by `caller` is refused, if it is:
    /// the caller must be the authority of that dimension, and the score must
    /// be within the scale.
    pub open spec fn update_rejection(self, dimension: Dimension, caller: Key, score: u16)
        -> Option<SovereignError> {
        if self.authority_of(dimension) != caller {
            Some(SovereignError::Unauthorized)
        } else if score > MAX_SCORE {
            Some(SovereignError::InvalidScore)
        } else {
            None
        }
    }

    /// The identity after `score` was written to `dimension` at time `now`:
    /// composite and tier are recomputed with the write.
    pub open spec fn updated(self, dimension: Dimension, score: u16, now: i64) -> Self {
        (SovereignIdentity { last_updated: now, ..self.with_score(dimension, score) }).recalculated()
    }

    /// Why `owner` may not hand a dimension to `authority`, if so: the caller
    /// must own the identity, and the new authority must be a key.
    pub open spec fn authority_rejection(self, owner: Key, authority: Key) -> Option<
        SovereignError,
    > {
        if self.owner != owner {
            Some(SovereignError::OwnerMismatch)
        } else if authority == Key::zero_key() {
            Some(SovereignError::InvalidAuthority)
        } else {
            None
        }
    }

    /// Writes a score as the authority of its dimension, and brings composite
    /// and tier up to date in the same step. Nothing changes if the write is
    /// refused.
    pub fn update_score(&mut self, dimension: Dimension, caller: &Key, score: u16, now: i64) -> (result:
        Result<(), SovereignError>)
        ensures
            match result {
                Ok(()) => {
                    &&& old(self).update_rejection(dimension, *caller, score) is None
                    &&& *final(self) == old(self).updated(dimension, score, now)
                },
                Err(error) => {
                    &&& old(self).update_rejection(dimension, *caller, score) == Some(error)
                    &&& *final(self) == *old(self)
                },
            },
            old(self).well_formed() ==> final(self).well_formed(),
    {
        if self.authority(dimension) != *caller {
            return Err(SovereignError::Unauthorized);
        }
        if !(score <= MAX_SCORE) {
            return Err(SovereignError::InvalidScore);
        }
        self.assign_score(dimension, score);
        self.last_updated = now;
        self.recalculate();
        Ok(())
    }

    /// Hands a dimension to a new authority, as the owner of the identity.
    /// Nothing changes if the hand-over is refused.
    pub fn transfer_authority(&mut self, dimension: Dimension, owner: &Key, authority: Key) -> (result:
        Result<(), SovereignError>)
        ensures
            match result {
                Ok(()) => {
                    &&& old(self).authority_rejection(*owner, authority) is None
                    &&& *final(self) == old(self).with_authority(dimension, authority)
                },
                Err(error) => {
                    &&& old(self).authority_rejection(*owner, authority) == Some(error)
                    &&& *final(self) == *old(self)
                },
            },
            old(self).well_formed() ==> final(self).well_formed(),
    {
        if self.owner != *owner {
            return Err(SovereignError::OwnerMismatch);
        }
        if authority.is_default() {
            return Err(SovereignError::InvalidAuthority);
        }
        self.assign_authority(dimension, authority);
        Ok(())
    }

    /// Writes the score of the given dimension and nothing else.
    pub fn assign_score(&mut self, dimension: Dimension, score: u16)
        ensures
            *final(self) == old(self).with_score(dimension, score),
    {
        match dimension {
            Dimension::Trading => {
                self.trading_score = score;
            },
            Dimension::Civic => {
                self.civic_score = score;
            },
            Dimension::Developer => {
                self.developer_score = score;
            },
            Dimension::Infra => {
                self.infra_score = score;
            },
            Dimension::Creator => {
                self.creator_score = score;
            },
        }
    }
}

/// The composite is the mean of the five scores by the weights of their
/// dimensions, and the weights make up the whole.
pub proof fn lemma_composite_is_weighted_mean(identity: SovereignIdentity)
    ensures
        Dimension::Trading.weight() + Dimension::Civic.weight() + Dimension::Developer.weight()
            + Dimension::Infra.weight() + Dimension::Creator.weight() == 100,
        identity.composite() == (identity.score_of(Dimension::Trading)
            * Dimension::Trading.weight() + identity.score_of(Dimension::Civic)
            * Dimension::Civic.weight() + identity.score_of(Dimension::Developer)
            * Dimension::Developer.weight() + identity.score_of(Dimension::Infra)
            * Dimension::Infra.weight() + identity.score_of(Dimension::Creator)
            * Dimension::Creator.weight()) / 100,
{
}

/// With every score within the scale, so are the composite and its tier.
pub proof fn lemma_composite_within_scale(identity: SovereignIdentity)
    requires
        identity.trading_score <= MAX_SCORE,
        identity.civic_score <= MAX_SCORE,
        identity.developer_score <= MAX_SCORE,
        identity.infra_score <= MAX_SCORE,
        identity.creator_score <= MAX_SCORE,
    ensures
        0 <= identity.composite() <= MAX_SCORE,
        1 <= SovereignIdentity::tier_of(identity.composite()) <= 5,
        identity.recalculated().well_formed(),
{
}

/// Points for a count on the common scale of activity: up to 10, 50, 200 and
/// 1000, and beyond.
pub open spec fn activity_points(count: u64) -> int {
    if count <= 10 {
        2000
    } else if count <= 50 {
        4000
    } else if count <= 200 {
        6000
    } else if count <= 1000 {
        8000
    } else {
        10000
    }
}

/// The measurements behind a trading score.
#[derive(Clone, Copy, Debug, PartialEq, Eq)]
pub struct TradingScoreDetails {
    pub identity: Key,
    /// Share of winning trades in basis points.
    pub win_rate_bps: u16,
    /// Profit factor in basis points: 20000 is 2.0.
    pub profit_factor_bps: u16,
    pub total_trades: u64,
    pub total_volume: u64,
    /// Deepest drawdown in basis points, at most the whole.
    pub max_drawdown_bps: u16,
    pub last_updated: i64,
    pub bump: u8,
}

impl TradingScoreDetails {
    /// Width of the stored record in bytes.
    pub const SIZE: usize = 8 + 32 + 2 + 2 + 8 + 8 + 2 + 8 + 1;

    /// Points for the volume traded.
    pub open spec fn volume_points(volume: u64) -> int {
        if volume <= 1_000_000_000 {
            2000
        } else if volume <= 10_000_000_000 {
            4000
        } else if volume <= 100_000_000_000 {
            6000
        } else if volume <= 1_000_000_000_000 {
            8000
        } else {
            10000
        }
    }

    /// The profit factor on the score scale: capped at 2.0, which is the
    /// full score.
    pub open spec fn profit_factor_points(profit_factor_bps: u16) -> int {
        if profit_factor_bps <= 20000 {
            profit_factor_bps as int / 2
        } else {
            10000
        }
    }

    /// The trading score: 30% win rate, 25% profit factor, 20% volume, 15%
    /// what the drawdown left, 10% number of trades, each share rounded down,
    /// the sum capped at 10000.
    pub open spec fn score(self) -> int {
        let sum = self.win_rate_bps * 30 / 100 + Self::profit_factor_points(
            self.profit_factor_bps,
        ) * 25 / 100 + Self::volume_points(self.total_volume) * 20 / 100 + (10000
            - self.max_drawdown_bps) * 15 / 100 + activity_points(self.total_trades) * 10 / 100;
        if sum <= 10000 {
            sum
        } else {
            10000
        }
    }

    /// Computes the trading score.
    pub fn calculate_score(&self) -> (score: u16)
        requires
            self.max_drawdown_bps <= 10000,
        ensures
            score == self.score(),
            score <= 10000,
    {
        let win_rate_component: u32 = self.win_rate_bps as u32 * 30 / 100;
        let capped_factor: u16 = if self.profit_factor_bps <= 20000 {
            self.profit_factor_bps
        } else {
            20000
        };
        let pf_component: u32 = (capped_factor / 2) as u32 * 25 / 100;
        let volume_component: u32 = Self::volume_tier(self.total_volume) as u32 * 20 / 100;
        let drawdown_component: u32 = (10000 - self.max_drawdown_bps) as u32 * 15 / 100;
        let consistency_component: u32 = Self::consistency_tier(self.total_trades) as u32 * 10
            / 100;
        let sum: u32 = win_rate_component + pf_component + volume_component + drawdown_component
            + consistency_component;
        if sum <= 10000 {
            sum as u16
        } else {
            10000
        }
    }

    fn volume_tier(volume: u64) -> (points: u16)
        ensures
            points == Self::volume_points(volume),
    {
        if volume <= 1_000_000_000 {
            2000
        } else if volume <= 10_000_000_000 {
            4000
        } else if volume <= 100_000_000_000 {
            6000
        } else if volume <= 1_000_000_000_000 {
            8000
        } else {
            10000
        }
    }

    fn consistency_tier(trades: u64) -> (points: u16)
        ensures
            points == activity_points(trades),
    {
        if trades <= 10 {
            2000
        } else if trades <= 50 {
            4000
        } else if trades <= 200 {
            6000
        } else if trades <= 1000 {
            8000
        } else {
            10000
        }
    }
}

/// The measurements behind a civic score.
#[derive(Clone, Copy, Debug, PartialEq, Eq)]
pub struct CivicScoreDetails {
    pub identity: Key,
    pub problems_solved: u64,
    pub prediction_accuracy_bps: u16,
    pub directions_proposed: u64,
    pub directions_won: u64,
    pub current_streak: u16,
    pub community_trust: u16,
    pub last_updated: i64,
    pub bump: u8,
}

impl CivicScoreDetails {
    /// Width of the stored record in bytes.
    pub const SIZE: usize = 8 + 32 + 8 + 2 + 8 + 8 + 2 + 2 + 8 + 1;

    /// Points for the number of problems solved.
    pub open spec fn solved_points(solved: u64) -> int {
        if solved <= 2 {
            2000
        } else if solved <= 10 {
            4000
        } else if solved <= 50 {
            6000
        } else if solved <= 200 {
            8000
        } else {
            10000
        }
    }

    /// Points for the length of the current streak.
    pub open spec fn streak_points(streak: u16) -> int {
        if streak <= 2 {
            2000
        } else if streak <= 5 {
            4000
        } else if streak <= 10 {
            6000
        } else if streak <= 20 {
            8000
        } else {
            10000
        }
    }

    /// The civic score: 40% accuracy, 25% problems solved, 25% trust, 10%
    /// streak, each share rounded down, the sum capped at 10000.
    pub open spec fn score(self) -> int {
        let sum = self.prediction_accuracy_bps * 40 / 100 + Self::solved_points(
            self.problems_solved,
        ) * 25 / 100 + self.community_trust * 25 / 100 + Self::streak_points(self.current_streak)
            * 10 / 100;
        if sum <= 10000 {
            sum
        } else {
            10000
        }
    }

    /// Computes the civic score.
    pub fn calculate_score(&self) -> (score: u16)
        ensures
            score == self.score(),
            score <= 10000,
    {
        let accuracy_component: u32 = self.prediction_accuracy_bps as u32 * 40 / 100;
        let solved_component: u32 = Self::solved_tier(self.problems_solved) as u32 * 25 / 100;
        let trust_component: u32 = self.community_trust as u32 * 25 / 100;
        let streak_component: u32 = Self::streak_tier(self.current_streak) as u32 * 10 / 100;
        let sum: u32 = accuracy_component + solved_component + trust_component
            + streak_component;
        if sum <= 10000 {
            sum as u16
        } else {
            10000
        }
    }

    fn solved_tier(solved: u64) -> (points: u16)
        ensures
            points == Self::solved_points(solved),
    {
        if solved <= 2 {
            2000
        } else if solved <= 10 {
            4000
        } else if solved <= 50 {
            6000
        } else if solved <= 200 {
            8000
        } else {
            10000
        }
    }

    fn streak_tier(streak: u16) -> (points: u16)
        ensures
            points == Self::streak_points(streak),
    {
        if streak <= 2 {
            2000
        } else if streak <= 5 {
            4000
        } else if streak <= 10 {
            6000
        } else if streak <= 20 {
            8000
        } else {
            10000
        }
    }
}

} // verus!
