use crate::key::Key;
use vstd::prelude::*;

verus! {

/// Where a market stands in its life.
#[derive(Clone, Copy, Debug, PartialEq, Eq, Structural)]
pub enum MarketStatus {
    /// Open for trading.
    Open,
    /// The vote has started; no new positions.
    VotingInProgress,
    /// The outcome is known; positions can be claimed.
    Resolved,
    /// All claims are done.
    Finalized,
    /// Ran out without an outcome.
    Expired,
}

/// What a market settled on.
#[derive(Clone, Copy, Debug, PartialEq, Eq, Structural)]
pub enum MarketOutcome {
    /// Not known yet.
    Pending,
    /// The collective admitted the creator.
    Accepted,
    /// The collective turned the creator down.
    Rejected,
    /// Called off: stakes are refunded.
    Cancelled,
}

/// The fee on `amount` at `fee_bps` basis points, rounded down.
pub open spec fn fee_on(amount: u64, fee_bps: u16) -> int {
    amount * fee_bps / 10000
}

/// What is left of `amount` once the fee is taken.
pub open spec fn after_fee(amount: u64, fee_bps: u16) -> int {
    amount - fee_on(amount, fee_bps)
}

/// Tokens that leave the pool of one side when `paid` enters the pool of the
/// other: the side's pool shrinks to the product of both pools divided by the
/// grown opposite pool, rounded down. Tokens come out of the pool, so an
/// empty pool gives none.
pub open spec fn swap_out(side_pool: int, opposite_pool: int, paid: int) -> int {
    if side_pool == 0 {
        0
    } else {
        side_pool - side_pool * opposite_pool / (opposite_pool + paid)
    }
}

/// `a + b`, held at the largest `u64`.
pub open spec fn capped_sum(a: int, b: int) -> int {
    if a + b > u64::MAX {
        u64::MAX as int
    } else {
        a + b
    }
}

/// `x`, held at the largest `u64`.
pub open spec fn capped(x: int) -> int {
    if x > u64::MAX {
        u64::MAX as int
    } else {
        x
    }
}

/// `a - b`, held at zero.
pub open spec fn floored_diff(a: int, b: int) -> int {
    if a < b {
        0
    } else {
        a - b
    }
}

/// A fee of at most the whole never exceeds the amount.
pub proof fn lemma_fee_within_amount(amount: u64, fee_bps: u16)
    requires
        fee_bps <= 10000,
    ensures
        0 <= fee_on(amount, fee_bps) <= amount,
        0 <= after_fee(amount, fee_bps) <= amount,
{
    assert(0 <= amount * fee_bps <= amount * 10000) by (nonlinear_arith)
        requires
            fee_bps <= 10000,
    ;
}

/// What a swap leaves in the pool is between nothing and what was there, and
/// the new pools multiply to the old product up to rounding: never more, and
/// less by under one grown opposite pool.
pub proof fn lemma_swap_bounds(side_pool: int, opposite_pool: int, paid: int)
    by (nonlinear_arith)
    requires
        0 < side_pool,
        0 <= opposite_pool,
        0 <= paid,
        0 < opposite_pool + paid,
    ensures
        0 <= swap_out(side_pool, opposite_pool, paid) <= side_pool,
        (side_pool - swap_out(side_pool, opposite_pool, paid)) * (opposite_pool + paid)
            <= side_pool * opposite_pool,
        side_pool * opposite_pool - (opposite_pool + paid) < (side_pool - swap_out(
            side_pool,
            opposite_pool,
            paid,
        )) * (opposite_pool + paid),
{
    let k = side_pool * opposite_pool;
    let d = opposite_pool + paid;
    let q = k / d;
    assert(k == d * q + k % d);
    assert(0 <= k % d < d);
    assert(k >= 0);
    assert(q >= 0);
    assert(k <= side_pool * d);
    if q > side_pool {
        assert(d * q >= d * (side_pool + 1));
    }
}

/// What a swap does to the product of the pools, with the opposite pool held
/// at the largest `u64`. The product never grows. It is kept exactly when
/// nothing is rounded away and the opposite pool has room for what is paid;
/// otherwise it shrinks, by less than one grown opposite pool if that pool
/// has room.
pub proof fn lemma_swap_product(side_pool: int, opposite_pool: int, paid: int)
    requires
        0 < side_pool <= u64::MAX,
        0 <= opposite_pool <= u64::MAX,
        0 <= paid <= u64::MAX,
        0 < opposite_pool + paid,
    ensures
        ({
            let kept = floored_diff(side_pool, swap_out(side_pool, opposite_pool, paid));
            let grown = opposite_pool + paid;
            let held = capped_sum(opposite_pool, paid);
            let product = side_pool * opposite_pool;
            &&& 0 <= kept <= side_pool
            &&& kept * held <= product
            &&& (kept * held >= product) <==> (grown <= u64::MAX && product % grown == 0)
            &&& grown <= u64::MAX ==> product - grown < kept * held
        }),
{
    let grown = opposite_pool + paid;
    let held = capped_sum(opposite_pool, paid);
    let product = side_pool * opposite_pool;
    let kept = product / grown;
    lemma_swap_bounds(side_pool, opposite_pool, paid);
    assert(kept == floored_diff(side_pool, swap_out(side_pool, opposite_pool, paid)));
    assert(product == grown * kept + product % grown && 0 <= product % grown < grown && kept
        * grown == grown * kept) by (nonlinear_arith)
        requires
            kept == product / grown,
            grown > 0,
    ;
    if grown > u64::MAX {
        assert(opposite_pool >= 1);
        assert(product >= 1) by (nonlinear_arith)
            requires
                product == side_pool * opposite_pool,
                side_pool >= 1,
                opposite_pool >= 1,
        ;
        assert(kept * held < product) by (nonlinear_arith)
            requires
                0 <= kept,
                0 <= held < grown,
                kept * grown <= product,
                product >= 1,
        ;
    }
}

/// The two prices are fractions of the whole and make it up together.
pub proof fn lemma_prices_make_the_whole(market: AdmissionMarket)
    ensures
        0 <= market.yes_price() <= 10000,
        0 <= market.no_price() <= 10000,
        market.yes_price() + market.no_price() == 10000,
{
    if !(market.yes_pool == 0 && market.no_pool == 0) {
        let total = market.yes_pool + market.no_pool;
        assert(0 <= market.no_pool * 10000 / total <= 10000) by (nonlinear_arith)
            requires
                0 <= market.no_pool <= total,
                total > 0,
        ;
    }
}

/// A prediction market on one question: will this collective admit this
/// creator? It holds one pool per answer and prices them by their product.
#[derive(Clone, Copy, Debug, PartialEq, Eq)]
pub struct AdmissionMarket {
    pub market_id: u64,
    pub dao: Key,
    pub creator_identity: Key,
    pub creator_wallet: Key,
    /// Who opened the market.
    pub market_creator: Key,
    pub creator_bonus_bps: u16,
    pub yes_pool: u64,
    pub no_pool: u64,
    pub predictor_count: u32,
    pub initial_liquidity: u64,
    pub fee_bps: u16,
    pub accumulated_fees: u64,
    pub created_at: i64,
    pub trading_ends_at: Option<i64>,
    pub expires_at: i64,
    pub status: MarketStatus,
    pub outcome: MarketOutcome,
    pub resolved_by_nomination: Option<Key>,
    pub resolved_at: Option<i64>,
    pub burn_percentage_bps: u16,
    pub amount_burned: u64,
    pub bump: u8,
}

impl AdmissionMarket {
    /// Width of the stored record in bytes.
    pub const SIZE: usize = 8 + 8 + 32 + 32 + 32 + 32 + 2 + 8 + 8 + 4 + 8 + 2 + 8 + 8 + 9 + 8 + 1
        + 1 + 33 + 9 + 2 + 8 + 1;

    /// Fee and burn are fractions of the whole, and a resolved market has an
    /// outcome.
    pub open spec fn well_formed(self) -> bool {
        &&& self.fee_bps <= 10000
        &&& self.burn_percentage_bps <= 10000
        &&& self.status is Resolved ==> !(self.outcome is Pending)
    }

    /// The price of YES in basis points: the share of the NO pool in both
    /// pools, rounded down; one half while both pools are empty.
    pub open spec fn yes_price(self) -> int {
        if self.yes_pool == 0 && self.no_pool == 0 {
            5000
        } else {
            self.no_pool * 10000 / (self.yes_pool + self.no_pool)
        }
    }

    /// The price of NO in basis points: what the price of YES leaves of the
    /// whole.
    pub open spec fn no_price(self) -> int {
        10000 - self.yes_price()
    }

    /// Both pools together, held at the largest `u64`.
    pub open spec fn pot(self) -> int {
        capped_sum(self.yes_pool as int, self.no_pool as int)
    }

    /// The part of the pot that is burned at settlement.
    pub open spec fn burn_share(self) -> int {
        capped(self.pot() * self.burn_percentage_bps / 10000)
    }

    /// What the winners share: the pot less the burn and the fees.
    pub open spec fn distributable(self) -> int {
        floored_diff(floored_diff(self.pot(), self.burn_share()), self.accumulated_fees as int)
    }

    /// The pool of the given side.
    pub open spec fn pool_of(self, is_yes: bool) -> int {
        if is_yes {
            self.yes_pool as int
        } else {
            self.no_pool as int
        }
    }

    /// YES tokens for a stake: see `swap_out`.
    pub open spec fn yes_tokens_for(self, stake: u64, fee_bps: u16) -> int {
        swap_out(self.yes_pool as int, self.no_pool as int, after_fee(stake, fee_bps))
    }

    /// NO tokens for a stake: see `swap_out`.
    pub open spec fn no_tokens_for(self, stake: u64, fee_bps: u16) -> int {
        swap_out(self.no_pool as int, self.yes_pool as int, after_fee(stake, fee_bps))
    }

    /// A stake on a side can be priced unless that side's pool holds tokens
    /// while nothing at all would stand against them: the pool opposite is
    /// empty and the fee leaves nothing of the stake.
    pub open spec fn can_price(self, is_yes: bool, stake: u64, fee_bps: u16) -> bool {
        &&& fee_bps <= 10000
        &&& self.pool_of(is_yes) == 0 || self.pool_of(!is_yes) + after_fee(stake, fee_bps) > 0
    }

    /// A position's share of what is distributable, by its tokens in the
    /// winning pool, rounded down and held at the largest `u64`. Nothing, if
    /// the winning pool is empty.
    pub open spec fn payout_for(self, position_tokens: u64, is_yes: bool) -> int {
        if self.pool_of(is_yes) == 0 {
            0
        } else {
            capped(self.distributable() * position_tokens / self.pool_of(is_yes))
        }
    }

    /// The current price of YES in basis points.
    pub fn yes_price_bps(&self) -> (price: u16)
        ensures
            price == self.yes_price(),
            price <= 10000,
    {
        if self.yes_pool == 0 && self.no_pool == 0 {
            return 5000;
        }
        let total: u128 = self.yes_pool as u128 + self.no_pool as u128;
        assert(self.no_pool * 10000 / (total as int) <= 10000) by (nonlinear_arith)
            requires
                self.no_pool <= total,
                total > 0,
        ;
        ((self.no_pool as u128 * 10000) / total) as u16
    }

    /// The current price of NO in basis points.
    pub fn no_price_bps(&self) -> (price: u16)
        ensures
            price == self.no_price(),
            price + self.yes_price() == 10000,
    {
        10000 - self.yes_price_bps()
    }

    /// Both pools together.
    pub fn total_pot(&self) -> (pot: u64)
        ensures
            pot == self.pot(),
    {
        self.yes_pool.saturating_add(self.no_pool)
    }

    /// The amount burned when the market settles.
    pub fn burn_amount(&self) -> (burn: u64)
        ensures
            burn == self.burn_share(),
            self.burn_percentage_bps <= 10000 ==> burn <= self.pot(),
    {
        let pot: u64 = self.total_pot();
        assert(pot * self.burn_percentage_bps <= u64::MAX * 65535) by (nonlinear_arith)
            requires
                pot <= u64::MAX,
                self.burn_percentage_bps <= 65535,
        ;
        let burn: u128 = pot as u128 * self.burn_percentage_bps as u128 / 10000;
        assert(self.burn_percentage_bps <= 10000 ==> pot * self.burn_percentage_bps / 10000 <= pot)
            by (nonlinear_arith);
        if burn > u64::MAX as u128 {
            u64::MAX
        } else {
            burn as u64
        }
    }

    /// What is left for the winners once burn and fees are set aside.
    pub fn distributable_amount(&self) -> (amount: u64)
        ensures
            amount == self.distributable(),
            amount <= self.pot(),
    {
        let pot: u64 = self.total_pot();
        let burn: u64 = self.burn_amount();
        pot.saturating_sub(burn).saturating_sub(self.accumulated_fees)
    }

    /// YES tokens handed out for a stake at the given fee.
    pub fn calculate_yes_tokens(&self, stake: u64, fee_bps: u16) -> (tokens: u64)
        requires
            self.can_price(true, stake, fee_bps),
        ensures
            tokens == self.yes_tokens_for(stake, fee_bps),
            tokens <= self.yes_pool,
    {
        let stake_after_fee: u64 = stake - fee_amount(stake, fee_bps);
        swap(self.yes_pool, self.no_pool, stake_after_fee)
    }

    /// NO tokens handed out for a stake at the given fee.
    pub fn calculate_no_tokens(&self, stake: u64, fee_bps: u16) -> (tokens: u64)
        requires
            self.can_price(false, stake, fee_bps),
        ensures
            tokens == self.no_tokens_for(stake, fee_bps),
            tokens <= self.no_pool,
    {
        let stake_after_fee: u64 = stake - fee_amount(stake, fee_bps);
        swap(self.no_pool, self.yes_pool, stake_after_fee)
    }

    /// The payout of a winning position that holds `position_tokens` of the
    /// winning side.
    pub fn calculate_payout(&self, position_tokens: u64, is_yes: bool) -> (payout: u64)
        ensures
            payout == self.payout_for(position_tokens, is_yes),
    {
        let winning_pool: u64 = if is_yes {
            self.yes_pool
        } else {
            self.no_pool
        };
        if winning_pool == 0 {
            return 0;
        }
        let distributable: u64 = self.distributable_amount();
        assert(distributable * position_tokens <= u64::MAX * u64::MAX) by (nonlinear_arith)
            requires
                distributable <= u64::MAX,
                position_tokens <= u64::MAX,
        ;
        let share: u128 = distributable as u128 * position_tokens as u128 / winning_pool as u128;
        if share > u64::MAX as u128 {
            u64::MAX
        } else {
            share as u64
        }
    }
}

/// The fee on `amount` at `fee_bps` basis points.
pub fn fee_amount(amount: u64, fee_bps: u16) -> (fee: u64)
    requires
        fee_bps <= 10000,
    ensures
        fee == fee_on(amount, fee_bps),
        fee <= amount,
{
    proof {
        lemma_fee_within_amount(amount, fee_bps);
    }
    assert(amount * fee_bps <= u64::MAX * 10000) by (nonlinear_arith)
        requires
            amount <= u64::MAX,
            fee_bps <= 10000,
    ;
    (amount as u128 * fee_bps as u128 / 10000) as u64
}

/// Tokens out of `side_pool` for `paid` into `opposite_pool`.
fn swap(side_pool: u64, opposite_pool: u64, paid: u64) -> (tokens: u64)
    requires
        side_pool == 0 || opposite_pool + paid > 0,
    ensures
        tokens == swap_out(side_pool as int, opposite_pool as int, paid as int),
        tokens <= side_pool,
{
    assert(side_pool * opposite_pool <= u64::MAX * u64::MAX) by (nonlinear_arith)
        requires
            side_pool <= u64::MAX,
            opposite_pool <= u64::MAX,
    ;
    let k: u128 = side_pool as u128 * opposite_pool as u128;
    let grown: u128 = opposite_pool as u128 + paid as u128;
    proof {
        if side_pool > 0 {
            lemma_swap_bounds(side_pool as int, opposite_pool as int, paid as int);
        } else {
            assert(side_pool * opposite_pool == 0) by (nonlinear_arith)
                requires
                    side_pool == 0,
            ;
        }
    }
    let kept: u128 = if grown == 0 {
        0
    } else {
        k / grown
    };
    side_pool - kept as u64
}

/// A predictor's holding in one market.
#[derive(Clone, Copy, Debug, PartialEq, Eq)]
pub struct MarketPosition {
    pub market: Key,
    pub predictor: Key,
    pub predictor_identity: Option<Key>,
    pub yes_tokens: u64,
    pub no_tokens: u64,
    pub total_staked: u64,
    pub opened_at: i64,
    pub last_modified: i64,
    /// Set once, by the claim.
    pub claimed: bool,
    /// What the claim paid; zero before it and for a loser.
    pub payout: u64,
    pub bump: u8,
}

impl MarketPosition {
    /// Width of the stored record in bytes.
    pub const SIZE: usize = 8 + 32 + 32 + 33 + 8 + 8 + 8 + 8 + 8 + 1 + 8 + 1;

    /// What the tokens are worth at the market's prices, each side rounded
    /// down.
    pub open spec fn current_value(self, market: AdmissionMarket) -> int {
        self.yes_tokens * market.yes_price() / 10000 + self.no_tokens * market.no_price() / 10000
    }

    /// Value at current prices less what was staked, held within `i64`.
    pub open spec fn pnl(self, market: AdmissionMarket) -> int {
        let raw = self.current_value(market) - self.total_staked;
        if raw > i64::MAX {
            i64::MAX as int
        } else if raw < i64::MIN {
            i64::MIN as int
        } else {
            raw
        }
    }

    /// Profit or loss if the position were valued at the market's current
    /// prices.
    pub fn unrealized_pnl(&self, market: &AdmissionMarket) -> (pnl: i64)
        ensures
            pnl == self.pnl(*market),
    {
        let yes_price: u16 = market.yes_price_bps();
        let no_price: u16 = market.no_price_bps();
        assert(self.yes_tokens * yes_price <= u64::MAX * 10000) by (nonlinear_arith)
            requires
                self.yes_tokens <= u64::MAX,
                yes_price <= 10000,
        ;
        assert(self.no_tokens * no_price <= u64::MAX * 10000) by (nonlinear_arith)
            requires
                self.no_tokens <= u64::MAX,
                no_price <= 10000,
        ;
        let yes_value: u128 = self.yes_tokens as u128 * yes_price as u128 / 10000;
        let no_value: u128 = self.no_tokens as u128 * no_price as u128 / 10000;
        let raw: i128 = (yes_value + no_value) as i128 - self.total_staked as i128;
        if raw > i64::MAX as i128 {
            i64::MAX
        } else if raw < i64::MIN as i128 {
            i64::MIN
        } else {
            raw as i64
        }
    }
}

/// Settings shared by all markets, and their running totals.
#[derive(Clone, Copy, Debug, PartialEq, Eq)]
pub struct MarketFactory {
    pub authority: Key,
    /// The id the next market gets.
    pub market_count: u64,
    pub default_fee_bps: u16,
    pub default_burn_bps: u16,
    pub min_initial_liquidity: u64,
    pub default_expiry_period: i64,
    pub creator_bonus_bps: u16,
    pub total_markets: u64,
    pub total_volume: u64,
    pub total_burned: u64,
    pub bump: u8,
}

impl MarketFactory {
    /// Width of the stored record in bytes.
    pub const SIZE: usize = 8 + 32 + 8 + 2 + 2 + 8 + 8 + 2 + 8 + 8 + 8 + 1;

    /// The default fee and burn are fractions of the whole.
    pub open spec fn well_formed(self) -> bool {
        self.default_fee_bps <= 10000 && self.default_burn_bps <= 10000
    }
}

/// How well an identity scouts: the markets it opened and how they ended.
#[derive(Clone, Copy, Debug, PartialEq, Eq)]
pub struct SurfacingScore {
    pub identity: Key,
    pub successful_surfaces: u32,
    pub markets_created: u32,
    pub surfacing_accuracy_bps: u16,
    pub total_profit: i64,
    pub scout_score: u16,
    pub last_updated: i64,
    pub bump: u8,
}

impl SurfacingScore {
    /// Width of the stored record in bytes.
    pub const SIZE: usize = 8 + 32 + 4 + 4 + 2 + 8 + 2 + 8 + 1;

    /// Points for the number of markets opened.
    pub open spec fn volume_points(markets_created: u32) -> int {
        if markets_created <= 5 {
            2000
        } else if markets_created <= 20 {
            4000
        } else if markets_created <= 50 {
            6000
        } else if markets_created <= 100 {
            8000
        } else {
            10000
        }
    }

    /// Points for the profit made.
    pub open spec fn profit_points(total_profit: i64) -> int {
        if total_profit <= 0 {
            2000
        } else if total_profit <= 1_000_000_000 {
            4000
        } else if total_profit <= 10_000_000_000 {
            6000
        } else if total_profit <= 100_000_000_000 {
            8000
        } else {
            10000
        }
    }

    /// The scout score in basis points: nothing without a market; else half
    /// the accuracy, 30% of the volume points and 20% of the profit points,
    /// each rounded down, the sum capped at 10000.
    pub open spec fn score(self) -> int {
        if self.markets_created == 0 {
            0
        } else {
            let sum = self.surfacing_accuracy_bps * 50 / 100 + Self::volume_points(
                self.markets_created,
            ) * 30 / 100 + Self::profit_points(self.total_profit) * 20 / 100;
            if sum <= 10000 {
                sum
            } else {
                10000
            }
        }
    }

    /// Computes the scout score.
    pub fn calculate_scout_score(&self) -> (score: u16)
        ensures
            score == self.score(),
            score <= 10000,
    {
        if self.markets_created == 0 {
            return 0;
        }
        let accuracy: u32 = self.surfacing_accuracy_bps as u32 * 50 / 100;
        let created: u32 = self.markets_created;
        let volume_tier: u32 = if created <= 5 {
            2000
        } else if created <= 20 {
            4000
        } else if created <= 50 {
            6000
        } else if created <= 100 {
            8000
        } else {
            10000
        };
        let volume: u32 = volume_tier * 30 / 100;
        let earned: i64 = self.total_profit;
        let profit_tier: u32 = if earned <= 0 {
            2000
        } else if earned <= 1_000_000_000 {
            4000
        } else if earned <= 10_000_000_000 {
            6000
        } else if earned <= 100_000_000_000 {
            8000
        } else {
            10000
        };
        let profit: u32 = profit_tier * 20 / 100;
        let sum: u32 = accuracy + volume + profit;
        if sum <= 10000 {
            sum as u16
        } else {
            10000
        }
    }
}

} // verus!
