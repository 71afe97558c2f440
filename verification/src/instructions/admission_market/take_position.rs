use crate::instructions::admission_market::create_market::AdmissionMarketError;
use crate::key::Key;
use crate::state::admission_market::{
    after_fee, capped_sum, fee_amount, fee_on, floored_diff, lemma_fee_within_amount,
    lemma_swap_product, swap_out, AdmissionMarket, MarketPosition, MarketStatus,
};
use vstd::prelude::*;

verus! {

/// The answer a predictor backs.
#[derive(Clone, Copy, Debug, PartialEq, Eq, Structural)]
pub enum PositionSide {
    /// The creator will be admitted.
    Yes,
    /// The creator will not be admitted.
    No,
}

/// A trade as the predictor asks for it.
#[derive(Clone, Copy, Debug, PartialEq, Eq)]
pub struct TakePositionParams {
    /// What the predictor pays, fee included.
    pub amount: u64,
    pub side: PositionSide,
    /// The fewest tokens the predictor will take for the amount.
    pub min_tokens: u64,
}

/// What a trade works on: the market and the predictor's position in it, if
/// the predictor has one.
#[derive(Clone, Copy, Debug, PartialEq, Eq)]
pub struct TakePosition {
    /// The caller, who trades.
    pub predictor: Key,
    pub predictor_identity: Option<Key>,
    pub market_key: Key,
    pub market: AdmissionMarket,
    /// The predictor's position in this market; none before the first trade.
    pub position: Option<MarketPosition>,
    /// Bump of the address the position is stored at.
    pub position_bump: u8,
}

/// Whether the side is YES.
pub open spec fn is_yes(side: PositionSide) -> bool {
    side is Yes
}

/// Why the trade is refused before it is priced, if it is.
pub open spec fn early_rejection(accounts: TakePosition, params: TakePositionParams, now: i64)
    -> Option<AdmissionMarketError> {
    if accounts.market.status != MarketStatus::Open {
        Some(AdmissionMarketError::MarketNotOpen)
    } else if accounts.position matches Some(position) && (position.market != accounts.market_key
        || position.predictor != accounts.predictor) {
        Some(AdmissionMarketError::RecordMismatch)
    } else if now >= accounts.market.expires_at {
        Some(AdmissionMarketError::MarketExpired)
    } else if params.amount == 0 {
        Some(AdmissionMarketError::InvalidTradeAmount)
    } else {
        None
    }
}

/// The tokens the trade gives: what leaves the pool of the chosen side when
/// the amount less the fee enters the other pool. An empty pool gives none.
pub open spec fn tokens_for(market: AdmissionMarket, params: TakePositionParams) -> int {
    swap_out(
        market.pool_of(is_yes(params.side)),
        market.pool_of(!is_yes(params.side)),
        after_fee(params.amount, market.fee_bps),
    )
}

/// Why the trade is refused, if it is: for what stands against it before it
/// is priced, or because it would give fewer tokens than asked for.
pub open spec fn rejection(accounts: TakePosition, params: TakePositionParams, now: i64)
    -> Option<AdmissionMarketError> {
    if early_rejection(accounts, params, now) is Some {
        early_rejection(accounts, params, now)
    } else if tokens_for(accounts.market, params) < params.min_tokens {
        Some(AdmissionMarketError::SlippageExceeded)
    } else {
        None
    }
}

/// The trade can be priced, and a first trade can be counted.
pub open spec fn within_limits(accounts: TakePosition, params: TakePositionParams, now: i64)
    -> bool {
    early_rejection(accounts, params, now) is None ==> {
        &&& accounts.market.can_price(is_yes(params.side), params.amount, accounts.market.fee_bps)
        &&& rejection(accounts, params, now) is None && accounts.position is None
            ==> accounts.market.predictor_count < u32::MAX
    }
}

/// The market after the trade. The amount less the fee has entered the pool
/// of the other side, the tokens have left the pool of the chosen side, the
/// fee is set aside, and a first trade counts one more predictor.
pub open spec fn traded_market(market: AdmissionMarket, params: TakePositionParams, first: bool)
    -> AdmissionMarket {
    let paid = after_fee(params.amount, market.fee_bps);
    let tokens = tokens_for(market, params);
    let fees = capped_sum(
        market.accumulated_fees as int,
        fee_on(params.amount, market.fee_bps),
    ) as u64;
    let predictors = if first {
        (market.predictor_count + 1) as u32
    } else {
        market.predictor_count
    };
    match params.side {
        PositionSide::Yes => AdmissionMarket {
            no_pool: capped_sum(market.no_pool as int, paid) as u64,
            yes_pool: floored_diff(market.yes_pool as int, tokens) as u64,
            accumulated_fees: fees,
            predictor_count: predictors,
            ..market
        },
        PositionSide::No => AdmissionMarket {
            yes_pool: capped_sum(market.yes_pool as int, paid) as u64,
            no_pool: floored_diff(market.no_pool as int, tokens) as u64,
            accumulated_fees: fees,
            predictor_count: predictors,
            ..market
        },
    }
}

/// The position a first trade opens, before the trade is booked.
pub open spec fn opened_position(accounts: TakePosition, now: i64) -> MarketPosition {
    MarketPosition {
        market: accounts.market_key,
        predictor: accounts.predictor,
        predictor_identity: accounts.predictor_identity,
        yes_tokens: 0,
        no_tokens: 0,
        total_staked: 0,
        opened_at: now,
        last_modified: now,
        claimed: false,
        payout: 0,
        bump: accounts.position_bump,
    }
}

/// A position with a trade booked: the tokens on their side, the amount on
/// the stake.
pub open spec fn booked_position(
    position: MarketPosition,
    side: PositionSide,
    tokens: int,
    amount: u64,
    now: i64,
) -> MarketPosition {
    let staked = capped_sum(position.total_staked as int, amount as int) as u64;
    match side {
        PositionSide::Yes => MarketPosition {
            yes_tokens: capped_sum(position.yes_tokens as int, tokens) as u64,
            total_staked: staked,
            last_modified: now,
            ..position
        },
        PositionSide::No => MarketPosition {
            no_tokens: capped_sum(position.no_tokens as int, tokens) as u64,
            total_staked: staked,
            last_modified: now,
            ..position
        },
    }
}

/// All records after the trade at time `now`.
pub open spec fn effect(accounts: TakePosition, params: TakePositionParams, now: i64)
    -> TakePosition {
    let base = match accounts.position {
        Some(position) => position,
        None => opened_position(accounts, now),
    };
    TakePosition {
        market: traded_market(accounts.market, params, accounts.position is None),
        position: Some(
            booked_position(
                base,
                params.side,
                tokens_for(accounts.market, params),
                params.amount,
                now,
            ),
        ),
        ..accounts
    }
}

/// The product of the two pools, which the pricing is built to keep.
pub open spec fn pool_product(market: AdmissionMarket) -> int {
    market.yes_pool * market.no_pool
}

/// What a trade does to the product of the pools. The product never grows:
/// the tokens are rounded in the predictor's favour, so the pool of the
/// chosen side keeps the rounded-down quotient. The product stays as it was
/// exactly when the chosen side's pool is empty, or the division leaves no
/// remainder and the other pool has room for what is paid. While that pool
/// has room, the loss is under one grown pool.
pub proof fn lemma_trade_product(market: AdmissionMarket, params: TakePositionParams, first: bool)
    requires
        market.can_price(is_yes(params.side), params.amount, market.fee_bps),
    ensures
        ({
            let after = traded_market(market, params, first);
            let side_pool = market.pool_of(is_yes(params.side));
            let grown = market.pool_of(!is_yes(params.side)) + after_fee(
                params.amount,
                market.fee_bps,
            );
            &&& pool_product(after) <= pool_product(market)
            &&& (pool_product(after) >= pool_product(market)) <==> (side_pool == 0 || (grown
                <= u64::MAX && pool_product(market) % grown == 0))
            &&& side_pool > 0 && grown <= u64::MAX ==> pool_product(market) - grown
                < pool_product(after)
        }),
{
    let after = traded_market(market, params, first);
    let side_pool = market.pool_of(is_yes(params.side));
    let opposite_pool = market.pool_of(!is_yes(params.side));
    let paid = after_fee(params.amount, market.fee_bps);
    lemma_fee_within_amount(params.amount, market.fee_bps);
    assert(side_pool * opposite_pool == opposite_pool * side_pool) by (nonlinear_arith);
    if side_pool == 0 {
        assert(after.pool_of(is_yes(params.side)) == 0);
        assert(pool_product(after) == 0) by (nonlinear_arith)
            requires
                after.yes_pool == 0 || after.no_pool == 0,
                pool_product(after) == after.yes_pool * after.no_pool,
        ;
        assert(pool_product(market) == 0) by (nonlinear_arith)
            requires
                market.yes_pool == 0 || market.no_pool == 0,
                pool_product(market) == market.yes_pool * market.no_pool,
        ;
    } else {
        lemma_swap_product(side_pool, opposite_pool, paid);
        let kept = floored_diff(side_pool, swap_out(side_pool, opposite_pool, paid));
        let held = capped_sum(opposite_pool, paid);
        assert(after.pool_of(is_yes(params.side)) == kept);
        assert(after.pool_of(!is_yes(params.side)) == held);
        assert(kept * held == held * kept) by (nonlinear_arith);
    }
}

/// The product of the pools after a trade is at least what it was before,
/// for every trade in which the division that prices the tokens leaves no
/// remainder and the pool that is paid into has room.
pub proof fn lemma_trade_keeps_product(
    market: AdmissionMarket,
    params: TakePositionParams,
    first: bool,
)
    requires
        market.can_price(is_yes(params.side), params.amount, market.fee_bps),
        market.pool_of(is_yes(params.side)) > 0 ==> {
            let grown = market.pool_of(!is_yes(params.side)) + after_fee(
                params.amount,
                market.fee_bps,
            );
            grown <= u64::MAX && pool_product(market) % grown == 0
        },
    ensures
        pool_product(traded_market(market, params, first)) >= pool_product(market),
{
    lemma_trade_product(market, params, first);
}

/// Whether the trade is refused before it is priced.
fn early_check(accounts: &TakePosition, params: &TakePositionParams, now: i64) -> (result:
    Option<AdmissionMarketError>)
    ensures
        result == early_rejection(*accounts, *params, now),
{
    if accounts.market.status != MarketStatus::Open {
        return Some(AdmissionMarketError::MarketNotOpen);
    }
    match &accounts.position {
        Some(position) => {
            if position.market != accounts.market_key || position.predictor
                != accounts.predictor {
                return Some(AdmissionMarketError::RecordMismatch);
            }
        },
        None => {},
    }
    if !(now < accounts.market.expires_at) {
        return Some(AdmissionMarketError::MarketExpired);
    }
    if !(params.amount > 0) {
        return Some(AdmissionMarketError::InvalidTradeAmount);
    }
    None
}

/// Whether the limits hold under which `handler` may be called.
pub fn check_limits(accounts: &TakePosition, params: &TakePositionParams, now: i64) -> (ok: bool)
    ensures
        ok == within_limits(*accounts, *params, now),
{
    if early_check(accounts, params, now).is_some() {
        return true;
    }
    let market = &accounts.market;
    if market.fee_bps > 10000 {
        return false;
    }
    let paid: u64 = params.amount - fee_amount(params.amount, market.fee_bps);
    let tokens: u64 = match params.side {
        PositionSide::Yes => {
            if market.yes_pool != 0 && market.no_pool == 0 && paid == 0 {
                return false;
            }
            market.calculate_yes_tokens(params.amount, market.fee_bps)
        },
        PositionSide::No => {
            if market.no_pool != 0 && market.yes_pool == 0 && paid == 0 {
                return false;
            }
            market.calculate_no_tokens(params.amount, market.fee_bps)
        },
    };
    if tokens < params.min_tokens {
        return true;
    }
    accounts.position.is_some() || market.predictor_count < u32::MAX
}

/// Takes a position: pays `amount` into an open market for tokens of one
/// side. The tokens are priced along the product of the pools and rounded in
/// the predictor's favour, so the product never grows, and it is kept only
/// when nothing is rounded away. The tokens never exceed what the pool of the
/// chosen side holds. The market must be open and not run out, the amount
/// positive, and the tokens at least `min_tokens`; otherwise nothing changes.
/// The first trade of a predictor opens the position and counts the
/// predictor; later trades add to it.
pub fn handler(accounts: &mut TakePosition, params: TakePositionParams, now: i64) -> (result:
    Result<(), AdmissionMarketError>)
    requires
        within_limits(*old(accounts), params, now),
    ensures
        match result {
            Ok(()) => {
                &&& rejection(*old(accounts), params, now) is None
                &&& *final(accounts) == effect(*old(accounts), params, now)
            },
            Err(error) => {
                &&& rejection(*old(accounts), params, now) == Some(error)
                &&& *final(accounts) == *old(accounts)
            },
        },
        old(accounts).market.well_formed() ==> final(accounts).market.well_formed(),
        result is Ok ==> 0 <= tokens_for(old(accounts).market, params) <= old(
            accounts,
        ).market.pool_of(is_yes(params.side)),
{
    match early_check(accounts, &params, now) {
        Some(error) => {
            return Err(error);
        },
        None => {},
    }
    let tokens: u64 = match params.side {
        PositionSide::Yes => accounts.market.calculate_yes_tokens(
            params.amount,
            accounts.market.fee_bps,
        ),
        PositionSide::No => accounts.market.calculate_no_tokens(
            params.amount,
            accounts.market.fee_bps,
        ),
    };
    if !(tokens >= params.min_tokens) {
        return Err(AdmissionMarketError::SlippageExceeded);
    }
    let fee: u64 = fee_amount(params.amount, accounts.market.fee_bps);
    let amount_after_fee: u64 = params.amount - fee;

    match params.side {
        PositionSide::Yes => {
            accounts.market.no_pool = accounts.market.no_pool.saturating_add(amount_after_fee);
            accounts.market.yes_pool = accounts.market.yes_pool.saturating_sub(tokens);
        },
        PositionSide::No => {
            accounts.market.yes_pool = accounts.market.yes_pool.saturating_add(amount_after_fee);
            accounts.market.no_pool = accounts.market.no_pool.saturating_sub(tokens);
        },
    }
    accounts.market.accumulated_fees = accounts.market.accumulated_fees.saturating_add(fee);

    let mut position = match accounts.position {
        Some(position) => position,
        None => {
            accounts.market.predictor_count += 1;
            MarketPosition {
                market: accounts.market_key,
                predictor: accounts.predictor,
                predictor_identity: accounts.predictor_identity,
                yes_tokens: 0,
                no_tokens: 0,
                total_staked: 0,
                opened_at: now,
                last_modified: now,
                claimed: false,
                payout: 0,
                bump: accounts.position_bump,
            }
        },
    };
    match params.side {
        PositionSide::Yes => {
            position.yes_tokens = position.yes_tokens.saturating_add(tokens);
        },
        PositionSide::No => {
            position.no_tokens = position.no_tokens.saturating_add(tokens);
        },
    }
    position.total_staked = position.total_staked.saturating_add(params.amount);
    position.last_modified = now;
    accounts.position = Some(position);
    Ok(())
}

} // verus!
