use crate::key::Key;
use crate::state::admission_market::{
    capped_sum, AdmissionMarket, MarketFactory, MarketOutcome, MarketStatus, SurfacingScore,
};
use crate::state::creator_dao::CreatorDAO;
use vstd::prelude::*;

verus! {

/// Seconds in a day.
pub const SECONDS_PER_DAY: i64 = 86400;

/// Why a market operation was rejected.
#[derive(Clone, Copy, Debug, PartialEq, Eq, Structural)]
pub enum AdmissionMarketError {
    /// The collective is not active.
    DAONotActive,
    /// The initial liquidity is under the factory's minimum.
    InsufficientLiquidity,
    /// The market is not open for trading.
    MarketNotOpen,
    /// The market has run out.
    MarketExpired,
    /// The market has no outcome yet.
    MarketNotResolved,
    /// The position was claimed before.
    AlreadyClaimed,
    /// There is no winning position to claim.
    NoWinningPosition,
    /// The amount to trade is zero.
    InvalidTradeAmount,
    /// The trade would give fewer tokens than the predictor asked for.
    SlippageExceeded,
    /// A record that was passed does not belong to the others: it names another market, predictor or identity.
    RecordMismatch,
}

impl AdmissionMarketError {
    /// The text of the message for this error.
    pub open spec fn message_text(self) -> Seq<char> {
        match self {
            AdmissionMarketError::DAONotActive => "DAO is not active"@,
            AdmissionMarketError::InsufficientLiquidity => "Initial liquidity below minimum"@,
            AdmissionMarketError::MarketNotOpen => "Market is not open for trading"@,
            AdmissionMarketError::MarketExpired => "Market has expired"@,
            AdmissionMarketError::MarketNotResolved => "Market not yet resolved"@,
            AdmissionMarketError::AlreadyClaimed => "Position already claimed"@,
            AdmissionMarketError::NoWinningPosition => "No winning position to claim"@,
            AdmissionMarketError::InvalidTradeAmount => "Invalid trade amount"@,
            AdmissionMarketError::SlippageExceeded => "Slippage exceeded"@,
            AdmissionMarketError::RecordMismatch => "A record does not belong to the others it was passed with"@,
        }
    }

    /// The message shown to a caller for this error.
    pub fn message(&self) -> (text: &'static str)
        ensures
            text@ == self.message_text(),
    {
        match self {
            AdmissionMarketError::DAONotActive => "DAO is not active",
            AdmissionMarketError::InsufficientLiquidity => "Initial liquidity below minimum",
            AdmissionMarketError::MarketNotOpen => "Market is not open for trading",
            AdmissionMarketError::MarketExpired => "Market has expired",
            AdmissionMarketError::MarketNotResolved => "Market not yet resolved",
            AdmissionMarketError::AlreadyClaimed => "Position already claimed",
            AdmissionMarketError::NoWinningPosition => "No winning position to claim",
            AdmissionMarketError::InvalidTradeAmount => "Invalid trade amount",
            AdmissionMarketError::SlippageExceeded => "Slippage exceeded",
            AdmissionMarketError::RecordMismatch => "A record does not belong to the others it was passed with",
        }
    }
}

/// What the opener of a market chooses.
#[derive(Clone, Copy, Debug, PartialEq, Eq)]
pub struct CreateMarketParams {
    /// Seeds both pools, half each.
    pub initial_liquidity: u64,
    /// Days until the market runs out if no vote settles it.
    pub expiry_days: u16,
}

/// What the opening of a market works on.
#[derive(Clone, Copy, Debug, PartialEq, Eq)]
pub struct CreateMarket {
    /// The caller, who opens the market.
    pub creator: Key,
    pub dao_key: Key,
    pub dao: CreatorDAO,
    pub predicted_creator_identity: Key,
    pub predicted_creator_wallet: Key,
    pub factory: MarketFactory,
    /// The opener's scouting record, if there is one; else one is started.
    pub surfacing_score: Option<SurfacingScore>,
    /// Bump of the address the market is stored at.
    pub market_bump: u8,
    /// Bump of the address the scouting record is stored at.
    pub surfacing_score_bump: u8,
}

/// Why the opening is refused, if it is.
pub open spec fn rejection(accounts: CreateMarket, params: CreateMarketParams) -> Option<
    AdmissionMarketError,
> {
    if !accounts.dao.is_active {
        Some(AdmissionMarketError::DAONotActive)
    } else if accounts.surfacing_score matches Some(score) && score.identity != accounts.creator {
        Some(AdmissionMarketError::RecordMismatch)
    } else if params.initial_liquidity < accounts.factory.min_initial_liquidity {
        Some(AdmissionMarketError::InsufficientLiquidity)
    } else {
        None
    }
}

/// When a market opened at `now` for `expiry_days` days runs out.
pub open spec fn expiry(now: i64, expiry_days: u16) -> int {
    now + expiry_days * SECONDS_PER_DAY
}

/// The counters can take one more step and the expiry is a time that can be
/// written down.
pub open spec fn within_limits(accounts: CreateMarket, params: CreateMarketParams, now: i64)
    -> bool {
    rejection(accounts, params) is None ==> {
        &&& accounts.factory.market_count < u64::MAX
        &&& accounts.factory.total_markets < u64::MAX
        &&& accounts.surfacing_score matches Some(score) ==> score.markets_created < u32::MAX
        &&& expiry(now, params.expiry_days) <= i64::MAX
    }
}

/// The market that is opened: both pools hold half the liquidity, so the
/// price starts at one half; fee and burn are the factory's; the opener is
/// its first predictor.
pub open spec fn new_market(accounts: CreateMarket, params: CreateMarketParams, now: i64)
    -> AdmissionMarket {
    AdmissionMarket {
        market_id: accounts.factory.market_count,
        dao: accounts.dao_key,
        creator_identity: accounts.predicted_creator_identity,
        creator_wallet: accounts.predicted_creator_wallet,
        market_creator: accounts.creator,
        creator_bonus_bps: accounts.factory.creator_bonus_bps,
        yes_pool: params.initial_liquidity / 2,
        no_pool: params.initial_liquidity / 2,
        predictor_count: 1,
        initial_liquidity: params.initial_liquidity,
        fee_bps: accounts.factory.default_fee_bps,
        accumulated_fees: 0,
        created_at: now,
        trading_ends_at: None,
        expires_at: expiry(now, params.expiry_days) as i64,
        status: MarketStatus::Open,
        outcome: MarketOutcome::Pending,
        resolved_by_nomination: None,
        resolved_at: None,
        burn_percentage_bps: accounts.factory.default_burn_bps,
        amount_burned: 0,
        bump: accounts.market_bump,
    }
}

/// The opener's scouting record after the opening: one more market opened.
pub open spec fn counted_surface(accounts: CreateMarket, now: i64) -> SurfacingScore {
    match accounts.surfacing_score {
        Some(score) => SurfacingScore {
            markets_created: (score.markets_created + 1) as u32,
            last_updated: now,
            ..score
        },
        None => SurfacingScore {
            identity: accounts.creator,
            successful_surfaces: 0,
            markets_created: 1,
            surfacing_accuracy_bps: 0,
            total_profit: 0,
            scout_score: 0,
            last_updated: now,
            bump: accounts.surfacing_score_bump,
        },
    }
}

/// The accounts after an opening: the factory has counted the market and its
/// liquidity, the opener's scouting record has counted the market.
pub open spec fn effect(accounts: CreateMarket, params: CreateMarketParams, now: i64)
    -> CreateMarket {
    CreateMarket {
        factory: MarketFactory {
            market_count: (accounts.factory.market_count + 1) as u64,
            total_markets: (accounts.factory.total_markets + 1) as u64,
            total_volume: capped_sum(
                accounts.factory.total_volume as int,
                params.initial_liquidity as int,
            ) as u64,
            ..accounts.factory
        },
        surfacing_score: Some(counted_surface(accounts, now)),
        ..accounts
    }
}

/// Whether the limits hold under which `handler` may be called.
pub fn check_limits(accounts: &CreateMarket, params: &CreateMarketParams, now: i64) -> (ok: bool)
    ensures
        ok == within_limits(*accounts, *params, now),
{
    if !accounts.dao.is_active {
        return true;
    }
    let counted = match &accounts.surfacing_score {
        Some(score) => {
            if score.identity != accounts.creator {
                return true;
            }
            score.markets_created < u32::MAX
        },
        None => true,
    };
    if params.initial_liquidity < accounts.factory.min_initial_liquidity {
        return true;
    }
    let lifetime: i64 = params.expiry_days as i64 * SECONDS_PER_DAY;
    accounts.factory.market_count < u64::MAX && accounts.factory.total_markets < u64::MAX
        && counted && now <= i64::MAX - lifetime
}

/// Opens a market on whether the collective will admit the creator. The
/// collective must be active and the liquidity at least the factory's
/// minimum; otherwise nothing changes.
pub fn handler(accounts: &mut CreateMarket, params: CreateMarketParams, now: i64) -> (result:
    Result<AdmissionMarket, AdmissionMarketError>)
    requires
        within_limits(*old(accounts), params, now),
    ensures
        match result {
            Ok(market) => {
                &&& rejection(*old(accounts), params) is None
                &&& market == new_market(*old(accounts), params, now)
                &&& *final(accounts) == effect(*old(accounts), params, now)
                &&& market.yes_price() == 5000 && market.no_price() == 5000
                &&& old(accounts).factory.well_formed() ==> market.well_formed()
            },
            Err(error) => {
                &&& rejection(*old(accounts), params) == Some(error)
                &&& *final(accounts) == *old(accounts)
            },
        },
{
    if !accounts.dao.is_active {
        return Err(AdmissionMarketError::DAONotActive);
    }
    let surfacing_score = match accounts.surfacing_score {
        Some(score) => {
            if score.identity != accounts.creator {
                return Err(AdmissionMarketError::RecordMismatch);
            }
            score
        },
        None => SurfacingScore {
            identity: accounts.creator,
            successful_surfaces: 0,
            markets_created: 0,
            surfacing_accuracy_bps: 0,
            total_profit: 0,
            scout_score: 0,
            last_updated: now,
            bump: accounts.surfacing_score_bump,
        },
    };
    if !(params.initial_liquidity >= accounts.factory.min_initial_liquidity) {
        return Err(AdmissionMarketError::InsufficientLiquidity);
    }
    let half_liquidity: u64 = params.initial_liquidity / 2;
    assert(half_liquidity > 0 ==> half_liquidity * 10000 / (half_liquidity + half_liquidity)
        == 5000) by (nonlinear_arith);
    let market = AdmissionMarket {
        market_id: accounts.factory.market_count,
        dao: accounts.dao_key,
        creator_identity: accounts.predicted_creator_identity,
        creator_wallet: accounts.predicted_creator_wallet,
        market_creator: accounts.creator,
        creator_bonus_bps: accounts.factory.creator_bonus_bps,
        yes_pool: half_liquidity,
        no_pool: half_liquidity,
        predictor_count: 1,
        initial_liquidity: params.initial_liquidity,
        fee_bps: accounts.factory.default_fee_bps,
        accumulated_fees: 0,
        created_at: now,
        trading_ends_at: None,
        expires_at: now + (params.expiry_days as i64 * SECONDS_PER_DAY),
        status: MarketStatus::Open,
        outcome: MarketOutcome::Pending,
        resolved_by_nomination: None,
        resolved_at: None,
        burn_percentage_bps: accounts.factory.default_burn_bps,
        amount_burned: 0,
        bump: accounts.market_bump,
    };

    accounts.factory.market_count += 1;
    accounts.factory.total_markets += 1;
    accounts.factory.total_volume = accounts.factory.total_volume.saturating_add(
        params.initial_liquidity,
    );

    accounts.surfacing_score = Some(
        SurfacingScore {
            markets_created: surfacing_score.markets_created + 1,
            last_updated: now,
            ..surfacing_score
        },
    );
    Ok(market)
}

} // verus!
