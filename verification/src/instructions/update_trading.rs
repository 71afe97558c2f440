use crate::errors::SovereignError;
use crate::key::Key;
use crate::state::{Dimension, SovereignIdentity};
use vstd::prelude::*;

verus! {

/// What an update of the trading score works on.
#[derive(Clone, Copy, Debug, PartialEq, Eq)]
pub struct UpdateTradingScore {
    /// The caller, who must be the trading authority of the identity.
    pub authority: Key,
    pub identity: SovereignIdentity,
}

/// Why the update is refused, if it is.
pub open spec fn rejection(accounts: UpdateTradingScore, score: u16) -> Option<SovereignError> {
    accounts.identity.update_rejection(Dimension::Trading, accounts.authority, score)
}

/// The accounts after the update at time `now`.
pub open spec fn effect(accounts: UpdateTradingScore, score: u16, now: i64) -> UpdateTradingScore {
    UpdateTradingScore {
        identity: accounts.identity.updated(Dimension::Trading, score, now),
        ..accounts
    }
}

/// Writes the trading score of an identity, as its trading authority. The
/// composite score and the tier are recomputed in the same step. Nothing
/// changes if the caller is not the authority or the score is off the scale.
pub fn handler(accounts: &mut UpdateTradingScore, score: u16, now: i64) -> (result: Result<
    (),
    SovereignError,
>)
    ensures
        match result {
            Ok(()) => {
                &&& rejection(*old(accounts), score) is None
                &&& *final(accounts) == effect(*old(accounts), score, now)
                &&& final(accounts).identity.trading_score == score
            },
            Err(error) => {
                &&& rejection(*old(accounts), score) == Some(error)
                &&& *final(accounts) == *old(accounts)
            },
        },
        old(accounts).identity.well_formed() ==> final(accounts).identity.well_formed(),
{
    let authority = accounts.authority;
    accounts.identity.update_score(Dimension::Trading, &authority, score, now)
}

} // verus!
