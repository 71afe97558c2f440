use crate::errors::SovereignError;
use crate::key::Key;
use crate::state::{Dimension, SovereignIdentity};
use vstd::prelude::*;

verus! {

/// What an update of the creator score works on.
#[derive(Clone, Copy, Debug, PartialEq, Eq)]
pub struct UpdateCreatorScore {
    /// The caller, who must be the creator authority of the identity.
    pub authority: Key,
    pub identity: SovereignIdentity,
}

/// Why the update is refused, if it is.
pub open spec fn rejection(accounts: UpdateCreatorScore, score: u16) -> Option<SovereignError> {
    accounts.identity.update_rejection(Dimension::Creator, accounts.authority, score)
}

/// The accounts after the update at time `now`.
pub open spec fn effect(accounts: UpdateCreatorScore, score: u16, now: i64) -> UpdateCreatorScore {
    UpdateCreatorScore {
        identity: accounts.identity.updated(Dimension::Creator, score, now),
        ..accounts
    }
}

/// Writes the creator score of an identity, as its creator authority. The
/// composite score and the tier are recomputed in the same step. Nothing
/// changes if the caller is not the authority or the score is off the scale.
///
/// The creator score is the one that the governance of the collectives
/// stands behind: its authority is whoever speaks for them.
pub fn handler(accounts: &mut UpdateCreatorScore, score: u16, now: i64) -> (result: Result<
    (),
    SovereignError,
>)
    ensures
        match result {
            Ok(()) => {
                &&& rejection(*old(accounts), score) is None
                &&& *final(accounts) == effect(*old(accounts), score, now)
                &&& final(accounts).identity.creator_score == score
            },
            Err(error) => {
                &&& rejection(*old(accounts), score) == Some(error)
                &&& *final(accounts) == *old(accounts)
            },
        },
        old(accounts).identity.well_formed() ==> final(accounts).identity.well_formed(),
{
    let authority = accounts.authority;
    accounts.identity.update_score(Dimension::Creator, &authority, score, now)
}

} // verus!
