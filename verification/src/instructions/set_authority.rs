use crate::errors::SovereignError;
use crate::key::Key;
use crate::state::{Dimension, SovereignIdentity};
use vstd::prelude::*;

verus! {

/// What a change of authority works on.
#[derive(Clone, Copy, Debug, PartialEq, Eq)]
pub struct SetAuthority {
    /// The caller, who must own the identity.
    pub owner: Key,
    pub identity: SovereignIdentity,
}

/// Why the change is refused, if it is.
pub open spec fn rejection(accounts: SetAuthority, new_authority: Key) -> Option<SovereignError> {
    accounts.identity.authority_rejection(accounts.owner, new_authority)
}

/// The accounts after `dimension` was handed to `new_authority`.
pub open spec fn effect(accounts: SetAuthority, dimension: Dimension, new_authority: Key)
    -> SetAuthority {
    SetAuthority {
        identity: accounts.identity.with_authority(dimension, new_authority),
        ..accounts
    }
}

/// What every change of authority promises: on success the one authority is
/// replaced and nothing else; on refusal nothing changes.
pub open spec fn changes_authority(
    before: SetAuthority,
    after: SetAuthority,
    dimension: Dimension,
    new_authority: Key,
    result: Result<(), SovereignError>,
) -> bool {
    match result {
        Ok(()) => {
            &&& rejection(before, new_authority) is None
            &&& after == effect(before, dimension, new_authority)
        },
        Err(error) => {
            &&& rejection(before, new_authority) == Some(error)
            &&& after == before
        },
    }
}

/// Hands the trading dimension to a new authority.
pub fn set_trading_authority(accounts: &mut SetAuthority, new_authority: Key) -> (result: Result<
    (),
    SovereignError,
>)
    ensures
        changes_authority(
            *old(accounts),
            *final(accounts),
            Dimension::Trading,
            new_authority,
            result,
        ),
{
    let owner = accounts.owner;
    accounts.identity.transfer_authority(Dimension::Trading, &owner, new_authority)
}

/// Hands the civic dimension to a new authority.
pub fn set_civic_authority(accounts: &mut SetAuthority, new_authority: Key) -> (result: Result<
    (),
    SovereignError,
>)
    ensures
        changes_authority(
            *old(accounts),
            *final(accounts),
            Dimension::Civic,
            new_authority,
            result,
        ),
{
    let owner = accounts.owner;
    accounts.identity.transfer_authority(Dimension::Civic, &owner, new_authority)
}

/// Hands the developer dimension to a new authority.
pub fn set_developer_authority(accounts: &mut SetAuthority, new_authority: Key) -> (result:
    Result<(), SovereignError>)
    ensures
        changes_authority(
            *old(accounts),
            *final(accounts),
            Dimension::Developer,
            new_authority,
            result,
        ),
{
    let owner = accounts.owner;
    accounts.identity.transfer_authority(Dimension::Developer, &owner, new_authority)
}

/// Hands the infrastructure dimension to a new authority.
pub fn set_infra_authority(accounts: &mut SetAuthority, new_authority: Key) -> (result: Result<
    (),
    SovereignError,
>)
    ensures
        changes_authority(
            *old(accounts),
            *final(accounts),
            Dimension::Infra,
            new_authority,
            result,
        ),
{
    let owner = accounts.owner;
    accounts.identity.transfer_authority(Dimension::Infra, &owner, new_authority)
}

} // verus!
