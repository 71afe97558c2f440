use crate::errors::SovereignError;
use crate::key::Key;
use crate::state::SovereignIdentity;
use vstd::prelude::*;

verus! {

/// What the creation of an identity works on.
#[derive(Clone, Copy, Debug, PartialEq, Eq)]
pub struct CreateIdentity {
    /// The caller, who will own the identity.
    pub owner: Key,
    /// The owner's identity, if there is one already.
    pub identity: Option<SovereignIdentity>,
    /// Bump of the address the identity is stored at.
    pub bump: u8,
}

/// Why the creation is refused, if it is: an owner has one identity.
pub open spec fn rejection(accounts: CreateIdentity) -> Option<SovereignError> {
    if accounts.identity is Some {
        Some(SovereignError::IdentityAlreadyExists)
    } else {
        None
    }
}

/// A fresh identity: the owner is the authority of the four dimensions that
/// an owner can hand on, the creator dimension has none, every score is zero
/// and the tier is the lowest.
pub open spec fn new_identity(owner: Key, bump: u8, now: i64) -> SovereignIdentity {
    SovereignIdentity {
        owner: owner,
        created_at: now,
        trading_authority: owner,
        civic_authority: owner,
        developer_authority: owner,
        infra_authority: owner,
        creator_authority: Key::zero_key(),
        trading_score: 0,
        civic_score: 0,
        developer_score: 0,
        infra_score: 0,
        creator_score: 0,
        composite_score: 0,
        tier: 1,
        last_updated: now,
        bump: bump,
    }
}

/// Creates the caller's identity. Nothing changes if there is one already.
pub fn handler(accounts: &mut CreateIdentity, now: i64) -> (result: Result<(), SovereignError>)
    ensures
        match result {
            Ok(()) => {
                &&& rejection(*old(accounts)) is None
                &&& *final(accounts) == (CreateIdentity {
                    identity: Some(new_identity(old(accounts).owner, old(accounts).bump, now)),
                    ..*old(accounts)
                })
                &&& final(accounts).identity->0.well_formed()
            },
            Err(error) => {
                &&& rejection(*old(accounts)) == Some(error)
                &&& *final(accounts) == *old(accounts)
            },
        },
{
    if accounts.identity.is_some() {
        return Err(SovereignError::IdentityAlreadyExists);
    }
    accounts.identity = Some(
        SovereignIdentity {
            owner: accounts.owner,
            created_at: now,
            trading_authority: accounts.owner,
            civic_authority: accounts.owner,
            developer_authority: accounts.owner,
            infra_authority: accounts.owner,
            creator_authority: Key::zero(),
            trading_score: 0,
            civic_score: 0,
            developer_score: 0,
            infra_score: 0,
            creator_score: 0,
            composite_score: 0,
            tier: 1,
            last_updated: now,
            bump: accounts.bump,
        },
    );
    Ok(())
}

} // verus!
