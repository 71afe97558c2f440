use crate::instructions::creator_dao::create_dao::CreatorDAOError;
use crate::key::Key;
use crate::state::creator_dao::{CreatorDAO, DAOMembership, MAX_DAO_MEMBERS};
use vstd::prelude::*;

verus! {

/// What the founder's hand-picking of a member works on.
#[derive(Clone, Copy, Debug, PartialEq, Eq)]
pub struct AddFounderMember {
    /// The caller, who must be the founder of the collective.
    pub founder: Key,
    pub dao_key: Key,
    pub dao: CreatorDAO,
    pub member_identity: Key,
    pub member_wallet: Key,
    /// The wallet's membership in this collective, if it has one already.
    pub membership: Option<DAOMembership>,
    /// Bump of the address the membership is stored at.
    pub membership_bump: u8,
}

/// Why the addition is refused, if it is: only the founder adds members by
/// hand, only to an active collective below the size at which a split is
/// advised, and a wallet has one membership.
pub open spec fn rejection(accounts: AddFounderMember) -> Option<CreatorDAOError> {
    if accounts.dao.founder != accounts.founder {
        Some(CreatorDAOError::NotFounder)
    } else if !accounts.dao.is_active {
        Some(CreatorDAOError::DAONotActive)
    } else if accounts.dao.member_count >= MAX_DAO_MEMBERS {
        Some(CreatorDAOError::MaxMembersReached)
    } else if accounts.membership is Some {
        Some(CreatorDAOError::AlreadyMember)
    } else {
        None
    }
}

/// The membership of a hand-picked member: active from `now`, with no
/// nominator.
pub open spec fn founding_membership(accounts: AddFounderMember, now: i64) -> DAOMembership {
    DAOMembership {
        dao: accounts.dao_key,
        member_identity: accounts.member_identity,
        member_wallet: accounts.member_wallet,
        admitted_at: now,
        nominated_by: None,
        successful_nominations: 0,
        votes_cast: 0,
        is_active: true,
        bump: accounts.membership_bump,
    }
}

/// The accounts after the addition: the membership exists and the collective
/// counts one more member.
pub open spec fn effect(accounts: AddFounderMember, now: i64) -> AddFounderMember {
    AddFounderMember {
        dao: CreatorDAO { member_count: (accounts.dao.member_count + 1) as u16, ..accounts.dao },
        membership: Some(founding_membership(accounts, now)),
        ..accounts
    }
}

/// Adds a member to a collective without a vote, as its founder. Nothing
/// changes if the addition is refused.
pub fn handler(accounts: &mut AddFounderMember, now: i64) -> (result: Result<
    (),
    CreatorDAOError,
>)
    ensures
        match result {
            Ok(()) => {
                &&& rejection(*old(accounts)) is None
                &&& *final(accounts) == effect(*old(accounts), now)
                &&& final(accounts).dao.member_count == old(accounts).dao.member_count + 1
            },
            Err(error) => {
                &&& rejection(*old(accounts)) == Some(error)
                &&& *final(accounts) == *old(accounts)
            },
        },
        old(accounts).dao.well_formed() ==> final(accounts).dao.well_formed(),
{
    if accounts.dao.founder != accounts.founder {
        return Err(CreatorDAOError::NotFounder);
    }
    if !accounts.dao.is_active {
        return Err(CreatorDAOError::DAONotActive);
    }
    if !((accounts.dao.member_count as usize) < MAX_DAO_MEMBERS) {
        return Err(CreatorDAOError::MaxMembersReached);
    }
    if accounts.membership.is_some() {
        return Err(CreatorDAOError::AlreadyMember);
    }
    accounts.membership = Some(
        DAOMembership {
            dao: accounts.dao_key,
            member_identity: accounts.member_identity,
            member_wallet: accounts.member_wallet,
            admitted_at: now,
            nominated_by: None,
            successful_nominations: 0,
            votes_cast: 0,
            is_active: true,
            bump: accounts.membership_bump,
        },
    );
    accounts.dao.member_count += 1;
    Ok(())
}

} // verus!
