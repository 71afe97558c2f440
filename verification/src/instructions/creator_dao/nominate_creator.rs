use crate::buffer::{fixed_bytes, null_padded};
use crate::instructions::creator_dao::create_dao::CreatorDAOError;
use crate::key::Key;
use crate::state::creator_dao::{
    CreatorDAO, DAOMembership, Nomination, MAX_PENDING_NOMINATIONS,
};
use vstd::prelude::*;
use vstd::utf8::encode_utf8;

verus! {

/// What a nominator says for the nominee.
#[derive(Debug, PartialEq, Eq)]
pub struct NominateCreatorParams {
    /// Kept up to 256 bytes.
    pub reason: String,
}

/// What a nomination works on.
#[derive(Clone, Copy, Debug, PartialEq, Eq)]
pub struct NominateCreator {
    /// The caller, who must be an active member of the collective.
    pub nominator: Key,
    pub nominator_membership: DAOMembership,
    pub dao_key: Key,
    pub dao: CreatorDAO,
    pub nominee_identity: Key,
    pub nominee_wallet: Key,
    /// Bump of the address the nomination is stored at.
    pub nomination_bump: u8,
}

/// Why the nomination is refused, if it is: only an active member of an
/// active collective nominates, and only while the backlog has room.
pub open spec fn rejection(accounts: NominateCreator) -> Option<CreatorDAOError> {
    if !accounts.nominator_membership.admits(accounts.dao_key, accounts.nominator) {
        Some(CreatorDAOError::NotMember)
    } else if !accounts.dao.is_active {
        Some(CreatorDAOError::DAONotActive)
    } else if accounts.dao.pending_nominations >= MAX_PENDING_NOMINATIONS {
        Some(CreatorDAOError::MaxPendingNominations)
    } else {
        None
    }
}

/// The end of the vote is a time that can be written down, and the nonce can
/// take one more step.
pub open spec fn within_limits(accounts: NominateCreator, now: i64) -> bool {
    rejection(accounts) is None ==> {
        &&& i64::MIN <= now + accounts.dao.voting_period <= i64::MAX
        &&& accounts.dao.nomination_nonce < u64::MAX
    }
}

/// `nomination` is the one that the nominator makes at time `now`: it has the
/// collective's nonce as its id, the vote runs for the collective's voting
/// period, the tally is empty, and the membership is counted once and for
/// all.
pub open spec fn is_new_nomination(
    nomination: Nomination,
    accounts: NominateCreator,
    params: NominateCreatorParams,
    now: i64,
) -> bool {
    &&& nomination.dao == accounts.dao_key
    &&& nomination.nomination_id == accounts.dao.nomination_nonce
    &&& nomination.nominee_identity == accounts.nominee_identity
    &&& nomination.nominee_wallet == accounts.nominee_wallet
    &&& nomination.nominator == accounts.nominator
    &&& nomination.reason@ == null_padded(encode_utf8(params.reason@), 256)
    &&& nomination.created_at == now
    &&& nomination.voting_ends_at == now + accounts.dao.voting_period
    &&& nomination.votes_accept == 0
    &&& nomination.votes_reject == 0
    &&& nomination.votes_abstain == 0
    &&& nomination.total_members_snapshot == accounts.dao.member_count
    &&& !nomination.is_resolved
    &&& !nomination.was_accepted
    &&& nomination.resolved_at is None
    &&& nomination.bump == accounts.nomination_bump
}

/// The accounts after the nomination: the collective has moved its nonce on
/// and counts one more nomination in its backlog.
pub open spec fn effect(accounts: NominateCreator) -> NominateCreator {
    NominateCreator {
        dao: CreatorDAO {
            nomination_nonce: (accounts.dao.nomination_nonce + 1) as u64,
            pending_nominations: (accounts.dao.pending_nominations + 1) as u8,
            ..accounts.dao
        },
        ..accounts
    }
}

/// Whether the limits hold under which `handler` may be called.
pub fn check_limits(accounts: &NominateCreator, now: i64) -> (ok: bool)
    ensures
        ok == within_limits(*accounts, now),
{
    if !accounts.nominator_membership.is_member_of(&accounts.dao_key, &accounts.nominator) {
        return true;
    }
    if !accounts.dao.is_active {
        return true;
    }
    if accounts.dao.pending_nominations as usize >= MAX_PENDING_NOMINATIONS {
        return true;
    }
    now.checked_add(accounts.dao.voting_period).is_some() && accounts.dao.nomination_nonce
        < u64::MAX
}

/// Nominates a creator for admission and so opens the vote. Nothing changes
/// if the nomination is refused.
pub fn handler(accounts: &mut NominateCreator, params: NominateCreatorParams, now: i64) -> (result:
    Result<Nomination, CreatorDAOError>)
    requires
        within_limits(*old(accounts), now),
    ensures
        match result {
            Ok(nomination) => {
                &&& rejection(*old(accounts)) is None
                &&& is_new_nomination(nomination, *old(accounts), params, now)
                &&& nomination.total_votes() == 0
                &&& *final(accounts) == effect(*old(accounts))
            },
            Err(error) => {
                &&& rejection(*old(accounts)) == Some(error)
                &&& *final(accounts) == *old(accounts)
            },
        },
        old(accounts).dao.well_formed() ==> final(accounts).dao.well_formed(),
{
    if !accounts.nominator_membership.is_member_of(&accounts.dao_key, &accounts.nominator) {
        return Err(CreatorDAOError::NotMember);
    }
    if !accounts.dao.is_active {
        return Err(CreatorDAOError::DAONotActive);
    }
    if !((accounts.dao.pending_nominations as usize) < MAX_PENDING_NOMINATIONS) {
        return Err(CreatorDAOError::MaxPendingNominations);
    }
    let nomination = Nomination {
        dao: accounts.dao_key,
        nomination_id: accounts.dao.nomination_nonce,
        nominee_identity: accounts.nominee_identity,
        nominee_wallet: accounts.nominee_wallet,
        nominator: accounts.nominator,
        reason: fixed_bytes::<256>(params.reason.as_str().as_bytes()),
        created_at: now,
        voting_ends_at: now + accounts.dao.voting_period,
        votes_accept: 0,
        votes_reject: 0,
        votes_abstain: 0,
        total_members_snapshot: accounts.dao.member_count,
        is_resolved: false,
        was_accepted: false,
        resolved_at: None,
        bump: accounts.nomination_bump,
    };
    accounts.dao.nomination_nonce += 1;
    accounts.dao.pending_nominations += 1;
    Ok(nomination)
}

} // verus!
