use crate::buffer::{fixed_bytes, null_padded};
use crate::key::Key;
use crate::state::creator_dao::{ContentType, CreatorDAO, MIN_VOTING_PERIOD};
use vstd::prelude::*;
use vstd::utf8::encode_utf8;

verus! {

/// Why a governance operation was rejected.
#[derive(Clone, Copy, Debug, PartialEq, Eq, Structural)]
pub enum CreatorDAOError {
    /// The admission threshold is not a percentage from 1 to 100.
    InvalidThreshold,
    /// The quorum is not a percentage from 1 to 100.
    InvalidQuorum,
    /// The voting period is under a day.
    VotingPeriodTooShort,
    /// The collective is at the size where the founder can add no more.
    MaxMembersReached,
    /// The caller is not the founder.
    NotFounder,
    /// The caller is not an active member of the collective.
    NotMember,
    /// The wallet already has a membership in the collective.
    AlreadyMember,
    /// The nomination is not open for voting.
    NominationNotOpen,
    /// The voter already has a vote on the nomination.
    AlreadyVoted,
    /// The vote is still running.
    VotingNotEnded,
    /// The vote is over.
    VotingEnded,
    /// The nomination was resolved before.
    AlreadyResolved,
    /// Too few members voted.
    QuorumNotReached,
    /// The collective is not active.
    DAONotActive,
    /// The creator has no identity.
    NoSovereignIdentity,
    /// The collective has its full backlog of unresolved nominations.
    MaxPendingNominations,
    /// A record that was passed does not belong to the others: it names another collective, wallet or identity.
    RecordMismatch,
}

impl CreatorDAOError {
    /// The text of the message for this error.
    pub open spec fn message_text(self) -> Seq<char> {
        match self {
            CreatorDAOError::InvalidThreshold => "Admission threshold must be between 1 and 100"@,
            CreatorDAOError::InvalidQuorum => "Quorum must be between 1 and 100"@,
            CreatorDAOError::VotingPeriodTooShort => "Voting period must be at least 1 day (86400 seconds)"@,
            CreatorDAOError::MaxMembersReached => "DAO has reached maximum members, consider splitting"@,
            CreatorDAOError::NotFounder => "Only the founder can add initial members"@,
            CreatorDAOError::NotMember => "Only DAO members can nominate"@,
            CreatorDAOError::AlreadyMember => "Already a member of this DAO"@,
            CreatorDAOError::NominationNotOpen => "Nomination is not open for voting"@,
            CreatorDAOError::AlreadyVoted => "Already voted on this nomination"@,
            CreatorDAOError::VotingNotEnded => "Voting period has not ended"@,
            CreatorDAOError::VotingEnded => "Voting period has ended"@,
            CreatorDAOError::AlreadyResolved => "Nomination already resolved"@,
            CreatorDAOError::QuorumNotReached => "Quorum not reached"@,
            CreatorDAOError::DAONotActive => "DAO is not active"@,
            CreatorDAOError::NoSovereignIdentity => "Creator must have a SOVEREIGN identity"@,
            CreatorDAOError::MaxPendingNominations => "Maximum pending nominations reached"@,
            CreatorDAOError::RecordMismatch => "A record does not belong to the others it was passed with"@,
        }
    }

    /// The message shown to a caller for this error.
    pub fn message(&self) -> (text: &'static str)
        ensures
            text@ == self.message_text(),
    {
        match self {
            CreatorDAOError::InvalidThreshold => "Admission threshold must be between 1 and 100",
            CreatorDAOError::InvalidQuorum => "Quorum must be between 1 and 100",
            CreatorDAOError::VotingPeriodTooShort => "Voting period must be at least 1 day (86400 seconds)",
            CreatorDAOError::MaxMembersReached => "DAO has reached maximum members, consider splitting",
            CreatorDAOError::NotFounder => "Only the founder can add initial members",
            CreatorDAOError::NotMember => "Only DAO members can nominate",
            CreatorDAOError::AlreadyMember => "Already a member of this DAO",
            CreatorDAOError::NominationNotOpen => "Nomination is not open for voting",
            CreatorDAOError::AlreadyVoted => "Already voted on this nomination",
            CreatorDAOError::VotingNotEnded => "Voting period has not ended",
            CreatorDAOError::VotingEnded => "Voting period has ended",
            CreatorDAOError::AlreadyResolved => "Nomination already resolved",
            CreatorDAOError::QuorumNotReached => "Quorum not reached",
            CreatorDAOError::DAONotActive => "DAO is not active",
            CreatorDAOError::NoSovereignIdentity => "Creator must have a SOVEREIGN identity",
            CreatorDAOError::MaxPendingNominations => "Maximum pending nominations reached",
            CreatorDAOError::RecordMismatch => "A record does not belong to the others it was passed with",
        }
    }
}

/// What the founder chooses for a new collective.
#[derive(Debug, PartialEq, Eq)]
pub struct CreateDAOParams {
    pub name: String,
    pub description: String,
    pub content_type: ContentType,
    pub style_tag: String,
    /// 0 is global.
    pub region_code: u16,
    pub admission_threshold: u8,
    pub voting_period: i64,
    pub quorum: u8,
}

/// The counter that hands out the ids of collectives.
#[derive(Clone, Copy, Debug, PartialEq, Eq)]
pub struct DAOCounter {
    /// The id the next collective gets.
    pub count: u64,
    pub bump: u8,
}

impl DAOCounter {
    /// Width of the stored record in bytes.
    pub const SIZE: usize = 8 + 8 + 1;
}

/// What the creation of a collective works on.
#[derive(Clone, Copy, Debug, PartialEq, Eq)]
pub struct CreateDAO {
    /// The caller, who becomes the founder.
    pub founder: Key,
    pub dao_counter: DAOCounter,
    /// Bump of the address the new record is stored at.
    pub bump: u8,
}

/// The first fault of the parameters, if they have one: threshold, then
/// quorum, then voting period.
pub open spec fn rejection(params: CreateDAOParams) -> Option<CreatorDAOError> {
    if !(1 <= params.admission_threshold <= 100) {
        Some(CreatorDAOError::InvalidThreshold)
    } else if !(1 <= params.quorum <= 100) {
        Some(CreatorDAOError::InvalidQuorum)
    } else if params.voting_period < MIN_VOTING_PERIOD {
        Some(CreatorDAOError::VotingPeriodTooShort)
    } else {
        None
    }
}

/// The counter can take one more step, where it has to.
pub open spec fn within_limits(accounts: CreateDAO, params: CreateDAOParams) -> bool {
    rejection(params) is None ==> accounts.dao_counter.count < u64::MAX
}

/// `dao` is the collective that `founder` creates with `params` at time
/// `now` under the id `dao_id`: active, without members, nominations or
/// history.
pub open spec fn is_new_dao(
    dao: CreatorDAO,
    founder: Key,
    dao_id: u64,
    bump: u8,
    params: CreateDAOParams,
    now: i64,
) -> bool {
    &&& dao.dao_id == dao_id
    &&& dao.name@ == null_padded(encode_utf8(params.name@), 32)
    &&& dao.description@ == null_padded(encode_utf8(params.description@), 128)
    &&& dao.content_type == params.content_type
    &&& dao.style_tag@ == null_padded(encode_utf8(params.style_tag@), 32)
    &&& dao.region_code == params.region_code
    &&& dao.member_count == 0
    &&& dao.founder == founder
    &&& dao.created_at == now
    &&& dao.admission_threshold == params.admission_threshold
    &&& dao.voting_period == params.voting_period
    &&& dao.quorum == params.quorum
    &&& dao.pending_nominations == 0
    &&& dao.total_admitted == 0
    &&& dao.total_removed == 0
    &&& dao.is_active
    &&& dao.nomination_nonce == 0
    &&& dao.parent_dao is None
    &&& dao.split_count == 0
    &&& dao.bump == bump
}

/// The accounts after a creation: the counter has moved on by one.
pub open spec fn after_creation(accounts: CreateDAO) -> CreateDAO {
    CreateDAO {
        dao_counter: DAOCounter {
            count: (accounts.dao_counter.count + 1) as u64,
            ..accounts.dao_counter
        },
        ..accounts
    }
}

/// Whether the limits hold under which `handler` may be called.
pub fn check_limits(accounts: &CreateDAO, params: &CreateDAOParams) -> (ok: bool)
    ensures
        ok == within_limits(*accounts, *params),
{
    if !(1 <= params.admission_threshold && params.admission_threshold <= 100) {
        return true;
    }
    if !(1 <= params.quorum && params.quorum <= 100) {
        return true;
    }
    if params.voting_period < MIN_VOTING_PERIOD {
        return true;
    }
    accounts.dao_counter.count < u64::MAX
}

/// Creates a collective. The parameters are checked first, and nothing
/// changes if one is out of range. On success the new collective has the
/// counter's id and is well formed, and the counter has moved on, so that no
/// two collectives ever share an id.
pub fn handler(accounts: &mut CreateDAO, params: CreateDAOParams, now: i64) -> (result: Result<
    CreatorDAO,
    CreatorDAOError,
>)
    requires
        within_limits(*old(accounts), params),
    ensures
        match result {
            Ok(dao) => {
                &&& rejection(params) is None
                &&& is_new_dao(
                    dao,
                    old(accounts).founder,
                    old(accounts).dao_counter.count,
                    old(accounts).bump,
                    params,
                    now,
                )
                &&& dao.well_formed()
                &&& *final(accounts) == after_creation(*old(accounts))
            },
            Err(error) => {
                &&& rejection(params) == Some(error)
                &&& *final(accounts) == *old(accounts)
            },
        },
{
    if !(params.admission_threshold > 0 && params.admission_threshold <= 100) {
        return Err(CreatorDAOError::InvalidThreshold);
    }
    if !(params.quorum > 0 && params.quorum <= 100) {
        return Err(CreatorDAOError::InvalidQuorum);
    }
    if !(params.voting_period >= MIN_VOTING_PERIOD) {
        return Err(CreatorDAOError::VotingPeriodTooShort);
    }
    let dao = CreatorDAO {
        dao_id: accounts.dao_counter.count,
        name: fixed_bytes::<32>(params.name.as_str().as_bytes()),
        description: fixed_bytes::<128>(params.description.as_str().as_bytes()),
        content_type: params.content_type,
        style_tag: fixed_bytes::<32>(params.style_tag.as_str().as_bytes()),
        region_code: params.region_code,
        member_count: 0,
        founder: accounts.founder,
        created_at: now,
        admission_threshold: params.admission_threshold,
        voting_period: params.voting_period,
        quorum: params.quorum,
        pending_nominations: 0,
        total_admitted: 0,
        total_removed: 0,
        is_active: true,
        nomination_nonce: 0,
        parent_dao: None,
        split_count: 0,
        bump: accounts.bump,
    };
    accounts.dao_counter.count += 1;
    Ok(dao)
}

} // verus!
