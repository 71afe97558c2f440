use crate::instructions::creator_dao::create_dao::CreatorDAOError;
use crate::key::Key;
use crate::state::creator_dao::{CreatorDAO, DAOMembership, Nomination, VoteChoice, VoteRecord};
use vstd::bytes::{spec_u64_to_le_bytes, u64_to_le_bytes};
use vstd::prelude::*;

verus! {

/// What a vote works on: the voter's membership, the collective, the
/// nomination, and the place for the record of this voter's vote on it.
#[derive(Clone, Copy, Debug, PartialEq, Eq)]
pub struct CastVote {
    /// The caller, who must be an active member of the collective.
    pub voter: Key,
    pub voter_membership: DAOMembership,
    pub dao_key: Key,
    pub dao: CreatorDAO,
    pub nomination_key: Key,
    pub nomination: Nomination,
    /// The record of this voter's vote on this nomination, if the voter has
    /// voted. That it exists is what keeps a voter to one vote.
    pub vote_record: Option<VoteRecord>,
    /// Bump of the address the vote record is stored at.
    pub vote_record_bump: u8,
}

/// The Keccak-256 digest of a list of byte strings taken in order.
pub uninterp spec fn keccak_hashv(parts: Seq<Seq<u8>>) -> Seq<u8>;

/// Calls `anchor_lang::solana_program::keccak::hashv` on the three byte
/// strings in this order and hands back the 32 bytes of the digest. The
/// digest depends on the bytes alone: that is all that is claimed of it.
#[verifier::external_body]
fn keccak_of_three(first: &[u8], second: &[u8], third: &[u8]) -> (digest: [u8; 32])
    ensures
        digest@ == keccak_hashv(seq![first@, second@, third@]),
{
    anchor_lang::solana_program::keccak::hashv(&[first, second, third]).to_bytes()
}

/// The commitment that stands for a voter in a vote record: the digest of
/// the voter's key, the nomination's id in eight little-endian bytes, and the
/// voter's salt.
pub open spec fn commitment(voter: Key, nomination_id: u64, salt: Seq<u8>) -> Seq<u8> {
    keccak_hashv(seq![voter@, spec_u64_to_le_bytes(nomination_id), salt])
}

/// Computes the commitment of a voter to a nomination under a salt.
pub fn voter_commitment(voter: &Key, nomination_id: u64, salt: &[u8; 32]) -> (hash: [u8; 32])
    ensures
        hash@ == commitment(*voter, nomination_id, salt@),
{
    let id_bytes = u64_to_le_bytes(nomination_id);
    keccak_of_three(voter.bytes.as_slice(), id_bytes.as_slice(), salt.as_slice())
}

/// Why the vote is refused, if it is: only an active member of an active
/// collective votes, on a nomination of that collective that is not
/// resolved, once, and before the vote ends.
pub open spec fn rejection(accounts: CastVote, now: i64) -> Option<CreatorDAOError> {
    if !accounts.voter_membership.admits(accounts.dao_key, accounts.voter) {
        Some(CreatorDAOError::NotMember)
    } else if !accounts.dao.is_active {
        Some(CreatorDAOError::DAONotActive)
    } else if accounts.nomination.dao != accounts.dao_key {
        Some(CreatorDAOError::RecordMismatch)
    } else if accounts.nomination.is_resolved {
        Some(CreatorDAOError::AlreadyResolved)
    } else if accounts.vote_record is Some {
        Some(CreatorDAOError::AlreadyVoted)
    } else if now > accounts.nomination.voting_ends_at {
        Some(CreatorDAOError::VotingEnded)
    } else {
        None
    }
}

/// The tally that a vote of the given choice adds to.
pub open spec fn tally_of(nomination: Nomination, vote: VoteChoice) -> u16 {
    match vote {
        VoteChoice::Accept => nomination.votes_accept,
        VoteChoice::Reject => nomination.votes_reject,
        VoteChoice::Abstain => nomination.votes_abstain,
    }
}

/// The tally of the choice and the voter's own count can take one more vote.
pub open spec fn within_limits(accounts: CastVote, vote: VoteChoice, now: i64) -> bool {
    rejection(accounts, now) is None ==> {
        &&& tally_of(accounts.nomination, vote) < u16::MAX
        &&& accounts.voter_membership.votes_cast < u64::MAX
    }
}

/// The nomination with one more vote of the given choice.
pub open spec fn tallied(nomination: Nomination, vote: VoteChoice) -> Nomination {
    match vote {
        VoteChoice::Accept => Nomination {
            votes_accept: (nomination.votes_accept + 1) as u16,
            ..nomination
        },
        VoteChoice::Reject => Nomination {
            votes_reject: (nomination.votes_reject + 1) as u16,
            ..nomination
        },
        VoteChoice::Abstain => Nomination {
            votes_abstain: (nomination.votes_abstain + 1) as u16,
            ..nomination
        },
    }
}

/// All records after a vote at time `now` that is recorded under
/// `voter_hash`: the record exists, the tally of the choice and the voter's
/// count of votes are one higher.
pub open spec fn effect(accounts: CastVote, vote: VoteChoice, voter_hash: [u8; 32], now: i64)
    -> CastVote {
    CastVote {
        voter_membership: DAOMembership {
            votes_cast: (accounts.voter_membership.votes_cast + 1) as u64,
            ..accounts.voter_membership
        },
        nomination: tallied(accounts.nomination, vote),
        vote_record: Some(
            VoteRecord {
                nomination: accounts.nomination_key,
                voter_hash: voter_hash,
                vote: vote,
                voted_at: now,
                bump: accounts.vote_record_bump,
            },
        ),
        ..accounts
    }
}

/// A voter has one vote: once a vote went through, the record of it stands
/// against every further vote of the same voter on the same nomination.
pub proof fn lemma_one_vote_per_voter(
    accounts: CastVote,
    vote: VoteChoice,
    voter_hash: [u8; 32],
    now: i64,
    later: i64,
)
    requires
        rejection(accounts, now) is None,
    ensures
        rejection(effect(accounts, vote, voter_hash, now), later) == Some(
            CreatorDAOError::AlreadyVoted,
        ),
{
}

/// While a record of the voter's vote exists, no vote goes through.
pub proof fn lemma_record_blocks_vote(accounts: CastVote, now: i64)
    requires
        accounts.vote_record is Some,
    ensures
        rejection(accounts, now) is Some,
{
}

/// A vote that goes through adds exactly one vote to the tally, and leaves
/// the membership snapshot and the end of the vote as they were.
pub proof fn lemma_vote_counts_once(
    accounts: CastVote,
    vote: VoteChoice,
    voter_hash: [u8; 32],
    now: i64,
)
    requires
        rejection(accounts, now) is None,
        within_limits(accounts, vote, now),
    ensures
        ({
            let after = effect(accounts, vote, voter_hash, now).nomination;
            &&& after.total_votes() == accounts.nomination.total_votes() + 1
            &&& after.votes_accept >= accounts.nomination.votes_accept
            &&& after.votes_reject >= accounts.nomination.votes_reject
            &&& after.votes_abstain >= accounts.nomination.votes_abstain
            &&& after.total_members_snapshot == accounts.nomination.total_members_snapshot
            &&& after.voting_ends_at == accounts.nomination.voting_ends_at
        }),
{
}

/// Whether the limits hold under which `handler` and `record_vote` may be
/// called.
pub fn check_limits(accounts: &CastVote, vote: VoteChoice, now: i64) -> (ok: bool)
    ensures
        ok == within_limits(*accounts, vote, now),
{
    if !accounts.voter_membership.is_member_of(&accounts.dao_key, &accounts.voter)
        || !accounts.dao.is_active || accounts.nomination.dao != accounts.dao_key
        || accounts.nomination.is_resolved || accounts.vote_record.is_some() || now
        > accounts.nomination.voting_ends_at {
        return true;
    }
    let tally: u16 = match vote {
        VoteChoice::Accept => accounts.nomination.votes_accept,
        VoteChoice::Reject => accounts.nomination.votes_reject,
        VoteChoice::Abstain => accounts.nomination.votes_abstain,
    };
    tally < u16::MAX && accounts.voter_membership.votes_cast < u64::MAX
}

/// Records a vote under a commitment that the caller has computed. Nothing
/// changes if the vote is refused. On success the tally has grown by exactly
/// this one vote.
pub fn record_vote(accounts: &mut CastVote, vote: VoteChoice, voter_hash: [u8; 32], now: i64) -> (result:
    Result<(), CreatorDAOError>)
    requires
        within_limits(*old(accounts), vote, now),
    ensures
        match result {
            Ok(()) => {
                &&& rejection(*old(accounts), now) is None
                &&& *final(accounts) == effect(*old(accounts), vote, voter_hash, now)
                &&& final(accounts).nomination.total_votes() == old(accounts).nomination.total_votes()
                    + 1
            },
            Err(error) => {
                &&& rejection(*old(accounts), now) == Some(error)
                &&& *final(accounts) == *old(accounts)
            },
        },
{
    if !accounts.voter_membership.is_member_of(&accounts.dao_key, &accounts.voter) {
        return Err(CreatorDAOError::NotMember);
    }
    if !accounts.dao.is_active {
        return Err(CreatorDAOError::DAONotActive);
    }
    if accounts.nomination.dao != accounts.dao_key {
        return Err(CreatorDAOError::RecordMismatch);
    }
    if accounts.nomination.is_resolved {
        return Err(CreatorDAOError::AlreadyResolved);
    }
    if accounts.vote_record.is_some() {
        return Err(CreatorDAOError::AlreadyVoted);
    }
    if !(now <= accounts.nomination.voting_ends_at) {
        return Err(CreatorDAOError::VotingEnded);
    }
    accounts.vote_record = Some(
        VoteRecord {
            nomination: accounts.nomination_key,
            voter_hash: voter_hash,
            vote: vote,
            voted_at: now,
            bump: accounts.vote_record_bump,
        },
    );
    match vote {
        VoteChoice::Accept => {
            accounts.nomination.votes_accept += 1;
        },
        VoteChoice::Reject => {
            accounts.nomination.votes_reject += 1;
        },
        VoteChoice::Abstain => {
            accounts.nomination.votes_abstain += 1;
        },
    }
    accounts.voter_membership.votes_cast += 1;
    Ok(())
}

/// Casts a vote on a nomination. The record of the vote holds, in place of
/// the voter's key, the commitment of the voter to this nomination under
/// `salt`. Nothing changes if the vote is refused.
pub fn handler(accounts: &mut CastVote, vote: VoteChoice, salt: [u8; 32], now: i64) -> (result:
    Result<(), CreatorDAOError>)
    requires
        within_limits(*old(accounts), vote, now),
    ensures
        match result {
            Ok(()) => {
                &&& rejection(*old(accounts), now) is None
                &&& final(accounts).vote_record is Some
                &&& final(accounts).vote_record->0.voter_hash@ == commitment(
                    old(accounts).voter,
                    old(accounts).nomination.nomination_id,
                    salt@,
                )
                &&& *final(accounts) == effect(
                    *old(accounts),
                    vote,
                    final(accounts).vote_record->0.voter_hash,
                    now,
                )
                &&& final(accounts).nomination.total_votes() == old(accounts).nomination.total_votes()
                    + 1
            },
            Err(error) => {
                &&& rejection(*old(accounts), now) == Some(error)
                &&& *final(accounts) == *old(accounts)
            },
        },
{
    let voter_hash = voter_commitment(&accounts.voter, accounts.nomination.nomination_id, &salt);
    record_vote(accounts, vote, voter_hash, now)
}

} // verus!
