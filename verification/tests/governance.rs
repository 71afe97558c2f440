use sovereign::instructions::creator_dao::add_founder_member;
use sovereign::instructions::creator_dao::add_founder_member::AddFounderMember;
use sovereign::instructions::creator_dao::cast_vote;
use sovereign::instructions::creator_dao::cast_vote::CastVote;
use sovereign::instructions::creator_dao::create_dao;
use sovereign::instructions::creator_dao::create_dao::{
    CreateDAO, CreateDAOParams, CreatorDAOError, DAOCounter,
};
use sovereign::instructions::creator_dao::nominate_creator;
use sovereign::instructions::creator_dao::nominate_creator::{
    NominateCreator, NominateCreatorParams,
};
use sovereign::key::Key;
use sovereign::state::creator_dao::{
    ContentType, CreatorDAO, CreatorScoreDetails, DAOMembership, Nomination, VoteChoice,
    MAX_DAO_MEMBERS, MAX_PENDING_NOMINATIONS,
};

const DAY: i64 = 86400;
const NOW: i64 = 1_700_000_000;

fn key(tag: u8) -> Key {
    Key::new([tag; 32])
}

fn dao_params() -> CreateDAOParams {
    CreateDAOParams {
        name: String::from("Essayists"),
        description: String::from("Long essays, read slowly"),
        content_type: ContentType::LongFormWriting,
        style_tag: String::from("slow-web"),
        region_code: 0,
        admission_threshold: 70,
        voting_period: 7 * DAY,
        quorum: 50,
    }
}

fn dao(members: u16) -> CreatorDAO {
    let mut accounts =
        CreateDAO { founder: key(1), dao_counter: DAOCounter { count: 4, bump: 250 }, bump: 254 };
    let mut dao = create_dao::handler(&mut accounts, dao_params(), NOW).unwrap();
    dao.member_count = members;
    dao
}

fn membership(dao_key: Key, wallet: Key) -> DAOMembership {
    DAOMembership {
        dao: dao_key,
        member_identity: key(90),
        member_wallet: wallet,
        admitted_at: NOW,
        nominated_by: None,
        successful_nominations: 0,
        votes_cast: 0,
        is_active: true,
        bump: 253,
    }
}

fn nomination(snapshot: u16, accept: u16, reject: u16, abstain: u16) -> Nomination {
    Nomination {
        dao: key(10),
        nomination_id: 3,
        nominee_identity: key(20),
        nominee_wallet: key(21),
        nominator: key(2),
        reason: [0u8; 256],
        created_at: NOW,
        voting_ends_at: NOW + 7 * DAY,
        votes_accept: accept,
        votes_reject: reject,
        votes_abstain: abstain,
        total_members_snapshot: snapshot,
        is_resolved: false,
        was_accepted: false,
        resolved_at: None,
        bump: 252,
    }
}

fn vote_accounts() -> CastVote {
    CastVote {
        voter: key(2),
        voter_membership: membership(key(10), key(2)),
        dao_key: key(10),
        dao: dao(10),
        nomination_key: key(30),
        nomination: nomination(10, 0, 0, 0),
        vote_record: None,
        vote_record_bump: 251,
    }
}

#[test]
fn new_dao_takes_the_counters_id_and_moves_it_on() {
    let mut accounts =
        CreateDAO { founder: key(1), dao_counter: DAOCounter { count: 4, bump: 250 }, bump: 254 };
    let dao = create_dao::handler(&mut accounts, dao_params(), NOW).unwrap();
    assert_eq!(dao.dao_id, 4);
    assert_eq!(accounts.dao_counter.count, 5);
    assert_eq!(accounts.dao_counter.bump, 250);
    assert_eq!(dao.founder, key(1));
    assert_eq!(dao.created_at, NOW);
    assert_eq!(dao.member_count, 0);
    assert_eq!(dao.admission_threshold, 70);
    assert_eq!(dao.quorum, 50);
    assert_eq!(dao.voting_period, 7 * DAY);
    assert_eq!(dao.pending_nominations, 0);
    assert_eq!(dao.total_admitted, 0);
    assert_eq!(dao.total_removed, 0);
    assert!(dao.is_active);
    assert_eq!(dao.nomination_nonce, 0);
    assert_eq!(dao.parent_dao, None);
    assert_eq!(dao.split_count, 0);
    assert_eq!(dao.bump, 254);
    assert_eq!(dao.content_type, ContentType::LongFormWriting);

    let next = create_dao::handler(&mut accounts, dao_params(), NOW + 1).unwrap();
    assert_eq!(next.dao_id, 5);
    assert_eq!(accounts.dao_counter.count, 6);
}

#[test]
fn new_dao_holds_its_text_null_padded() {
    let dao = dao(0);
    let mut name = [0u8; 32];
    name[..9].copy_from_slice(b"Essayists");
    assert_eq!(dao.name, name);
    let mut style = [0u8; 32];
    style[..8].copy_from_slice(b"slow-web");
    assert_eq!(dao.style_tag, style);
    let mut description = [0u8; 128];
    description[..24].copy_from_slice(b"Long essays, read slowly");
    assert_eq!(dao.description, description);
}

#[test]
fn new_dao_cuts_text_that_does_not_fit() {
    let mut params = dao_params();
    params.name = String::from("0123456789012345678901234567890123456789");
    let mut accounts =
        CreateDAO { founder: key(1), dao_counter: DAOCounter { count: 0, bump: 0 }, bump: 0 };
    let dao = create_dao::handler(&mut accounts, params, NOW).unwrap();
    assert_eq!(&dao.name, b"01234567890123456789012345678901");
}

#[test]
fn new_dao_parameters_are_checked_in_order() {
    let cases: Vec<(u8, u8, i64, Option<CreatorDAOError>)> = vec![
        (0, 50, DAY, Some(CreatorDAOError::InvalidThreshold)),
        (101, 50, DAY, Some(CreatorDAOError::InvalidThreshold)),
        (0, 0, 0, Some(CreatorDAOError::InvalidThreshold)),
        (1, 0, DAY, Some(CreatorDAOError::InvalidQuorum)),
        (100, 101, DAY, Some(CreatorDAOError::InvalidQuorum)),
        (100, 101, 0, Some(CreatorDAOError::InvalidQuorum)),
        (1, 1, DAY - 1, Some(CreatorDAOError::VotingPeriodTooShort)),
        (1, 1, -5, Some(CreatorDAOError::VotingPeriodTooShort)),
        (1, 1, DAY, None),
        (100, 100, DAY, None),
    ];
    for (threshold, quorum, period, expected) in cases {
        let mut params = dao_params();
        params.admission_threshold = threshold;
        params.quorum = quorum;
        params.voting_period = period;
        let mut accounts =
            CreateDAO { founder: key(1), dao_counter: DAOCounter { count: 9, bump: 0 }, bump: 0 };
        assert!(create_dao::check_limits(&accounts, &params));
        let result = create_dao::handler(&mut accounts, params, NOW);
        match expected {
            Some(error) => {
                assert_eq!(result, Err(error));
                assert_eq!(accounts.dao_counter.count, 9);
            }
            None => {
                assert!(result.is_ok());
                assert_eq!(accounts.dao_counter.count, 10);
            }
        }
    }
}

#[test]
fn new_dao_needs_room_in_the_counter() {
    let accounts = CreateDAO {
        founder: key(1),
        dao_counter: DAOCounter { count: u64::MAX, bump: 0 },
        bump: 0,
    };
    assert!(!create_dao::check_limits(&accounts, &dao_params()));
    let mut refused = dao_params();
    refused.quorum = 0;
    assert!(create_dao::check_limits(&accounts, &refused));
}

#[test]
fn split_is_advised_from_two_hundred_members() {
    assert_eq!(MAX_DAO_MEMBERS, 200);
    assert!(!dao(0).should_consider_split());
    assert!(!dao(199).should_consider_split());
    assert!(dao(200).should_consider_split());
    assert!(dao(201).should_consider_split());
}

fn founder_accounts(members: u16) -> AddFounderMember {
    AddFounderMember {
        founder: key(1),
        dao_key: key(10),
        dao: dao(members),
        member_identity: key(40),
        member_wallet: key(41),
        membership: None,
        membership_bump: 249,
    }
}

#[test]
fn founder_adds_a_member_without_a_vote() {
    let mut accounts = founder_accounts(0);
    assert_eq!(add_founder_member::handler(&mut accounts, NOW + 5), Ok(()));
    assert_eq!(accounts.dao.member_count, 1);
    assert_eq!(
        accounts.membership,
        Some(DAOMembership {
            dao: key(10),
            member_identity: key(40),
            member_wallet: key(41),
            admitted_at: NOW + 5,
            nominated_by: None,
            successful_nominations: 0,
            votes_cast: 0,
            is_active: true,
            bump: 249,
        })
    );
}

#[test]
fn founder_add_is_refused_for_each_reason() {
    let mut not_founder = founder_accounts(3);
    not_founder.founder = key(2);
    let mut inactive = founder_accounts(3);
    inactive.dao.is_active = false;
    let full = founder_accounts(200);
    let mut member_already = founder_accounts(3);
    member_already.membership = Some(membership(key(10), key(41)));
    let mut not_founder_and_full = founder_accounts(200);
    not_founder_and_full.founder = key(2);

    let cases = vec![
        (not_founder, CreatorDAOError::NotFounder),
        (inactive, CreatorDAOError::DAONotActive),
        (full, CreatorDAOError::MaxMembersReached),
        (member_already, CreatorDAOError::AlreadyMember),
        (not_founder_and_full, CreatorDAOError::NotFounder),
    ];
    for (accounts, error) in cases {
        let mut after = accounts;
        assert_eq!(add_founder_member::handler(&mut after, NOW), Err(error));
        assert_eq!(after, accounts);
    }
}

#[test]
fn founder_can_fill_the_collective_up_to_the_cap() {
    let mut accounts = founder_accounts(199);
    assert_eq!(add_founder_member::handler(&mut accounts, NOW), Ok(()));
    assert_eq!(accounts.dao.member_count, 200);
    accounts.membership = None;
    assert_eq!(
        add_founder_member::handler(&mut accounts, NOW),
        Err(CreatorDAOError::MaxMembersReached)
    );
}

fn nominate_accounts() -> NominateCreator {
    NominateCreator {
        nominator: key(2),
        nominator_membership: membership(key(10), key(2)),
        dao_key: key(10),
        dao: dao(12),
        nominee_identity: key(20),
        nominee_wallet: key(21),
        nomination_bump: 248,
    }
}

#[test]
fn nomination_opens_a_vote_and_snapshots_the_membership() {
    let mut accounts = nominate_accounts();
    accounts.dao.nomination_nonce = 7;
    accounts.dao.pending_nominations = 2;
    let params = NominateCreatorParams { reason: String::from("writes well") };
    assert!(nominate_creator::check_limits(&accounts, NOW));
    let nomination = nominate_creator::handler(&mut accounts, params, NOW).unwrap();
    let mut reason = [0u8; 256];
    reason[..11].copy_from_slice(b"writes well");
    assert_eq!(
        nomination,
        Nomination {
            dao: key(10),
            nomination_id: 7,
            nominee_identity: key(20),
            nominee_wallet: key(21),
            nominator: key(2),
            reason,
            created_at: NOW,
            voting_ends_at: NOW + 7 * DAY,
            votes_accept: 0,
            votes_reject: 0,
            votes_abstain: 0,
            total_members_snapshot: 12,
            is_resolved: false,
            was_accepted: false,
            resolved_at: None,
            bump: 248,
        }
    );
    assert_eq!(accounts.dao.nomination_nonce, 8);
    assert_eq!(accounts.dao.pending_nominations, 3);
    assert_eq!(accounts.dao.member_count, 12);
}

#[test]
fn nomination_ids_are_never_reused() {
    let mut accounts = nominate_accounts();
    let first = nominate_creator::handler(
        &mut accounts,
        NominateCreatorParams { reason: String::new() },
        NOW,
    )
    .unwrap();
    let second = nominate_creator::handler(
        &mut accounts,
        NominateCreatorParams { reason: String::new() },
        NOW,
    )
    .unwrap();
    assert_eq!(first.nomination_id, 0);
    assert_eq!(second.nomination_id, 1);
}

#[test]
fn nomination_is_refused_for_each_reason() {
    let mut other_dao = nominate_accounts();
    other_dao.nominator_membership.dao = key(11);
    let mut other_wallet = nominate_accounts();
    other_wallet.nominator_membership.member_wallet = key(3);
    let mut lapsed = nominate_accounts();
    lapsed.nominator_membership.is_active = false;
    let mut inactive = nominate_accounts();
    inactive.dao.is_active = false;
    let mut backlog = nominate_accounts();
    backlog.dao.pending_nominations = 20;

    let cases = vec![
        (other_dao, CreatorDAOError::NotMember),
        (other_wallet, CreatorDAOError::NotMember),
        (lapsed, CreatorDAOError::NotMember),
        (inactive, CreatorDAOError::DAONotActive),
        (backlog, CreatorDAOError::MaxPendingNominations),
    ];
    for (accounts, error) in cases {
        let mut after = accounts;
        let result = nominate_creator::handler(
            &mut after,
            NominateCreatorParams { reason: String::from("x") },
            NOW,
        );
        assert_eq!(result, Err(error));
        assert_eq!(after, accounts);
    }
}

#[test]
fn backlog_has_room_for_twenty_nominations() {
    assert_eq!(MAX_PENDING_NOMINATIONS, 20);
    let mut accounts = nominate_accounts();
    accounts.dao.pending_nominations = 19;
    let result = nominate_creator::handler(
        &mut accounts,
        NominateCreatorParams { reason: String::new() },
        NOW,
    );
    assert!(result.is_ok());
    assert_eq!(accounts.dao.pending_nominations, 20);
}

#[test]
fn nomination_needs_a_vote_end_that_can_be_written() {
    let accounts = nominate_accounts();
    assert!(!nominate_creator::check_limits(&accounts, i64::MAX - DAY));
    assert!(nominate_creator::check_limits(&accounts, i64::MAX - 7 * DAY));
    let mut spent = nominate_accounts();
    spent.dao.nomination_nonce = u64::MAX;
    assert!(!nominate_creator::check_limits(&spent, NOW));
}

#[test]
fn vote_adds_one_to_the_tally_of_its_choice() {
    for (choice, expected) in [
        (VoteChoice::Accept, (1u16, 0u16, 0u16)),
        (VoteChoice::Reject, (0, 1, 0)),
        (VoteChoice::Abstain, (0, 0, 1)),
    ] {
        let mut accounts = vote_accounts();
        assert!(cast_vote::check_limits(&accounts, choice, NOW));
        assert_eq!(cast_vote::handler(&mut accounts, choice, [9u8; 32], NOW + 60), Ok(()));
        let tally = (
            accounts.nomination.votes_accept,
            accounts.nomination.votes_reject,
            accounts.nomination.votes_abstain,
        );
        assert_eq!(tally, expected);
        assert_eq!(accounts.voter_membership.votes_cast, 1);
        let record = accounts.vote_record.unwrap();
        assert_eq!(record.nomination, key(30));
        assert_eq!(record.vote, choice);
        assert_eq!(record.voted_at, NOW + 60);
        assert_eq!(record.bump, 251);
    }
}

#[test]
fn vote_record_holds_the_keccak_commitment_of_the_voter() {
    let mut accounts = vote_accounts();
    accounts.nomination.nomination_id = 0x0102_0304_0506_0708;
    let salt = [9u8; 32];
    assert_eq!(cast_vote::handler(&mut accounts, VoteChoice::Accept, salt, NOW), Ok(()));
    let record = accounts.vote_record.unwrap();
    let id_bytes = [8u8, 7, 6, 5, 4, 3, 2, 1];
    let expected =
        anchor_lang::solana_program::keccak::hashv(&[&[2u8; 32], &id_bytes, &salt]).to_bytes();
    assert_eq!(record.voter_hash, expected);
    assert_ne!(record.voter_hash, salt);
    assert_ne!(record.voter_hash, [2u8; 32]);
    assert_eq!(
        cast_vote::voter_commitment(&key(2), 0x0102_0304_0506_0708, &salt),
        expected
    );
}

#[test]
fn commitment_depends_on_voter_nomination_and_salt() {
    let base = cast_vote::voter_commitment(&key(2), 5, &[9u8; 32]);
    assert_eq!(base, cast_vote::voter_commitment(&key(2), 5, &[9u8; 32]));
    assert_ne!(base, cast_vote::voter_commitment(&key(3), 5, &[9u8; 32]));
    assert_ne!(base, cast_vote::voter_commitment(&key(2), 6, &[9u8; 32]));
    assert_ne!(base, cast_vote::voter_commitment(&key(2), 5, &[8u8; 32]));
}

#[test]
fn keccak_of_known_input_matches_the_published_digest() {
    let empty =
        anchor_lang::solana_program::keccak::hashv(&[&[0u8; 0], &[0u8; 0], &[0u8; 0]]).to_bytes();
    let published: [u8; 32] = [
        0xc5, 0xd2, 0x46, 0x01, 0x86, 0xf7, 0x23, 0x3c, 0x92, 0x7e, 0x7d, 0xb2, 0xdc, 0xc7, 0x03,
        0xc0, 0xe5, 0x00, 0xb6, 0x53, 0xca, 0x82, 0x27, 0x3b, 0x7b, 0xfa, 0xd8, 0x04, 0x5d, 0x85,
        0xa4, 0x70,
    ];
    assert_eq!(empty, published);
}

#[test]
fn second_vote_of_a_voter_is_refused_and_changes_nothing() {
    let mut accounts = vote_accounts();
    assert_eq!(cast_vote::handler(&mut accounts, VoteChoice::Accept, [9u8; 32], NOW), Ok(()));
    let after_first = accounts;
    for choice in [VoteChoice::Accept, VoteChoice::Reject, VoteChoice::Abstain] {
        assert!(cast_vote::check_limits(&accounts, choice, NOW + 1));
        assert_eq!(
            cast_vote::handler(&mut accounts, choice, [7u8; 32], NOW + 1),
            Err(CreatorDAOError::AlreadyVoted)
        );
        assert_eq!(accounts, after_first);
    }
    assert_eq!(accounts.nomination.votes_accept, 1);
}

#[test]
fn tally_only_grows_over_a_series_of_votes() {
    let mut nomination = nomination(10, 0, 0, 0);
    let mut seen = 0u32;
    let choices = [
        VoteChoice::Accept,
        VoteChoice::Abstain,
        VoteChoice::Reject,
        VoteChoice::Accept,
        VoteChoice::Accept,
    ];
    for (i, choice) in choices.iter().enumerate() {
        let voter = key(50 + i as u8);
        let mut accounts = vote_accounts();
        accounts.voter = voter;
        accounts.voter_membership = membership(key(10), voter);
        accounts.nomination = nomination;
        assert_eq!(cast_vote::handler(&mut accounts, *choice, [i as u8; 32], NOW), Ok(()));
        nomination = accounts.nomination;
        let total = nomination.votes_accept as u32
            + nomination.votes_reject as u32
            + nomination.votes_abstain as u32;
        assert_eq!(total, seen + 1);
        seen = total;
    }
    assert_eq!(
        (nomination.votes_accept, nomination.votes_reject, nomination.votes_abstain),
        (3, 1, 1)
    );
}

#[test]
fn vote_is_refused_for_each_reason() {
    let mut other_dao = vote_accounts();
    other_dao.voter_membership.dao = key(11);
    let mut other_wallet = vote_accounts();
    other_wallet.voter_membership.member_wallet = key(3);
    let mut lapsed = vote_accounts();
    lapsed.voter_membership.is_active = false;
    let mut inactive = vote_accounts();
    inactive.dao.is_active = false;
    let mut foreign = vote_accounts();
    foreign.nomination.dao = key(11);
    let mut resolved = vote_accounts();
    resolved.nomination.is_resolved = true;
    let mut late = vote_accounts();
    late.nomination.voting_ends_at = NOW - 1;
    let mut resolved_and_late = vote_accounts();
    resolved_and_late.nomination.is_resolved = true;
    resolved_and_late.nomination.voting_ends_at = NOW - 1;

    let cases = vec![
        (other_dao, CreatorDAOError::NotMember),
        (other_wallet, CreatorDAOError::NotMember),
        (lapsed, CreatorDAOError::NotMember),
        (inactive, CreatorDAOError::DAONotActive),
        (foreign, CreatorDAOError::RecordMismatch),
        (resolved, CreatorDAOError::AlreadyResolved),
        (late, CreatorDAOError::VotingEnded),
        (resolved_and_late, CreatorDAOError::AlreadyResolved),
    ];
    for (accounts, error) in cases {
        let mut after = accounts;
        assert_eq!(cast_vote::handler(&mut after, VoteChoice::Accept, [0u8; 32], NOW), Err(error));
        assert_eq!(after, accounts);
    }
}

#[test]
fn vote_counts_up_to_the_last_second() {
    let mut accounts = vote_accounts();
    let end = accounts.nomination.voting_ends_at;
    assert_eq!(cast_vote::handler(&mut accounts, VoteChoice::Reject, [0u8; 32], end), Ok(()));
    let mut late = vote_accounts();
    assert_eq!(
        cast_vote::handler(&mut late, VoteChoice::Reject, [0u8; 32], end + 1),
        Err(CreatorDAOError::VotingEnded)
    );
}

#[test]
fn vote_needs_room_in_its_tally() {
    let mut accounts = vote_accounts();
    accounts.nomination.votes_accept = u16::MAX;
    assert!(!cast_vote::check_limits(&accounts, VoteChoice::Accept, NOW));
    assert!(cast_vote::check_limits(&accounts, VoteChoice::Reject, NOW));
    accounts.voter_membership.votes_cast = u64::MAX;
    assert!(!cast_vote::check_limits(&accounts, VoteChoice::Reject, NOW));
    accounts.nomination.is_resolved = true;
    assert!(cast_vote::check_limits(&accounts, VoteChoice::Accept, NOW));
}

#[test]
fn record_vote_stores_the_hash_it_is_given() {
    let mut accounts = vote_accounts();
    assert_eq!(cast_vote::record_vote(&mut accounts, VoteChoice::Abstain, [77u8; 32], NOW), Ok(()));
    assert_eq!(accounts.vote_record.unwrap().voter_hash, [77u8; 32]);
    assert_eq!(accounts.nomination.votes_abstain, 1);
}

#[test]
fn quorum_of_half_of_ten_members_needs_five_votes() {
    assert!(!nomination(10, 2, 1, 1).has_quorum(50));
    assert!(!nomination(10, 4, 0, 0).has_quorum(50));
    assert!(nomination(10, 3, 1, 1).has_quorum(50));
    assert!(nomination(10, 0, 0, 5).has_quorum(50));
    assert!(nomination(10, 6, 2, 2).has_quorum(50));
}

#[test]
fn quorum_rounds_the_required_votes_up() {
    assert!(!nomination(3, 1, 0, 0).has_quorum(50));
    assert!(nomination(3, 1, 1, 0).has_quorum(50));
    assert!(!nomination(7, 0, 0, 0).has_quorum(1));
    assert!(nomination(7, 0, 0, 1).has_quorum(1));
    assert!(!nomination(200, 131, 0, 0).has_quorum(66));
    assert!(nomination(200, 66, 66, 0).has_quorum(66));
    assert!(!nomination(199, 131, 0, 0).has_quorum(66));
    assert!(nomination(199, 132, 0, 0).has_quorum(66));
    assert!(!nomination(3, 1, 1, 0).has_quorum(100));
    assert!(nomination(3, 1, 1, 1).has_quorum(100));
}

#[test]
fn quorum_of_an_empty_collective_is_reached_without_votes() {
    assert!(nomination(0, 0, 0, 0).has_quorum(100));
}

#[test]
fn quorum_holds_for_the_largest_counts() {
    let full = nomination(u16::MAX, u16::MAX, u16::MAX, u16::MAX);
    assert!(full.has_quorum(100));
    assert!(full.has_quorum(255));
    assert!(!nomination(u16::MAX, u16::MAX, 0, 0).has_quorum(255));
}

#[test]
fn six_of_eight_decisive_votes_meet_a_threshold_of_seventy() {
    let votes = nomination(10, 6, 2, 2);
    assert!(votes.meets_threshold(70));
    assert!(votes.meets_threshold(75));
    assert!(!votes.meets_threshold(76));
}

#[test]
fn threshold_ignores_abstentions_and_fails_without_decisive_votes() {
    assert!(!nomination(10, 0, 0, 9).meets_threshold(1));
    assert!(!nomination(10, 0, 0, 0).meets_threshold(1));
    assert!(nomination(10, 1, 0, 9).meets_threshold(100));
    assert!(!nomination(10, 0, 1, 9).meets_threshold(1));
}

#[test]
fn tie_never_meets_the_threshold() {
    let tie = nomination(10, 4, 4, 0);
    assert!(!tie.meets_threshold(50));
    assert!(!tie.meets_threshold(51));
    assert!(!tie.meets_threshold(1));
    assert!(!nomination(10, 1, 1, 8).meets_threshold(1));
    assert!(!nomination(10, u16::MAX, u16::MAX, 0).meets_threshold(50));
}

#[test]
fn narrowest_majority_meets_a_threshold_of_fifty() {
    assert!(nomination(10, 5, 4, 0).meets_threshold(50));
    assert!(nomination(10, 5, 4, 0).meets_threshold(55));
    assert!(!nomination(10, 5, 4, 0).meets_threshold(56));
    assert!(!nomination(10, 4, 5, 0).meets_threshold(50));
    let thirds = nomination(10, 2, 1, 0);
    assert!(thirds.meets_threshold(66));
    assert!(!thirds.meets_threshold(67));
}

#[test]
fn participation_is_the_share_of_the_snapshot_that_voted() {
    assert_eq!(nomination(10, 6, 2, 2).participation_percent(), 100);
    assert_eq!(nomination(10, 2, 1, 1).participation_percent(), 40);
    assert_eq!(nomination(3, 1, 0, 0).participation_percent(), 33);
    assert_eq!(nomination(0, 1, 0, 0).participation_percent(), 0);
    assert_eq!(nomination(1, u16::MAX, u16::MAX, u16::MAX).participation_percent(), 19_660_500);
}

fn score_details() -> CreatorScoreDetails {
    CreatorScoreDetails {
        identity: key(60),
        daos_accepted: 0,
        dao_reputation_points: 0,
        successful_nominations: 0,
        failed_nominations: 0,
        nomination_accuracy_bps: 0,
        prediction_pnl_bps: 0,
        predictions_correct: 0,
        predictions_incorrect: 0,
        prediction_accuracy_bps: 0,
        peer_upvotes: 0,
        content_count: 0,
        total_burned: 0,
        first_dao_acceptance: None,
        last_updated: 0,
        bump: 0,
    }
}

#[test]
fn creator_score_weighs_its_four_parts() {
    let mut details = score_details();
    details.daos_accepted = 3;
    details.nomination_accuracy_bps = 8000;
    details.prediction_accuracy_bps = 5000;
    details.peer_upvotes = 60;
    assert_eq!(details.calculate_score(), 6300);
}

#[test]
fn creator_score_of_a_newcomer_is_the_upvote_floor() {
    assert_eq!(score_details().calculate_score(), 300);
}

#[test]
fn creator_score_is_capped_at_ten_thousand() {
    let mut details = score_details();
    details.daos_accepted = 31;
    details.nomination_accuracy_bps = 10000;
    details.prediction_accuracy_bps = 10000;
    details.peer_upvotes = 1001;
    assert_eq!(details.calculate_score(), 10000);
    details.nomination_accuracy_bps = u16::MAX;
    details.prediction_accuracy_bps = u16::MAX;
    assert_eq!(details.calculate_score(), 10000);
}

#[test]
fn creator_score_steps_at_each_acceptance_bracket() {
    let steps: [(u16, u16); 14] = [
        (0, 0),
        (1, 4000),
        (2, 5000),
        (3, 6000),
        (5, 6000),
        (6, 7000),
        (10, 7000),
        (11, 8000),
        (20, 8000),
        (21, 9000),
        (30, 9000),
        (31, 10000),
        (1000, 10000),
        (u16::MAX, 10000),
    ];
    for (accepted, points) in steps {
        let mut details = score_details();
        details.daos_accepted = accepted;
        assert_eq!(details.calculate_score() as u32, points as u32 * 40 / 100 + 300);
    }
}

#[test]
fn creator_score_steps_at_each_upvote_bracket() {
    let steps: [(u64, u16); 10] = [
        (0, 2000),
        (10, 2000),
        (11, 4000),
        (50, 4000),
        (51, 6000),
        (200, 6000),
        (201, 8000),
        (1000, 8000),
        (1001, 10000),
        (u64::MAX, 10000),
    ];
    for (upvotes, points) in steps {
        let mut details = score_details();
        details.peer_upvotes = upvotes;
        assert_eq!(details.calculate_score() as u32, points as u32 * 15 / 100);
    }
}

#[test]
fn governance_errors_have_their_messages() {
    assert_eq!(CreatorDAOError::QuorumNotReached.message(), "Quorum not reached");
    assert_eq!(CreatorDAOError::AlreadyResolved.message(), "Nomination already resolved");
    assert_eq!(
        CreatorDAOError::VotingPeriodTooShort.message(),
        "Voting period must be at least 1 day (86400 seconds)"
    );
    assert_eq!(CreatorDAOError::NotFounder.message(), "Only the founder can add initial members");
}
