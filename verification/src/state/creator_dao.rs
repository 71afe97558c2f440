use crate::key::Key;
use vstd::prelude::*;

verus! {

/// From this many members on, a collective is advised to split. The cap is
/// soft: it stops the founder from adding members by hand, never an admission
/// that the members voted for.
pub const MAX_DAO_MEMBERS: usize = 200;

/// A collective holds at most this many unresolved nominations.
pub const MAX_PENDING_NOMINATIONS: usize = 20;

/// The shortest voting period a collective may choose, in seconds: one day.
pub const MIN_VOTING_PERIOD: i64 = 86400;

/// The kind of content a collective gathers around.
#[derive(Clone, Copy, Debug, PartialEq, Eq, Structural)]
pub enum ContentType {
    LongFormWriting,
    ShortFormWriting,
    Music,
    ShortFormVideo,
    LongFormVideo,
    Fiction,
    Educational,
    Podcasts,
    Art,
    Code,
}

/// What a member says of a nomination.
#[derive(Clone, Copy, Debug, PartialEq, Eq, Structural)]
pub enum VoteChoice {
    Abstain,
    Accept,
    Reject,
}

/// A bounded peer collective with a fixed admission threshold and quorum.
#[derive(Clone, Copy, Debug, PartialEq, Eq)]
pub struct CreatorDAO {
    pub dao_id: u64,
    /// Name, null-padded.
    pub name: [u8; 32],
    /// Mission, null-padded.
    pub description: [u8; 128],
    pub content_type: ContentType,
    /// The niche the collective is opinionated about, null-padded.
    pub style_tag: [u8; 32],
    /// Region affinity; 0 is global.
    pub region_code: u16,
    pub member_count: u16,
    pub founder: Key,
    pub created_at: i64,
    /// Percentage of the decisive votes that must accept, 1 to 100.
    pub admission_threshold: u8,
    /// Length of a vote in seconds, at least a day.
    pub voting_period: i64,
    /// Percentage of the membership that must take part, 1 to 100.
    pub quorum: u8,
    pub pending_nominations: u8,
    pub total_admitted: u64,
    pub total_removed: u64,
    pub is_active: bool,
    /// The id the next nomination gets.
    pub nomination_nonce: u64,
    pub parent_dao: Option<Key>,
    pub split_count: u8,
    pub bump: u8,
}

impl CreatorDAO {
    /// Width of the stored record in bytes.
    pub const SIZE: usize = 8 + 8 + 32 + 128 + 1 + 32 + 2 + 2 + 32 + 8 + 1 + 8 + 1 + 1 + 8 + 8 + 1
        + 8 + 33 + 1 + 1;

    /// The governance parameters are in range and the backlog is within its cap.
    pub open spec fn well_formed(self) -> bool {
        &&& 1 <= self.admission_threshold <= 100
        &&& 1 <= self.quorum <= 100
        &&& self.voting_period >= MIN_VOTING_PERIOD
        &&& self.pending_nominations <= MAX_PENDING_NOMINATIONS
    }

    /// Whether the collective has reached the size at which a split is advised.
    pub fn should_consider_split(&self) -> (advised: bool)
        ensures
            advised == (self.member_count >= MAX_DAO_MEMBERS),
    {
        self.member_count as usize >= MAX_DAO_MEMBERS
    }
}

/// One member's place in one collective.
#[derive(Clone, Copy, Debug, PartialEq, Eq)]
pub struct DAOMembership {
    pub dao: Key,
    pub member_identity: Key,
    pub member_wallet: Key,
    pub admitted_at: i64,
    /// Who nominated the member; nobody, for one the founder picked.
    pub nominated_by: Option<Key>,
    pub successful_nominations: u16,
    pub votes_cast: u64,
    pub is_active: bool,
    pub bump: u8,
}

impl DAOMembership {
    /// Width of the stored record in bytes.
    pub const SIZE: usize = 8 + 32 + 32 + 32 + 8 + 33 + 2 + 8 + 1 + 1;

    /// Whether this is an active membership of `wallet` in the collective `dao`.
    pub open spec fn admits(self, dao: Key, wallet: Key) -> bool {
        self.dao == dao && self.member_wallet == wallet && self.is_active
    }

    /// Tests `admits`.
    pub fn is_member_of(&self, dao: &Key, wallet: &Key) -> (r: bool)
        ensures
            r == self.admits(*dao, *wallet),
    {
        self.dao == *dao && self.member_wallet == *wallet && self.is_active
    }
}

/// A time-boxed proposal to admit a creator.
#[derive(Clone, Copy, Debug, PartialEq, Eq)]
pub struct Nomination {
    pub dao: Key,
    /// Unique within the collective.
    pub nomination_id: u64,
    pub nominee_identity: Key,
    pub nominee_wallet: Key,
    pub nominator: Key,
    /// The nominator's case, null-padded.
    pub reason: [u8; 256],
    pub created_at: i64,
    pub voting_ends_at: i64,
    pub votes_accept: u16,
    pub votes_reject: u16,
    pub votes_abstain: u16,
    /// Membership when the nomination was made; all quorum arithmetic uses it.
    pub total_members_snapshot: u16,
    pub is_resolved: bool,
    /// Meaningful once resolved.
    pub was_accepted: bool,
    pub resolved_at: Option<i64>,
    pub bump: u8,
}

impl Nomination {
    /// Width of the stored record in bytes.
    pub const SIZE: usize = 8 + 32 + 8 + 32 + 32 + 32 + 256 + 8 + 8 + 2 + 2 + 2 + 2 + 1 + 1 + 9 + 1;

    /// All votes cast, abstentions included.
    pub open spec fn total_votes(self) -> int {
        self.votes_accept + self.votes_reject + self.votes_abstain
    }

    /// Votes that take a side.
    pub open spec fn decisive_votes(self) -> int {
        self.votes_accept + self.votes_reject
    }

    /// The least number of votes that is `quorum` percent of `snapshot`
    /// members or more: the percentage rounded up.
    pub open spec fn quorum_required(snapshot: int, quorum: int) -> int {
        (snapshot * quorum + 99) / 100
    }

    /// Enough members took part: the votes are at least `quorum` percent of
    /// the membership snapshot.
    pub open spec fn quorum_reached(self, quorum: u8) -> bool {
        self.total_votes() * 100 >= self.total_members_snapshot * quorum
    }

    /// The decisive votes are not tied, and the accepting share of them is at
    /// least `threshold` percent. A tie never meets the threshold, however
    /// low it is; nor does a vote without a decisive vote, which is the tie
    /// of none against none.
    pub open spec fn threshold_met(self, threshold: u8) -> bool {
        &&& self.decisive_votes() > 0
        &&& self.votes_accept != self.votes_reject
        &&& self.votes_accept * 100 >= threshold * self.decisive_votes()
    }

    /// The share of the membership snapshot that has voted, in percent,
    /// rounded down; nothing for an empty snapshot.
    pub open spec fn participation(self) -> int {
        if self.total_members_snapshot > 0 {
            self.total_votes() * 100 / (self.total_members_snapshot as int)
        } else {
            0
        }
    }

    /// The share of the membership snapshot that has voted, in percent.
    pub fn participation_percent(&self) -> (percent: u32)
        ensures
            percent == self.participation(),
    {
        if self.total_members_snapshot == 0 {
            return 0;
        }
        let total_votes: u32 = self.votes_accept as u32 + self.votes_reject as u32
            + self.votes_abstain as u32;
        total_votes * 100 / self.total_members_snapshot as u32
    }

    /// Whether the votes cast reach the quorum.
    pub fn has_quorum(&self, quorum_threshold: u8) -> (reached: bool)
        ensures
            reached == self.quorum_reached(quorum_threshold),
            reached == (self.total_votes() >= Nomination::quorum_required(
                self.total_members_snapshot as int,
                quorum_threshold as int,
            )),
    {
        let total_votes: u32 = self.votes_accept as u32 + self.votes_reject as u32
            + self.votes_abstain as u32;
        assert(self.total_members_snapshot * quorum_threshold <= 65535 * 255) by (nonlinear_arith);
        let required: u32 = (self.total_members_snapshot as u32 * quorum_threshold as u32 + 99) / 100;
        total_votes >= required
    }

    /// Whether the accepting share of the decisive votes meets the admission
    /// threshold. A tie does not.
    pub fn meets_threshold(&self, threshold: u8) -> (met: bool)
        ensures
            met == self.threshold_met(threshold),
            self.votes_accept == self.votes_reject ==> !met,
    {
        let total_decisive: u32 = self.votes_accept as u32 + self.votes_reject as u32;
        if total_decisive == 0 {
            return false;
        }
        if self.votes_accept == self.votes_reject {
            return false;
        }
        let accept_pct: u32 = (self.votes_accept as u32 * 100) / total_decisive;
        proof {
            lemma_floor_at_least(self.votes_accept * 100, total_decisive as int, threshold as int);
        }
        accept_pct >= threshold as u32
    }
}

/// A rounded-down quotient reaches a whole number exactly when the dividend
/// reaches that number of divisors.
pub proof fn lemma_floor_at_least(a: int, d: int, t: int)
    by (nonlinear_arith)
    requires
        0 <= a,
        0 < d,
        0 <= t,
    ensures
        (a / d >= t) <==> (a >= t * d),
{
    assert(a == d * (a / d) + a % d);
    assert(0 <= a % d < d);
    if a / d >= t {
        assert(d * (a / d) >= d * t);
    } else {
        assert(a / d + 1 <= t);
        assert(d * (a / d + 1) <= d * t);
    }
}

/// The quorum is the participation percentage rounded up: a tally reaches it
/// exactly when a hundred times the tally is at least `snapshot * quorum`.
pub proof fn lemma_quorum_is_ceiling(votes: int, snapshot: int, quorum: int)
    requires
        0 <= votes,
        0 <= snapshot,
        0 <= quorum,
    ensures
        (votes >= Nomination::quorum_required(snapshot, quorum)) <==> (votes * 100 >= snapshot
            * quorum),
{
    let p = snapshot * quorum;
    assert(p >= 0) by (nonlinear_arith)
        requires
            p == snapshot * quorum,
            snapshot >= 0,
            quorum >= 0,
    ;
    lemma_floor_at_least(p + 99, 100, votes);
    lemma_floor_at_least(p + 99, 100, votes + 1);
}

/// That one voter voted on one nomination. The record holds a commitment to
/// the voter in place of the voter's key.
#[derive(Clone, Copy, Debug, PartialEq, Eq)]
pub struct VoteRecord {
    pub nomination: Key,
    /// Digest of voter key, nomination id and the voter's salt.
    pub voter_hash: [u8; 32],
    pub vote: VoteChoice,
    pub voted_at: i64,
    pub bump: u8,
}

impl VoteRecord {
    /// Width of the stored record in bytes.
    pub const SIZE: usize = 8 + 32 + 32 + 1 + 8 + 1;
}

/// What a creator has earned towards the creator dimension of an identity.
#[derive(Clone, Copy, Debug, PartialEq, Eq)]
pub struct CreatorScoreDetails {
    pub identity: Key,
    pub daos_accepted: u16,
    pub dao_reputation_points: u32,
    pub successful_nominations: u16,
    pub failed_nominations: u16,
    pub nomination_accuracy_bps: u16,
    pub prediction_pnl_bps: i32,
    pub predictions_correct: u32,
    pub predictions_incorrect: u32,
    pub prediction_accuracy_bps: u16,
    pub peer_upvotes: u64,
    pub content_count: u32,
    pub total_burned: u64,
    pub first_dao_acceptance: Option<i64>,
    pub last_updated: i64,
    pub bump: u8,
}

impl CreatorScoreDetails {
    /// Width of the stored record in bytes.
    pub const SIZE: usize = 8 + 32 + 2 + 4 + 2 + 2 + 2 + 4 + 4 + 4 + 2 + 8 + 4 + 8 + 9 + 8 + 1;

    /// Points for the number of collectives that accepted a creator. The
    /// scale flattens as the count grows.
    pub open spec fn acceptance_points(daos_accepted: u16) -> int {
        if daos_accepted == 0 {
            0
        } else if daos_accepted == 1 {
            4000
        } else if daos_accepted == 2 {
            5000
        } else if daos_accepted <= 5 {
            6000
        } else if daos_accepted <= 10 {
            7000
        } else if daos_accepted <= 20 {
            8000
        } else if daos_accepted <= 30 {
            9000
        } else {
            10000
        }
    }

    /// Points for the number of upvotes from peers.
    pub open spec fn upvote_points(peer_upvotes: u64) -> int {
        if peer_upvotes <= 10 {
            2000
        } else if peer_upvotes <= 50 {
            4000
        } else if peer_upvotes <= 200 {
            6000
        } else if peer_upvotes <= 1000 {
            8000
        } else {
            10000
        }
    }

    /// The creator score in basis points: 40% acceptance by collectives, 25%
    /// accuracy of nominations, 20% accuracy of predictions, 15% upvotes,
    /// each share rounded down, the sum capped at 10000.
    pub open spec fn score(self) -> int {
        let sum = Self::acceptance_points(self.daos_accepted) * 40 / 100
            + self.nomination_accuracy_bps * 25 / 100 + self.prediction_accuracy_bps * 20 / 100
            + Self::upvote_points(self.peer_upvotes) * 15 / 100;
        if sum <= 10000 {
            sum
        } else {
            10000
        }
    }

    /// Computes the creator score.
    pub fn calculate_score(&self) -> (score: u16)
        ensures
            score == self.score(),
            score <= 10000,
    {
        let dao_component: u32 = self.dao_acceptance_score() as u32 * 40 / 100;
        let judgment_component: u32 = self.nomination_accuracy_bps as u32 * 25 / 100;
        let prediction_component: u32 = self.prediction_accuracy_bps as u32 * 20 / 100;
        let upvote_component: u32 = self.upvote_tier() as u32 * 15 / 100;
        let sum: u32 = dao_component + judgment_component + prediction_component
            + upvote_component;
        if sum <= 10000 {
            sum as u16
        } else {
            10000
        }
    }

    fn dao_acceptance_score(&self) -> (points: u16)
        ensures
            points == Self::acceptance_points(self.daos_accepted),
    {
        let n: u16 = self.daos_accepted;
        if n == 0 {
            0
        } else if n == 1 {
            4000
        } else if n == 2 {
            5000
        } else if n <= 5 {
            6000
        } else if n <= 10 {
            7000
        } else if n <= 20 {
            8000
        } else if n <= 30 {
            9000
        } else {
            10000
        }
    }

    fn upvote_tier(&self) -> (points: u16)
        ensures
            points == Self::upvote_points(self.peer_upvotes),
    {
        let n: u64 = self.peer_upvotes;
        if n <= 10 {
            2000
        } else if n <= 50 {
            4000
        } else if n <= 200 {
            6000
        } else if n <= 1000 {
            8000
        } else {
            10000
        }
    }
}

} // verus!
