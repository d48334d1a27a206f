use vstd::prelude::*;

verus! {

/// Longest question text a poll may carry, in characters.
pub const QUESTION_LENGTH: usize = 200;

/// One yes/no question with its time window and running tallies.
///
/// A poll is created once; `admin`, `poll_id`, `question`, the window and
/// `voting_mint` are immutable thereafter. `is_active` flips false to true
/// exactly once, and the tallies only grow while votes are cast inside the
/// window.
#[derive(Debug)]
pub struct Poll {
    /// Identity of the creator; sole authority for starting the poll and
    /// issuing passes.
    pub admin: u64,
    /// Caller-chosen identifier; at most one poll exists per id.
    pub poll_id: u64,
    /// The question text, at most `QUESTION_LENGTH` characters.
    pub question: String,
    /// First timestamp (inclusive) at which voting is allowed.
    pub start_ts: i64,
    /// Last timestamp (inclusive) at which voting is allowed.
    pub end_ts: i64,
    /// False until the admin explicitly starts the poll.
    pub is_active: bool,
    /// The capability-token class whose passes gate this poll.
    pub voting_mint: u64,
    /// Number of yes votes recorded so far.
    pub total_yes: u64,
    /// Number of no votes recorded so far.
    pub total_no: u64,
}

impl Poll {
    /// Well-formedness established at creation: bounded question text and
    /// a window whose start strictly precedes its end.
    pub open spec fn wf(self) -> bool {
        &&& self.question@.len() <= QUESTION_LENGTH
        &&& self.start_ts < self.end_ts
    }

    /// The inclusive window during which a vote may be cast.
    pub open spec fn in_vote_window(self, now: i64) -> bool {
        self.start_ts <= now <= self.end_ts
    }

    /// The half-open window during which the poll may be started.
    pub open spec fn in_start_window(self, now: i64) -> bool {
        self.start_ts <= now < self.end_ts
    }
}

/// The per-(poll, voter) registration record; its existence is the
/// registration act, and `has_voted` flips false to true exactly once.
#[derive(Clone, Copy, Debug, PartialEq, Eq, Structural)]
pub struct VoterState {
    /// Id of the poll this registration belongs to.
    pub poll: u64,
    /// Identity of the registered participant.
    pub voter: u64,
    /// Whether this participant has already cast their vote.
    pub has_voted: bool,
}

} // verus!
