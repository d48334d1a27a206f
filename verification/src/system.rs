use vstd::prelude::*;

use crate::coordinator::cast_vote;
use crate::coordinator::cast_vote_effect;
use crate::coordinator::cast_vote_result;
use crate::coordinator::mint_pass_result;
use crate::coordinator::mint_voting_pass;
use crate::errors::VotingError;
use crate::ledger::TokenLedger;
use crate::registry::initialize_poll;
use crate::registry::initialize_voter_state;
use crate::registry::start_poll;
use crate::registry::start_poll_result;
use crate::registry::valid_poll_config;
use crate::states::Poll;
use crate::states::VoterState;

verus! {

/// No two polls share an id.
pub open spec fn polls_unique(polls: Seq<Poll>) -> bool {
    forall|i: int, j: int|
        0 <= i < polls.len() && 0 <= j < polls.len() && i != j
            ==> (#[trigger] polls[i]).poll_id != (#[trigger] polls[j]).poll_id
}

/// Whether some poll carries the id.
pub open spec fn seq_has_poll(polls: Seq<Poll>, poll_id: u64) -> bool {
    exists|i: int| 0 <= i < polls.len() && (#[trigger] polls[i]).poll_id == poll_id
}

/// The index of the poll carrying the id, where one exists.
pub open spec fn seq_poll_index(polls: Seq<Poll>, poll_id: u64) -> int {
    choose|i: int| 0 <= i < polls.len() && (#[trigger] polls[i]).poll_id == poll_id
}

/// The poll carrying the id, where one exists.
pub open spec fn seq_poll(polls: Seq<Poll>, poll_id: u64) -> Poll {
    polls[seq_poll_index(polls, poll_id)]
}

/// No two voter states share a (poll, voter) pair.
pub open spec fn voters_unique(vs: Seq<VoterState>) -> bool {
    forall|i: int, j: int|
        0 <= i < vs.len() && 0 <= j < vs.len() && i != j
            ==> !((#[trigger] vs[i]).poll == (#[trigger] vs[j]).poll && vs[i].voter == vs[j].voter)
}

/// Whether some voter state carries the pair.
pub open spec fn seq_has_vs(vs: Seq<VoterState>, poll_id: u64, voter: u64) -> bool {
    exists|i: int|
        0 <= i < vs.len() && (#[trigger] vs[i]).poll == poll_id && vs[i].voter == voter
}

/// The index of the voter state carrying the pair, where one exists.
pub open spec fn seq_vs_index(vs: Seq<VoterState>, poll_id: u64, voter: u64) -> int {
    choose|i: int|
        0 <= i < vs.len() && (#[trigger] vs[i]).poll == poll_id && vs[i].voter == voter
}

/// The voter state carrying the pair, where one exists.
pub open spec fn seq_vs(vs: Seq<VoterState>, poll_id: u64, voter: u64) -> VoterState {
    vs[seq_vs_index(vs, poll_id, voter)]
}

/// With unique ids, the poll found at `i` is the poll the id denotes.
proof fn lemma_poll_index_is(polls: Seq<Poll>, i: int, poll_id: u64)
    requires
        polls_unique(polls),
        0 <= i < polls.len(),
        polls[i].poll_id == poll_id,
    ensures
        seq_has_poll(polls, poll_id),
        seq_poll_index(polls, poll_id) == i,
        seq_poll(polls, poll_id) == polls[i],
{
    assert(seq_has_poll(polls, poll_id));
    let k = seq_poll_index(polls, poll_id);
    assert(0 <= k < polls.len() && polls[k].poll_id == poll_id);
    if k != i {
        assert(false);
    }
}

/// With unique pairs, the voter state found at `i` is the one the pair
/// denotes.
proof fn lemma_vs_index_is(vs: Seq<VoterState>, i: int, poll_id: u64, voter: u64)
    requires
        voters_unique(vs),
        0 <= i < vs.len(),
        vs[i].poll == poll_id,
        vs[i].voter == voter,
    ensures
        seq_has_vs(vs, poll_id, voter),
        seq_vs_index(vs, poll_id, voter) == i,
        seq_vs(vs, poll_id, voter) == vs[i],
{
    assert(seq_has_vs(vs, poll_id, voter));
    let k = seq_vs_index(vs, poll_id, voter);
    assert(0 <= k < vs.len() && vs[k].poll == poll_id && vs[k].voter == voter);
    if k != i {
        assert(false);
    }
}

/// Replacing one poll by another with the same id changes no lookup but
/// that id's.
proof fn lemma_polls_update(pre: Seq<Poll>, post: Seq<Poll>, i: int)
    requires
        polls_unique(pre),
        0 <= i < pre.len(),
        post.len() == pre.len(),
        forall|k: int| 0 <= k < post.len() && k != i ==> post[k] == pre[k],
        post[i].poll_id == pre[i].poll_id,
    ensures
        polls_unique(post),
        seq_has_poll(post, pre[i].poll_id),
        seq_poll(post, pre[i].poll_id) == post[i],
        forall|id: u64|
            id != pre[i].poll_id ==> #[trigger] seq_has_poll(post, id) == seq_has_poll(pre, id),
        forall|id: u64|
            id != pre[i].poll_id && seq_has_poll(pre, id)
                ==> #[trigger] seq_poll(post, id) == seq_poll(pre, id),
{
    assert forall|a: int, b: int|
        0 <= a < post.len() && 0 <= b < post.len() && a != b implies (#[trigger] post[a]).poll_id
        != (#[trigger] post[b]).poll_id by {
        assert(post[a].poll_id == pre[a].poll_id);
        assert(post[b].poll_id == pre[b].poll_id);
    }
    lemma_poll_index_is(post, i, pre[i].poll_id);
    assert forall|id: u64| id != pre[i].poll_id implies #[trigger] seq_has_poll(post, id)
        == seq_has_poll(pre, id) by {
        if seq_has_poll(pre, id) {
            let k = seq_poll_index(pre, id);
            assert(post[k].poll_id == id);
            assert(seq_has_poll(post, id));
        }
        if seq_has_poll(post, id) {
            let k = seq_poll_index(post, id);
            assert(pre[k].poll_id == id);
            assert(seq_has_poll(pre, id));
        }
    }
    assert forall|id: u64| id != pre[i].poll_id && seq_has_poll(pre, id) implies #[trigger] seq_poll(
        post,
        id,
    ) == seq_poll(pre, id) by {
        let k = seq_poll_index(pre, id);
        lemma_poll_index_is(pre, k, id);
        assert(k != i);
        lemma_poll_index_is(post, k, id);
    }
}

/// Appending a poll under a fresh id changes no lookup but that id's.
proof fn lemma_polls_push(pre: Seq<Poll>, post: Seq<Poll>, p: Poll)
    requires
        polls_unique(pre),
        !seq_has_poll(pre, p.poll_id),
        post == pre.push(p),
    ensures
        polls_unique(post),
        seq_has_poll(post, p.poll_id),
        seq_poll(post, p.poll_id) == p,
        forall|id: u64|
            id != p.poll_id ==> #[trigger] seq_has_poll(post, id) == seq_has_poll(pre, id),
        forall|id: u64|
            id != p.poll_id && seq_has_poll(pre, id)
                ==> #[trigger] seq_poll(post, id) == seq_poll(pre, id),
{
    let n = pre.len() as int;
    assert forall|a: int, b: int|
        0 <= a < post.len() && 0 <= b < post.len() && a != b implies (#[trigger] post[a]).poll_id
        != (#[trigger] post[b]).poll_id by {
        if a < n && b < n {
        } else if a == n {
            assert(post[b] == pre[b]);
            assert(pre[b].poll_id != p.poll_id);
        } else {
            assert(post[a] == pre[a]);
            assert(pre[a].poll_id != p.poll_id);
        }
    }
    lemma_poll_index_is(post, n, p.poll_id);
    assert forall|id: u64| id != p.poll_id implies #[trigger] seq_has_poll(post, id)
        == seq_has_poll(pre, id) by {
        if seq_has_poll(pre, id) {
            let k = seq_poll_index(pre, id);
            assert(post[k].poll_id == id);
            assert(seq_has_poll(post, id));
        }
        if seq_has_poll(post, id) {
            let k = seq_poll_index(post, id);
            assert(k != n);
            assert(pre[k].poll_id == id);
            assert(seq_has_poll(pre, id));
        }
    }
    assert forall|id: u64| id != p.poll_id && seq_has_poll(pre, id) implies #[trigger] seq_poll(
        post,
        id,
    ) == seq_poll(pre, id) by {
        let k = seq_poll_index(pre, id);
        lemma_poll_index_is(pre, k, id);
        lemma_poll_index_is(post, k, id);
    }
}

/// Replacing one voter state by another with the same pair changes no
/// lookup but that pair's.
proof fn lemma_voters_update(pre: Seq<VoterState>, post: Seq<VoterState>, i: int)
    requires
        voters_unique(pre),
        0 <= i < pre.len(),
        post.len() == pre.len(),
        forall|k: int| 0 <= k < post.len() && k != i ==> post[k] == pre[k],
        post[i].poll == pre[i].poll,
        post[i].voter == pre[i].voter,
    ensures
        voters_unique(post),
        seq_has_vs(post, pre[i].poll, pre[i].voter),
        seq_vs(post, pre[i].poll, pre[i].voter) == post[i],
        forall|p: u64, v: u64|
            !(p == pre[i].poll && v == pre[i].voter)
                ==> #[trigger] seq_has_vs(post, p, v) == seq_has_vs(pre, p, v),
        forall|p: u64, v: u64|
            !(p == pre[i].poll && v == pre[i].voter) && seq_has_vs(pre, p, v)
                ==> #[trigger] seq_vs(post, p, v) == seq_vs(pre, p, v),
{
    assert forall|a: int, b: int|
        0 <= a < post.len() && 0 <= b < post.len() && a != b implies !((#[trigger] post[a]).poll
        == (#[trigger] post[b]).poll && post[a].voter == post[b].voter) by {
        assert(post[a].poll == pre[a].poll && post[a].voter == pre[a].voter);
        assert(post[b].poll == pre[b].poll && post[b].voter == pre[b].voter);
    }
    lemma_vs_index_is(post, i, pre[i].poll, pre[i].voter);
    assert forall|p: u64, v: u64| !(p == pre[i].poll && v == pre[i].voter) implies #[trigger] seq_has_vs(
        post,
        p,
        v,
    ) == seq_has_vs(pre, p, v) by {
        if seq_has_vs(pre, p, v) {
            let k = seq_vs_index(pre, p, v);
            assert(post[k].poll == p && post[k].voter == v);
            assert(seq_has_vs(post, p, v));
        }
        if seq_has_vs(post, p, v) {
            let k = seq_vs_index(post, p, v);
            assert(pre[k].poll == p && pre[k].voter == v);
            assert(seq_has_vs(pre, p, v));
        }
    }
    assert forall|p: u64, v: u64|
        !(p == pre[i].poll && v == pre[i].voter) && seq_has_vs(pre, p, v) implies #[trigger] seq_vs(
        post,
        p,
        v,
    ) == seq_vs(pre, p, v) by {
        let k = seq_vs_index(pre, p, v);
        lemma_vs_index_is(pre, k, p, v);
        assert(k != i);
        lemma_vs_index_is(post, k, p, v);
    }
}

/// Appending a voter state under a fresh pair changes no lookup but that
/// pair's.
proof fn lemma_voters_push(pre: Seq<VoterState>, post: Seq<VoterState>, vs: VoterState)
    requires
        voters_unique(pre),
        !seq_has_vs(pre, vs.poll, vs.voter),
        post == pre.push(vs),
    ensures
        voters_unique(post),
        seq_has_vs(post, vs.poll, vs.voter),
        seq_vs(post, vs.poll, vs.voter) == vs,
        forall|p: u64, v: u64|
            !(p == vs.poll && v == vs.voter)
                ==> #[trigger] seq_has_vs(post, p, v) == seq_has_vs(pre, p, v),
        forall|p: u64, v: u64|
            !(p == vs.poll && v == vs.voter) && seq_has_vs(pre, p, v)
                ==> #[trigger] seq_vs(post, p, v) == seq_vs(pre, p, v),
{
    let n = pre.len() as int;
    assert forall|a: int, b: int|
        0 <= a < post.len() && 0 <= b < post.len() && a != b implies !((#[trigger] post[a]).poll
        == (#[trigger] post[b]).poll && post[a].voter == post[b].voter) by {
        if a < n && b < n {
        } else if a == n {
            assert(post[b] == pre[b]);
        } else {
            assert(post[a] == pre[a]);
        }
    }
    lemma_vs_index_is(post, n, vs.poll, vs.voter);
    assert forall|p: u64, v: u64| !(p == vs.poll && v == vs.voter) implies #[trigger] seq_has_vs(
        post,
        p,
        v,
    ) == seq_has_vs(pre, p, v) by {
        if seq_has_vs(pre, p, v) {
            let k = seq_vs_index(pre, p, v);
            assert(post[k].poll == p && post[k].voter == v);
            assert(seq_has_vs(post, p, v));
        }
        if seq_has_vs(post, p, v) {
            let k = seq_vs_index(post, p, v);
            assert(k != n);
            assert(pre[k].poll == p && pre[k].voter == v);
            assert(seq_has_vs(pre, p, v));
        }
    }
    assert forall|p: u64, v: u64|
        !(p == vs.poll && v == vs.voter) && seq_has_vs(pre, p, v) implies #[trigger] seq_vs(
        post,
        p,
        v,
    ) == seq_vs(pre, p, v) by {
        let k = seq_vs_index(pre, p, v);
        lemma_vs_index_is(pre, k, p, v);
        lemma_vs_index_is(post, k, p, v);
    }
}

/// The whole coordinator state: every poll, every registration, and the
/// capability-token ledger, mutated only through the five operations,
/// each an all-or-nothing step.
pub struct VotingSystem {
    /// The poll records, at most one per id.
    pub polls: Vec<Poll>,
    /// The registration records, at most one per (poll, voter) pair.
    pub voter_states: Vec<VoterState>,
    /// The pass balances.
    pub ledger: TokenLedger,
}

/// Two system states with the same observable content.
pub open spec fn same_state(a: VotingSystem, b: VotingSystem) -> bool {
    &&& a.polls@ == b.polls@
    &&& a.voter_states@ == b.voter_states@
    &&& a.ledger.entries@ == b.ledger.entries@
}

/// Every poll lookup away from `poll_id` is untouched.
pub open spec fn polls_frame_except(pre: VotingSystem, post: VotingSystem, poll_id: u64) -> bool {
    &&& forall|id: u64| id != poll_id ==> #[trigger] post.has_poll(id) == pre.has_poll(id)
    &&& forall|id: u64|
        id != poll_id && pre.has_poll(id) ==> #[trigger] post.spec_poll(id) == pre.spec_poll(id)
}

/// Every poll lookup is untouched.
pub open spec fn polls_unchanged(pre: VotingSystem, post: VotingSystem) -> bool {
    &&& forall|id: u64| #[trigger] post.has_poll(id) == pre.has_poll(id)
    &&& forall|id: u64|
        pre.has_poll(id) ==> #[trigger] post.spec_poll(id) == pre.spec_poll(id)
}

/// Every voter-state lookup away from the pair is untouched.
pub open spec fn voters_frame_except(
    pre: VotingSystem,
    post: VotingSystem,
    poll_id: u64,
    voter: u64,
) -> bool {
    &&& forall|p: u64, v: u64|
        !(p == poll_id && v == voter)
            ==> #[trigger] post.has_voter_state(p, v) == pre.has_voter_state(p, v)
    &&& forall|p: u64, v: u64|
        !(p == poll_id && v == voter) && pre.has_voter_state(p, v)
            ==> #[trigger] post.spec_voter_state(p, v) == pre.spec_voter_state(p, v)
}

/// Every voter-state lookup is untouched.
pub open spec fn voters_unchanged(pre: VotingSystem, post: VotingSystem) -> bool {
    &&& forall|p: u64, v: u64|
        #[trigger] post.has_voter_state(p, v) == pre.has_voter_state(p, v)
    &&& forall|p: u64, v: u64|
        pre.has_voter_state(p, v)
            ==> #[trigger] post.spec_voter_state(p, v) == pre.spec_voter_state(p, v)
}

/// Every balance away from the pair is untouched.
pub open spec fn balances_frame_except(
    pre: VotingSystem,
    post: VotingSystem,
    token_class: u64,
    holder: u64,
) -> bool {
    forall|c: u64, h: u64|
        !(c == token_class && h == holder)
            ==> #[trigger] post.spec_balance(c, h) == pre.spec_balance(c, h)
}

/// Every balance is untouched.
pub open spec fn balances_unchanged(pre: VotingSystem, post: VotingSystem) -> bool {
    forall|c: u64, h: u64| #[trigger] post.spec_balance(c, h) == pre.spec_balance(c, h)
}

impl VotingSystem {
    /// Unique poll ids, unique (poll, voter) pairs, well-formed polls,
    /// and a well-formed ledger.
    pub open spec fn wf(self) -> bool {
        &&& polls_unique(self.polls@)
        &&& forall|i: int| 0 <= i < self.polls@.len() ==> (#[trigger] self.polls@[i]).wf()
        &&& voters_unique(self.voter_states@)
        &&& self.ledger.wf()
    }

    /// Whether a poll exists under the id.
    pub open spec fn has_poll(self, poll_id: u64) -> bool {
        seq_has_poll(self.polls@, poll_id)
    }

    /// The poll under the id, where one exists.
    pub open spec fn spec_poll(self, poll_id: u64) -> Poll {
        seq_poll(self.polls@, poll_id)
    }

    /// Whether a registration exists for the pair.
    pub open spec fn has_voter_state(self, poll_id: u64, voter: u64) -> bool {
        seq_has_vs(self.voter_states@, poll_id, voter)
    }

    /// The registration for the pair, where one exists.
    pub open spec fn spec_voter_state(self, poll_id: u64, voter: u64) -> VoterState {
        seq_vs(self.voter_states@, poll_id, voter)
    }

    /// The pass balance of a (token class, holder) pair.
    pub open spec fn spec_balance(self, token_class: u64, holder: u64) -> u64 {
        self.ledger.spec_balance(token_class, holder)
    }

    /// An empty system: no polls, no registrations, no balances.
    pub fn new() -> (s: VotingSystem)
        ensures
            s.wf(),
            forall|id: u64| !(#[trigger] s.has_poll(id)),
            forall|p: u64, v: u64| !(#[trigger] s.has_voter_state(p, v)),
            forall|c: u64, h: u64| #[trigger] s.spec_balance(c, h) == 0,
    {
        VotingSystem { polls: Vec::new(), voter_states: Vec::new(), ledger: TokenLedger::new() }
    }

    /// Locate the poll under the id, if any.
    fn find_poll(&self, poll_id: u64) -> (r: Option<usize>)
        requires
            self.wf(),
        ensures
            match r {
                Some(i) => {
                    &&& i < self.polls@.len()
                    &&& self.polls@[i as int].poll_id == poll_id
                    &&& self.has_poll(poll_id)
                    &&& seq_poll_index(self.polls@, poll_id) == i
                    &&& self.spec_poll(poll_id) == self.polls@[i as int]
                },
                None => !self.has_poll(poll_id),
            },
    {
        let n = self.polls.len();
        let mut i: usize = 0;
        while i < n
            invariant
                self.wf(),
                n == self.polls@.len(),
                0 <= i <= n,
                forall|j: int| 0 <= j < i ==> (#[trigger] self.polls@[j]).poll_id != poll_id,
            decreases n - i,
        {
            if self.polls[i].poll_id == poll_id {
                proof {
                    lemma_poll_index_is(self.polls@, i as int, poll_id);
                }
                return Some(i);
            }
            i += 1;
        }
        assert(!self.has_poll(poll_id));
        None
    }

    /// Locate the registration for the pair, if any.
    fn find_voter_state(&self, poll_id: u64, voter: u64) -> (r: Option<usize>)
        requires
            self.wf(),
        ensures
            match r {
                Some(i) => {
                    &&& i < self.voter_states@.len()
                    &&& self.voter_states@[i as int].poll == poll_id
                    &&& self.voter_states@[i as int].voter == voter
                    &&& self.has_voter_state(poll_id, voter)
                    &&& seq_vs_index(self.voter_states@, poll_id, voter) == i
                    &&& self.spec_voter_state(poll_id, voter) == self.voter_states@[i as int]
                },
                None => !self.has_voter_state(poll_id, voter),
            },
    {
        let n = self.voter_states.len();
        let mut i: usize = 0;
        while i < n
            invariant
                self.wf(),
                n == self.voter_states@.len(),
                0 <= i <= n,
                forall|j: int|
                    0 <= j < i ==> !((#[trigger] self.voter_states@[j]).poll == poll_id
                        && self.voter_states@[j].voter == voter),
            decreases n - i,
        {
            if self.voter_states[i].poll == poll_id && self.voter_states[i].voter == voter {
                proof {
                    lemma_vs_index_is(self.voter_states@, i as int, poll_id, voter);
                }
                return Some(i);
            }
            i += 1;
        }
        assert(!self.has_voter_state(poll_id, voter));
        None
    }
}

/// What poll creation owes: a duplicate id is rejected first, then an
/// invalid configuration; otherwise the new poll exists, inactive with
/// zero tallies, and nothing else moved.
pub open spec fn initialize_post(
    pre: VotingSystem,
    post: VotingSystem,
    admin: u64,
    poll_id: u64,
    question: Seq<char>,
    start_ts: i64,
    end_ts: i64,
    voting_mint: u64,
    r: Result<(), VotingError>,
) -> bool {
    &&& r == (if pre.has_poll(poll_id) {
        Err::<(), VotingError>(VotingError::DuplicatePoll)
    } else if !valid_poll_config(question, start_ts, end_ts) {
        Err::<(), VotingError>(VotingError::InvalidConfiguration)
    } else {
        Ok::<(), VotingError>(())
    })
    &&& (r is Err ==> same_state(post, pre))
    &&& (r is Ok ==> {
        &&& post.has_poll(poll_id)
        &&& post.spec_poll(poll_id).admin == admin
        &&& post.spec_poll(poll_id).poll_id == poll_id
        &&& post.spec_poll(poll_id).question@ == question
        &&& post.spec_poll(poll_id).start_ts == start_ts
        &&& post.spec_poll(poll_id).end_ts == end_ts
        &&& post.spec_poll(poll_id).is_active == false
        &&& post.spec_poll(poll_id).voting_mint == voting_mint
        &&& post.spec_poll(poll_id).total_yes == 0
        &&& post.spec_poll(poll_id).total_no == 0
        &&& polls_frame_except(pre, post, poll_id)
        &&& voters_unchanged(pre, post)
        &&& balances_unchanged(pre, post)
    })
}

/// What the start transition owes: the record-level outcome on the named
/// poll, and no other movement.
pub open spec fn start_post(
    pre: VotingSystem,
    post: VotingSystem,
    caller: u64,
    poll_id: u64,
    now: i64,
    r: Result<(), VotingError>,
) -> bool {
    let p = pre.spec_poll(poll_id);
    &&& r == start_poll_result(p, caller, now)
    &&& (r is Err ==> same_state(post, pre))
    &&& (r is Ok ==> {
        &&& post.has_poll(poll_id)
        &&& post.spec_poll(poll_id) == (Poll { is_active: true, ..p })
        &&& polls_frame_except(pre, post, poll_id)
        &&& voters_unchanged(pre, post)
        &&& balances_unchanged(pre, post)
    })
}

/// What registration owes: a duplicate pair is rejected; otherwise the
/// record exists with the has-voted flag clear, and nothing else moved.
pub open spec fn add_voter_post(
    pre: VotingSystem,
    post: VotingSystem,
    voter: u64,
    poll_id: u64,
    r: Result<(), VotingError>,
) -> bool {
    &&& r == (if pre.has_voter_state(poll_id, voter) {
        Err::<(), VotingError>(VotingError::DuplicateRegistration)
    } else {
        Ok::<(), VotingError>(())
    })
    &&& (r is Err ==> same_state(post, pre))
    &&& (r is Ok ==> {
        &&& post.has_voter_state(poll_id, voter)
        &&& post.spec_voter_state(poll_id, voter) == (VoterState {
            poll: poll_id,
            voter,
            has_voted: false,
        })
        &&& voters_frame_except(pre, post, poll_id, voter)
        &&& polls_unchanged(pre, post)
        &&& balances_unchanged(pre, post)
    })
}

/// What pass issuance owes: the record-level outcome against the named
/// poll and the recipient's balance, and no other movement.
pub open spec fn mint_pass_post(
    pre: VotingSystem,
    post: VotingSystem,
    caller: u64,
    poll_id: u64,
    recipient: u64,
    r: Result<(), VotingError>,
) -> bool {
    let p = pre.spec_poll(poll_id);
    &&& r == mint_pass_result(p, caller, pre.spec_balance(p.voting_mint, recipient))
    &&& (r is Err ==> same_state(post, pre))
    &&& (r is Ok ==> {
        &&& post.spec_balance(p.voting_mint, recipient) == pre.spec_balance(
            p.voting_mint,
            recipient,
        ) + 1
        &&& balances_frame_except(pre, post, p.voting_mint, recipient)
        &&& polls_unchanged(pre, post)
        &&& voters_unchanged(pre, post)
    })
}

/// What a vote owes: the record-level outcome against the named records
/// and the voter's balance; on success the chosen tally grows by one,
/// the registration is marked used, exactly one pass is burned, and
/// nothing else moved.
pub open spec fn vote_post(
    pre: VotingSystem,
    post: VotingSystem,
    voter: u64,
    poll_id: u64,
    now: i64,
    vote_yes: bool,
    r: Result<(), VotingError>,
) -> bool {
    let p = pre.spec_poll(poll_id);
    let vs = pre.spec_voter_state(poll_id, voter);
    let bal = pre.spec_balance(p.voting_mint, voter);
    &&& r == cast_vote_result(p, vs, bal, voter, now, vote_yes)
    &&& (r is Err ==> same_state(post, pre))
    &&& (r is Ok ==> {
        &&& post.has_poll(poll_id)
        &&& post.spec_poll(poll_id) == cast_vote_effect(p, vote_yes)
        &&& polls_frame_except(pre, post, poll_id)
        &&& post.has_voter_state(poll_id, voter)
        &&& post.spec_voter_state(poll_id, voter) == (VoterState { has_voted: true, ..vs })
        &&& voters_frame_except(pre, post, poll_id, voter)
        &&& post.spec_balance(p.voting_mint, voter) == bal - 1
        &&& balances_frame_except(pre, post, p.voting_mint, voter)
    })
}

impl VotingSystem {
    /// Create a poll: rejected on a duplicate id or an invalid
    /// configuration, otherwise stored inactive with zero tallies.
    pub fn initialize(
        &mut self,
        admin: u64,
        poll_id: u64,
        question: String,
        start_ts: i64,
        end_ts: i64,
        voting_mint: u64,
    ) -> (r: Result<(), VotingError>)
        requires
            old(self).wf(),
        ensures
            final(self).wf(),
            initialize_post(
                *old(self),
                *final(self),
                admin,
                poll_id,
                question@,
                start_ts,
                end_ts,
                voting_mint,
                r,
            ),
    {
        if self.find_poll(poll_id).is_some() {
            return Err(VotingError::DuplicatePoll);
        }
        match initialize_poll(admin, poll_id, question, start_ts, end_ts, voting_mint) {
            Ok(p) => {
                self.polls.push(p);
                proof {
                    lemma_polls_push(old(self).polls@, self.polls@, self.polls@.last());
                }
                Ok(())
            },
            Err(e) => Err(e),
        }
    }

    /// Start the named poll: only its admin, only inside the start
    /// window, only once.
    pub fn start(&mut self, caller: u64, poll_id: u64, now: i64) -> (r: Result<(), VotingError>)
        requires
            old(self).wf(),
            old(self).has_poll(poll_id),
        ensures
            final(self).wf(),
            start_post(*old(self), *final(self), caller, poll_id, now, r),
    {
        let i = self.find_poll(poll_id).unwrap();
        let r = start_poll(&mut self.polls[i], caller, now);
        proof {
            if r is Ok {
                lemma_polls_update(old(self).polls@, self.polls@, i as int);
            } else {
                assert(self.polls@ =~= old(self).polls@);
            }
        }
        r
    }

    /// Register a voter for the named poll: at most one registration per
    /// pair ever exists.
    pub fn add_voter(&mut self, voter: u64, poll_id: u64) -> (r: Result<(), VotingError>)
        requires
            old(self).wf(),
            old(self).has_poll(poll_id),
        ensures
            final(self).wf(),
            add_voter_post(*old(self), *final(self), voter, poll_id, r),
    {
        if self.find_voter_state(poll_id, voter).is_some() {
            return Err(VotingError::DuplicateRegistration);
        }
        let vs = initialize_voter_state(poll_id, voter);
        self.voter_states.push(vs);
        proof {
            lemma_voters_push(old(self).voter_states@, self.voter_states@, vs);
        }
        Ok(())
    }

    /// Issue one voting pass for the named poll to the recipient, gated
    /// on the caller being the poll's admin.
    pub fn mint_pass(&mut self, caller: u64, poll_id: u64, recipient: u64) -> (r: Result<
        (),
        VotingError,
    >)
        requires
            old(self).wf(),
            old(self).has_poll(poll_id),
        ensures
            final(self).wf(),
            mint_pass_post(*old(self), *final(self), caller, poll_id, recipient, r),
    {
        let i = self.find_poll(poll_id).unwrap();
        mint_voting_pass(&self.polls[i], &mut self.ledger, caller, recipient)
    }

    /// Cast one vote on the named poll as a single all-or-nothing step.
    pub fn vote(&mut self, voter: u64, poll_id: u64, now: i64, vote_yes: bool) -> (r: Result<
        (),
        VotingError,
    >)
        requires
            old(self).wf(),
            old(self).has_poll(poll_id),
            old(self).has_voter_state(poll_id, voter),
        ensures
            final(self).wf(),
            vote_post(*old(self), *final(self), voter, poll_id, now, vote_yes, r),
    {
        let i = self.find_poll(poll_id).unwrap();
        let j = self.find_voter_state(poll_id, voter).unwrap();
        let r = cast_vote(
            &mut self.polls[i],
            &mut self.voter_states[j],
            &mut self.ledger,
            voter,
            now,
            vote_yes,
        );
        proof {
            if r is Ok {
                lemma_polls_update(old(self).polls@, self.polls@, i as int);
                lemma_voters_update(old(self).voter_states@, self.voter_states@, j as int);
            } else {
                assert(self.polls@ =~= old(self).polls@);
                assert(self.voter_states@ =~= old(self).voter_states@);
            }
        }
        r
    }

    /// Whether a poll exists under the id.
    pub fn contains_poll(&self, poll_id: u64) -> (r: bool)
        requires
            self.wf(),
        ensures
            r == self.has_poll(poll_id),
    {
        self.find_poll(poll_id).is_some()
    }

    /// The poll under the id, if any.
    pub fn get_poll(&self, poll_id: u64) -> (r: Option<&Poll>)
        requires
            self.wf(),
        ensures
            self.has_poll(poll_id) ==> (r matches Some(p) && *p == self.spec_poll(poll_id)),
            !self.has_poll(poll_id) ==> r is None,
    {
        match self.find_poll(poll_id) {
            Some(i) => Some(&self.polls[i]),
            None => None,
        }
    }

    /// Whether a registration exists for the pair.
    pub fn contains_voter_state(&self, poll_id: u64, voter: u64) -> (r: bool)
        requires
            self.wf(),
        ensures
            r == self.has_voter_state(poll_id, voter),
    {
        self.find_voter_state(poll_id, voter).is_some()
    }

    /// The registration for the pair, if any.
    pub fn get_voter_state(&self, poll_id: u64, voter: u64) -> (r: Option<VoterState>)
        requires
            self.wf(),
        ensures
            self.has_voter_state(poll_id, voter) ==> r == Some(
                self.spec_voter_state(poll_id, voter),
            ),
            !self.has_voter_state(poll_id, voter) ==> r is None,
    {
        match self.find_voter_state(poll_id, voter) {
            Some(i) => Some(self.voter_states[i]),
            None => None,
        }
    }

    /// The pass balance of a (token class, holder) pair.
    pub fn balance_of(&self, token_class: u64, holder: u64) -> (r: u64)
        requires
            self.wf(),
        ensures
            r == self.spec_balance(token_class, holder),
    {
        self.ledger.balance_of(token_class, holder)
    }
}

} // verus!
