use vstd::prelude::*;

use crate::errors::VotingError;
use crate::system::VotingSystem;
use crate::system::mint_pass_post;
use crate::system::same_state;
use crate::system::start_post;
use crate::system::vote_post;

verus! {

/// The combined tally of a poll: yes votes plus no votes.
pub open spec fn poll_total(s: VotingSystem, poll_id: u64) -> int {
    s.spec_poll(poll_id).total_yes + s.spec_poll(poll_id).total_no
}

/// No double voting: across two successive vote attempts by the same
/// voter on the same poll, at most one succeeds, the combined tally
/// grows by exactly the number of successes, and once the first attempt
/// has succeeded a second in-window attempt fails as an already-cast
/// vote.
pub proof fn lemma_no_double_voting(
    s0: VotingSystem,
    s1: VotingSystem,
    s2: VotingSystem,
    voter: u64,
    poll_id: u64,
    now1: i64,
    now2: i64,
    yes1: bool,
    yes2: bool,
    r1: Result<(), VotingError>,
    r2: Result<(), VotingError>,
)
    requires
        vote_post(s0, s1, voter, poll_id, now1, yes1, r1),
        vote_post(s1, s2, voter, poll_id, now2, yes2, r2),
    ensures
        !(r1 is Ok && r2 is Ok),
        poll_total(s2, poll_id) == poll_total(s0, poll_id) + (if r1 is Ok {
            1 as int
        } else {
            0 as int
        }) + (if r2 is Ok {
            1 as int
        } else {
            0 as int
        }),
        r1 is Ok && s0.spec_poll(poll_id).in_vote_window(now2) ==> r2 == Err::<(), VotingError>(
            VotingError::AlreadyVoted,
        ),
{
    if r1 is Ok {
        assert(s1.spec_voter_state(poll_id, voter).has_voted);
        assert(s1.spec_poll(poll_id).is_active);
        assert(r2 is Err);
        assert(same_state(s2, s1));
    } else {
        assert(same_state(s1, s0));
    }
}

/// Window enforcement for starting: an authorized start attempt outside
/// the half-open start window fails as out of window and moves nothing.
pub proof fn lemma_start_window_enforcement(
    pre: VotingSystem,
    post: VotingSystem,
    caller: u64,
    poll_id: u64,
    now: i64,
    r: Result<(), VotingError>,
)
    requires
        start_post(pre, post, caller, poll_id, now, r),
        caller == pre.spec_poll(poll_id).admin,
        now < pre.spec_poll(poll_id).start_ts || now >= pre.spec_poll(poll_id).end_ts,
    ensures
        r == Err::<(), VotingError>(VotingError::NotInTimeWindow),
        same_state(post, pre),
{
}

/// Window enforcement for voting: a vote on an active poll outside the
/// inclusive vote window fails as out of window and moves nothing.
pub proof fn lemma_vote_window_enforcement(
    pre: VotingSystem,
    post: VotingSystem,
    voter: u64,
    poll_id: u64,
    now: i64,
    vote_yes: bool,
    r: Result<(), VotingError>,
)
    requires
        vote_post(pre, post, voter, poll_id, now, vote_yes, r),
        pre.spec_poll(poll_id).is_active,
        now < pre.spec_poll(poll_id).start_ts || now > pre.spec_poll(poll_id).end_ts,
    ensures
        r == Err::<(), VotingError>(VotingError::NotInTimeWindow),
        same_state(post, pre),
{
}

/// Pass consumption: a successful vote burns exactly one pass from the
/// voter's balance in the poll's token class, which therefore was
/// positive before the call.
pub proof fn lemma_pass_consumption(
    pre: VotingSystem,
    post: VotingSystem,
    voter: u64,
    poll_id: u64,
    now: i64,
    vote_yes: bool,
    r: Result<(), VotingError>,
)
    requires
        vote_post(pre, post, voter, poll_id, now, vote_yes, r),
        r is Ok,
    ensures
        pre.spec_balance(pre.spec_poll(poll_id).voting_mint, voter) > 0,
        post.spec_balance(pre.spec_poll(poll_id).voting_mint, voter) == pre.spec_balance(
            pre.spec_poll(poll_id).voting_mint,
            voter,
        ) - 1,
{
}

/// Pass consumption, the defensive half: with no pass left, a vote
/// fails for want of a pass and moves nothing, even when the has-voted
/// flag is still clear.
pub proof fn lemma_no_pass_defense(
    pre: VotingSystem,
    post: VotingSystem,
    voter: u64,
    poll_id: u64,
    now: i64,
    vote_yes: bool,
    r: Result<(), VotingError>,
)
    requires
        vote_post(pre, post, voter, poll_id, now, vote_yes, r),
        pre.spec_poll(poll_id).is_active,
        pre.spec_poll(poll_id).in_vote_window(now),
        !pre.spec_voter_state(poll_id, voter).has_voted,
        pre.spec_voter_state(poll_id, voter).voter == voter,
        pre.spec_balance(pre.spec_poll(poll_id).voting_mint, voter) == 0,
    ensures
        r == Err::<(), VotingError>(VotingError::NoPass),
        same_state(post, pre),
{
}

/// Overflow safety: when every validation passes but the chosen tally
/// already sits at the maximum representable value, the vote fails as an
/// arithmetic overflow and the tally is left unchanged.
pub proof fn lemma_overflow_safety(
    pre: VotingSystem,
    post: VotingSystem,
    voter: u64,
    poll_id: u64,
    now: i64,
    vote_yes: bool,
    r: Result<(), VotingError>,
)
    requires
        vote_post(pre, post, voter, poll_id, now, vote_yes, r),
        pre.spec_poll(poll_id).is_active,
        pre.spec_poll(poll_id).in_vote_window(now),
        !pre.spec_voter_state(poll_id, voter).has_voted,
        pre.spec_voter_state(poll_id, voter).voter == voter,
        pre.spec_balance(pre.spec_poll(poll_id).voting_mint, voter) > 0,
        vote_yes ==> pre.spec_poll(poll_id).total_yes == u64::MAX,
        !vote_yes ==> pre.spec_poll(poll_id).total_no == u64::MAX,
    ensures
        r == Err::<(), VotingError>(VotingError::ArithmeticOverflow),
        same_state(post, pre),
{
}

/// Authorization: a start attempt and a pass issuance by any identity
/// other than the poll's admin both fail as unauthorized and move
/// nothing.
pub proof fn lemma_authorization(
    pre: VotingSystem,
    post_start: VotingSystem,
    post_mint: VotingSystem,
    caller: u64,
    poll_id: u64,
    recipient: u64,
    now: i64,
    r_start: Result<(), VotingError>,
    r_mint: Result<(), VotingError>,
)
    requires
        caller != pre.spec_poll(poll_id).admin,
        start_post(pre, post_start, caller, poll_id, now, r_start),
        mint_pass_post(pre, post_mint, caller, poll_id, recipient, r_mint),
    ensures
        r_start == Err::<(), VotingError>(VotingError::Unauthorized),
        same_state(post_start, pre),
        r_mint == Err::<(), VotingError>(VotingError::Unauthorized),
        same_state(post_mint, pre),
{
}

} // verus!
