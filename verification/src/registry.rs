use vstd::prelude::*;
use vstd::string::StrSliceExecFns;

use crate::errors::VotingError;
use crate::states::Poll;
use crate::states::QUESTION_LENGTH;
use crate::states::VoterState;

verus! {

/// Whether a creation request is acceptable: bounded question text and a
/// window whose start strictly precedes its end.
pub open spec fn valid_poll_config(question: Seq<char>, start_ts: i64, end_ts: i64) -> bool {
    &&& question.len() <= QUESTION_LENGTH
    &&& start_ts < end_ts
}

/// Build a new poll record, rejecting an over-long question or an
/// inverted (or empty) time window. A fresh poll is inactive with both
/// tallies at zero.
pub fn initialize_poll(
    admin: u64,
    poll_id: u64,
    question: String,
    start_ts: i64,
    end_ts: i64,
    voting_mint: u64,
) -> (r: Result<Poll, VotingError>)
    ensures
        r is Ok <==> valid_poll_config(question@, start_ts, end_ts),
        r matches Ok(p) ==> p == (Poll {
            admin,
            poll_id,
            question,
            start_ts,
            end_ts,
            is_active: false,
            voting_mint,
            total_yes: 0,
            total_no: 0,
        }),
        r is Err ==> r == Err::<Poll, VotingError>(VotingError::InvalidConfiguration),
{
    if question.as_str().unicode_len() > QUESTION_LENGTH {
        return Err(VotingError::InvalidConfiguration);
    }
    if !(start_ts < end_ts) {
        return Err(VotingError::InvalidConfiguration);
    }
    Ok(Poll {
        admin,
        poll_id,
        question,
        start_ts,
        end_ts,
        is_active: false,
        voting_mint,
        total_yes: 0,
        total_no: 0,
    })
}

/// The outcome the start transition owes for a given pre-state: the
/// first failed check wins, and only an authorized, in-window request on
/// a not-yet-active poll succeeds.
pub open spec fn start_poll_result(p: Poll, caller: u64, now: i64) -> Result<(), VotingError> {
    if caller != p.admin {
        Err(VotingError::Unauthorized)
    } else if !p.in_start_window(now) {
        Err(VotingError::NotInTimeWindow)
    } else if p.is_active {
        Err(VotingError::AlreadyActive)
    } else {
        Ok(())
    }
}

/// Flip the poll's activity flag false to true: only the admin may do it,
/// only inside `[start_ts, end_ts)`, and only once. On any failure the
/// poll is left exactly as it was.
pub fn start_poll(poll: &mut Poll, caller: u64, now: i64) -> (r: Result<(), VotingError>)
    ensures
        r == start_poll_result(*old(poll), caller, now),
        r is Ok ==> *final(poll) == (Poll { is_active: true, ..*old(poll) }),
        r is Err ==> *final(poll) == *old(poll),
{
    if caller != poll.admin {
        return Err(VotingError::Unauthorized);
    }
    if !(poll.start_ts <= now && now < poll.end_ts) {
        return Err(VotingError::NotInTimeWindow);
    }
    if poll.is_active {
        return Err(VotingError::AlreadyActive);
    }
    poll.is_active = true;
    Ok(())
}

/// Build the registration record for a (poll, voter) pair, with the
/// has-voted flag clear. Uniqueness of the pair is the record store's
/// concern, enforced where records are held.
pub fn initialize_voter_state(poll_id: u64, voter: u64) -> (vs: VoterState)
    ensures
        vs == (VoterState { poll: poll_id, voter, has_voted: false }),
{
    VoterState { poll: poll_id, voter, has_voted: false }
}

} // verus!
