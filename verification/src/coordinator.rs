use vstd::prelude::*;

use crate::errors::VotingError;
use crate::ledger::TokenLedger;
use crate::states::Poll;
use crate::states::VoterState;

verus! {

/// The outcome pass issuance owes for a given pre-state: only the poll's
/// admin may mint, and the recipient's balance must be representable
/// after one more pass.
pub open spec fn mint_pass_result(p: Poll, caller: u64, balance: u64) -> Result<
    (),
    VotingError,
> {
    if caller != p.admin {
        Err(VotingError::Unauthorized)
    } else if balance == u64::MAX {
        Err(VotingError::ArithmeticOverflow)
    } else {
        Ok(())
    }
}

/// Mint one voting pass of the poll's token class to the recipient,
/// gated on the caller being the poll's admin. On any failure the ledger
/// is left exactly as it was; on success only the recipient's balance in
/// that class changes, and it grows by exactly one.
pub fn mint_voting_pass(
    poll: &Poll,
    ledger: &mut TokenLedger,
    caller: u64,
    recipient: u64,
) -> (r: Result<(), VotingError>)
    requires
        old(ledger).wf(),
    ensures
        final(ledger).wf(),
        r == mint_pass_result(*poll, caller, old(ledger).spec_balance(poll.voting_mint, recipient)),
        r is Err ==> *final(ledger) == *old(ledger),
        r is Ok ==> final(ledger).spec_balance(poll.voting_mint, recipient)
            == old(ledger).spec_balance(poll.voting_mint, recipient) + 1,
        forall|c: u64, h: u64|
            !(c == poll.voting_mint && h == recipient)
                ==> #[trigger] final(ledger).spec_balance(c, h) == old(ledger).spec_balance(c, h),
{
    if caller != poll.admin {
        return Err(VotingError::Unauthorized);
    }
    let r = ledger.mint_one(poll.voting_mint, recipient);
    proof {
        if r is Ok {
            assert(r->Ok_0 == ());
            assert(r == Ok::<(), VotingError>(()));
        }
    }
    r
}

/// The outcome a vote owes for a given pre-state, with the first failed
/// check winning: the poll must be active, the time inside the inclusive
/// window, the voter's record unused and their own, the pass balance
/// positive, and the chosen tally not yet at its maximum.
pub open spec fn cast_vote_result(
    p: Poll,
    vs: VoterState,
    balance: u64,
    voter: u64,
    now: i64,
    vote_yes: bool,
) -> Result<(), VotingError> {
    if !p.is_active {
        Err(VotingError::NotActive)
    } else if !p.in_vote_window(now) {
        Err(VotingError::NotInTimeWindow)
    } else if vs.has_voted {
        Err(VotingError::AlreadyVoted)
    } else if vs.voter != voter {
        Err(VotingError::Unauthorized)
    } else if balance == 0 {
        Err(VotingError::NoPass)
    } else if vote_yes && p.total_yes == u64::MAX {
        Err(VotingError::ArithmeticOverflow)
    } else if !vote_yes && p.total_no == u64::MAX {
        Err(VotingError::ArithmeticOverflow)
    } else {
        Ok(())
    }
}

/// The poll after a successful vote: the chosen tally grows by one and
/// every other field is untouched.
pub open spec fn cast_vote_effect(p: Poll, vote_yes: bool) -> Poll {
    if vote_yes {
        Poll { total_yes: (p.total_yes + 1) as u64, ..p }
    } else {
        Poll { total_no: (p.total_no + 1) as u64, ..p }
    }
}

/// Cast one vote as a single all-or-nothing step. All validation runs
/// first; only when every check passes do the three effects land
/// together: one pass is burned from the voter's balance, the voter's
/// record is marked used, and the chosen tally grows by one. On any
/// failure nothing changes at all.
pub fn cast_vote(
    poll: &mut Poll,
    voter_state: &mut VoterState,
    ledger: &mut TokenLedger,
    voter: u64,
    now: i64,
    vote_yes: bool,
) -> (r: Result<(), VotingError>)
    requires
        old(ledger).wf(),
    ensures
        final(ledger).wf(),
        r == cast_vote_result(
            *old(poll),
            *old(voter_state),
            old(ledger).spec_balance(old(poll).voting_mint, voter),
            voter,
            now,
            vote_yes,
        ),
        r is Err ==> *final(poll) == *old(poll) && *final(voter_state) == *old(voter_state)
            && *final(ledger) == *old(ledger),
        r is Ok ==> *final(poll) == cast_vote_effect(*old(poll), vote_yes),
        r is Ok ==> *final(voter_state) == (VoterState { has_voted: true, ..*old(voter_state) }),
        r is Ok ==> final(ledger).spec_balance(old(poll).voting_mint, voter)
            == old(ledger).spec_balance(old(poll).voting_mint, voter) - 1,
        forall|c: u64, h: u64|
            !(c == old(poll).voting_mint && h == voter)
                ==> #[trigger] final(ledger).spec_balance(c, h) == old(ledger).spec_balance(c, h),
{
    if !poll.is_active {
        return Err(VotingError::NotActive);
    }
    if !(poll.start_ts <= now && now <= poll.end_ts) {
        return Err(VotingError::NotInTimeWindow);
    }
    if voter_state.has_voted {
        return Err(VotingError::AlreadyVoted);
    }
    if voter_state.voter != voter {
        return Err(VotingError::Unauthorized);
    }
    let balance = ledger.balance_of(poll.voting_mint, voter);
    if balance == 0 {
        return Err(VotingError::NoPass);
    }
    if vote_yes && poll.total_yes == u64::MAX {
        return Err(VotingError::ArithmeticOverflow);
    }
    if !vote_yes && poll.total_no == u64::MAX {
        return Err(VotingError::ArithmeticOverflow);
    }
    let burned = ledger.burn_one(poll.voting_mint, voter);
    assert(burned is Ok);
    voter_state.has_voted = true;
    if vote_yes {
        poll.total_yes = poll.total_yes + 1;
    } else {
        poll.total_no = poll.total_no + 1;
    }
    Ok(())
}

} // verus!
