use vstd::prelude::*;

use crate::errors::VotingError;

verus! {

/// One balance the ledger tracks: how many passes of one token class one
/// holder owns.
#[derive(Clone, Copy, Debug, PartialEq, Eq, Structural)]
pub struct LedgerEntry {
    /// The capability-token class the balance belongs to.
    pub token_class: u64,
    /// The identity holding the balance.
    pub holder: u64,
    /// The number of passes held; every absent pair holds zero.
    pub amount: u64,
}

/// The capability-token ledger: a balance per (token class, holder) pair,
/// mutated only by minting and burning one pass at a time.
pub struct TokenLedger {
    /// The tracked balances, at most one entry per (class, holder) pair.
    pub entries: Vec<LedgerEntry>,
}

impl TokenLedger {
    /// At most one entry exists per (class, holder) pair.
    pub open spec fn wf(self) -> bool {
        forall|i: int, j: int|
            0 <= i < self.entries@.len() && 0 <= j < self.entries@.len() && i != j
                ==> !(#[trigger] self.entries@[i].token_class == #[trigger] self.entries@[j].token_class
                    && self.entries@[i].holder == self.entries@[j].holder)
    }

    /// Whether some entry tracks the pair.
    pub open spec fn has_entry(self, token_class: u64, holder: u64) -> bool {
        exists|i: int|
            0 <= i < self.entries@.len() && (#[trigger] self.entries@[i]).token_class == token_class
                && self.entries@[i].holder == holder
    }

    /// The index of the entry tracking the pair, where one exists.
    pub open spec fn entry_index(self, token_class: u64, holder: u64) -> int {
        choose|i: int|
            0 <= i < self.entries@.len() && (#[trigger] self.entries@[i]).token_class == token_class
                && self.entries@[i].holder == holder
    }

    /// The balance of a pair: its entry's amount, or zero where no entry
    /// exists.
    pub open spec fn spec_balance(self, token_class: u64, holder: u64) -> u64 {
        if self.has_entry(token_class, holder) {
            self.entries@[self.entry_index(token_class, holder)].amount
        } else {
            0
        }
    }

    /// A fresh ledger holds no balance at all.
    pub fn new() -> (l: TokenLedger)
        ensures
            l.wf(),
            forall|c: u64, h: u64| #[trigger] l.spec_balance(c, h) == 0,
    {
        TokenLedger { entries: Vec::new() }
    }

    /// Read-only balance query.
    pub fn balance_of(&self, token_class: u64, holder: u64) -> (r: u64)
        requires
            self.wf(),
        ensures
            r == self.spec_balance(token_class, holder),
    {
        let n = self.entries.len();
        let mut i: usize = 0;
        while i < n
            invariant
                self.wf(),
                n == self.entries@.len(),
                0 <= i <= n,
                forall|j: int|
                    0 <= j < i ==> !((#[trigger] self.entries@[j]).token_class == token_class
                        && self.entries@[j].holder == holder),
            decreases n - i,
        {
            if self.entries[i].token_class == token_class && self.entries[i].holder == holder {
                proof {
                    self.lemma_entry_index_is(i as int, token_class, holder);
                }
                return self.entries[i].amount;
            }
            i += 1;
        }
        assert(!self.has_entry(token_class, holder));
        0
    }

    /// With unique pairs, the entry found at `i` is the entry
    /// `entry_index` denotes.
    proof fn lemma_entry_index_is(self, i: int, token_class: u64, holder: u64)
        requires
            self.wf(),
            0 <= i < self.entries@.len(),
            self.entries@[i].token_class == token_class,
            self.entries@[i].holder == holder,
        ensures
            self.has_entry(token_class, holder),
            self.entry_index(token_class, holder) == i,
    {
        assert(self.has_entry(token_class, holder));
        let k = self.entry_index(token_class, holder);
        assert(0 <= k < self.entries@.len() && self.entries@[k].token_class == token_class
            && self.entries@[k].holder == holder);
        if k != i {
            assert(false);
        }
    }

    /// Create one pass of the class for the recipient. Fails only when
    /// the balance is already at its maximum representable value; no
    /// other balance changes either way.
    pub fn mint_one(&mut self, token_class: u64, holder: u64) -> (r: Result<(), VotingError>)
        requires
            old(self).wf(),
        ensures
            final(self).wf(),
            r is Ok <==> old(self).spec_balance(token_class, holder) < u64::MAX,
            r is Err ==> r == Err::<(), VotingError>(VotingError::ArithmeticOverflow)
                && *final(self) == *old(self),
            r is Ok ==> final(self).spec_balance(token_class, holder)
                == old(self).spec_balance(token_class, holder) + 1,
            forall|c: u64, h: u64|
                !(c == token_class && h == holder)
                    ==> #[trigger] final(self).spec_balance(c, h) == old(self).spec_balance(c, h),
    {
        let n = self.entries.len();
        let mut i: usize = 0;
        while i < n
            invariant
                self.wf(),
                *self == *old(self),
                n == self.entries@.len(),
                0 <= i <= n,
                forall|j: int|
                    0 <= j < i ==> !((#[trigger] self.entries@[j]).token_class == token_class
                        && self.entries@[j].holder == holder),
            decreases n - i,
        {
            if self.entries[i].token_class == token_class && self.entries[i].holder == holder {
                proof {
                    self.lemma_entry_index_is(i as int, token_class, holder);
                }
                let amount = self.entries[i].amount;
                if amount == u64::MAX {
                    return Err(VotingError::ArithmeticOverflow);
                }
                self.entries[i] = LedgerEntry { token_class, holder, amount: amount + 1 };
                proof {
                    self.lemma_entry_index_is(i as int, token_class, holder);
                    assert forall|c: u64, h: u64| !(c == token_class && h == holder)
                        implies #[trigger] self.spec_balance(c, h)
                            == old(self).spec_balance(c, h) by {
                        self.lemma_balance_other(*old(self), i as int, c, h);
                    }
                }
                return Ok(());
            }
            i += 1;
        }
        assert(!self.has_entry(token_class, holder));
        self.entries.push(LedgerEntry { token_class, holder, amount: 1 });
        proof {
            self.lemma_entry_index_is(n as int, token_class, holder);
            assert forall|c: u64, h: u64| !(c == token_class && h == holder)
                implies #[trigger] self.spec_balance(c, h) == old(self).spec_balance(c, h) by {
                self.lemma_balance_other(*old(self), n as int, c, h);
            }
        }
        Ok(())
    }

    /// Destroy one pass of the class from the holder's balance. Fails
    /// only when the balance is zero; no other balance changes either
    /// way.
    pub fn burn_one(&mut self, token_class: u64, holder: u64) -> (r: Result<(), VotingError>)
        requires
            old(self).wf(),
        ensures
            final(self).wf(),
            r is Ok <==> old(self).spec_balance(token_class, holder) > 0,
            r is Err ==> r == Err::<(), VotingError>(VotingError::NoPass)
                && *final(self) == *old(self),
            r is Ok ==> final(self).spec_balance(token_class, holder)
                == old(self).spec_balance(token_class, holder) - 1,
            forall|c: u64, h: u64|
                !(c == token_class && h == holder)
                    ==> #[trigger] final(self).spec_balance(c, h) == old(self).spec_balance(c, h),
    {
        let n = self.entries.len();
        let mut i: usize = 0;
        while i < n
            invariant
                self.wf(),
                *self == *old(self),
                n == self.entries@.len(),
                0 <= i <= n,
                forall|j: int|
                    0 <= j < i ==> !((#[trigger] self.entries@[j]).token_class == token_class
                        && self.entries@[j].holder == holder),
            decreases n - i,
        {
            if self.entries[i].token_class == token_class && self.entries[i].holder == holder {
                proof {
                    self.lemma_entry_index_is(i as int, token_class, holder);
                }
                let amount = self.entries[i].amount;
                if amount == 0 {
                    return Err(VotingError::NoPass);
                }
                self.entries[i] = LedgerEntry { token_class, holder, amount: amount - 1 };
                proof {
                    self.lemma_entry_index_is(i as int, token_class, holder);
                    assert forall|c: u64, h: u64| !(c == token_class && h == holder)
                        implies #[trigger] self.spec_balance(c, h)
                            == old(self).spec_balance(c, h) by {
                        self.lemma_balance_other(*old(self), i as int, c, h);
                    }
                }
                return Ok(());
            }
            i += 1;
        }
        assert(!self.has_entry(token_class, holder));
        Err(VotingError::NoPass)
    }

    /// When two ledgers agree everywhere but at one index, every pair not
    /// keyed like that index keeps its balance.
    proof fn lemma_balance_other(self, prior: TokenLedger, at: int, c: u64, h: u64)
        requires
            self.wf(),
            prior.wf(),
            0 <= at < self.entries@.len(),
            self.entries@.len() == prior.entries@.len()
                || self.entries@.len() == prior.entries@.len() + 1,
            forall|j: int|
                0 <= j < self.entries@.len() && j != at
                    ==> #[trigger] self.entries@[j] == prior.entries@[j],
            !(c == self.entries@[at].token_class && h == self.entries@[at].holder),
            self.entries@.len() == prior.entries@.len()
                ==> self.entries@[at].token_class == prior.entries@[at].token_class
                    && self.entries@[at].holder == prior.entries@[at].holder,
            self.entries@.len() == prior.entries@.len() + 1 ==> at == prior.entries@.len(),
        ensures
            self.spec_balance(c, h) == prior.spec_balance(c, h),
    {
        if self.has_entry(c, h) {
            let k = self.entry_index(c, h);
            assert(k != at);
            assert(prior.entries@[k] == self.entries@[k]);
            prior.lemma_entry_index_is(k, c, h);
            self.lemma_entry_index_is(k, c, h);
        } else {
            if prior.has_entry(c, h) {
                let k = prior.entry_index(c, h);
                assert(0 <= k < prior.entries@.len() && prior.entries@[k].token_class == c
                    && prior.entries@[k].holder == h);
                assert(k != at ==> self.entries@[k] == prior.entries@[k]);
                assert(self.has_entry(c, h));
            }
        }
    }
}

} // verus!
