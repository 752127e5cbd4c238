//! Lifecycle bookkeeping kept beside a native solver handle: which variables
//! the engine has handed out, and whether a model or a conflict set may be
//! read (only until the next change to the solver).
use crate::lit::{Lit, Var};
use crate::native::{decode_var, EngineFault};
use vstd::prelude::*;

verus! {

/// What the last operation left readable.
#[derive(Clone, Copy, Debug, PartialEq, Eq, Structural)]
pub enum Phase {
    /// No verdict, or the solver changed since the last one.
    Ready,
    /// The last `solve` found a model, which may be queried.
    Satisfied,
    /// The last `solve` found a conflict, which may be queried.
    Unsatisfied,
}

/// Every literal of `lits` is over a variable below `n`.
pub open spec fn within(lits: Seq<Lit>, n: nat) -> bool {
    forall|i: int| 0 <= i < lits.len() ==> (#[trigger] lits[i]).var_spec() < n
}

/// The count of variables after the engine hands out index `idx`.
pub open spec fn count_after(n: nat, idx: nat) -> nat {
    if idx + 1 > n { idx + 1 } else { n }
}

/// Bookkeeping for one solver instance.
pub struct Session {
    pub num_var: usize,
    pub phase: Phase,
    pub eliminated: bool,
}

impl Session {
    /// A fresh instance: no variables, no verdict, nothing eliminated.
    pub fn new() -> (r: Session)
        ensures
            r.num_var == 0,
            r.phase == Phase::Ready,
            !r.eliminated,
    {
        Session { num_var: 0, phase: Phase::Ready, eliminated: false }
    }

    /// Records the index that the engine returned for a new variable.
    /// A negative index is a fault and leaves the bookkeeping unchanged.
    pub fn record_new_var(&mut self, code: i32) -> (r: Result<Var, EngineFault>)
        ensures
            code < 0 ==> r == Err::<Var, EngineFault>(EngineFault::NegativeIndex { code })
                && *final(self) == *old(self),
            code >= 0 ==> r == Ok::<Var, EngineFault>(Var { index: code as u32 }),
            code >= 0 ==> final(self).num_var == count_after(
                old(self).num_var as nat,
                code as nat,
            ),
            code >= 0 ==> final(self).phase == Phase::Ready,
            final(self).eliminated == old(self).eliminated,
    {
        let r = decode_var(code);
        if code >= 0 {
            let next: usize = code as usize + 1;
            if next > self.num_var {
                self.num_var = next;
            }
            self.phase = Phase::Ready;
        }
        r
    }

    /// Whether every literal of `lits` is over a variable this instance
    /// has handed out.
    pub fn knows(&self, lits: &[Lit]) -> (r: bool)
        ensures
            r == within(lits@, self.num_var as nat),
    {
        let mut i: usize = 0;
        while i < lits.len()
            invariant
                i <= lits@.len(),
                within(lits@.subrange(0, i as int), self.num_var as nat),
            decreases lits@.len() - i,
        {
            if (lits[i].code / 2) as usize >= self.num_var {
                assert(!(lits@[i as int].var_spec() < self.num_var));
                return false;
            }
            assert(within(lits@.subrange(0, i as int + 1), self.num_var as nat)) by {
                assert forall|j: int| 0 <= j < i + 1 implies (#[trigger] lits@.subrange(
                    0,
                    i as int + 1,
                )[j]).var_spec() < self.num_var by {
                    if j < i {
                        assert(lits@.subrange(0, i as int)[j] == lits@[j]);
                    }
                }
            }
            i = i + 1;
        }
        assert(lits@.subrange(0, i as int) =~= lits@);
        true
    }

    /// Records a change to the clause database, a release or a
    /// simplification: any verdict read so far is void.
    pub fn record_change(&mut self)
        ensures
            final(self).phase == Phase::Ready,
            final(self).num_var == old(self).num_var,
            final(self).eliminated == old(self).eliminated,
    {
        self.phase = Phase::Ready;
    }

    /// Records the verdict of a `solve` call.
    pub fn record_verdict(&mut self, satisfiable: bool)
        ensures
            final(self).phase == (if satisfiable { Phase::Satisfied } else { Phase::Unsatisfied }),
            final(self).num_var == old(self).num_var,
            final(self).eliminated == old(self).eliminated,
    {
        self.phase = if satisfiable { Phase::Satisfied } else { Phase::Unsatisfied };
    }

    /// Records variable elimination: freezing a variable afterwards can no
    /// longer protect it.
    pub fn record_elimination(&mut self)
        ensures
            final(self).eliminated,
            final(self).phase == Phase::Ready,
            final(self).num_var == old(self).num_var,
    {
        self.eliminated = true;
        self.phase = Phase::Ready;
    }

    /// Whether a model value may be read for `l`.
    pub fn may_read_model(&self, l: Lit) -> (r: bool)
        ensures
            r == (self.phase == Phase::Satisfied && l.var_spec() < self.num_var),
    {
        self.phase == Phase::Satisfied && ((l.code / 2) as usize) < self.num_var
    }

    /// Whether the conflict set may be asked about `l`.
    pub fn may_read_conflict(&self, l: Lit) -> (r: bool)
        ensures
            r == (self.phase == Phase::Unsatisfied && l.var_spec() < self.num_var),
    {
        self.phase == Phase::Unsatisfied && ((l.code / 2) as usize) < self.num_var
    }

    /// Whether freezing `v` still protects it from elimination.
    pub fn may_freeze(&self, v: Var) -> (r: bool)
        ensures
            r == (!self.eliminated && (v.index as nat) < self.num_var),
    {
        !self.eliminated && (v.index as usize) < self.num_var
    }
}

/// After a release, the engine may hand an index out again: a reused index
/// leaves the count of variables as it was, while a fresh index one past the
/// count grows it by exactly one.
pub proof fn lemma_new_var_count(n: nat, idx: nat)
    ensures
        idx < n ==> count_after(n, idx) == n,
        idx == n ==> count_after(n, idx) == n + 1,
        count_after(n, idx) >= n,
        idx < count_after(n, idx),
{
}

} // verus!
