//! The registry of locked outputs: a proposal locks the outputs it spends,
//! so that no concurrent proposal can spend them too, and gives them back
//! when it fails before finalization.
use vstd::prelude::*;

verus! {

broadcast use vstd::seq_lib::group_seq_properties;

/// Whether `x` is among the items of `v`.
pub fn contains_output(v: &Vec<u64>, x: u64) -> (r: bool)
    ensures
        r == v@.contains(x),
{
    let mut i: usize = 0;
    while i < v.len()
        invariant
            i <= v@.len(),
            forall|j: int| 0 <= j < i ==> v@[j] != x,
        decreases v@.len() - i,
    {
        if v[i] == x {
            return true;
        }
        i = i + 1;
    }
    false
}

/// The outputs locked by the proposals in flight, each held once.
#[derive(Debug, Clone)]
pub struct FundLocks {
    pub locked: Vec<u64>,
}

impl View for FundLocks {
    type V = Set<u64>;

    open spec fn view(&self) -> Set<u64> {
        self.locked@.to_set()
    }
}

impl FundLocks {
    /// No output is held twice.
    pub open spec fn wf(&self) -> bool {
        self.locked@.no_duplicates()
    }

    /// A registry with nothing locked.
    pub fn new() -> (l: FundLocks)
        ensures
            l.wf(),
            l@ == Set::<u64>::empty(),
    {
        let l = FundLocks { locked: Vec::new() };
        assert(l@ =~= Set::<u64>::empty());
        l
    }

    /// How many outputs are locked.
    pub fn count(&self) -> (n: usize)
        requires
            self.wf(),
        ensures
            n == self@.len(),
    {
        proof {
            self.locked@.unique_seq_to_set();
        }
        self.locked.len()
    }

    /// Whether `output` is locked.
    pub fn is_locked(&self, output: u64) -> (r: bool)
        ensures
            r == self@.contains(output),
    {
        contains_output(&self.locked, output)
    }

    /// Locks all of `outputs`, or none: when any of them is already locked
    /// the registry stays as it was and the lock is refused.
    pub fn try_lock(&mut self, outputs: &Vec<u64>) -> (r: bool)
        requires
            old(self).wf(),
        ensures
            final(self).wf(),
            r == old(self)@.disjoint(outputs@.to_set()),
            r ==> final(self)@ == old(self)@.union(outputs@.to_set()),
            !r ==> final(self)@ == old(self)@,
    {
        let mut i: usize = 0;
        while i < outputs.len()
            invariant
                i <= outputs@.len(),
                forall|j: int| 0 <= j < i ==> !old(self)@.contains(#[trigger] outputs@[j]),
                *self == *old(self),
                self.wf(),
            decreases outputs@.len() - i,
        {
            if self.is_locked(outputs[i]) {
                assert(outputs@.to_set().contains(outputs@[i as int]));
                return false;
            }
            i = i + 1;
        }
        assert(old(self)@.disjoint(outputs@.to_set()));
        let mut k: usize = 0;
        while k < outputs.len()
            invariant
                k <= outputs@.len(),
                self.wf(),
                self@ == old(self)@.union(outputs@.subrange(0, k as int).to_set()),
            decreases outputs@.len() - k,
        {
            let o = outputs[k];
            assert(outputs@.subrange(0, k + 1) =~= outputs@.subrange(0, k as int).push(o));
            proof {
                outputs@.subrange(0, k as int).lemma_push_to_set_commute(o);
            }
            if !self.is_locked(o) {
                let ghost before = self.locked@;
                self.locked.push(o);
                assert(self.locked@ == before.push(o));
                proof {
                    before.lemma_push_to_set_commute(o);
                }
                assert(self.locked@.no_duplicates()) by {
                    assert forall|a: int, b: int|
                        0 <= a < self.locked@.len() && 0 <= b < self.locked@.len() && a != b implies self.locked@[a]
                        != self.locked@[b] by {
                        if a < before.len() && b < before.len() {
                        } else if a == before.len() {
                            assert(before.contains(before[b]));
                        } else {
                            assert(before.contains(before[a]));
                        }
                    }
                }
            }
            assert(self@ =~= old(self)@.union(outputs@.subrange(0, k + 1).to_set()));
            k = k + 1;
        }
        assert(outputs@.subrange(0, outputs@.len() as int) =~= outputs@);
        true
    }

    /// Releases `outputs`; those not locked are ignored.
    pub fn release(&mut self, outputs: &Vec<u64>)
        requires
            old(self).wf(),
        ensures
            final(self).wf(),
            final(self)@ == old(self)@.difference(outputs@.to_set()),
    {
        let mut kept: Vec<u64> = Vec::new();
        let mut i: usize = 0;
        while i < self.locked.len()
            invariant
                i <= self.locked@.len(),
                *self == *old(self),
                self.wf(),
                kept@.no_duplicates(),
                kept@.to_set() == self.locked@.subrange(0, i as int).to_set().difference(
                    outputs@.to_set(),
                ),
            decreases self.locked@.len() - i,
        {
            let o = self.locked[i];
            let ghost prefix = self.locked@.subrange(0, i as int);
            assert(self.locked@.subrange(0, i + 1) =~= prefix.push(o));
            proof {
                prefix.lemma_push_to_set_commute(o);
            }
            assert(!prefix.contains(o)) by {
                if prefix.contains(o) {
                    let j = choose|j: int| 0 <= j < prefix.len() && prefix[j] == o;
                    assert(self.locked@[j] == self.locked@[i as int]);
                }
            }
            if !contains_output(outputs, o) {
                let ghost before = kept@;
                kept.push(o);
                proof {
                    before.lemma_push_to_set_commute(o);
                }
                assert(!before.to_set().contains(o));
                assert(!before.contains(o));
                assert(kept@ == before.push(o));
                assert(kept@.no_duplicates()) by {
                    assert forall|a: int, b: int|
                        0 <= a < kept@.len() && 0 <= b < kept@.len() && a != b implies kept@[a]
                        != kept@[b] by {
                        if a < before.len() && b < before.len() {
                        } else if a == before.len() {
                            assert(before.contains(before[b]));
                        } else {
                            assert(before.contains(before[a]));
                        }
                    }
                }
            }
            assert(kept@.to_set() =~= self.locked@.subrange(0, i + 1).to_set().difference(
                outputs@.to_set(),
            ));
            i = i + 1;
        }
        assert(self.locked@.subrange(0, self.locked@.len() as int) =~= self.locked@);
        self.locked = kept;
    }
}

/// Locking outputs that were free and releasing them again leaves the
/// registry as it was before the proposal, with as many outputs locked.
pub proof fn lemma_lock_then_release(before: Set<u64>, outputs: Set<u64>)
    requires
        before.finite(),
        before.disjoint(outputs),
    ensures
        before.union(outputs).difference(outputs) == before,
        before.union(outputs).difference(outputs).len() == before.len(),
{
    assert(before.union(outputs).difference(outputs) =~= before);
}

/// Two proposals never hold the same output: a lock is refused while any
/// of its outputs is held, so whatever succeeds is disjoint from what was
/// locked before it.
pub proof fn lemma_no_double_lock(held: Set<u64>, first: Set<u64>, second: Set<u64>)
    requires
        held.disjoint(first),
        held.union(first).disjoint(second),
    ensures
        first.disjoint(second),
{
    assert forall|o: u64| first.contains(o) implies !second.contains(o) by {
        assert(held.union(first).contains(o));
    }
}

} // verus!
