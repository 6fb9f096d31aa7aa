//! Comparison of two register-file snapshots, for diagnostic tracing: which
//! tracked registers changed between them.

use vstd::prelude::*;

use crate::regs::{
    lemma_tracked_regs_equal_fields, tracked_regs_equal, valid_reg_index, GeneralRegisters,
};

verus! {

/// The comparison of two general-purpose register snapshots taken before and
/// after a change.
pub struct GeneralRegistersDiff {
    /// The snapshot taken before the change.
    pub before: GeneralRegisters,
    /// The snapshot taken after the change.
    pub after: GeneralRegisters,
}

impl GeneralRegistersDiff {
    /// Creates a new `GeneralRegistersDiff` from the two snapshots to compare.
    pub fn new(before: GeneralRegisters, after: GeneralRegisters) -> (r: Self)
        ensures
            r.before == before,
            r.after == after,
    {
        GeneralRegistersDiff { before, after }
    }

    /// Returns `true` if all tracked general-purpose registers are unchanged
    /// between the two snapshots. Index 4, the stack-pointer slot, is not a
    /// tracked register and is excluded from the comparison, whatever its
    /// underlying storage holds.
    pub fn is_same(&self) -> (r: bool)
        ensures
            r == tracked_regs_equal(self.before, self.after),
    {
        proof {
            lemma_tracked_regs_equal_fields(self.before, self.after);
        }
        self.before.rax == self.after.rax && self.before.rcx == self.after.rcx
            && self.before.rdx == self.after.rdx && self.before.rbx == self.after.rbx
            && self.before.rbp == self.after.rbp && self.before.rsi == self.after.rsi
            && self.before.rdi == self.after.rdi && self.before.r8 == self.after.r8
            && self.before.r9 == self.after.r9 && self.before.r10 == self.after.r10
            && self.before.r11 == self.after.r11 && self.before.r12 == self.after.r12
            && self.before.r13 == self.after.r13 && self.before.r14 == self.after.r14
            && self.before.r15 == self.after.r15
    }

    /// Reports, in increasing architectural-index order, exactly the tracked
    /// registers whose values differ between the two snapshots. Index 4, the
    /// stack-pointer slot, is never compared and never reported, whatever its
    /// underlying storage holds.
    pub fn changed_indices(&self) -> (r: Vec<u8>)
        ensures
            forall|k: int| 0 <= k < r@.len() ==> valid_reg_index(#[trigger] r@[k] as int),
            forall|i: u8|
                valid_reg_index(i as int)
                    ==> (#[trigger] r@.contains(i) <==> self.before.reg(i as int) != self.after.reg(
                        i as int,
                    )),
            forall|k1: int, k2: int| 0 <= k1 < k2 < r@.len() ==> r@[k1] < r@[k2],
    {
        let mut changed: Vec<u8> = Vec::new();
        let mut i: u8 = 0;
        while i < 16
            invariant
                i <= 16,
                forall|k: int|
                    0 <= k < changed@.len()
                        ==> valid_reg_index(#[trigger] changed@[k] as int) && changed@[k] < i,
                forall|j: u8|
                    j < i && valid_reg_index(j as int)
                        ==> (#[trigger] changed@.contains(j) <==> self.before.reg(j as int)
                            != self.after.reg(j as int)),
                forall|k1: int, k2: int|
                    0 <= k1 < k2 < changed@.len() ==> changed@[k1] < changed@[k2],
            decreases 16 - i,
        {
            proof {
                if changed@.contains(i) {
                    let k = choose|k: int| 0 <= k < changed@.len() && changed@[k] == i;
                    assert(valid_reg_index(changed@[k] as int) && changed@[k] < i);
                    assert(false);
                }
            }
            if i != 4 {
                if self.before.get_reg_of_index(i) != self.after.get_reg_of_index(i) {
                    let ghost prev = changed@;
                    changed.push(i);
                    proof {
                        assert(changed@ == prev.push(i));
                        assert(changed@[prev.len() as int] == i);
                        assert(changed@.contains(i));
                        assert forall|j: u8| j < i && valid_reg_index(j as int) implies (
                        #[trigger] changed@.contains(j) <==> prev.contains(j)) by {
                            if prev.contains(j) {
                                let k = choose|k: int| 0 <= k < prev.len() && prev[k] == j;
                                assert(changed@[k] == j);
                            }
                            if changed@.contains(j) {
                                let k = choose|k: int|
                                    0 <= k < changed@.len() && changed@[k] == j;
                                assert(k < prev.len());
                                assert(prev[k] == j);
                            }
                        }
                    }
                }
            }
            i = i + 1;
        }
        changed
    }
}

} // verus!
