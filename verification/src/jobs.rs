//! The overdue sweep.

use vstd::prelude::*;
use crate::clock::Date;
use crate::laws::mark_overdue_keeps_invariants;
use crate::ledger::{count_due, Ledger};

verus! {

/// Marks every delegation that is out past its return date as overdue, and
/// says how many it marked. Stock and standings do not change.
pub fn mark_overdue(ledger: &mut Ledger, today: Date) -> (changed: u64)
    requires
        old(ledger).wf(),
    ensures
        final(ledger).wf(),
        final(ledger)@ == old(ledger)@.sweep(today),
        changed == old(ledger)@.due_count(today),
{
    let ghost before = ledger@;
    let count: usize = ledger.delegation_count();
    let mut changed: u64 = 0;
    let mut position: usize = 0;
    while position < count
        invariant
            position <= count,
            count == before.delegations.len(),
            ledger.stored_soundly(),
            ledger@.tools == before.tools,
            ledger@.students == before.students,
            ledger@.next_id == before.next_id,
            ledger@.delegations.len() == count,
            forall|i: int|
                0 <= i < position ==> #[trigger] ledger@.delegations[i] == before.sweep(
                    today,
                ).delegations[i],
            forall|i: int|
                position <= i < count ==> #[trigger] ledger@.delegations[i]
                    == before.delegations[i],
            changed == count_due(before.delegations.take(position as int), today),
            changed <= position,
        decreases count - position,
    {
        proof {
            assert(before.delegations.take(position + 1).drop_last()
                =~= before.delegations.take(position as int));
        }
        if ledger.flag_overdue_at(position, &today) {
            changed = changed + 1;
        }
        position = position + 1;
    }
    proof {
        assert(before.delegations.take(count as int) =~= before.delegations);
        assert(ledger@.delegations =~= before.sweep(today).delegations);
        mark_overdue_keeps_invariants(before, today);
    }
    changed
}

} // verus!
