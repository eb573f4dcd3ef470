//! What holds of the ledger whatever is asked of it.

use vstd::prelude::*;
use crate::clock::{Date, Moment};
use crate::delegations::models::{
    ConditionGrade,
    DelegationState,
    DelegationStatus,
    IssueOrder,
    Resolution,
};
use crate::errors::ErrorKind;
use crate::ledger::{slot_is_position, LedgerState, Operation};
use crate::standing::{adjusted_keeps_consistency, BAN_THRESHOLD};
use crate::students::models::AccountStatus;

verus! {

/// Replacing a delegation by a sound one of the same id keeps the ledger's
/// invariants.
pub proof fn replacing_keeps_invariants(state: LedgerState, id: i32, delegation: DelegationState)
    requires
        state.wf(),
        state.holds(id),
        delegation.wf(),
        delegation.id == id,
    ensures
        state.with_delegation(id, delegation).wf(),
        state.with_delegation(id, delegation).holds(id),
        state.with_delegation(id, delegation).delegation(id) == delegation,
        state.with_delegation(id, delegation).delegations.len() == state.delegations.len(),
{
    let i = state.slot(id);
    let next = state.with_delegation(id, delegation);
    assert(0 <= i < state.delegations.len() && state.delegations[i].id == id);
    assert forall|a: int, b: int| 0 <= a < b < next.delegations.len() implies (
    #[trigger] next.delegations[a]).id != (#[trigger] next.delegations[b]).id by {
        assert(state.delegations[a].id != state.delegations[b].id);
    }
    assert forall|a: int| 0 <= a < next.delegations.len() implies (
    #[trigger] next.delegations[a]).wf() && next.delegations[a].id < next.next_id by {
        assert(state.delegations[a].wf());
    }
    assert(next.delegations[i].id == id);
    slot_is_position(next, i);
}

/// Issue keeps the ledger's invariants, and the delegation it opens is
/// found under the id it was given.
pub proof fn issue_keeps_invariants(state: LedgerState, order: IssueOrder, now: Moment)
    requires
        state.wf(),
    ensures
        state.issue(order, now) matches Ok(next) ==> {
            &&& next.wf()
            &&& next.holds(state.next_id as i32)
            &&& next.delegation(state.next_id as i32) == order.opened(state.next_id as i32, now)
        },
{
    if let Ok(next) = state.issue(order, now) {
        assert(next.delegations[state.delegations.len() as int] == order.opened(
            state.next_id as i32,
            now,
        ));
        assert(state.tools[order.tool_id].wf());
        assert forall|id: i32| next.tools.contains_key(id) implies (
        #[trigger] next.tools[id]).wf() by {
            if id != order.tool_id {
                assert(state.tools[id].wf());
            }
        }
        assert forall|i: int| 0 <= i < next.delegations.len() implies (
        #[trigger] next.delegations[i]).wf() && next.delegations[i].id < next.next_id by {
            if i < state.delegations.len() {
                assert(state.delegations[i].wf());
            }
        }
        assert forall|a: int, b: int| 0 <= a < b < next.delegations.len() implies (
        #[trigger] next.delegations[a]).id != (#[trigger] next.delegations[b]).id by {
            assert(state.delegations[a].wf());
            if b < state.delegations.len() {
                assert(state.delegations[a].id != state.delegations[b].id);
            }
        }
        slot_is_position(next, state.delegations.len() as int);
    }
}

/// Return keeps the ledger's invariants, and leaves the delegation returned.
pub proof fn return_keeps_invariants(
    state: LedgerState,
    id: i32,
    condition_after: ConditionGrade,
    now: Moment,
)
    requires
        state.wf(),
    ensures
        state.give_back(id, condition_after, now) matches Ok(next) ==> {
            &&& next.wf()
            &&& next.holds(id)
            &&& next.delegation(id) == state.delegation(id).returned(condition_after, now)
        },
{
    if let Ok(next) = state.give_back(id, condition_after, now) {
        let delegation = state.delegation(id);
        let i = state.slot(id);
        assert(0 <= i < state.delegations.len() && state.delegations[i].id == id);
        assert(delegation.wf());
        let middle = state.with_tool(
            delegation.tool_id,
            state.tools[delegation.tool_id].released(delegation.quantity),
        );
        assert(state.tools[delegation.tool_id].wf());
        assert forall|t: i32| middle.tools.contains_key(t) implies (
        #[trigger] middle.tools[t]).wf() by {
            if t != delegation.tool_id {
                assert(state.tools[t].wf());
            }
        }
        assert(middle.wf());
        assert(middle.holds(id)) by {
            assert(middle.delegations[i].id == id);
        }
        assert(middle.slot(id) == state.slot(id));
        replacing_keeps_invariants(middle, id, delegation.returned(condition_after, now));
    }
}

/// MarkLost keeps the ledger's invariants, and leaves the delegation lost.
pub proof fn mark_lost_keeps_invariants(
    state: LedgerState,
    id: i32,
    condition_after: ConditionGrade,
)
    requires
        state.wf(),
    ensures
        state.report_lost(id, condition_after) matches Ok(next) ==> {
            &&& next.wf()
            &&& next.holds(id)
            &&& next.delegation(id) == state.delegation(id).lost(condition_after)
        },
{
    if let Ok(next) = state.report_lost(id, condition_after) {
        let delegation = state.delegation(id);
        let i = state.slot(id);
        assert(0 <= i < state.delegations.len() && state.delegations[i].id == id);
        assert(delegation.wf());
        let standing = state.students[delegation.student_id];
        assert(standing.wf());
        adjusted_keeps_consistency(standing, 1);
        let middle = state.with_student(delegation.student_id, standing.after_loss());
        assert forall|s: Seq<char>| middle.students.contains_key(s) implies (
        #[trigger] middle.students[s]).wf() by {
            if s != delegation.student_id {
                assert(state.students[s].wf());
            }
        }
        assert(middle.wf());
        assert(middle.holds(id)) by {
            assert(middle.delegations[i].id == id);
        }
        assert(middle.slot(id) == state.slot(id));
        replacing_keeps_invariants(middle, id, delegation.lost(condition_after));
    }
}

/// Recover keeps the ledger's invariants, and leaves the delegation settled
/// as recovered.
pub proof fn recover_keeps_invariants(state: LedgerState, student_id: Seq<char>, id: i32)
    requires
        state.wf(),
    ensures
        state.recover(student_id, id) matches Ok(next) ==> {
            &&& next.wf()
            &&& next.holds(id)
            &&& next.delegation(id) == state.delegation(id).settled(Resolution::Recovered)
        },
{
    if let Ok(next) = state.recover(student_id, id) {
        let delegation = state.delegation(id);
        let i = state.slot(id);
        assert(0 <= i < state.delegations.len() && state.delegations[i].id == id);
        assert(delegation.wf());
        let standing = state.students[student_id];
        assert(standing.wf());
        adjusted_keeps_consistency(standing, -1);
        assert(state.tools[delegation.tool_id].wf());
        let middle = state.with_tool(
            delegation.tool_id,
            state.tools[delegation.tool_id].released(delegation.quantity),
        ).with_student(student_id, standing.after_settlement());
        assert forall|t: i32| middle.tools.contains_key(t) implies (
        #[trigger] middle.tools[t]).wf() by {
            if t != delegation.tool_id {
                assert(state.tools[t].wf());
            }
        }
        assert forall|s: Seq<char>| middle.students.contains_key(s) implies (
        #[trigger] middle.students[s]).wf() by {
            if s != student_id {
                assert(state.students[s].wf());
            }
        }
        assert(middle.wf());
        assert(middle.holds(id)) by {
            assert(middle.delegations[i].id == id);
        }
        assert(middle.slot(id) == state.slot(id));
        replacing_keeps_invariants(middle, id, delegation.settled(Resolution::Recovered));
    }
}

/// Paid keeps the ledger's invariants, and leaves the delegation settled as
/// paid.
pub proof fn paid_keeps_invariants(state: LedgerState, student_id: Seq<char>, id: i32)
    requires
        state.wf(),
    ensures
        state.pay(student_id, id) matches Ok(next) ==> {
            &&& next.wf()
            &&& next.holds(id)
            &&& next.delegation(id) == state.delegation(id).settled(Resolution::Paid)
        },
{
    if let Ok(next) = state.pay(student_id, id) {
        let delegation = state.delegation(id);
        let i = state.slot(id);
        assert(0 <= i < state.delegations.len() && state.delegations[i].id == id);
        assert(delegation.wf());
        let standing = state.students[student_id];
        assert(standing.wf());
        adjusted_keeps_consistency(standing, -1);
        let middle = state.with_student(student_id, standing.after_settlement());
        assert forall|s: Seq<char>| middle.students.contains_key(s) implies (
        #[trigger] middle.students[s]).wf() by {
            if s != student_id {
                assert(state.students[s].wf());
            }
        }
        assert(middle.wf());
        assert(middle.holds(id)) by {
            assert(middle.delegations[i].id == id);
        }
        assert(middle.slot(id) == state.slot(id));
        replacing_keeps_invariants(middle, id, delegation.settled(Resolution::Paid));
    }
}

/// MarkOverdue keeps the ledger's invariants.
pub proof fn mark_overdue_keeps_invariants(state: LedgerState, today: Date)
    requires
        state.wf(),
    ensures
        state.sweep(today).wf(),
{
    let next = state.sweep(today);
    assert forall|i: int| 0 <= i < next.delegations.len() implies (
    #[trigger] next.delegations[i]).wf() && next.delegations[i].id < next.next_id by {
        assert(state.delegations[i].wf());
    }
    assert forall|a: int, b: int| 0 <= a < b < next.delegations.len() implies (
    #[trigger] next.delegations[a]).id != (#[trigger] next.delegations[b]).id by {
        assert(state.delegations[a].id != state.delegations[b].id);
    }
}

/// Whatever is asked of a ledger, served or refused, its invariants hold
/// afterwards: no tool has a negative number of units out or more units out
/// than it owns, and every student is banned exactly while the lost-tool
/// count is at or above the threshold.
pub proof fn every_operation_keeps_invariants(state: LedgerState, operation: Operation)
    requires
        state.wf(),
    ensures
        state.apply(operation).wf(),
{
    match operation {
        Operation::Issue { order, now } => issue_keeps_invariants(state, order, now),
        Operation::Return { id, condition_after, now } => return_keeps_invariants(
            state,
            id,
            condition_after,
            now,
        ),
        Operation::MarkLost { id, condition_after } => mark_lost_keeps_invariants(
            state,
            id,
            condition_after,
        ),
        Operation::Recover { student_id, id } => recover_keeps_invariants(state, student_id, id),
        Operation::Paid { student_id, id } => paid_keeps_invariants(state, student_id, id),
        Operation::MarkOverdue { today } => mark_overdue_keeps_invariants(state, today),
    }
}

/// In a ledger whose invariants hold, every tool has between zero and
/// `quantity` units out.
pub proof fn stock_stays_in_bounds(state: LedgerState, tool_id: i32)
    requires
        state.wf(),
        state.tools.contains_key(tool_id),
    ensures
        0 <= state.tools[tool_id].issued_qty <= state.tools[tool_id].quantity,
        state.tools[tool_id].available() >= 0,
{
    assert(state.tools[tool_id].wf());
}

/// In a ledger whose invariants hold, a student is banned exactly while the
/// lost-tool count is at or above the threshold.
pub proof fn banned_exactly_at_threshold(state: LedgerState, student_id: Seq<char>)
    requires
        state.wf(),
        state.students.contains_key(student_id),
    ensures
        state.students[student_id].account_status == AccountStatus::Banned
            <==> state.students[student_id].lost_tool_count >= BAN_THRESHOLD,
{
    assert(state.students[student_id].wf());
}

/// An issue of a non-consumable tool followed by the return of what was
/// issued leaves every tool's counters as they were before the issue.
pub proof fn issue_then_return_restores_stock(
    state: LedgerState,
    order: IssueOrder,
    issued_at: Moment,
    condition_after: ConditionGrade,
    returned_at: Moment,
)
    requires
        state.wf(),
        state.issue(order, issued_at) is Ok,
        !state.tools[order.tool_id].is_consumable,
    ensures
        ({
            let issued = state.issue(order, issued_at)->Ok_0;
            let id = state.next_id as i32;
            &&& issued.give_back(id, condition_after, returned_at) is Ok
            &&& issued.give_back(id, condition_after, returned_at)->Ok_0.tools == state.tools
        }),
{
    let issued = state.issue(order, issued_at)->Ok_0;
    let id = state.next_id as i32;
    issue_keeps_invariants(state, order, issued_at);
    assert(state.tools[order.tool_id].wf());
    let closed = issued.give_back(id, condition_after, returned_at)->Ok_0;
    assert(closed.tools =~= state.tools);
}

/// An issue of a consumable followed by the return of what was issued does
/// not bring the units back: the tool's counters stay as the issue left them.
pub proof fn consumable_is_not_restored(
    state: LedgerState,
    order: IssueOrder,
    issued_at: Moment,
    condition_after: ConditionGrade,
    returned_at: Moment,
)
    requires
        state.wf(),
        state.issue(order, issued_at) is Ok,
        state.tools[order.tool_id].is_consumable,
    ensures
        ({
            let issued = state.issue(order, issued_at)->Ok_0;
            let id = state.next_id as i32;
            &&& issued.give_back(id, condition_after, returned_at) is Ok
            &&& issued.give_back(id, condition_after, returned_at)->Ok_0.tools == issued.tools
            &&& issued.tools[order.tool_id].quantity == state.tools[order.tool_id].quantity
                - order.quantity
        }),
{
    let issued = state.issue(order, issued_at)->Ok_0;
    let id = state.next_id as i32;
    issue_keeps_invariants(state, order, issued_at);
    let closed = issued.give_back(id, condition_after, returned_at)->Ok_0;
    assert(closed.tools =~= issued.tools);
}

/// What one operation may make of one delegation: leave it as it is, or
/// take it one step along its lifecycle, and that only if the operation
/// names it and finds it in the state the step starts from.
pub open spec fn is_step(
    operation: Operation,
    before: DelegationState,
    after: DelegationState,
) -> bool {
    ||| after == before
    ||| match operation {
        Operation::Issue { order, now } => false,
        Operation::Return { id, condition_after, now } => {
            &&& before.id == id
            &&& before.is_open()
            &&& after == before.returned(condition_after, now)
        },
        Operation::MarkLost { id, condition_after } => {
            &&& before.id == id
            &&& before.is_open()
            &&& after == before.lost(condition_after)
        },
        Operation::Recover { student_id, id } => {
            &&& before.id == id
            &&& before.awaits_settlement(student_id)
            &&& after == before.settled(Resolution::Recovered)
        },
        Operation::Paid { student_id, id } => {
            &&& before.id == id
            &&& before.awaits_settlement(student_id)
            &&& after == before.settled(Resolution::Paid)
        },
        Operation::MarkOverdue { today } => before.is_due(today) && after == before.overdue(),
    }
}

/// Whatever is asked of the ledger, each delegation is left as it was or
/// taken one step along its lifecycle.
pub proof fn delegations_move_by_steps(state: LedgerState, operation: Operation, i: int)
    requires
        state.wf(),
        0 <= i < state.delegations.len(),
    ensures
        is_step(operation, state.delegations[i], state.apply(operation).delegations[i]),
{
    match operation {
        Operation::Issue { order, now } => {},
        Operation::Return { id, condition_after, now } => {
            if state.give_back(id, condition_after, now) is Ok {
                let k = state.slot(id);
                assert(0 <= k < state.delegations.len() && state.delegations[k].id == id);
            }
        },
        Operation::MarkLost { id, condition_after } => {
            if state.report_lost(id, condition_after) is Ok {
                let k = state.slot(id);
                assert(0 <= k < state.delegations.len() && state.delegations[k].id == id);
            }
        },
        Operation::Recover { student_id, id } => {
            if state.recover(student_id, id) is Ok {
                let k = state.slot(id);
                assert(0 <= k < state.delegations.len() && state.delegations[k].id == id);
            }
        },
        Operation::Paid { student_id, id } => {
            if state.pay(student_id, id) is Ok {
                let k = state.slot(id);
                assert(0 <= k < state.delegations.len() && state.delegations[k].id == id);
            }
        },
        Operation::MarkOverdue { today } => {},
    }
}

/// No operation removes a delegation, moves it, or changes its id.
pub proof fn delegations_keep_their_place(state: LedgerState, operation: Operation, i: int)
    requires
        state.wf(),
        0 <= i < state.delegations.len(),
    ensures
        state.apply(operation).delegations.len() >= state.delegations.len(),
        state.apply(operation).delegations[i].id == state.delegations[i].id,
        state.apply(operation).holds(state.delegations[i].id),
        state.apply(operation).slot(state.delegations[i].id) == i,
{
    every_operation_keeps_invariants(state, operation);
    delegations_move_by_steps(state, operation, i);
    slot_is_position(state.apply(operation), i);
}

/// Whatever is asked of the ledger, a delegation's status moves only along
/// its lifecycle: from issued to overdue, from issued or overdue to returned
/// or lost, and nowhere from returned or lost.
pub proof fn statuses_follow_the_lifecycle(state: LedgerState, operation: Operation, id: i32)
    requires
        state.wf(),
        state.holds(id),
    ensures
        state.apply(operation).holds(id),
        state.delegation(id).status.may_become(state.apply(operation).delegation(id).status),
{
    let i = state.slot(id);
    assert(0 <= i < state.delegations.len() && state.delegations[i].id == id);
    delegations_keep_their_place(state, operation, i);
    delegations_move_by_steps(state, operation, i);
}

/// A lost delegation stays lost, and a returned one stays returned,
/// whatever is asked of the ledger afterwards.
pub proof fn closed_delegations_stay_closed(state: LedgerState, operation: Operation, id: i32)
    requires
        state.wf(),
        state.holds(id),
        state.delegation(id).status == DelegationStatus::Lost || state.delegation(id).status
            == DelegationStatus::Returned,
    ensures
        state.apply(operation).holds(id),
        state.apply(operation).delegation(id).status == state.delegation(id).status,
{
    statuses_follow_the_lifecycle(state, operation, id);
}

/// A resolution, once set, is never changed or taken away.
pub proof fn resolutions_are_set_once(state: LedgerState, operation: Operation, id: i32)
    requires
        state.wf(),
        state.holds(id),
        state.delegation(id).resolution is Some,
    ensures
        state.apply(operation).holds(id),
        state.apply(operation).delegation(id).resolution == state.delegation(id).resolution,
{
    let i = state.slot(id);
    assert(0 <= i < state.delegations.len() && state.delegations[i].id == id);
    assert(state.delegations[i].wf());
    delegations_keep_their_place(state, operation, i);
    delegations_move_by_steps(state, operation, i);
}

/// Once a loss is on record, the delegation can be neither returned nor
/// reported lost again: both requests are refused as not found.
pub proof fn lost_cannot_be_returned(
    state: LedgerState,
    id: i32,
    condition_after: ConditionGrade,
    later_condition: ConditionGrade,
    later: Moment,
)
    requires
        state.wf(),
        state.report_lost(id, condition_after) is Ok,
    ensures
        ({
            let lost = state.report_lost(id, condition_after)->Ok_0;
            &&& lost.holds(id)
            &&& lost.delegation(id).status == DelegationStatus::Lost
            &&& lost.delegation(id).resolution is None
            &&& lost.give_back(id, later_condition, later) == Err::<LedgerState, ErrorKind>(
                ErrorKind::NotFound,
            )
            &&& lost.report_lost(id, later_condition) == Err::<LedgerState, ErrorKind>(
                ErrorKind::NotFound,
            )
        }),
{
    mark_lost_keeps_invariants(state, id, condition_after);
}

/// A loss is settled at most once: after a recovery or a payment, every
/// further recovery or payment of the same delegation, by whomever, is
/// refused as not found.
pub proof fn settlement_happens_once(
    state: LedgerState,
    student_id: Seq<char>,
    id: i32,
    by_payment: bool,
    later_student: Seq<char>,
)
    requires
        state.wf(),
        if by_payment {
            state.pay(student_id, id) is Ok
        } else {
            state.recover(student_id, id) is Ok
        },
    ensures
        ({
            let settled = if by_payment {
                state.pay(student_id, id)->Ok_0
            } else {
                state.recover(student_id, id)->Ok_0
            };
            &&& settled.holds(id)
            &&& settled.delegation(id).status == DelegationStatus::Lost
            &&& settled.delegation(id).resolution == Some(
                if by_payment {
                    Resolution::Paid
                } else {
                    Resolution::Recovered
                },
            )
            &&& settled.recover(later_student, id) == Err::<LedgerState, ErrorKind>(
                ErrorKind::NotFound,
            )
            &&& settled.pay(later_student, id) == Err::<LedgerState, ErrorKind>(
                ErrorKind::NotFound,
            )
        }),
{
    if by_payment {
        paid_keeps_invariants(state, student_id, id);
    } else {
        recover_keeps_invariants(state, student_id, id);
    }
}

/// Only a loss and its settlement move a standing: issue, return and the
/// overdue sweep leave every student's count and status as they were.
pub proof fn standings_move_only_with_losses(state: LedgerState, operation: Operation)
    requires
        operation is Issue || operation is Return || operation is MarkOverdue,
    ensures
        state.apply(operation).students == state.students,
{
}

/// The overdue sweep leaves every tool's counters as they were.
pub proof fn sweep_leaves_stock_alone(state: LedgerState, today: Date)
    ensures
        state.sweep(today).tools == state.tools,
        state.sweep(today).students == state.students,
        state.sweep(today).delegations.len() == state.delegations.len(),
{
}

/// A payment never changes any tool's counters.
pub proof fn payment_leaves_stock_alone(state: LedgerState, student_id: Seq<char>, id: i32)
    requires
        state.pay(student_id, id) is Ok,
    ensures
        state.pay(student_id, id)->Ok_0.tools == state.tools,
{
}

/// A loss never changes any tool's counters: the units stay out.
pub proof fn loss_leaves_stock_alone(state: LedgerState, id: i32, condition_after: ConditionGrade)
    requires
        state.report_lost(id, condition_after) is Ok,
    ensures
        state.report_lost(id, condition_after)->Ok_0.tools == state.tools,
{
}

/// Two orders that each ask for all that a tool has left cannot both be
/// served: once the first is served, the second is refused for want of
/// stock.
pub proof fn second_issue_finds_no_stock(
    state: LedgerState,
    first: IssueOrder,
    first_at: Moment,
    second: IssueOrder,
    second_at: Moment,
)
    requires
        state.wf(),
        first.tool_id == second.tool_id,
        state.tools.contains_key(first.tool_id),
        first.quantity == state.tools[first.tool_id].available(),
        second.quantity == first.quantity,
        state.issue(first, first_at) is Ok,
        state.issue(second, second_at) is Ok,
    ensures
        state.issue(first, first_at)->Ok_0.issue(second, second_at) == Err::<
            LedgerState,
            ErrorKind,
        >(ErrorKind::InsufficientStock),
{
    assert(state.tools[first.tool_id].wf());
}

} // verus!
