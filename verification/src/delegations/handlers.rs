//! Issue, return and loss: the operations that open and close a delegation.

use vstd::prelude::*;
use crate::clock::{Date, Moment, TimeOfDay};
use crate::delegations::models::{
    delegations_kept,
    ConditionGrade,
    CreateDelegationRequest,
    Delegation,
    DelegationFilters,
    DelegationStatus,
    IssueOrder,
    ReturnRequest,
};
use crate::errors::{AppError, ErrorKind};
use crate::laws::{issue_keeps_invariants, mark_lost_keeps_invariants, return_keeps_invariants};
use crate::ledger::{Ledger, LedgerState};
use crate::select::{is_selection, selection_grows};
use crate::students::models::AccountStatus;
use crate::text::{contains, eq_ignore_ascii_case, text_eq, to_lowercase};

verus! {

/// What the caller learns of a served issue.
#[derive(Debug, Clone, Copy)]
pub struct IssueReceipt {
    pub id: i32,
    pub status: DelegationStatus,
    pub actual_checkout_time: TimeOfDay,
    /// Units of the tool still available after the issue.
    pub tool_remaining_qty: i32,
}

/// What the caller learns of a served return.
#[derive(Debug, Clone, Copy)]
pub struct ReturnReceipt {
    pub id: i32,
    pub status: DelegationStatus,
    pub actual_return_time: TimeOfDay,
    pub date_returned: Date,
    /// Units of the tool available after the return.
    pub tool_restored_qty: i32,
    /// More units came back than the tool had out.
    pub stock_floored: bool,
}

/// What the caller learns of a recorded loss.
#[derive(Debug, Clone, Copy)]
pub struct LostReceipt {
    pub id: i32,
    pub status: DelegationStatus,
    pub student_lost_tool_count: i32,
    pub student_account_status: AccountStatus,
    /// This loss took the student from active to banned.
    pub ban_triggered: bool,
}

impl LostReceipt {
    pub open spec fn message_text(&self) -> Seq<char> {
        if self.ban_triggered {
            "Student has been automatically banned (5+ lost tools)"@
        } else {
            "Delegation marked as lost"@
        }
    }

    /// The sentence that goes with the receipt.
    pub fn message(&self) -> (text: &'static str)
        ensures
            text@ == self.message_text(),
    {
        if self.ban_triggered {
            "Student has been automatically banned (5+ lost tools)"
        } else {
            "Delegation marked as lost"
        }
    }
}

/// How a return request ended: with the tool back, or with its loss on
/// record.
#[derive(Debug, Clone, Copy)]
pub enum ReturnOutcome {
    Returned(ReturnReceipt),
    Lost(LostReceipt),
}

/// `after` and `receipt` are what the issue that `order` asks for, served on
/// `before` at `now`, leaves and tells.
pub open spec fn issue_served(
    before: LedgerState,
    order: IssueOrder,
    now: Moment,
    after: LedgerState,
    receipt: IssueReceipt,
) -> bool {
    &&& before.issue(order, now) == Ok::<LedgerState, ErrorKind>(after)
    &&& after.holds(receipt.id)
    &&& after.delegation(receipt.id) == order.opened(receipt.id, now)
    &&& receipt.id == before.next_id
    &&& receipt.status == DelegationStatus::Issued
    &&& receipt.actual_checkout_time == now.time
    &&& receipt.tool_remaining_qty == after.tools[order.tool_id].available()
}

/// `after` and `receipt` are what a return of delegation `id`, served on
/// `before`, leaves and tells.
pub open spec fn return_served(
    before: LedgerState,
    id: i32,
    condition_after: ConditionGrade,
    now: Moment,
    after: LedgerState,
    receipt: ReturnReceipt,
) -> bool {
    let delegation = before.delegation(id);
    &&& before.give_back(id, condition_after, now) == Ok::<LedgerState, ErrorKind>(after)
    &&& after.holds(id)
    &&& after.delegation(id) == delegation.returned(condition_after, now)
    &&& receipt.id == id
    &&& receipt.status == DelegationStatus::Returned
    &&& receipt.actual_return_time == now.time
    &&& receipt.date_returned == now.date
    &&& receipt.tool_restored_qty == after.tools[delegation.tool_id].available()
    &&& receipt.stock_floored == before.tools[delegation.tool_id].release_hits_floor(
        delegation.quantity,
    )
}

/// `after` and `receipt` are what the loss of delegation `id`, recorded on
/// `before`, leaves and tells.
pub open spec fn loss_served(
    before: LedgerState,
    id: i32,
    condition_after: ConditionGrade,
    after: LedgerState,
    receipt: LostReceipt,
) -> bool {
    let student_id = before.delegation(id).student_id;
    &&& before.report_lost(id, condition_after) == Ok::<LedgerState, ErrorKind>(after)
    &&& after.holds(id)
    &&& after.delegation(id) == before.delegation(id).lost(condition_after)
    &&& receipt.id == id
    &&& receipt.status == DelegationStatus::Lost
    &&& receipt.student_lost_tool_count == after.students[student_id].lost_tool_count
    &&& receipt.student_account_status == after.students[student_id].account_status
    &&& receipt.ban_triggered == (before.students[student_id].account_status
        == AccountStatus::Active && after.students[student_id].account_status
        == AccountStatus::Banned)
}

/// Issues a tool: checks the request, the student and the stock, takes the
/// units and opens a delegation. A refusal leaves the ledger as it was.
pub fn issue(
    ledger: &mut Ledger,
    body: &CreateDelegationRequest,
    now: Moment,
) -> (outcome: Result<IssueReceipt, AppError>)
    requires
        old(ledger).wf(),
    ensures
        final(ledger).wf(),
        match outcome {
            Ok(receipt) => issue_served(old(ledger)@, body@, now, final(ledger)@, receipt),
            Err(error) => {
                &&& old(ledger)@.issue(body@, now) == Err::<LedgerState, ErrorKind>(error.kind())
                &&& final(ledger)@ == old(ledger)@
                &&& (error matches AppError::Validation(m) ==> Some(m@) == body@.defect())
            },
        },
{
    match body.validate() {
        Err(error) => {
            return Err(error);
        },
        Ok(()) => {},
    }
    let standing = match ledger.student(body.student_id.as_str()) {
        Some(standing) => standing,
        None => {
            return Err(AppError::NotFound);
        },
    };
    if standing.is_banned() {
        return Err(AppError::StudentBanned);
    }
    let mut stock = match ledger.tool(body.tool_id) {
        Some(stock) => stock,
        None => {
            return Err(AppError::NotFound);
        },
    };
    match stock.reserve(body.quantity) {
        Err(error) => {
            return Err(error);
        },
        Ok(()) => {},
    }
    let id: i32 = match ledger.fresh_id() {
        Some(id) => id,
        None => {
            return Err(AppError::Internal("Delegation ids are exhausted".to_owned()));
        },
    };
    proof {
        issue_keeps_invariants(ledger@, body@, now);
    }
    ledger.put_tool(body.tool_id, stock);
    ledger.push_delegation(body.open(id, now));
    assert(stock@.wf());
    Ok(
        IssueReceipt {
            id,
            status: DelegationStatus::Issued,
            actual_checkout_time: now.time,
            tool_remaining_qty: stock.available() as i32,
        },
    )
}

/// Takes a tool back: closes the open delegation as returned and puts its
/// units back into stock. A refusal leaves the ledger as it was.
pub fn give_back(
    ledger: &mut Ledger,
    id: i32,
    condition_after: ConditionGrade,
    now: Moment,
) -> (outcome: Result<ReturnReceipt, AppError>)
    requires
        old(ledger).wf(),
    ensures
        final(ledger).wf(),
        match outcome {
            Ok(receipt) => return_served(
                old(ledger)@,
                id,
                condition_after,
                now,
                final(ledger)@,
                receipt,
            ),
            Err(error) => {
                &&& error == AppError::NotFound
                &&& old(ledger)@.give_back(id, condition_after, now) == Err::<
                    LedgerState,
                    ErrorKind,
                >(ErrorKind::NotFound)
                &&& final(ledger)@ == old(ledger)@
            },
        },
{
    let position: usize = match ledger.position_of(id) {
        Some(position) => position,
        None => {
            return Err(AppError::NotFound);
        },
    };
    let record = ledger.record_at(position);
    if !record.is_open() {
        return Err(AppError::NotFound);
    }
    let tool_id: i32 = record.tool_id;
    let quantity: i32 = record.quantity;
    let mut stock = match ledger.tool(tool_id) {
        Some(stock) => stock,
        None => {
            return Err(AppError::NotFound);
        },
    };
    proof {
        return_keeps_invariants(ledger@, id, condition_after, now);
        assert(ledger@.delegations[position as int].wf());
        assert(ledger@.tools[tool_id].wf());
    }
    let stock_floored = stock.release(quantity);
    ledger.put_tool(tool_id, stock);
    ledger.returned_at(position, condition_after, now);
    Ok(
        ReturnReceipt {
            id,
            status: DelegationStatus::Returned,
            actual_return_time: now.time,
            date_returned: now.date,
            tool_restored_qty: stock.available() as i32,
            stock_floored,
        },
    )
}

/// Records a loss: closes the open delegation as lost and raises the
/// student's lost-tool count, banning the account once the count reaches the
/// threshold. The units stay out. A refusal leaves the ledger as it was.
pub fn mark_lost(
    ledger: &mut Ledger,
    id: i32,
    condition_after: ConditionGrade,
) -> (outcome: Result<LostReceipt, AppError>)
    requires
        old(ledger).wf(),
    ensures
        final(ledger).wf(),
        match outcome {
            Ok(receipt) => loss_served(old(ledger)@, id, condition_after, final(ledger)@, receipt),
            Err(error) => {
                &&& old(ledger)@.report_lost(id, condition_after) == Err::<LedgerState, ErrorKind>(
                    error.kind(),
                )
                &&& final(ledger)@ == old(ledger)@
            },
        },
{
    let position: usize = match ledger.position_of(id) {
        Some(position) => position,
        None => {
            return Err(AppError::NotFound);
        },
    };
    let record = ledger.record_at(position);
    if !record.is_open() {
        return Err(AppError::NotFound);
    }
    let student_id: String = record.student_id.clone();
    let before = match ledger.student(student_id.as_str()) {
        Some(standing) => standing,
        None => {
            return Err(AppError::NotFound);
        },
    };
    if before.lost_tool_count >= i32::MAX {
        return Err(AppError::Internal("Lost tool count is out of range".to_owned()));
    }
    proof {
        mark_lost_keeps_invariants(ledger@, id, condition_after);
    }
    let after = before.adjust(1);
    ledger.put_student(student_id.as_str(), after);
    ledger.lost_at(position, condition_after);
    Ok(
        LostReceipt {
            id,
            status: DelegationStatus::Lost,
            student_lost_tool_count: after.lost_tool_count,
            student_account_status: after.account_status,
            ban_triggered: before.account_status == AccountStatus::Active && after.account_status
                == AccountStatus::Banned,
        },
    )
}

/// Serves a return request: a return, or, where the request says so, a loss.
pub fn return_tool(
    ledger: &mut Ledger,
    id: i32,
    body: &ReturnRequest,
    now: Moment,
) -> (outcome: Result<ReturnOutcome, AppError>)
    requires
        old(ledger).wf(),
    ensures
        final(ledger).wf(),
        match outcome {
            Ok(ReturnOutcome::Returned(receipt)) => !body.mark_as_lost && return_served(
                old(ledger)@,
                id,
                body.condition_after,
                now,
                final(ledger)@,
                receipt,
            ),
            Ok(ReturnOutcome::Lost(receipt)) => body.mark_as_lost && loss_served(
                old(ledger)@,
                id,
                body.condition_after,
                final(ledger)@,
                receipt,
            ),
            Err(error) => {
                &&& final(ledger)@ == old(ledger)@
                &&& body.mark_as_lost ==> old(ledger)@.report_lost(id, body.condition_after)
                    == Err::<LedgerState, ErrorKind>(error.kind())
                &&& !body.mark_as_lost ==> old(ledger)@.give_back(id, body.condition_after, now)
                    == Err::<LedgerState, ErrorKind>(error.kind())
            },
        },
{
    if body.mark_as_lost {
        match mark_lost(ledger, id, body.condition_after) {
            Ok(receipt) => Ok(ReturnOutcome::Lost(receipt)),
            Err(error) => Err(error),
        }
    } else {
        match give_back(ledger, id, body.condition_after, now) {
            Ok(receipt) => Ok(ReturnOutcome::Returned(receipt)),
            Err(error) => Err(error),
        }
    }
}

/// Whether a delegation passes the filters.
pub fn passes(filters: &DelegationFilters, delegation: &Delegation) -> (kept: bool)
    ensures
        kept == filters.accepts(delegation),
{
    match &filters.status {
        Some(wanted) => {
            if !eq_ignore_ascii_case(delegation.record.status.as_str(), wanted.as_str()) {
                return false;
            }
        },
        None => {},
    }
    match &filters.student_id {
        Some(wanted) => {
            if !eq_ignore_ascii_case(delegation.record.student_id.as_str(), wanted.as_str()) {
                return false;
            }
        },
        None => {},
    }
    match filters.lecturer_id {
        Some(wanted) => {
            if delegation.record.lecturer_id != wanted {
                return false;
            }
        },
        None => {},
    }
    match &filters.search {
        Some(wanted) => {
            let wanted = to_lowercase(wanted.as_str());
            let student_name = to_lowercase(delegation.student_name.as_str());
            let tool_name = to_lowercase(delegation.tool_name.as_str());
            let student_id = to_lowercase(delegation.record.student_id.as_str());
            if !contains(student_name.as_str(), wanted.as_str()) && !contains(
                tool_name.as_str(),
                wanted.as_str(),
            ) && !contains(student_id.as_str(), wanted.as_str()) {
                return false;
            }
        },
        None => {},
    }
    match &filters.inter_dept {
        Some(flag) => {
            if text_eq(flag.as_str(), "true") && !delegation.record.is_inter_departmental {
                return false;
            }
        },
        None => {},
    }
    true
}

/// The positions of the delegations that pass the filters, in rising order.
pub fn list(delegations: &Vec<Delegation>, filters: &DelegationFilters) -> (picked: Vec<usize>)
    ensures
        is_selection(picked@, delegations@.len(), delegations_kept(delegations@, *filters)),
{
    let mut picked: Vec<usize> = Vec::new();
    let total: usize = delegations.len();
    let mut position: usize = 0;
    while position < total
        invariant
            total == delegations@.len(),
            position <= total,
            is_selection(picked@, position as nat, delegations_kept(delegations@, *filters)),
        decreases total - position,
    {
        let ghost before = picked@;
        if passes(filters, &delegations[position]) {
            picked.push(position);
        }
        proof {
            selection_grows(
                before,
                picked@,
                position as nat,
                delegations_kept(delegations@, *filters),
            );
        }
        position = position + 1;
    }
    picked
}

} // verus!
