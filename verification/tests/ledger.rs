use toolport::clock::{Date, Moment, TimeOfDay};
use toolport::delegations::handlers::{give_back, issue, mark_lost, return_tool, ReturnOutcome};
use toolport::delegations::models::{
    ConditionGrade, CreateDelegationRequest, DelegationStatus, Resolution, ReturnRequest,
};
use toolport::errors::AppError;
use toolport::jobs::mark_overdue;
use toolport::ledger::Ledger;
use toolport::standing::Standing;
use toolport::students::handlers::{paid_tool, recover_tool};
use toolport::students::models::{AccountStatus, PaidRequest};
use toolport::tools::models::ToolStatus;

fn at(days: i32, seconds: u32) -> Moment {
    Moment { date: Date { days }, time: TimeOfDay { seconds, nanos: 0 } }
}

fn order(tool_id: i32, student_id: &str, quantity: i32) -> CreateDelegationRequest {
    CreateDelegationRequest {
        tool_id,
        quantity,
        lecturer_id: 3,
        student_id: student_id.to_string(),
        expected_return: Date { days: 110 },
        expected_return_time: None,
        condition_before: ConditionGrade::Good,
        is_inter_departmental: None,
        guest_department: None,
        guest_lab_project: None,
    }
}

fn active(lost_tool_count: i32) -> Standing {
    Standing { lost_tool_count, account_status: AccountStatus::Active }
}

fn ledger_with(quantity: i32, issued_qty: i32, consumable: bool, threshold: i32, lost: i32) -> Ledger {
    let mut ledger = Ledger::new();
    ledger.add_tool(1, quantity, issued_qty, consumable, threshold).unwrap();
    ledger.add_student("S1", Standing::from_count(lost).unwrap()).unwrap();
    ledger
}

#[test]
fn issue_runs_stock_down_to_low_then_out() {
    let mut ledger = ledger_with(10, 0, false, 2, 0);
    let first = issue(&mut ledger, &order(1, "S1", 9), at(100, 30)).unwrap();
    assert_eq!(first.id, 1);
    assert_eq!(first.status, DelegationStatus::Issued);
    assert_eq!(first.actual_checkout_time, TimeOfDay { seconds: 30, nanos: 0 });
    assert_eq!(first.tool_remaining_qty, 1);
    assert_eq!(ledger.tool(1).unwrap().status, ToolStatus::LowStock);
    assert_eq!(ledger.tool(1).unwrap().issued_qty, 9);

    let second = issue(&mut ledger, &order(1, "S1", 1), at(100, 40)).unwrap();
    assert_eq!(second.id, 2);
    assert_eq!(second.tool_remaining_qty, 0);
    assert_eq!(ledger.tool(1).unwrap().status, ToolStatus::OutOfStock);

    let third = issue(&mut ledger, &order(1, "S1", 1), at(100, 50));
    assert_eq!(third.unwrap_err(), AppError::InsufficientStock);
    assert_eq!(ledger.tool(1).unwrap().issued_qty, 10);
    assert_eq!(ledger.delegation_count(), 2);
}

#[test]
fn two_issues_for_the_last_unit_serve_only_one() {
    let mut ledger = ledger_with(1, 0, false, 0, 0);
    ledger.add_student("S2", active(0)).unwrap();
    let first = issue(&mut ledger, &order(1, "S1", 1), at(100, 0));
    let second = issue(&mut ledger, &order(1, "S2", 1), at(100, 0));
    assert!(first.is_ok());
    assert_eq!(second.unwrap_err(), AppError::InsufficientStock);
    assert_eq!(ledger.tool(1).unwrap().issued_qty, 1);
}

#[test]
fn fifth_loss_bans_and_recovery_reactivates() {
    let mut ledger = ledger_with(10, 0, false, 2, 4);
    assert_eq!(ledger.student("S1").unwrap().account_status, AccountStatus::Active);
    let receipt = issue(&mut ledger, &order(1, "S1", 2), at(100, 0)).unwrap();

    let lost = mark_lost(&mut ledger, receipt.id, ConditionGrade::Damaged).unwrap();
    assert_eq!(lost.id, receipt.id);
    assert_eq!(lost.status, DelegationStatus::Lost);
    assert_eq!(lost.student_lost_tool_count, 5);
    assert_eq!(lost.student_account_status, AccountStatus::Banned);
    assert!(lost.ban_triggered);
    assert_eq!(lost.message(), "Student has been automatically banned (5+ lost tools)");
    assert_eq!(ledger.tool(1).unwrap().issued_qty, 2);
    assert_eq!(ledger.student("S1").unwrap().account_status, AccountStatus::Banned);

    let banned = issue(&mut ledger, &order(1, "S1", 1), at(101, 0));
    assert_eq!(banned.unwrap_err(), AppError::StudentBanned);

    let recovered = recover_tool(&mut ledger, "S1", receipt.id).unwrap();
    assert_eq!(recovered.new_lost_count, 4);
    assert_eq!(recovered.account_status, AccountStatus::Active);
    assert_eq!(recovered.message(), "Tool marked as recovered");
    assert_eq!(ledger.tool(1).unwrap().issued_qty, 0);
    assert_eq!(ledger.tool(1).unwrap().status, ToolStatus::Available);
    let record = ledger.delegation(receipt.id).unwrap();
    assert_eq!(record.status, DelegationStatus::Lost);
    assert_eq!(record.resolution, Some(Resolution::Recovered));
}

#[test]
fn payment_writes_the_tool_off_and_settles_once() {
    let mut ledger = ledger_with(10, 0, false, 2, 0);
    let receipt = issue(&mut ledger, &order(1, "S1", 3), at(100, 0)).unwrap();
    mark_lost(&mut ledger, receipt.id, ConditionGrade::Fair).unwrap();
    assert_eq!(ledger.student("S1").unwrap().lost_tool_count, 1);

    let body = Some(PaidRequest { receipt_uploaded: Some(true) });
    let paid = paid_tool(&mut ledger, "S1", receipt.id, body).unwrap();
    assert_eq!(paid.resolution, Resolution::Paid);
    assert!(paid.receipt_uploaded);
    assert_eq!(paid.new_lost_count, 0);
    assert_eq!(paid.account_status, AccountStatus::Active);
    assert_eq!(paid.message(), "Tool marked as paid");
    assert_eq!(ledger.tool(1).unwrap().issued_qty, 3);
    assert_eq!(ledger.tool(1).unwrap().quantity, 10);

    assert_eq!(recover_tool(&mut ledger, "S1", receipt.id).unwrap_err(), AppError::NotFound);
    assert_eq!(paid_tool(&mut ledger, "S1", receipt.id, None).unwrap_err(), AppError::NotFound);
    assert_eq!(ledger.tool(1).unwrap().issued_qty, 3);
    assert_eq!(ledger.student("S1").unwrap().lost_tool_count, 0);
}

#[test]
fn payment_without_a_body_reports_no_receipt() {
    let mut ledger = ledger_with(4, 0, false, 1, 0);
    let receipt = issue(&mut ledger, &order(1, "S1", 1), at(100, 0)).unwrap();
    mark_lost(&mut ledger, receipt.id, ConditionGrade::Fair).unwrap();
    let paid = paid_tool(&mut ledger, "S1", receipt.id, None).unwrap();
    assert!(!paid.receipt_uploaded);

    let mut other = ledger_with(4, 0, false, 1, 0);
    let receipt = issue(&mut other, &order(1, "S1", 1), at(100, 0)).unwrap();
    mark_lost(&mut other, receipt.id, ConditionGrade::Fair).unwrap();
    let body = Some(PaidRequest { receipt_uploaded: None });
    assert!(!paid_tool(&mut other, "S1", receipt.id, body).unwrap().receipt_uploaded);
}

#[test]
fn issue_then_return_restores_the_units_out() {
    let mut ledger = ledger_with(10, 4, false, 2, 0);
    let receipt = issue(&mut ledger, &order(1, "S1", 3), at(100, 0)).unwrap();
    assert_eq!(ledger.tool(1).unwrap().issued_qty, 7);
    let back = give_back(&mut ledger, receipt.id, ConditionGrade::Good, at(103, 45)).unwrap();
    assert_eq!(back.id, receipt.id);
    assert_eq!(back.status, DelegationStatus::Returned);
    assert_eq!(back.actual_return_time, TimeOfDay { seconds: 45, nanos: 0 });
    assert_eq!(back.date_returned, Date { days: 103 });
    assert_eq!(back.tool_restored_qty, 6);
    assert!(!back.stock_floored);
    assert_eq!(ledger.tool(1).unwrap().issued_qty, 4);
    assert_eq!(ledger.tool(1).unwrap().status, ToolStatus::PartiallyIssued);
    let record = ledger.delegation(receipt.id).unwrap();
    assert_eq!(record.status, DelegationStatus::Returned);
    assert_eq!(record.condition_after, Some(ConditionGrade::Good));
    assert_eq!(record.date_returned, Some(Date { days: 103 }));
}

#[test]
fn consumable_is_used_up_and_never_comes_back() {
    let mut ledger = ledger_with(10, 0, true, 2, 0);
    let receipt = issue(&mut ledger, &order(1, "S1", 4), at(100, 0)).unwrap();
    assert_eq!(receipt.tool_remaining_qty, 6);
    assert_eq!(ledger.tool(1).unwrap().quantity, 6);
    assert_eq!(ledger.tool(1).unwrap().issued_qty, 0);
    let back = give_back(&mut ledger, receipt.id, ConditionGrade::Good, at(101, 0)).unwrap();
    assert_eq!(back.tool_restored_qty, 6);
    assert_eq!(ledger.tool(1).unwrap().quantity, 6);
}

#[test]
fn a_closed_delegation_cannot_be_closed_again() {
    let mut ledger = ledger_with(10, 0, false, 2, 0);
    let first = issue(&mut ledger, &order(1, "S1", 1), at(100, 0)).unwrap();
    let second = issue(&mut ledger, &order(1, "S1", 1), at(100, 0)).unwrap();
    give_back(&mut ledger, first.id, ConditionGrade::Good, at(101, 0)).unwrap();
    mark_lost(&mut ledger, second.id, ConditionGrade::Damaged).unwrap();

    assert_eq!(
        give_back(&mut ledger, first.id, ConditionGrade::Good, at(102, 0)).unwrap_err(),
        AppError::NotFound
    );
    assert_eq!(mark_lost(&mut ledger, first.id, ConditionGrade::Good).unwrap_err(), AppError::NotFound);
    assert_eq!(
        give_back(&mut ledger, second.id, ConditionGrade::Good, at(102, 0)).unwrap_err(),
        AppError::NotFound
    );
    assert_eq!(mark_lost(&mut ledger, second.id, ConditionGrade::Good).unwrap_err(), AppError::NotFound);
    assert_eq!(recover_tool(&mut ledger, "S1", first.id).unwrap_err(), AppError::NotFound);
    assert_eq!(give_back(&mut ledger, 99, ConditionGrade::Good, at(102, 0)).unwrap_err(), AppError::NotFound);
    assert_eq!(ledger.tool(1).unwrap().issued_qty, 1);
    assert_eq!(ledger.student("S1").unwrap().lost_tool_count, 1);
}

#[test]
fn settlement_is_only_for_the_owning_student() {
    let mut ledger = ledger_with(10, 0, false, 2, 0);
    ledger.add_student("S2", active(2)).unwrap();
    let receipt = issue(&mut ledger, &order(1, "S1", 1), at(100, 0)).unwrap();
    mark_lost(&mut ledger, receipt.id, ConditionGrade::Damaged).unwrap();
    assert_eq!(recover_tool(&mut ledger, "S2", receipt.id).unwrap_err(), AppError::NotFound);
    assert_eq!(paid_tool(&mut ledger, "S2", receipt.id, None).unwrap_err(), AppError::NotFound);
    assert_eq!(ledger.student("S2").unwrap().lost_tool_count, 2);
    assert_eq!(ledger.student("S1").unwrap().lost_tool_count, 1);
    assert!(recover_tool(&mut ledger, "S1", receipt.id).is_ok());
}

#[test]
fn return_request_with_the_loss_flag_records_a_loss() {
    let mut ledger = ledger_with(10, 0, false, 2, 0);
    let receipt = issue(&mut ledger, &order(1, "S1", 2), at(100, 0)).unwrap();
    let body = ReturnRequest { condition_after: ConditionGrade::Damaged, mark_as_lost: true };
    match return_tool(&mut ledger, receipt.id, &body, at(101, 0)).unwrap() {
        ReturnOutcome::Lost(lost) => {
            assert_eq!(lost.student_lost_tool_count, 1);
            assert_eq!(lost.student_account_status, AccountStatus::Active);
            assert!(!lost.ban_triggered);
            assert_eq!(lost.message(), "Delegation marked as lost");
        }
        ReturnOutcome::Returned(_) => panic!("a loss was asked for"),
    }
    assert_eq!(ledger.tool(1).unwrap().issued_qty, 2);
}

#[test]
fn return_request_without_the_loss_flag_returns() {
    let mut ledger = ledger_with(10, 0, false, 2, 0);
    let receipt = issue(&mut ledger, &order(1, "S1", 2), at(100, 0)).unwrap();
    let body = ReturnRequest { condition_after: ConditionGrade::Excellent, mark_as_lost: false };
    match return_tool(&mut ledger, receipt.id, &body, at(101, 7)).unwrap() {
        ReturnOutcome::Returned(back) => {
            assert_eq!(back.tool_restored_qty, 10);
            assert_eq!(back.status, DelegationStatus::Returned);
        }
        ReturnOutcome::Lost(_) => panic!("a return was asked for"),
    }
    assert_eq!(ledger.tool(1).unwrap().issued_qty, 0);
    assert_eq!(ledger.student("S1").unwrap().lost_tool_count, 0);
}

#[test]
fn issue_refuses_malformed_requests_first() {
    let mut ledger = ledger_with(10, 0, false, 2, 0);
    let zero = issue(&mut ledger, &order(1, "S1", 0), at(100, 0));
    assert_eq!(zero.unwrap_err(), AppError::Validation("Quantity must be >= 1".to_string()));
    let negative = issue(&mut ledger, &order(42, "nobody", -3), at(100, 0));
    assert_eq!(negative.unwrap_err(), AppError::Validation("Quantity must be >= 1".to_string()));

    let mut guest = order(1, "S1", 1);
    guest.is_inter_departmental = Some(true);
    guest.guest_department = Some("Physics".to_string());
    let missing = issue(&mut ledger, &guest, at(100, 0));
    assert_eq!(
        missing.unwrap_err(),
        AppError::Validation(
            "guest_department and guest_lab_project required for inter-departmental borrows"
                .to_string()
        )
    );
    guest.guest_lab_project = Some("Optics bench".to_string());
    let served = issue(&mut ledger, &guest, at(100, 0)).unwrap();
    let record = ledger.delegation(served.id).unwrap();
    assert!(record.is_inter_departmental);
    assert_eq!(record.guest_department.as_deref(), Some("Physics"));
    assert_eq!(record.guest_lab_project.as_deref(), Some("Optics bench"));
    assert_eq!(ledger.delegation_count(), 1);
}

#[test]
fn issue_refuses_unknown_student_and_unknown_tool() {
    let mut ledger = ledger_with(10, 0, false, 2, 0);
    assert_eq!(issue(&mut ledger, &order(1, "S9", 1), at(100, 0)).unwrap_err(), AppError::NotFound);
    assert_eq!(issue(&mut ledger, &order(2, "S1", 1), at(100, 0)).unwrap_err(), AppError::NotFound);
    assert_eq!(ledger.delegation_count(), 0);
    assert_eq!(ledger.tool(1).unwrap().issued_qty, 0);
}

#[test]
fn sweep_marks_only_issued_delegations_past_their_date() {
    let mut ledger = ledger_with(10, 0, false, 2, 0);
    let mut early = order(1, "S1", 1);
    early.expected_return = Date { days: 105 };
    let mut late = order(1, "S1", 1);
    late.expected_return = Date { days: 120 };
    let mut gone = order(1, "S1", 1);
    gone.expected_return = Date { days: 101 };
    let a = issue(&mut ledger, &early, at(100, 0)).unwrap();
    let b = issue(&mut ledger, &late, at(100, 0)).unwrap();
    let c = issue(&mut ledger, &gone, at(100, 0)).unwrap();
    give_back(&mut ledger, c.id, ConditionGrade::Good, at(100, 5)).unwrap();

    assert_eq!(mark_overdue(&mut ledger, Date { days: 105 }), 0);
    assert_eq!(mark_overdue(&mut ledger, Date { days: 106 }), 1);
    assert_eq!(ledger.delegation(a.id).unwrap().status, DelegationStatus::Overdue);
    assert_eq!(ledger.delegation(b.id).unwrap().status, DelegationStatus::Issued);
    assert_eq!(ledger.delegation(c.id).unwrap().status, DelegationStatus::Returned);
    assert_eq!(mark_overdue(&mut ledger, Date { days: 106 }), 0);
    assert_eq!(ledger.tool(1).unwrap().issued_qty, 2);

    let back = give_back(&mut ledger, a.id, ConditionGrade::Fair, at(107, 0)).unwrap();
    assert_eq!(back.tool_restored_qty, 9);
}

#[test]
fn release_is_floored_at_zero() {
    let mut ledger = Ledger::new();
    ledger.add_tool(1, 5, 1, false, 0).unwrap();
    ledger.add_student("S1", active(0)).unwrap();
    let mut record = order(1, "S1", 3).open(7, at(90, 0));
    record.status = DelegationStatus::Overdue;
    ledger.add_delegation(record).unwrap();
    let back = give_back(&mut ledger, 7, ConditionGrade::Good, at(100, 0)).unwrap();
    assert_eq!(back.tool_restored_qty, 5);
    assert!(back.stock_floored);
    assert_eq!(ledger.tool(1).unwrap().issued_qty, 0);
    let next = issue(&mut ledger, &order(1, "S1", 1), at(100, 0)).unwrap();
    assert_eq!(next.id, 8);
}

#[test]
fn registration_refuses_unsound_rows() {
    let mut ledger = Ledger::new();
    assert!(matches!(ledger.add_tool(1, 3, 4, false, 0), Err(AppError::Validation(_))));
    assert!(matches!(ledger.add_tool(1, 3, -1, false, 0), Err(AppError::Validation(_))));
    ledger.add_tool(1, 3, 3, false, 0).unwrap();
    assert_eq!(ledger.tool(1).unwrap().status, ToolStatus::OutOfStock);
    assert!(matches!(ledger.add_tool(1, 9, 0, false, 0), Err(AppError::Conflict(_))));
    assert_eq!(ledger.tool(1).unwrap().quantity, 3);

    let banned_low = Standing { lost_tool_count: 2, account_status: AccountStatus::Banned };
    assert!(matches!(ledger.add_student("S1", banned_low), Err(AppError::Validation(_))));
    assert!(matches!(ledger.add_student("S1", active(5)), Err(AppError::Validation(_))));
    ledger.add_student("S1", active(4)).unwrap();
    assert!(matches!(ledger.add_student("S1", active(0)), Err(AppError::Conflict(_))));

    let mut settled = order(1, "S1", 1).open(1, at(90, 0));
    settled.resolution = Some(Resolution::Paid);
    assert!(matches!(ledger.add_delegation(settled), Err(AppError::Validation(_))));
    let empty = order(1, "S1", 0).open(1, at(90, 0));
    assert!(matches!(ledger.add_delegation(empty), Err(AppError::Validation(_))));
    ledger.add_delegation(order(1, "S1", 1).open(1, at(90, 0))).unwrap();
    let again = order(1, "S1", 1).open(1, at(90, 0));
    assert!(matches!(ledger.add_delegation(again), Err(AppError::Conflict(_))));
    assert!(ledger.tool(2).is_none());
    assert!(ledger.student("S2").is_none());
    assert!(ledger.delegation(2).is_none());
}

#[test]
fn settling_a_loss_that_the_books_never_counted_hits_the_floors() {
    let mut ledger = Ledger::new();
    ledger.add_tool(1, 5, 0, false, 0).unwrap();
    ledger.add_student("S1", active(0)).unwrap();
    let mut lost = order(1, "S1", 2).open(3, at(90, 0));
    lost.status = DelegationStatus::Lost;
    ledger.add_delegation(lost).unwrap();
    let mut other = order(1, "S1", 1).open(4, at(90, 0));
    other.status = DelegationStatus::Lost;
    ledger.add_delegation(other).unwrap();

    let recovered = recover_tool(&mut ledger, "S1", 3).unwrap();
    assert!(recovered.stock_floored);
    assert!(recovered.count_floored);
    assert_eq!(recovered.new_lost_count, 0);
    assert_eq!(recovered.account_status, AccountStatus::Active);
    assert_eq!(ledger.tool(1).unwrap().issued_qty, 0);

    let paid = paid_tool(&mut ledger, "S1", 4, None).unwrap();
    assert!(paid.count_floored);
    assert_eq!(paid.new_lost_count, 0);
}

#[test]
fn settling_a_counted_loss_hits_no_floor() {
    let mut ledger = ledger_with(10, 0, false, 2, 0);
    let first = issue(&mut ledger, &order(1, "S1", 2), at(100, 0)).unwrap();
    let second = issue(&mut ledger, &order(1, "S1", 1), at(100, 0)).unwrap();
    mark_lost(&mut ledger, first.id, ConditionGrade::Damaged).unwrap();
    mark_lost(&mut ledger, second.id, ConditionGrade::Damaged).unwrap();
    let recovered = recover_tool(&mut ledger, "S1", first.id).unwrap();
    assert!(!recovered.stock_floored);
    assert!(!recovered.count_floored);
    let paid = paid_tool(&mut ledger, "S1", second.id, None).unwrap();
    assert!(!paid.count_floored);
}

#[test]
fn a_ban_already_in_force_is_not_triggered_again() {
    let mut ledger = ledger_with(10, 0, false, 2, 3);
    let a = issue(&mut ledger, &order(1, "S1", 1), at(100, 0)).unwrap();
    let b = issue(&mut ledger, &order(1, "S1", 1), at(100, 0)).unwrap();
    let c = issue(&mut ledger, &order(1, "S1", 1), at(100, 0)).unwrap();
    let first = mark_lost(&mut ledger, a.id, ConditionGrade::Damaged).unwrap();
    assert_eq!(first.student_lost_tool_count, 4);
    assert!(!first.ban_triggered);
    let second = mark_lost(&mut ledger, b.id, ConditionGrade::Damaged).unwrap();
    assert_eq!(second.student_account_status, AccountStatus::Banned);
    assert!(second.ban_triggered);
    let third = mark_lost(&mut ledger, c.id, ConditionGrade::Damaged).unwrap();
    assert_eq!(third.student_lost_tool_count, 6);
    assert_eq!(third.student_account_status, AccountStatus::Banned);
    assert!(!third.ban_triggered);
    assert_eq!(third.message(), "Delegation marked as lost");

    let still = recover_tool(&mut ledger, "S1", a.id).unwrap();
    assert_eq!(still.new_lost_count, 5);
    assert_eq!(still.account_status, AccountStatus::Banned);
    let free = paid_tool(&mut ledger, "S1", b.id, None).unwrap();
    assert_eq!(free.new_lost_count, 4);
    assert_eq!(free.account_status, AccountStatus::Active);
}

fn assert_invariants(ledger: &Ledger, tools: &[i32], students: &[&str]) {
    for id in tools {
        let stock = ledger.tool(*id).unwrap();
        assert!(0 <= stock.issued_qty && stock.issued_qty <= stock.quantity);
        assert!(stock.is_sound());
    }
    for id in students {
        let standing = ledger.student(id).unwrap();
        assert_eq!(standing.account_status == AccountStatus::Banned, standing.lost_tool_count >= 5);
        assert!(standing.is_consistent());
    }
}

#[test]
fn invariants_hold_after_every_step_of_a_busy_day() {
    let mut ledger = Ledger::new();
    ledger.add_tool(1, 6, 0, false, 2).unwrap();
    ledger.add_tool(2, 4, 0, true, 1).unwrap();
    ledger.add_student("S1", active(3)).unwrap();
    ledger.add_student("S2", active(0)).unwrap();
    let tools = [1, 2];
    let students = ["S1", "S2"];
    assert_invariants(&ledger, &tools, &students);

    let mut ids = Vec::new();
    for (tool, student, quantity) in
        [(1, "S1", 2), (2, "S1", 1), (1, "S2", 4), (1, "S1", 1), (2, "S2", 3), (2, "S2", 1), (1, "S1", 1)]
    {
        if let Ok(receipt) = issue(&mut ledger, &order(tool, student, quantity), at(100, 0)) {
            ids.push(receipt.id);
        }
        assert_invariants(&ledger, &tools, &students);
    }
    assert_eq!(ids, vec![1, 2, 3, 4]);

    mark_overdue(&mut ledger, Date { days: 200 });
    assert_invariants(&ledger, &tools, &students);
    for id in [1, 2] {
        mark_lost(&mut ledger, id, ConditionGrade::Damaged).unwrap();
        assert_invariants(&ledger, &tools, &students);
    }
    assert_eq!(ledger.student("S1").unwrap().account_status, AccountStatus::Banned);
    for id in [3, 4, 3, 9] {
        let _ = give_back(&mut ledger, id, ConditionGrade::Good, at(201, 0));
        assert_invariants(&ledger, &tools, &students);
    }
    for id in [1, 2, 1, 3] {
        let _ = recover_tool(&mut ledger, "S1", id);
        assert_invariants(&ledger, &tools, &students);
        let _ = paid_tool(&mut ledger, "S1", id, None);
        assert_invariants(&ledger, &tools, &students);
    }
    assert_eq!(ledger.tool(1).unwrap().issued_qty, 0);
    assert_eq!(ledger.tool(2).unwrap().quantity, 0);
    assert_eq!(ledger.student("S1").unwrap().lost_tool_count, 3);
    assert_eq!(ledger.student("S2").unwrap().lost_tool_count, 0);
}

#[test]
fn issue_fails_once_the_ids_have_run_out() {
    let mut ledger = ledger_with(10, 0, false, 2, 0);
    ledger.add_delegation(order(1, "S1", 1).open(i32::MAX - 1, at(90, 0))).unwrap();
    let last = issue(&mut ledger, &order(1, "S1", 1), at(100, 0)).unwrap();
    assert_eq!(last.id, i32::MAX);
    let none = issue(&mut ledger, &order(1, "S1", 1), at(100, 0));
    assert!(matches!(none, Err(AppError::Internal(_))));
    assert_eq!(ledger.delegation_count(), 2);
    assert_eq!(ledger.tool(1).unwrap().issued_qty, 1);
}

#[test]
fn a_loss_that_the_count_cannot_take_fails_and_changes_nothing() {
    let mut ledger = Ledger::new();
    ledger.add_tool(1, 5, 1, false, 0).unwrap();
    ledger.add_student("S1", Standing::from_count(i32::MAX).unwrap()).unwrap();
    ledger.add_delegation(order(1, "S1", 1).open(1, at(90, 0))).unwrap();
    let lost = mark_lost(&mut ledger, 1, ConditionGrade::Damaged);
    assert!(matches!(lost, Err(AppError::Internal(_))));
    assert_eq!(ledger.delegation(1).unwrap().status, DelegationStatus::Issued);
    assert_eq!(ledger.student("S1").unwrap().lost_tool_count, i32::MAX);
}

#[test]
fn operations_on_rows_that_are_not_there_find_nothing() {
    let mut ledger = Ledger::new();
    ledger.add_student("S1", active(0)).unwrap();
    ledger.add_delegation(order(7, "S1", 1).open(1, at(90, 0))).unwrap();
    ledger.add_delegation(order(7, "S9", 1).open(2, at(90, 0))).unwrap();
    let mut lost = order(7, "S1", 1).open(3, at(90, 0));
    lost.status = DelegationStatus::Lost;
    ledger.add_delegation(lost).unwrap();

    assert_eq!(give_back(&mut ledger, 1, ConditionGrade::Good, at(100, 0)).unwrap_err(), AppError::NotFound);
    assert_eq!(mark_lost(&mut ledger, 2, ConditionGrade::Good).unwrap_err(), AppError::NotFound);
    assert_eq!(recover_tool(&mut ledger, "S1", 3).unwrap_err(), AppError::NotFound);
    assert_eq!(ledger.delegation(1).unwrap().status, DelegationStatus::Issued);
    assert_eq!(ledger.delegation(2).unwrap().status, DelegationStatus::Issued);
    assert_eq!(ledger.delegation(3).unwrap().resolution, None);

    let paid = paid_tool(&mut ledger, "S1", 3, None).unwrap();
    assert_eq!(paid.new_lost_count, 0);
    assert_eq!(ledger.delegation(3).unwrap().resolution, Some(Resolution::Paid));
    assert!(mark_lost(&mut ledger, 1, ConditionGrade::Good).is_ok());
}
