//! Delegation rows, the states a delegation moves through, and what is asked
//! of the delegation operations.

use vstd::prelude::*;
use crate::clock::{Date, Moment, TimeOfDay, Timestamp};
use crate::errors::AppError;
use crate::text::{lowercase, occurs_in, same_ignoring_ascii_case, text_eq};

verus! {

/// Where a delegation stands. `Overdue` is an `Issued` delegation whose
/// return date has passed; `Returned` and `Lost` are final.
#[derive(Debug, Clone, Copy, PartialEq, Eq, Structural)]
pub enum DelegationStatus {
    Issued,
    Returned,
    Overdue,
    Lost,
}

impl DelegationStatus {
    /// The text under which the status is stored and sent.
    pub open spec fn label(self) -> Seq<char> {
        match self {
            DelegationStatus::Issued => "Issued"@,
            DelegationStatus::Returned => "Returned"@,
            DelegationStatus::Overdue => "Overdue"@,
            DelegationStatus::Lost => "Lost"@,
        }
    }

    /// The status a stored text stands for, if any.
    pub open spec fn of_label(text: Seq<char>) -> Option<DelegationStatus> {
        if text == "Issued"@ {
            Some(DelegationStatus::Issued)
        } else if text == "Returned"@ {
            Some(DelegationStatus::Returned)
        } else if text == "Overdue"@ {
            Some(DelegationStatus::Overdue)
        } else if text == "Lost"@ {
            Some(DelegationStatus::Lost)
        } else {
            None
        }
    }

    pub fn as_str(&self) -> (text: &'static str)
        ensures
            text@ == self.label(),
    {
        match self {
            DelegationStatus::Issued => "Issued",
            DelegationStatus::Returned => "Returned",
            DelegationStatus::Overdue => "Overdue",
            DelegationStatus::Lost => "Lost",
        }
    }

    pub fn from_label(text: &str) -> (status: Option<DelegationStatus>)
        ensures
            status == DelegationStatus::of_label(text@),
    {
        if text_eq(text, "Issued") {
            Some(DelegationStatus::Issued)
        } else if text_eq(text, "Returned") {
            Some(DelegationStatus::Returned)
        } else if text_eq(text, "Overdue") {
            Some(DelegationStatus::Overdue)
        } else if text_eq(text, "Lost") {
            Some(DelegationStatus::Lost)
        } else {
            None
        }
    }

    /// The statuses a delegation can have next: an issued one can become
    /// overdue, an issued or overdue one can be returned or lost, and a
    /// returned or lost one stays what it is.
    pub open spec fn may_become(self, next: DelegationStatus) -> bool {
        match self {
            DelegationStatus::Issued => true,
            DelegationStatus::Overdue => next != DelegationStatus::Issued,
            DelegationStatus::Returned => next == DelegationStatus::Returned,
            DelegationStatus::Lost => next == DelegationStatus::Lost,
        }
    }

    /// Every status is found again from its stored text.
    pub proof fn label_round_trip(status: DelegationStatus)
        ensures
            DelegationStatus::of_label(status.label()) == Some(status),
    {
        reveal_strlit("Issued");
        reveal_strlit("Returned");
        reveal_strlit("Overdue");
        reveal_strlit("Lost");
        assert("Issued"@[0] == 'I');
        assert("Returned"@[0] == 'R');
        assert("Overdue"@[0] == 'O');
        assert("Lost"@[0] == 'L');
    }
}

/// The condition a tool is in when it leaves or comes back.
#[derive(Debug, Clone, Copy, PartialEq, Eq, Structural)]
pub enum ConditionGrade {
    Excellent,
    Good,
    Fair,
    Damaged,
}

impl ConditionGrade {
    /// The text under which the grade is stored and sent.
    pub open spec fn label(self) -> Seq<char> {
        match self {
            ConditionGrade::Excellent => "Excellent"@,
            ConditionGrade::Good => "Good"@,
            ConditionGrade::Fair => "Fair"@,
            ConditionGrade::Damaged => "Damaged"@,
        }
    }

    /// The grade a stored text stands for, if any.
    pub open spec fn of_label(text: Seq<char>) -> Option<ConditionGrade> {
        if text == "Excellent"@ {
            Some(ConditionGrade::Excellent)
        } else if text == "Good"@ {
            Some(ConditionGrade::Good)
        } else if text == "Fair"@ {
            Some(ConditionGrade::Fair)
        } else if text == "Damaged"@ {
            Some(ConditionGrade::Damaged)
        } else {
            None
        }
    }

    pub fn as_str(&self) -> (text: &'static str)
        ensures
            text@ == self.label(),
    {
        match self {
            ConditionGrade::Excellent => "Excellent",
            ConditionGrade::Good => "Good",
            ConditionGrade::Fair => "Fair",
            ConditionGrade::Damaged => "Damaged",
        }
    }

    pub fn to_string(&self) -> (text: String)
        ensures
            text@ == self.label(),
    {
        self.as_str().to_owned()
    }

    pub fn from_label(text: &str) -> (grade: Option<ConditionGrade>)
        ensures
            grade == ConditionGrade::of_label(text@),
    {
        if text_eq(text, "Excellent") {
            Some(ConditionGrade::Excellent)
        } else if text_eq(text, "Good") {
            Some(ConditionGrade::Good)
        } else if text_eq(text, "Fair") {
            Some(ConditionGrade::Fair)
        } else if text_eq(text, "Damaged") {
            Some(ConditionGrade::Damaged)
        } else {
            None
        }
    }

    /// Every grade is found again from its stored text.
    pub proof fn label_round_trip(grade: ConditionGrade)
        ensures
            ConditionGrade::of_label(grade.label()) == Some(grade),
    {
        reveal_strlit("Excellent");
        reveal_strlit("Good");
        reveal_strlit("Fair");
        reveal_strlit("Damaged");
        assert("Excellent"@[0] == 'E');
        assert("Good"@[0] == 'G');
        assert("Fair"@[0] == 'F');
        assert("Damaged"@[0] == 'D');
    }
}

/// How a loss was settled: the tool came back, or it was paid for.
#[derive(Debug, Clone, Copy, PartialEq, Eq, Structural)]
pub enum Resolution {
    Recovered,
    Paid,
}

impl Resolution {
    /// The text under which the resolution is stored and sent.
    pub open spec fn label(self) -> Seq<char> {
        match self {
            Resolution::Recovered => "Recovered"@,
            Resolution::Paid => "Paid"@,
        }
    }

    /// The resolution a stored text stands for, if any.
    pub open spec fn of_label(text: Seq<char>) -> Option<Resolution> {
        if text == "Recovered"@ {
            Some(Resolution::Recovered)
        } else if text == "Paid"@ {
            Some(Resolution::Paid)
        } else {
            None
        }
    }

    pub fn as_str(&self) -> (text: &'static str)
        ensures
            text@ == self.label(),
    {
        match self {
            Resolution::Recovered => "Recovered",
            Resolution::Paid => "Paid",
        }
    }

    pub fn from_label(text: &str) -> (resolution: Option<Resolution>)
        ensures
            resolution == Resolution::of_label(text@),
    {
        if text_eq(text, "Recovered") {
            Some(Resolution::Recovered)
        } else if text_eq(text, "Paid") {
            Some(Resolution::Paid)
        } else {
            None
        }
    }

    /// Every resolution is found again from its stored text.
    pub proof fn label_round_trip(resolution: Resolution)
        ensures
            Resolution::of_label(resolution.label()) == Some(resolution),
    {
        reveal_strlit("Recovered");
        reveal_strlit("Paid");
        assert("Recovered"@[0] == 'R');
        assert("Paid"@[0] == 'P');
    }
}

/// The characters of an optional text.
pub open spec fn text_of(text: Option<String>) -> Option<Seq<char>> {
    match text {
        Some(t) => Some(t@),
        None => None,
    }
}

/// A copy of an optional text.
pub fn copy_text(text: &Option<String>) -> (copy: Option<String>)
    ensures
        text_of(copy) == text_of(*text),
{
    match text {
        Some(t) => Some(t.clone()),
        None => None,
    }
}

/// The characters of each of a list of texts.
pub open spec fn texts_of(texts: Option<Vec<String>>) -> Option<Seq<Seq<char>>> {
    match texts {
        Some(list) => Some(list@.map_values(|t: String| t@)),
        None => None,
    }
}

/// A copy of an optional list of texts.
pub fn copy_texts(texts: &Option<Vec<String>>) -> (copy: Option<Vec<String>>)
    ensures
        texts_of(copy) == texts_of(*texts),
{
    match texts {
        Some(list) => {
            let mut copy: Vec<String> = Vec::new();
            let mut position: usize = 0;
            while position < list.len()
                invariant
                    position <= list@.len(),
                    copy@.len() == position,
                    forall|i: int| 0 <= i < position ==> (#[trigger] copy@[i])@ == list@[i]@,
                decreases list@.len() - position,
            {
                copy.push(list[position].clone());
                position = position + 1;
            }
            assert(copy@.map_values(|t: String| t@) =~= list@.map_values(|t: String| t@));
            Some(copy)
        },
        None => None,
    }
}

/// One delegation, as mathematics sees it.
pub struct DelegationState {
    pub id: i32,
    pub tool_id: i32,
    pub quantity: int,
    pub lecturer_id: i32,
    pub student_id: Seq<char>,
    pub date_issued: Date,
    pub expected_return: Date,
    pub expected_return_time: Option<TimeOfDay>,
    pub date_returned: Option<Date>,
    pub actual_checkout_time: TimeOfDay,
    pub actual_return_time: Option<TimeOfDay>,
    pub status: DelegationStatus,
    pub condition_before: ConditionGrade,
    pub condition_after: Option<ConditionGrade>,
    pub is_inter_departmental: bool,
    pub guest_department: Option<Seq<char>>,
    pub guest_lab_project: Option<Seq<char>>,
    pub resolution: Option<Resolution>,
}

impl DelegationState {
    /// At least one unit is borrowed, and only a lost delegation carries a
    /// resolution.
    pub open spec fn wf(self) -> bool {
        &&& self.quantity >= 1
        &&& (self.resolution is Some ==> self.status == DelegationStatus::Lost)
    }

    /// The tool is still out and expected back.
    pub open spec fn is_open(self) -> bool {
        self.status == DelegationStatus::Issued || self.status == DelegationStatus::Overdue
    }

    /// The delegation is this student's, is lost, and nothing has settled the
    /// loss yet.
    pub open spec fn awaits_settlement(self, student_id: Seq<char>) -> bool {
        &&& self.student_id == student_id
        &&& self.status == DelegationStatus::Lost
        &&& self.resolution is None
    }

    /// The delegation is out, and its return date lies before `today`.
    pub open spec fn is_due(self, today: Date) -> bool {
        self.status == DelegationStatus::Issued && self.expected_return.is_before(today)
    }

    pub open spec fn returned(
        self,
        condition_after: ConditionGrade,
        now: Moment,
    ) -> DelegationState {
        DelegationState {
            status: DelegationStatus::Returned,
            condition_after: Some(condition_after),
            actual_return_time: Some(now.time),
            date_returned: Some(now.date),
            ..self
        }
    }

    pub open spec fn lost(self, condition_after: ConditionGrade) -> DelegationState {
        DelegationState {
            status: DelegationStatus::Lost,
            condition_after: Some(condition_after),
            ..self
        }
    }

    pub open spec fn settled(self, resolution: Resolution) -> DelegationState {
        DelegationState { resolution: Some(resolution), ..self }
    }

    pub open spec fn overdue(self) -> DelegationState {
        DelegationState { status: DelegationStatus::Overdue, ..self }
    }
}

/// One delegation: a quantity of one tool lent to one student under one
/// lecturer's authority.
#[derive(Debug)]
pub struct DelegationRecord {
    pub id: i32,
    pub tool_id: i32,
    pub quantity: i32,
    pub lecturer_id: i32,
    pub student_id: String,
    pub date_issued: Date,
    pub expected_return: Date,
    pub expected_return_time: Option<TimeOfDay>,
    pub date_returned: Option<Date>,
    pub actual_checkout_time: TimeOfDay,
    pub actual_return_time: Option<TimeOfDay>,
    pub status: DelegationStatus,
    pub condition_before: ConditionGrade,
    pub condition_after: Option<ConditionGrade>,
    pub is_inter_departmental: bool,
    pub guest_department: Option<String>,
    pub guest_lab_project: Option<String>,
    pub resolution: Option<Resolution>,
}

impl View for DelegationRecord {
    type V = DelegationState;

    open spec fn view(&self) -> DelegationState {
        DelegationState {
            id: self.id,
            tool_id: self.tool_id,
            quantity: self.quantity as int,
            lecturer_id: self.lecturer_id,
            student_id: self.student_id@,
            date_issued: self.date_issued,
            expected_return: self.expected_return,
            expected_return_time: self.expected_return_time,
            date_returned: self.date_returned,
            actual_checkout_time: self.actual_checkout_time,
            actual_return_time: self.actual_return_time,
            status: self.status,
            condition_before: self.condition_before,
            condition_after: self.condition_after,
            is_inter_departmental: self.is_inter_departmental,
            guest_department: text_of(self.guest_department),
            guest_lab_project: text_of(self.guest_lab_project),
            resolution: self.resolution,
        }
    }
}

impl DelegationRecord {
    /// A copy of the record.
    pub fn duplicate(&self) -> (copy: DelegationRecord)
        ensures
            copy@ == self@,
    {
        DelegationRecord {
            id: self.id,
            tool_id: self.tool_id,
            quantity: self.quantity,
            lecturer_id: self.lecturer_id,
            student_id: self.student_id.clone(),
            date_issued: self.date_issued,
            expected_return: self.expected_return,
            expected_return_time: self.expected_return_time,
            date_returned: self.date_returned,
            actual_checkout_time: self.actual_checkout_time,
            actual_return_time: self.actual_return_time,
            status: self.status,
            condition_before: self.condition_before,
            condition_after: self.condition_after,
            is_inter_departmental: self.is_inter_departmental,
            guest_department: copy_text(&self.guest_department),
            guest_lab_project: copy_text(&self.guest_lab_project),
            resolution: self.resolution,
        }
    }

    /// Whether the record is one a ledger can hold.
    pub fn is_sound(&self) -> (ok: bool)
        ensures
            ok == self@.wf(),
    {
        self.quantity >= 1 && (self.resolution.is_none() || self.status == DelegationStatus::Lost)
    }

    /// Whether the tool is still out and expected back.
    pub fn is_open(&self) -> (open: bool)
        ensures
            open == self@.is_open(),
    {
        self.status == DelegationStatus::Issued || self.status == DelegationStatus::Overdue
    }

    /// Whether the delegation is this student's loss and still unsettled.
    pub fn awaits_settlement(&self, student_id: &str) -> (waiting: bool)
        ensures
            waiting == self@.awaits_settlement(student_id@),
    {
        text_eq(self.student_id.as_str(), student_id) && self.status == DelegationStatus::Lost
            && self.resolution.is_none()
    }

    /// Whether the delegation is out past its return date.
    pub fn is_due(&self, today: &Date) -> (due: bool)
        ensures
            due == self@.is_due(*today),
    {
        self.status == DelegationStatus::Issued && self.expected_return.before(today)
    }

    /// Records the tool's return. Only an open delegation can be returned.
    pub fn give_back(
        &mut self,
        condition_after: ConditionGrade,
        now: Moment,
    ) -> (outcome: Result<(), AppError>)
        ensures
            old(self)@.is_open() ==> outcome is Ok,
            old(self)@.is_open() ==> final(self)@ == old(self)@.returned(condition_after, now),
            !old(self)@.is_open() ==> outcome == Err::<(), AppError>(AppError::NotFound),
            !old(self)@.is_open() ==> final(self)@ == old(self)@,
    {
        if !self.is_open() {
            return Err(AppError::NotFound);
        }
        self.status = DelegationStatus::Returned;
        self.condition_after = Some(condition_after);
        self.actual_return_time = Some(now.time);
        self.date_returned = Some(now.date);
        Ok(())
    }

    /// Records the tool as lost. Only an open delegation can be lost.
    pub fn report_lost(&mut self, condition_after: ConditionGrade) -> (outcome: Result<(), AppError>)
        ensures
            old(self)@.is_open() ==> outcome is Ok,
            old(self)@.is_open() ==> final(self)@ == old(self)@.lost(condition_after),
            !old(self)@.is_open() ==> outcome == Err::<(), AppError>(AppError::NotFound),
            !old(self)@.is_open() ==> final(self)@ == old(self)@,
    {
        if !self.is_open() {
            return Err(AppError::NotFound);
        }
        self.status = DelegationStatus::Lost;
        self.condition_after = Some(condition_after);
        Ok(())
    }

    /// Settles a loss. Only the student's own, still unsettled loss can be
    /// settled.
    pub fn settle(
        &mut self,
        student_id: &str,
        resolution: Resolution,
    ) -> (outcome: Result<(), AppError>)
        ensures
            old(self)@.awaits_settlement(student_id@) ==> outcome is Ok,
            old(self)@.awaits_settlement(student_id@) ==> final(self)@ == old(self)@.settled(
                resolution,
            ),
            !old(self)@.awaits_settlement(student_id@) ==> outcome == Err::<(), AppError>(
                AppError::NotFound,
            ),
            !old(self)@.awaits_settlement(student_id@) ==> final(self)@ == old(self)@,
    {
        if !self.awaits_settlement(student_id) {
            return Err(AppError::NotFound);
        }
        self.resolution = Some(resolution);
        Ok(())
    }

    /// Marks the delegation overdue if it is out past its return date, and
    /// says whether it did.
    pub fn flag_overdue(&mut self, today: &Date) -> (changed: bool)
        ensures
            changed == old(self)@.is_due(*today),
            changed ==> final(self)@ == old(self)@.overdue(),
            !changed ==> final(self)@ == old(self)@,
    {
        if self.is_due(today) {
            self.status = DelegationStatus::Overdue;
            true
        } else {
            false
        }
    }
}

/// What is asked when a tool is issued.
#[derive(Debug)]
pub struct CreateDelegationRequest {
    pub tool_id: i32,
    pub quantity: i32,
    pub lecturer_id: i32,
    pub student_id: String,
    pub expected_return: Date,
    pub expected_return_time: Option<TimeOfDay>,
    pub condition_before: ConditionGrade,
    pub is_inter_departmental: Option<bool>,
    pub guest_department: Option<String>,
    pub guest_lab_project: Option<String>,
}

/// An issue request, as mathematics sees it.
pub struct IssueOrder {
    pub tool_id: i32,
    pub quantity: int,
    pub lecturer_id: i32,
    pub student_id: Seq<char>,
    pub expected_return: Date,
    pub expected_return_time: Option<TimeOfDay>,
    pub condition_before: ConditionGrade,
    pub is_inter_departmental: bool,
    pub guest_department: Option<Seq<char>>,
    pub guest_lab_project: Option<Seq<char>>,
}

impl View for CreateDelegationRequest {
    type V = IssueOrder;

    open spec fn view(&self) -> IssueOrder {
        IssueOrder {
            tool_id: self.tool_id,
            quantity: self.quantity as int,
            lecturer_id: self.lecturer_id,
            student_id: self.student_id@,
            expected_return: self.expected_return,
            expected_return_time: self.expected_return_time,
            condition_before: self.condition_before,
            is_inter_departmental: self.is_inter_departmental == Some(true),
            guest_department: text_of(self.guest_department),
            guest_lab_project: text_of(self.guest_lab_project),
        }
    }
}

impl IssueOrder {
    /// Why the request is malformed, if it is: the quantity is below one, or
    /// a borrow between departments names no guest department or no guest
    /// lab or project.
    pub open spec fn defect(self) -> Option<Seq<char>> {
        if self.quantity <= 0 {
            Some("Quantity must be >= 1"@)
        } else if self.is_inter_departmental && (self.guest_department is None
            || self.guest_lab_project is None) {
            Some("guest_department and guest_lab_project required for inter-departmental borrows"@)
        } else {
            None
        }
    }

    /// The delegation a well-formed request opens under `id` at `now`.
    pub open spec fn opened(self, id: i32, now: Moment) -> DelegationState {
        DelegationState {
            id,
            tool_id: self.tool_id,
            quantity: self.quantity,
            lecturer_id: self.lecturer_id,
            student_id: self.student_id,
            date_issued: now.date,
            expected_return: self.expected_return,
            expected_return_time: self.expected_return_time,
            date_returned: None,
            actual_checkout_time: now.time,
            actual_return_time: None,
            status: DelegationStatus::Issued,
            condition_before: self.condition_before,
            condition_after: None,
            is_inter_departmental: self.is_inter_departmental,
            guest_department: self.guest_department,
            guest_lab_project: self.guest_lab_project,
            resolution: None,
        }
    }
}

impl CreateDelegationRequest {
    /// Checks the request's shape.
    pub fn validate(&self) -> (outcome: Result<(), AppError>)
        ensures
            self@.defect() is None ==> outcome is Ok,
            self@.defect() is Some ==> (outcome matches Err(AppError::Validation(m)) && Some(m@)
                == self@.defect()),
    {
        if self.quantity <= 0 {
            return Err(AppError::Validation("Quantity must be >= 1".to_owned()));
        }
        let is_inter: bool = match self.is_inter_departmental {
            Some(flag) => flag,
            None => false,
        };
        if is_inter && (self.guest_department.is_none() || self.guest_lab_project.is_none()) {
            let message = "guest_department and guest_lab_project required for inter-departmental borrows";
            return Err(AppError::Validation(message.to_owned()));
        }
        Ok(())
    }

    /// The delegation this request opens under `id` at `now`.
    pub fn open(&self, id: i32, now: Moment) -> (record: DelegationRecord)
        ensures
            record@ == self@.opened(id, now),
    {
        let is_inter: bool = match self.is_inter_departmental {
            Some(flag) => flag,
            None => false,
        };
        DelegationRecord {
            id,
            tool_id: self.tool_id,
            quantity: self.quantity,
            lecturer_id: self.lecturer_id,
            student_id: self.student_id.clone(),
            date_issued: now.date,
            expected_return: self.expected_return,
            expected_return_time: self.expected_return_time,
            date_returned: None,
            actual_checkout_time: now.time,
            actual_return_time: None,
            status: DelegationStatus::Issued,
            condition_before: self.condition_before,
            condition_after: None,
            is_inter_departmental: is_inter,
            guest_department: copy_text(&self.guest_department),
            guest_lab_project: copy_text(&self.guest_lab_project),
            resolution: None,
        }
    }
}

/// What is asked when a tool comes back, or is reported lost instead.
#[derive(Debug, Clone, Copy)]
pub struct ReturnRequest {
    pub condition_after: ConditionGrade,
    pub mark_as_lost: bool,
}

/// One delegation as a listing shows it: the record, with the names of the
/// tool, the lecturer and the student.
#[derive(Debug)]
pub struct Delegation {
    pub record: DelegationRecord,
    pub tool_name: String,
    pub lecturer_name: String,
    pub student_name: String,
    pub class_name: Option<String>,
    pub created_at: Timestamp,
}

/// What narrows a listing of delegations.
#[derive(Debug)]
pub struct DelegationFilters {
    pub status: Option<String>,
    pub student_id: Option<String>,
    pub lecturer_id: Option<i32>,
    pub search: Option<String>,
    /// The text `true` keeps only borrows between departments.
    pub inter_dept: Option<String>,
}

impl DelegationFilters {
    /// Whether a delegation passes: its status and its student's id are the
    /// ones asked for, ASCII case aside; its lecturer is the one asked for;
    /// the student's name, the tool's name or the student's id holds the
    /// search text, without regard to case; and it is a borrow between
    /// departments where only those are asked for. A filter that is left out
    /// lets every delegation pass.
    pub open spec fn accepts(&self, delegation: &Delegation) -> bool {
        &&& (self.status matches Some(wanted) ==> same_ignoring_ascii_case(
            delegation.record.status.label(),
            wanted@,
        ))
        &&& (self.student_id matches Some(wanted) ==> same_ignoring_ascii_case(
            delegation.record.student_id@,
            wanted@,
        ))
        &&& (self.lecturer_id matches Some(wanted) ==> delegation.record.lecturer_id == wanted)
        &&& (self.search matches Some(wanted) ==> (occurs_in(
            lowercase(wanted@),
            lowercase(delegation.student_name@),
        ) || occurs_in(lowercase(wanted@), lowercase(delegation.tool_name@)) || occurs_in(
            lowercase(wanted@),
            lowercase(delegation.record.student_id@),
        )))
        &&& ((self.inter_dept matches Some(flag) && flag@ == "true"@)
            ==> delegation.record.is_inter_departmental)
    }
}

/// Which of the delegations pass the filters, position by position.
pub open spec fn delegations_kept(
    delegations: Seq<Delegation>,
    filters: DelegationFilters,
) -> Seq<bool> {
    Seq::new(delegations.len(), |i: int| filters.accepts(&delegations[i]))
}

} // verus!
