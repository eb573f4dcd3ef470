//! The ledger: every tool's counters, every student's standing and every
//! delegation, held together, with the operations that move them stated as
//! functions from one state of the whole to the next.

use std::collections::HashMap;
use vstd::hash_map::StringHashMap;
use vstd::prelude::*;
use crate::clock::{Date, Moment};
use crate::delegations::models::{
    ConditionGrade,
    DelegationRecord,
    DelegationState,
    IssueOrder,
    Resolution,
};
use crate::errors::{AppError, ErrorKind};
use crate::standing::{Standing, StandingState};
use crate::stock::{ToolState, ToolStock};
use crate::students::models::AccountStatus;

verus! {

/// The state of the whole ledger, as mathematics sees it.
pub struct LedgerState {
    /// The counters of each tool, by the tool's id.
    pub tools: Map<i32, ToolState>,
    /// The standing of each student, by the student's id.
    pub students: Map<Seq<char>, StandingState>,
    /// Every delegation, in the order in which the ledger took it in.
    pub delegations: Seq<DelegationState>,
    /// The id that the next issue gives out.
    pub next_id: int,
}

/// One request to the ledger.
pub enum Operation {
    Issue { order: IssueOrder, now: Moment },
    Return { id: i32, condition_after: ConditionGrade, now: Moment },
    MarkLost { id: i32, condition_after: ConditionGrade },
    Recover { student_id: Seq<char>, id: i32 },
    Paid { student_id: Seq<char>, id: i32 },
    MarkOverdue { today: Date },
}

impl LedgerState {
    pub open spec fn empty() -> LedgerState {
        LedgerState {
            tools: Map::empty(),
            students: Map::empty(),
            delegations: Seq::empty(),
            next_id: 1,
        }
    }

    /// No two delegations share an id.
    pub open spec fn distinct_ids(self) -> bool {
        forall|i: int, j: int|
            0 <= i < j < self.delegations.len() ==> (#[trigger] self.delegations[i]).id != (
            #[trigger] self.delegations[j]).id
    }

    /// What holds of the ledger at all times: every tool's counters are
    /// sound, every student's count and status agree, every delegation is
    /// sound, and ids are given out once and in rising order.
    pub open spec fn wf(self) -> bool {
        &&& forall|id: i32| self.tools.contains_key(id) ==> (#[trigger] self.tools[id]).wf()
        &&& forall|student_id: Seq<char>|
            self.students.contains_key(student_id) ==> (#[trigger] self.students[student_id]).wf()
        &&& forall|i: int|
            0 <= i < self.delegations.len() ==> (#[trigger] self.delegations[i]).wf()
                && self.delegations[i].id < self.next_id
        &&& self.distinct_ids()
        &&& 1 <= self.next_id
    }

    /// Some delegation has this id.
    pub open spec fn holds(self, id: i32) -> bool {
        exists|i: int| 0 <= i < self.delegations.len() && (#[trigger] self.delegations[i]).id == id
    }

    /// Where the delegation with this id stands in the sequence.
    pub open spec fn slot(self, id: i32) -> int {
        choose|i: int| 0 <= i < self.delegations.len() && (#[trigger] self.delegations[i]).id == id
    }

    /// The delegation with this id.
    pub open spec fn delegation(self, id: i32) -> DelegationState
        recommends
            self.holds(id),
    {
        self.delegations[self.slot(id)]
    }

    /// The state with the delegation of this id replaced.
    pub open spec fn with_delegation(self, id: i32, delegation: DelegationState) -> LedgerState {
        LedgerState { delegations: self.delegations.update(self.slot(id), delegation), ..self }
    }

    /// The state with one tool's counters replaced.
    pub open spec fn with_tool(self, id: i32, tool: ToolState) -> LedgerState {
        LedgerState { tools: self.tools.insert(id, tool), ..self }
    }

    /// The state with one student's standing replaced.
    pub open spec fn with_student(
        self,
        student_id: Seq<char>,
        standing: StandingState,
    ) -> LedgerState {
        LedgerState { students: self.students.insert(student_id, standing), ..self }
    }

    /// Issue: the state after the order is served, or why it is refused.
    ///
    /// A malformed order is a validation error. The student must be known
    /// and not banned, the tool must be known and must cover the quantity.
    /// Then the units are taken from the tool and a delegation is opened
    /// under the next id. Ids are 32-bit numbers: once they have run out, an
    /// issue is an internal error.
    pub open spec fn issue(self, order: IssueOrder, now: Moment) -> Result<LedgerState, ErrorKind> {
        if order.defect() is Some {
            Err(ErrorKind::Validation)
        } else if !self.students.contains_key(order.student_id) {
            Err(ErrorKind::NotFound)
        } else if self.students[order.student_id].account_status == AccountStatus::Banned {
            Err(ErrorKind::StudentBanned)
        } else if !self.tools.contains_key(order.tool_id) {
            Err(ErrorKind::NotFound)
        } else if !self.tools[order.tool_id].covers(order.quantity) {
            Err(ErrorKind::InsufficientStock)
        } else if self.next_id > i32::MAX {
            Err(ErrorKind::Internal)
        } else {
            Ok(
                LedgerState {
                    tools: self.tools.insert(
                        order.tool_id,
                        self.tools[order.tool_id].reserved(order.quantity),
                    ),
                    delegations: self.delegations.push(order.opened(self.next_id as i32, now)),
                    next_id: self.next_id + 1,
                    ..self
                },
            )
        }
    }

    /// Return: an open delegation of a known tool is closed as returned and
    /// its units go back to the tool.
    pub open spec fn give_back(
        self,
        id: i32,
        condition_after: ConditionGrade,
        now: Moment,
    ) -> Result<LedgerState, ErrorKind> {
        if !self.holds(id) || !self.delegation(id).is_open() {
            Err(ErrorKind::NotFound)
        } else if !self.tools.contains_key(self.delegation(id).tool_id) {
            Err(ErrorKind::NotFound)
        } else {
            let delegation = self.delegation(id);
            Ok(
                self.with_tool(
                    delegation.tool_id,
                    self.tools[delegation.tool_id].released(delegation.quantity),
                ).with_delegation(id, delegation.returned(condition_after, now)),
            )
        }
    }

    /// MarkLost: an open delegation of a known student is closed as lost and
    /// the student's count rises by one. The tool's counters stay as they
    /// are: the units remain out. Counts are 32-bit numbers: a loss that the
    /// count cannot take is an internal error.
    pub open spec fn report_lost(
        self,
        id: i32,
        condition_after: ConditionGrade,
    ) -> Result<LedgerState, ErrorKind> {
        if !self.holds(id) || !self.delegation(id).is_open() {
            Err(ErrorKind::NotFound)
        } else if !self.students.contains_key(self.delegation(id).student_id) {
            Err(ErrorKind::NotFound)
        } else if self.students[self.delegation(id).student_id].lost_tool_count >= i32::MAX {
            Err(ErrorKind::Internal)
        } else {
            let delegation = self.delegation(id);
            Ok(
                self.with_student(
                    delegation.student_id,
                    self.students[delegation.student_id].after_loss(),
                ).with_delegation(id, delegation.lost(condition_after)),
            )
        }
    }

    /// Recover: the student's own, still unsettled loss is settled as
    /// recovered, its units go back to the tool, and the student's count
    /// falls by one.
    pub open spec fn recover(
        self,
        student_id: Seq<char>,
        id: i32,
    ) -> Result<LedgerState, ErrorKind> {
        if !self.holds(id) || !self.delegation(id).awaits_settlement(student_id) {
            Err(ErrorKind::NotFound)
        } else if !self.tools.contains_key(self.delegation(id).tool_id) {
            Err(ErrorKind::NotFound)
        } else if !self.students.contains_key(student_id) {
            Err(ErrorKind::NotFound)
        } else {
            let delegation = self.delegation(id);
            Ok(
                self.with_tool(
                    delegation.tool_id,
                    self.tools[delegation.tool_id].released(delegation.quantity),
                ).with_student(student_id, self.students[student_id].after_settlement())
                    .with_delegation(id, delegation.settled(Resolution::Recovered)),
            )
        }
    }

    /// Paid: the student's own, still unsettled loss is settled as paid and
    /// the student's count falls by one. The tool's counters stay as they
    /// are: what was paid for is written off.
    pub open spec fn pay(self, student_id: Seq<char>, id: i32) -> Result<LedgerState, ErrorKind> {
        if !self.holds(id) || !self.delegation(id).awaits_settlement(student_id) {
            Err(ErrorKind::NotFound)
        } else if !self.students.contains_key(student_id) {
            Err(ErrorKind::NotFound)
        } else {
            let delegation = self.delegation(id);
            Ok(
                self.with_student(student_id, self.students[student_id].after_settlement())
                    .with_delegation(id, delegation.settled(Resolution::Paid)),
            )
        }
    }

    /// MarkOverdue: every delegation that is out past its return date
    /// becomes overdue; nothing else changes.
    pub open spec fn sweep(self, today: Date) -> LedgerState {
        LedgerState {
            delegations: Seq::new(
                self.delegations.len(),
                |i: int|
                    if self.delegations[i].is_due(today) {
                        self.delegations[i].overdue()
                    } else {
                        self.delegations[i]
                    },
            ),
            ..self
        }
    }

    /// How many delegations a sweep on `today` changes.
    pub open spec fn due_count(self, today: Date) -> nat {
        count_due(self.delegations, today)
    }

    /// The state after a request: the operation's result where it is
    /// served, the state unchanged where it is refused.
    pub open spec fn apply(self, operation: Operation) -> LedgerState {
        let served = match operation {
            Operation::Issue { order, now } => self.issue(order, now),
            Operation::Return { id, condition_after, now } => self.give_back(
                id,
                condition_after,
                now,
            ),
            Operation::MarkLost { id, condition_after } => self.report_lost(id, condition_after),
            Operation::Recover { student_id, id } => self.recover(student_id, id),
            Operation::Paid { student_id, id } => self.pay(student_id, id),
            Operation::MarkOverdue { today } => Ok(self.sweep(today)),
        };
        match served {
            Ok(next) => next,
            Err(_) => self,
        }
    }
}

/// How many of the delegations are out past their return date.
pub open spec fn count_due(delegations: Seq<DelegationState>, today: Date) -> nat
    decreases delegations.len(),
{
    if delegations.len() == 0 {
        0
    } else {
        count_due(delegations.drop_last(), today) + if delegations.last().is_due(today) {
            1nat
        } else {
            0nat
        }
    }
}

/// Under distinct ids, the delegation found at a position is the one its id
/// names.
pub proof fn slot_is_position(state: LedgerState, i: int)
    requires
        state.distinct_ids(),
        0 <= i < state.delegations.len(),
    ensures
        state.holds(state.delegations[i].id),
        state.slot(state.delegations[i].id) == i,
{
    let id = state.delegations[i].id;
    let j = state.slot(id);
    assert(0 <= j < state.delegations.len() && state.delegations[j].id == id);
    if j < i {
        assert(state.delegations[j].id != state.delegations[i].id);
    } else if i < j {
        assert(state.delegations[i].id != state.delegations[j].id);
    }
}

/// The ledger: tools and students by id, and the delegations in the order in
/// which they came.
pub struct Ledger {
    tools: HashMap<i32, ToolStock>,
    students: StringHashMap<Standing>,
    delegations: Vec<DelegationRecord>,
    next_id: i64,
}

impl View for Ledger {
    type V = LedgerState;

    closed spec fn view(&self) -> LedgerState {
        LedgerState {
            tools: self.tools@.map_values(|stock: ToolStock| stock@),
            students: self.students@.map_values(|standing: Standing| standing@),
            delegations: self.delegations@.map_values(|record: DelegationRecord| record@),
            next_id: self.next_id as int,
        }
    }
}

impl Ledger {
    /// What the stored form adds to the state: each tool's stored status is
    /// the one its counters imply, and the next id is in range.
    pub closed spec fn stored_soundly(&self) -> bool {
        &&& forall|id: i32| self.tools@.contains_key(id) ==> (#[trigger] self.tools@[id]).status
            == self.tools@[id]@.status()
        &&& 1 <= self.next_id <= i32::MAX + 1
    }

    /// The ledger's invariant.
    pub open spec fn wf(&self) -> bool {
        &&& self@.wf()
        &&& self.stored_soundly()
    }

    /// An empty ledger.
    pub fn new() -> (ledger: Ledger)
        ensures
            ledger@ == LedgerState::empty(),
            ledger.wf(),
    {
        let ledger = Ledger {
            tools: HashMap::new(),
            students: StringHashMap::new(),
            delegations: Vec::new(),
            next_id: 1,
        };
        assert(ledger@.tools =~= Map::empty());
        assert(ledger@.students =~= Map::empty());
        assert(ledger@.delegations =~= Seq::empty());
        ledger
    }

    /// Takes a tool in under a new id.
    ///
    /// Counters with a negative number of units out, or with more units out
    /// than owned, are refused as malformed; an id that is taken is refused
    /// as a conflict. A refusal leaves the ledger as it was.
    pub fn add_tool(
        &mut self,
        id: i32,
        quantity: i32,
        issued_qty: i32,
        is_consumable: bool,
        low_stock_threshold: i32,
    ) -> (outcome: Result<(), AppError>)
        requires
            old(self).wf(),
        ensures
            final(self).wf(),
            match outcome {
                Ok(_) => {
                    &&& 0 <= issued_qty <= quantity
                    &&& !old(self)@.tools.contains_key(id)
                    &&& final(self)@ == old(self)@.with_tool(
                        id,
                        ToolState {
                            quantity: quantity as int,
                            issued_qty: issued_qty as int,
                            is_consumable,
                            low_stock_threshold: low_stock_threshold as int,
                        },
                    )
                },
                Err(error) => {
                    &&& final(self)@ == old(self)@
                    &&& if 0 <= issued_qty <= quantity {
                        old(self)@.tools.contains_key(id) && error.kind() == ErrorKind::Conflict
                    } else {
                        error.kind() == ErrorKind::Validation
                    }
                },
            },
    {
        if issued_qty < 0 || issued_qty > quantity {
            return Err(
                AppError::Validation(
                    "Issued quantity must lie between zero and the quantity".to_owned(),
                ),
            );
        }
        if self.tools.contains_key(&id) {
            return Err(AppError::Conflict("A tool with that id already exists".to_owned()));
        }
        let stock = ToolStock::new(quantity, issued_qty, is_consumable, low_stock_threshold);
        self.put_tool(id, stock);
        proof {
            let before = old(self)@;
            let after = self@;
            assert forall|t: i32| after.tools.contains_key(t) implies (
            #[trigger] after.tools[t]).wf() by {
                if t != id {
                    assert(before.tools[t].wf());
                }
            }
        }
        Ok(())
    }

    /// Takes a student in under a new id.
    ///
    /// A standing whose count is negative, or whose status does not follow
    /// from its count, is refused as malformed; an id that is taken is
    /// refused as a conflict. A refusal leaves the ledger as it was.
    pub fn add_student(
        &mut self,
        student_id: &str,
        standing: Standing,
    ) -> (outcome: Result<(), AppError>)
        requires
            old(self).wf(),
        ensures
            final(self).wf(),
            match outcome {
                Ok(_) => {
                    &&& standing@.wf()
                    &&& !old(self)@.students.contains_key(student_id@)
                    &&& final(self)@ == old(self)@.with_student(student_id@, standing@)
                },
                Err(error) => {
                    &&& final(self)@ == old(self)@
                    &&& if standing@.wf() {
                        old(self)@.students.contains_key(student_id@) && error.kind()
                            == ErrorKind::Conflict
                    } else {
                        error.kind() == ErrorKind::Validation
                    }
                },
            },
    {
        if !standing.is_consistent() {
            return Err(
                AppError::Validation(
                    "Account status does not follow from the lost tool count".to_owned(),
                ),
            );
        }
        if self.students.contains_key(student_id) {
            return Err(AppError::Conflict("A student with that id already exists".to_owned()));
        }
        self.put_student(student_id, standing);
        proof {
            let before = old(self)@;
            let after = self@;
            assert forall|s: Seq<char>| after.students.contains_key(s) implies (
            #[trigger] after.students[s]).wf() by {
                if s != student_id@ {
                    assert(before.students[s].wf());
                }
            }
        }
        Ok(())
    }

    /// Takes in a delegation that was opened elsewhere, under the id it
    /// carries. Later issues get ids above it.
    ///
    /// A record with a quantity below one, or with a resolution on a
    /// delegation that is not lost, is refused as malformed; an id that is
    /// taken is refused as a conflict. A refusal leaves the ledger as it was.
    pub fn add_delegation(&mut self, record: DelegationRecord) -> (outcome: Result<(), AppError>)
        requires
            old(self).wf(),
        ensures
            final(self).wf(),
            match outcome {
                Ok(_) => {
                    &&& record@.wf()
                    &&& !old(self)@.holds(record.id)
                    &&& final(self)@ == (LedgerState {
                        delegations: old(self)@.delegations.push(record@),
                        next_id: if old(self)@.next_id > record.id {
                            old(self)@.next_id
                        } else {
                            record.id + 1
                        },
                        ..old(self)@
                    })
                },
                Err(error) => {
                    &&& final(self)@ == old(self)@
                    &&& if record@.wf() {
                        old(self)@.holds(record.id) && error.kind() == ErrorKind::Conflict
                    } else {
                        error.kind() == ErrorKind::Validation
                    }
                },
            },
    {
        if !record.is_sound() {
            let message = "A delegation needs a quantity of at least one, and a resolution only when lost";
            return Err(AppError::Validation(message.to_owned()));
        }
        if self.position_of(record.id).is_some() {
            return Err(AppError::Conflict("A delegation with that id already exists".to_owned()));
        }
        let ghost entry = record@;
        if self.next_id <= record.id as i64 {
            self.next_id = record.id as i64 + 1;
        }
        self.delegations.push(record);
        proof {
            let before = old(self)@;
            let after = self@;
            assert(after.delegations =~= before.delegations.push(entry));
            assert(after.tools == before.tools);
            assert(after.students == before.students);
            assert forall|i: int| 0 <= i < after.delegations.len() implies (
            #[trigger] after.delegations[i]).wf() && after.delegations[i].id < after.next_id by {
                if i < before.delegations.len() {
                    assert(before.delegations[i].wf());
                }
            }
            assert forall|a: int, b: int| 0 <= a < b < after.delegations.len() implies (
            #[trigger] after.delegations[a]).id != (#[trigger] after.delegations[b]).id by {
                if b < before.delegations.len() {
                    assert(before.delegations[a].id != before.delegations[b].id);
                } else {
                    assert(before.delegations[a].id != entry.id);
                }
            }
        }
        Ok(())
    }

    /// The counters of a tool.
    pub fn tool(&self, id: i32) -> (found: Option<ToolStock>)
        ensures
            found is Some == self@.tools.contains_key(id),
            found matches Some(stock) ==> stock@ == self@.tools[id],
            found matches Some(stock) ==> (self.wf() ==> stock.wf()),
    {
        match self.tools.get(&id) {
            Some(stock) => Some(*stock),
            None => None,
        }
    }

    /// The standing of a student.
    pub fn student(&self, student_id: &str) -> (found: Option<Standing>)
        ensures
            found is Some == self@.students.contains_key(student_id@),
            found matches Some(standing) ==> standing@ == self@.students[student_id@],
            found matches Some(standing) ==> (self.wf() ==> standing@.wf()),
    {
        match self.students.get(student_id) {
            Some(standing) => Some(*standing),
            None => None,
        }
    }

    /// How many delegations the ledger holds.
    pub fn delegation_count(&self) -> (count: usize)
        ensures
            count == self@.delegations.len(),
    {
        self.delegations.len()
    }

    /// The delegation at a position.
    pub fn delegation_at(&self, position: usize) -> (record: DelegationRecord)
        requires
            position < self@.delegations.len(),
        ensures
            record@ == self@.delegations[position as int],
    {
        self.delegations[position].duplicate()
    }

    /// The position of the delegation with this id.
    pub fn position_of(&self, id: i32) -> (found: Option<usize>)
        ensures
            found is Some == self@.holds(id),
            found matches Some(position) ==> position < self@.delegations.len()
                && self@.delegations[position as int].id == id,
            found matches Some(position) ==> (self@.distinct_ids() ==> self@.slot(id) == position),
    {
        let mut position: usize = 0;
        while position < self.delegations.len()
            invariant
                position <= self.delegations.len(),
                forall|i: int| 0 <= i < position ==> (#[trigger] self@.delegations[i]).id != id,
            decreases self.delegations.len() - position,
        {
            if self.delegations[position].id == id {
                proof {
                    assert(self@.delegations[position as int].id == id);
                    if self@.distinct_ids() {
                        slot_is_position(self@, position as int);
                    }
                }
                return Some(position);
            }
            position = position + 1;
        }
        None
    }

    /// The delegation with this id.
    pub fn delegation(&self, id: i32) -> (found: Option<DelegationRecord>)
        ensures
            found is Some == self@.holds(id),
            found matches Some(record) ==> record@.id == id,
            found matches Some(record) ==> (self@.distinct_ids() ==> record@ == self@.delegation(
                id,
            )),
    {
        match self.position_of(id) {
            Some(position) => Some(self.delegation_at(position)),
            None => None,
        }
    }

    /// The id that the next issue gives out, or `None` once the ids have run
    /// out.
    pub(crate) fn fresh_id(&self) -> (id: Option<i32>)
        requires
            self.stored_soundly(),
        ensures
            id is Some == (self@.next_id <= i32::MAX),
            id matches Some(fresh) ==> fresh == self@.next_id,
    {
        if self.next_id > i32::MAX as i64 {
            None
        } else {
            Some(self.next_id as i32)
        }
    }

    /// Stores a tool's counters under its id.
    pub(crate) fn put_tool(&mut self, id: i32, stock: ToolStock)
        requires
            old(self).stored_soundly(),
            stock.status == stock@.status(),
        ensures
            final(self).stored_soundly(),
            final(self)@ == old(self)@.with_tool(id, stock@),
    {
        self.tools.insert(id, stock);
        assert(self@.tools =~= old(self)@.tools.insert(id, stock@));
    }

    /// Stores a student's standing under the student's id.
    pub(crate) fn put_student(&mut self, student_id: &str, standing: Standing)
        requires
            old(self).stored_soundly(),
        ensures
            final(self).stored_soundly(),
            final(self)@ == old(self)@.with_student(student_id@, standing@),
    {
        self.students.insert(student_id.to_owned(), standing);
        assert(self@.students =~= old(self)@.students.insert(student_id@, standing@));
    }

    /// Marks the delegation at a position overdue if it is out past its
    /// return date, and says whether it did.
    pub(crate) fn flag_overdue_at(&mut self, position: usize, today: &Date) -> (changed: bool)
        requires
            old(self).stored_soundly(),
            position < old(self)@.delegations.len(),
        ensures
            final(self).stored_soundly(),
            changed == old(self)@.delegations[position as int].is_due(*today),
            final(self)@ == (LedgerState {
                delegations: old(self)@.delegations.update(
                    position as int,
                    if changed {
                        old(self)@.delegations[position as int].overdue()
                    } else {
                        old(self)@.delegations[position as int]
                    },
                ),
                ..old(self)@
            }),
    {
        let changed = self.delegations[position].flag_overdue(today);
        assert(self@.delegations =~= old(self)@.delegations.update(
            position as int,
            self@.delegations[position as int],
        ));
        changed
    }

    /// Closes the open delegation at a position as returned.
    pub(crate) fn returned_at(
        &mut self,
        position: usize,
        condition_after: ConditionGrade,
        now: Moment,
    )
        requires
            old(self).stored_soundly(),
            position < old(self)@.delegations.len(),
            old(self)@.delegations[position as int].is_open(),
        ensures
            final(self).stored_soundly(),
            final(self)@ == (LedgerState {
                delegations: old(self)@.delegations.update(
                    position as int,
                    old(self)@.delegations[position as int].returned(condition_after, now),
                ),
                ..old(self)@
            }),
    {
        let _ = self.delegations[position].give_back(condition_after, now);
        assert(self@.delegations =~= old(self)@.delegations.update(
            position as int,
            self@.delegations[position as int],
        ));
    }

    /// Closes the open delegation at a position as lost.
    pub(crate) fn lost_at(&mut self, position: usize, condition_after: ConditionGrade)
        requires
            old(self).stored_soundly(),
            position < old(self)@.delegations.len(),
            old(self)@.delegations[position as int].is_open(),
        ensures
            final(self).stored_soundly(),
            final(self)@ == (LedgerState {
                delegations: old(self)@.delegations.update(
                    position as int,
                    old(self)@.delegations[position as int].lost(condition_after),
                ),
                ..old(self)@
            }),
    {
        let _ = self.delegations[position].report_lost(condition_after);
        assert(self@.delegations =~= old(self)@.delegations.update(
            position as int,
            self@.delegations[position as int],
        ));
    }

    /// Settles the unsettled loss at a position.
    pub(crate) fn settled_at(&mut self, position: usize, student_id: &str, resolution: Resolution)
        requires
            old(self).stored_soundly(),
            position < old(self)@.delegations.len(),
            old(self)@.delegations[position as int].awaits_settlement(student_id@),
        ensures
            final(self).stored_soundly(),
            final(self)@ == (LedgerState {
                delegations: old(self)@.delegations.update(
                    position as int,
                    old(self)@.delegations[position as int].settled(resolution),
                ),
                ..old(self)@
            }),
    {
        let _ = self.delegations[position].settle(student_id, resolution);
        assert(self@.delegations =~= old(self)@.delegations.update(
            position as int,
            self@.delegations[position as int],
        ));
    }

    /// The delegation at a position, borrowed.
    pub(crate) fn record_at(&self, position: usize) -> (record: &DelegationRecord)
        requires
            position < self@.delegations.len(),
        ensures
            record@ == self@.delegations[position as int],
    {
        &self.delegations[position]
    }

    /// Appends a delegation that carries the next id.
    pub(crate) fn push_delegation(&mut self, record: DelegationRecord)
        requires
            old(self).stored_soundly(),
            old(self)@.next_id <= i32::MAX,
            record@.id == old(self)@.next_id,
        ensures
            final(self).stored_soundly(),
            final(self)@ == (LedgerState {
                delegations: old(self)@.delegations.push(record@),
                next_id: old(self)@.next_id + 1,
                ..old(self)@
            }),
    {
        self.delegations.push(record);
        self.next_id = self.next_id + 1;
        assert(self@.delegations =~= old(self)@.delegations.push(record@));
    }
}

} // verus!
