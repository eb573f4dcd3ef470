//! The stock ledger: the two counters of a tool, and the only two ways an
//! operation may move them.

use vstd::prelude::*;
use crate::errors::AppError;
use crate::tools::handlers::{derive_status, status_of};
use crate::tools::models::ToolStatus;

verus! {

/// A tool's counters, as mathematics sees them.
pub struct ToolState {
    /// Units owned. Issuing a consumable shrinks it.
    pub quantity: int,
    /// Units currently out. Only a non-consumable tool has any.
    pub issued_qty: int,
    pub is_consumable: bool,
    pub low_stock_threshold: int,
}

impl ToolState {
    /// Units that can still be issued.
    pub open spec fn available(self) -> int {
        self.quantity - self.issued_qty
    }

    pub open spec fn status(self) -> ToolStatus {
        derive_status(self.quantity, self.issued_qty, self.low_stock_threshold)
    }

    /// Never more units out than owned, and never a negative number out.
    pub open spec fn wf(self) -> bool {
        0 <= self.issued_qty <= self.quantity
    }

    /// Whether `qty` units can be taken.
    pub open spec fn covers(self, qty: int) -> bool {
        self.available() >= qty
    }

    /// The counters after `qty` units are taken: a consumable is used up, any
    /// other tool is out on loan.
    pub open spec fn reserved(self, qty: int) -> ToolState {
        if self.is_consumable {
            ToolState { quantity: self.quantity - qty, ..self }
        } else {
            ToolState { issued_qty: self.issued_qty + qty, ..self }
        }
    }

    /// Putting `qty` units back would take the units out below zero, so that
    /// the floor at zero comes into play: more comes back than was out.
    pub open spec fn release_hits_floor(self, qty: int) -> bool {
        !self.is_consumable && self.issued_qty - qty < 0
    }

    /// The counters after `qty` units come back. A consumable never comes
    /// back; for any other tool the units out drop by `qty`, but not below
    /// zero.
    pub open spec fn released(self, qty: int) -> ToolState {
        if self.is_consumable {
            self
        } else if self.issued_qty - qty < 0 {
            ToolState { issued_qty: 0, ..self }
        } else {
            ToolState { issued_qty: self.issued_qty - qty, ..self }
        }
    }
}

/// A tool's counters with the status last stored for them.
#[derive(Debug, Clone, Copy)]
pub struct ToolStock {
    pub quantity: i32,
    pub issued_qty: i32,
    pub is_consumable: bool,
    pub low_stock_threshold: i32,
    pub status: ToolStatus,
}

impl View for ToolStock {
    type V = ToolState;

    open spec fn view(&self) -> ToolState {
        ToolState {
            quantity: self.quantity as int,
            issued_qty: self.issued_qty as int,
            is_consumable: self.is_consumable,
            low_stock_threshold: self.low_stock_threshold as int,
        }
    }
}

impl ToolStock {
    /// The counters are sound and the stored status is the one they imply.
    pub open spec fn wf(&self) -> bool {
        &&& self@.wf()
        &&& self.status == self@.status()
    }

    /// Counters with the status they imply.
    pub fn new(
        quantity: i32,
        issued_qty: i32,
        is_consumable: bool,
        low_stock_threshold: i32,
    ) -> (stock: ToolStock)
        ensures
            stock@ == (ToolState {
                quantity: quantity as int,
                issued_qty: issued_qty as int,
                is_consumable,
                low_stock_threshold: low_stock_threshold as int,
            }),
            stock.status == stock@.status(),
    {
        ToolStock {
            quantity,
            issued_qty,
            is_consumable,
            low_stock_threshold,
            status: status_of(quantity, issued_qty, low_stock_threshold),
        }
    }

    /// Whether the counters are sound and the stored status is current.
    pub fn is_sound(&self) -> (ok: bool)
        ensures
            ok == self.wf(),
    {
        0 <= self.issued_qty && self.issued_qty <= self.quantity && self.status == status_of(
            self.quantity,
            self.issued_qty,
            self.low_stock_threshold,
        )
    }

    /// Units that can still be issued.
    pub fn available(&self) -> (units: i64)
        ensures
            units == self@.available(),
    {
        self.quantity as i64 - self.issued_qty as i64
    }

    /// Takes `qty` units out of stock and stores the new status.
    ///
    /// A quantity below one is refused as malformed, and a quantity above
    /// what is available as insufficient stock; a refusal changes nothing.
    pub fn reserve(&mut self, qty: i32) -> (outcome: Result<(), AppError>)
        ensures
            qty < 1 ==> (outcome matches Err(AppError::Validation(m)) && m@
                == "Quantity must be >= 1"@),
            qty >= 1 && !old(self)@.covers(qty as int) ==> outcome == Err::<(), AppError>(
                AppError::InsufficientStock,
            ),
            qty >= 1 && old(self)@.covers(qty as int) ==> outcome is Ok,
            outcome is Ok ==> final(self)@ == old(self)@.reserved(qty as int),
            outcome is Ok ==> final(self).status == final(self)@.status(),
            outcome is Err ==> *final(self) == *old(self),
    {
        if qty < 1 {
            return Err(AppError::Validation("Quantity must be >= 1".to_owned()));
        }
        if self.available() < qty as i64 {
            return Err(AppError::InsufficientStock);
        }
        if self.is_consumable {
            self.quantity = self.quantity - qty;
        } else {
            self.issued_qty = self.issued_qty + qty;
        }
        self.status = status_of(self.quantity, self.issued_qty, self.low_stock_threshold);
        Ok(())
    }

    /// Puts `qty` units back and stores the new status. Says whether the
    /// floor at zero came into play, which points to an earlier fault in the
    /// books.
    pub fn release(&mut self, qty: i32) -> (floored: bool)
        requires
            qty >= 0,
        ensures
            final(self)@ == old(self)@.released(qty as int),
            final(self).status == final(self)@.status(),
            floored == old(self)@.release_hits_floor(qty as int),
    {
        let mut floored: bool = false;
        if !self.is_consumable {
            let left: i64 = self.issued_qty as i64 - qty as i64;
            if left < 0 {
                self.issued_qty = 0;
                floored = true;
            } else {
                self.issued_qty = left as i32;
            }
        }
        self.status = status_of(self.quantity, self.issued_qty, self.low_stock_threshold);
        floored
    }
}

/// Taking units that are there keeps the counters sound.
pub proof fn reserved_keeps_soundness(tool: ToolState, qty: int)
    requires
        tool.wf(),
        qty >= 0,
        tool.covers(qty),
    ensures
        tool.reserved(qty).wf(),
{
}

/// Putting units back keeps the counters sound, whatever the number.
pub proof fn released_keeps_soundness(tool: ToolState, qty: int)
    requires
        tool.wf(),
        qty >= 0,
    ensures
        tool.released(qty).wf(),
{
}

/// Taking units of a non-consumable tool and putting the same number back
/// leaves the counters as they were.
pub proof fn reserve_then_release_restores(tool: ToolState, qty: int)
    requires
        tool.wf(),
        !tool.is_consumable,
        qty >= 0,
    ensures
        tool.reserved(qty).released(qty) == tool,
{
}

} // verus!
