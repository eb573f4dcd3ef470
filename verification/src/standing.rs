//! The student standing policy: how losses and their settlement move a
//! student's lost-tool count, and when the account is banned or reactivated.

use vstd::prelude::*;
use crate::students::models::AccountStatus;

verus! {

/// The number of unsettled losses at which an account is banned.
pub const BAN_THRESHOLD: i32 = 5;

/// A student's standing, as mathematics sees it.
pub struct StandingState {
    pub lost_tool_count: int,
    pub account_status: AccountStatus,
}

impl StandingState {
    /// The count is never negative, and the account is banned exactly while
    /// the count is at or above the threshold.
    pub open spec fn wf(self) -> bool {
        &&& 0 <= self.lost_tool_count
        &&& (self.account_status == AccountStatus::Banned <==> self.lost_tool_count
            >= BAN_THRESHOLD)
    }

    /// The standing after the count moves by `delta`, floored at zero.
    ///
    /// A rise bans the account once the new count reaches the threshold and
    /// otherwise leaves the status alone; a fall reactivates the account once
    /// the new count is below the threshold and otherwise leaves it alone.
    pub open spec fn adjusted(self, delta: int) -> StandingState {
        let count = if self.lost_tool_count + delta < 0 {
            0
        } else {
            self.lost_tool_count + delta
        };
        let status = if delta > 0 {
            if count >= BAN_THRESHOLD {
                AccountStatus::Banned
            } else {
                self.account_status
            }
        } else {
            if count < BAN_THRESHOLD {
                AccountStatus::Active
            } else {
                self.account_status
            }
        };
        StandingState { lost_tool_count: count, account_status: status }
    }

    /// Moving the count by `delta` would take it below zero, so that the
    /// floor at zero comes into play.
    pub open spec fn adjustment_hits_floor(self, delta: int) -> bool {
        self.lost_tool_count + delta < 0
    }

    /// The standing after one more loss.
    pub open spec fn after_loss(self) -> StandingState {
        self.adjusted(1)
    }

    /// The standing after one loss is settled.
    pub open spec fn after_settlement(self) -> StandingState {
        self.adjusted(-1)
    }
}

/// A student's lost-tool count and account status.
#[derive(Debug, Clone, Copy)]
pub struct Standing {
    pub lost_tool_count: i32,
    pub account_status: AccountStatus,
}

impl View for Standing {
    type V = StandingState;

    open spec fn view(&self) -> StandingState {
        StandingState {
            lost_tool_count: self.lost_tool_count as int,
            account_status: self.account_status,
        }
    }
}

impl Standing {
    /// The standing that a lost-tool count alone implies, or `None` for a
    /// negative count.
    pub fn from_count(lost_tool_count: i32) -> (standing: Option<Standing>)
        ensures
            lost_tool_count < 0 ==> standing is None,
            lost_tool_count >= 0 ==> standing is Some && standing->0@.wf()
                && standing->0.lost_tool_count == lost_tool_count,
    {
        if lost_tool_count < 0 {
            None
        } else if lost_tool_count >= BAN_THRESHOLD {
            Some(Standing { lost_tool_count, account_status: AccountStatus::Banned })
        } else {
            Some(Standing { lost_tool_count, account_status: AccountStatus::Active })
        }
    }

    /// Whether the count and the status agree.
    pub fn is_consistent(&self) -> (ok: bool)
        ensures
            ok == self@.wf(),
    {
        self.lost_tool_count >= 0 && ((self.lost_tool_count >= BAN_THRESHOLD) == (
        self.account_status == AccountStatus::Banned))
    }

    pub fn is_banned(&self) -> (banned: bool)
        ensures
            banned == (self.account_status == AccountStatus::Banned),
    {
        self.account_status == AccountStatus::Banned
    }

    /// Whether moving the count by `delta` brings the floor at zero into
    /// play, which points to an earlier fault in the books.
    pub fn hits_floor(&self, delta: i32) -> (floored: bool)
        ensures
            floored == self@.adjustment_hits_floor(delta as int),
    {
        (self.lost_tool_count as i64 + delta as i64) < 0
    }

    /// Moves the count by `delta` and settles the status.
    pub fn adjust(&self, delta: i32) -> (next: Standing)
        requires
            self.lost_tool_count + delta <= i32::MAX,
        ensures
            next@ == self@.adjusted(delta as int),
    {
        let moved: i64 = self.lost_tool_count as i64 + delta as i64;
        let count: i32 = if moved < 0 {
            0
        } else {
            moved as i32
        };
        let status = if delta > 0 {
            if count >= BAN_THRESHOLD {
                AccountStatus::Banned
            } else {
                self.account_status
            }
        } else {
            if count < BAN_THRESHOLD {
                AccountStatus::Active
            } else {
                self.account_status
            }
        };
        Standing { lost_tool_count: count, account_status: status }
    }
}

/// An adjustment by one, up or down, keeps a consistent standing consistent.
pub proof fn adjusted_keeps_consistency(standing: StandingState, delta: int)
    requires
        standing.wf(),
    ensures
        standing.adjusted(delta).wf(),
{
}

} // verus!
