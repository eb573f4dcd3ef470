//! Inventory ledger for tools lent from labs to students.
//!
//! The crate keeps three things consistent with one another: the stock
//! counters of every tool, the lifecycle of every delegation (one loan of a
//! tool to a student), and the disciplinary standing of every student.
//!
//! - [`tools::handlers`] derives a tool's status from its counters.
//! - [`stock`] holds the counters and the two ways to move them.
//! - [`standing`] holds the rule that bans and reactivates a student.
//! - [`delegations::models`] holds the delegation and its transitions.
//! - [`ledger`] holds all three together and states every operation as a
//!   function from one state of the whole to the next; [`laws`] proves what
//!   holds of those functions whatever is asked.
//! - [`delegations::handlers`], [`students::handlers`] and [`jobs`] carry the
//!   operations out on a [`ledger::Ledger`]: issue, return, loss, recovery,
//!   payment and the overdue sweep. Each either completes or leaves the
//!   ledger as it was.
//!
//! Around that core stand the decisions of the server that touch no
//! storage: what a caller is told of an error ([`errors`]), how requests are
//! checked and listings narrowed (the `handlers` of each kind of row), who
//! may sign in ([`auth`]), how the server is configured ([`config`]) and
//! whether a published release should replace the program ([`updater`]).

pub mod auth;
pub mod clock;
pub mod config;
pub mod delegations;
pub mod errors;
pub mod github;
pub mod jobs;
pub mod labs;
pub mod laws;
pub mod lecturers;
pub mod ledger;
pub mod select;
pub mod standing;
pub mod stock;
pub mod students;
pub mod text;
pub mod tools;
pub mod updater;
