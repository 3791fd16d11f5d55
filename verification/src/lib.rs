//! Decision core of a factory agent in a tick-based economic simulation.
//!
//! The factory reads snapshots of its own state and of the economy, keeps a
//! ledger of production runs that are under way, and answers every event with
//! the signals it wants published. Channels, threads and clocks are left to
//! the caller: every function here goes from plain values to plain values.
//!
//! Money is counted in whole units of the smallest coin, percentages in
//! hundredths of a percent.

pub mod economy;
pub mod signals;
pub mod ledger;
pub mod decisions;
pub mod factory;
pub mod dispatch;
pub mod laws;
