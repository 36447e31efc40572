//! Core state model and navigation engine for an interactive viewer of
//! process-execution traces.
//!
//! The crate keeps two tightly coupled pieces of logic:
//!
//! * a process directory ([`state`]) that attributes tracing data to the
//!   right process generation even when the operating system reuses process
//!   identifiers, and
//! * a bounded-viewport windowing engine ([`event_list`]) that lets a user
//!   browse an unbounded, append-only event log inside a fixed-size display.
//!
//! Terminal drawing, system-call interception and argument parsing are
//! external collaborators: they hand this core plain structured values and
//! receive plain values back.

pub mod action;
pub mod event_list;
pub mod laws;
pub mod state;
