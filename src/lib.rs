//! Safety interlock for a laser cutter's exhaust: a trigger line switches the
//! laser path on, and every use is followed by a mandatory exhaust run before
//! the system may return to idle.
//!
//! The shared context is a plain value: the edge notification, the countdown
//! ticker and the polling loop each act on it by a verified step function,
//! and the surrounding program runs those steps inside critical sections.
pub mod config;
pub mod countdown;
pub mod interlock;
pub mod safety;
pub mod table;
