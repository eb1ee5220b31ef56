//! A small synchronous dual-rail logic fabric.
//!
//! Signals travel on two tri-state rails; a rail is either driven to a
//! logic level or left floating. Gates are pure functions from a pair of
//! rails to a pair of rails, each with a precondition on which rails may be
//! floating. Node state is tagged with the clock phase that wrote it, so
//! that the two alternating phases never race, and an addressing layer maps
//! directives to the grid location or external port a gate reads from.

pub mod addr;
pub mod gate;
pub mod instr;
pub mod signal;
