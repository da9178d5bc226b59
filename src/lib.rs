//! Auto-hide visibility controller for an on-screen panel.
//!
//! The library holds the decisions: a hysteresis policy that turns pointer
//! samples into a show/hide flag, a sensor that applies it tick by tick, and a
//! synchronizer that turns changes of the flag into window directives. The
//! loops, the pointer query and the window itself live with the caller.

use vstd::prelude::*;

pub mod config;
pub mod hysteresis;
pub mod sensor;
pub mod synchronizer;

verus! {

} // verus!
