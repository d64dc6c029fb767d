//! Verified decision and bookkeeping logic of the ZLUDA runtime fork used to run
//! EXStar Hub: the device-allocation table, context-local storage, debug and
//! trace settings, and the compatibility rules of the redirect layer.
use vstd::prelude::*;

pub mod allocations;
pub mod cls;
pub mod cuda;
pub mod driver;
pub mod einscan;
pub mod exstar;
pub mod hooks;
pub mod launch;
pub mod modules;
pub mod nvrtc;
pub mod payload;
pub mod qt;
pub mod runtime;
pub mod settings;
pub mod text;
pub mod watchdog;
pub mod window;

verus! {

} // verus!
