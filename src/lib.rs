//! Policy state for windows that follow workspace switches ("sticky") and
//! windows parked on the staging workspace ("staged"), the selection of
//! windows out of the compositor's reports, and the daemon's request grammar.
use vstd::prelude::*;

pub mod business;
pub mod protocol;
pub mod windows;
pub mod words;

verus! {

} // verus!
