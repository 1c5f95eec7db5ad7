//! A PIN-gated secret vault driven by line commands over a serial link.
//!
//! - `pin`: derives a two-digit PIN from random bytes.
//! - `vault`: the vault, with its phase carried by its type.
//! - `command`: splits a byte stream into three-byte command records.
//! - `indicator`: the blink pattern that shows the PIN.
//! - `session`: the controller, a state machine from commands to actions.
use vstd::prelude::*;

pub mod command;
pub mod indicator;
pub mod pin;
pub mod session;
pub mod vault;

verus! {

} // verus!
