//! A line-driven selection and validated-input engine for terminal prompts.
//!
//! Every prompt follows one shape: a line is read, checked, and either turned
//! into a value or rejected with a message, after which the caller asks again.
//! This library holds the checking step of each prompt; reading and printing
//! are left to the caller.
use vstd::prelude::*;

pub mod mode;
pub mod path;
pub mod scalar;
pub mod select;
pub mod text;

verus! {

/// The entry point of the interactive prompts. It groups the prompt
/// functions; its one value carries no state.
pub enum InteractiveTui {
    Terminal,
}

} // verus!
