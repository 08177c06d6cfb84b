//! A 16-bit virtual CPU ("RCPU") and the kernel pieces around it: the
//! instruction decoder, the interpreter with its memory, stack and system
//! calls, the keyboard queue, the text console and the boot-time choices.
//! Each executable function is verified against a contract over the
//! mathematical model of its state.
use vstd::prelude::*;

pub mod boot;
pub mod keyboard;
pub mod lemmas;
pub mod memory;
pub mod operations;
pub mod rcpu;
pub mod terminal;

verus! {

} // verus!
