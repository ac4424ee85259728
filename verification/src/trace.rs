//! The wording of the trace lines, one per kind of observed event.

use crate::render::{address_text, bool_text, decimal_text, limbs_value};
use vstd::prelude::*;

verus! {

/// The line that announces a newly made inspector.
pub open spec fn initialized_line() -> Seq<char> {
    "Hello, world! Inspector initialized."@
}

/// The line for the start of a code-execution frame.
pub open spec fn interpreter_line() -> Seq<char> {
    "Hello, world! Interpreter initializing..."@
}

/// Whether the step that brought the step counter to `count` is reported:
/// every hundredth step is, and no other.
pub open spec fn is_reported_step(count: nat) -> bool {
    count > 0 && count % 100 == 0
}

/// The line for a reported step: the running count, then the opcode about
/// to execute, both in decimal.
pub open spec fn step_line(count: nat, opcode: u8) -> Seq<char> {
    "Hello, world! Step #"@ + decimal_text(count) + " - Opcode: "@ + decimal_text(opcode as nat)
}

/// The line for an emitted log record: how many topics it indexes and how
/// many bytes its payload holds.
pub open spec fn log_line(topics: nat, data_len: nat) -> Seq<char> {
    "Hello, world! Log emitted with "@ + decimal_text(topics) + " topics and "@ + decimal_text(
        data_len,
    ) + " bytes of data"@
}

/// The line for a message call about to begin: the running count and the
/// address that is called.
pub open spec fn call_line(count: nat, target: Seq<u8>) -> Seq<char> {
    "Hello, world! Call #"@ + decimal_text(count) + " to address: "@ + address_text(target)
}

/// The line for a message call that has returned.
pub open spec fn call_end_line(succeeded: bool) -> Seq<char> {
    "Hello, world! Call ended with success: "@ + bool_text(succeeded)
}

/// The line for a contract creation about to begin: the length of its
/// initialization code in bytes.
pub open spec fn create_line(init_code_len: nat) -> Seq<char> {
    "Hello, world! Contract creation with "@ + decimal_text(init_code_len) + " bytes of code"@
}

/// The line for a contract creation that has returned.
pub open spec fn create_end_line(succeeded: bool) -> Seq<char> {
    "Hello, world! Contract creation ended with success: "@ + bool_text(succeeded)
}

/// The line for a self-destruct: the contract, the amount it hands over in
/// wei (as limbs, least significant first), and the beneficiary.
pub open spec fn selfdestruct_line(contract: Seq<u8>, target: Seq<u8>, value: Seq<u64>) -> Seq<
    char,
> {
    "Hello, world! Contract "@ + address_text(contract) + " self-destructed, sending "@
        + decimal_text(limbs_value(value)) + " wei to "@ + address_text(target)
}

} // verus!
