//! Host-independent core of the Cartesi Machine WebAssembly bindings: the
//! break-reason and register codes, their human-readable names, the text of
//! the errors that the bindings report, and the hex form of a root hash.

pub mod break_reason;
pub mod decimal;
pub mod failure;
pub mod register;
pub mod root_hash;

pub use break_reason::{
    break_reason_console_input, break_reason_console_output, break_reason_failed,
    break_reason_halted, break_reason_name, break_reason_reached_target,
    break_reason_yielded_automatically, break_reason_yielded_manually,
    break_reason_yielded_softly,
};
pub use decimal::push_decimal;
pub use register::{
    reg_mcycle, reg_pc, reg_x10, reg_x11, reg_x12, reg_x13, reg_x14, reg_x15,
};
pub use root_hash::root_hash_hex;
pub use failure::{failure_message, report, report_root_hash, Failure};
