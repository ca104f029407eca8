//! Command encoding for the FTDI multi-protocol synchronous serial engine.
//!
//! The crate turns typed operations (set pins, clock bytes or bits in and
//! out, wait, adjust the clock) into the byte stream that the device reads,
//! and keeps count of the response bytes that each command will produce.
//! It performs no I/O.
//!
//! [`MpsseCmdBuilder`] appends commands to a growable buffer, one call for
//! each. The functions of [`fixed`] take a list of [`Command`]s, measure it
//! and write it into a buffer of exactly the size needed. Both give the same
//! bytes.

pub mod builder;
pub mod command;
pub mod encoding;
pub mod executor;
pub mod fixed;
pub mod ledger;
pub mod mode;
pub mod opcode;
pub mod settings;

pub use crate::builder::MpsseCmdBuilder;
pub use crate::command::Command;
pub use crate::executor::{MpsseCmdExecutor, XferStep};
pub use crate::fixed::Layout;
pub use crate::ledger::ReadLedger;
pub use crate::mode::{
    ClockBits, ClockBitsIn, ClockBitsOut, ClockData, ClockDataIn, ClockDataOut, ClockTMS,
    ClockTMSOut,
};
pub use crate::opcode::MpsseCmd;
pub use crate::settings::MpsseSettings;
