//! Host-side driver logic for USB DFU devices with the DfuSe extension.
pub mod args;
pub mod descriptor;
pub mod dfuse_command;
pub mod engine;
pub mod error;
pub mod memory_layout;
pub mod plan;
pub mod status;
pub mod text;
pub mod transaction;

pub use crate::descriptor::DfuDescriptor;
pub use crate::dfuse_command::DfuseCommand;
pub use crate::engine::{Dfu, Event, Request, Step};
pub use crate::error::{Error, UsbError};
pub use crate::memory_layout::{MemoryLayout, Page};
pub use crate::status::{State, Status};
pub use crate::transaction::Transaction;
