//! Driver core for the HDMI-CEC controller of STM32 microcontrollers.
//!
//! CEC is a single-wire, multi-master control bus. The peripheral does the
//! bit timing; this crate holds everything the driver decides: the register
//! values that arm and disarm the controller, the classification of the
//! interrupt status word into bus events, and the frame state machine that
//! turns those events into received frames and transmit results.
//!
//! Nothing here touches the hardware. Every operation takes the values that
//! were read from the peripheral and returns the register writes to perform,
//! in order, so that the whole protocol is a function from state and input to
//! state and output, and is proved as such.
//!
//! # Use
//!
//! `Cec::new` arms the bus and returns the writes that program the
//! peripheral. In the interrupt handler, read the status register and the
//! receive data register, hand both to `Cec::poll`, and perform the writes
//! it returns. `Cec::transmit` starts a frame and `Cec::transmit_result`
//! tells how it ended; `Cec::receive` takes the frames that came in, and
//! `Cec::last_error` the last fault of the bus.
//!
//! # Modules
//!
//! - `registers`: the registers as typed words.
//! - `config`, `frame`, `error`: the values of the interface.
//! - `machine`: the frame state machine as a mathematical function.
//! - `state`: the state machine in memory.
//! - `classify`: from the status word to bus events.
//! - `driver`: the driver itself, and its model.
//! - `laws`: theorems about every run of the driver.

pub mod error;
pub mod frame;
pub mod config;
pub mod registers;
pub mod machine;
pub mod state;
pub mod classify;
pub mod driver;
pub mod laws;

pub use crate::config::{Config, SignalFreeTime, Tolerance};
pub use crate::driver::{Cec, Serviced};
pub use crate::error::{ArmError, BusErrorKind, TransmitError};
pub use crate::frame::Frame;
pub use crate::machine::{Event, Outcome, TxByte, TxPhase};
pub use crate::registers::{Cfgr, Cr, Ier, Isr, Register, RegisterWrite};
pub use crate::state::State;
