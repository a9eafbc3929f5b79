//! What holds of every run of the driver.
//!
//! Each law is a theorem about `Machine` or `Controller`, the values that
//! the operations of `State` and `Cec` are specified by, so it holds of
//! every driver in every state it can reach.

pub mod arming;
pub mod handler;
pub mod reception;
pub mod transmission;
