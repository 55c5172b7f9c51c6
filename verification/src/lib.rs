//! Firmware update orchestration for a family of USB-attached devices:
//! matching release assets to a connected device, planning the catalog and
//! download requests, and driving the two install strategies (USB DFU and
//! mass-storage copy) as explicit state machines.
//!
//! The library performs no I/O. Every operation is a function from plain
//! values to plain values; the caller carries out the requests and actions
//! the library asks for and reports what happened.

pub mod commands;
pub mod device;
pub mod dfu;
pub mod error;
pub mod github;
pub mod http;
pub mod install;
pub mod progress;
pub mod sequence;
pub mod text;
