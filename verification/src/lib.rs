//! A health-check poller for a list of HTTP endpoints, written as a verified
//! decision core: the library decides what to do next, a thin driver performs
//! the file-system access, the HTTP requests and the waiting.
//!
//! The driver calls [`RobotConsumer::start`], does what the returned
//! [`consumer::Action`] says, reports the result as a [`consumer::Event`] to
//! [`RobotConsumer::step`], and goes on like this with each action that
//! comes back.

pub mod config;
pub mod consumer;
pub mod decimal;
pub mod error;
pub mod laws;
pub mod listing;
pub mod log;
pub mod outcome;

pub use crate::consumer::RobotConsumer;
