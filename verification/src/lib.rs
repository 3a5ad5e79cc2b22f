//! Relay of sensor datagrams into a publish/subscribe backend: the decisions
//! of the two workers and of the pipeline that starts and stops them.

pub mod cancel;
pub mod clock;
pub mod common;
pub mod json;
pub mod network;
pub mod record;
pub mod runner;
pub mod text;
