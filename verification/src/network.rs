//! The two workers and their owners' handles.

pub mod redis;
pub mod udp;
