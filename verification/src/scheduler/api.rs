//! The interfaces of the scheduler towards clients: what they ask and
//! what they are told.

pub mod grpc;
pub mod rest;
