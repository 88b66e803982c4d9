//! Zenith: an event data plane with a plugin verdict chain, and a gang
//! scheduler for multi-GPU jobs, with the rules of both stated as contracts.

pub mod dataplane;
pub mod host_api;
pub mod plugins;
pub mod runtime;
pub mod runtime_cpu;
pub mod runtime_gpu;
pub mod scheduler;
pub mod sdk;
pub mod storage;
pub mod text;
pub mod units;
