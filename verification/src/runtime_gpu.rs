//! GPU runtime: the rules around devices, launches and engines. The
//! devices themselves are asked by the embedder, who hands in what it
//! found.

pub mod cuda;
pub mod multigpu;
pub mod nvml;
pub mod tensorrt;
