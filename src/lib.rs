// Process construction for an OCI container runtime: owned descriptors and
// their duplication, the parameters of a container process, the two-phase
// start handshake, the lifecycle transition table, and the feature report.

pub mod args;
pub mod channel;
pub mod fd;
pub mod features;
pub mod lifecycle;
pub mod process;
