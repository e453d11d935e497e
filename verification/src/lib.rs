//! Guest-facing device model for a virtio network device whose data path is
//! served by an external vhost-user backend.
//!
//! The library holds the device's decision core: the feature-negotiation
//! handshake state machine, the virtio config space, and the lifecycle state
//! machine that governs activation, reset, pause and resume. Everything that
//! talks to the outside world — the backend socket, eventfds, worker
//! threads — stays with the caller, which drives these functions and carries
//! out the actions they decide on.

pub mod features;
pub mod handshake;
pub mod device;
