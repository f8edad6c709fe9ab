//! Control plane of a desktop shell: a daemon lifecycle controller, the RPC
//! bridge the embedded page talks to, the loopback asset gateway and the
//! window/tray coordinator.
pub mod controller;
pub mod gateway;
pub mod window;
pub mod rpc;
