//! The service wrappers built on top of the validity layer.
//!
//! Each wrapper owns the cell of one resource derived from a device, and
//! obtains the resource's snapshot only through a `check` that validates
//! the whole ancestor chain.  The native calls each service issues are
//! performed by the program around this library; the wrappers here carry
//! exactly the state those calls need and the validity protocol around
//! them.

pub mod afc;
pub mod companion_proxy;
pub mod debug_server;
pub mod file_relay;
pub mod heartbeat;
pub mod instproxy;
pub mod lockdownd;
pub mod mobile_image_mounter;
pub mod springboard_services;
