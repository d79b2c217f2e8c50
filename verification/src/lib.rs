//! Core of a client/server runtime for a message-ID-correlated haptic-device
//! control protocol.
//!
//! A server process discovers devices through several communication managers
//! (Bluetooth LE, HID, XInput, HTTP fan-out), wraps each one in a per-device
//! protocol translator, and multiplexes client commands through a
//! request/response loop keyed by message ID. This crate holds the session
//! pipeline itself: message shapes and their validation, the per-device
//! command filter, the device registry, the server dispatch step, the client
//! device facade, and the exact byte formats the sample transports emit.
//! Speeds and positions travel as integers scaled by 1000 (a value of 1000
//! stands for full amplitude), which is the same encoding the keep-alive
//! amplitude cell uses on the wire. The surrounding transport I/O, task
//! spawning and timers live outside this crate and hand plain values in.

pub mod async_manager;
pub mod client_device;
pub mod comm_managers;
pub mod command_manager;
pub mod device;
pub mod device_manager;
pub mod errors;
pub mod messages;
pub mod protocol;
pub mod server_loop;
pub mod util;
