//! The core of a monitor for the tags of an OPC UA server: reading the tag
//! list, naming the nodes to watch, reporting changed values, framing
//! records for a message queue, and deciding the course of a run.
//!
//! Nothing here touches the network or the environment. The program around
//! this library does what each step asks for and reports back what happened.

pub mod dispatch;
pub mod forward;
pub mod monitor;
pub mod node;
pub mod rendering;
pub mod report;
pub mod session;
pub mod tags;
