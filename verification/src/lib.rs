//! Building blocks of Kubernetes operators: the decisions of leader election,
//! of the health probes, of the controller run and of event recording, each
//! with a contract that Verus proves.
//!
//! Nothing here talks to a cluster, a socket or a clock. A function takes what
//! was read or measured, and says what is to be done next.

pub mod controller;
pub mod events;
pub mod identity;
pub mod text;
pub mod time;
