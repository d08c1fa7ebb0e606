//! A control plane for the virtual machines of one hypervisor host.
//!
//! The crate holds the decisions of the control plane: the device taxonomy, the
//! device registry, the protocol by which devices change owner, the life cycle of
//! machines and the edits made to a machine's domain descriptor. Talking to the
//! hypervisor and writing the registry to disk is left to the program around it,
//! which hands plain values in and carries plain values out.

pub mod api;
pub mod client;
pub mod error;
pub mod id;
pub mod router;
pub mod text;
pub mod xml;
