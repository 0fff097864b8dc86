//! Admission and fleet-membership logic of an operator node.
//!
//! The node answers prompt requests for a dispatcher-run fleet. This crate
//! holds the rules it follows: who the node is, whether a request is signed by
//! whom it claims, which address range the node answers for, what it remembers
//! of recent requests, and how it joins and stays in the fleet.

pub mod admission;
pub mod api;
pub mod config;
pub mod hexcode;
pub mod identity;
pub mod membership;
pub mod node_factory;
pub mod signature;
pub mod state;
