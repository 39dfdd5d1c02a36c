//! Policy-driven resource action engine for cloud compute fleets.
//!
//! The crate decides, from observed utilization and resource metadata, whether
//! a group's capacity should change and whether a resource should be
//! decommissioned. Every decision is a pure function of the values handed in;
//! fetching inventories and metrics, asking for confirmation and applying the
//! computed actions are left to the caller.

pub mod cleanup;
pub mod cli;
pub mod confirmation;
pub mod cooldown;
pub mod cost;
pub mod dates;
pub mod discovery;
pub mod failure;
pub mod fleet;
pub mod inventory;
pub mod lsof;
pub mod metrics;
pub mod policy;
pub mod ports;
pub mod scaling;
pub mod text;
pub mod time;
pub mod units;
pub mod workflow;
