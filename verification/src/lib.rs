//! Verified core of a small firewall-administration service: the fixed table
//! set, case-insensitive chain resolution, position-addressed rule lookup,
//! chain-name normalization on creation, host-interface snapshots, and a
//! facade over the host's packet-filter subsystem in which every subsystem
//! failure surfaces as a structured error.

pub mod casefold;
pub mod command;
pub mod dto;
pub mod errors;
pub mod facade;
pub mod interfaces;
pub mod resolve;
pub mod rules;
pub mod subsystem;
