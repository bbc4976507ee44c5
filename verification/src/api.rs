//! The endpoints of the interface, one module each.

pub mod cluster;
