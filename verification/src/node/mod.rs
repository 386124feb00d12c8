//! Nodes: recipes for parts of a simulated network, and the settings of the machines they run.

pub mod ether;
pub mod ip;
pub mod ipv4;
pub mod ipv6;
