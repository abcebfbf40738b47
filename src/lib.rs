//! A two-dimensional mesh network-on-chip: the value types that travel over
//! it, the negative-first path planner, and the per-node routing decisions
//! that the ingress and egress tasks of each tile make.
pub mod direction;
pub mod fabric;
pub mod grid;
pub mod journey;
pub mod node;
pub mod packet;
pub mod route;
