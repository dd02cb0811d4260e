//! A catalogue of small, self-contained routines, each illustrating one
//! language mechanism: plain functions, ownership transfer, aggregate types,
//! tagged unions, control flow, generics, borrowed references, capability
//! traits, closures, serialized shared counting, channel message merging,
//! and sequence building.  Every routine carries a contract that pins its
//! result down exactly.

pub mod channel;
pub mod closures;
pub mod control_flow;
pub mod counter;
pub mod enums;
pub mod functions;
pub mod generics;
pub mod lifetimes;
pub mod ownership;
pub mod sequence;
pub mod structs;
pub mod traits;
