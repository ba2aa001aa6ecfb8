//! Path MTU discovery over IPv4: probe packets, reply classification and the
//! binary search that narrows the deliverable payload size.

pub mod checksum;
pub mod packet;
pub mod classify;
pub mod search;
