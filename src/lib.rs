//! Request routing for the gateway tier of a role-partitioned cluster:
//! path classification, node selection over a membership snapshot, and the
//! decisions of the proxy that forwards a request to the chosen node.

pub mod body;
pub mod cluster;
pub mod error;
pub mod headers;
pub mod proxy;
pub mod route;
