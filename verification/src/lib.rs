//! Leader election for a fixed cluster of nodes, following the Bully
//! algorithm: every node carries a unique numeric identity, and the node
//! with the highest identity among the reachable nodes becomes leader.
pub mod election;
