//! The versioned, content-addressed core of a workspace graph: content hashes,
//! change sets and their vector clocks, node weights and merkle aggregation,
//! and the prop tree of a package.

pub mod change_set;
pub mod content_hash;
pub mod content_node_weight;
pub mod merkle;
pub mod node_weight;
pub mod ordering_node_weight;
pub mod parts;
pub mod pkg_node;
pub mod pkg_prop_tree;
pub mod vector_clock;
