//! Description of a platform as a tree of nodes with attributes.

pub mod node;
