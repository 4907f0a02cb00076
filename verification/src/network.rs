//! The microfluidic network records: nodes, modules, and the network itself.
//! These are plain data consumed by layout and rendering layers; the path
//! geometry lives in `channel`.

use crate::primitives::{Dimensions, Point};
use vstd::prelude::*;

verus! {

/// Identifier of a node.
#[derive(Debug, Copy, Clone, PartialEq, Eq, Structural)]
pub struct NodeId(pub usize);

/// Microfluidic network node.
#[derive(Debug, Copy, Clone, PartialEq, Eq, Structural)]
pub struct Node {
    /// Unique id of the node.
    pub id: NodeId,
}

/// Microfluidic network module.
#[derive(Debug, Clone, PartialEq)]
pub struct Module {
    /// Unique id of the module.
    pub id: usize,
    /// Position of the module.
    pub position: Point,
    /// Size of the module.
    pub size: Dimensions,
    /// Node ids that are part of the interface of this module.
    pub nodes: Vec<NodeId>,
}

/// A microfluidic channel network.
#[derive(Debug, Clone, PartialEq)]
pub struct Network {
    /// The set of nodes in the network.
    pub nodes: Vec<Node>,
    /// The set of channels in the network.
    pub channels: Vec<crate::channel::Channel>,
    /// The set of modules in the network.
    pub modules: Vec<Module>,
}

} // verus!
