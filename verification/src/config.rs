//! What the startup reads and sets of a node's configuration.

use vstd::prelude::*;
use crate::informant::OutputFormat;
use crate::role::ConfiguredRole;

verus! {

/// The settings of one node that the startup decides on. Everything else in
/// a node's configuration passes through to the services untouched.
#[derive(Clone, Debug)]
pub struct NodeConfiguration {
    /// The role the node is configured with.
    pub role: ConfiguredRole,
    /// How the node's informant lines are written. The startup sets this
    /// before anything is built.
    pub informant_output_format: OutputFormat,
}

} // verus!
