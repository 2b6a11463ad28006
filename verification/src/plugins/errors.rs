//! What can go wrong with a plugin.
use vstd::prelude::*;

verus! {

/// A failed operation on a plugin.
#[derive(Debug)]
pub enum VynkorError {
    /// A manual start found the plugin (by identifier) already supervised.
    PluginAlreadyRunning(String),
    /// No process is supervised under the identifier.
    PluginNotFound(String),
    /// The plugin asks for a permission that the configuration does not grant.
    PermissionDenied(String),
    /// An operating-system error, as text.
    Io(String),
    /// Any other failure, as text.
    Internal(String),
}

} // verus!
