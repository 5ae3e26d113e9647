use vstd::prelude::*;

verus! {

/// The coarse category of a failure, which is all that a run reports of it.
#[derive(Clone, Copy, Debug, PartialEq, Eq, Structural)]
pub enum ErrorKind {
    /// Key or certificate generation, or access to a file.
    CryptoOrIO,
    /// Rendering of a template.
    ConfigRender,
    /// Starting, enabling or restarting a service unit.
    ServiceManagement,
    /// Applying a manifest or another call of the cluster's command line.
    ManifestApply,
    /// Transport to the join service or to an API server.
    Network,
    /// A wait whose attempts ran out.
    Timeout,
}

} // verus!
