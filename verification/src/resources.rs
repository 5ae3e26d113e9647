use vstd::prelude::*;

verus! {

/// A static manifest of the bootstrap window: the name of its file, without
/// the extension, and its template.
pub struct Manifest {
    pub name: String,
    pub text: String,
}

/// The text assets that a run renders. They are data: nothing here reads
/// what they hold.
pub struct Resources {
    /// The configuration of the etcd service.
    pub etcd_config: String,
    /// The static manifests of the bootstrap window, in the order in which
    /// they are written.
    pub bootstrap_manifests: Vec<Manifest>,
    /// The kubeconfig, for either API server.
    pub kubeconfig: String,
    /// The kubelet's first configuration, which points it at the static
    /// manifests. It is written as it is, without rendering.
    pub bootstrap_kubelet_config: String,
    /// The kubelet's configuration once it talks to an API server.
    pub kubelet_config: String,
    /// The manifests that the deployment applies, in the order in which
    /// they are applied: those of the self-hosted control plane, then
    /// those of the join service.
    pub control_plane_manifests: Vec<String>,
}

} // verus!
