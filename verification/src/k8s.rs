use crate::config::Config;
use crate::error::ErrorKind;
use crate::flow::{Flow, FlowState, Service, Step};
use crate::kubectl::KubectlError;
use crate::paths::{join, join_spec};
use crate::pki::{AuthorityView, CaCertificate, Certificate, CertificateView, Key, KeyView, PKIError};
use crate::profile::{lemma_names_once, loopback, Issuer, NameKind};
use crate::resources::Resources;
use crate::system::SystemError;
use crate::systemd::SystemdError;
use vstd::prelude::*;

verus! {

/// The phases of bringing up the cluster's control plane.
#[derive(Clone, Copy, Debug, PartialEq, Eq, Structural)]
pub enum Phase {
    Bootstrap,
    DeployControlPlane,
    DeployKubelet,
}

/// The two API servers: the static one of the bootstrap window, and the
/// self-hosted one of the cluster.
#[derive(Clone, Copy, Debug, PartialEq, Eq, Structural)]
pub enum ApiserverType {
    Bootstrap,
    Cluster,
}

/// The two kubeconfigs, one for each API server.
#[derive(Clone, Copy, Debug, PartialEq, Eq, Structural)]
pub enum KubeconfigType {
    Bootstrap,
    Cluster,
}

/// The leaf certificates of the control plane.
#[derive(Clone, Copy, Debug, PartialEq, Eq, Structural)]
pub enum WhichCertificate {
    Admin,
    ApiServer,
    EtcdClient,
}

/// The keys that are used apart from their certificates.
#[derive(Clone, Copy, Debug, PartialEq, Eq, Structural)]
pub enum WhichKey {
    Admin,
    ServiceAccount,
}

/// Why a step of the control plane's bring-up failed.
#[derive(Clone, Copy, Debug, PartialEq, Eq, Structural)]
pub enum K8sError {
    /// A key or certificate could not be read, created or encoded.
    Pki(PKIError),
    /// The host's name could not be read.
    System(SystemError),
    /// A file is too large to be encoded.
    TooLarge,
    /// A template did not render.
    Render,
    /// The service manager did not do what it was asked.
    Systemd(SystemdError),
    /// The cluster's command line tool failed.
    Kubectl(KubectlError),
    /// The join payload could not be fetched or is not what it should be.
    Network,
    /// A wait ran out of attempts.
    Timeout,
}

/// The category under which an error is reported.
pub open spec fn kind_of(error: K8sError) -> ErrorKind {
    match error {
        K8sError::Pki(_) => ErrorKind::CryptoOrIO,
        K8sError::System(_) => ErrorKind::CryptoOrIO,
        K8sError::TooLarge => ErrorKind::CryptoOrIO,
        K8sError::Render => ErrorKind::ConfigRender,
        K8sError::Systemd(_) => ErrorKind::ServiceManagement,
        K8sError::Kubectl(_) => ErrorKind::ManifestApply,
        K8sError::Network => ErrorKind::Network,
        K8sError::Timeout => ErrorKind::Timeout,
    }
}

impl K8sError {
    /// The category that a run reports.
    pub fn kind(&self) -> (kind: ErrorKind)
        ensures
            kind == kind_of(*self),
    {
        match self {
            K8sError::Pki(_) => ErrorKind::CryptoOrIO,
            K8sError::System(_) => ErrorKind::CryptoOrIO,
            K8sError::TooLarge => ErrorKind::CryptoOrIO,
            K8sError::Render => ErrorKind::ConfigRender,
            K8sError::Systemd(_) => ErrorKind::ServiceManagement,
            K8sError::Kubectl(_) => ErrorKind::ManifestApply,
            K8sError::Network => ErrorKind::Network,
            K8sError::Timeout => ErrorKind::Timeout,
        }
    }
}

/// The port of the static API server of the bootstrap window.
pub const BOOTSTRAP_APISERVER_PORT: u16 = 6444;

/// The port of the self-hosted API server.
pub const CLUSTER_APISERVER_PORT: u16 = 6443;

/// The kubeconfig that a phase works with where none is named.
pub open spec fn default_kubeconfig(phase: Phase) -> KubeconfigType {
    match phase {
        Phase::Bootstrap => KubeconfigType::Bootstrap,
        Phase::DeployControlPlane => KubeconfigType::Bootstrap,
        Phase::DeployKubelet => KubeconfigType::Cluster,
    }
}

/// The kubeconfig that is meant: the one named or, without a name, the
/// phase's own.
pub open spec fn chosen_kubeconfig(phase: Phase, named: Option<&KubeconfigType>) -> KubeconfigType {
    match named {
        Some(kubeconfig_type) => *kubeconfig_type,
        None => default_kubeconfig(phase),
    }
}

/// The port of the API server that a kubeconfig points at.
pub open spec fn port_of(kubeconfig_type: KubeconfigType) -> u16 {
    match kubeconfig_type {
        KubeconfigType::Bootstrap => BOOTSTRAP_APISERVER_PORT,
        KubeconfigType::Cluster => CLUSTER_APISERVER_PORT,
    }
}

/// The file name of a kubeconfig in the secrets directory.
pub open spec fn kubeconfig_name(kubeconfig_type: KubeconfigType) -> Seq<char> {
    match kubeconfig_type {
        KubeconfigType::Bootstrap => "kubeconfig-bootstrap"@,
        KubeconfigType::Cluster => "kubeconfig"@,
    }
}

/// The kubeconfig that points at an API server.
pub open spec fn kubeconfig_for(apiserver_type: ApiserverType) -> KubeconfigType {
    match apiserver_type {
        ApiserverType::Bootstrap => KubeconfigType::Bootstrap,
        ApiserverType::Cluster => KubeconfigType::Cluster,
    }
}

/// A key in the secrets directory.
pub open spec fn secret_key(config: &Config, name: Seq<char>) -> KeyView {
    KeyView { name, path: config.secrets.path@ }
}

/// A leaf certificate of the control plane: its file and key in the secrets
/// directory, its subject, and the addresses it names beside loopback and
/// the host.
pub open spec fn certificate_of(config: &Config, which: WhichCertificate) -> CertificateView {
    let authority = AuthorityView { secrets_path: config.secrets.path@ };
    match which {
        WhichCertificate::Admin => CertificateView {
            name: "admin.crt"@,
            path: config.secrets.path@,
            organization: "system:masters"@,
            common_name: "admin"@,
            extra_ips: Seq::empty(),
            key: secret_key(config, "admin.key"@),
            authority,
        },
        WhichCertificate::ApiServer => CertificateView {
            name: "apiserver.crt"@,
            path: config.secrets.path@,
            organization: "kube-master"@,
            common_name: "kube-apiserver"@,
            extra_ips: seq![config.net.apiserver_cluster_ip@],
            key: secret_key(config, "apiserver.key"@),
            authority,
        },
        WhichCertificate::EtcdClient => CertificateView {
            name: "etcd-client.crt"@,
            path: config.secrets.path@,
            organization: "etcd"@,
            common_name: "etcd-client"@,
            extra_ips: Seq::empty(),
            key: secret_key(config, "etcd-client.key"@),
            authority,
        },
    }
}

/// A key that is used apart from its certificate.
pub open spec fn key_of(config: &Config, which: WhichKey) -> KeyView {
    match which {
        WhichKey::Admin => secret_key(config, "admin.key"@),
        WhichKey::ServiceAccount => secret_key(config, "service-account.key"@),
    }
}

/// The steps that set up the static control plane: credentials, then
/// configuration, then a restart of the kubelet, which reads it.
pub open spec fn bootstrap_steps() -> Seq<Step> {
    seq![Step::Certificates, Step::Configuration, Step::RestartService(Service::Kubelet)]
}

/// The steps that deploy the self-hosted control plane: a wait for the
/// static API server, then one step for each manifest, in their order.
pub open spec fn control_plane_steps(manifests: nat) -> Seq<Step> {
    seq![Step::AwaitApiserver(ApiserverType::Bootstrap)] + Seq::new(
        manifests,
        |i: int| Step::DeployManifest(i as usize),
    )
}

/// The steps that hand the founding node's kubelet over to the self-hosted
/// control plane.
pub open spec fn kubelet_steps() -> Seq<Step> {
    seq![
        Step::AwaitApiserver(ApiserverType::Bootstrap),
        Step::KubeletConfiguration(KubeconfigType::Bootstrap),
        Step::RestartService(Service::Kubelet),
        Step::AwaitRegistration,
        Step::LabelMaster,
        Step::TaintMaster,
        Step::AwaitStableApiserver(ApiserverType::Cluster),
        Step::RemoveStaticManifests,
        Step::KubeletConfiguration(KubeconfigType::Cluster),
        Step::RestartService(Service::Kubelet),
    ]
}

/// The steps by which a further node joins the cluster.
pub open spec fn join_steps() -> Seq<Step> {
    seq![
        Step::FetchJoinConfig,
        Step::JoinKubeconfig,
        Step::KubeletConfiguration(KubeconfigType::Cluster),
        Step::RestartService(Service::Kubelet),
    ]
}

/// The steps of a phase.
pub open spec fn phase_steps(phase: Phase, manifests: nat) -> Seq<Step> {
    match phase {
        Phase::Bootstrap => bootstrap_steps(),
        Phase::DeployControlPlane => control_plane_steps(manifests),
        Phase::DeployKubelet => kubelet_steps(),
    }
}

/// The control plane of the cluster in one phase of its bring-up.
pub struct K8s<'a> {
    pub phase: Phase,
    config: &'a Config,
    resources: &'a Resources,
}

impl<'a> K8s<'a> {
    /// The phase.
    pub closed spec fn stage(&self) -> Phase {
        self.phase
    }

    /// The configuration that the phase works with.
    pub closed spec fn configuration(&self) -> &Config {
        self.config
    }

    /// The text assets that the phase renders.
    pub closed spec fn assets(&self) -> &Resources {
        self.resources
    }

    /// The configuration that the phase works with.
    pub fn config(&self) -> (config: &'a Config)
        ensures
            config == self.configuration(),
    {
        self.config
    }

    /// The text assets that the phase renders.
    pub fn resources(&self) -> (resources: &'a Resources)
        ensures
            resources == self.assets(),
    {
        self.resources
    }

    /// The phase.
    pub fn current_phase(&self) -> (phase: Phase)
        ensures
            phase == self.stage(),
    {
        self.phase
    }

    /// Where the kubeconfig stands that is meant by `named`.
    pub open spec fn kubeconfig_path_of(&self, named: Option<&KubeconfigType>) -> Seq<char> {
        join_spec(
            self.configuration().secrets.path@,
            kubeconfig_name(chosen_kubeconfig(self.stage(), named)),
        )
    }

    /// The flow that sets up the static control plane.
    pub fn bootstrap(config: &'a Config, resources: &'a Resources) -> (flow: Flow)
        ensures
            flow@ == FlowState::start(bootstrap_steps()),
    {
        K8s::phase(Phase::Bootstrap, config, resources).run()
    }

    /// The flow by which a further node joins the cluster.
    pub fn join(config: &'a Config, resources: &'a Resources) -> (flow: Flow)
        ensures
            flow@ == FlowState::start(join_steps()),
    {
        let mut steps: Vec<Step> = Vec::new();
        steps.push(Step::FetchJoinConfig);
        steps.push(Step::JoinKubeconfig);
        steps.push(Step::KubeletConfiguration(KubeconfigType::Cluster));
        steps.push(Step::RestartService(Service::Kubelet));
        assert(steps@ =~= join_steps());
        Flow::new(steps)
    }

    /// The flow that deploys the self-hosted control plane.
    pub fn control_plane(config: &'a Config, resources: &'a Resources) -> (flow: Flow)
        ensures
            flow@ == FlowState::start(
                control_plane_steps(resources.control_plane_manifests@.len()),
            ),
    {
        K8s::phase(Phase::DeployControlPlane, config, resources).run()
    }

    /// The flow that hands the founding node's kubelet over to the
    /// self-hosted control plane.
    pub fn kubelet(config: &'a Config, resources: &'a Resources) -> (flow: Flow)
        ensures
            flow@ == FlowState::start(kubelet_steps()),
    {
        K8s::phase(Phase::DeployKubelet, config, resources).run()
    }

    /// The kubeconfig that is meant: the one named or, without a name, the
    /// phase's own.
    pub fn kubeconfig_type(&self, named: Option<&KubeconfigType>) -> (chosen: KubeconfigType)
        ensures
            chosen == chosen_kubeconfig(self.stage(), named),
    {
        match named {
            Some(kubeconfig_type) => *kubeconfig_type,
            None => match self.phase {
                Phase::Bootstrap | Phase::DeployControlPlane => KubeconfigType::Bootstrap,
                Phase::DeployKubelet => KubeconfigType::Cluster,
            },
        }
    }

    /// The port of the API server that the kubeconfig of the given type
    /// points at or, without a type, the phase's own.
    pub fn apiserver_port(&self, kubeconfig_type: Option<&KubeconfigType>) -> (port: u16)
        ensures
            port == port_of(chosen_kubeconfig(self.stage(), kubeconfig_type)),
    {
        match self.kubeconfig_type(kubeconfig_type) {
            KubeconfigType::Bootstrap => BOOTSTRAP_APISERVER_PORT,
            KubeconfigType::Cluster => CLUSTER_APISERVER_PORT,
        }
    }

    /// Where the kubeconfig of the given type stands or, without a type,
    /// the phase's own.
    pub fn kubeconfig_path(&self, kubeconfig_type: Option<&KubeconfigType>) -> (path: String)
        ensures
            path@ == self.kubeconfig_path_of(kubeconfig_type),
    {
        match self.kubeconfig_type(kubeconfig_type) {
            KubeconfigType::Bootstrap => join(
                self.config.secrets.path.as_str(),
                "kubeconfig-bootstrap",
            ),
            KubeconfigType::Cluster => join(self.config.secrets.path.as_str(), "kubeconfig"),
        }
    }

    /// The directory of the static manifests.
    pub fn bootstrap_manifests_path(&self) -> (path: String)
        ensures
            path@ == self.configuration().bootstrap.manifests_path@,
    {
        self.config.bootstrap.manifests_path.clone()
    }

    pub fn phase(phase: Phase, config: &'a Config, resources: &'a Resources) -> (k8s: K8s<'a>)
        ensures
            k8s.stage() == phase,
            k8s.configuration() == config,
            k8s.assets() == resources,
    {
        K8s { phase, config, resources }
    }

    /// The flow of the phase.
    pub fn run(&self) -> (flow: Flow)
        ensures
            flow@ == FlowState::start(
                phase_steps(self.stage(), self.assets().control_plane_manifests@.len()),
            ),
    {
        match self.phase {
            Phase::Bootstrap => {
                let mut steps: Vec<Step> = Vec::new();
                steps.push(Step::Certificates);
                steps.push(Step::Configuration);
                steps.push(Step::RestartService(Service::Kubelet));
                assert(steps@ =~= bootstrap_steps());
                Flow::new(steps)
            },
            Phase::DeployControlPlane => Flow::new(self.deploy_control_plane()),
            Phase::DeployKubelet => Flow::new(self.deploy_kubelet()),
        }
    }

    /// A leaf certificate of the control plane.
    pub fn certificate(&self, certificate: WhichCertificate) -> (leaf: Certificate<'a>)
        ensures
            leaf@ == certificate_of(self.configuration(), certificate),
    {
        let secrets = self.config.secrets.path.as_str();
        match certificate {
            WhichCertificate::Admin => {
                let extra: Vec<String> = Vec::new();
                assert(Seq::new(extra@.len(), |i: int| extra@[i]@) =~= Seq::<Seq<char>>::empty());
                Certificate::new(
                    "admin.crt",
                    secrets,
                    "system:masters",
                    "admin",
                    extra,
                    Key::new("admin.key", secrets),
                    CaCertificate::new(self.config),
                )
            },
            WhichCertificate::ApiServer => {
                let mut extra: Vec<String> = Vec::new();
                extra.push(self.config.net.apiserver_cluster_ip.clone());
                assert(Seq::new(extra@.len(), |i: int| extra@[i]@) =~= seq![
                    self.config.net.apiserver_cluster_ip@,
                ]);
                Certificate::new(
                    "apiserver.crt",
                    secrets,
                    "kube-master",
                    "kube-apiserver",
                    extra,
                    Key::new("apiserver.key", secrets),
                    CaCertificate::new(self.config),
                )
            },
            WhichCertificate::EtcdClient => {
                let extra: Vec<String> = Vec::new();
                assert(Seq::new(extra@.len(), |i: int| extra@[i]@) =~= Seq::<Seq<char>>::empty());
                Certificate::new(
                    "etcd-client.crt",
                    secrets,
                    "etcd",
                    "etcd-client",
                    extra,
                    Key::new("etcd-client.key", secrets),
                    CaCertificate::new(self.config),
                )
            },
        }
    }

    /// A key that is used apart from its certificate.
    pub fn key(&self, key: WhichKey) -> (found: Key<'a>)
        ensures
            found@ == key_of(self.configuration(), key),
    {
        match key {
            WhichKey::Admin => Key::new("admin.key", self.config.secrets.path.as_str()),
            WhichKey::ServiceAccount => Key::new(
                "service-account.key",
                self.config.secrets.path.as_str(),
            ),
        }
    }

    /// The steps that deploy the self-hosted control plane.
    pub fn deploy_control_plane(&self) -> (steps: Vec<Step>)
        ensures
            steps@ == control_plane_steps(self.assets().control_plane_manifests@.len()),
    {
        let count = self.resources.control_plane_manifests.len();
        let mut steps: Vec<Step> = Vec::new();
        steps.push(Step::AwaitApiserver(ApiserverType::Bootstrap));
        let mut i: usize = 0;
        while i < count
            invariant
                i <= count,
                steps@ == control_plane_steps(i as nat),
            decreases count - i,
        {
            steps.push(Step::DeployManifest(i));
            i += 1;
            assert(steps@ =~= control_plane_steps(i as nat));
        }
        steps
    }

    /// The steps that hand the founding node's kubelet over to the
    /// self-hosted control plane.
    pub fn deploy_kubelet(&self) -> (steps: Vec<Step>)
        ensures
            steps@ == kubelet_steps(),
    {
        let mut steps: Vec<Step> = Vec::new();
        steps.push(Step::AwaitApiserver(ApiserverType::Bootstrap));
        steps.push(Step::KubeletConfiguration(KubeconfigType::Bootstrap));
        steps.push(Step::RestartService(Service::Kubelet));
        steps.push(Step::AwaitRegistration);
        steps.push(Step::LabelMaster);
        steps.push(Step::TaintMaster);
        steps.push(Step::AwaitStableApiserver(ApiserverType::Cluster));
        steps.push(Step::RemoveStaticManifests);
        steps.push(Step::KubeletConfiguration(KubeconfigType::Cluster));
        steps.push(Step::RestartService(Service::Kubelet));
        assert(steps@ =~= kubelet_steps());
        steps
    }
}

/// The API server's certificate names loopback, the host and the
/// configured cluster address, in this order and each exactly once, and
/// nothing else, where the cluster address is not loopback itself.
pub proof fn lemma_apiserver_names(config: &Config, hostname: Seq<char>)
    requires
        config.net.apiserver_cluster_ip@ != loopback(),
    ensures
        certificate_of(config, WhichCertificate::ApiServer).profile(hostname).subject_alt_names
            == seq![
            (NameKind::Ip, loopback()),
            (NameKind::Dns, hostname),
            (NameKind::Ip, config.net.apiserver_cluster_ip@),
        ],
        certificate_of(config, WhichCertificate::ApiServer).profile(
            hostname,
        ).subject_alt_names.no_duplicates(),
{
    lemma_names_once(hostname, config.net.apiserver_cluster_ip@);
}

/// Every certificate of the control plane is a leaf: issued by the
/// authority, no authority itself, without the right to sign certificates,
/// and valid for 365 days.
pub proof fn lemma_control_plane_leaves(
    config: &Config,
    which: WhichCertificate,
    hostname: Seq<char>,
)
    ensures
        certificate_of(config, which).profile(hostname).issuer == Issuer::Authority,
        !certificate_of(config, which).profile(hostname).certificate_authority,
        !certificate_of(config, which).profile(hostname).key_cert_sign,
        certificate_of(config, which).profile(hostname).validity_days == 365,
{
}

/// No manifest is applied before the wait for the static API server: in
/// the deployment every manifest's step comes after that wait.
pub proof fn lemma_manifests_after_wait(manifests: nat, wait: int, apply: int)
    requires
        0 <= wait < control_plane_steps(manifests).len(),
        0 <= apply < control_plane_steps(manifests).len(),
        control_plane_steps(manifests)[wait] == Step::AwaitApiserver(ApiserverType::Bootstrap),
        control_plane_steps(manifests)[apply] is DeployManifest,
    ensures
        wait < apply,
        wait == 0,
{
}

/// The manifests are applied in their order, each once.
pub proof fn lemma_manifests_in_order(manifests: nat, position: int)
    requires
        0 <= position < manifests,
        manifests <= usize::MAX,
    ensures
        control_plane_steps(manifests).len() == manifests + 1,
        control_plane_steps(manifests)[position + 1] == Step::DeployManifest(position as usize),
{
}

/// In the kubelet's flow the node is labelled and tainted only after it is
/// registered, and the static manifests are removed only after the
/// self-hosted API server is stable; the kubelet is pointed at the cluster
/// kubeconfig only after that removal.
pub proof fn lemma_kubelet_order(earlier: int, later: int)
    requires
        0 <= earlier < kubelet_steps().len(),
        0 <= later < kubelet_steps().len(),
    ensures
        kubelet_steps()[earlier] == Step::AwaitRegistration && (kubelet_steps()[later]
            == Step::LabelMaster || kubelet_steps()[later] == Step::TaintMaster) ==> earlier
            < later,
        kubelet_steps()[earlier] == Step::AwaitStableApiserver(ApiserverType::Cluster)
            && kubelet_steps()[later] == Step::RemoveStaticManifests ==> earlier < later,
        kubelet_steps()[earlier] == Step::RemoveStaticManifests && kubelet_steps()[later]
            == Step::KubeletConfiguration(KubeconfigType::Cluster) ==> earlier < later,
        kubelet_steps()[earlier] == Step::AwaitApiserver(ApiserverType::Bootstrap) ==> earlier
            == 0,
{
}

} // verus!
