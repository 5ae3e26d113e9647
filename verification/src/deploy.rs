use crate::config::Config;
use crate::encoding::encode;
use crate::flow::{unit_of, Service};
use crate::k8s::{
    certificate_of, chosen_kubeconfig, key_of, kubeconfig_for, kubeconfig_name, port_of,
    ApiserverType, K8s, K8sError, KubeconfigType, WhichCertificate, WhichKey,
    CLUSTER_APISERVER_PORT,
};
use crate::kubeconfig::{encoded, root_pem};
use crate::kubectl::{kubectl_command, Command, Invocation, Kubectl};
use crate::paths::join_spec;
use crate::pki::{read_text, text_at, AuthorityView, CaCertificate, PKIError};
use crate::poller::{
    Poll, PollState, StabilityPoll, StabilityState, REACHABLE_ATTEMPTS, REGISTERED_ATTEMPTS,
    STABLE_CONFIRMATIONS,
};
use crate::render::{bindings, pairs, render, rendered, Binding, Scalar, Variable};
use crate::store::FileStore;
use crate::system::{hostname_of, System, SystemError};
use crate::systemd::{MethodCall, Operation, Systemd};
use vstd::prelude::*;
use vstd::string::*;
use vstd::utf8::*;

verus! {

/// A variable's name with its value, or with the reason for which there is
/// no value.
pub type Entry = (Seq<char>, Result<Binding, K8sError>);

/// The variables that a list of entries gives: all of them, in their
/// order, or the first reason for which one has no value.
pub open spec fn collect(entries: Seq<Entry>) -> Result<Seq<(Seq<char>, Binding)>, K8sError>
    decreases entries.len(),
{
    if entries.len() == 0 {
        Ok(Seq::empty())
    } else {
        match collect(entries.drop_last()) {
            Ok(variables) => match entries.last().1 {
                Ok(value) => Ok(variables.push((entries.last().0, value))),
                Err(error) => Err(error),
            },
            Err(error) => Err(error),
        }
    }
}

/// The first entry without a value decides, whatever follows it.
pub proof fn lemma_collect_failed(entries: Seq<Entry>, failed: int, error: K8sError)
    requires
        0 <= failed <= entries.len(),
        collect(entries.take(failed)) == Err::<Seq<(Seq<char>, Binding)>, K8sError>(error),
    ensures
        collect(entries) == Err::<Seq<(Seq<char>, Binding)>, K8sError>(error),
    decreases entries.len() - failed,
{
    if failed < entries.len() {
        assert(entries.take(failed + 1).drop_last() =~= entries.take(failed));
        lemma_collect_failed(entries, failed + 1, error);
    } else {
        assert(entries.take(failed) =~= entries);
    }
}

/// The base64 text of `data` as a variable's value.
pub open spec fn encoded_value(data: Seq<u8>) -> Result<Binding, K8sError> {
    match encoded(data) {
        Some(text) => Ok(Binding::Text(text)),
        None => Err(K8sError::TooLarge),
    }
}

/// The base64 text of the file at `path`, read as text, as a variable's
/// value.
pub open spec fn encoded_file(files: Map<Seq<char>, Seq<u8>>, path: Seq<char>) -> Result<
    Binding,
    K8sError,
> {
    match text_at(files, path) {
        Some(text) => encoded_value(encode_utf8(text)),
        None => Err(K8sError::Pki(PKIError::OpenSSLError)),
    }
}

/// The host's name as a variable's value.
pub open spec fn hostname_value(files: Map<Seq<char>, Seq<u8>>) -> Result<Binding, K8sError> {
    match hostname_of(files) {
        Some(hostname) => Ok(Binding::Text(hostname)),
        None => Err(K8sError::System(SystemError::UnknownError)),
    }
}

/// The variables of the deployment's manifests, in the order in which they
/// are read: the host and the self-hosted API server's port, every
/// credential as base64 text, and the network and join service settings.
/// The authority's certificate and the public half of the service account
/// key are given, each as the cryptographic library wrote it out.
pub open spec fn manifest_entries(
    config: &Config,
    files: Map<Seq<char>, Seq<u8>>,
    authority_pem: Seq<u8>,
    service_account_public: Seq<char>,
) -> Seq<Entry> {
    let authority = AuthorityView { secrets_path: config.secrets.path@ };
    let admin = certificate_of(config, WhichCertificate::Admin);
    let apiserver = certificate_of(config, WhichCertificate::ApiServer);
    let etcd_client = certificate_of(config, WhichCertificate::EtcdClient);
    let account = key_of(config, WhichKey::ServiceAccount);
    seq![
        ("apiserver_host"@, hostname_value(files)),
        (
            "apiserver_port"@,
            Ok::<Binding, K8sError>(Binding::Number(CLUSTER_APISERVER_PORT as int)),
        ),
        ("ca_crt"@, encoded_value(authority_pem)),
        ("ca_key"@, encoded_file(files, authority.key().key_path())),
        ("client_crt"@, encoded_file(files, admin.cert_path())),
        ("client_key"@, encoded_file(files, admin.key.key_path())),
        ("apiserver_crt"@, encoded_file(files, apiserver.cert_path())),
        ("apiserver_key"@, encoded_file(files, apiserver.key.key_path())),
        ("etcd_client_ca_crt"@, encoded_value(authority_pem)),
        ("etcd_client_crt"@, encoded_file(files, etcd_client.cert_path())),
        ("etcd_client_key"@, encoded_file(files, etcd_client.key.key_path())),
        ("service_account_key"@, encoded_file(files, account.key_path())),
        ("service_account_pub"@, encoded_value(encode_utf8(service_account_public))),
        ("cluster_cidr"@, Ok::<Binding, K8sError>(Binding::Text(config.net.cluster_cidr@))),
        (
            "service_cluster_ip_range"@,
            Ok::<Binding, K8sError>(Binding::Text(config.net.service_cluster_ip_range@)),
        ),
        ("dns_cluster_ip"@, Ok::<Binding, K8sError>(Binding::Text(config.net.dns_cluster_ip@))),
        ("kubeception_image"@, Ok::<Binding, K8sError>(Binding::Text(config.kubeception.image@))),
        (
            "kubeception_nodeport"@,
            Ok::<Binding, K8sError>(Binding::Text(config.kubeception.nodeport@)),
        ),
    ]
}

/// The arguments with which a manifest is applied: it is read from the
/// standard input.
pub open spec fn apply_args() -> Seq<Seq<char>> {
    seq!["apply"@, "-f"@, "-"@]
}

/// What applying `manifest` comes to, as the files determine it: the
/// command that hands the manifest, rendered with the deployment's
/// variables, to the tool, against the static API server; or the first
/// failure in this order: the host's name cannot be read, the authority's
/// certificate cannot be had, the public half of the service account key
/// cannot be had, a variable has no value, the manifest does not render.
pub open spec fn deployed(config: &Config, manifest: Seq<char>, files: Map<Seq<char>, Seq<u8>>) -> Result<
    Command,
    K8sError,
> {
    if hostname_of(files) is None {
        Err(K8sError::System(SystemError::UnknownError))
    } else {
        match (root_pem(config, files), key_of(config, WhichKey::ServiceAccount).public_half(files)) {
            (Some(authority_pem), Some(public)) => match collect(
                manifest_entries(config, files, authority_pem, public),
            ) {
                Ok(variables) => match rendered(manifest, bindings(variables)) {
                    Some(text) => Ok(
                        kubectl_command(
                            join_spec(
                                config.secrets.path@,
                                kubeconfig_name(KubeconfigType::Bootstrap),
                            ),
                            apply_args(),
                            Some(text),
                        ),
                    ),
                    None => Err(K8sError::Render),
                },
                Err(error) => Err(error),
            },
            _ => Err(K8sError::Pki(PKIError::OpenSSLError)),
        }
    }
}

/// The arguments that label a node as a master.
pub open spec fn label_args(hostname: Seq<char>) -> Seq<Seq<char>> {
    seq!["label"@, "node"@, "--overwrite"@, hostname, "node-role.kubernetes.io/master="@]
}

/// The arguments that keep ordinary workloads off a node.
pub open spec fn taint_args(hostname: Seq<char>) -> Seq<Seq<char>> {
    seq![
        "taint"@,
        "node"@,
        "--overwrite"@,
        hostname,
        "node-role.kubernetes.io/master=:NoSchedule"@,
    ]
}

/// The arguments that ask the API server whether it knows a node.
pub open spec fn describe_args(hostname: Seq<char>) -> Seq<Seq<char>> {
    seq!["describe"@, "node"@, hostname]
}

/// The address at which an API server's health is probed.
pub open spec fn health_url(kubeconfig_type: KubeconfigType) -> Seq<char> {
    match kubeconfig_type {
        KubeconfigType::Bootstrap => "https://127.0.0.1:6444/healthz"@,
        KubeconfigType::Cluster => "https://127.0.0.1:6443/healthz"@,
    }
}

/// The kubeconfig whose API server a wait is for: the one of the server
/// named or, without a name, the phase's own.
pub open spec fn awaited(k8s: &K8s, apiserver_type: Option<&ApiserverType>) -> KubeconfigType {
    match apiserver_type {
        Some(named) => kubeconfig_for(*named),
        None => chosen_kubeconfig(k8s.stage(), None),
    }
}

/// A wait for an API server to be reachable: where to probe, the one
/// certificate to trust while probing, and the wait itself. A probe
/// succeeds when the request completes, whatever status the server
/// answers with.
pub struct ApiserverWait {
    pub url: String,
    pub port: u16,
    pub root_certificate_pem: Vec<u8>,
    pub poll: Poll,
}

/// A wait for an API server to be stable: as `ApiserverWait`, round after
/// round.
pub struct StableWait {
    pub url: String,
    pub port: u16,
    pub root_certificate_pem: Vec<u8>,
    pub poll: StabilityPoll,
}

/// A wait for the API server to know this node: the query to run as a
/// probe, and the wait itself.
pub struct RegistrationWait {
    pub query: Invocation,
    pub poll: Poll,
}

/// What a wait amounts to, given whether it ended well: a wait whose
/// attempts ran out is a timeout.
pub fn outcome(reached: bool) -> (done: Result<(), K8sError>)
    ensures
        reached <==> done is Ok,
        done matches Err(error) ==> error == K8sError::Timeout,
{
    if reached {
        Ok(())
    } else {
        Err(K8sError::Timeout)
    }
}

/// The value of a variable, or the reason for which there is none, as
/// contracts speak of it.
pub open spec fn bound(value: Result<Scalar, K8sError>) -> Result<Binding, K8sError> {
    match value {
        Ok(scalar) => Ok(scalar@),
        Err(error) => Err(error),
    }
}

/// The base64 text of `data` as a variable's value.
fn value_of(data: &[u8]) -> (value: Result<Scalar, K8sError>)
    ensures
        bound(value) == encoded_value(data@),
{
    match encode(data) {
        Some(text) => Ok(Scalar::Text(text)),
        None => Err(K8sError::TooLarge),
    }
}

/// The base64 text of the file at `path` as a variable's value.
fn file_value(files: &FileStore, path: &str) -> (value: Result<Scalar, K8sError>)
    ensures
        bound(value) == encoded_file(files@, path@),
{
    match read_text(files, path) {
        Ok(text) => value_of(text.as_str().as_bytes()),
        Err(error) => Err(K8sError::Pki(error)),
    }
}

/// A text as a variable's value.
fn text_value(text: &str) -> (value: Result<Scalar, K8sError>)
    ensures
        bound(value) == Ok::<Binding, K8sError>(Binding::Text(text@)),
{
    Ok(Scalar::Text(text.to_owned()))
}

/// Appends the next entry's variable, or reports why it has no value.
fn bind(
    variables: &mut Vec<Variable>,
    name: &str,
    value: Result<Scalar, K8sError>,
    Ghost(entries): Ghost<Seq<Entry>>,
) -> (done: Result<(), K8sError>)
    requires
        old(variables)@.len() < entries.len(),
        collect(entries.take(old(variables)@.len() as int)) == Ok::<
            Seq<(Seq<char>, Binding)>,
            K8sError,
        >(pairs(old(variables)@)),
        entries[old(variables)@.len() as int] == (name@, bound(value)),
    ensures
        match done {
            Ok(_) => final(variables)@.len() == old(variables)@.len() + 1 && collect(
                entries.take(final(variables)@.len() as int),
            ) == Ok::<Seq<(Seq<char>, Binding)>, K8sError>(pairs(final(variables)@)),
            Err(error) => collect(entries) == Err::<Seq<(Seq<char>, Binding)>, K8sError>(error)
                && bound(value) == Err::<Binding, K8sError>(error),
        },
{
    let ghost position = variables@.len() as int;
    proof {
        assert(entries.take(position + 1).drop_last() =~= entries.take(position));
        assert(entries.take(position + 1).last() == entries[position]);
    }
    match value {
        Ok(scalar) => {
            let ghost before = pairs(variables@);
            variables.push(Variable { name: name.to_owned(), value: scalar });
            proof {
                assert(pairs(variables@) =~= before.push((name@, scalar@)));
            }
            Ok(())
        },
        Err(error) => {
            proof {
                lemma_collect_failed(entries, position + 1, error);
            }
            Err(error)
        },
    }
}

impl<'a> K8s<'a> {
    /// The variables of the deployment's manifests, given the authority's
    /// certificate and the public half of the service account key. The
    /// first one without a value decides the error.
    pub fn manifest_variables(
        &self,
        files: &FileStore,
        authority_pem: &[u8],
        service_account_public: &str,
    ) -> (variables: Result<Vec<Variable>, K8sError>)
        ensures
            match variables {
                Ok(found) => collect(
                    manifest_entries(
                        self.configuration(),
                        files@,
                        authority_pem@,
                        service_account_public@,
                    ),
                ) == Ok::<Seq<(Seq<char>, Binding)>, K8sError>(pairs(found@)),
                Err(error) => collect(
                    manifest_entries(
                        self.configuration(),
                        files@,
                        authority_pem@,
                        service_account_public@,
                    ),
                ) == Err::<Seq<(Seq<char>, Binding)>, K8sError>(error) && (error
                    == K8sError::System(SystemError::UnknownError) || error == K8sError::Pki(
                    PKIError::OpenSSLError,
                ) || error == K8sError::TooLarge),
            },
    {
        let config = self.config();
        let ghost entries = manifest_entries(
            config,
            files@,
            authority_pem@,
            service_account_public@,
        );
        let entries = Ghost(entries);
        let authority = CaCertificate::new(config);
        let admin = self.certificate(WhichCertificate::Admin);
        let apiserver = self.certificate(WhichCertificate::ApiServer);
        let etcd_client = self.certificate(WhichCertificate::EtcdClient);
        let account = self.key(WhichKey::ServiceAccount);
        let mut variables: Vec<Variable> = Vec::new();
        assert(entries@.take(0) =~= Seq::<Entry>::empty());
        assert(pairs(variables@) =~= Seq::<(Seq<char>, Binding)>::empty());
        let hostname = match System::hostname(files) {
            Ok(hostname) => Ok(Scalar::Text(hostname)),
            Err(error) => Err(K8sError::System(error)),
        };
        bind(&mut variables, "apiserver_host", hostname, entries)?;
        let port = self.apiserver_port(Some(&KubeconfigType::Cluster));
        bind(&mut variables, "apiserver_port", Ok(Scalar::Number(port)), entries)?;
        bind(&mut variables, "ca_crt", value_of(authority_pem), entries)?;
        bind(
            &mut variables,
            "ca_key",
            file_value(files, authority.key().key_path().as_str()),
            entries,
        )?;
        bind(&mut variables, "client_crt", file_value(files, admin.cert_path().as_str()), entries)?;
        bind(
            &mut variables,
            "client_key",
            file_value(files, admin.key().key_path().as_str()),
            entries,
        )?;
        bind(
            &mut variables,
            "apiserver_crt",
            file_value(files, apiserver.cert_path().as_str()),
            entries,
        )?;
        bind(
            &mut variables,
            "apiserver_key",
            file_value(files, apiserver.key().key_path().as_str()),
            entries,
        )?;
        bind(&mut variables, "etcd_client_ca_crt", value_of(authority_pem), entries)?;
        bind(
            &mut variables,
            "etcd_client_crt",
            file_value(files, etcd_client.cert_path().as_str()),
            entries,
        )?;
        bind(
            &mut variables,
            "etcd_client_key",
            file_value(files, etcd_client.key().key_path().as_str()),
            entries,
        )?;
        bind(
            &mut variables,
            "service_account_key",
            file_value(files, account.key_path().as_str()),
            entries,
        )?;
        bind(
            &mut variables,
            "service_account_pub",
            value_of(service_account_public.as_bytes()),
            entries,
        )?;
        bind(&mut variables, "cluster_cidr", text_value(config.net.cluster_cidr.as_str()), entries)?;
        bind(
            &mut variables,
            "service_cluster_ip_range",
            text_value(config.net.service_cluster_ip_range.as_str()),
            entries,
        )?;
        bind(
            &mut variables,
            "dns_cluster_ip",
            text_value(config.net.dns_cluster_ip.as_str()),
            entries,
        )?;
        bind(
            &mut variables,
            "kubeception_image",
            text_value(config.kubeception.image.as_str()),
            entries,
        )?;
        bind(
            &mut variables,
            "kubeception_nodeport",
            text_value(config.kubeception.nodeport.as_str()),
            entries,
        )?;
        proof {
            assert(entries@.take(18) =~= entries@);
        }
        Ok(variables)
    }

    /// The command that applies `manifest`: the manifest rendered with the
    /// deployment's variables, handed to the tool on its standard input,
    /// against the static API server. The host's name is read first; then
    /// the authority's certificate and the public half of the service
    /// account key are taken through the cryptographic library.
    pub fn deploy_manifest(&self, manifest: &str, files: &FileStore) -> (invocation: Result<
        Invocation,
        K8sError,
    >)
        ensures
            match invocation {
                Ok(command) => deployed(self.configuration(), manifest@, files@) == Ok::<
                    Command,
                    K8sError,
                >(command@),
                Err(error) => deployed(self.configuration(), manifest@, files@) == Err::<
                    Command,
                    K8sError,
                >(error),
            },
    {
        if let Err(error) = System::hostname(files) {
            return Err(K8sError::System(error));
        }
        let authority_pem = self.root_certificate(files);
        let public = self.key(WhichKey::ServiceAccount).public_key(files);
        let (authority_pem, public) = match (authority_pem, public) {
            (Ok(authority_pem), Ok(public)) => (authority_pem, public),
            _ => {
                return Err(K8sError::Pki(PKIError::OpenSSLError));
            },
        };
        let variables = self.manifest_variables(files, authority_pem.as_slice(), public.as_str())?;
        let text = match render(manifest, &variables) {
            Ok(text) => text,
            Err(_) => {
                return Err(K8sError::Render);
            },
        };
        let args: Vec<&str> = vec!["apply", "-f", "-"];
        assert(Seq::new(args@.len(), |i: int| args@[i]@) =~= apply_args());
        let command = Kubectl::new(self).command(
            &args,
            Some(text.as_str()),
            Some(&KubeconfigType::Bootstrap),
        );
        Ok(command)
    }

    /// The two commands that mark this node as a master, in the order in
    /// which they are run: the label, then the taint that keeps ordinary
    /// workloads off. Both go to the static API server.
    pub fn label_node_as_master(&self, files: &FileStore) -> (commands: Result<
        (Invocation, Invocation),
        K8sError,
    >)
        ensures
            match hostname_of(files@) {
                Some(hostname) => commands is Ok && commands->Ok_0.0@ == kubectl_command(
                    join_spec(
                        self.configuration().secrets.path@,
                        kubeconfig_name(KubeconfigType::Bootstrap),
                    ),
                    label_args(hostname),
                    None,
                ) && commands->Ok_0.1@ == kubectl_command(
                    join_spec(
                        self.configuration().secrets.path@,
                        kubeconfig_name(KubeconfigType::Bootstrap),
                    ),
                    taint_args(hostname),
                    None,
                ),
                None => commands matches Err(error) && error == K8sError::System(
                    SystemError::UnknownError,
                ),
            },
    {
        let hostname = match System::hostname(files) {
            Ok(hostname) => hostname,
            Err(error) => {
                return Err(K8sError::System(error));
            },
        };
        let kubectl = Kubectl::new(self);
        let labelling: Vec<&str> = vec![
            "label",
            "node",
            "--overwrite",
            hostname.as_str(),
            "node-role.kubernetes.io/master=",
        ];
        assert(Seq::new(labelling@.len(), |i: int| labelling@[i]@) =~= label_args(hostname@));
        let label = kubectl.command(&labelling, None, Some(&KubeconfigType::Bootstrap));
        let tainting: Vec<&str> = vec![
            "taint",
            "node",
            "--overwrite",
            hostname.as_str(),
            "node-role.kubernetes.io/master=:NoSchedule",
        ];
        assert(Seq::new(tainting@.len(), |i: int| tainting@[i]@) =~= taint_args(hostname@));
        let taint = kubectl.command(&tainting, None, Some(&KubeconfigType::Bootstrap));
        Ok((label, taint))
    }

    /// The address and port at which the API server of a kubeconfig is
    /// probed.
    pub fn health_endpoint(&self, kubeconfig_type: KubeconfigType) -> (endpoint: (String, u16))
        ensures
            endpoint.0@ == health_url(kubeconfig_type),
            endpoint.1 == port_of(kubeconfig_type),
    {
        let port = self.apiserver_port(Some(&kubeconfig_type));
        match kubeconfig_type {
            KubeconfigType::Bootstrap => ("https://127.0.0.1:6444/healthz".to_owned(), port),
            KubeconfigType::Cluster => ("https://127.0.0.1:6443/healthz".to_owned(), port),
        }
    }

    /// The authority's certificate, as the cryptographic library writes it
    /// out after reading it from its file.
    fn root_certificate(&self, files: &FileStore) -> (pem: Result<Vec<u8>, K8sError>)
        ensures
            match pem {
                Ok(bytes) => root_pem(self.configuration(), files@) == Some(bytes@),
                Err(error) => root_pem(self.configuration(), files@) is None && error
                    == K8sError::Pki(PKIError::OpenSSLError),
            },
    {
        match CaCertificate::new(self.config()).pem(files) {
            Ok(pem) => Ok(pem),
            Err(error) => Err(K8sError::Pki(error)),
        }
    }

    /// The API server that a wait is for.
    fn awaited_kubeconfig(&self, apiserver_type: Option<&ApiserverType>) -> (kubeconfig_type:
        KubeconfigType)
        ensures
            kubeconfig_type == awaited(self, apiserver_type),
    {
        match apiserver_type {
            Some(ApiserverType::Bootstrap) => KubeconfigType::Bootstrap,
            Some(ApiserverType::Cluster) => KubeconfigType::Cluster,
            None => self.kubeconfig_type(None),
        }
    }

    /// A wait until the API server of the given type or, without a type,
    /// the phase's own is reachable: up to 300 probes of its health
    /// address, a second apart, by a client that is to trust the
    /// authority's certificate and no other. It is owed exactly where that
    /// certificate can be had.
    pub fn wait_for_apiserver(&self, apiserver_type: Option<&ApiserverType>, files: &FileStore) -> (wait:
        Result<ApiserverWait, K8sError>)
        ensures
            match root_pem(self.configuration(), files@) {
                Some(pem) => wait is Ok && wait->Ok_0.root_certificate_pem@ == pem
                    && wait->Ok_0.url@ == health_url(awaited(self, apiserver_type))
                    && wait->Ok_0.port == port_of(awaited(self, apiserver_type))
                    && wait->Ok_0.poll@ == PollState::start(REACHABLE_ATTEMPTS as nat),
                None => wait is Err && wait->Err_0 == K8sError::Pki(PKIError::OpenSSLError),
            },
    {
        let root_certificate_pem = self.root_certificate(files)?;
        let (url, port) = self.health_endpoint(self.awaited_kubeconfig(apiserver_type));
        Ok(ApiserverWait { url, port, root_certificate_pem, poll: Poll::new(REACHABLE_ATTEMPTS) })
    }

    /// A wait until the API server of the given type or, without a type,
    /// the phase's own is stable: ten rounds, a second apart, each a wait
    /// of its own of up to 300 probes, by a client that is to trust the
    /// authority's certificate and no other. It is owed exactly where that
    /// certificate can be had.
    pub fn wait_for_apiserver_stable(
        &self,
        apiserver_type: Option<&ApiserverType>,
        files: &FileStore,
    ) -> (wait: Result<StableWait, K8sError>)
        ensures
            match root_pem(self.configuration(), files@) {
                Some(pem) => wait is Ok && wait->Ok_0.root_certificate_pem@ == pem
                    && wait->Ok_0.url@ == health_url(awaited(self, apiserver_type))
                    && wait->Ok_0.port == port_of(awaited(self, apiserver_type))
                    && wait->Ok_0.poll@ == StabilityState::start(
                    STABLE_CONFIRMATIONS as nat,
                    REACHABLE_ATTEMPTS as nat,
                ),
                None => wait is Err && wait->Err_0 == K8sError::Pki(PKIError::OpenSSLError),
            },
    {
        let root_certificate_pem = self.root_certificate(files)?;
        let (url, port) = self.health_endpoint(self.awaited_kubeconfig(apiserver_type));
        Ok(
            StableWait {
                url,
                port,
                root_certificate_pem,
                poll: StabilityPoll::new(STABLE_CONFIRMATIONS, REACHABLE_ATTEMPTS),
            },
        )
    }

    /// A wait until the static API server knows this node: up to 30 runs,
    /// a second apart, of the query that describes the node.
    pub fn wait_for_kubelet_to_be_registered(&self, files: &FileStore) -> (wait: Result<
        RegistrationWait,
        K8sError,
    >)
        ensures
            match hostname_of(files@) {
                Some(hostname) => wait is Ok && wait->Ok_0.query@ == kubectl_command(
                    join_spec(
                        self.configuration().secrets.path@,
                        kubeconfig_name(KubeconfigType::Bootstrap),
                    ),
                    describe_args(hostname),
                    None,
                ) && wait->Ok_0.poll@ == PollState::start(REGISTERED_ATTEMPTS as nat),
                None => wait matches Err(error) && error == K8sError::System(
                    SystemError::UnknownError,
                ),
            },
    {
        let hostname = match System::hostname(files) {
            Ok(hostname) => hostname,
            Err(error) => {
                return Err(K8sError::System(error));
            },
        };
        let args: Vec<&str> = vec!["describe", "node", hostname.as_str()];
        assert(Seq::new(args@.len(), |i: int| args@[i]@) =~= describe_args(hostname@));
        let query = Kubectl::new(self).command(&args, None, Some(&KubeconfigType::Bootstrap));
        Ok(RegistrationWait { query, poll: Poll::new(REGISTERED_ATTEMPTS) })
    }

    /// The directory whose files are deleted once the self-hosted control
    /// plane has taken over: that of the static manifests.
    pub fn remove_static_manifests(&self) -> (directory: String)
        ensures
            directory@ == self.configuration().bootstrap.manifests_path@,
    {
        self.bootstrap_manifests_path()
    }

    /// The call that starts the kubelet.
    pub fn start_services(&self) -> (call: MethodCall)
        ensures
            call.requests(Operation::Start, unit_of(Service::Kubelet)),
    {
        Systemd::start(Service::Kubelet.unit())
    }

    /// The call that enables the kubelet.
    pub fn enable_services(&self) -> (call: MethodCall)
        ensures
            call.requests(Operation::Enable, unit_of(Service::Kubelet)),
    {
        Systemd::enable(Service::Kubelet.unit())
    }
}

} // verus!
