use crate::config::Config;
use crate::error::ErrorKind;
use crate::flow::{unit_of, Flow, FlowState, Service, Step};
use crate::paths::{join, join_spec};
use crate::pki::{
    grew_within, lemma_grew_chain, AuthorityView, CaCertificate, Certificate, CertificateView,
    Key, KeyView, PKIError,
};
use crate::render::{bindings, pairs, render, rendered, Binding, Variable};
use crate::resources::Resources;
use crate::store::FileStore;
use crate::systemd::{MethodCall, Operation, Systemd, SystemdError};
use vstd::prelude::*;
use vstd::string::*;
use vstd::utf8::*;

verus! {

/// The phases of bringing up etcd.
#[derive(Clone, Copy, Debug, PartialEq, Eq, Structural)]
pub enum Phase {
    Bootstrap,
}

/// Why a step of etcd's bring-up failed.
#[derive(Clone, Copy, Debug, PartialEq, Eq, Structural)]
pub enum EtcdError {
    /// A key or certificate could not be read or created.
    Pki(PKIError),
    /// The configuration did not render.
    Render,
    /// The service manager did not do what it was asked.
    Systemd(SystemdError),
}

/// The category under which an error is reported.
pub open spec fn kind_of(error: EtcdError) -> ErrorKind {
    match error {
        EtcdError::Pki(_) => ErrorKind::CryptoOrIO,
        EtcdError::Render => ErrorKind::ConfigRender,
        EtcdError::Systemd(_) => ErrorKind::ServiceManagement,
    }
}

impl EtcdError {
    /// The category that a run reports.
    pub fn kind(&self) -> (kind: ErrorKind)
        ensures
            kind == kind_of(*self),
    {
        match self {
            EtcdError::Pki(_) => ErrorKind::CryptoOrIO,
            EtcdError::Render => ErrorKind::ConfigRender,
            EtcdError::Systemd(_) => ErrorKind::ServiceManagement,
        }
    }
}

/// The steps that bring up etcd: its directory, its certificates, its
/// configuration, and then the service, started and enabled.
pub open spec fn etcd_steps() -> Seq<Step> {
    seq![
        Step::EnsureEtcdDirectory,
        Step::EtcdCertificates,
        Step::EtcdConfiguration,
        Step::StartService(Service::Etcd),
        Step::EnableService(Service::Etcd),
    ]
}

/// The certificate by which etcd's members know each other.
pub open spec fn peer_certificate(config: &Config) -> CertificateView {
    CertificateView {
        name: "peer.crt"@,
        path: config.etcd.config_path@,
        organization: "etcd"@,
        common_name: "etcd-peer"@,
        extra_ips: Seq::empty(),
        key: KeyView { name: "peer.key"@, path: config.etcd.config_path@ },
        authority: AuthorityView { secrets_path: config.secrets.path@ },
    }
}

/// The certificate by which etcd serves its clients.
pub open spec fn server_certificate(config: &Config) -> CertificateView {
    CertificateView {
        name: "server.crt"@,
        path: config.etcd.config_path@,
        organization: "etcd"@,
        common_name: "etcd-server"@,
        extra_ips: Seq::empty(),
        key: KeyView { name: "server.key"@, path: config.etcd.config_path@ },
        authority: AuthorityView { secrets_path: config.secrets.path@ },
    }
}

/// The files that issuing etcd's certificates may create.
pub open spec fn certificate_paths(config: &Config) -> Set<Seq<char>> {
    peer_certificate(config).paths().union(server_certificate(config).paths())
}

/// The variables of etcd's configuration: where the authority's
/// certificate stands, and the certificates and keys of server and peers.
pub open spec fn etcd_variables(config: &Config) -> Seq<(Seq<char>, Binding)> {
    seq![
        ("etcd_ca_file_path"@, Binding::Text(join_spec(config.secrets.path@, "ca.crt"@))),
        (
            "etcd_server_cert_file_path"@,
            Binding::Text(join_spec(config.etcd.config_path@, "server.crt"@)),
        ),
        (
            "etcd_server_key_file_path"@,
            Binding::Text(join_spec(config.etcd.config_path@, "server.key"@)),
        ),
        (
            "etcd_peer_cert_file_path"@,
            Binding::Text(join_spec(config.etcd.config_path@, "peer.crt"@)),
        ),
        (
            "etcd_peer_key_file_path"@,
            Binding::Text(join_spec(config.etcd.config_path@, "peer.key"@)),
        ),
    ]
}

/// The configuration of the etcd service as it renders, or `None` where
/// it does not.
pub open spec fn etcd_configuration(config: &Config, resources: &Resources) -> Option<Seq<char>> {
    rendered(resources.etcd_config@, bindings(etcd_variables(config)))
}

/// etcd in one phase of its bring-up.
pub struct Etcd<'a> {
    phase: Phase,
    config: &'a Config,
    resources: &'a Resources,
}

impl<'a> Etcd<'a> {
    /// The phase.
    pub closed spec fn stage(&self) -> Phase {
        self.phase
    }

    /// The configuration that the phase works with.
    pub closed spec fn configuration(&self) -> &Config {
        self.config
    }

    /// The text assets that the phase renders.
    pub closed spec fn assets(&self) -> &Resources {
        self.resources
    }

    /// The flow that brings up etcd.
    pub fn bootstrap(config: &'a Config, resources: &'a Resources) -> (flow: Flow)
        ensures
            flow@ == FlowState::start(etcd_steps()),
    {
        Etcd::phase(Phase::Bootstrap, config, resources).run()
    }

    /// The directory of etcd's configuration and certificates.
    pub fn config_path(&self) -> (path: String)
        ensures
            path@ == self.configuration().etcd.config_path@,
    {
        self.config.etcd.config_path.clone()
    }

    pub fn phase(phase: Phase, config: &'a Config, resources: &'a Resources) -> (etcd: Etcd<'a>)
        ensures
            etcd.stage() == phase,
            etcd.configuration() == config,
            etcd.assets() == resources,
    {
        Etcd { phase, config, resources }
    }

    /// The flow of the phase.
    pub fn run(&self) -> (flow: Flow)
        ensures
            flow@ == FlowState::start(etcd_steps()),
    {
        match self.phase {
            Phase::Bootstrap => {
                let mut steps: Vec<Step> = Vec::new();
                steps.push(Step::EnsureEtcdDirectory);
                steps.push(Step::EtcdCertificates);
                steps.push(Step::EtcdConfiguration);
                steps.push(Step::StartService(Service::Etcd));
                steps.push(Step::EnableService(Service::Etcd));
                assert(steps@ =~= etcd_steps());
                Flow::new(steps)
            },
        }
    }

    /// The certificate by which etcd's members know each other.
    pub fn peer(&self) -> (certificate: Certificate<'a>)
        ensures
            certificate@ == peer_certificate(self.configuration()),
    {
        let directory = self.config.etcd.config_path.as_str();
        let extra: Vec<String> = Vec::new();
        assert(Seq::new(extra@.len(), |i: int| extra@[i]@) =~= Seq::<Seq<char>>::empty());
        Certificate::new(
            "peer.crt",
            directory,
            "etcd",
            "etcd-peer",
            extra,
            Key::new("peer.key", directory),
            CaCertificate::new(self.config),
        )
    }

    /// The certificate by which etcd serves its clients.
    pub fn server(&self) -> (certificate: Certificate<'a>)
        ensures
            certificate@ == server_certificate(self.configuration()),
    {
        let directory = self.config.etcd.config_path.as_str();
        let extra: Vec<String> = Vec::new();
        assert(Seq::new(extra@.len(), |i: int| extra@[i]@) =~= Seq::<Seq<char>>::empty());
        Certificate::new(
            "server.crt",
            directory,
            "etcd",
            "etcd-server",
            extra,
            Key::new("server.key", directory),
            CaCertificate::new(self.config),
        )
    }

    /// Makes sure that the peer and the server certificate exist, in this
    /// order. It only creates, and only these two with their keys and the
    /// authority; where both are there, nothing changes.
    pub fn generate_certificates(&self, files: &mut FileStore) -> (done: Result<(), EtcdError>)
        ensures
            grew_within(old(files)@, final(files)@, certificate_paths(self.configuration())),
            old(files)@.contains_key(peer_certificate(self.configuration()).cert_path()) && old(
                files,
            )@.contains_key(server_certificate(self.configuration()).cert_path()) ==> done is Ok
                && final(files)@ == old(files)@,
            done is Ok ==> final(files)@.contains_key(
                peer_certificate(self.configuration()).cert_path(),
            ) && final(files)@.contains_key(server_certificate(self.configuration()).cert_path()),
            done matches Err(error) ==> error == EtcdError::Pki(PKIError::OpenSSLError),
    {
        let ghost paths = certificate_paths(self.configuration());
        let peer = self.peer().present(files);
        let ghost between = files@;
        proof {
            lemma_grew_chain(
                old(files)@,
                old(files)@,
                between,
                Set::empty(),
                peer_certificate(self.configuration()).paths(),
                paths,
            );
        }
        if let Err(error) = peer {
            return Err(EtcdError::Pki(error));
        }
        let server = self.server().present(files);
        proof {
            lemma_grew_chain(
                old(files)@,
                between,
                files@,
                paths,
                server_certificate(self.configuration()).paths(),
                paths,
            );
        }
        match server {
            Ok(_) => Ok(()),
            Err(error) => Err(EtcdError::Pki(error)),
        }
    }

    /// The variables of etcd's configuration.
    pub fn variables(&self) -> (variables: Vec<Variable>)
        ensures
            pairs(variables@) == etcd_variables(self.configuration()),
    {
        let secrets = self.config.secrets.path.as_str();
        let directory = self.config.etcd.config_path.as_str();
        let mut variables: Vec<Variable> = Vec::new();
        variables.push(Variable::text("etcd_ca_file_path", join(secrets, "ca.crt").as_str()));
        variables.push(
            Variable::text("etcd_server_cert_file_path", join(directory, "server.crt").as_str()),
        );
        variables.push(
            Variable::text("etcd_server_key_file_path", join(directory, "server.key").as_str()),
        );
        variables.push(
            Variable::text("etcd_peer_cert_file_path", join(directory, "peer.crt").as_str()),
        );
        variables.push(
            Variable::text("etcd_peer_key_file_path", join(directory, "peer.key").as_str()),
        );
        assert(pairs(variables@) =~= etcd_variables(self.configuration()));
        variables
    }

    /// Renders the configuration of the etcd service and writes it to its
    /// file. Where it does not render, nothing is written.
    pub fn write_configuration(&self, files: &mut FileStore) -> (done: Result<(), EtcdError>)
        ensures
            match etcd_configuration(self.configuration(), self.assets()) {
                Some(text) => done is Ok && final(files)@ == old(files)@.insert(
                    self.configuration().etcd.config_file@,
                    encode_utf8(text),
                ),
                None => done == Err::<(), EtcdError>(EtcdError::Render) && final(files)@ == old(
                    files,
                )@,
            },
    {
        match self.phase {
            Phase::Bootstrap => {
                let variables = self.variables();
                match render(self.resources.etcd_config.as_str(), &variables) {
                    Ok(text) => {
                        files.write(
                            self.config.etcd.config_file.as_str(),
                            text.as_str().as_bytes_vec(),
                        );
                        Ok(())
                    },
                    Err(_) => Err(EtcdError::Render),
                }
            },
        }
    }

    /// The call that starts the etcd service.
    pub fn start_services(&self) -> (call: MethodCall)
        ensures
            call.requests(Operation::Start, unit_of(Service::Etcd)),
    {
        Systemd::start(Service::Etcd.unit())
    }

    /// The call that enables the etcd service.
    pub fn enable_services(&self) -> (call: MethodCall)
        ensures
            call.requests(Operation::Enable, unit_of(Service::Etcd)),
    {
        Systemd::enable(Service::Etcd.unit())
    }
}

} // verus!
