use crate::config::{Config, JoinConfig};
use crate::encoding::{base64_fits, base64_text, encode};
use crate::k8s::{
    certificate_of, key_of, kubeconfig_name, port_of, K8s, K8sError, KubeconfigType, Phase,
    WhichCertificate, WhichKey,
};
use crate::paths::{join, join_spec, lemma_join_distinct};
use crate::pki::{
    grew_within, lemma_grew_chain, text_at, AuthorityView, CaCertificate, PKIError,
};
use crate::render::{bindings, pairs, render, rendered, Binding, Variable};
use crate::resources::{Manifest, Resources};
use crate::store::FileStore;
use crate::system::{hostname_of, System, SystemError};
use crate::text::chain;
use vstd::prelude::*;
use vstd::string::*;
use vstd::utf8::*;

verus! {

/// The authority's certificate as PEM text, as the cryptographic library
/// writes it out after reading it from its file.
pub open spec fn root_pem(config: &Config, files: Map<Seq<char>, Seq<u8>>) -> Option<Seq<u8>> {
    (AuthorityView { secrets_path: config.secrets.path@ }).pem(files)
}

/// The base64 text of `data`, where its length fits in `usize`.
pub open spec fn encoded(data: Seq<u8>) -> Option<Seq<char>> {
    if base64_fits(data.len()) {
        Some(base64_text(data))
    } else {
        None
    }
}

/// Whether every credential of the control plane is there: the three
/// certificates and the service account key.
pub open spec fn credentials_present(config: &Config, files: Map<Seq<char>, Seq<u8>>) -> bool {
    &&& files.contains_key(certificate_of(config, WhichCertificate::Admin).cert_path())
    &&& files.contains_key(certificate_of(config, WhichCertificate::ApiServer).cert_path())
    &&& files.contains_key(certificate_of(config, WhichCertificate::EtcdClient).cert_path())
    &&& files.contains_key(key_of(config, WhichKey::ServiceAccount).key_path())
}

/// Where the public half of the service account key is written.
pub open spec fn service_account_public_path(config: &Config) -> Seq<char> {
    join_spec(config.secrets.path@, "service-account.pub"@)
}

/// The files that issuing the control plane's credentials may create.
pub open spec fn credential_paths(config: &Config) -> Set<Seq<char>> {
    certificate_of(config, WhichCertificate::Admin).paths().union(
        certificate_of(config, WhichCertificate::ApiServer).paths(),
    ).union(certificate_of(config, WhichCertificate::EtcdClient).paths()).insert(
        key_of(config, WhichKey::ServiceAccount).key_path(),
    )
}

/// The files after the credentials were issued and the public half of the
/// service account key was written: up to `between` only credentials were
/// created, and then the public half, as it is derived from the key in
/// `between`, was written to its file.
pub open spec fn issued(
    config: &Config,
    before: Map<Seq<char>, Seq<u8>>,
    between: Map<Seq<char>, Seq<u8>>,
    after: Map<Seq<char>, Seq<u8>>,
) -> bool {
    &&& grew_within(before, between, credential_paths(config))
    &&& match key_of(config, WhichKey::ServiceAccount).public_half(between) {
        Some(public) => after == between.insert(
            service_account_public_path(config),
            encode_utf8(public),
        ),
        None => false,
    }
}

/// Whether the three certificates of the control plane are there.
pub open spec fn certificates_present(config: &Config, files: Map<Seq<char>, Seq<u8>>) -> bool {
    &&& files.contains_key(certificate_of(config, WhichCertificate::Admin).cert_path())
    &&& files.contains_key(certificate_of(config, WhichCertificate::ApiServer).cert_path())
    &&& files.contains_key(certificate_of(config, WhichCertificate::EtcdClient).cert_path())
}

/// What issuing the control plane's credentials does to the files.
///
/// On success only credentials were created, and then the public half of
/// the service account key, as it is derived from that key, was written;
/// every credential and the public half are there, and where a certificate
/// was issued just now, so are the authority's certificate and key. On
/// failure only credentials were created, and the public half was not
/// written. Where every credential was there already, none of them
/// changes: the public half is written again where it can be derived, and
/// else nothing is written.
pub open spec fn generated(
    config: &Config,
    before: Map<Seq<char>, Seq<u8>>,
    after: Map<Seq<char>, Seq<u8>>,
    done: Result<(), K8sError>,
) -> bool {
    let authority = AuthorityView { secrets_path: config.secrets.path@ };
    &&& credentials_present(config, before) ==> (match key_of(
        config,
        WhichKey::ServiceAccount,
    ).public_half(before) {
        Some(public) => done is Ok && after == before.insert(
            service_account_public_path(config),
            encode_utf8(public),
        ),
        None => done == Err::<(), K8sError>(K8sError::Pki(PKIError::OpenSSLError)) && after
            == before,
    })
    &&& match done {
        Ok(_) => {
            &&& exists|between: Map<Seq<char>, Seq<u8>>| #[trigger]
                issued(config, before, between, after)
            &&& credentials_present(config, after)
            &&& after.contains_key(service_account_public_path(config))
            &&& !certificates_present(config, before) ==> after.contains_key(
                authority.cert_path(),
            ) && after.contains_key(authority.key().key_path())
        },
        Err(error) => error == K8sError::Pki(PKIError::OpenSSLError) && grew_within(
            before,
            after,
            credential_paths(config),
        ),
    }
}

/// The public half of the service account key is written beside the key,
/// not over it.
pub proof fn lemma_public_beside_key(config: &Config)
    ensures
        service_account_public_path(config) != key_of(
            config,
            WhichKey::ServiceAccount,
        ).key_path(),
{
    reveal_strlit("service-account.pub");
    reveal_strlit("service-account.key");
    let public = "service-account.pub"@;
    let key = "service-account.key"@;
    assert(public[16] != key[16]);
    lemma_join_distinct(config.secrets.path@, public, key);
}

/// Issuing the control plane's credentials a second time, after it
/// succeeded once, succeeds and leaves every file as the first time left
/// it, the public half of the service account key included.
pub proof fn lemma_credentials_rerun(
    config: &Config,
    before: Map<Seq<char>, Seq<u8>>,
    between: Map<Seq<char>, Seq<u8>>,
    after: Map<Seq<char>, Seq<u8>>,
    done: Result<(), K8sError>,
)
    requires
        generated(config, before, between, Ok::<(), K8sError>(())),
        generated(config, between, after, done),
    ensures
        done is Ok,
        after == between,
{
    lemma_public_beside_key(config);
    let account = key_of(config, WhichKey::ServiceAccount);
    let path = service_account_public_path(config);
    let earlier = choose|earlier: Map<Seq<char>, Seq<u8>>| #[trigger]
        issued(config, before, earlier, between);
    assert(between[account.key_path()] == earlier[account.key_path()]);
    assert(account.public_half(between) == account.public_half(earlier));
    assert(after =~= between);
}

/// The variables of a kubeconfig: the API server's port, and the
/// authority's certificate, the client's certificate and the client's key,
/// each as base64 text.
pub open spec fn kubeconfig_variables(
    port: u16,
    authority: Seq<char>,
    certificate: Seq<char>,
    key: Seq<char>,
) -> Seq<(Seq<char>, Binding)> {
    seq![
        ("apiserver_port"@, Binding::Number(port as int)),
        ("ca_crt"@, Binding::Text(authority)),
        ("client_crt"@, Binding::Text(certificate)),
        ("client_key"@, Binding::Text(key)),
    ]
}

/// The kubeconfig for an API server's port and the given credentials, as
/// PEM: too large where one of them cannot be encoded, and else what the
/// template renders to.
pub open spec fn kubeconfig_rendered(
    template: Seq<char>,
    port: u16,
    authority_pem: Seq<u8>,
    certificate_pem: Seq<char>,
    key_pem: Seq<char>,
) -> Result<Seq<char>, K8sError> {
    match (
        encoded(authority_pem),
        encoded(encode_utf8(certificate_pem)),
        encoded(encode_utf8(key_pem)),
    ) {
        (Some(authority), Some(certificate), Some(key)) => match rendered(
            template,
            bindings(kubeconfig_variables(port, authority, certificate, key)),
        ) {
            Some(text) => Ok(text),
            None => Err(K8sError::Render),
        },
        _ => Err(K8sError::TooLarge),
    }
}

/// The kubeconfig with the admin's credentials as the files hold them, for
/// an authority's certificate given as PEM; `None` where the admin's
/// certificate or key cannot be read as text.
pub open spec fn admin_kubeconfig(
    config: &Config,
    resources: &Resources,
    kubeconfig_type: KubeconfigType,
    files: Map<Seq<char>, Seq<u8>>,
    authority_pem: Seq<u8>,
) -> Option<Result<Seq<char>, K8sError>> {
    match (
        text_at(files, certificate_of(config, WhichCertificate::Admin).cert_path()),
        text_at(files, key_of(config, WhichKey::Admin).key_path()),
    ) {
        (Some(certificate), Some(key)) => Some(
            kubeconfig_rendered(
                resources.kubeconfig@,
                port_of(kubeconfig_type),
                authority_pem,
                certificate,
                key,
            ),
        ),
        _ => None,
    }
}

/// Where the kubeconfig of a type stands.
pub open spec fn kubeconfig_file(config: &Config, kubeconfig_type: KubeconfigType) -> Seq<char> {
    join_spec(config.secrets.path@, kubeconfig_name(kubeconfig_type))
}

/// The kubeconfig with the admin's credentials, as the files determine it:
/// rendered from the authority's certificate, the admin's certificate and
/// the admin's key, or the failure where one of them cannot be had, cannot
/// be encoded, or the template does not render.
pub open spec fn kubeconfig_of(
    config: &Config,
    resources: &Resources,
    kubeconfig_type: KubeconfigType,
    files: Map<Seq<char>, Seq<u8>>,
) -> Result<Seq<char>, K8sError> {
    match root_pem(config, files) {
        Some(authority_pem) => match admin_kubeconfig(
            config,
            resources,
            kubeconfig_type,
            files,
            authority_pem,
        ) {
            Some(outcome) => outcome,
            None => Err(K8sError::Pki(PKIError::OpenSSLError)),
        },
        None => Err(K8sError::Pki(PKIError::OpenSSLError)),
    }
}

/// The files after a kubeconfig with the admin's credentials was written:
/// up to `between` only the admin's certificate, its key and the authority
/// were created, and then the kubeconfig, as `between` determines it, was
/// written to its file.
pub open spec fn wrote_kubeconfig(
    config: &Config,
    resources: &Resources,
    kubeconfig_type: KubeconfigType,
    before: Map<Seq<char>, Seq<u8>>,
    between: Map<Seq<char>, Seq<u8>>,
    after: Map<Seq<char>, Seq<u8>>,
) -> bool {
    &&& grew_within(before, between, certificate_of(config, WhichCertificate::Admin).paths())
    &&& match kubeconfig_of(config, resources, kubeconfig_type, between) {
        Ok(text) => after == between.insert(
            kubeconfig_file(config, kubeconfig_type),
            encode_utf8(text),
        ),
        Err(_) => false,
    }
}

/// What writing a kubeconfig with the admin's credentials does where the
/// admin's certificate is there already: the kubeconfig, as the files
/// determine it, is written, or on its failure nothing is.
pub open spec fn kubeconfig_written(
    config: &Config,
    resources: &Resources,
    kubeconfig_type: KubeconfigType,
    before: Map<Seq<char>, Seq<u8>>,
    after: Map<Seq<char>, Seq<u8>>,
    done: Result<(), K8sError>,
) -> bool {
    match kubeconfig_of(config, resources, kubeconfig_type, before) {
        Ok(text) => done is Ok && after == before.insert(
            kubeconfig_file(config, kubeconfig_type),
            encode_utf8(text),
        ),
        Err(error) => done == Err::<(), K8sError>(error) && after == before,
    }
}

/// The files after the whole configuration of the static control plane was
/// written: the kubeconfig for the static API server, written to `second`
/// after `first`; the one for the self-hosted API server, written to
/// `fourth` after `third`; and then the static part.
pub open spec fn configured_through(
    config: &Config,
    resources: &Resources,
    before: Map<Seq<char>, Seq<u8>>,
    first: Map<Seq<char>, Seq<u8>>,
    second: Map<Seq<char>, Seq<u8>>,
    third: Map<Seq<char>, Seq<u8>>,
    fourth: Map<Seq<char>, Seq<u8>>,
    after: Map<Seq<char>, Seq<u8>>,
) -> bool {
    &&& wrote_kubeconfig(config, resources, KubeconfigType::Bootstrap, before, first, second)
    &&& wrote_kubeconfig(config, resources, KubeconfigType::Cluster, second, third, fourth)
    &&& static_written(fourth, config, resources) == Some(after)
}

/// The files after the configuration stopped at the second kubeconfig: the
/// first was written, and after it nothing but the admin's certificate, its
/// key and the authority can have been created.
pub open spec fn stopped_at_second(
    config: &Config,
    resources: &Resources,
    before: Map<Seq<char>, Seq<u8>>,
    first: Map<Seq<char>, Seq<u8>>,
    second: Map<Seq<char>, Seq<u8>>,
    after: Map<Seq<char>, Seq<u8>>,
) -> bool {
    &&& wrote_kubeconfig(config, resources, KubeconfigType::Bootstrap, before, first, second)
    &&& grew_within(second, after, certificate_of(config, WhichCertificate::Admin).paths())
}

/// The files after the configuration stopped at the static manifest at
/// position `failed`, which did not render: both kubeconfigs and the
/// manifests before it were written.
pub open spec fn stopped_at_manifest(
    config: &Config,
    resources: &Resources,
    before: Map<Seq<char>, Seq<u8>>,
    first: Map<Seq<char>, Seq<u8>>,
    second: Map<Seq<char>, Seq<u8>>,
    third: Map<Seq<char>, Seq<u8>>,
    fourth: Map<Seq<char>, Seq<u8>>,
    failed: int,
    after: Map<Seq<char>, Seq<u8>>,
) -> bool {
    &&& wrote_kubeconfig(config, resources, KubeconfigType::Bootstrap, before, first, second)
    &&& wrote_kubeconfig(config, resources, KubeconfigType::Cluster, second, third, fourth)
    &&& 0 <= failed < resources.bootstrap_manifests@.len()
    &&& manifests_written(fourth, config, resources.bootstrap_manifests@.take(failed)) == Some(
        after,
    )
}

/// What writing the configuration of the static control plane does where
/// the admin's certificate is there already: each part is what the files
/// before it determine, the first that fails ends it with its error, and
/// what was written before stays.
pub open spec fn configured(
    config: &Config,
    resources: &Resources,
    before: Map<Seq<char>, Seq<u8>>,
    after: Map<Seq<char>, Seq<u8>>,
    done: Result<(), K8sError>,
) -> bool {
    match kubeconfig_of(config, resources, KubeconfigType::Bootstrap, before) {
        Err(error) => done == Err::<(), K8sError>(error) && after == before,
        Ok(bootstrap) => {
            let second = before.insert(
                kubeconfig_file(config, KubeconfigType::Bootstrap),
                encode_utf8(bootstrap),
            );
            match kubeconfig_of(config, resources, KubeconfigType::Cluster, second) {
                Err(error) => done == Err::<(), K8sError>(error) && after == second,
                Ok(cluster) => {
                    let fourth = second.insert(
                        kubeconfig_file(config, KubeconfigType::Cluster),
                        encode_utf8(cluster),
                    );
                    match static_written(fourth, config, resources) {
                        Some(written) => done is Ok && after == written,
                        None => done == Err::<(), K8sError>(K8sError::Render) && exists|
                            failed: int,
                        |
                            0 <= failed < resources.bootstrap_manifests@.len() && #[trigger]
                            manifests_written(
                                fourth,
                                config,
                                resources.bootstrap_manifests@.take(failed),
                            ) == Some(after),
                    }
                },
            }
        },
    }
}

/// Whether an error is one that writing a kubeconfig can end with.
pub open spec fn kubeconfig_error(error: K8sError) -> bool {
    error == K8sError::Pki(PKIError::OpenSSLError) || error == K8sError::TooLarge || error
        == K8sError::Render
}

/// The variables of the kubelet's configuration.
pub open spec fn kubelet_variables(hostname: Seq<char>, kubeconfig_path: Seq<char>) -> Seq<
    (Seq<char>, Binding),
> {
    seq![
        ("hostname"@, Binding::Text(hostname)),
        ("kubeconfig_path"@, Binding::Text(kubeconfig_path)),
    ]
}

/// The kubelet's configuration for a kubeconfig on the host that the files
/// name.
pub open spec fn kubelet_rendered(
    config: &Config,
    resources: &Resources,
    kubeconfig_type: KubeconfigType,
    files: Map<Seq<char>, Seq<u8>>,
) -> Result<Seq<char>, K8sError> {
    match hostname_of(files) {
        Some(hostname) => match rendered(
            resources.kubelet_config@,
            bindings(
                kubelet_variables(
                    hostname,
                    join_spec(config.secrets.path@, kubeconfig_name(kubeconfig_type)),
                ),
            ),
        ) {
            Some(text) => Ok(text),
            None => Err(K8sError::Render),
        },
        None => Err(K8sError::System(SystemError::UnknownError)),
    }
}

/// The variables of a static manifest: the secrets directory, under two
/// names.
pub open spec fn static_variables(config: &Config) -> Seq<(Seq<char>, Binding)> {
    seq![
        ("bootstrap_secrets_path"@, Binding::Text(config.secrets.path@)),
        ("ca_certificates_path"@, Binding::Text(config.secrets.path@)),
    ]
}

/// Where a static manifest is written.
pub open spec fn static_manifest_path(config: &Config, name: Seq<char>) -> Seq<char> {
    join_spec(config.bootstrap.manifests_path@, name + ".yaml"@)
}

/// The files after the static manifests were rendered and written, in
/// their order; `None` where one of them does not render.
pub open spec fn manifests_written(
    before: Map<Seq<char>, Seq<u8>>,
    config: &Config,
    manifests: Seq<Manifest>,
) -> Option<Map<Seq<char>, Seq<u8>>>
    decreases manifests.len(),
{
    if manifests.len() == 0 {
        Some(before)
    } else {
        match manifests_written(before, config, manifests.drop_last()) {
            Some(files) => match rendered(
                manifests.last().text@,
                bindings(static_variables(config)),
            ) {
                Some(text) => Some(
                    files.insert(
                        static_manifest_path(config, manifests.last().name@),
                        encode_utf8(text),
                    ),
                ),
                None => None,
            },
            None => None,
        }
    }
}

/// Once a manifest has failed to render, the ones after it change nothing
/// about that.
pub proof fn lemma_unwritten_stays(
    before: Map<Seq<char>, Seq<u8>>,
    config: &Config,
    manifests: Seq<Manifest>,
    failed: int,
)
    requires
        0 <= failed <= manifests.len(),
        manifests_written(before, config, manifests.take(failed)) is None,
    ensures
        manifests_written(before, config, manifests) is None,
    decreases manifests.len() - failed,
{
    if failed < manifests.len() {
        assert(manifests.take(failed + 1).drop_last() =~= manifests.take(failed));
        lemma_unwritten_stays(before, config, manifests, failed + 1);
    } else {
        assert(manifests.take(failed) =~= manifests);
    }
}

/// The files after the static part of the configuration was written: the
/// static manifests, and then the kubelet's first configuration as it is;
/// `None` where a manifest does not render.
pub open spec fn static_written(
    before: Map<Seq<char>, Seq<u8>>,
    config: &Config,
    resources: &Resources,
) -> Option<Map<Seq<char>, Seq<u8>>> {
    match manifests_written(before, config, resources.bootstrap_manifests@) {
        Some(files) => Some(
            files.insert(
                config.kubelet.config_file@,
                encode_utf8(resources.bootstrap_kubelet_config@),
            ),
        ),
        None => None,
    }
}

impl<'a> K8s<'a> {
    /// Makes sure that the admin, API server and etcd client certificates
    /// and the service account key exist, in this order, and writes the
    /// public half of that key. Before that write it only creates, and only
    /// credentials; on failure the public half is not written. Where every
    /// credential is there already, none of them changes, and the public
    /// half is written again as it is derived from the key.
    pub fn generate_certificates(&self, files: &mut FileStore) -> (done: Result<(), K8sError>)
        ensures
            generated(self.configuration(), old(files)@, final(files)@, done),
    {
        let ghost config = self.configuration();
        let ghost paths = credential_paths(config);
        let ghost authority = AuthorityView { secrets_path: config.secrets.path@ };
        let ghost admin_path = certificate_of(config, WhichCertificate::Admin).cert_path();
        let ghost apiserver_path = certificate_of(config, WhichCertificate::ApiServer).cert_path();
        let ghost client_path = certificate_of(config, WhichCertificate::EtcdClient).cert_path();
        let admin = self.certificate(WhichCertificate::Admin).present(files);
        let ghost first = files@;
        proof {
            lemma_grew_chain(
                old(files)@,
                old(files)@,
                first,
                Set::empty(),
                certificate_of(config, WhichCertificate::Admin).paths(),
                paths,
            );
        }
        if let Err(error) = admin {
            return Err(K8sError::Pki(error));
        }
        let apiserver = self.certificate(WhichCertificate::ApiServer).present(files);
        let ghost second = files@;
        proof {
            lemma_grew_chain(
                old(files)@,
                first,
                second,
                paths,
                certificate_of(config, WhichCertificate::ApiServer).paths(),
                paths,
            );
        }
        if let Err(error) = apiserver {
            return Err(K8sError::Pki(error));
        }
        let etcd_client = self.certificate(WhichCertificate::EtcdClient).present(files);
        let ghost third = files@;
        proof {
            lemma_grew_chain(
                old(files)@,
                second,
                third,
                paths,
                certificate_of(config, WhichCertificate::EtcdClient).paths(),
                paths,
            );
        }
        if let Err(error) = etcd_client {
            return Err(K8sError::Pki(error));
        }
        let account = self.key(WhichKey::ServiceAccount);
        let presented = account.present(files);
        let ghost fourth = files@;
        proof {
            lemma_grew_chain(
                old(files)@,
                third,
                fourth,
                paths,
                set![key_of(config, WhichKey::ServiceAccount).key_path()],
                paths,
            );
        }
        if let Err(error) = presented {
            return Err(K8sError::Pki(error));
        }
        proof {
            if credentials_present(config, old(files)@) {
                assert(first == old(files)@);
                assert(second == first);
                assert(third == second);
                assert(fourth == third);
            }
        }
        let public = match account.public_key(files) {
            Ok(public) => public,
            Err(error) => {
                return Err(K8sError::Pki(error));
            },
        };
        let path = join(self.config().secrets.path.as_str(), "service-account.pub");
        let contents = public.as_str().as_bytes_vec();
        files.write(path.as_str(), contents);
        proof {
            assert(issued(config, old(files)@, fourth, files@));
            assert(first.dom().contains(admin_path));
            assert(second.dom().contains(admin_path));
            assert(second.dom().contains(apiserver_path));
            assert(third.dom().contains(admin_path));
            assert(third.dom().contains(apiserver_path));
            assert(third.dom().contains(client_path));
            assert(fourth.dom().contains(admin_path));
            assert(fourth.dom().contains(apiserver_path));
            assert(fourth.dom().contains(client_path));
            if !certificates_present(config, old(files)@) {
                if !old(files)@.contains_key(admin_path) {
                    assert(first.dom().contains(authority.cert_path()));
                    assert(first.dom().contains(authority.key().key_path()));
                    assert(second.dom().contains(authority.cert_path()));
                    assert(second.dom().contains(authority.key().key_path()));
                } else if !old(files)@.contains_key(apiserver_path) {
                    assert(first == old(files)@);
                    assert(second.dom().contains(authority.cert_path()));
                    assert(second.dom().contains(authority.key().key_path()));
                } else {
                    assert(first == old(files)@);
                    assert(second == first);
                }
                assert(third.dom().contains(authority.cert_path()));
                assert(third.dom().contains(authority.key().key_path()));
                assert(fourth.dom().contains(authority.cert_path()));
                assert(fourth.dom().contains(authority.key().key_path()));
            }
        }
        Ok(())
    }

    /// Renders the kubeconfig for the API server of `kubeconfig_type` from
    /// the authority's certificate, the client's certificate and the
    /// client's key, each given as PEM.
    pub fn kubeconfig_text(
        &self,
        kubeconfig_type: KubeconfigType,
        authority_pem: &[u8],
        certificate_pem: &str,
        key_pem: &str,
    ) -> (text: Result<String, K8sError>)
        ensures
            match text {
                Ok(t) => kubeconfig_rendered(
                    self.assets().kubeconfig@,
                    port_of(kubeconfig_type),
                    authority_pem@,
                    certificate_pem@,
                    key_pem@,
                ) == Ok::<Seq<char>, K8sError>(t@),
                Err(error) => kubeconfig_rendered(
                    self.assets().kubeconfig@,
                    port_of(kubeconfig_type),
                    authority_pem@,
                    certificate_pem@,
                    key_pem@,
                ) == Err::<Seq<char>, K8sError>(error),
            },
    {
        let port = self.apiserver_port(Some(&kubeconfig_type));
        let authority = encode(authority_pem);
        let certificate = encode(certificate_pem.as_bytes());
        let key = encode(key_pem.as_bytes());
        match (authority, certificate, key) {
            (Some(authority), Some(certificate), Some(key)) => {
                let mut variables: Vec<Variable> = Vec::new();
                variables.push(Variable::number("apiserver_port", port));
                variables.push(Variable::text("ca_crt", authority.as_str()));
                variables.push(Variable::text("client_crt", certificate.as_str()));
                variables.push(Variable::text("client_key", key.as_str()));
                assert(pairs(variables@) =~= kubeconfig_variables(
                    port,
                    authority@,
                    certificate@,
                    key@,
                ));
                match render(self.resources().kubeconfig.as_str(), &variables) {
                    Ok(text) => Ok(text),
                    Err(_) => Err(K8sError::Render),
                }
            },
            _ => Err(K8sError::TooLarge),
        }
    }

    /// The kubeconfig for the API server of `kubeconfig_type`, with the
    /// admin's credentials. The authority's certificate is taken first, as
    /// the cryptographic library writes it out after reading it; then the
    /// admin certificate is made present, and nothing else is written.
    /// What comes back is what the files then determine. Where the admin
    /// certificate is there already, nothing is written and the outcome is
    /// what the files determine, be it the kubeconfig or the failure.
    pub fn kubeconfig_contents(&self, kubeconfig_type: KubeconfigType, files: &mut FileStore) -> (text:
        Result<String, K8sError>)
        ensures
            grew_within(
                old(files)@,
                final(files)@,
                certificate_of(self.configuration(), WhichCertificate::Admin).paths(),
            ),
            old(files)@.contains_key(
                certificate_of(self.configuration(), WhichCertificate::Admin).cert_path(),
            ) ==> final(files)@ == old(files)@,
            match text {
                Ok(t) => kubeconfig_of(
                    self.configuration(),
                    self.assets(),
                    kubeconfig_type,
                    final(files)@,
                ) == Ok::<Seq<char>, K8sError>(t@),
                Err(error) => kubeconfig_error(error) && (old(files)@.contains_key(
                    certificate_of(self.configuration(), WhichCertificate::Admin).cert_path(),
                ) ==> kubeconfig_of(
                    self.configuration(),
                    self.assets(),
                    kubeconfig_type,
                    final(files)@,
                ) == Err::<Seq<char>, K8sError>(error)),
            },
    {
        let ghost authority = AuthorityView { secrets_path: self.configuration().secrets.path@ };
        let authority_pem = match CaCertificate::new(self.config()).pem(files) {
            Ok(pem) => pem,
            Err(error) => {
                return Err(K8sError::Pki(error));
            },
        };
        let admin = self.certificate(WhichCertificate::Admin);
        if let Err(error) = admin.present(files) {
            return Err(K8sError::Pki(error));
        }
        proof {
            assert(old(files)@.dom().contains(authority.cert_path()));
            assert(files@[authority.cert_path()] == old(files)@[authority.cert_path()]);
            assert(root_pem(self.configuration(), files@) == Some(authority_pem@));
        }
        let certificate = match admin.cert(files) {
            Ok(certificate) => certificate,
            Err(error) => {
                return Err(K8sError::Pki(error));
            },
        };
        let key = match self.key(WhichKey::Admin).key(files) {
            Ok(key) => key,
            Err(error) => {
                return Err(K8sError::Pki(error));
            },
        };
        self.kubeconfig_text(
            kubeconfig_type,
            authority_pem.as_slice(),
            certificate.as_str(),
            key.as_str(),
        )
    }

    /// Writes the kubeconfig of `kubeconfig_type`: with a join payload, what
    /// the payload decodes to, and without one, the kubeconfig with the
    /// admin's credentials as the files determine it. A payload that does
    /// not decode fails the write and leaves the files as they are; so does
    /// a kubeconfig that cannot be had, but for the admin's certificate,
    /// which may have been issued before.
    pub fn write_kubeconfig(
        &self,
        kubeconfig_type: KubeconfigType,
        join_config: Option<JoinConfig>,
        files: &mut FileStore,
    ) -> (done: Result<(), K8sError>)
        ensures
            join_config matches Some(payload) ==> (match payload.decoded() {
                Some(text) => done is Ok && final(files)@ == old(files)@.insert(
                    kubeconfig_file(self.configuration(), kubeconfig_type),
                    encode_utf8(text),
                ),
                None => done == Err::<(), K8sError>(K8sError::Network) && final(files)@ == old(
                    files,
                )@,
            }),
            join_config is None ==> (match done {
                Ok(_) => exists|between: Map<Seq<char>, Seq<u8>>| #[trigger]
                    wrote_kubeconfig(
                        self.configuration(),
                        self.assets(),
                        kubeconfig_type,
                        old(files)@,
                        between,
                        final(files)@,
                    ),
                Err(error) => grew_within(
                    old(files)@,
                    final(files)@,
                    certificate_of(self.configuration(), WhichCertificate::Admin).paths(),
                ) && kubeconfig_error(error),
            }),
            join_config is None && old(files)@.contains_key(
                certificate_of(self.configuration(), WhichCertificate::Admin).cert_path(),
            ) ==> kubeconfig_written(
                self.configuration(),
                self.assets(),
                kubeconfig_type,
                old(files)@,
                final(files)@,
                done,
            ),
    {
        let path = self.kubeconfig_path(Some(&kubeconfig_type));
        match join_config {
            Some(payload) => match payload.decode() {
                Some(text) => {
                    files.write(path.as_str(), text.as_str().as_bytes_vec());
                    Ok(())
                },
                None => Err(K8sError::Network),
            },
            None => {
                let text = self.kubeconfig_contents(kubeconfig_type, files)?;
                let ghost between = files@;
                files.write(path.as_str(), text.as_str().as_bytes_vec());
                proof {
                    assert(wrote_kubeconfig(
                        self.configuration(),
                        self.assets(),
                        kubeconfig_type,
                        old(files)@,
                        between,
                        files@,
                    ));
                }
                Ok(())
            },
        }
    }

    /// The kubelet's configuration for the kubeconfig of `kubeconfig_type`,
    /// on the host that the files name.
    pub fn kubelet_config_contents(&self, kubeconfig_type: KubeconfigType, files: &FileStore) -> (text:
        Result<String, K8sError>)
        ensures
            match text {
                Ok(t) => kubelet_rendered(
                    self.configuration(),
                    self.assets(),
                    kubeconfig_type,
                    files@,
                ) == Ok::<Seq<char>, K8sError>(t@),
                Err(error) => kubelet_rendered(
                    self.configuration(),
                    self.assets(),
                    kubeconfig_type,
                    files@,
                ) == Err::<Seq<char>, K8sError>(error),
            },
    {
        let hostname = match System::hostname(files) {
            Ok(hostname) => hostname,
            Err(error) => {
                return Err(K8sError::System(error));
            },
        };
        let path = self.kubeconfig_path(Some(&kubeconfig_type));
        let mut variables: Vec<Variable> = Vec::new();
        variables.push(Variable::text("hostname", hostname.as_str()));
        variables.push(Variable::text("kubeconfig_path", path.as_str()));
        assert(pairs(variables@) =~= kubelet_variables(hostname@, path@));
        match render(self.resources().kubelet_config.as_str(), &variables) {
            Ok(text) => Ok(text),
            Err(_) => Err(K8sError::Render),
        }
    }

    /// Renders the kubelet's configuration for the kubeconfig of
    /// `kubeconfig_type` and writes it to its file. On failure nothing is
    /// written. The kubelet reads it when it is next restarted.
    pub fn write_kubelet_config(&self, kubeconfig_type: KubeconfigType, files: &mut FileStore) -> (done:
        Result<(), K8sError>)
        ensures
            match kubelet_rendered(
                self.configuration(),
                self.assets(),
                kubeconfig_type,
                old(files)@,
            ) {
                Ok(text) => done is Ok && final(files)@ == old(files)@.insert(
                    self.configuration().kubelet.config_file@,
                    encode_utf8(text),
                ),
                Err(error) => done == Err::<(), K8sError>(error) && final(files)@ == old(files)@,
            },
    {
        let text = self.kubelet_config_contents(kubeconfig_type, files)?;
        files.write(self.config().kubelet.config_file.as_str(), text.as_str().as_bytes_vec());
        Ok(())
    }

    /// Renders the static manifests and writes each to its file in the
    /// static manifests directory, in their order, and then writes the
    /// kubelet's first configuration as it is. The first manifest that does
    /// not render ends it: those before it are written, nothing else is.
    pub fn write_static_configuration(&self, files: &mut FileStore) -> (done: Result<(), K8sError>)
        ensures
            match static_written(old(files)@, self.configuration(), self.assets()) {
                Some(written) => done is Ok && final(files)@ == written,
                None => done == Err::<(), K8sError>(K8sError::Render) && exists|failed: int|
                    0 <= failed < self.assets().bootstrap_manifests@.len() && #[trigger]
                    manifests_written(
                        old(files)@,
                        self.configuration(),
                        self.assets().bootstrap_manifests@.take(failed),
                    ) == Some(final(files)@),
            },
    {
        let config = self.config();
        let resources = self.resources();
        let mut variables: Vec<Variable> = Vec::new();
        variables.push(Variable::text("bootstrap_secrets_path", config.secrets.path.as_str()));
        variables.push(Variable::text("ca_certificates_path", config.secrets.path.as_str()));
        assert(pairs(variables@) =~= static_variables(config));
        let ghost all = resources.bootstrap_manifests@;
        let mut i: usize = 0;
        while i < resources.bootstrap_manifests.len()
            invariant
                i <= resources.bootstrap_manifests.len(),
                all == resources.bootstrap_manifests@,
                config == self.configuration(),
                resources == self.assets(),
                pairs(variables@) == static_variables(config),
                manifests_written(old(files)@, config, all.take(i as int)) == Some(files@),
            decreases resources.bootstrap_manifests.len() - i,
        {
            let manifest = &resources.bootstrap_manifests[i];
            proof {
                assert(all.take(i + 1).drop_last() =~= all.take(i as int));
                assert(all.take(i + 1).last() == all[i as int]);
            }
            match render(manifest.text.as_str(), &variables) {
                Ok(text) => {
                    let name = chain(manifest.name.as_str(), ".yaml");
                    let path = join(config.bootstrap.manifests_path.as_str(), name.as_str());
                    files.write(path.as_str(), text.as_str().as_bytes_vec());
                },
                Err(_) => {
                    proof {
                        lemma_unwritten_stays(old(files)@, config, all, i + 1);
                    }
                    return Err(K8sError::Render);
                },
            }
            i += 1;
        }
        proof {
            assert(all.take(i as int) =~= all);
        }
        files.write(
            config.kubelet.config_file.as_str(),
            resources.bootstrap_kubelet_config.as_str().as_bytes_vec(),
        );
        Ok(())
    }

    /// Writes the configuration of the static control plane: the kubeconfig
    /// for the static API server, the one for the self-hosted API server,
    /// the static manifests and the kubelet's first configuration, in this
    /// order. The first of them that fails ends it, and what was written
    /// before stays. The other phases have nothing to write.
    pub fn write_configuration(&self, files: &mut FileStore) -> (done: Result<(), K8sError>)
        ensures
            self.stage() != Phase::Bootstrap ==> done is Ok && final(files)@ == old(files)@,
            self.stage() == Phase::Bootstrap ==> (match done {
                Ok(_) => exists|
                    first: Map<Seq<char>, Seq<u8>>,
                    second: Map<Seq<char>, Seq<u8>>,
                    third: Map<Seq<char>, Seq<u8>>,
                    fourth: Map<Seq<char>, Seq<u8>>,
                | #[trigger]
                    configured_through(
                        self.configuration(),
                        self.assets(),
                        old(files)@,
                        first,
                        second,
                        third,
                        fourth,
                        final(files)@,
                    ),
                Err(error) => (kubeconfig_error(error)) && (grew_within(
                    old(files)@,
                    final(files)@,
                    certificate_of(self.configuration(), WhichCertificate::Admin).paths(),
                ) || (exists|first: Map<Seq<char>, Seq<u8>>, second: Map<Seq<char>, Seq<u8>>| #[trigger]
                    stopped_at_second(
                        self.configuration(),
                        self.assets(),
                        old(files)@,
                        first,
                        second,
                        final(files)@,
                    )) || (exists|
                    first: Map<Seq<char>, Seq<u8>>,
                    second: Map<Seq<char>, Seq<u8>>,
                    third: Map<Seq<char>, Seq<u8>>,
                    fourth: Map<Seq<char>, Seq<u8>>,
                    failed: int,
                | #[trigger]
                    stopped_at_manifest(
                        self.configuration(),
                        self.assets(),
                        old(files)@,
                        first,
                        second,
                        third,
                        fourth,
                        failed,
                        final(files)@,
                    ))),
            }),
            self.stage() == Phase::Bootstrap && old(files)@.contains_key(
                certificate_of(self.configuration(), WhichCertificate::Admin).cert_path(),
            ) ==> configured(
                self.configuration(),
                self.assets(),
                old(files)@,
                final(files)@,
                done,
            ),
    {
        match self.current_phase() {
            Phase::Bootstrap => {
                let ghost config = self.configuration();
                let ghost resources = self.assets();
                let ghost admin = certificate_of(config, WhichCertificate::Admin).cert_path();
                let bootstrap = self.write_kubeconfig(KubeconfigType::Bootstrap, None, files);
                let ghost second = files@;
                if let Err(error) = bootstrap {
                    return Err(error);
                }
                let ghost first = choose|first: Map<Seq<char>, Seq<u8>>| #[trigger]
                    wrote_kubeconfig(
                        config,
                        resources,
                        KubeconfigType::Bootstrap,
                        old(files)@,
                        first,
                        second,
                    );
                proof {
                    if old(files)@.contains_key(admin) {
                        assert(second.dom().contains(admin));
                    }
                }
                let cluster = self.write_kubeconfig(KubeconfigType::Cluster, None, files);
                let ghost fourth = files@;
                if let Err(error) = cluster {
                    proof {
                        assert(stopped_at_second(
                            config,
                            resources,
                            old(files)@,
                            first,
                            second,
                            files@,
                        ));
                    }
                    return Err(error);
                }
                let ghost third = choose|third: Map<Seq<char>, Seq<u8>>| #[trigger]
                    wrote_kubeconfig(
                        config,
                        resources,
                        KubeconfigType::Cluster,
                        second,
                        third,
                        fourth,
                    );
                match self.write_static_configuration(files) {
                    Ok(_) => {
                        proof {
                            assert(configured_through(
                                config,
                                resources,
                                old(files)@,
                                first,
                                second,
                                third,
                                fourth,
                                files@,
                            ));
                        }
                        Ok(())
                    },
                    Err(error) => {
                        proof {
                            let failed = choose|failed: int|
                                0 <= failed < resources.bootstrap_manifests@.len() && #[trigger]
                                manifests_written(
                                    fourth,
                                    config,
                                    resources.bootstrap_manifests@.take(failed),
                                ) == Some(files@);
                            assert(stopped_at_manifest(
                                config,
                                resources,
                                old(files)@,
                                first,
                                second,
                                third,
                                fourth,
                                failed,
                                files@,
                            ));
                        }
                        Err(error)
                    },
                }
            },
            Phase::DeployControlPlane | Phase::DeployKubelet => Ok(()),
        }
    }
}

} // verus!
