use kubeception::config::{Bootstrap, Certificates, Config, Etcd, Kubeception, Kubelet, Net, Secrets};
use kubeception::error::ErrorKind;
use kubeception::flow::{Flow, Service, Step};
use kubeception::k8s::{ApiserverType, K8s, KubeconfigType, Phase};
use kubeception::resources::Resources;

fn config() -> Config {
    Config {
        bootstrap: Bootstrap { manifests_path: "/etc/kubernetes/manifests".to_string() },
        certificates: Certificates { ca_path: "/etc/ssl/certs".to_string() },
        secrets: Secrets { path: "/etc/kubernetes/secrets".to_string() },
        kubelet: Kubelet { config_file: "/etc/kubernetes/kubelet".to_string() },
        etcd: Etcd {
            config_file: "/etc/sysconfig/etcd".to_string(),
            config_path: "/etc/etcd".to_string(),
        },
        net: Net {
            cluster_cidr: "10.2.0.0/16".to_string(),
            service_cluster_ip_range: "10.3.0.0/24".to_string(),
            apiserver_cluster_ip: "10.3.0.1".to_string(),
            dns_cluster_ip: "10.3.0.10".to_string(),
        },
        kubeception: Kubeception { image: "kubeception:latest".to_string(), nodeport: "30080".to_string() },
    }
}

fn resources(manifests: usize) -> Resources {
    Resources {
        etcd_config: String::new(),
        bootstrap_manifests: Vec::new(),
        kubeconfig: String::new(),
        bootstrap_kubelet_config: String::new(),
        kubelet_config: String::new(),
        control_plane_manifests: (0..manifests).map(|i| format!("manifest {}", i)).collect(),
    }
}

fn steps_of(mut flow: Flow) -> Vec<Step> {
    let mut steps = Vec::new();
    while let Some(step) = flow.current() {
        steps.push(step);
        flow.advance(Ok(()));
    }
    assert!(flow.finished());
    assert_eq!(flow.failure(), None);
    assert_eq!(flow.done(), steps.len());
    steps
}

#[test]
fn etcd_bootstrap_steps_in_order() {
    let config = config();
    let resources = resources(0);
    assert_eq!(
        steps_of(kubeception::etcd::Etcd::bootstrap(&config, &resources)),
        vec![
            Step::EnsureEtcdDirectory,
            Step::EtcdCertificates,
            Step::EtcdConfiguration,
            Step::StartService(Service::Etcd),
            Step::EnableService(Service::Etcd),
        ]
    );
}

#[test]
fn k8s_bootstrap_steps_in_order() {
    let config = config();
    let resources = resources(0);
    assert_eq!(
        steps_of(K8s::bootstrap(&config, &resources)),
        vec![Step::Certificates, Step::Configuration, Step::RestartService(Service::Kubelet)]
    );
}

#[test]
fn control_plane_steps_wait_then_apply_each_manifest() {
    let config = config();
    let resources = resources(3);
    assert_eq!(
        steps_of(K8s::control_plane(&config, &resources)),
        vec![
            Step::AwaitApiserver(ApiserverType::Bootstrap),
            Step::DeployManifest(0),
            Step::DeployManifest(1),
            Step::DeployManifest(2),
        ]
    );
}

#[test]
fn control_plane_without_manifests_only_waits() {
    let config = config();
    let resources = resources(0);
    assert_eq!(
        steps_of(K8s::control_plane(&config, &resources)),
        vec![Step::AwaitApiserver(ApiserverType::Bootstrap)]
    );
}

#[test]
fn kubelet_steps_in_order() {
    let config = config();
    let resources = resources(0);
    assert_eq!(
        steps_of(K8s::kubelet(&config, &resources)),
        vec![
            Step::AwaitApiserver(ApiserverType::Bootstrap),
            Step::KubeletConfiguration(KubeconfigType::Bootstrap),
            Step::RestartService(Service::Kubelet),
            Step::AwaitRegistration,
            Step::LabelMaster,
            Step::TaintMaster,
            Step::AwaitStableApiserver(ApiserverType::Cluster),
            Step::RemoveStaticManifests,
            Step::KubeletConfiguration(KubeconfigType::Cluster),
            Step::RestartService(Service::Kubelet),
        ]
    );
}

#[test]
fn join_steps_in_order() {
    let config = config();
    let resources = resources(0);
    assert_eq!(
        steps_of(K8s::join(&config, &resources)),
        vec![
            Step::FetchJoinConfig,
            Step::JoinKubeconfig,
            Step::KubeletConfiguration(KubeconfigType::Cluster),
            Step::RestartService(Service::Kubelet),
        ]
    );
}

#[test]
fn run_gives_the_flow_of_the_phase() {
    let config = config();
    let resources = resources(2);
    let bootstrap = K8s::phase(Phase::Bootstrap, &config, &resources);
    assert_eq!(steps_of(bootstrap.run()), steps_of(K8s::bootstrap(&config, &resources)));
    let control_plane = K8s::phase(Phase::DeployControlPlane, &config, &resources);
    assert_eq!(steps_of(control_plane.run()), steps_of(K8s::control_plane(&config, &resources)));
    assert_eq!(control_plane.deploy_control_plane().len(), 3);
    let kubelet = K8s::phase(Phase::DeployKubelet, &config, &resources);
    assert_eq!(steps_of(kubelet.run()), steps_of(K8s::kubelet(&config, &resources)));
    assert_eq!(kubelet.deploy_kubelet().len(), 10);
}

#[test]
fn flow_aborts_at_the_first_failure() {
    let config = config();
    let resources = resources(0);
    let mut flow = K8s::kubelet(&config, &resources);
    flow.advance(Ok(()));
    flow.advance(Ok(()));
    flow.advance(Ok(()));
    assert_eq!(flow.current(), Some(Step::AwaitRegistration));
    flow.advance(Err(ErrorKind::Timeout));
    assert_eq!(flow.current(), None);
    assert!(!flow.finished());
    assert_eq!(flow.failure(), Some(ErrorKind::Timeout));
    assert_eq!(flow.failed_step(), Some(Step::AwaitRegistration));
    assert_eq!(flow.done(), 3);
    // nothing moves a flow that has failed
    flow.advance(Ok(()));
    flow.advance(Err(ErrorKind::Network));
    assert_eq!(flow.current(), None);
    assert_eq!(flow.failure(), Some(ErrorKind::Timeout));
    assert_eq!(flow.done(), 3);
}

#[test]
fn flow_that_is_finished_stays_finished() {
    let mut flow = Flow::new(vec![Step::Certificates]);
    assert_eq!(flow.failed_step(), None);
    flow.advance(Ok(()));
    assert!(flow.finished());
    flow.advance(Err(ErrorKind::CryptoOrIO));
    flow.advance(Ok(()));
    assert!(flow.finished());
    assert_eq!(flow.failure(), None);
    assert_eq!(flow.done(), 1);
}

#[test]
fn flow_without_steps_is_finished() {
    let flow = Flow::new(Vec::new());
    assert!(flow.finished());
    assert_eq!(flow.current(), None);
}

#[test]
fn static_manifests_go_only_after_the_cluster_is_stable() {
    let config = config();
    let resources = resources(0);
    let steps = steps_of(K8s::kubelet(&config, &resources));
    let position = |step: Step| steps.iter().position(|s| *s == step).unwrap();
    assert!(position(Step::AwaitRegistration) < position(Step::LabelMaster));
    assert!(position(Step::LabelMaster) < position(Step::TaintMaster));
    assert!(
        position(Step::AwaitStableApiserver(ApiserverType::Cluster))
            < position(Step::RemoveStaticManifests)
    );
    assert!(
        position(Step::RemoveStaticManifests)
            < position(Step::KubeletConfiguration(KubeconfigType::Cluster))
    );
}

#[test]
fn service_units() {
    assert_eq!(Service::Etcd.unit(), "etcd.service");
    assert_eq!(Service::Kubelet.unit(), "kubelet.service");
}
