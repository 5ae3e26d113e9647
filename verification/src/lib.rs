pub mod config;
pub mod crypto;
pub mod deploy;
pub mod encoding;
pub mod error;
pub mod etcd;
pub mod flow;
pub mod issue;
pub mod k8s;
pub mod kubeconfig;
pub mod kubectl;
pub mod paths;
pub mod pem;
pub mod pki;
pub mod poller;
pub mod profile;
pub mod render;
pub mod resources;
pub mod server;
pub mod store;
pub mod system;
pub mod systemd;
pub mod text;
