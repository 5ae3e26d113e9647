use crate::encoding::{base64_fits, base64_text, decode_text, decoded_text, encode_text};
use vstd::prelude::*;
use vstd::utf8::*;

verus! {

/// Everything a bootstrap run is configured with.
pub struct Config {
    pub bootstrap: Bootstrap,
    pub certificates: Certificates,
    pub secrets: Secrets,
    pub kubelet: Kubelet,
    pub etcd: Etcd,
    pub net: Net,
    pub kubeception: Kubeception,
}

/// Where the static control-plane manifests of the bootstrap window live.
pub struct Bootstrap {
    pub manifests_path: String,
}

pub struct Certificates {
    pub ca_path: String,
}

/// The secrets directory: CA, leaf credentials, kubeconfigs.
pub struct Secrets {
    pub path: String,
}

pub struct Kubelet {
    pub config_file: String,
}

pub struct Etcd {
    pub config_file: String,
    pub config_path: String,
}

pub struct Net {
    pub cluster_cidr: String,
    pub service_cluster_ip_range: String,
    pub apiserver_cluster_ip: String,
    pub dns_cluster_ip: String,
}

pub struct Kubeception {
    pub image: String,
    pub nodeport: String,
}

/// The sole payload of the join protocol: a kubeconfig as base64 text.
pub struct JoinConfig {
    pub kubeconfig: String,
}

impl JoinConfig {
    /// The kubeconfig that the payload stands for, where it stands for one.
    pub open spec fn decoded(&self) -> Option<Seq<char>> {
        decoded_text(self.kubeconfig@)
    }

    /// The base64 text that stands for `kubeconfig`, where its length fits
    /// in `usize`.
    pub open spec fn encoded(kubeconfig: Seq<char>) -> Option<Seq<char>> {
        if base64_fits(encode_utf8(kubeconfig).len()) {
            Some(base64_text(encode_utf8(kubeconfig)))
        } else {
            None
        }
    }

    /// The payload that hands out `kubeconfig`. Decoding it gives the
    /// kubeconfig back, character for character. It fails only where the
    /// encoded length would not fit in `usize`.
    pub fn encode(kubeconfig: &str) -> (payload: Option<JoinConfig>)
        ensures
            match JoinConfig::encoded(kubeconfig@) {
                Some(text) => payload is Some && payload->0.kubeconfig@ == text
                    && payload->0.decoded() == Some(kubeconfig@),
                None => payload is None,
            },
    {
        match encode_text(kubeconfig) {
            Some(text) => Some(JoinConfig { kubeconfig: text }),
            None => None,
        }
    }

    /// The kubeconfig that the payload stands for, or nothing where the
    /// payload is no base64 or what it holds is no UTF-8 text.
    pub fn decode(&self) -> (kubeconfig: Option<String>)
        ensures
            match kubeconfig {
                Some(text) => self.decoded() == Some(text@),
                None => self.decoded() is None,
            },
    {
        decode_text(self.kubeconfig.as_str())
    }
}

} // verus!
