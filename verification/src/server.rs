use crate::config::JoinConfig;
use crate::text::same;
use vstd::prelude::*;

verus! {

/// The join service: it hands the kubeconfig that it was started with to
/// every node that asks, and never changes it.
pub struct Server {
    payload: JoinConfig,
}

/// What the join service answers.
pub enum Reply {
    /// Status 200 with a plain text.
    Text(String),
    /// Status 200 with the join payload, to be sent as a JSON object whose
    /// one member is named `kubeconfig`.
    Json(JoinConfig),
    /// Status 404 without a body.
    NotFound,
}

impl Reply {
    /// The status code of the reply.
    pub fn status(&self) -> (status: u16)
        ensures
            status == (if self is NotFound {
                404u16
            } else {
                200u16
            }),
    {
        match self {
            Reply::NotFound => 404,
            _ => 200,
        }
    }
}

impl Server {
    /// The payload that the service hands out.
    pub closed spec fn payload(&self) -> JoinConfig {
        self.payload
    }

    /// The service for `kubeconfig`, ready to answer requests: the caller
    /// listens and hands each request to `respond`. What the service hands
    /// out decodes to `kubeconfig`, character for character, and is the
    /// same for every request. It fails only where the payload's length
    /// would not fit in `usize`.
    pub fn run(kubeconfig: &str) -> (server: Option<Server>)
        ensures
            match JoinConfig::encoded(kubeconfig@) {
                Some(text) => server is Some && server->0.payload().kubeconfig@ == text
                    && server->0.payload().decoded() == Some(kubeconfig@),
                None => server is None,
            },
    {
        match JoinConfig::encode(kubeconfig) {
            Some(payload) => Some(Server { payload }),
            None => None,
        }
    }

    /// The answer to a request: `ok` to a `GET` of `/healthz`, the payload
    /// to a `GET` of `/join`, and 404 to everything else.
    pub fn respond(&self, method: &str, url: &str) -> (reply: Reply)
        ensures
            method@ == "GET"@ && url@ == "/healthz"@ ==> (reply matches Reply::Text(text) && text@
                == "ok"@),
            method@ == "GET"@ && url@ == "/join"@ ==> (reply matches Reply::Json(payload)
                && payload.kubeconfig@ == self.payload().kubeconfig@),
            !(method@ == "GET"@ && (url@ == "/healthz"@ || url@ == "/join"@)) ==> reply
                is NotFound,
    {
        proof {
            reveal_strlit("/healthz");
            reveal_strlit("/join");
            assert("/healthz"@.len() != "/join"@.len());
        }
        if same(method, "GET") && same(url, "/healthz") {
            Reply::Text("ok".to_owned())
        } else if same(method, "GET") && same(url, "/join") {
            let kubeconfig = self.payload.kubeconfig.clone();
            assert(kubeconfig@ == self.payload().kubeconfig@);
            Reply::Json(JoinConfig { kubeconfig })
        } else {
            Reply::NotFound
        }
    }
}

} // verus!
