use crate::error::ErrorKind;
use crate::k8s::{ApiserverType, KubeconfigType};
use vstd::prelude::*;

verus! {

/// A service unit of the host that a run manages.
#[derive(Clone, Copy, Debug, PartialEq, Eq, Structural)]
pub enum Service {
    Etcd,
    Kubelet,
}

/// The unit name of a service.
pub open spec fn unit_of(service: Service) -> Seq<char> {
    match service {
        Service::Etcd => "etcd.service"@,
        Service::Kubelet => "kubelet.service"@,
    }
}

impl Service {
    /// The unit name of the service.
    pub fn unit(&self) -> (name: &'static str)
        ensures
            name@ == unit_of(*self),
    {
        match self {
            Service::Etcd => "etcd.service",
            Service::Kubelet => "kubelet.service",
        }
    }
}

/// One step of a flow. Each has an effect outside the process, is carried
/// out by the caller, and is not undone.
#[derive(Clone, Copy, Debug, PartialEq, Eq, Structural)]
pub enum Step {
    /// Create the etcd configuration directory where it is missing.
    EnsureEtcdDirectory,
    /// Issue the etcd peer and server certificates.
    EtcdCertificates,
    /// Render and write the configuration of the etcd service.
    EtcdConfiguration,
    /// Start a service.
    StartService(Service),
    /// Enable a service.
    EnableService(Service),
    /// Restart a service.
    RestartService(Service),
    /// Issue the admin, API server and etcd client certificates and the
    /// service account key pair, and write the key pair's public half.
    Certificates,
    /// Write the two kubeconfigs, the static manifests and the kubelet's
    /// first configuration.
    Configuration,
    /// Wait until an API server is reachable.
    AwaitApiserver(ApiserverType),
    /// Render a manifest of the deployment, by its position, and apply it.
    DeployManifest(usize),
    /// Render and write the kubelet's configuration for a kubeconfig.
    KubeletConfiguration(KubeconfigType),
    /// Wait until the API server knows this node.
    AwaitRegistration,
    /// Label this node as a master.
    LabelMaster,
    /// Keep ordinary workloads off this node.
    TaintMaster,
    /// Wait until an API server has been reachable round after round.
    AwaitStableApiserver(ApiserverType),
    /// Delete what the static manifests directory holds.
    RemoveStaticManifests,
    /// Fetch the join payload from the join service.
    FetchJoinConfig,
    /// Decode the join payload and write it as the cluster kubeconfig.
    JoinKubeconfig,
}

/// A flow under way, as contracts speak of it: its steps, how many of them
/// are done, and the failure that ended it, if one did.
pub struct FlowState {
    pub steps: Seq<Step>,
    pub done: nat,
    pub failure: Option<ErrorKind>,
}

impl FlowState {
    /// The flow before its first step.
    pub open spec fn start(steps: Seq<Step>) -> FlowState {
        FlowState { steps, done: 0, failure: None }
    }

    /// The step to carry out now; none once the flow has ended.
    pub open spec fn current(self) -> Option<Step> {
        if self.failure is None && self.done < self.steps.len() {
            Some(self.steps[self.done as int])
        } else {
            None
        }
    }

    /// Whether every step is done.
    pub open spec fn finished(self) -> bool {
        self.failure is None && self.done >= self.steps.len()
    }

    /// The flow after the current step ended with `outcome`: on success the
    /// next step is due, on failure the flow has ended for good. A flow that
    /// has ended stays as it is.
    pub open spec fn advance(self, outcome: Result<(), ErrorKind>) -> FlowState {
        if self.current() is None {
            self
        } else {
            match outcome {
                Ok(_) => FlowState { done: self.done + 1, ..self },
                Err(kind) => FlowState { failure: Some(kind), ..self },
            }
        }
    }

    /// The flow after its steps ended with `outcomes`, in their order.
    pub open spec fn after(self, outcomes: Seq<Result<(), ErrorKind>>) -> FlowState
        decreases outcomes.len(),
    {
        if outcomes.len() == 0 {
            self
        } else {
            self.advance(outcomes.first()).after(outcomes.drop_first())
        }
    }
}

/// A flow under way: a fixed list of steps that are carried out one after
/// the other, none skipped and none repeated, until all are done or one
/// fails.
pub struct Flow {
    steps: Vec<Step>,
    done: usize,
    failure: Option<ErrorKind>,
}

impl View for Flow {
    type V = FlowState;

    closed spec fn view(&self) -> FlowState {
        FlowState { steps: self.steps@, done: self.done as nat, failure: self.failure }
    }
}

impl Flow {
    #[verifier::type_invariant]
    spec fn well_formed(&self) -> bool {
        self.done <= self.steps@.len()
    }

    /// A flow of `steps`, before the first.
    pub fn new(steps: Vec<Step>) -> (flow: Flow)
        ensures
            flow@ == FlowState::start(steps@),
    {
        Flow { steps, done: 0, failure: None }
    }

    /// The step to carry out now; none once the flow has ended.
    pub fn current(&self) -> (step: Option<Step>)
        ensures
            step == self@.current(),
    {
        proof {
            use_type_invariant(self);
        }
        if self.failure.is_none() && self.done < self.steps.len() {
            Some(self.steps[self.done])
        } else {
            None
        }
    }

    /// Whether every step is done.
    pub fn finished(&self) -> (finished: bool)
        ensures
            finished == self@.finished(),
    {
        self.failure.is_none() && self.done >= self.steps.len()
    }

    /// The category of the failure that ended the flow, if one did.
    pub fn failure(&self) -> (failure: Option<ErrorKind>)
        ensures
            failure == self@.failure,
    {
        self.failure
    }

    /// The step that failed, if one did.
    pub fn failed_step(&self) -> (step: Option<Step>)
        ensures
            match step {
                Some(failed) => self@.failure is Some && self@.done < self@.steps.len() && failed
                    == self@.steps[self@.done as int],
                None => self@.failure is None || self@.done >= self@.steps.len(),
            },
    {
        if self.failure.is_some() && self.done < self.steps.len() {
            Some(self.steps[self.done])
        } else {
            None
        }
    }

    /// The number of steps done.
    pub fn done(&self) -> (done: usize)
        ensures
            done == self@.done,
    {
        self.done
    }

    /// Records how the current step ended.
    pub fn advance(&mut self, outcome: Result<(), ErrorKind>)
        ensures
            final(self)@ == old(self)@.advance(outcome),
    {
        proof {
            use_type_invariant(&*self);
        }
        if self.failure.is_none() && self.done < self.steps.len() {
            match outcome {
                Ok(_) => {
                    self.done = self.done + 1;
                },
                Err(kind) => {
                    self.failure = Some(kind);
                },
            }
        }
    }
}

/// A flow whose steps all succeed ends with every step done.
pub proof fn lemma_flow_completes(state: FlowState, outcomes: Seq<Result<(), ErrorKind>>)
    requires
        state.failure is None,
        state.done <= state.steps.len(),
        outcomes.len() >= state.steps.len() - state.done,
        forall|i: int| 0 <= i < state.steps.len() - state.done ==> outcomes[i] is Ok,
    ensures
        state.after(outcomes).finished(),
        state.after(outcomes).done == state.steps.len(),
        state.after(outcomes).steps == state.steps,
    decreases outcomes.len(),
{
    if outcomes.len() > 0 {
        let next = state.advance(outcomes.first());
        let rest = outcomes.drop_first();
        if state.done < state.steps.len() {
            assert(outcomes[0] is Ok);
            assert forall|i: int| 0 <= i < next.steps.len() - next.done implies rest[i] is Ok by {
                assert(rest[i] == outcomes[i + 1]);
            }
        }
        lemma_flow_completes(next, rest);
    }
}

/// A flow that has ended stays as it is, whatever is reported.
pub proof fn lemma_flow_ended_stays(state: FlowState, outcomes: Seq<Result<(), ErrorKind>>)
    requires
        state.current() is None,
    ensures
        state.after(outcomes) == state,
    decreases outcomes.len(),
{
    if outcomes.len() > 0 {
        lemma_flow_ended_stays(state, outcomes.drop_first());
    }
}

/// A flow whose first failure comes at its step `failing`, counted from
/// the step that is due, ends there: exactly the steps before it are done,
/// no later step is ever due, and the failure's category is kept.
pub proof fn lemma_flow_aborts(
    state: FlowState,
    outcomes: Seq<Result<(), ErrorKind>>,
    failing: nat,
    kind: ErrorKind,
)
    requires
        state.failure is None,
        state.done + failing < state.steps.len(),
        failing < outcomes.len(),
        forall|i: int| 0 <= i < failing ==> outcomes[i] is Ok,
        outcomes[failing as int] == Err::<(), ErrorKind>(kind),
    ensures
        state.after(outcomes).failure == Some(kind),
        state.after(outcomes).done == state.done + failing,
        state.after(outcomes).current() is None,
        !state.after(outcomes).finished(),
    decreases failing,
{
    let next = state.advance(outcomes.first());
    let rest = outcomes.drop_first();
    if failing == 0 {
        lemma_flow_ended_stays(next, rest);
    } else {
        assert(outcomes[0] is Ok);
        assert forall|i: int| 0 <= i < failing - 1 implies rest[i] is Ok by {
            assert(rest[i] == outcomes[i + 1]);
        }
        assert(rest[failing - 1] == outcomes[failing as int]);
        lemma_flow_aborts(next, rest, (failing - 1) as nat, kind);
    }
}

/// A step is due only after every step before it has succeeded: while no
/// step has failed, as many steps are done as outcomes were reported, and
/// each of those outcomes was a success.
pub proof fn lemma_flow_in_order(steps: Seq<Step>, outcomes: Seq<Result<(), ErrorKind>>)
    requires
        outcomes.len() <= steps.len(),
        FlowState::start(steps).after(outcomes).failure is None,
    ensures
        FlowState::start(steps).after(outcomes).done == outcomes.len(),
        forall|i: int| 0 <= i < outcomes.len() ==> outcomes[i] is Ok,
{
    lemma_flow_progress(FlowState::start(steps), outcomes);
}

/// The general form of `lemma_flow_in_order`, from any state without a
/// failure.
pub proof fn lemma_flow_progress(state: FlowState, outcomes: Seq<Result<(), ErrorKind>>)
    requires
        state.failure is None,
        state.done + outcomes.len() <= state.steps.len(),
        state.after(outcomes).failure is None,
    ensures
        state.after(outcomes).done == state.done + outcomes.len(),
        forall|i: int| 0 <= i < outcomes.len() ==> outcomes[i] is Ok,
    decreases outcomes.len(),
{
    if outcomes.len() > 0 {
        let next = state.advance(outcomes.first());
        let rest = outcomes.drop_first();
        if outcomes.first() is Err {
            lemma_flow_ended_stays(next, rest);
        } else {
            lemma_flow_progress(next, rest);
            assert forall|i: int| 0 <= i < outcomes.len() implies outcomes[i] is Ok by {
                if i > 0 {
                    assert(rest[i - 1] == outcomes[i]);
                }
            }
        }
    }
}

} // verus!
