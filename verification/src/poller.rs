use vstd::prelude::*;

verus! {

/// Probes that a wait for an API server may spend.
pub const REACHABLE_ATTEMPTS: u32 = 300;

/// Queries that a wait for the node's registration may spend.
pub const REGISTERED_ATTEMPTS: u32 = 30;

/// Rounds of reachability that make an API server count as stable.
pub const STABLE_CONFIRMATIONS: u32 = 10;

/// Seconds between a failed probe and the next, and between two rounds.
pub const INTERVAL_SECONDS: u64 = 1;

/// Where a wait stands.
#[derive(Clone, Copy, Debug, PartialEq, Eq, Structural)]
pub enum Status {
    /// The next thing to do is a probe.
    Probing,
    /// The next thing to do is to let the interval pass.
    Waiting,
    /// The wait ended well.
    Succeeded,
    /// The wait ended because its attempts ran out.
    TimedOut,
}

/// What the caller of a wait is to do next.
#[derive(Clone, Copy, Debug, PartialEq, Eq, Structural)]
pub enum Directive {
    /// Probe once and report the outcome.
    Probe,
    /// Sleep for this many seconds and report that it was done.
    Sleep(u64),
    /// Stop: the wait has ended, well or not.
    Finish(bool),
}

/// What the caller of a wait reports back.
#[derive(Clone, Copy, Debug, PartialEq, Eq, Structural)]
pub enum Report {
    /// A probe was made; it succeeded or failed.
    Probed(bool),
    /// The interval has passed.
    Slept,
}

/// The directive that belongs to a status.
pub open spec fn directive_of(status: Status) -> Directive {
    match status {
        Status::Probing => Directive::Probe,
        Status::Waiting => Directive::Sleep(INTERVAL_SECONDS),
        Status::Succeeded => Directive::Finish(true),
        Status::TimedOut => Directive::Finish(false),
    }
}

/// A wait for one success among a bounded number of probes, as contracts
/// speak of it.
pub struct PollState {
    pub max_attempts: nat,
    pub attempts: nat,
    pub status: Status,
}

impl PollState {
    /// The wait before its first probe.
    pub open spec fn start(max_attempts: nat) -> PollState {
        PollState {
            max_attempts,
            attempts: 0,
            status: if max_attempts == 0 {
                Status::TimedOut
            } else {
                Status::Probing
            },
        }
    }

    /// The wait after one report. A report that does not answer the current
    /// directive changes nothing.
    pub open spec fn step(self, report: Report) -> PollState {
        match (self.status, report) {
            (Status::Probing, Report::Probed(true)) => PollState {
                attempts: self.attempts + 1,
                status: Status::Succeeded,
                ..self
            },
            (Status::Probing, Report::Probed(false)) => PollState {
                attempts: self.attempts + 1,
                status: if self.attempts + 1 >= self.max_attempts {
                    Status::TimedOut
                } else {
                    Status::Waiting
                },
                ..self
            },
            (Status::Waiting, Report::Slept) => PollState { status: Status::Probing, ..self },
            _ => self,
        }
    }

    /// The wait after a series of probes, given by their outcomes in order,
    /// where the caller lets the interval pass whenever it is told to.
    pub open spec fn after_probes(self, outcomes: Seq<bool>) -> PollState
        decreases outcomes.len(),
    {
        if outcomes.len() == 0 {
            self
        } else {
            let probed = self.step(Report::Probed(outcomes.first()));
            probed.step(Report::Slept).after_probes(outcomes.drop_first())
        }
    }

    /// What holds of every state that a wait can reach.
    pub open spec fn well_formed(self) -> bool {
        &&& self.attempts <= self.max_attempts
        &&& self.status == Status::TimedOut ==> self.attempts == self.max_attempts
        &&& self.status == Status::Succeeded ==> self.attempts >= 1
        &&& (self.status == Status::Probing || self.status == Status::Waiting) ==> self.attempts
            < self.max_attempts
    }
}

/// A wait for one success among a bounded number of probes.
#[derive(Clone, Copy)]
pub struct Poll {
    max_attempts: u32,
    attempts: u32,
    status: Status,
}

impl View for Poll {
    type V = PollState;

    closed spec fn view(&self) -> PollState {
        PollState {
            max_attempts: self.max_attempts as nat,
            attempts: self.attempts as nat,
            status: self.status,
        }
    }
}

impl Poll {
    #[verifier::type_invariant]
    spec fn well_formed(&self) -> bool {
        self@.well_formed()
    }

    /// A wait that may spend `max_attempts` probes.
    pub fn new(max_attempts: u32) -> (poll: Poll)
        ensures
            poll@ == PollState::start(max_attempts as nat),
            poll@.well_formed(),
    {
        Poll {
            max_attempts,
            attempts: 0,
            status: if max_attempts == 0 {
                Status::TimedOut
            } else {
                Status::Probing
            },
        }
    }

    /// What to do next.
    pub fn directive(&self) -> (directive: Directive)
        ensures
            directive == directive_of(self@.status),
    {
        match self.status {
            Status::Probing => Directive::Probe,
            Status::Waiting => Directive::Sleep(INTERVAL_SECONDS),
            Status::Succeeded => Directive::Finish(true),
            Status::TimedOut => Directive::Finish(false),
        }
    }

    /// Where the wait stands.
    pub fn status(&self) -> (status: Status)
        ensures
            status == self@.status,
    {
        self.status
    }

    /// The number of probes that the wait may spend.
    pub fn max_attempts(&self) -> (max_attempts: u32)
        ensures
            max_attempts == self@.max_attempts,
    {
        self.max_attempts
    }

    /// The number of probes made so far.
    pub fn attempts(&self) -> (attempts: u32)
        ensures
            attempts == self@.attempts,
    {
        self.attempts
    }

    /// Takes the caller's report and says what to do next.
    pub fn step(&mut self, report: Report) -> (directive: Directive)
        ensures
            old(self)@.well_formed(),
            final(self)@ == old(self)@.step(report),
            final(self)@.well_formed(),
            directive == directive_of(final(self)@.status),
    {
        proof {
            use_type_invariant(&*self);
        }
        let max_attempts = self.max_attempts;
        let attempts = self.attempts;
        match (self.status, report) {
            (Status::Probing, Report::Probed(true)) => {
                *self = Poll { max_attempts, attempts: attempts + 1, status: Status::Succeeded };
            },
            (Status::Probing, Report::Probed(false)) => {
                let status = if attempts + 1 >= max_attempts {
                    Status::TimedOut
                } else {
                    Status::Waiting
                };
                *self = Poll { max_attempts, attempts: attempts + 1, status };
            },
            (Status::Waiting, Report::Slept) => {
                *self = Poll { max_attempts, attempts, status: Status::Probing };
            },
            _ => {},
        }
        self.directive()
    }
}

/// A report leaves a well-formed wait well formed.
pub proof fn lemma_step_well_formed(state: PollState, report: Report)
    requires
        state.well_formed(),
    ensures
        state.step(report).well_formed(),
        state.step(report).max_attempts == state.max_attempts,
{
}

/// A wait that has ended stays as it is, whatever is reported.
pub proof fn lemma_ended_stays(state: PollState, outcomes: Seq<bool>)
    requires
        state.status == Status::Succeeded || state.status == Status::TimedOut,
    ensures
        state.after_probes(outcomes) == state,
    decreases outcomes.len(),
{
    if outcomes.len() > 0 {
        lemma_ended_stays(state, outcomes.drop_first());
    }
}

/// Probes that fail `failures` times and then succeed, with fewer failures
/// than the wait has attempts, end the wait well after exactly
/// `failures + 1` probes, whatever follows.
pub proof fn lemma_reachable_after_failures(state: PollState, outcomes: Seq<bool>, failures: nat)
    requires
        state.well_formed(),
        state.status == Status::Probing,
        state.attempts + failures < state.max_attempts,
        failures < outcomes.len(),
        forall|i: int| 0 <= i < failures ==> !outcomes[i],
        outcomes[failures as int],
    ensures
        state.after_probes(outcomes).status == Status::Succeeded,
        state.after_probes(outcomes).attempts == state.attempts + failures + 1,
    decreases failures,
{
    let rest = outcomes.drop_first();
    let next = state.step(Report::Probed(outcomes.first())).step(Report::Slept);
    if failures == 0 {
        lemma_ended_stays(next, rest);
    } else {
        assert(!outcomes[0]);
        assert forall|i: int| 0 <= i < failures - 1 implies !rest[i] by {
            assert(rest[i] == outcomes[i + 1]);
        }
        assert(rest[failures - 1] == outcomes[failures as int]);
        lemma_reachable_after_failures(next, rest, (failures - 1) as nat);
    }
}

/// Probes that keep failing end the wait with a timeout after exactly as
/// many probes as it has attempts, whatever follows.
pub proof fn lemma_timeout_after_failures(state: PollState, outcomes: Seq<bool>)
    requires
        state.well_formed(),
        state.status == Status::Probing,
        outcomes.len() >= state.max_attempts - state.attempts,
        forall|i: int| 0 <= i < state.max_attempts - state.attempts ==> !outcomes[i],
    ensures
        state.after_probes(outcomes).status == Status::TimedOut,
        state.after_probes(outcomes).attempts == state.max_attempts,
    decreases state.max_attempts - state.attempts,
{
    let rest = outcomes.drop_first();
    assert(!outcomes[0]);
    let next = state.step(Report::Probed(outcomes.first())).step(Report::Slept);
    if next.status == Status::TimedOut {
        lemma_ended_stays(next, rest);
    } else {
        assert forall|i: int| 0 <= i < next.max_attempts - next.attempts implies !rest[i] by {
            assert(rest[i] == outcomes[i + 1]);
        }
        lemma_timeout_after_failures(next, rest);
    }
}

/// A wait for an API server: `failures` failed probes, fewer than 300,
/// followed by a success end it well after exactly `failures + 1` probes.
pub proof fn lemma_wait_until_reachable_succeeds(outcomes: Seq<bool>, failures: nat)
    requires
        failures < 300,
        failures < outcomes.len(),
        forall|i: int| 0 <= i < failures ==> !outcomes[i],
        outcomes[failures as int],
    ensures
        PollState::start(REACHABLE_ATTEMPTS as nat).after_probes(outcomes).status
            == Status::Succeeded,
        PollState::start(REACHABLE_ATTEMPTS as nat).after_probes(outcomes).attempts == failures
            + 1,
{
    lemma_reachable_after_failures(PollState::start(REACHABLE_ATTEMPTS as nat), outcomes, failures);
}

/// A wait for an API server whose probes all fail ends with a timeout after
/// exactly 300 probes.
pub proof fn lemma_wait_until_reachable_times_out(outcomes: Seq<bool>)
    requires
        outcomes.len() >= 300,
        forall|i: int| 0 <= i < 300 ==> !outcomes[i],
    ensures
        PollState::start(REACHABLE_ATTEMPTS as nat).after_probes(outcomes).status
            == Status::TimedOut,
        PollState::start(REACHABLE_ATTEMPTS as nat).after_probes(outcomes).attempts == 300,
{
    lemma_timeout_after_failures(PollState::start(REACHABLE_ATTEMPTS as nat), outcomes);
}

/// A wait for a number of reachability confirmations in a row of rounds, as
/// contracts speak of it. Each round is a wait of its own with its own
/// attempts; the first round that times out fails the whole.
pub struct StabilityState {
    pub required: nat,
    pub confirmed: nat,
    pub round: PollState,
}

impl StabilityState {
    /// The wait before its first probe.
    pub open spec fn start(required: nat, max_attempts: nat) -> StabilityState {
        StabilityState { required, confirmed: 0, round: PollState::start(max_attempts) }
    }

    /// Where the wait stands: it has ended well once every required round is
    /// confirmed; it has failed once a round timed out; between two rounds
    /// the interval passes.
    pub open spec fn status(self) -> Status {
        if self.confirmed >= self.required {
            Status::Succeeded
        } else {
            match self.round.status {
                Status::Probing => Status::Probing,
                Status::Waiting => Status::Waiting,
                Status::Succeeded => Status::Waiting,
                Status::TimedOut => Status::TimedOut,
            }
        }
    }

    /// The wait after one report. A report that does not answer the current
    /// directive changes nothing.
    pub open spec fn step(self, report: Report) -> StabilityState {
        match (self.status(), report) {
            (Status::Probing, Report::Probed(outcome)) => {
                let round = self.round.step(report);
                StabilityState {
                    confirmed: if round.status == Status::Succeeded {
                        self.confirmed + 1
                    } else {
                        self.confirmed
                    },
                    round,
                    ..self
                }
            },
            (Status::Waiting, Report::Slept) => StabilityState {
                round: if self.round.status == Status::Succeeded {
                    PollState::start(self.round.max_attempts)
                } else {
                    self.round.step(report)
                },
                ..self
            },
            _ => self,
        }
    }

    /// The wait after a series of probes, given by their outcomes in order,
    /// where the caller lets the interval pass whenever it is told to.
    pub open spec fn after_probes(self, outcomes: Seq<bool>) -> StabilityState
        decreases outcomes.len(),
    {
        if outcomes.len() == 0 {
            self
        } else {
            let probed = self.step(Report::Probed(outcomes.first()));
            probed.step(Report::Slept).after_probes(outcomes.drop_first())
        }
    }

    /// What holds of every state that a wait can reach.
    pub open spec fn well_formed(self) -> bool {
        &&& self.round.well_formed()
        &&& self.confirmed <= self.required
        &&& self.confirmed == 0 ==> self.round.status != Status::Succeeded
    }
}

/// A wait for a number of reachability confirmations in a row of rounds.
pub struct StabilityPoll {
    required: u32,
    confirmed: u32,
    round: Poll,
}

impl View for StabilityPoll {
    type V = StabilityState;

    closed spec fn view(&self) -> StabilityState {
        StabilityState {
            required: self.required as nat,
            confirmed: self.confirmed as nat,
            round: self.round@,
        }
    }
}

impl StabilityPoll {
    #[verifier::type_invariant]
    spec fn well_formed(&self) -> bool {
        self@.well_formed()
    }

    /// A wait for `required` rounds of at most `max_attempts` probes each.
    pub fn new(required: u32, max_attempts: u32) -> (poll: StabilityPoll)
        ensures
            poll@ == StabilityState::start(required as nat, max_attempts as nat),
            poll@.well_formed(),
    {
        StabilityPoll { required, confirmed: 0, round: Poll::new(max_attempts) }
    }

    /// Where the wait stands.
    pub fn status(&self) -> (status: Status)
        ensures
            status == self@.status(),
    {
        if self.confirmed >= self.required {
            Status::Succeeded
        } else {
            match self.round.status() {
                Status::Probing => Status::Probing,
                Status::Waiting => Status::Waiting,
                Status::Succeeded => Status::Waiting,
                Status::TimedOut => Status::TimedOut,
            }
        }
    }

    /// The number of rounds confirmed so far.
    pub fn confirmed(&self) -> (confirmed: u32)
        ensures
            confirmed == self@.confirmed,
    {
        self.confirmed
    }

    /// What to do next.
    pub fn directive(&self) -> (directive: Directive)
        ensures
            directive == directive_of(self@.status()),
    {
        match self.status() {
            Status::Probing => Directive::Probe,
            Status::Waiting => Directive::Sleep(INTERVAL_SECONDS),
            Status::Succeeded => Directive::Finish(true),
            Status::TimedOut => Directive::Finish(false),
        }
    }

    /// Takes the caller's report and says what to do next.
    pub fn step(&mut self, report: Report) -> (directive: Directive)
        ensures
            old(self)@.well_formed(),
            final(self)@ == old(self)@.step(report),
            final(self)@.well_formed(),
            directive == directive_of(final(self)@.status()),
    {
        proof {
            use_type_invariant(&*self);
        }
        let required = self.required;
        let confirmed = self.confirmed;
        let status = self.status();
        let mut round = self.round;
        match (status, report) {
            (Status::Probing, Report::Probed(_)) => {
                round.step(report);
                let confirmed = if round.status() == Status::Succeeded {
                    confirmed + 1
                } else {
                    confirmed
                };
                *self = StabilityPoll { required, confirmed, round };
            },
            (Status::Waiting, Report::Slept) => {
                if round.status() == Status::Succeeded {
                    let fresh = Poll::new(round.max_attempts());
                    *self = StabilityPoll { required, confirmed, round: fresh };
                } else {
                    round.step(report);
                    *self = StabilityPoll { required, confirmed, round };
                }
            },
            _ => {},
        }
        self.directive()
    }
}

/// A report leaves a well-formed wait well formed; the rounds it asks for
/// and the attempts of each stay the same, and no confirmation is lost.
pub proof fn lemma_stability_step_well_formed(state: StabilityState, report: Report)
    requires
        state.well_formed(),
    ensures
        state.step(report).well_formed(),
        state.step(report).required == state.required,
        state.step(report).round.max_attempts == state.round.max_attempts,
        state.step(report).confirmed >= state.confirmed,
{
}

/// A wait reports success only with every required round confirmed.
pub proof fn lemma_success_needs_every_confirmation(state: StabilityState)
    requires
        state.well_formed(),
        state.status() == Status::Succeeded,
    ensures
        state.confirmed == state.required,
{
}

/// The number of probes among `outcomes` that succeeded.
pub open spec fn successes(outcomes: Seq<bool>) -> nat
    decreases outcomes.len(),
{
    if outcomes.len() == 0 {
        0
    } else {
        (if outcomes.first() {
            1nat
        } else {
            0nat
        }) + successes(outcomes.drop_first())
    }
}

/// Every confirmation is earned by a probe that succeeded: whatever the
/// probes' outcomes, no more rounds are confirmed than probes succeeded,
/// and the wait stays well formed and asks for as many rounds as before.
pub proof fn lemma_confirmations_are_earned(state: StabilityState, outcomes: Seq<bool>)
    requires
        state.well_formed(),
    ensures
        state.after_probes(outcomes).well_formed(),
        state.after_probes(outcomes).required == state.required,
        state.after_probes(outcomes).confirmed <= state.confirmed + successes(outcomes),
    decreases outcomes.len(),
{
    if outcomes.len() > 0 {
        let probed = state.step(Report::Probed(outcomes.first()));
        lemma_stability_step_well_formed(state, Report::Probed(outcomes.first()));
        lemma_stability_step_well_formed(probed, Report::Slept);
        lemma_confirmations_are_earned(probed.step(Report::Slept), outcomes.drop_first());
    }
}

/// A wait for a stable API server never reports success early: whatever
/// the probes' outcomes, success means that all ten rounds are confirmed,
/// and that at least ten probes succeeded.
pub proof fn lemma_wait_until_stable_needs_ten(outcomes: Seq<bool>)
    requires
        StabilityState::start(STABLE_CONFIRMATIONS as nat, REACHABLE_ATTEMPTS as nat).after_probes(
            outcomes,
        ).status() == Status::Succeeded,
    ensures
        StabilityState::start(STABLE_CONFIRMATIONS as nat, REACHABLE_ATTEMPTS as nat).after_probes(
            outcomes,
        ).confirmed == 10,
        successes(outcomes) >= 10,
{
    lemma_confirmations_are_earned(
        StabilityState::start(STABLE_CONFIRMATIONS as nat, REACHABLE_ATTEMPTS as nat),
        outcomes,
    );
}

/// A wait that has ended stays as it is, whatever is reported.
pub proof fn lemma_stability_ended_stays(state: StabilityState, outcomes: Seq<bool>)
    requires
        state.status() == Status::Succeeded || state.status() == Status::TimedOut,
    ensures
        state.after_probes(outcomes) == state,
    decreases outcomes.len(),
{
    if outcomes.len() > 0 {
        lemma_stability_ended_stays(state, outcomes.drop_first());
    }
}

/// While a round is under way and its probes keep failing until its
/// attempts are spent, the whole wait fails with what was confirmed before,
/// whatever follows.
pub proof fn lemma_round_timeout_fails(state: StabilityState, outcomes: Seq<bool>)
    requires
        state.well_formed(),
        state.status() == Status::Probing,
        outcomes.len() >= state.round.max_attempts - state.round.attempts,
        forall|i: int| 0 <= i < state.round.max_attempts - state.round.attempts ==> !outcomes[i],
    ensures
        state.after_probes(outcomes).status() == Status::TimedOut,
        state.after_probes(outcomes).confirmed == state.confirmed,
        state.after_probes(outcomes).required == state.required,
    decreases state.round.max_attempts - state.round.attempts,
{
    let rest = outcomes.drop_first();
    assert(!outcomes[0]);
    let next = state.step(Report::Probed(outcomes.first())).step(Report::Slept);
    if next.status() == Status::TimedOut {
        lemma_stability_ended_stays(next, rest);
    } else {
        assert forall|i: int| 0 <= i < next.round.max_attempts - next.round.attempts implies !rest[i] by {
            assert(rest[i] == outcomes[i + 1]);
        }
        lemma_round_timeout_fails(next, rest);
    }
}

/// Rounds that are confirmed by their first probe, `rounds` of them and
/// fewer than required, followed by a round whose probes all fail: the wait
/// fails with exactly `rounds` confirmations, and never reports success.
pub proof fn lemma_unstable_when_round_fails(
    state: StabilityState,
    outcomes: Seq<bool>,
    rounds: nat,
)
    requires
        state.well_formed(),
        state.status() == Status::Probing,
        state.round.attempts == 0,
        state.confirmed + rounds < state.required,
        outcomes.len() >= rounds + state.round.max_attempts,
        forall|i: int| 0 <= i < rounds ==> outcomes[i],
        forall|i: int| rounds <= i < rounds + state.round.max_attempts ==> !outcomes[i],
    ensures
        state.after_probes(outcomes).status() == Status::TimedOut,
        state.after_probes(outcomes).confirmed == state.confirmed + rounds,
        state.after_probes(outcomes).status() != Status::Succeeded,
    decreases rounds,
{
    if rounds == 0 {
        lemma_round_timeout_fails(state, outcomes);
    } else {
        let rest = outcomes.drop_first();
        assert(outcomes[0]);
        let next = state.step(Report::Probed(outcomes.first())).step(Report::Slept);
        assert forall|i: int| 0 <= i < rounds - 1 implies rest[i] by {
            assert(rest[i] == outcomes[i + 1]);
        }
        assert forall|i: int| rounds - 1 <= i < rounds - 1 + next.round.max_attempts implies !rest[i] by {
            assert(rest[i] == outcomes[i + 1]);
        }
        lemma_unstable_when_round_fails(next, rest, (rounds - 1) as nat);
    }
}

/// A wait for a stable API server, ten rounds of up to 300 probes: where
/// `rounds` rounds, fewer than ten, are confirmed and the next one fails,
/// the wait reports failure.
pub proof fn lemma_wait_until_stable_fails(outcomes: Seq<bool>, rounds: nat)
    requires
        rounds < 10,
        outcomes.len() >= rounds + 300,
        forall|i: int| 0 <= i < rounds ==> outcomes[i],
        forall|i: int| rounds <= i < rounds + 300 ==> !outcomes[i],
    ensures
        StabilityState::start(STABLE_CONFIRMATIONS as nat, REACHABLE_ATTEMPTS as nat).after_probes(
            outcomes,
        ).status() == Status::TimedOut,
        StabilityState::start(STABLE_CONFIRMATIONS as nat, REACHABLE_ATTEMPTS as nat).after_probes(
            outcomes,
        ).confirmed == rounds,
{
    lemma_unstable_when_round_fails(
        StabilityState::start(STABLE_CONFIRMATIONS as nat, REACHABLE_ATTEMPTS as nat),
        outcomes,
        rounds,
    );
}

} // verus!
