use crate::error::ErrorKind;
use vstd::prelude::*;

verus! {

/// The service manager of the host, reached over the system bus.
pub struct Systemd {}

#[derive(Clone, Copy, Debug, PartialEq, Eq, Structural)]
pub enum SystemdError {
    UnknownError,
}

impl SystemdError {
    /// The category that a run reports.
    pub fn kind(&self) -> (kind: ErrorKind)
        ensures
            kind == ErrorKind::ServiceManagement,
    {
        ErrorKind::ServiceManagement
    }
}

/// Milliseconds to wait for the service manager's reply.
pub const REPLY_TIMEOUT_MS: i32 = 2000;

/// What the service manager is asked to do with a unit.
#[derive(Clone, Copy, Debug, PartialEq, Eq, Structural)]
pub enum Operation {
    /// `StartUnit` with the unit and the mode `replace`.
    Start,
    /// `EnableUnitFiles` with the unit alone, not for this boot only, and
    /// replacing links that are in the way.
    Enable,
    /// `RestartUnit` with the unit and the mode `replace`.
    Restart,
}

/// A method call on the service manager, ready to be sent.
pub struct MethodCall {
    pub destination: String,
    pub path: String,
    pub interface: String,
    pub member: String,
    pub operation: Operation,
    pub unit: String,
    pub timeout_ms: i32,
}

/// The name of the method that carries out an operation.
pub open spec fn member_of(operation: Operation) -> Seq<char> {
    match operation {
        Operation::Start => "StartUnit"@,
        Operation::Enable => "EnableUnitFiles"@,
        Operation::Restart => "RestartUnit"@,
    }
}

impl MethodCall {
    /// Whether the call asks the service manager for `operation` on `unit`.
    pub open spec fn requests(&self, operation: Operation, unit: Seq<char>) -> bool {
        &&& self.destination@ == "org.freedesktop.systemd1"@
        &&& self.path@ == "/org/freedesktop/systemd1"@
        &&& self.interface@ == "org.freedesktop.systemd1.Manager"@
        &&& self.member@ == member_of(operation)
        &&& self.operation == operation
        &&& self.unit@ == unit
        &&& self.timeout_ms == REPLY_TIMEOUT_MS
    }

    /// The mode argument, which `StartUnit` and `RestartUnit` take.
    pub fn mode(&self) -> (mode: Option<&'static str>)
        ensures
            self.operation == Operation::Enable <==> mode is None,
            mode matches Some(text) ==> text@ == "replace"@,
    {
        match self.operation {
            Operation::Enable => None,
            _ => Some("replace"),
        }
    }
}

impl Systemd {
    fn call(operation: Operation, service: &str) -> (call: MethodCall)
        ensures
            call.requests(operation, service@),
    {
        let member = match operation {
            Operation::Start => "StartUnit",
            Operation::Enable => "EnableUnitFiles",
            Operation::Restart => "RestartUnit",
        };
        MethodCall {
            destination: "org.freedesktop.systemd1".to_owned(),
            path: "/org/freedesktop/systemd1".to_owned(),
            interface: "org.freedesktop.systemd1.Manager".to_owned(),
            member: member.to_owned(),
            operation,
            unit: service.to_owned(),
            timeout_ms: REPLY_TIMEOUT_MS,
        }
    }

    /// The call that starts `service`.
    pub fn start(service: &str) -> (call: MethodCall)
        ensures
            call.requests(Operation::Start, service@),
    {
        Systemd::call(Operation::Start, service)
    }

    /// The call that enables `service`.
    pub fn enable(service: &str) -> (call: MethodCall)
        ensures
            call.requests(Operation::Enable, service@),
    {
        Systemd::call(Operation::Enable, service)
    }

    /// The call that restarts `service`.
    pub fn restart(service: &str) -> (call: MethodCall)
        ensures
            call.requests(Operation::Restart, service@),
    {
        Systemd::call(Operation::Restart, service)
    }

    /// What a call amounts to, given whether the service manager answered
    /// it without an error.
    pub fn outcome(answered: bool) -> (done: Result<(), SystemdError>)
        ensures
            answered <==> done is Ok,
    {
        if answered {
            Ok(())
        } else {
            Err(SystemdError::UnknownError)
        }
    }
}

} // verus!
