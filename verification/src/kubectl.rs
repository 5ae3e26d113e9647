use crate::error::ErrorKind;
use crate::k8s::{K8s, KubeconfigType};
use crate::text::{chain, push_text, texts};
use vstd::prelude::*;

verus! {

/// The cluster's command line tool, run with the kubeconfig of a `K8s`.
pub struct Kubectl<'a> {
    k8s: &'a K8s<'a>,
}

#[derive(Clone, Copy, Debug, PartialEq, Eq, Structural)]
pub enum KubectlError {
    UnknownError,
}

impl KubectlError {
    /// The category that a run reports.
    pub fn kind(&self) -> (kind: ErrorKind)
        ensures
            kind == ErrorKind::ManifestApply,
    {
        ErrorKind::ManifestApply
    }
}

/// A command ready to be run: the program, its arguments, and what it is
/// given on its standard input, if anything.
pub struct Invocation {
    pub program: String,
    pub args: Vec<String>,
    pub stdin: Option<String>,
}

/// A command ready to be run, as contracts speak of it.
pub struct Command {
    pub program: Seq<char>,
    pub args: Seq<Seq<char>>,
    pub stdin: Option<Seq<char>>,
}

impl View for Invocation {
    type V = Command;

    open spec fn view(&self) -> Command {
        Command {
            program: self.program@,
            args: texts(self.args@),
            stdin: match self.stdin {
                Some(text) => Some(text@),
                None => None,
            },
        }
    }
}

/// The command that runs the tool with `args` against the kubeconfig at
/// `kubeconfig`: the kubeconfig comes first, the arguments follow in their
/// order.
pub open spec fn kubectl_command(
    kubeconfig: Seq<char>,
    args: Seq<Seq<char>>,
    stdin: Option<Seq<char>>,
) -> Command {
    Command { program: "kubectl"@, args: seq!["--kubeconfig="@ + kubeconfig] + args, stdin }
}

impl<'a> Kubectl<'a> {
    pub fn new(k8s: &'a K8s<'a>) -> (kubectl: Kubectl<'a>)
        ensures
            kubectl.k8s() == k8s,
    {
        Kubectl { k8s }
    }

    /// Whose kubeconfig the tool is run with.
    pub closed spec fn k8s(&self) -> &K8s<'a> {
        self.k8s
    }

    /// The command that runs the tool with `args`, against the kubeconfig
    /// of the given type or, without one, of the phase.
    pub fn command(
        &self,
        args: &Vec<&str>,
        stdin: Option<&str>,
        kubeconfig_type: Option<&KubeconfigType>,
    ) -> (invocation: Invocation)
        ensures
            invocation@ == kubectl_command(
                self.k8s().kubeconfig_path_of(kubeconfig_type),
                Seq::new(args@.len(), |i: int| args@[i]@),
                match stdin {
                    Some(text) => Some(text@),
                    None => None,
                },
            ),
    {
        let path = self.k8s.kubeconfig_path(kubeconfig_type);
        let mut all: Vec<String> = Vec::new();
        let first = chain("--kubeconfig=", path.as_str());
        push_text(&mut all, first.as_str());
        let mut i: usize = 0;
        while i < args.len()
            invariant
                i <= args.len(),
                texts(all@) == seq!["--kubeconfig="@ + path@] + Seq::new(
                    i as nat,
                    |j: int| args@[j]@,
                ),
            decreases args.len() - i,
        {
            let ghost before = texts(all@);
            push_text(&mut all, args[i]);
            i += 1;
            assert(texts(all@) =~= seq!["--kubeconfig="@ + path@] + Seq::new(
                i as nat,
                |j: int| args@[j]@,
            ));
        }
        assert(Seq::new(i as nat, |j: int| args@[j]@) =~= Seq::new(
            args@.len(),
            |j: int| args@[j]@,
        ));
        let stdin = match stdin {
            Some(text) => Some(text.to_owned()),
            None => None,
        };
        Invocation { program: "kubectl".to_owned(), args: all, stdin }
    }

    /// What a run of the tool amounts to, given whether it exited with
    /// success.
    pub fn outcome(succeeded: bool) -> (done: Result<(), KubectlError>)
        ensures
            succeeded <==> done is Ok,
    {
        if succeeded {
            Ok(())
        } else {
            Err(KubectlError::UnknownError)
        }
    }
}

} // verus!
