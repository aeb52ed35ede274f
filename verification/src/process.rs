//! What the engine asks the host to run, and what the host reports back.

use vstd::prelude::*;

verus! {

/// A command for the host to spawn: the program, its arguments and the
/// directory to run it in.
#[derive(Debug, PartialEq, Eq)]
pub struct Invocation {
    pub program: String,
    pub args: Vec<String>,
    pub working_dir: Option<String>,
}

/// The mathematical content of an [`Invocation`].
pub struct InvocationView {
    pub program: Seq<char>,
    pub args: Seq<Seq<char>>,
    pub working_dir: Option<Seq<char>>,
}

/// The texts of a list of strings.
pub open spec fn texts(items: Seq<String>) -> Seq<Seq<char>> {
    Seq::new(items.len(), |i: int| items[i]@)
}

/// The text of an optional string.
pub open spec fn optional_text(item: Option<String>) -> Option<Seq<char>> {
    match item {
        Some(s) => Some(s@),
        None => None,
    }
}

impl View for Invocation {
    type V = InvocationView;

    open spec fn view(&self) -> InvocationView {
        InvocationView {
            program: self.program@,
            args: texts(self.args@),
            working_dir: optional_text(self.working_dir),
        }
    }
}

/// How a spawned command ended, as the host saw it.
#[derive(Debug, PartialEq, Eq)]
pub enum ProcessOutcome {
    /// The program could not be started at all.
    SpawnFailed { detail: String },
    /// The program ran and exited.
    Exited { success: bool, detail: String, stdout: Vec<u8> },
}

/// The mathematical content of a [`ProcessOutcome`].
pub enum OutcomeView {
    SpawnFailed { detail: Seq<char> },
    Exited { success: bool, detail: Seq<char>, stdout: Seq<u8> },
}

impl View for ProcessOutcome {
    type V = OutcomeView;

    open spec fn view(&self) -> OutcomeView {
        match *self {
            ProcessOutcome::SpawnFailed { detail } => OutcomeView::SpawnFailed { detail: detail@ },
            ProcessOutcome::Exited { success, detail, stdout } => OutcomeView::Exited {
                success,
                detail: detail@,
                stdout: stdout@,
            },
        }
    }
}

impl Invocation {
    /// A copy of the command.
    pub fn duplicate(&self) -> (copy: Invocation)
        ensures
            copy@ == self@,
    {
        let mut args: Vec<String> = Vec::new();
        let n: usize = self.args.len();
        let mut i: usize = 0;
        while i < n
            invariant
                n == self.args@.len(),
                i <= n,
                args@.len() == i,
                forall|k: int| 0 <= k < i ==> args@[k]@ == self.args@[k]@,
            decreases n - i,
        {
            args.push(self.args[i].clone());
            i += 1;
        }
        let working_dir = match &self.working_dir {
            Some(dir) => Some(dir.clone()),
            None => None,
        };
        let copy = Invocation { program: self.program.clone(), args, working_dir };
        assert(copy@.args =~= self@.args);
        copy
    }
}

impl OutcomeView {
    /// The program ran and reported success.
    pub open spec fn succeeded(self) -> bool {
        self matches OutcomeView::Exited { success, .. } && success
    }

    /// The host's words on how the program ended.
    pub open spec fn detail(self) -> Seq<char> {
        match self {
            OutcomeView::SpawnFailed { detail } => detail,
            OutcomeView::Exited { detail, .. } => detail,
        }
    }
}

impl ProcessOutcome {
    /// Whether the program ran and reported success.
    pub fn succeeded(&self) -> (yes: bool)
        ensures
            yes == self@.succeeded(),
    {
        match self {
            ProcessOutcome::SpawnFailed { .. } => false,
            ProcessOutcome::Exited { success, .. } => *success,
        }
    }

    /// The host's words on how the program ended.
    pub fn detail(&self) -> (text: &str)
        ensures
            text@ == self@.detail(),
    {
        match self {
            ProcessOutcome::SpawnFailed { detail } => detail.as_str(),
            ProcessOutcome::Exited { detail, .. } => detail.as_str(),
        }
    }
}

} // verus!
