//! A background task, as a state machine: the worker that runs it starts it,
//! runs each command that the task hands out, reports how the command ended,
//! and passes on what the task has to say.

use crate::channel::send;
use crate::descriptor::{
    curl, curl_spec, install_command_spec, launch_command, launch_command_spec,
    DependencyDescriptor, DependencyView, PayloadDescriptor, PayloadView,
};
use crate::process::{texts, Invocation, InvocationView, OutcomeView, ProcessOutcome};
use crate::text::{join3, join4};
use std::sync::mpsc::Sender;
use vstd::prelude::*;

verus! {

/// The corrective action that is under way, if any.
#[derive(Clone, Copy, Debug, PartialEq, Eq, Structural)]
pub enum InFlight {
    /// Nothing is under way.
    Idle,
    /// A download is in progress.
    Downloading,
    /// An install is in progress.
    Installing,
}

/// The work of a task.
#[derive(Debug, PartialEq, Eq)]
pub enum Job {
    /// Download one artifact.
    Fetch { name: String, download: Invocation },
    /// Download an installer, then run it.
    Install { name: String, download: Invocation, install: Invocation },
    /// Run the payload.
    Launch { name: String, run: Invocation },
}

/// The mathematical content of a [`Job`].
pub enum JobView {
    Fetch { name: Seq<char>, download: InvocationView },
    Install { name: Seq<char>, download: InvocationView, install: InvocationView },
    Launch { name: Seq<char>, run: InvocationView },
}

impl View for Job {
    type V = JobView;

    open spec fn view(&self) -> JobView {
        match *self {
            Job::Fetch { name, download } => JobView::Fetch { name: name@, download: download@ },
            Job::Install { name, download, install } => JobView::Install {
                name: name@,
                download: download@,
                install: install@,
            },
            Job::Launch { name, run } => JobView::Launch { name: name@, run: run@ },
        }
    }
}

impl JobView {
    /// What status messages call the artifact.
    pub open spec fn name(self) -> Seq<char> {
        match self {
            JobView::Fetch { name, .. } => name,
            JobView::Install { name, .. } => name,
            JobView::Launch { name, .. } => name,
        }
    }

    /// The command that the task runs first.
    pub open spec fn first_command(self) -> InvocationView {
        match self {
            JobView::Fetch { download, .. } => download,
            JobView::Install { download, .. } => download,
            JobView::Launch { run, .. } => run,
        }
    }
}

/// How far a task has come.
#[derive(Clone, Copy, Debug, PartialEq, Eq, Structural)]
pub enum TaskPhase {
    /// Not started.
    Pending,
    /// The download runs.
    Downloading,
    /// The installer runs.
    Installing,
    /// The payload runs.
    Launching,
    /// Nothing is left to do.
    Done,
}

/// A job and how far it has come.
#[derive(Debug, PartialEq, Eq)]
pub struct Task {
    pub job: Job,
    pub phase: TaskPhase,
}

/// The mathematical content of a [`Task`].
pub struct TaskView {
    pub job: JobView,
    pub phase: TaskPhase,
}

impl View for Task {
    type V = TaskView;

    open spec fn view(&self) -> TaskView {
        TaskView { job: self.job@, phase: self.phase }
    }
}

/// What happened to a task.
#[derive(Debug, PartialEq, Eq)]
pub enum TaskEvent {
    /// The worker took the task up.
    Start,
    /// The command that the task handed out has ended.
    Finished(ProcessOutcome),
}

/// The mathematical content of a [`TaskEvent`].
pub enum TaskEventView {
    Start,
    Finished(OutcomeView),
}

impl View for TaskEvent {
    type V = TaskEventView;

    open spec fn view(&self) -> TaskEventView {
        match *self {
            TaskEvent::Start => TaskEventView::Start,
            TaskEvent::Finished(outcome) => TaskEventView::Finished(outcome@),
        }
    }
}

/// What a task asks of its worker after an event.
#[derive(Debug, PartialEq, Eq)]
pub struct TaskStep {
    /// The status messages to send, in this order.
    pub reports: Vec<String>,
    /// The new value of the in-flight flag to send, if it changes.
    pub flag: Option<InFlight>,
    /// The command to run next; without one the worker is done.
    pub run: Option<Invocation>,
}

/// The mathematical content of a [`TaskStep`].
pub struct TaskStepView {
    pub reports: Seq<Seq<char>>,
    pub flag: Option<InFlight>,
    pub run: Option<InvocationView>,
}

impl View for TaskStep {
    type V = TaskStepView;

    open spec fn view(&self) -> TaskStepView {
        TaskStepView {
            reports: texts(self.reports@),
            flag: self.flag,
            run: match self.run {
                Some(inv) => Some(inv@),
                None => None,
            },
        }
    }
}

/// Sent when the download of `name` starts.
pub open spec fn downloading_message(name: Seq<char>) -> Seq<char> {
    "curling "@ + name + "..."@
}

/// Sent when `name` has arrived.
pub open spec fn downloaded_message(name: Seq<char>) -> Seq<char> {
    name + " has been succesffully curl'd"@
}

/// Sent when the download of `name` ended badly, or when the downloader
/// itself could not be started.
pub open spec fn download_failed_message(name: Seq<char>, outcome: OutcomeView) -> Seq<char> {
    match outcome {
        OutcomeView::SpawnFailed { detail } => "cannot fetch "@ + name + ": curl is missing: "@
            + detail,
        OutcomeView::Exited { detail, .. } => "failed to curl "@ + name + ": "@ + detail,
    }
}

/// Sent when the installer starts.
pub open spec fn installing_message() -> Seq<char> {
    "starting installer..."@
}

/// Sent when `name` has been installed.
pub open spec fn installed_message(name: Seq<char>) -> Seq<char> {
    name + " has been installed"@
}

/// Sent when the installer of `name` ended badly or could not be started.
pub open spec fn install_failed_message(name: Seq<char>, detail: Seq<char>) -> Seq<char> {
    "failed to install "@ + name + ": "@ + detail
}

/// Sent when `name` is started.
pub open spec fn launching_message(name: Seq<char>) -> Seq<char> {
    "starting "@ + name + "..."@
}

/// Sent when `name` has run and exited, or could not be started.
pub open spec fn launched_message(name: Seq<char>, outcome: OutcomeView) -> Seq<char> {
    match outcome {
        OutcomeView::SpawnFailed { detail } => "failed to start "@ + name + ": "@ + detail,
        OutcomeView::Exited { detail, .. } => name + " has exited: "@ + detail,
    }
}

/// The step that sends `report` and `flag` and then runs `run`.
pub open spec fn step_of(
    report: Seq<char>,
    flag: Option<InFlight>,
    run: Option<InvocationView>,
) -> TaskStepView {
    TaskStepView { reports: seq![report], flag, run }
}

/// The step that asks for nothing.
pub open spec fn no_step() -> TaskStepView {
    TaskStepView { reports: Seq::empty(), flag: None, run: None }
}

/// The task's transition function: the phase that `task` is in after `event`,
/// and what it asks of its worker.
///
/// A task that is started announces itself and hands out its first command.
/// When a download has ended well, the task says so; a fetch is then done,
/// and an install announces the installer, goes on to run it and says so on
/// the flag. When a command has ended badly or could not be started, the task
/// says so and is done: nothing is tried again. A task that ends a download or an install clears the flag. An event
/// that the phase does not wait for changes nothing and asks for nothing.
pub open spec fn advance_spec(task: TaskView, event: TaskEventView) -> (TaskPhase, TaskStepView) {
    let name = task.job.name();
    match (task.phase, event) {
        (TaskPhase::Pending, TaskEventView::Start) => match task.job {
            JobView::Launch { run, .. } => (
                TaskPhase::Launching,
                step_of(launching_message(name), None, Some(run)),
            ),
            _ => (
                TaskPhase::Downloading,
                step_of(downloading_message(name), None, Some(task.job.first_command())),
            ),
        },
        (TaskPhase::Downloading, TaskEventView::Finished(outcome)) => if !outcome.succeeded() {
            (
                TaskPhase::Done,
                step_of(download_failed_message(name, outcome), Some(InFlight::Idle), None),
            )
        } else {
            match task.job {
                JobView::Install { install, .. } => (
                    TaskPhase::Installing,
                    TaskStepView {
                        reports: seq![downloaded_message(name), installing_message()],
                        flag: Some(InFlight::Installing),
                        run: Some(install),
                    },
                ),
                _ => (
                    TaskPhase::Done,
                    step_of(downloaded_message(name), Some(InFlight::Idle), None),
                ),
            }
        },
        (TaskPhase::Installing, TaskEventView::Finished(outcome)) => (
            TaskPhase::Done,
            step_of(
                if outcome.succeeded() {
                    installed_message(name)
                } else {
                    install_failed_message(name, outcome.detail())
                },
                Some(InFlight::Idle),
                None,
            ),
        ),
        (TaskPhase::Launching, TaskEventView::Finished(outcome)) => (
            TaskPhase::Done,
            step_of(launched_message(name, outcome), None, None),
        ),
        _ => (task.phase, no_step()),
    }
}

/// The task that fetches `payload`.
pub open spec fn fetch_task(payload: PayloadView) -> TaskView {
    TaskView {
        job: JobView::Fetch {
            name: payload.name,
            download: curl_spec(payload.url, payload.directory),
        },
        phase: TaskPhase::Pending,
    }
}

/// The task that downloads the installer of `dependency` into `dir` and runs
/// it there.
pub open spec fn install_task(dependency: DependencyView, dir: Seq<char>) -> TaskView {
    TaskView {
        job: JobView::Install {
            name: dependency.name,
            download: curl_spec(dependency.url, dir),
            install: install_command_spec(dependency.kind, dependency.installer, dir),
        },
        phase: TaskPhase::Pending,
    }
}

/// The task that runs `payload` with the runtime of `dependency`.
pub open spec fn launch_task(dependency: DependencyView, payload: PayloadView) -> TaskView {
    TaskView {
        job: JobView::Launch {
            name: payload.name,
            run: launch_command_spec(dependency.binary, payload.directory, payload.file),
        },
        phase: TaskPhase::Pending,
    }
}

impl TaskPhase {
    /// The number of commands that a task in this phase may still hand out.
    pub open spec fn commands_left(self) -> nat {
        match self {
            TaskPhase::Pending => 2,
            TaskPhase::Downloading => 1,
            TaskPhase::Installing => 0,
            TaskPhase::Launching => 0,
            TaskPhase::Done => 0,
        }
    }
}

/// A task never tries again: each command that it hands out uses up one of
/// the at most two that it has, and a task that is done stays done and asks
/// for nothing.
pub proof fn lemma_task_runs_out(task: TaskView, event: TaskEventView)
    ensures
        advance_spec(task, event).1.run is Some ==> advance_spec(task, event).0.commands_left()
            < task.phase.commands_left(),
        task.phase == TaskPhase::Done ==> advance_spec(task, event) == (
            TaskPhase::Done,
            no_step(),
        ),
{
}

/// Every download ends in a message of its own, whatever the job: the first
/// thing that the task says when its download has ended is how it ended, and
/// only an install whose download went well has more to say and to run.
pub proof fn lemma_every_download_is_reported(task: TaskView, outcome: OutcomeView)
    requires
        task.phase == TaskPhase::Downloading,
    ensures
        ({
            let step = advance_spec(task, TaskEventView::Finished(outcome)).1;
            &&& step.reports.len() >= 1
            &&& step.reports[0] == if outcome.succeeded() {
                downloaded_message(task.job.name())
            } else {
                download_failed_message(task.job.name(), outcome)
            }
            &&& step.run is Some <==> outcome.succeeded() && task.job is Install
            &&& step.reports.len() == if step.run is Some {
                2nat
            } else {
                1nat
            }
        }),
{
}

/// A download or an install lowers the flag exactly when it is done, and a
/// launch never touches the flag.
pub proof fn lemma_flag_is_lowered_at_the_end(task: TaskView, event: TaskEventView)
    requires
        task.phase != TaskPhase::Done,
    ensures
        task.phase != TaskPhase::Launching ==> (advance_spec(task, event).1.flag == Some(
            InFlight::Idle,
        ) <==> advance_spec(task, event).0 == TaskPhase::Done),
        task.job is Launch && (task.phase == TaskPhase::Pending || task.phase
            == TaskPhase::Launching) ==> advance_spec(task, event).1.flag is None,
{
}

fn one(report: String) -> (reports: Vec<String>)
    ensures
        texts(reports@) == seq![report@],
{
    let mut reports: Vec<String> = Vec::new();
    reports.push(report);
    assert(texts(reports@) =~= seq![report@]);
    reports
}

fn two(first: String, second: String) -> (reports: Vec<String>)
    ensures
        texts(reports@) == seq![first@, second@],
{
    let mut reports: Vec<String> = Vec::new();
    reports.push(first);
    reports.push(second);
    assert(texts(reports@) =~= seq![first@, second@]);
    reports
}

fn silent() -> (step: TaskStep)
    ensures
        step@ == no_step(),
{
    let step = TaskStep { reports: Vec::new(), flag: None, run: None };
    assert(texts(step.reports@) =~= Seq::empty());
    step
}

impl TaskStep {
    /// Passes on what the task has to say, the status messages first, in
    /// their order, and the flag after them, and returns the command to run
    /// next. Whether anybody still listens does not matter.
    pub fn deliver(self, status: &Sender<String>, flag: &Sender<InFlight>) -> (run: Option<
        Invocation,
    >)
        ensures
            run == self.run,
    {
        let n: usize = self.reports.len();
        let mut i: usize = 0;
        while i < n
            invariant
                n == self.reports@.len(),
                i <= n,
            decreases n - i,
        {
            send(status, self.reports[i].clone());
            i += 1;
        }
        match self.flag {
            Some(value) => {
                send(flag, value);
            },
            None => {},
        }
        self.run
    }
}

impl Job {
    /// What status messages call the artifact.
    pub fn name(&self) -> (name: &str)
        ensures
            name@ == self@.name(),
    {
        match self {
            Job::Fetch { name, .. } => name.as_str(),
            Job::Install { name, .. } => name.as_str(),
            Job::Launch { name, .. } => name.as_str(),
        }
    }
}

impl Task {
    /// The task that fetches `payload`.
    pub fn fetch(payload: &PayloadDescriptor) -> (task: Task)
        ensures
            task@ == fetch_task(payload@),
    {
        Task {
            job: Job::Fetch {
                name: payload.name.clone(),
                download: curl(payload.url.as_str(), payload.directory.as_str()),
            },
            phase: TaskPhase::Pending,
        }
    }

    /// The task that downloads the installer of `dependency` into `dir` and
    /// runs it there, in the way that the extension of its file name asks
    /// for.
    pub fn install(dependency: &DependencyDescriptor, dir: &str) -> (task: Task)
        ensures
            dependency@.well_formed(),
            task@ == install_task(dependency@, dir@),
    {
        Task {
            job: Job::Install {
                name: String::from_str(dependency.name()),
                download: curl(dependency.url(), dir),
                install: dependency.install_command(dir),
            },
            phase: TaskPhase::Pending,
        }
    }

    /// The task that runs `payload` with the runtime of `dependency`.
    pub fn launch(dependency: &DependencyDescriptor, payload: &PayloadDescriptor) -> (task: Task)
        ensures
            task@ == launch_task(dependency@, payload@),
    {
        Task {
            job: Job::Launch {
                name: payload.name.clone(),
                run: launch_command(
                    dependency.binary(),
                    payload.directory.as_str(),
                    payload.file.as_str(),
                ),
            },
            phase: TaskPhase::Pending,
        }
    }

    /// Whether nothing is left to do.
    pub fn is_done(&self) -> (done: bool)
        ensures
            done == (self@.phase == TaskPhase::Done),
    {
        match self.phase {
            TaskPhase::Done => true,
            _ => false,
        }
    }

    /// Takes `event` in: moves the task on and says what its worker is to
    /// send and to run next.
    pub fn advance(&mut self, event: &TaskEvent) -> (step: TaskStep)
        ensures
            final(self)@.job == old(self)@.job,
            (final(self)@.phase, step@) == advance_spec(old(self)@, event@),
    {
        match event {
            TaskEvent::Start => match self.phase {
                TaskPhase::Pending => match &self.job {
                    Job::Launch { name, run } => {
                        let step = TaskStep {
                            reports: one(join3("starting ", name.as_str(), "...")),
                            flag: None,
                            run: Some(run.duplicate()),
                        };
                        self.phase = TaskPhase::Launching;
                        step
                    },
                    Job::Fetch { name, download } => {
                        let step = TaskStep {
                            reports: one(join3("curling ", name.as_str(), "...")),
                            flag: None,
                            run: Some(download.duplicate()),
                        };
                        self.phase = TaskPhase::Downloading;
                        step
                    },
                    Job::Install { name, download, .. } => {
                        let step = TaskStep {
                            reports: one(join3("curling ", name.as_str(), "...")),
                            flag: None,
                            run: Some(download.duplicate()),
                        };
                        self.phase = TaskPhase::Downloading;
                        step
                    },
                },
                _ => silent(),
            },
            TaskEvent::Finished(outcome) => match self.phase {
                TaskPhase::Downloading => {
                    if !outcome.succeeded() {
                        let text = match outcome {
                            ProcessOutcome::SpawnFailed { detail } => join4(
                                "cannot fetch ",
                                self.job.name(),
                                ": curl is missing: ",
                                detail.as_str(),
                            ),
                            ProcessOutcome::Exited { detail, .. } => join4(
                                "failed to curl ",
                                self.job.name(),
                                ": ",
                                detail.as_str(),
                            ),
                        };
                        self.phase = TaskPhase::Done;
                        TaskStep { reports: one(text), flag: Some(InFlight::Idle), run: None }
                    } else {
                        match &self.job {
                            Job::Install { name, install, .. } => {
                                let mut arrived = String::from_str(name.as_str());
                                arrived.append(" has been succesffully curl'd");
                                let step = TaskStep {
                                    reports: two(
                                        arrived,
                                        String::from_str("starting installer..."),
                                    ),
                                    flag: Some(InFlight::Installing),
                                    run: Some(install.duplicate()),
                                };
                                self.phase = TaskPhase::Installing;
                                step
                            },
                            _ => {
                                let mut text = String::from_str(self.job.name());
                                text.append(" has been succesffully curl'd");
                                self.phase = TaskPhase::Done;
                                TaskStep {
                                    reports: one(text),
                                    flag: Some(InFlight::Idle),
                                    run: None,
                                }
                            },
                        }
                    }
                },
                TaskPhase::Installing => {
                    let text = if outcome.succeeded() {
                        let mut text = String::from_str(self.job.name());
                        text.append(" has been installed");
                        text
                    } else {
                        join4("failed to install ", self.job.name(), ": ", outcome.detail())
                    };
                    self.phase = TaskPhase::Done;
                    TaskStep { reports: one(text), flag: Some(InFlight::Idle), run: None }
                },
                TaskPhase::Launching => {
                    let text = match outcome {
                        ProcessOutcome::SpawnFailed { detail } => join4(
                            "failed to start ",
                            self.job.name(),
                            ": ",
                            detail.as_str(),
                        ),
                        ProcessOutcome::Exited { detail, .. } => join3(
                            self.job.name(),
                            " has exited: ",
                            detail.as_str(),
                        ),
                    };
                    self.phase = TaskPhase::Done;
                    TaskStep { reports: one(text), flag: None, run: None }
                },
                _ => silent(),
            },
        }
    }
}

} // verus!
