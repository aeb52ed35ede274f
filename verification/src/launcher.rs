//! The orchestrator: on each trigger it has the host probed afresh, runtime
//! first and payload second, and hands out the one task that is due.

use crate::channel::{clone_sender, open_channel, send, try_receive};
use crate::descriptor::{
    app_data_dir_spec, gaem, gaem_spec, jre, jre_spec, path, probe_command_spec,
    DependencyDescriptor, DependencyView, PayloadDescriptor, PayloadView,
};
use crate::probe::{
    dependency_state, payload_state, probe_dependency, probe_payload, DependencyState,
    PayloadState,
};
use crate::process::{optional_text, Invocation, InvocationView, OutcomeView, ProcessOutcome};
use crate::text::join3;
use crate::task::{
    advance_spec, fetch_task, install_task, launch_task, InFlight, Task, TaskEventView, TaskPhase,
    TaskView,
};
use std::sync::mpsc::{Receiver, Sender};
use vstd::prelude::*;

verus! {

/// Where the orchestrator stands between a trigger and the task it ends in.
#[derive(Clone, Copy, Debug, PartialEq, Eq, Structural)]
pub enum Phase {
    /// No evaluation is under way.
    Idle,
    /// The version query of the runtime is awaited.
    ProbingDependency,
    /// The look for the payload's file is awaited.
    ProbingPayload,
}

/// What the host tells the orchestrator.
#[derive(Debug, PartialEq, Eq)]
pub enum Event {
    /// The user asked for a run.
    Trigger,
    /// The version query of the runtime has ended.
    DependencyProbed(ProcessOutcome),
    /// The payload's directory is there now, and its file exists or not.
    PayloadProbed(bool),
}

/// The mathematical content of an [`Event`].
pub enum EventView {
    Trigger,
    DependencyProbed(OutcomeView),
    PayloadProbed(bool),
}

impl View for Event {
    type V = EventView;

    open spec fn view(&self) -> EventView {
        match *self {
            Event::Trigger => EventView::Trigger,
            Event::DependencyProbed(outcome) => EventView::DependencyProbed(outcome@),
            Event::PayloadProbed(exists) => EventView::PayloadProbed(exists),
        }
    }
}

/// What the orchestrator asks of the host.
#[derive(Debug, PartialEq, Eq)]
pub enum Action {
    /// Nothing is to be done.
    Nothing,
    /// Run the version query and report how it ended.
    ProbeDependency(Invocation),
    /// Create `directory` unless it exists, then report whether `file` does.
    ProbePayload { directory: String, file: String },
    /// Run the task on a background worker.
    Dispatch(Task),
}

/// The mathematical content of an [`Action`].
pub enum ActionView {
    Nothing,
    ProbeDependency(InvocationView),
    ProbePayload { directory: Seq<char>, file: Seq<char> },
    Dispatch(TaskView),
}

impl View for Action {
    type V = ActionView;

    open spec fn view(&self) -> ActionView {
        match *self {
            Action::Nothing => ActionView::Nothing,
            Action::ProbeDependency(inv) => ActionView::ProbeDependency(inv@),
            Action::ProbePayload { directory, file } => ActionView::ProbePayload {
                directory: directory@,
                file: file@,
            },
            Action::Dispatch(task) => ActionView::Dispatch(task@),
        }
    }
}

/// What the orchestrator decided on an event: what the host is to do, and
/// what the observer is to be told first.
#[derive(Debug, PartialEq, Eq)]
pub struct Decision {
    pub action: Action,
    pub announce: Option<String>,
}

/// The mathematical content of a [`Decision`].
pub struct DecisionView {
    pub action: ActionView,
    pub announce: Option<Seq<char>>,
}

impl View for Decision {
    type V = DecisionView;

    open spec fn view(&self) -> DecisionView {
        DecisionView { action: self.action@, announce: optional_text(self.announce) }
    }
}

/// The mathematical content of a [`LauncherApp`]: all of it but the channels.
pub struct LauncherView {
    /// The status message on display.
    pub status: Seq<char>,
    /// The corrective action that is under way, as far as the orchestrator
    /// has been told.
    pub in_flight: InFlight,
    pub phase: Phase,
    pub dependency: DependencyView,
    pub payload: PayloadView,
}

/// The launcher's engine. It owns the descriptors, the in-flight flag and the
/// receiving ends of the two mailboxes: one for status messages, one for the
/// flag updates of the workers.
pub struct LauncherApp {
    status: String,
    in_flight: InFlight,
    phase: Phase,
    dependency: DependencyDescriptor,
    payload: PayloadDescriptor,
    status_sender: Sender<String>,
    status_receiver: Receiver<String>,
    flag_sender: Sender<InFlight>,
    flag_receiver: Receiver<InFlight>,
}

impl View for LauncherApp {
    type V = LauncherView;

    closed spec fn view(&self) -> LauncherView {
        LauncherView {
            status: self.status@,
            in_flight: self.in_flight,
            phase: self.phase,
            dependency: self.dependency@,
            payload: self.payload@,
        }
    }
}

/// The engine before anything has happened.
pub open spec fn initial_view(dependency: DependencyView, payload: PayloadView) -> LauncherView {
    LauncherView {
        status: "Standby"@,
        in_flight: InFlight::Idle,
        phase: Phase::Idle,
        dependency,
        payload,
    }
}

/// What is on display after a poll that brought `delivery`: the message that
/// came, or else what was there before.
pub open spec fn observe(status: Seq<char>, delivery: Option<Seq<char>>) -> Seq<char> {
    match delivery {
        Some(message) => message,
        None => status,
    }
}

/// What is on display after the polls `deliveries`, in this order.
pub open spec fn displayed(status: Seq<char>, deliveries: Seq<Option<Seq<char>>>) -> Seq<char>
    decreases deliveries.len(),
{
    if deliveries.len() == 0 {
        status
    } else {
        observe(displayed(status, deliveries.drop_last()), deliveries.last())
    }
}

/// The flag after a poll that brought `update`.
pub open spec fn noted(flag: InFlight, update: Option<InFlight>) -> InFlight {
    match update {
        Some(value) => value,
        None => flag,
    }
}

/// The engine after a poll of the status mailbox that brought `delivery`.
pub open spec fn shown(app: LauncherView, delivery: Option<Seq<char>>) -> LauncherView {
    LauncherView { status: observe(app.status, delivery), ..app }
}

/// The engine after a poll of the flag mailbox that brought `update`.
pub open spec fn flagged(app: LauncherView, update: Option<InFlight>) -> LauncherView {
    LauncherView { in_flight: noted(app.in_flight, update), ..app }
}

/// Sent before the presence of `name` is looked into.
pub open spec fn checking_message(name: Seq<char>) -> Seq<char> {
    "checking if "@ + name + " is present"@
}

/// The decision that leaves everything as it is.
pub open spec fn ignore(app: LauncherView) -> (LauncherView, DecisionView) {
    (app, DecisionView { action: ActionView::Nothing, announce: None })
}

/// Handing out `task` and raising the flag to `flag`, unless an action is in
/// flight already: then nothing is handed out. Either way the evaluation is
/// over.
pub open spec fn dispatch(app: LauncherView, flag: InFlight, task: TaskView) -> (
    LauncherView,
    DecisionView,
) {
    if app.in_flight != InFlight::Idle {
        (
            LauncherView { phase: Phase::Idle, ..app },
            DecisionView { action: ActionView::Nothing, announce: None },
        )
    } else {
        (
            LauncherView { phase: Phase::Idle, in_flight: flag, ..app },
            DecisionView { action: ActionView::Dispatch(task), announce: None },
        )
    }
}

/// What follows the probe of the runtime: the install of the runtime where
/// the probe did not find the pinned build, else the probe of the payload.
pub open spec fn after_dependency_probe(app: LauncherView, state: DependencyState) -> (
    LauncherView,
    DecisionView,
) {
    if state.needs_install() {
        dispatch(app, InFlight::Downloading, install_task(app.dependency, app.payload.directory))
    } else {
        (
            LauncherView { phase: Phase::ProbingPayload, ..app },
            DecisionView {
                action: ActionView::ProbePayload {
                    directory: app.payload.directory,
                    file: app.payload.location(),
                },
                announce: Some(checking_message(app.payload.name)),
            },
        )
    }
}

/// What follows the probe of the payload: its download where it is missing,
/// else its launch. A launch leaves the flag alone.
pub open spec fn after_payload_probe(app: LauncherView, state: PayloadState) -> (
    LauncherView,
    DecisionView,
) {
    match state {
        PayloadState::Absent => dispatch(app, InFlight::Downloading, fetch_task(app.payload)),
        PayloadState::Present => dispatch(
            app,
            InFlight::Idle,
            launch_task(app.dependency, app.payload),
        ),
    }
}

/// The orchestrator's transition function.
///
/// A trigger starts an evaluation from scratch with the probe of the runtime,
/// unless an action is in flight: then it changes nothing and asks for
/// nothing. The outcome of a probe counts only while that probe is awaited.
pub open spec fn transition_spec(app: LauncherView, event: EventView) -> (
    LauncherView,
    DecisionView,
) {
    match event {
        EventView::Trigger => if app.in_flight != InFlight::Idle {
            ignore(app)
        } else {
            (
                LauncherView { phase: Phase::ProbingDependency, ..app },
                DecisionView {
                    action: ActionView::ProbeDependency(probe_command_spec(app.dependency.binary)),
                    announce: Some(checking_message(app.dependency.name)),
                },
            )
        },
        EventView::DependencyProbed(outcome) => if app.phase != Phase::ProbingDependency {
            ignore(app)
        } else {
            after_dependency_probe(
                app,
                dependency_state(app.dependency.required_version, outcome),
            )
        },
        EventView::PayloadProbed(exists) => if app.phase != Phase::ProbingPayload {
            ignore(app)
        } else {
            after_payload_probe(app, payload_state(exists))
        },
    }
}

/// While an action is in flight a trigger is a no-op: the engine stays as it
/// is, nothing is handed out and nothing is announced.
pub proof fn lemma_trigger_in_flight_is_noop(app: LauncherView)
    requires
        app.in_flight != InFlight::Idle,
    ensures
        transition_spec(app, EventView::Trigger) == ignore(app),
{
}

/// A trigger never hands out a task by itself: with nothing in flight it has
/// the runtime probed afresh, whatever was probed before.
pub proof fn lemma_trigger_probes_afresh(app: LauncherView)
    requires
        app.in_flight == InFlight::Idle,
    ensures
        transition_spec(app, EventView::Trigger).1.action == ActionView::ProbeDependency(
            probe_command_spec(app.dependency.binary),
        ),
        transition_spec(app, EventView::Trigger).0.phase == Phase::ProbingDependency,
{
}

/// Once a download or an install has been handed out, the flag is up, so
/// that the next trigger is a no-op: two corrective actions never run at the
/// same time.
pub proof fn lemma_corrective_dispatch_blocks_trigger(
    app: LauncherView,
    flag: InFlight,
    task: TaskView,
)
    requires
        flag != InFlight::Idle,
        dispatch(app, flag, task).1.action is Dispatch,
    ensures
        dispatch(app, flag, task).0.in_flight == flag,
        transition_spec(dispatch(app, flag, task).0, EventView::Trigger) == ignore(
            dispatch(app, flag, task).0,
        ),
{
}

/// A runtime of the wrong version is dealt with exactly as a missing one:
/// whichever of the two the probe reports, the engine ends in the same state
/// and decides the same.
pub proof fn lemma_wrong_version_counts_as_absent(
    app: LauncherView,
    absent: OutcomeView,
    wrong: OutcomeView,
)
    requires
        dependency_state(app.dependency.required_version, absent) == DependencyState::Absent,
        dependency_state(app.dependency.required_version, wrong)
            == DependencyState::PresentWrongVersion,
    ensures
        after_dependency_probe(app, DependencyState::PresentWrongVersion)
            == after_dependency_probe(app, DependencyState::Absent),
        transition_spec(app, EventView::DependencyProbed(wrong)) == transition_spec(
            app,
            EventView::DependencyProbed(absent),
        ),
{
}

/// The one task that is due, given what the probes say: the install of the
/// runtime comes before the download of the payload, and the download before
/// the launch.
pub open spec fn due_task(
    app: LauncherView,
    dependency: DependencyState,
    payload: PayloadState,
) -> TaskView {
    if dependency.needs_install() {
        install_task(app.dependency, app.payload.directory)
    } else if payload == PayloadState::Absent {
        fetch_task(app.payload)
    } else {
        launch_task(app.dependency, app.payload)
    }
}

/// With nothing in flight, an evaluation ends in exactly the task that is
/// due, and in no other. Where the runtime has to be installed, the payload
/// is not even looked for; a launch leaves the flag down, a download or an
/// install raises it.
pub proof fn lemma_evaluation_hands_out_what_is_due(
    app: LauncherView,
    probe: OutcomeView,
    exists: bool,
)
    requires
        app.in_flight == InFlight::Idle,
    ensures
        ({
            let dependency = dependency_state(app.dependency.required_version, probe);
            let due = due_task(app, dependency, payload_state(exists));
            let probing = transition_spec(app, EventView::Trigger).0;
            let (looking, first) = transition_spec(probing, EventView::DependencyProbed(probe));
            let (ended, second) = transition_spec(looking, EventView::PayloadProbed(exists));
            if dependency.needs_install() {
                &&& first.action == ActionView::Dispatch(due)
                &&& looking.in_flight == InFlight::Downloading
                &&& second.action is Nothing
                &&& ended == looking
            } else {
                &&& first.action is ProbePayload
                &&& looking.in_flight == InFlight::Idle
                &&& second.action == ActionView::Dispatch(due)
                &&& ended.in_flight == if exists {
                    InFlight::Idle
                } else {
                    InFlight::Downloading
                }
            }
        }),
{
}

/// After an install has reported that it is over, the flag is down again; and
/// if the next trigger's probe then finds the pinned runtime, the engine goes
/// on to the payload and fetches it where it is missing: it does not install
/// again.
pub proof fn lemma_after_install_payload_is_next(
    app: LauncherView,
    installer: TaskView,
    installed: OutcomeView,
    probe: OutcomeView,
)
    requires
        installer.job is Install,
        installer.phase == TaskPhase::Installing,
        installed.succeeded(),
        dependency_state(app.dependency.required_version, probe) == DependencyState::PresentOk,
    ensures
        ({
            let (phase, step) = advance_spec(installer, TaskEventView::Finished(installed));
            let told = flagged(app, step.flag);
            let (probing, first) = transition_spec(told, EventView::Trigger);
            let (looking, second) = transition_spec(probing, EventView::DependencyProbed(probe));
            let (fetching, third) = transition_spec(looking, EventView::PayloadProbed(false));
            &&& phase == TaskPhase::Done
            &&& step.flag == Some(InFlight::Idle)
            &&& told.in_flight == InFlight::Idle
            &&& first.action is ProbeDependency
            &&& second.action == ActionView::ProbePayload {
                directory: app.payload.directory,
                file: app.payload.location(),
            }
            &&& third.action == ActionView::Dispatch(fetch_task(app.payload))
            &&& fetching.in_flight == InFlight::Downloading
        }),
{
}

/// Whatever the workers send and in whatever order it arrives, the display
/// never shows anything but what it showed at first or one whole message that
/// was sent; and once a message has arrived, it shows a message that was
/// sent.
pub proof fn lemma_display_shows_a_sent_message(
    status: Seq<char>,
    sent: Seq<Seq<char>>,
    deliveries: Seq<Option<Seq<char>>>,
)
    requires
        forall|i: int|
            0 <= i < deliveries.len() && deliveries[i] is Some ==> sent.contains(
                #[trigger] deliveries[i]->0,
            ),
    ensures
        displayed(status, deliveries) == status || sent.contains(displayed(status, deliveries)),
        (exists|i: int| 0 <= i < deliveries.len() && #[trigger] deliveries[i] is Some)
            ==> sent.contains(displayed(status, deliveries)),
    decreases deliveries.len(),
{
    if deliveries.len() > 0 {
        let earlier = deliveries.drop_last();
        assert forall|i: int| 0 <= i < earlier.len() && earlier[i] is Some implies sent.contains(
            #[trigger] earlier[i]->0,
        ) by {
            assert(earlier[i] == deliveries[i]);
        }
        lemma_display_shows_a_sent_message(status, sent, earlier);
        let last: int = deliveries.len() - 1;
        if deliveries[last] is Some {
            assert(sent.contains(deliveries[last]->0));
        } else if exists|i: int| 0 <= i < deliveries.len() && #[trigger] deliveries[i] is Some {
            let i: int = choose|i: int|
                0 <= i < deliveries.len() && #[trigger] deliveries[i] is Some;
            assert(earlier[i] is Some);
        }
    }
}

/// The polls that bring the messages `arrivals` one by one, in this order.
pub open spec fn one_by_one(arrivals: Seq<Seq<char>>) -> Seq<Option<Seq<char>>> {
    Seq::new(arrivals.len(), |i: int| Some(arrivals[i]))
}

/// When the workers have sent the messages `sent`, and the mailbox has been
/// drained of them in whatever order they arrived in, the display shows the
/// message that arrived last, which is one of those that were sent, whole.
pub proof fn lemma_drained_display_shows_a_sent_message(
    status: Seq<char>,
    sent: Seq<Seq<char>>,
    arrivals: Seq<Seq<char>>,
)
    requires
        sent.len() > 0,
        arrivals.to_multiset() == sent.to_multiset(),
    ensures
        displayed(status, one_by_one(arrivals)) == arrivals.last(),
        sent.contains(displayed(status, one_by_one(arrivals))),
{
    arrivals.to_multiset_ensures();
    sent.to_multiset_ensures();
    let last = arrivals.last();
    assert(one_by_one(arrivals).last() == Some(last));
    assert(arrivals[arrivals.len() - 1] == last);
    assert(sent.to_multiset().count(last) > 0);
}

fn quiet(action: Action) -> (decision: Decision)
    ensures
        decision@ == (DecisionView { action: action@, announce: None }),
{
    Decision { action, announce: None }
}

impl LauncherApp {
    /// The engine for the pinned runtime and the payload, kept in the
    /// application-data directory of the user who runs the process.
    pub fn new() -> (app: LauncherApp)
        ensures
            exists|username: Seq<char>|
                app@ == initial_view(jre_spec(), gaem_spec(app_data_dir_spec(username))),
            app@.dependency.well_formed(),
    {
        LauncherApp::with_descriptors(jre(), gaem(path()))
    }

    /// The engine for `dependency` and `payload`.
    pub fn with_descriptors(dependency: DependencyDescriptor, payload: PayloadDescriptor) -> (app:
        LauncherApp)
        ensures
            app@ == initial_view(dependency@, payload@),
            app@.dependency.well_formed(),
    {
        proof {
            use_type_invariant(&dependency);
        }
        let (status_sender, status_receiver) = open_channel::<String>();
        let (flag_sender, flag_receiver) = open_channel::<InFlight>();
        LauncherApp {
            status: String::from_str("Standby"),
            in_flight: InFlight::Idle,
            phase: Phase::Idle,
            dependency,
            payload,
            status_sender,
            status_receiver,
            flag_sender,
            flag_receiver,
        }
    }

    /// The ends of the two mailboxes that this engine holds: of the status
    /// mailbox first, of the flag mailbox second.
    pub closed spec fn mailboxes(&self) -> (
        (Sender<String>, Receiver<String>),
        (Sender<InFlight>, Receiver<InFlight>),
    ) {
        ((self.status_sender, self.status_receiver), (self.flag_sender, self.flag_receiver))
    }

    /// The status message on display.
    pub fn status(&self) -> (text: &str)
        ensures
            text@ == self@.status,
    {
        self.status.as_str()
    }

    /// The corrective action that is under way, as far as the engine has
    /// been told.
    pub fn in_flight(&self) -> (flag: InFlight)
        ensures
            flag == self@.in_flight,
    {
        self.in_flight
    }

    /// Where the engine stands in its evaluation.
    pub fn phase(&self) -> (phase: Phase)
        ensures
            phase == self@.phase,
    {
        self.phase
    }

    /// A handle for a worker to send status messages with.
    pub fn sender(&self) -> (handle: Sender<String>)
        ensures
            handle == self.mailboxes().0.0,
    {
        clone_sender(&self.status_sender)
    }

    /// A handle for a worker to send flag updates with.
    pub fn flag_sender(&self) -> (handle: Sender<InFlight>)
        ensures
            handle == self.mailboxes().1.0,
    {
        clone_sender(&self.flag_sender)
    }

    /// Puts on display what a poll of the status mailbox brought.
    pub fn show(&mut self, delivery: Option<String>)
        ensures
            final(self)@ == shown(old(self)@, optional_text(delivery)),
            final(self).mailboxes() == old(self).mailboxes(),
    {
        match delivery {
            Some(message) => {
                self.status = message;
            },
            None => {},
        }
    }

    /// Takes at most one message from the status mailbox and puts it on
    /// display. Which message comes, if any, is up to the workers.
    pub fn poll_status(&mut self)
        ensures
            exists|delivery: Option<Seq<char>>|
                final(self)@ == #[trigger] shown(old(self)@, delivery),
            final(self).mailboxes() == old(self).mailboxes(),
    {
        let delivery = try_receive(&self.status_receiver);
        let ghost brought = optional_text(delivery);
        self.show(delivery);
        assert(self@ == shown(old(self)@, brought));
    }

    /// Takes in what a poll of the flag mailbox brought.
    pub fn note_flag(&mut self, update: Option<InFlight>)
        ensures
            final(self)@ == flagged(old(self)@, update),
            final(self).mailboxes() == old(self).mailboxes(),
    {
        match update {
            Some(value) => {
                self.in_flight = value;
            },
            None => {},
        }
    }

    /// Takes at most one update from the flag mailbox. Which update comes,
    /// if any, is up to the workers.
    pub fn poll_flag(&mut self)
        ensures
            exists|update: Option<InFlight>| final(self)@ == #[trigger] flagged(old(self)@, update),
            final(self).mailboxes() == old(self).mailboxes(),
    {
        let update = try_receive(&self.flag_receiver);
        self.note_flag(update);
        assert(self@ == flagged(old(self)@, update));
    }

    /// Whether the version query found the pinned runtime.
    pub fn jre_is_present(&self, outcome: &ProcessOutcome) -> (present: bool)
        ensures
            present == !dependency_state(
                self@.dependency.required_version,
                outcome@,
            ).needs_install(),
    {
        match probe_dependency(&self.dependency, outcome) {
            DependencyState::PresentOk => true,
            _ => false,
        }
    }

    /// Whether the payload is there, given whether its file exists.
    pub fn gaem_is_present(&self, exists: bool) -> (present: bool)
        ensures
            present == (payload_state(exists) == PayloadState::Present),
    {
        match probe_payload(exists) {
            PayloadState::Present => true,
            PayloadState::Absent => false,
        }
    }

    fn hand_out(&mut self, flag: InFlight, task: Task) -> (decision: Decision)
        ensures
            (final(self)@, decision@) == dispatch(old(self)@, flag, task@),
            final(self).mailboxes() == old(self).mailboxes(),
    {
        self.phase = Phase::Idle;
        match self.in_flight {
            InFlight::Idle => {
                self.in_flight = flag;
                quiet(Action::Dispatch(task))
            },
            _ => quiet(Action::Nothing),
        }
    }

    /// Hands out the install of the runtime, unless an action is in flight.
    /// The installer is run in the way that the extension of its file name
    /// asks for.
    pub fn install_jre(&mut self) -> (decision: Decision)
        ensures
            old(self)@.dependency.well_formed(),
            (final(self)@, decision@) == dispatch(
                old(self)@,
                InFlight::Downloading,
                install_task(old(self)@.dependency, old(self)@.payload.directory),
            ),
            final(self).mailboxes() == old(self).mailboxes(),
    {
        let task = Task::install(&self.dependency, self.payload.directory.as_str());
        self.hand_out(InFlight::Downloading, task)
    }

    /// Hands out the download of the payload, unless an action is in flight.
    pub fn curl_gaem(&mut self) -> (decision: Decision)
        ensures
            (final(self)@, decision@) == dispatch(
                old(self)@,
                InFlight::Downloading,
                fetch_task(old(self)@.payload),
            ),
            final(self).mailboxes() == old(self).mailboxes(),
    {
        let task = Task::fetch(&self.payload);
        self.hand_out(InFlight::Downloading, task)
    }

    /// Hands out the launch of the payload, unless an action is in flight.
    pub fn launch(&mut self) -> (decision: Decision)
        ensures
            (final(self)@, decision@) == dispatch(
                old(self)@,
                InFlight::Idle,
                launch_task(old(self)@.dependency, old(self)@.payload),
            ),
            final(self).mailboxes() == old(self).mailboxes(),
    {
        let task = Task::launch(&self.dependency, &self.payload);
        self.hand_out(InFlight::Idle, task)
    }

    /// Takes `event` in and decides what the host is to do and what the
    /// observer is to be told. While an action is in flight a trigger changes
    /// nothing, asks for nothing and announces nothing.
    pub fn transition(&mut self, event: &Event) -> (decision: Decision)
        ensures
            old(self)@.dependency.well_formed(),
            (final(self)@, decision@) == transition_spec(old(self)@, event@),
            event@ is Trigger && old(self)@.in_flight != InFlight::Idle ==> {
                &&& final(self)@ == old(self)@
                &&& decision@.action is Nothing
                &&& decision@.announce is None
            },
            final(self).mailboxes() == old(self).mailboxes(),
    {
        proof {
            use_type_invariant(&self.dependency);
        }
        match event {
            Event::Trigger => match self.in_flight {
                InFlight::Idle => {
                    self.phase = Phase::ProbingDependency;
                    Decision {
                        action: Action::ProbeDependency(self.dependency.probe_command()),
                        announce: Some(
                            join3("checking if ", self.dependency.name(), " is present"),
                        ),
                    }
                },
                _ => quiet(Action::Nothing),
            },
            Event::DependencyProbed(outcome) => match self.phase {
                Phase::ProbingDependency => {
                    if !self.jre_is_present(outcome) {
                        self.install_jre()
                    } else {
                        self.phase = Phase::ProbingPayload;
                        Decision {
                            action: Action::ProbePayload {
                                directory: self.payload.directory.clone(),
                                file: self.payload.location(),
                            },
                            announce: Some(
                                join3("checking if ", self.payload.name.as_str(), " is present"),
                            ),
                        }
                    }
                },
                _ => quiet(Action::Nothing),
            },
            Event::PayloadProbed(exists) => match self.phase {
                Phase::ProbingPayload => {
                    if !self.gaem_is_present(*exists) {
                        self.curl_gaem()
                    } else {
                        self.launch()
                    }
                },
                _ => quiet(Action::Nothing),
            },
        }
    }

    /// Takes `event` in, tells the observer what [`LauncherApp::transition`]
    /// announces, and returns what the host is to do.
    pub fn step(&mut self, event: &Event) -> (action: Action)
        ensures
            old(self)@.dependency.well_formed(),
            final(self)@ == transition_spec(old(self)@, event@).0,
            action@ == transition_spec(old(self)@, event@).1.action,
            event@ is Trigger && old(self)@.in_flight != InFlight::Idle ==> {
                &&& final(self)@ == old(self)@
                &&& action@ is Nothing
            },
            final(self).mailboxes() == old(self).mailboxes(),
    {
        let decision = self.transition(event);
        match decision.announce {
            Some(message) => {
                send(&self.status_sender, message);
            },
            None => {},
        }
        decision.action
    }
}

} // verus!
