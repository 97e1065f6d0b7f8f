//! The deployment run as a state machine: each step names the remote action
//! to perform, and the event that the action produced decides the step that
//! follows. Connection and upload failures end the run; every other failure
//! is recorded and the run goes on.
use vstd::prelude::*;
use crate::remote::{
    chmod_command, classify_directory_result, classify_service_result, directory_outcome,
    enable_command, make_chmod_command, make_enable_command, make_mkdir_command,
    make_reload_command, make_start_command, make_stop_command, make_unit_file_path,
    mkdir_command, reload_command, result_view, service_outcome, start_command, stop_command,
    unit_file_path, StepOutcome, StepOutcomeView, contains_phrase, already_exists_phrase,
};
use crate::service_file::{unit_text, ServiceFile};

verus! {

/// What one run deploys, and where.
pub struct DeploymentPlan {
    /// The name of the deployed executable.
    pub binary_name: String,
    /// Where the built executable is on this machine.
    pub local_path: String,
    /// The remote directory that receives it.
    pub remote_dir: String,
    /// Where the executable lands on the remote host.
    pub remote_path: String,
    /// The service that runs the executable, if there is one.
    pub service_name: Option<String>,
    /// Whether to install the service's unit file.
    pub install_service: bool,
    /// The working directory of the service.
    pub working_directory: String,
    /// The description of the service.
    pub description: String,
}

/// The steps of a run, in the order in which they can come.
#[derive(PartialEq, Eq, Structural, Clone, Copy, Debug)]
pub enum Step {
    Connect,
    EnsureDirectory,
    StopService,
    Upload,
    FixPermissions,
    InstallUnit,
    ReloadUnits,
    EnableUnit,
    StartService,
    Finished,
}

/// What the transport is asked to do next.
#[derive(Debug, Clone, PartialEq, Eq)]
pub enum Action {
    /// Open and authenticate the connection.
    Connect,
    /// Run a command on the remote host and capture its output.
    Run(String),
    /// Send a local file to a remote path.
    Upload { local: String, remote: String },
    /// Write a text to a local scratch file, send it to a remote path, and
    /// remove the scratch file.
    UploadText { text: String, remote: String },
    /// Nothing is left to do.
    Finish,
}

/// The value of an `Action`, with its texts as characters.
pub enum ActionView {
    Connect,
    Run(Seq<char>),
    Upload { local: Seq<char>, remote: Seq<char> },
    UploadText { text: Seq<char>, remote: Seq<char> },
    Finish,
}

impl View for Action {
    type V = ActionView;

    open spec fn view(&self) -> ActionView {
        match self {
            Action::Connect => ActionView::Connect,
            Action::Run(c) => ActionView::Run(c@),
            Action::Upload { local, remote } => ActionView::Upload {
                local: local@,
                remote: remote@,
            },
            Action::UploadText { text, remote } => ActionView::UploadText {
                text: text@,
                remote: remote@,
            },
            Action::Finish => ActionView::Finish,
        }
    }
}

/// What the transport reports after it performed an action.
#[derive(Debug, Clone, PartialEq, Eq)]
pub enum Event {
    /// The connection is open; `authenticated` says whether the host
    /// accepted the credentials.
    Connected { authenticated: bool },
    /// The host could not be reached or the handshake failed.
    NetworkFailed(String),
    /// The host rejected the credentials.
    AuthRejected(String),
    /// The command ran; this is what it printed.
    CommandOutput(String),
    /// The command channel could not be opened or read.
    CommandFailed(String),
    /// The file was sent.
    Transferred,
    /// The file could not be read or sent.
    TransferFailed(String),
}

/// A failure that ends a run.
#[derive(Debug, Clone, PartialEq, Eq)]
pub enum RunError {
    Network(String),
    Auth(String),
    Transfer(String),
}

/// The value of a `RunError`, with its text as characters.
pub enum RunErrorView {
    Network(Seq<char>),
    Auth(Seq<char>),
    Transfer(Seq<char>),
}

impl View for RunError {
    type V = RunErrorView;

    open spec fn view(&self) -> RunErrorView {
        match self {
            RunError::Network(m) => RunErrorView::Network(m@),
            RunError::Auth(m) => RunErrorView::Auth(m@),
            RunError::Transfer(m) => RunErrorView::Transfer(m@),
        }
    }
}

/// The value of an optional `RunError`.
pub open spec fn error_view(e: Option<RunError>) -> Option<RunErrorView> {
    match e {
        Some(x) => Some(x@),
        None => None,
    }
}

/// The record of one step of a run.
#[derive(Debug, Clone, PartialEq, Eq)]
pub struct StepReport {
    pub step: Step,
    pub outcome: StepOutcome,
}

/// The text an event carries; empty for those that carry none.
pub open spec fn event_text(e: Event) -> Seq<char> {
    match e {
        Event::NetworkFailed(m) => m@,
        Event::AuthRejected(m) => m@,
        Event::CommandOutput(m) => m@,
        Event::CommandFailed(m) => m@,
        Event::TransferFailed(m) => m@,
        _ => Seq::empty(),
    }
}

/// An event read as the result of a command: its output where the command
/// ran, else the failure text.
pub open spec fn command_result(e: Event) -> Result<Seq<char>, Seq<char>> {
    match e {
        Event::CommandOutput(m) => Ok(m@),
        _ => Err(event_text(e)),
    }
}

pub open spec fn has_service(p: DeploymentPlan) -> bool {
    p.service_name is Some
}

pub open spec fn installs(p: DeploymentPlan) -> bool {
    p.service_name is Some && p.install_service
}

/// The name of the plan's service; empty where there is none.
pub open spec fn service_text(p: DeploymentPlan) -> Seq<char> {
    match p.service_name {
        Some(s) => s@,
        None => Seq::empty(),
    }
}

/// The step that follows `s` when nothing ends the run or cuts the
/// installation short: the service steps come only where a service is
/// configured, the installation only where it is also asked for.
pub open spec fn step_after(p: DeploymentPlan, s: Step) -> Step {
    match s {
        Step::Connect => Step::EnsureDirectory,
        Step::EnsureDirectory => if has_service(p) {
            Step::StopService
        } else {
            Step::Upload
        },
        Step::StopService => Step::Upload,
        Step::Upload => Step::FixPermissions,
        Step::FixPermissions => if installs(p) {
            Step::InstallUnit
        } else if has_service(p) {
            Step::StartService
        } else {
            Step::Finished
        },
        Step::InstallUnit => Step::ReloadUnits,
        Step::ReloadUnits => Step::EnableUnit,
        Step::EnableUnit => Step::StartService,
        Step::StartService => Step::Finished,
        Step::Finished => Step::Finished,
    }
}

/// How the event `e` at step `s` is recorded.
pub open spec fn outcome_of(s: Step, e: Event) -> StepOutcomeView {
    match s {
        Step::Connect => if e == (Event::Connected { authenticated: true }) {
            StepOutcomeView::Succeeded
        } else {
            StepOutcomeView::Failed(event_text(e))
        },
        Step::EnsureDirectory => directory_outcome(command_result(e)),
        Step::StopService | Step::StartService => service_outcome(command_result(e)),
        Step::Upload | Step::InstallUnit => if e is Transferred {
            StepOutcomeView::Succeeded
        } else {
            StepOutcomeView::Failed(event_text(e))
        },
        _ => match command_result(e) {
            Ok(_) => StepOutcomeView::Succeeded,
            Err(m) => StepOutcomeView::Failed(m),
        },
    }
}

/// The failure, if any, with which the event `e` at step `s` ends the run:
/// only a connection that is not authenticated and an upload that did not
/// go through end it.
pub open spec fn fatal_of(s: Step, e: Event) -> Option<RunErrorView> {
    match s {
        Step::Connect => match e {
            Event::Connected { authenticated } => if authenticated {
                None
            } else {
                Some(RunErrorView::Auth(Seq::empty()))
            },
            Event::AuthRejected(m) => Some(RunErrorView::Auth(m@)),
            _ => Some(RunErrorView::Network(event_text(e))),
        },
        Step::Upload => if e is Transferred {
            None
        } else {
            Some(RunErrorView::Transfer(event_text(e)))
        },
        _ => None,
    }
}

/// The step that the event `e` at step `s` leads to: the end where the run
/// fails; the start of the service where an installation step fails; else
/// the next step in order.
pub open spec fn next_step(p: DeploymentPlan, s: Step, e: Event) -> Step {
    if fatal_of(s, e) is Some {
        Step::Finished
    } else if (s == Step::InstallUnit || s == Step::ReloadUnits) && outcome_of(s, e) is Failed {
        Step::StartService
    } else {
        step_after(p, s)
    }
}

/// A run gets past the connection step only when the host authenticated it;
/// any other report of that step ends the run with a network or an
/// authentication failure.
pub proof fn lemma_connect_requires_authentication(p: DeploymentPlan, e: Event)
    ensures
        next_step(p, Step::Connect, e) == Step::EnsureDirectory <==> e == (Event::Connected {
            authenticated: true,
        }),
        e != (Event::Connected { authenticated: true }) ==> next_step(p, Step::Connect, e)
            == Step::Finished && (fatal_of(Step::Connect, e) matches Some(RunErrorView::Network(_))
            || fatal_of(Step::Connect, e) matches Some(RunErrorView::Auth(_))),
{
}

/// The directory step never ends a run, whatever it reports, and a failure
/// that says the directory exists already is recorded as benign: running the
/// step again against the same path goes on just as the first run did.
pub proof fn lemma_directory_step_never_aborts(p: DeploymentPlan, e: Event)
    ensures
        fatal_of(Step::EnsureDirectory, e) is None,
        next_step(p, Step::EnsureDirectory, e) == step_after(p, Step::EnsureDirectory),
        next_step(p, Step::EnsureDirectory, e) != Step::Finished,
        e matches Event::CommandFailed(m) && contains_phrase(m@, already_exists_phrase())
            ==> outcome_of(Step::EnsureDirectory, e) == StepOutcomeView::AlreadySatisfied,
{
}

/// Stopping and starting the service: empty output is recorded as a success,
/// any output as a failure with that text, and in either case the run goes
/// on to the next step.
pub proof fn lemma_service_steps_go_on(p: DeploymentPlan, s: Step, e: Event)
    requires
        s == Step::StopService || s == Step::StartService,
    ensures
        fatal_of(s, e) is None,
        next_step(p, s, e) == step_after(p, s),
        e matches Event::CommandOutput(out) ==> (out@.len() == 0 ==> outcome_of(s, e)
            == StepOutcomeView::Succeeded) && (out@.len() > 0 ==> outcome_of(s, e)
            == StepOutcomeView::Failed(out@)),
{
}

/// A failed upload ends the run with a transfer failure: no permission fix,
/// installation or service start follows.
pub proof fn lemma_failed_upload_ends_run(p: DeploymentPlan, e: Event)
    requires
        !(e is Transferred),
    ensures
        next_step(p, Step::Upload, e) == Step::Finished,
        fatal_of(Step::Upload, e) == Some(RunErrorView::Transfer(event_text(e))),
        step_after(p, Step::Finished) == Step::Finished,
{
}

/// The steps that a run of `p` performs from step `s` on, when the action of
/// each performed step reports the next of `events`; the run stops at its end
/// or when the events run out.
pub open spec fn steps_from(p: DeploymentPlan, s: Step, events: Seq<Event>) -> Seq<Step>
    decreases events.len(),
{
    if s == Step::Finished || events.len() == 0 {
        Seq::empty()
    } else {
        seq![s] + steps_from(p, next_step(p, s, events[0]), events.drop_first())
    }
}

/// Without a service, a run that connects and uploads performs exactly the
/// connection, the directory step, the upload and the permission fix.
pub proof fn lemma_whole_run_without_service(p: DeploymentPlan, events: Seq<Event>)
    requires
        p.service_name is None,
        events.len() >= 4,
        events[0] == (Event::Connected { authenticated: true }),
        events[2] is Transferred,
    ensures
        steps_from(p, Step::Connect, events) == seq![
            Step::Connect,
            Step::EnsureDirectory,
            Step::Upload,
            Step::FixPermissions,
        ],
{
    reveal_with_fuel(steps_from, 5);
    let e = events;
    assert(e.drop_first()[0] == e[1]);
    assert(e.drop_first().drop_first()[0] == e[2]);
    assert(e.drop_first().drop_first().drop_first()[0] == e[3]);
}

/// With a service that is not to be installed, a run that connects and
/// uploads performs the connection, the directory step, the service stop,
/// the upload, the permission fix and the service start, and no installation
/// step.
pub proof fn lemma_whole_run_with_service_no_install(p: DeploymentPlan, events: Seq<Event>)
    requires
        p.service_name is Some,
        !p.install_service,
        events.len() >= 6,
        events[0] == (Event::Connected { authenticated: true }),
        events[3] is Transferred,
    ensures
        steps_from(p, Step::Connect, events) == seq![
            Step::Connect,
            Step::EnsureDirectory,
            Step::StopService,
            Step::Upload,
            Step::FixPermissions,
            Step::StartService,
        ],
{
    reveal_with_fuel(steps_from, 7);
    let e1 = events.drop_first();
    let e2 = e1.drop_first();
    let e3 = e2.drop_first();
    let e4 = e3.drop_first();
    let e5 = e4.drop_first();
    assert(e1[0] == events[1]);
    assert(e2[0] == events[2]);
    assert(e3[0] == events[3]);
    assert(e4[0] == events[4]);
    assert(e5[0] == events[5]);
}

/// A run whose upload fails stops there: the permission fix, the
/// installation and the service start never come.
pub proof fn lemma_whole_run_failed_upload(p: DeploymentPlan, events: Seq<Event>)
    requires
        events.len() >= 4,
        events[0] == (Event::Connected { authenticated: true }),
        !(events[if has_service(p) {
            3int
        } else {
            2int
        }] is Transferred),
    ensures
        steps_from(p, Step::Connect, events) == if has_service(p) {
            seq![Step::Connect, Step::EnsureDirectory, Step::StopService, Step::Upload]
        } else {
            seq![Step::Connect, Step::EnsureDirectory, Step::Upload]
        },
{
    reveal_with_fuel(steps_from, 5);
    let e1 = events.drop_first();
    let e2 = e1.drop_first();
    let e3 = e2.drop_first();
    assert(e1[0] == events[1]);
    assert(e2[0] == events[2]);
    assert(e3[0] == events[3]);
}

/// A run in progress.
pub struct Deployment {
    /// What the run deploys.
    pub plan: DeploymentPlan,
    /// The unit file installed where the plan asks for it.
    pub unit: ServiceFile,
    /// The step whose action is to be performed next.
    pub step: Step,
    /// One record for each step performed, in order.
    pub reports: Vec<StepReport>,
    /// The failure that ended the run, if one did.
    pub fatal: Option<RunError>,
}

/// The action that step `s` of a run of `d` asks for.
pub open spec fn action_for(d: Deployment, s: Step) -> ActionView {
    match s {
        Step::Connect => ActionView::Connect,
        Step::EnsureDirectory => ActionView::Run(mkdir_command(d.plan.remote_dir@)),
        Step::StopService => ActionView::Run(stop_command(service_text(d.plan))),
        Step::Upload => ActionView::Upload { local: d.plan.local_path@, remote: d.plan.remote_path@ },
        Step::FixPermissions => ActionView::Run(chmod_command(d.plan.remote_path@)),
        Step::InstallUnit => ActionView::UploadText {
            text: unit_text(d.unit),
            remote: unit_file_path(service_text(d.plan)),
        },
        Step::ReloadUnits => ActionView::Run(reload_command()),
        Step::EnableUnit => ActionView::Run(enable_command(service_text(d.plan))),
        Step::StartService => ActionView::Run(start_command(service_text(d.plan))),
        Step::Finished => ActionView::Finish,
    }
}

fn service_str(p: &DeploymentPlan) -> (r: &str)
    ensures
        r@ == service_text(*p),
{
    match &p.service_name {
        Some(s) => s.as_str(),
        None => {
            proof {
                reveal_strlit("");
            }
            ""
        },
    }
}

fn event_text_of(e: &Event) -> (r: String)
    ensures
        r@ == event_text(*e),
{
    match e {
        Event::NetworkFailed(m) => m.clone(),
        Event::AuthRejected(m) => m.clone(),
        Event::CommandOutput(m) => m.clone(),
        Event::CommandFailed(m) => m.clone(),
        Event::TransferFailed(m) => m.clone(),
        _ => String::new(),
    }
}

fn command_result_of(e: &Event) -> (r: Result<String, String>)
    ensures
        result_view(&r) == command_result(*e),
{
    match e {
        Event::CommandOutput(m) => Ok(m.clone()),
        _ => Err(event_text_of(e)),
    }
}

fn is_transferred(e: &Event) -> (r: bool)
    ensures
        r == (*e is Transferred),
{
    match e {
        Event::Transferred => true,
        _ => false,
    }
}

fn is_authenticated(e: &Event) -> (r: bool)
    ensures
        r == (*e == (Event::Connected { authenticated: true })),
{
    match e {
        Event::Connected { authenticated } => *authenticated,
        _ => false,
    }
}

fn outcome_for(s: Step, e: &Event) -> (r: StepOutcome)
    requires
        s != Step::Finished,
    ensures
        r@ == outcome_of(s, *e),
{
    match s {
        Step::Connect => if is_authenticated(e) {
            StepOutcome::Succeeded
        } else {
            StepOutcome::Failed(event_text_of(e))
        },
        Step::EnsureDirectory => classify_directory_result(command_result_of(e)),
        Step::StopService | Step::StartService => classify_service_result(command_result_of(e)),
        Step::Upload | Step::InstallUnit => if is_transferred(e) {
            StepOutcome::Succeeded
        } else {
            StepOutcome::Failed(event_text_of(e))
        },
        _ => match command_result_of(e) {
            Ok(_) => StepOutcome::Succeeded,
            Err(m) => StepOutcome::Failed(m),
        },
    }
}

fn fatal_for(s: Step, e: &Event) -> (r: Option<RunError>)
    ensures
        error_view(r) == fatal_of(s, *e),
{
    match s {
        Step::Connect => match e {
            Event::Connected { authenticated } => if *authenticated {
                None
            } else {
                Some(RunError::Auth(String::new()))
            },
            Event::AuthRejected(m) => Some(RunError::Auth(m.clone())),
            _ => Some(RunError::Network(event_text_of(e))),
        },
        Step::Upload => if is_transferred(e) {
            None
        } else {
            Some(RunError::Transfer(event_text_of(e)))
        },
        _ => None,
    }
}

impl Deployment {
    /// A failure is recorded only once the run has ended; the service steps
    /// come only where a service is configured, and the installation steps
    /// only where it is also to be installed.
    pub open spec fn wf(&self) -> bool {
        &&& self.fatal is Some ==> self.step == Step::Finished
        &&& (self.step == Step::StopService || self.step == Step::StartService) ==> has_service(
            self.plan,
        )
        &&& (self.step == Step::InstallUnit || self.step == Step::ReloadUnits || self.step
            == Step::EnableUnit) ==> installs(self.plan)
    }

    /// A run of `plan`, not yet connected. Its unit file describes the
    /// uploaded executable, run in the plan's working directory.
    pub fn new(plan: DeploymentPlan) -> (r: Deployment)
        ensures
            r.wf(),
            r.plan == plan,
            r.step == Step::Connect,
            r.reports@.len() == 0,
            r.fatal is None,
            r.unit.has_defaults(),
            r.unit.unit.description@ == plan.description@,
            r.unit.service.working_directory@ == plan.working_directory@,
            r.unit.service.exec_start@ == plan.remote_path@,
    {
        let unit = ServiceFile::new(
            plan.description.as_str(),
            plan.working_directory.as_str(),
            plan.remote_path.as_str(),
        );
        Deployment { plan, unit, step: Step::Connect, reports: Vec::new(), fatal: None }
    }

    /// Whether the run has ended.
    pub fn is_finished(&self) -> (r: bool)
        ensures
            r == (self.step == Step::Finished),
    {
        self.step == Step::Finished
    }

    /// Whether the run has not been ended by a failure.
    pub fn succeeded(&self) -> (r: bool)
        ensures
            r == (self.fatal is None),
    {
        self.fatal.is_none()
    }

    /// The action that the current step asks for.
    pub fn next_action(&self) -> (r: Action)
        ensures
            r@ == action_for(*self, self.step),
    {
        match self.step {
            Step::Connect => Action::Connect,
            Step::EnsureDirectory => Action::Run(make_mkdir_command(self.plan.remote_dir.as_str())),
            Step::StopService => Action::Run(make_stop_command(service_str(&self.plan))),
            Step::Upload => Action::Upload {
                local: self.plan.local_path.clone(),
                remote: self.plan.remote_path.clone(),
            },
            Step::FixPermissions => Action::Run(
                make_chmod_command(self.plan.remote_path.as_str()),
            ),
            Step::InstallUnit => Action::UploadText {
                text: self.unit.serialize(),
                remote: make_unit_file_path(service_str(&self.plan)),
            },
            Step::ReloadUnits => Action::Run(make_reload_command()),
            Step::EnableUnit => Action::Run(make_enable_command(service_str(&self.plan))),
            Step::StartService => Action::Run(make_start_command(service_str(&self.plan))),
            Step::Finished => Action::Finish,
        }
    }

    /// Records what the current step's action produced and moves to the step
    /// that follows it.
    pub fn advance(&mut self, event: Event)
        requires
            old(self).wf(),
            old(self).step != Step::Finished,
        ensures
            final(self).wf(),
            final(self).plan == old(self).plan,
            final(self).unit == old(self).unit,
            final(self).step == next_step(old(self).plan, old(self).step, event),
            final(self).reports@.len() == old(self).reports@.len() + 1,
            final(self).reports@.drop_last() == old(self).reports@,
            final(self).reports@.last().step == old(self).step,
            final(self).reports@.last().outcome@ == outcome_of(old(self).step, event),
            error_view(final(self).fatal) == (if fatal_of(old(self).step, event) is Some {
                fatal_of(old(self).step, event)
            } else {
                error_view(old(self).fatal)
            }),
    {
        let step = self.step;
        let outcome = outcome_for(step, &event);
        let fatal = fatal_for(step, &event);
        let failed = match &outcome {
            StepOutcome::Failed(_) => true,
            _ => false,
        };
        let next = if fatal.is_some() {
            Step::Finished
        } else if (step == Step::InstallUnit || step == Step::ReloadUnits) && failed {
            Step::StartService
        } else {
            self.following(step)
        };
        self.reports.push(StepReport { step, outcome });
        if fatal.is_some() {
            self.fatal = fatal;
        }
        self.step = next;
        assert(self.reports@.drop_last() =~= old(self).reports@);
    }

    fn following(&self, s: Step) -> (r: Step)
        ensures
            r == step_after(self.plan, s),
    {
        let service = self.plan.service_name.is_some();
        match s {
            Step::Connect => Step::EnsureDirectory,
            Step::EnsureDirectory => if service {
                Step::StopService
            } else {
                Step::Upload
            },
            Step::StopService => Step::Upload,
            Step::Upload => Step::FixPermissions,
            Step::FixPermissions => if service && self.plan.install_service {
                Step::InstallUnit
            } else if service {
                Step::StartService
            } else {
                Step::Finished
            },
            Step::InstallUnit => Step::ReloadUnits,
            Step::ReloadUnits => Step::EnableUnit,
            Step::EnableUnit => Step::StartService,
            Step::StartService => Step::Finished,
            Step::Finished => Step::Finished,
        }
    }
}

} // verus!
