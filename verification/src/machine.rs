//! One run of the program as a state machine.
//!
//! The machine decides; the caller acts. Each step takes what happened to the
//! action that was asked for last and gives the next state together with the
//! next action. The machine itself touches nothing outside its arguments.

use crate::config::{
    create_config_args, enumerate, enumeration, generator_args, views, Config, ConfigView,
};
use crate::inspect::{parse_cmakelists_txt, properties_of, CMakeListsProperties};
use crate::options::{
    command_line, decide, parse_args, usage, usage_text_of, Invocation, InvocationView, Request,
    RequestView,
};
use crate::report::{
    creation_failure, creation_failure_text, existing_build_dir, existing_build_dir_text,
    lookup_failure, lookup_failure_text, progress_line, progress_text, script_failure,
    script_failure_text,
};
use crate::text::owned_texts;
use crate::toolchain::BuildSystem;
use vstd::prelude::*;
use vstd::string::*;

verus! {

/// A project directory that was found: its path as the generator gets it, and
/// as it is shown to the user.
#[derive(Clone, Debug, PartialEq, Eq)]
pub struct ProjectDir {
    pub path: String,
    pub shown: String,
}

pub ghost struct ProjectDirView {
    pub path: Seq<char>,
    pub shown: Seq<char>,
}

impl View for ProjectDir {
    type V = ProjectDirView;

    open spec fn view(&self) -> ProjectDirView {
        ProjectDirView { path: self.path@, shown: self.shown@ }
    }
}

/// What the configuration loop works on.
#[derive(Clone, Debug, PartialEq, Eq)]
pub struct Job {
    pub project_dir: String,
    pub build_system: BuildSystem,
    pub configs: Vec<Config>,
}

pub ghost struct JobView {
    pub project_dir: Seq<char>,
    pub build_system: BuildSystem,
    pub configs: Seq<ConfigView>,
}

impl View for Job {
    type V = JobView;

    open spec fn view(&self) -> JobView {
        JobView {
            project_dir: self.project_dir@,
            build_system: self.build_system,
            configs: views(self.configs@),
        }
    }
}

/// Where the work on one configuration stands. Each phase waits for the
/// outcome of one action.
#[derive(Clone, Copy, Debug, PartialEq, Eq, Structural)]
pub enum Phase {
    /// The progress line is being printed.
    Announcing,
    /// The subdirectory is being created.
    Making,
    /// The subdirectory is being entered.
    Entering,
    /// The generator is running.
    Generating,
    /// The working directory is being restored; the flag says whether the
    /// generator ended with status 0.
    Leaving(bool),
}

/// The states of a run. `LocatingProject` and `ReadingScript` make up the
/// inspection of the project, `ProbingBuildDir` and `CreatingBuildDir` the
/// creation of the build directory. `Done`, `Stopped` and `Error` are final.
#[derive(Clone, Debug, PartialEq, Eq)]
pub enum State {
    ParsingArgs,
    ShowingUsage,
    LocatingProject(Request),
    ReadingScript(Request, ProjectDir),
    ProbingBuildDir(Request, ProjectDir, CMakeListsProperties),
    CreatingBuildDir(Request, ProjectDir, CMakeListsProperties),
    RunningConfigs(Job, usize, Phase),
    Done,
    Stopped,
    Error,
}

pub ghost enum StateView {
    ParsingArgs,
    ShowingUsage,
    LocatingProject(RequestView),
    ReadingScript(RequestView, ProjectDirView),
    ProbingBuildDir(RequestView, ProjectDirView, CMakeListsProperties),
    CreatingBuildDir(RequestView, ProjectDirView, CMakeListsProperties),
    RunningConfigs(JobView, int, Phase),
    Done,
    Stopped,
    Error,
}

impl View for State {
    type V = StateView;

    open spec fn view(&self) -> StateView {
        match self {
            State::ParsingArgs => StateView::ParsingArgs,
            State::ShowingUsage => StateView::ShowingUsage,
            State::LocatingProject(request) => StateView::LocatingProject(request@),
            State::ReadingScript(request, dir) => StateView::ReadingScript(request@, dir@),
            State::ProbingBuildDir(request, dir, props) => StateView::ProbingBuildDir(
                request@,
                dir@,
                *props,
            ),
            State::CreatingBuildDir(request, dir, props) => StateView::CreatingBuildDir(
                request@,
                dir@,
                *props,
            ),
            State::RunningConfigs(job, index, phase) => StateView::RunningConfigs(
                job@,
                *index as int,
                *phase,
            ),
            State::Done => StateView::Done,
            State::Stopped => StateView::Stopped,
            State::Error => StateView::Error,
        }
    }
}

/// What happened to the action that was asked for last.
#[derive(Clone, Debug, PartialEq, Eq)]
pub enum Event {
    /// The program was started under the name `program` with the arguments
    /// `args`, the name not among them.
    Invoked { program: String, args: Vec<String> },
    /// The action was carried out and has nothing to report.
    Succeeded,
    /// The action failed; the text is the cause as the system gives it.
    Failed(String),
    /// The project directory is there.
    Located(ProjectDir),
    /// The project directory cannot be looked up.
    Missing { shown: String, cause: String },
    /// The build script was read; this is its text.
    Read(String),
    /// The build directory was looked for; `shown` is its path as it is shown
    /// to the user.
    Probed { exists: bool, shown: String },
    /// The generator ended; the flag says whether with status 0.
    Exited(bool),
}

pub ghost enum EventView {
    Invoked { program: Seq<char>, args: Seq<Seq<char>> },
    Succeeded,
    Failed(Seq<char>),
    Located(ProjectDirView),
    Missing { shown: Seq<char>, cause: Seq<char> },
    Read(Seq<char>),
    Probed { exists: bool, shown: Seq<char> },
    Exited(bool),
}

impl View for Event {
    type V = EventView;

    open spec fn view(&self) -> EventView {
        match self {
            Event::Invoked { program, args } => EventView::Invoked {
                program: program@,
                args: owned_texts(args@),
            },
            Event::Succeeded => EventView::Succeeded,
            Event::Failed(cause) => EventView::Failed(cause@),
            Event::Located(dir) => EventView::Located(dir@),
            Event::Missing { shown, cause } => EventView::Missing {
                shown: shown@,
                cause: cause@,
            },
            Event::Read(text) => EventView::Read(text@),
            Event::Probed { exists, shown } => EventView::Probed {
                exists: *exists,
                shown: shown@,
            },
            Event::Exited(success) => EventView::Exited(*success),
        }
    }
}

/// What the caller is asked to do next.
#[derive(Clone, Debug, PartialEq, Eq)]
pub enum Action {
    /// Print the usage text to standard output.
    ShowUsage(String),
    /// Resolve the project directory against the working directory and look
    /// it up.
    Locate(String),
    /// Read the file `file` in the directory `dir` as text.
    ReadScript { dir: String, file: String },
    /// Tell whether the build directory exists.
    Probe(String),
    /// Create the build directory and make it the working directory.
    CreateBuildDir(String),
    /// Print the progress line to standard output.
    Announce(String),
    /// Create the subdirectory of that name in the working directory.
    MakeDir(String),
    /// Make the subdirectory of that name the working directory.
    Enter(String),
    /// Run `program` with `args` and wait for it.
    Generate { program: String, args: Vec<String> },
    /// Make the build directory the working directory again.
    Leave,
    /// End the process with `code`, after printing `message`, if there is
    /// one, to standard error.
    Exit { code: i32, message: Option<String> },
}

pub ghost enum ActionView {
    ShowUsage(Seq<char>),
    Locate(Seq<char>),
    ReadScript { dir: Seq<char>, file: Seq<char> },
    Probe(Seq<char>),
    CreateBuildDir(Seq<char>),
    Announce(Seq<char>),
    MakeDir(Seq<char>),
    Enter(Seq<char>),
    Generate { program: Seq<char>, args: Seq<Seq<char>> },
    Leave,
    Exit { code: i32, message: Option<Seq<char>> },
}

/// The text of a message, if there is one.
pub open spec fn message_view(message: Option<String>) -> Option<Seq<char>> {
    match message {
        Some(text) => Some(text@),
        None => None,
    }
}

impl View for Action {
    type V = ActionView;

    open spec fn view(&self) -> ActionView {
        match self {
            Action::ShowUsage(text) => ActionView::ShowUsage(text@),
            Action::Locate(project) => ActionView::Locate(project@),
            Action::ReadScript { dir, file } => ActionView::ReadScript { dir: dir@, file: file@ },
            Action::Probe(name) => ActionView::Probe(name@),
            Action::CreateBuildDir(name) => ActionView::CreateBuildDir(name@),
            Action::Announce(line) => ActionView::Announce(line@),
            Action::MakeDir(name) => ActionView::MakeDir(name@),
            Action::Enter(name) => ActionView::Enter(name@),
            Action::Generate { program, args } => ActionView::Generate {
                program: program@,
                args: owned_texts(args@),
            },
            Action::Leave => ActionView::Leave,
            Action::Exit { code, message } => ActionView::Exit {
                code: *code,
                message: message_view(*message),
            },
        }
    }
}

/// The name of the build script in a project directory.
pub open spec fn script_name() -> Seq<char> {
    "CMakeLists.txt"@
}

/// The name of the generator.
pub open spec fn generator_program() -> Seq<char> {
    "cmake"@
}

/// The name of the build directory for the project directory `project`, as it
/// was typed.
pub open spec fn build_dir_name(project: Seq<char>) -> Seq<char> {
    "build-"@ + project
}

/// The end of a run that was given up without a message.
pub open spec fn fault() -> (StateView, ActionView) {
    (StateView::Error, ActionView::Exit { code: 1, message: None })
}

/// The end of a run that was given up with `message`.
pub open spec fn give_up(message: Seq<char>) -> (StateView, ActionView) {
    (StateView::Error, ActionView::Exit { code: 1, message: Some(message) })
}

/// The end of a run that went through.
pub open spec fn finish() -> (StateView, ActionView) {
    (StateView::Done, ActionView::Exit { code: 0, message: None })
}

/// The start of the work on the configuration at `index`, or the end of the
/// run if there is none.
pub open spec fn start_config(job: JobView, index: int) -> (StateView, ActionView) {
    if 0 <= index < job.configs.len() {
        (
            StateView::RunningConfigs(job, index, Phase::Announcing),
            ActionView::Announce(progress_text(job.configs[index].name)),
        )
    } else {
        finish()
    }
}

/// The step of the machine in the middle of the work on the configuration at
/// `index`, which is one of the job's.
pub open spec fn config_step(job: JobView, index: int, phase: Phase, event: EventView) -> (
    StateView,
    ActionView,
) {
    let config = job.configs[index];
    match (phase, event) {
        (Phase::Announcing, EventView::Succeeded) => (
            StateView::RunningConfigs(job, index, Phase::Making),
            ActionView::MakeDir(config.name),
        ),
        (Phase::Making, EventView::Succeeded) => (
            StateView::RunningConfigs(job, index, Phase::Entering),
            ActionView::Enter(config.name),
        ),
        (Phase::Making, EventView::Failed(cause)) => give_up(
            creation_failure_text(config.name, cause),
        ),
        (Phase::Entering, EventView::Succeeded) => (
            StateView::RunningConfigs(job, index, Phase::Generating),
            ActionView::Generate {
                program: generator_program(),
                args: generator_args(config, job.build_system, job.project_dir),
            },
        ),
        (Phase::Generating, EventView::Exited(success)) => (
            StateView::RunningConfigs(job, index, Phase::Leaving(success)),
            ActionView::Leave,
        ),
        (Phase::Leaving(success), EventView::Succeeded) => if success {
            start_config(job, index + 1)
        } else {
            finish()
        },
        _ => fault(),
    }
}

/// The step of the machine: the state after `event` arrived in `state`, and
/// the action that is asked for next. An event that the state does not wait
/// for ends the run with exit code 1 and without a message. A final state
/// stays as it is and asks for the exit again.
pub open spec fn step_spec(state: StateView, event: EventView) -> (StateView, ActionView) {
    match state {
        StateView::ParsingArgs => match event {
            EventView::Invoked { program, args } => match decide(command_line(args)) {
                InvocationView::Usage => (
                    StateView::ShowingUsage,
                    ActionView::ShowUsage(usage_text_of(program)),
                ),
                InvocationView::Rejected(message) => give_up(message),
                InvocationView::Proceed(request) => (
                    StateView::LocatingProject(request),
                    ActionView::Locate(request.project),
                ),
            },
            _ => fault(),
        },
        StateView::ShowingUsage => match event {
            EventView::Succeeded => (
                StateView::Stopped,
                ActionView::Exit { code: 1, message: None },
            ),
            _ => fault(),
        },
        StateView::LocatingProject(request) => match event {
            EventView::Located(dir) => (
                StateView::ReadingScript(request, dir),
                ActionView::ReadScript { dir: dir.path, file: script_name() },
            ),
            EventView::Missing { shown, cause } => give_up(lookup_failure_text(shown, cause)),
            _ => fault(),
        },
        StateView::ReadingScript(request, dir) => match event {
            EventView::Read(text) => (
                StateView::ProbingBuildDir(request, dir, properties_of(text)),
                ActionView::Probe(build_dir_name(request.project)),
            ),
            EventView::Failed(cause) => give_up(script_failure_text(dir.shown, cause)),
            _ => fault(),
        },
        StateView::ProbingBuildDir(request, dir, props) => match event {
            EventView::Probed { exists, shown } => if exists {
                give_up(existing_build_dir_text(shown))
            } else {
                (
                    StateView::CreatingBuildDir(request, dir, props),
                    ActionView::CreateBuildDir(build_dir_name(request.project)),
                )
            },
            _ => fault(),
        },
        StateView::CreatingBuildDir(request, dir, props) => match event {
            EventView::Succeeded => start_config(
                JobView {
                    project_dir: dir.path,
                    build_system: request.build_system,
                    configs: enumeration(props.has_sanitize, request.no_sanitize),
                },
                0,
            ),
            EventView::Failed(cause) => give_up(
                creation_failure_text(build_dir_name(request.project), cause),
            ),
            _ => fault(),
        },
        StateView::RunningConfigs(job, index, phase) => if 0 <= index < job.configs.len() {
            config_step(job, index, phase, event)
        } else {
            fault()
        },
        StateView::Done => finish(),
        StateView::Stopped => (StateView::Stopped, ActionView::Exit { code: 1, message: None }),
        StateView::Error => fault(),
    }
}

/// The name of the build directory for the project directory `project`.
pub fn build_dir(project: &str) -> (name: String)
    ensures
        name@ == build_dir_name(project@),
{
    let mut name = String::from_str("build-");
    name.append(project);
    name
}

/// The view of a state and an action side by side.
pub open spec fn pair_view(pair: (State, Action)) -> (StateView, ActionView) {
    (pair.0@, pair.1@)
}

fn stop_silently() -> (next: (State, Action))
    ensures
        pair_view(next) == fault(),
{
    (State::Error, Action::Exit { code: 1, message: None })
}

fn stop_with(message: String) -> (next: (State, Action))
    ensures
        pair_view(next) == give_up(message@),
{
    (State::Error, Action::Exit { code: 1, message: Some(message) })
}

fn complete() -> (next: (State, Action))
    ensures
        pair_view(next) == finish(),
{
    (State::Done, Action::Exit { code: 0, message: None })
}

/// Starts the work on the configuration at `index`, or ends the run if the
/// job has none there.
fn begin_config(job: Job, index: usize) -> (next: (State, Action))
    ensures
        pair_view(next) == start_config(job@, index as int),
{
    if index < job.configs.len() {
        let line = progress_line(job.configs[index].name.as_str());
        (State::RunningConfigs(job, index, Phase::Announcing), Action::Announce(line))
    } else {
        complete()
    }
}

/// The step of the machine in the middle of the work on one configuration.
fn advance_config(job: Job, index: usize, phase: Phase, event: Event) -> (next: (
    State,
    Action,
))
    requires
        index < job.configs.len(),
    ensures
        pair_view(next) == config_step(job@, index as int, phase, event@),
{
    match phase {
        Phase::Announcing => match event {
            Event::Succeeded => {
                let name = job.configs[index].name.clone();
                (State::RunningConfigs(job, index, Phase::Making), Action::MakeDir(name))
            },
            _ => stop_silently(),
        },
        Phase::Making => match event {
            Event::Succeeded => {
                let name = job.configs[index].name.clone();
                (State::RunningConfigs(job, index, Phase::Entering), Action::Enter(name))
            },
            Event::Failed(cause) => stop_with(
                creation_failure(job.configs[index].name.as_str(), cause.as_str()),
            ),
            _ => stop_silently(),
        },
        Phase::Entering => match event {
            Event::Succeeded => {
                let args = create_config_args(
                    &job.configs[index],
                    job.build_system,
                    job.project_dir.as_str(),
                );
                (
                    State::RunningConfigs(job, index, Phase::Generating),
                    Action::Generate { program: String::from_str("cmake"), args },
                )
            },
            _ => stop_silently(),
        },
        Phase::Generating => match event {
            Event::Exited(success) => (
                State::RunningConfigs(job, index, Phase::Leaving(success)),
                Action::Leave,
            ),
            _ => stop_silently(),
        },
        Phase::Leaving(success) => match event {
            Event::Succeeded => {
                if success {
                    begin_config(job, index + 1)
                } else {
                    complete()
                }
            },
            _ => stop_silently(),
        },
    }
}

impl State {
    /// The state in which every run begins.
    pub fn new() -> (state: State)
        ensures
            state@ == StateView::ParsingArgs,
    {
        State::ParsingArgs
    }
}

/// The step of the machine: takes what happened to the action that was asked
/// for last, and gives the next state and the next action.
pub fn step(state: State, event: Event) -> (next: (State, Action))
    ensures
        pair_view(next) == step_spec(state@, event@),
{
    match state {
        State::ParsingArgs => match event {
            Event::Invoked { program, args } => match parse_args(&args) {
                Invocation::Usage => (
                    State::ShowingUsage,
                    Action::ShowUsage(usage(program.as_str())),
                ),
                Invocation::Rejected(message) => stop_with(message),
                Invocation::Proceed(request) => {
                    let project = request.project.clone();
                    (State::LocatingProject(request), Action::Locate(project))
                },
            },
            _ => stop_silently(),
        },
        State::ShowingUsage => match event {
            Event::Succeeded => (State::Stopped, Action::Exit { code: 1, message: None }),
            _ => stop_silently(),
        },
        State::LocatingProject(request) => match event {
            Event::Located(dir) => {
                let path = dir.path.clone();
                (
                    State::ReadingScript(request, dir),
                    Action::ReadScript { dir: path, file: String::from_str("CMakeLists.txt") },
                )
            },
            Event::Missing { shown, cause } => stop_with(
                lookup_failure(shown.as_str(), cause.as_str()),
            ),
            _ => stop_silently(),
        },
        State::ReadingScript(request, dir) => match event {
            Event::Read(text) => {
                let props = parse_cmakelists_txt(text.as_str());
                let name = build_dir(request.project.as_str());
                (State::ProbingBuildDir(request, dir, props), Action::Probe(name))
            },
            Event::Failed(cause) => stop_with(script_failure(dir.shown.as_str(), cause.as_str())),
            _ => stop_silently(),
        },
        State::ProbingBuildDir(request, dir, props) => match event {
            Event::Probed { exists, shown } => {
                if exists {
                    stop_with(existing_build_dir(shown.as_str()))
                } else {
                    let name = build_dir(request.project.as_str());
                    (State::CreatingBuildDir(request, dir, props), Action::CreateBuildDir(name))
                }
            },
            _ => stop_silently(),
        },
        State::CreatingBuildDir(request, dir, props) => match event {
            Event::Succeeded => {
                let configs = enumerate(&props, request.no_sanitize);
                let job = Job {
                    project_dir: dir.path,
                    build_system: request.build_system,
                    configs,
                };
                begin_config(job, 0)
            },
            Event::Failed(cause) => stop_with(
                creation_failure(build_dir(request.project.as_str()).as_str(), cause.as_str()),
            ),
            _ => stop_silently(),
        },
        State::RunningConfigs(job, index, phase) => {
            if index < job.configs.len() {
                advance_config(job, index, phase, event)
            } else {
                stop_silently()
            }
        },
        State::Done => complete(),
        State::Stopped => (State::Stopped, Action::Exit { code: 1, message: None }),
        State::Error => stop_silently(),
    }
}

} // verus!
