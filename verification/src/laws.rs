//! What holds of every run: statements about the command line, the
//! enumeration and the generator's arguments, each proved from the
//! definitions the functions of this crate are specified by.

use crate::config::{
    base_configs, config_name, enumeration, generator_args, sanitizer_configs, ConfigView,
};
use crate::inspect::{occurs, properties_of, sanitize_marker};
use crate::machine::{
    build_dir_name, generator_program, script_name, step_spec, ActionView, EventView, Phase,
    StateView,
};
use crate::options::{command_line, decide, usage_text_of, FlagsView, InvocationView};
use crate::report::{existing_build_dir_text, progress_text};
use crate::toolchain::{BuildSystem, BuildType, Compiler};
use vstd::prelude::*;

verus! {

/// The names of a list of records, in order.
pub open spec fn names(configs: Seq<ConfigView>) -> Seq<Seq<char>> {
    Seq::new(configs.len(), |i: int| configs[i].name)
}

/// The names of the base set, in order.
pub open spec fn base_names() -> Seq<Seq<char>> {
    seq!["GCC-Debug"@, "GCC-Release"@, "Clang-Debug"@, "Clang-Release"@]
}

/// The names of the sanitizer set, in order.
pub open spec fn sanitizer_names() -> Seq<Seq<char>> {
    seq!["Clang-Asan"@, "Clang-Ubsan"@, "Clang-Tsan"@]
}

/// A request for help and a missing project directory end alike, whatever
/// the other flags are: with the usage text and nothing else.
pub proof fn help_and_missing_project_end_alike(with_help: FlagsView, without_project: FlagsView)
    requires
        with_help.help,
        without_project.free.len() == 0,
    ensures
        decide(Ok(with_help)) == InvocationView::Usage,
        decide(Ok(without_project)) == InvocationView::Usage,
{
}

/// What the names of the seven configurations are made of.
proof fn lemma_names()
    ensures
        names(base_configs()) == base_names(),
        names(sanitizer_configs()) == sanitizer_names(),
        base_names().len() == 4,
        sanitizer_names().len() == 3,
        "GCC-Debug"@.len() == 9,
        "GCC-Release"@.len() == 11,
        "Clang-Debug"@.len() == 11,
        "Clang-Release"@.len() == 13,
        "Clang-Asan"@.len() == 10,
        "Clang-Ubsan"@.len() == 11,
        "Clang-Tsan"@.len() == 10,
        "GCC-Release"@[0] == 'G',
        "Clang-Debug"@[0] == 'C',
        "Clang-Debug"@[6] == 'D',
        "Clang-Ubsan"@[0] == 'C',
        "Clang-Ubsan"@[6] == 'U',
        "Clang-Asan"@[6] == 'A',
        "Clang-Tsan"@[6] == 'T',
{
    reveal_strlit("GCC");
    reveal_strlit("Clang");
    reveal_strlit("-");
    reveal_strlit("Debug");
    reveal_strlit("Release");
    reveal_strlit("Asan");
    reveal_strlit("Ubsan");
    reveal_strlit("Tsan");
    reveal_strlit("GCC-Debug");
    reveal_strlit("GCC-Release");
    reveal_strlit("Clang-Debug");
    reveal_strlit("Clang-Release");
    reveal_strlit("Clang-Asan");
    reveal_strlit("Clang-Ubsan");
    reveal_strlit("Clang-Tsan");
    assert(config_name(Compiler::Gcc, "Debug"@) =~= "GCC-Debug"@);
    assert(config_name(Compiler::Gcc, "Release"@) =~= "GCC-Release"@);
    assert(config_name(Compiler::Clang, "Debug"@) =~= "Clang-Debug"@);
    assert(config_name(Compiler::Clang, "Release"@) =~= "Clang-Release"@);
    assert(config_name(Compiler::Clang, "Asan"@) =~= "Clang-Asan"@);
    assert(config_name(Compiler::Clang, "Ubsan"@) =~= "Clang-Ubsan"@);
    assert(config_name(Compiler::Clang, "Tsan"@) =~= "Clang-Tsan"@);
    assert(names(base_configs()) =~= base_names());
    assert(names(sanitizer_configs()) =~= sanitizer_names());
}

/// A project whose build script holds the marker gets, unless the sanitizer
/// configurations are switched off, seven configurations under these names
/// and in this order; any other project, and any project for which they are
/// switched off, gets the four of the base set.
pub proof fn enumerated_names(script: Seq<char>, no_sanitize: bool)
    ensures
        ({
            let configs = enumeration(properties_of(script).has_sanitize, no_sanitize);
            if occurs(script, sanitize_marker()) && !no_sanitize {
                &&& configs.len() == 7
                &&& names(configs) == base_names() + sanitizer_names()
            } else {
                &&& configs.len() == 4
                &&& names(configs) == base_names()
            }
        }),
{
    lemma_names();
    let configs = enumeration(properties_of(script).has_sanitize, no_sanitize);
    if occurs(script, sanitize_marker()) && !no_sanitize {
        assert(names(configs) =~= names(base_configs()) + names(sanitizer_configs()));
    }
}

/// The base set stands at the head of every enumeration, and every
/// enumeration is the base set alone or the base set followed by the
/// sanitizer set.
pub proof fn base_configs_come_first(supports_sanitize: bool, no_sanitize: bool)
    ensures
        base_configs().len() == 4,
        enumeration(supports_sanitize, no_sanitize).len() >= 4,
        enumeration(supports_sanitize, no_sanitize).subrange(0, 4) == base_configs(),
{
    assert(enumeration(supports_sanitize, no_sanitize).subrange(0, 4) =~= base_configs());
}

/// No two configurations of a run have the same name.
pub proof fn names_are_distinct(supports_sanitize: bool, no_sanitize: bool, i: int, j: int)
    requires
        0 <= i < j < enumeration(supports_sanitize, no_sanitize).len(),
    ensures
        enumeration(supports_sanitize, no_sanitize)[i].name != enumeration(
            supports_sanitize,
            no_sanitize,
        )[j].name,
{
    lemma_names();
    let all = names(base_configs() + sanitizer_configs());
    assert(all =~= base_names() + sanitizer_names());
    let configs = enumeration(supports_sanitize, no_sanitize);
    assert(configs[i].name == all[i]);
    assert(configs[j].name == all[j]);
}

/// Each record of a run is named after its compiler and its suffix, and for
/// the sanitizer records the suffix is the sanitizer's.
pub proof fn names_are_derived(supports_sanitize: bool, no_sanitize: bool, i: int)
    requires
        0 <= i < enumeration(supports_sanitize, no_sanitize).len(),
    ensures
        ({
            let config = enumeration(supports_sanitize, no_sanitize)[i];
            let suffix = if i < 4 {
                match config.build_type {
                    BuildType::Debug => "Debug"@,
                    BuildType::Release => "Release"@,
                }
            } else if i == 4 {
                "Asan"@
            } else if i == 5 {
                "Ubsan"@
            } else {
                "Tsan"@
            };
            config.name == config.compiler.display_name() + "-"@ + suffix
        }),
{
}

/// Switching Ninja off changes the build-system selector and nothing else:
/// the same command lines proceed, to the same project and the same
/// configurations, and the generator's arguments differ at most in the
/// selector, which stands second.
pub proof fn no_ninja_changes_only_the_selector(
    flags: FlagsView,
    supports_sanitize: bool,
    project_dir: Seq<char>,
    i: int,
    k: int,
)
    requires
        !flags.help,
        flags.free.len() > 0,
        0 <= i < enumeration(supports_sanitize, flags.no_sanitize).len(),
    ensures
        ({
            let with_ninja = decide(Ok(FlagsView { no_ninja: false, ..flags }));
            let with_make = decide(Ok(FlagsView { no_ninja: true, ..flags }));
            let config = enumeration(supports_sanitize, flags.no_sanitize)[i];
            let ninja_args = generator_args(config, BuildSystem::Ninja, project_dir);
            let make_args = generator_args(config, BuildSystem::Make, project_dir);
            &&& with_ninja matches InvocationView::Proceed(ninja)
            &&& with_make matches InvocationView::Proceed(make)
            &&& ninja.build_system == BuildSystem::Ninja
            &&& make.build_system == BuildSystem::Make
            &&& ninja.project == make.project
            &&& ninja.no_sanitize == make.no_sanitize
            &&& enumeration(supports_sanitize, ninja.no_sanitize) == enumeration(
                supports_sanitize,
                make.no_sanitize,
            )
            &&& ninja_args.len() == make_args.len()
            &&& ninja_args[1] == BuildSystem::Ninja.cmake_arg()
            &&& make_args[1] == BuildSystem::Make.cmake_arg()
            &&& 0 <= k < ninja_args.len() && k != 1 ==> ninja_args[k] == make_args[k]
        }),
{
}

/// Where the working directory of the process is.
pub ghost enum Cursor {
    /// In the directory in which the program was started.
    Origin,
    /// In the build directory.
    BuildRoot,
    /// In the subdirectory of a configuration.
    ConfigDir,
}

/// Where the working directory is after `event` reported on `action`, when it
/// was at `cursor` before. Three actions move it, and only where they
/// succeed.
pub open spec fn moved(cursor: Cursor, action: Option<ActionView>, event: EventView) -> Cursor {
    match (action, event) {
        (Some(ActionView::CreateBuildDir(_)), EventView::Succeeded) => Cursor::BuildRoot,
        (Some(ActionView::Enter(_)), EventView::Succeeded) => Cursor::ConfigDir,
        (Some(ActionView::Leave), EventView::Succeeded) => Cursor::BuildRoot,
        _ => cursor,
    }
}

/// Whether carrying out the action writes to the file system.
pub open spec fn touches_disk(action: Option<ActionView>) -> bool {
    match action {
        Some(ActionView::CreateBuildDir(_)) => true,
        Some(ActionView::MakeDir(_)) => true,
        Some(ActionView::Generate { .. }) => true,
        _ => false,
    }
}

/// A moment of a run: the state of the machine, the action it has asked for
/// and not yet heard of, and the place of the working directory.
pub ghost struct Moment {
    pub state: StateView,
    pub pending: Option<ActionView>,
    pub cursor: Cursor,
}

/// The moment a run has reached after the events `events`, each of which
/// reports on the action that was asked for just before it.
pub open spec fn run(events: Seq<EventView>) -> Moment
    decreases events.len(),
{
    if events.len() == 0 {
        Moment { state: StateView::ParsingArgs, pending: None, cursor: Cursor::Origin }
    } else {
        let before = run(events.drop_last());
        let next = step_spec(before.state, events.last());
        Moment {
            state: next.0,
            pending: Some(next.1),
            cursor: moved(before.cursor, before.pending, events.last()),
        }
    }
}

/// What holds at every moment of every run: each state waits for the one
/// action that belongs to it, with the working directory where that action
/// needs it, and the index of a running configuration is one of the job's.
pub open spec fn consistent(moment: Moment) -> bool {
    match moment.state {
        StateView::ParsingArgs => {
            &&& moment.cursor == Cursor::Origin
            &&& moment.pending is None
        },
        StateView::ShowingUsage => {
            &&& moment.cursor == Cursor::Origin
            &&& moment.pending matches Some(ActionView::ShowUsage(_))
        },
        StateView::LocatingProject(request) => {
            &&& moment.cursor == Cursor::Origin
            &&& moment.pending == Some(ActionView::Locate(request.project))
        },
        StateView::ReadingScript(_, dir) => {
            &&& moment.cursor == Cursor::Origin
            &&& moment.pending == Some(
                ActionView::ReadScript { dir: dir.path, file: script_name() },
            )
        },
        StateView::ProbingBuildDir(request, _, _) => {
            &&& moment.cursor == Cursor::Origin
            &&& moment.pending == Some(ActionView::Probe(build_dir_name(request.project)))
        },
        StateView::CreatingBuildDir(request, _, _) => {
            &&& moment.cursor == Cursor::Origin
            &&& moment.pending == Some(
                ActionView::CreateBuildDir(build_dir_name(request.project)),
            )
        },
        StateView::RunningConfigs(job, index, phase) => {
            &&& 0 <= index < job.configs.len()
            &&& moment.cursor == match phase {
                Phase::Announcing => Cursor::BuildRoot,
                Phase::Making => Cursor::BuildRoot,
                Phase::Entering => Cursor::BuildRoot,
                Phase::Generating => Cursor::ConfigDir,
                Phase::Leaving(_) => Cursor::ConfigDir,
            }
            &&& moment.pending == Some(
                match phase {
                    Phase::Announcing => ActionView::Announce(
                        progress_text(job.configs[index].name),
                    ),
                    Phase::Making => ActionView::MakeDir(job.configs[index].name),
                    Phase::Entering => ActionView::Enter(job.configs[index].name),
                    Phase::Generating => ActionView::Generate {
                        program: generator_program(),
                        args: generator_args(
                            job.configs[index],
                            job.build_system,
                            job.project_dir,
                        ),
                    },
                    Phase::Leaving(_) => ActionView::Leave,
                },
            )
        },
        StateView::Done => {
            &&& moment.cursor == Cursor::BuildRoot
            &&& moment.pending == Some(ActionView::Exit { code: 0, message: None })
        },
        StateView::Stopped => {
            &&& moment.cursor == Cursor::Origin
            &&& moment.pending == Some(ActionView::Exit { code: 1, message: None })
        },
        StateView::Error => moment.pending matches Some(ActionView::Exit { code: 1, .. }),
    }
}

/// Every moment of every run is consistent.
pub proof fn runs_are_consistent(events: Seq<EventView>)
    ensures
        consistent(run(events)),
    decreases events.len(),
{
    if events.len() > 0 {
        runs_are_consistent(events.drop_last());
    }
}

/// A command line that is answered with the usage text ends the run with
/// exit code 1 and without a message, once the text is shown.
pub proof fn usage_ends_with_code_one(program: Seq<char>, args: Seq<Seq<char>>)
    requires
        decide(command_line(args)) == InvocationView::Usage,
    ensures
        ({
            let invoked = seq![EventView::Invoked { program, args }];
            let shown = invoked.push(EventView::Succeeded);
            &&& run(invoked).state == StateView::ShowingUsage
            &&& run(invoked).pending == Some(ActionView::ShowUsage(usage_text_of(program)))
            &&& run(shown).state == StateView::Stopped
            &&& run(shown).pending == Some(ActionView::Exit { code: 1, message: None })
            &&& run(shown).cursor == Cursor::Origin
        }),
{
    let invoked = seq![EventView::Invoked { program, args }];
    let shown = invoked.push(EventView::Succeeded);
    assert(invoked.drop_last() =~= Seq::<EventView>::empty());
    assert(shown.drop_last() =~= invoked);
    assert(run(invoked.drop_last()).state == StateView::ParsingArgs);
}

/// A run ends with exit code 0 exactly if it ends in the state `Done`, and
/// then the working directory is the build directory.
pub proof fn finished_runs_rest_in_the_build_dir(events: Seq<EventView>)
    ensures
        run(events).state is Done ==> run(events).cursor == Cursor::BuildRoot,
        run(events).pending matches Some(ActionView::Exit { code, .. }) ==> (code == 0
            <==> run(events).state is Done),
{
    runs_are_consistent(events);
}

/// The subdirectory that is created for a configuration, and the one that is
/// entered for it, has the configuration's name, letter for letter.
pub proof fn subdirectories_carry_the_configuration_names(events: Seq<EventView>)
    ensures
        run(events).state matches StateView::RunningConfigs(job, index, Phase::Making)
            ==> run(events).pending == Some(ActionView::MakeDir(job.configs[index].name)),
        run(events).state matches StateView::RunningConfigs(job, index, Phase::Entering)
            ==> run(events).pending == Some(ActionView::Enter(job.configs[index].name)),
        run(events).pending matches Some(ActionView::MakeDir(name))
            ==> run(events).state matches StateView::RunningConfigs(job, index, Phase::Making)
            && name == job.configs[index].name,
{
    runs_are_consistent(events);
}

/// The run is still before the creation of the build directory.
pub open spec fn before_build_dir(state: StateView) -> bool {
    match state {
        StateView::ParsingArgs => true,
        StateView::ShowingUsage => true,
        StateView::LocatingProject(_) => true,
        StateView::ReadingScript(_, _) => true,
        StateView::ProbingBuildDir(_, _, _) => true,
        _ => false,
    }
}

proof fn lemma_nothing_written_yet(events: Seq<EventView>, k: int)
    requires
        before_build_dir(run(events).state),
        0 <= k <= events.len(),
    ensures
        before_build_dir(run(events.take(k)).state),
        !touches_disk(run(events.take(k)).pending),
    decreases events.len(),
{
    if k == events.len() {
        assert(events.take(k) =~= events);
        runs_are_consistent(events);
    } else {
        assert(events.take(k) =~= events.drop_last().take(k));
        lemma_nothing_written_yet(events.drop_last(), k);
    }
}

/// A build directory that is already there ends the run with exit code 1 and
/// the message that names it, and up to then no action was asked for that
/// writes to the file system.
pub proof fn existing_build_dir_is_refused(events: Seq<EventView>, shown: Seq<char>, k: int)
    requires
        run(events).state is ProbingBuildDir,
        0 <= k <= events.len(),
    ensures
        ({
            let end = run(events.push(EventView::Probed { exists: true, shown }));
            &&& end.state == StateView::Error
            &&& end.pending == Some(
                ActionView::Exit { code: 1, message: Some(existing_build_dir_text(shown)) },
            )
            &&& end.cursor == Cursor::Origin
            &&& !touches_disk(run(events.take(k)).pending)
        }),
{
    let last = events.push(EventView::Probed { exists: true, shown });
    assert(last.drop_last() =~= events);
    runs_are_consistent(events);
    lemma_nothing_written_yet(events, k);
}

/// The run has seen a generator fail and is on its way out.
pub open spec fn winding_down(state: StateView) -> bool {
    match state {
        StateView::RunningConfigs(_, _, Phase::Leaving(false)) => true,
        StateView::Done => true,
        StateView::Error => true,
        _ => false,
    }
}

proof fn lemma_no_generator_after_failure(failed: Seq<EventView>, more: Seq<EventView>)
    requires
        winding_down(run(failed).state),
        !(run(failed).pending matches Some(ActionView::Generate { .. })),
    ensures
        winding_down(run(failed + more).state),
        !(run(failed + more).pending matches Some(ActionView::Generate { .. })),
    decreases more.len(),
{
    if more.len() == 0 {
        assert(failed + more =~= failed);
    } else {
        assert((failed + more).drop_last() =~= failed + more.drop_last());
        lemma_no_generator_after_failure(failed, more.drop_last());
    }
}

/// A generator that ends with another status than 0 ends the run: the
/// working directory is restored, the run ends in the build directory with
/// exit code 0, and whatever is reported after the failure, the generator is
/// not asked for again.
pub proof fn failed_generator_ends_the_run(events: Seq<EventView>, more: Seq<EventView>)
    requires
        run(events).state matches StateView::RunningConfigs(_, _, Phase::Generating),
    ensures
        ({
            let failed = events.push(EventView::Exited(false));
            let restored = failed.push(EventView::Succeeded);
            &&& run(failed).pending == Some(ActionView::Leave)
            &&& run(restored).state == StateView::Done
            &&& run(restored).pending == Some(ActionView::Exit { code: 0, message: None })
            &&& run(restored).cursor == Cursor::BuildRoot
            &&& !(run(failed + more).pending matches Some(ActionView::Generate { .. }))
        }),
{
    let failed = events.push(EventView::Exited(false));
    let restored = failed.push(EventView::Succeeded);
    assert(failed.drop_last() =~= events);
    assert(restored.drop_last() =~= failed);
    runs_are_consistent(events);
    runs_are_consistent(failed);
    lemma_no_generator_after_failure(failed, more);
}

} // verus!
