use cmake_configs::machine::{build_dir, step, Action, Event, Phase, ProjectDir, State};

fn args(items: &[&str]) -> Vec<String> {
    items.iter().map(|s| s.to_string()).collect()
}

fn invoked(items: &[&str]) -> Event {
    Event::Invoked { program: "mkbuild".to_string(), args: args(items) }
}

fn located() -> Event {
    Event::Located(ProjectDir { path: "/w/proj".to_string(), shown: "\"/w/proj\"".to_string() })
}

fn exit(code: i32, message: Option<&str>) -> Action {
    Action::Exit { code, message: message.map(|m| m.to_string()) }
}

/// Feeds the events to a fresh machine and gives the last state and every action.
fn drive(events: Vec<Event>) -> (State, Vec<Action>) {
    let mut state = State::new();
    let mut actions = Vec::new();
    for event in events {
        let (next, action) = step(state, event);
        state = next;
        actions.push(action);
    }
    (state, actions)
}

/// The events that bring a run to the first configuration.
fn up_to_first_config(flags: &[&str], script: &str) -> Vec<Event> {
    let mut list = vec!["proj"];
    list.extend_from_slice(flags);
    vec![
        invoked(&list),
        located(),
        Event::Read(script.to_string()),
        Event::Probed { exists: false, shown: "\"build-proj\"".to_string() },
        Event::Succeeded,
    ]
}

/// The events of one configuration whose generator ends with `success`.
fn one_config(success: bool) -> Vec<Event> {
    vec![Event::Succeeded, Event::Succeeded, Event::Succeeded, Event::Exited(success), Event::Succeeded]
}

fn generated(actions: &[Action]) -> Vec<Vec<String>> {
    actions
        .iter()
        .filter_map(|a| match a {
            Action::Generate { args, .. } => Some(args.clone()),
            _ => None,
        })
        .collect()
}

fn made(actions: &[Action]) -> Vec<String> {
    actions
        .iter()
        .filter_map(|a| match a {
            Action::MakeDir(name) => Some(name.clone()),
            _ => None,
        })
        .collect()
}

#[test]
fn a_run_begins_with_the_arguments() {
    assert_eq!(State::new(), State::ParsingArgs);
}

#[test]
fn build_dir_is_named_after_the_argument() {
    assert_eq!(build_dir("proj"), "build-proj");
    assert_eq!(build_dir("../a/b"), "build-../a/b");
    assert_eq!(build_dir(""), "build-");
}

#[test]
fn help_shows_the_usage_and_stops_with_code_one() {
    let (state, actions) = drive(vec![invoked(&["-h"]), Event::Succeeded]);
    assert_eq!(state, State::Stopped);
    assert_eq!(actions.len(), 2);
    assert!(matches!(&actions[0], Action::ShowUsage(text)
        if text.starts_with("Usage: mkbuild project_dir [options]\n")));
    assert_eq!(actions[1], exit(1, None));
}

#[test]
fn a_missing_project_ends_like_help() {
    let with_help = drive(vec![invoked(&["--help", "--no-ninja"]), Event::Succeeded]);
    let without_project = drive(vec![invoked(&["--no-sanitize"]), Event::Succeeded]);
    assert_eq!(with_help, without_project);
}

#[test]
fn a_rejected_command_line_ends_with_the_parsers_message() {
    let (state, actions) = drive(vec![invoked(&["--help=no"])]);
    assert_eq!(state, State::Error);
    assert_eq!(actions, vec![exit(1, Some("Option 'help' does not take an argument"))]);
}

#[test]
fn the_project_is_located_first() {
    let (state, actions) = drive(vec![invoked(&["proj", "--no-ninja"])]);
    assert!(matches!(state, State::LocatingProject(_)));
    assert_eq!(actions, vec![Action::Locate("proj".to_string())]);
}

#[test]
fn a_missing_project_directory_is_fatal() {
    let (state, actions) = drive(vec![
        invoked(&["proj"]),
        Event::Missing {
            shown: "\"/w/proj\"".to_string(),
            cause: "No such file or directory (os error 2)".to_string(),
        },
    ]);
    assert_eq!(state, State::Error);
    assert_eq!(
        actions[1],
        exit(
            1,
            Some(
                "Error while trying to look up directory \"/w/proj\": \
                 No such file or directory (os error 2)"
            )
        )
    );
}

#[test]
fn the_build_script_is_read_from_the_project_directory() {
    let (state, actions) = drive(vec![invoked(&["proj"]), located()]);
    assert!(matches!(state, State::ReadingScript(_, _)));
    assert_eq!(
        actions[1],
        Action::ReadScript { dir: "/w/proj".to_string(), file: "CMakeLists.txt".to_string() }
    );
}

#[test]
fn an_unreadable_build_script_is_fatal() {
    let (state, actions) = drive(vec![
        invoked(&["proj"]),
        located(),
        Event::Failed("Permission denied (os error 13)".to_string()),
    ]);
    assert_eq!(state, State::Error);
    assert_eq!(
        actions[2],
        exit(1, Some("Failed to open CMakeLists.txt in \"/w/proj\": Permission denied (os error 13)"))
    );
    assert!(made(&actions).is_empty());
}

#[test]
fn an_existing_build_directory_is_refused() {
    let (state, actions) = drive(vec![
        invoked(&["proj"]),
        located(),
        Event::Read("${SANITIZE}".to_string()),
        Event::Probed { exists: true, shown: "\"build-proj\"".to_string() },
    ]);
    assert_eq!(state, State::Error);
    assert_eq!(actions[2], Action::Probe("build-proj".to_string()));
    assert_eq!(
        actions[3],
        exit(1, Some("The build directory (\"build-proj\") already exists. Delete it first."))
    );
    for action in &actions {
        assert!(!matches!(
            action,
            Action::CreateBuildDir(_) | Action::MakeDir(_) | Action::Generate { .. }
        ));
    }
}

#[test]
fn a_build_directory_that_cannot_be_created_is_fatal() {
    let mut events = up_to_first_config(&[], "");
    events.pop();
    events.push(Event::Failed("Read-only file system (os error 30)".to_string()));
    let (state, actions) = drive(events);
    assert_eq!(state, State::Error);
    assert_eq!(actions[3], Action::CreateBuildDir("build-proj".to_string()));
    assert_eq!(
        actions[4],
        exit(1, Some("Failed to create directory build-proj: Read-only file system (os error 30)"))
    );
}

#[test]
fn one_configuration_step_by_step() {
    let mut events = up_to_first_config(&[], "");
    events.extend(one_config(true));
    let (state, actions) = drive(events);
    assert!(matches!(state, State::RunningConfigs(_, 1, Phase::Announcing)));
    assert_eq!(
        actions[4],
        Action::Announce(
            "\x1b[1;32m===\x1b[0m \x1b[1;37mCreating configuration for\x1b[0m \
             \x1b[1;33mGCC-Debug\x1b[0m \x1b[1;32m===\x1b[0m"
                .to_string()
        )
    );
    assert_eq!(actions[5], Action::MakeDir("GCC-Debug".to_string()));
    assert_eq!(actions[6], Action::Enter("GCC-Debug".to_string()));
    assert_eq!(
        actions[7],
        Action::Generate {
            program: "cmake".to_string(),
            args: args(&[
                "/w/proj",
                "-GCodeBlocks - Ninja",
                "-DCMAKE_C_COMPILER=gcc",
                "-DCMAKE_CXX_COMPILER=g++",
                "-DCMAKE_BUILD_TYPE=Debug"
            ]),
        }
    );
    assert_eq!(actions[8], Action::Leave);
    assert!(matches!(&actions[9], Action::Announce(line) if line.contains("GCC-Release")));
}

#[test]
fn a_full_run_with_sanitizers() {
    let mut events = up_to_first_config(&[], "flags ${SANITIZE}");
    for _ in 0..7 {
        events.extend(one_config(true));
    }
    let (state, actions) = drive(events);
    assert_eq!(state, State::Done);
    assert_eq!(actions.last(), Some(&exit(0, None)));
    assert_eq!(
        made(&actions),
        vec![
            "GCC-Debug",
            "GCC-Release",
            "Clang-Debug",
            "Clang-Release",
            "Clang-Asan",
            "Clang-Ubsan",
            "Clang-Tsan"
        ]
    );
    let runs = generated(&actions);
    assert_eq!(runs.len(), 7);
    assert_eq!(
        runs[5],
        args(&[
            "/w/proj",
            "-GCodeBlocks - Ninja",
            "-DCMAKE_C_COMPILER=clang",
            "-DCMAKE_CXX_COMPILER=clang++",
            "-DCMAKE_BUILD_TYPE=Debug",
            "-DSANITIZE=undefined"
        ])
    );
}

#[test]
fn a_full_run_without_sanitizer_support() {
    let mut events = up_to_first_config(&[], "project(x)");
    for _ in 0..4 {
        events.extend(one_config(true));
    }
    let (state, actions) = drive(events);
    assert_eq!(state, State::Done);
    assert_eq!(made(&actions), vec!["GCC-Debug", "GCC-Release", "Clang-Debug", "Clang-Release"]);
}

#[test]
fn no_sanitize_leaves_the_base_set() {
    let mut events = up_to_first_config(&["--no-sanitize"], "${SANITIZE}");
    for _ in 0..4 {
        events.extend(one_config(true));
    }
    let (state, actions) = drive(events);
    assert_eq!(state, State::Done);
    assert_eq!(generated(&actions).len(), 4);
}

#[test]
fn no_ninja_changes_the_selector_of_every_generator_run() {
    let mut with_ninja = up_to_first_config(&[], "${SANITIZE}");
    let mut with_make = up_to_first_config(&["--no-ninja"], "${SANITIZE}");
    for _ in 0..7 {
        with_ninja.extend(one_config(true));
        with_make.extend(one_config(true));
    }
    let (_, ninja_actions) = drive(with_ninja);
    let (_, make_actions) = drive(with_make);
    assert_eq!(made(&ninja_actions), made(&make_actions));
    let ninja_runs = generated(&ninja_actions);
    let make_runs = generated(&make_actions);
    assert_eq!(ninja_runs.len(), make_runs.len());
    for (ninja, make) in ninja_runs.iter().zip(&make_runs) {
        assert_eq!(ninja[1], "-GCodeBlocks - Ninja");
        assert_eq!(make[1], "-GCodeBlocks - Unix Makefiles");
        assert_eq!(ninja[0], make[0]);
        assert_eq!(ninja[2..], make[2..]);
    }
}

#[test]
fn a_failed_generator_stops_the_run_with_code_zero() {
    let mut events = up_to_first_config(&[], "${SANITIZE}");
    events.extend(one_config(true));
    events.extend(one_config(true));
    events.extend(one_config(false));
    let (state, actions) = drive(events);
    assert_eq!(state, State::Done);
    assert_eq!(generated(&actions).len(), 3);
    assert_eq!(made(&actions), vec!["GCC-Debug", "GCC-Release", "Clang-Debug"]);
    let n = actions.len();
    assert_eq!(actions[n - 2], Action::Leave);
    assert_eq!(actions[n - 1], exit(0, None));
}

#[test]
fn a_failed_first_generator_stops_at_once() {
    let mut events = up_to_first_config(&[], "");
    events.extend(one_config(false));
    events.push(Event::Succeeded);
    events.push(Event::Exited(true));
    let (state, actions) = drive(events);
    assert_eq!(state, State::Done);
    assert_eq!(generated(&actions).len(), 1);
    let n = actions.len();
    assert_eq!(actions[n - 1], exit(0, None));
    assert_eq!(actions[n - 2], exit(0, None));
}

#[test]
fn a_subdirectory_that_cannot_be_created_is_fatal() {
    let mut events = up_to_first_config(&[], "");
    events.push(Event::Succeeded);
    events.push(Event::Failed("File exists (os error 17)".to_string()));
    let (state, actions) = drive(events);
    assert_eq!(state, State::Error);
    assert_eq!(
        actions.last(),
        Some(&exit(1, Some("Failed to create directory GCC-Debug: File exists (os error 17)")))
    );
    assert!(generated(&actions).is_empty());
}

#[test]
fn an_event_nobody_waits_for_ends_the_run() {
    let (state, actions) = drive(vec![Event::Succeeded]);
    assert_eq!(state, State::Error);
    assert_eq!(actions, vec![exit(1, None)]);
    let (state, actions) = drive(vec![invoked(&["proj"]), Event::Exited(true)]);
    assert_eq!(state, State::Error);
    assert_eq!(actions[1], exit(1, None));
}

#[test]
fn final_states_stay() {
    assert_eq!(step(State::Done, Event::Succeeded), (State::Done, exit(0, None)));
    assert_eq!(step(State::Stopped, Event::Exited(true)), (State::Stopped, exit(1, None)));
    assert_eq!(step(State::Error, invoked(&["proj"])), (State::Error, exit(1, None)));
}
