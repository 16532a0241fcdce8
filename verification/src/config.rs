//! Configuration records: how one is named, which records a run generates, and
//! which arguments the generator receives for each.

use crate::inspect::CMakeListsProperties;
use crate::text::{owned_texts, texts};
use crate::toolchain::{BuildSystem, BuildType, Compiler};
use vstd::prelude::*;
use vstd::string::*;

verus! {

broadcast use {vstd::array::group_array_axioms, vstd::slice::group_slice_axioms};

/// One build configuration. A record is never changed after it was made.
#[derive(Clone, Debug, PartialEq, Eq)]
pub struct Config {
    pub name: String,
    pub compiler: Compiler,
    pub build_type: BuildType,
    pub cmake_args: Vec<&'static str>,
}

/// What a configuration record holds, as mathematical values.
pub ghost struct ConfigView {
    pub name: Seq<char>,
    pub compiler: Compiler,
    pub build_type: BuildType,
    pub cmake_args: Seq<Seq<char>>,
}

impl View for Config {
    type V = ConfigView;

    open spec fn view(&self) -> ConfigView {
        ConfigView {
            name: self.name@,
            compiler: self.compiler,
            build_type: self.build_type,
            cmake_args: texts(self.cmake_args@),
        }
    }
}

/// The views of a list of records, in order.
pub open spec fn views(configs: Seq<Config>) -> Seq<ConfigView> {
    Seq::new(configs.len(), |i: int| configs[i]@)
}

/// The name of the configuration of `compiler` with the suffix `suffix`:
/// the compiler's display name, a hyphen, the suffix.
pub open spec fn config_name(compiler: Compiler, suffix: Seq<char>) -> Seq<char> {
    compiler.display_name() + "-"@ + suffix
}

/// The record that `config` makes.
pub open spec fn config_view(
    suffix: Seq<char>,
    compiler: Compiler,
    build_type: BuildType,
    extra: Seq<Seq<char>>,
) -> ConfigView {
    ConfigView { name: config_name(compiler, suffix), compiler, build_type, cmake_args: extra }
}

/// The four configurations every run generates.
pub open spec fn base_configs() -> Seq<ConfigView> {
    seq![
        config_view("Debug"@, Compiler::Gcc, BuildType::Debug, seq![]),
        config_view("Release"@, Compiler::Gcc, BuildType::Release, seq![]),
        config_view("Debug"@, Compiler::Clang, BuildType::Debug, seq![]),
        config_view("Release"@, Compiler::Clang, BuildType::Release, seq![]),
    ]
}

/// The three sanitizer configurations, all Clang debug builds.
pub open spec fn sanitizer_configs() -> Seq<ConfigView> {
    seq![
        config_view("Asan"@, Compiler::Clang, BuildType::Debug, seq!["-DSANITIZE=address"@]),
        config_view("Ubsan"@, Compiler::Clang, BuildType::Debug, seq!["-DSANITIZE=undefined"@]),
        config_view("Tsan"@, Compiler::Clang, BuildType::Debug, seq!["-DSANITIZE=thread"@]),
    ]
}

/// The configurations of a run, in the order in which they are generated: the
/// base set, followed by the sanitizer set when the project supports it and the
/// caller did not switch it off.
pub open spec fn enumeration(supports_sanitize: bool, no_sanitize: bool) -> Seq<ConfigView> {
    if supports_sanitize && !no_sanitize {
        base_configs() + sanitizer_configs()
    } else {
        base_configs()
    }
}

/// The arguments of the generator for one configuration: the project
/// directory, the build-system selector, the two compiler selectors, the build
/// type, then the record's extra arguments.
pub open spec fn generator_args(
    config: ConfigView,
    build_system: BuildSystem,
    project_dir: Seq<char>,
) -> Seq<Seq<char>> {
    seq![project_dir, build_system.cmake_arg()] + config.compiler.cmake_args() + seq![
        config.build_type.cmake_arg(),
    ] + config.cmake_args
}

/// Makes the record of the configuration `name` for the compiler `comp`.
pub fn config(name: &str, comp: Compiler, build_type: BuildType, args: &[&'static str]) -> (c:
    Config)
    ensures
        c@ == config_view(name@, comp, build_type, texts(args@)),
        c@.name == comp.display_name() + "-"@ + name@,
{
    let mut full = String::from_str(comp.name());
    full.append("-");
    full.append(name);
    let mut cmake_args: Vec<&'static str> = Vec::new();
    let mut i: usize = 0;
    while i < args.len()
        invariant
            i <= args.len(),
            cmake_args@ == args@.subrange(0, i as int),
        decreases args.len() - i,
    {
        cmake_args.push(args[i]);
        i += 1;
    }
    assert(cmake_args@ == args@);
    Config { name: full, compiler: comp, build_type, cmake_args }
}

/// The records of a run, in the order in which they are generated.
pub fn enumerate(props: &CMakeListsProperties, no_sanitize: bool) -> (configs: Vec<Config>)
    ensures
        views(configs@) == enumeration(props.has_sanitize, no_sanitize),
{
    let plain: [&'static str; 0] = [];
    assert(texts(plain@) == Seq::<Seq<char>>::empty());
    let mut configs: Vec<Config> = Vec::new();
    configs.push(config("Debug", Compiler::Gcc, BuildType::Debug, &plain));
    configs.push(config("Release", Compiler::Gcc, BuildType::Release, &plain));
    configs.push(config("Debug", Compiler::Clang, BuildType::Debug, &plain));
    configs.push(config("Release", Compiler::Clang, BuildType::Release, &plain));
    assert(views(configs@) == base_configs());
    if props.has_sanitize && !no_sanitize {
        let address: [&'static str; 1] = ["-DSANITIZE=address"];
        let undefined: [&'static str; 1] = ["-DSANITIZE=undefined"];
        let thread: [&'static str; 1] = ["-DSANITIZE=thread"];
        assert(texts(address@) == seq!["-DSANITIZE=address"@]);
        assert(texts(undefined@) == seq!["-DSANITIZE=undefined"@]);
        assert(texts(thread@) == seq!["-DSANITIZE=thread"@]);
        configs.push(config("Asan", Compiler::Clang, BuildType::Debug, &address));
        configs.push(config("Ubsan", Compiler::Clang, BuildType::Debug, &undefined));
        configs.push(config("Tsan", Compiler::Clang, BuildType::Debug, &thread));
        assert(views(configs@) == base_configs() + sanitizer_configs());
    }
    configs
}

/// The arguments with which the generator is started for `conf`.
pub fn create_config_args(conf: &Config, build_system: BuildSystem, project_dir: &str) -> (args:
    Vec<String>)
    ensures
        owned_texts(args@) == generator_args(conf@, build_system, project_dir@),
{
    let mut args: Vec<String> = Vec::new();
    args.push(String::from_str(project_dir));
    args.push(String::from_str(build_system.as_cmake_arg()));
    let compiler_args = conf.compiler.as_cmake_args();
    args.push(String::from_str(compiler_args[0]));
    args.push(String::from_str(compiler_args[1]));
    args.push(String::from_str(conf.build_type.as_cmake_arg()));
    assert(owned_texts(args@) == seq![project_dir@, build_system.cmake_arg()]
        + conf.compiler.cmake_args() + seq![conf.build_type.cmake_arg()]);
    let ghost fixed = owned_texts(args@);
    let mut i: usize = 0;
    while i < conf.cmake_args.len()
        invariant
            i <= conf.cmake_args.len(),
            owned_texts(args@) == fixed + texts(conf.cmake_args@).subrange(0, i as int),
        decreases conf.cmake_args.len() - i,
    {
        let ghost before = owned_texts(args@);
        args.push(String::from_str(conf.cmake_args[i]));
        assert(owned_texts(args@) == before.push(conf.cmake_args@[i as int]@));
        assert(texts(conf.cmake_args@).subrange(0, i + 1) == texts(conf.cmake_args@).subrange(
            0,
            i as int,
        ).push(conf.cmake_args@[i as int]@));
        assert(fixed + texts(conf.cmake_args@).subrange(0, i + 1) == (fixed + texts(
            conf.cmake_args@,
        ).subrange(0, i as int)).push(conf.cmake_args@[i as int]@));
        i += 1;
    }
    assert(texts(conf.cmake_args@).subrange(0, i as int) == texts(conf.cmake_args@));
    args
}

} // verus!
