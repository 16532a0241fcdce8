//! The three closed choices of a configuration and the generator arguments
//! that select them.

use vstd::prelude::*;

verus! {

/// The build system the generator writes files for. Chosen once per run.
#[derive(Clone, Copy, Debug, PartialEq, Eq, Structural)]
pub enum BuildSystem {
    Make,
    Ninja,
}

/// The compiler family of one configuration.
#[derive(Clone, Copy, Debug, PartialEq, Eq, Structural)]
pub enum Compiler {
    Gcc,
    Clang,
}

/// The optimisation mode of one configuration.
#[derive(Clone, Copy, Debug, PartialEq, Eq, Structural)]
pub enum BuildType {
    Debug,
    Release,
}

impl BuildSystem {
    /// The generator argument that selects this build system.
    pub open spec fn cmake_arg(self) -> Seq<char> {
        match self {
            BuildSystem::Make => "-GCodeBlocks - Unix Makefiles"@,
            BuildSystem::Ninja => "-GCodeBlocks - Ninja"@,
        }
    }

    /// The generator argument that selects this build system.
    pub fn as_cmake_arg(&self) -> (arg: &'static str)
        ensures
            arg@ == self.cmake_arg(),
    {
        match *self {
            BuildSystem::Make => "-GCodeBlocks - Unix Makefiles",
            BuildSystem::Ninja => "-GCodeBlocks - Ninja",
        }
    }
}

impl Compiler {
    /// The name under which the compiler appears in configuration names.
    pub open spec fn display_name(self) -> Seq<char> {
        match self {
            Compiler::Gcc => "GCC"@,
            Compiler::Clang => "Clang"@,
        }
    }

    /// The two generator arguments that select the C and the C++ compiler,
    /// in the order in which they are passed.
    pub open spec fn cmake_args(self) -> Seq<Seq<char>> {
        match self {
            Compiler::Gcc => seq!["-DCMAKE_C_COMPILER=gcc"@, "-DCMAKE_CXX_COMPILER=g++"@],
            Compiler::Clang => seq!["-DCMAKE_C_COMPILER=clang"@, "-DCMAKE_CXX_COMPILER=clang++"@],
        }
    }

    /// The name under which the compiler appears in configuration names.
    pub fn name(&self) -> (name: &'static str)
        ensures
            name@ == self.display_name(),
    {
        match *self {
            Compiler::Gcc => "GCC",
            Compiler::Clang => "Clang",
        }
    }

    /// The two generator arguments that select the C and the C++ compiler.
    pub fn as_cmake_args(&self) -> (args: [&'static str; 2])
        ensures
            args@.len() == 2,
            args@[0]@ == self.cmake_args()[0],
            args@[1]@ == self.cmake_args()[1],
    {
        match *self {
            Compiler::Gcc => ["-DCMAKE_C_COMPILER=gcc", "-DCMAKE_CXX_COMPILER=g++"],
            Compiler::Clang => ["-DCMAKE_C_COMPILER=clang", "-DCMAKE_CXX_COMPILER=clang++"],
        }
    }
}

impl BuildType {
    /// The generator argument that selects this build type.
    pub open spec fn cmake_arg(self) -> Seq<char> {
        match self {
            BuildType::Debug => "-DCMAKE_BUILD_TYPE=Debug"@,
            BuildType::Release => "-DCMAKE_BUILD_TYPE=Release"@,
        }
    }

    /// The generator argument that selects this build type.
    pub fn as_cmake_arg(&self) -> (arg: &'static str)
        ensures
            arg@ == self.cmake_arg(),
    {
        match *self {
            BuildType::Debug => "-DCMAKE_BUILD_TYPE=Debug",
            BuildType::Release => "-DCMAKE_BUILD_TYPE=Release",
        }
    }
}

} // verus!
