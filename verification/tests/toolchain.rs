use cmake_configs::toolchain::{BuildSystem, BuildType, Compiler};

#[test]
fn make_selects_unix_makefiles() {
    assert_eq!(BuildSystem::Make.as_cmake_arg(), "-GCodeBlocks - Unix Makefiles");
}

#[test]
fn ninja_selects_ninja() {
    assert_eq!(BuildSystem::Ninja.as_cmake_arg(), "-GCodeBlocks - Ninja");
}

#[test]
fn gcc_selects_gcc_and_gxx() {
    assert_eq!(
        Compiler::Gcc.as_cmake_args(),
        ["-DCMAKE_C_COMPILER=gcc", "-DCMAKE_CXX_COMPILER=g++"]
    );
}

#[test]
fn clang_selects_clang_and_clangxx() {
    assert_eq!(
        Compiler::Clang.as_cmake_args(),
        ["-DCMAKE_C_COMPILER=clang", "-DCMAKE_CXX_COMPILER=clang++"]
    );
}

#[test]
fn compilers_are_shown_by_their_brand() {
    assert_eq!(Compiler::Gcc.name(), "GCC");
    assert_eq!(Compiler::Clang.name(), "Clang");
}

#[test]
fn build_types_select_their_mode() {
    assert_eq!(BuildType::Debug.as_cmake_arg(), "-DCMAKE_BUILD_TYPE=Debug");
    assert_eq!(BuildType::Release.as_cmake_arg(), "-DCMAKE_BUILD_TYPE=Release");
}
