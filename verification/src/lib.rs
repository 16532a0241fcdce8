//! Build-tree planning for CMake projects.
//!
//! Given a project directory, the library decides which build configurations
//! (compiler, build type, sanitizer) are generated, how each one is named, which
//! arguments the generator receives, and in which order the surrounding program
//! has to touch the file system. Everything that performs I/O stays with the
//! caller: the library hands out actions and takes back what happened.

pub mod config;
pub mod inspect;
pub mod laws;
pub mod machine;
pub mod options;
pub mod report;
pub mod text;
pub mod toolchain;
