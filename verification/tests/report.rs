use cmake_configs::report::{
    creation_failure, existing_build_dir, lookup_failure, progress_line, script_failure,
};

#[test]
fn progress_line_is_painted_in_bold_colours() {
    assert_eq!(
        progress_line("GCC-Debug"),
        "\x1b[1;32m===\x1b[0m \x1b[1;37mCreating configuration for\x1b[0m \
         \x1b[1;33mGCC-Debug\x1b[0m \x1b[1;32m===\x1b[0m"
    );
}

#[test]
fn progress_line_of_an_empty_name() {
    assert_eq!(
        progress_line(""),
        "\x1b[1;32m===\x1b[0m \x1b[1;37mCreating configuration for\x1b[0m \
         \x1b[1;33m\x1b[0m \x1b[1;32m===\x1b[0m"
    );
}

#[test]
fn lookup_failure_names_path_and_cause() {
    assert_eq!(
        lookup_failure("\"/home/u/proj\"", "No such file or directory (os error 2)"),
        "Error while trying to look up directory \"/home/u/proj\": \
         No such file or directory (os error 2)"
    );
}

#[test]
fn script_failure_names_path_and_cause() {
    assert_eq!(
        script_failure("\"/home/u/proj\"", "Permission denied (os error 13)"),
        "Failed to open CMakeLists.txt in \"/home/u/proj\": Permission denied (os error 13)"
    );
}

#[test]
fn existing_build_dir_asks_to_delete_it() {
    assert_eq!(
        existing_build_dir("\"build-proj\""),
        "The build directory (\"build-proj\") already exists. Delete it first."
    );
}

#[test]
fn creation_failure_names_directory_and_cause() {
    assert_eq!(
        creation_failure("GCC-Debug", "File exists (os error 17)"),
        "Failed to create directory GCC-Debug: File exists (os error 17)"
    );
}
