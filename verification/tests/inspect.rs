use cmake_configs::inspect::{chars_of, find, matches_at, parse_cmakelists_txt};

fn chars(text: &str) -> Vec<char> {
    text.chars().collect()
}

#[test]
fn marker_in_the_script_means_sanitizer_support() {
    let script = "project(demo)\nset(CMAKE_CXX_FLAGS \"-fsanitize=${SANITIZE}\")\n";
    assert!(parse_cmakelists_txt(script).has_sanitize);
}

#[test]
fn script_without_the_marker_has_no_sanitizer_support() {
    assert!(!parse_cmakelists_txt("project(demo)\nadd_executable(demo main.c)\n").has_sanitize);
}

#[test]
fn empty_script_has_no_sanitizer_support() {
    assert!(!parse_cmakelists_txt("").has_sanitize);
}

#[test]
fn the_marker_alone_is_enough() {
    assert!(parse_cmakelists_txt("${SANITIZE}").has_sanitize);
}

#[test]
fn marker_at_the_very_end_is_found() {
    assert!(parse_cmakelists_txt("x = ${SANITIZE}").has_sanitize);
}

#[test]
fn a_cut_off_marker_does_not_count() {
    assert!(!parse_cmakelists_txt("${SANITIZE").has_sanitize);
    assert!(!parse_cmakelists_txt("{SANITIZE}").has_sanitize);
    assert!(!parse_cmakelists_txt("${SANITIZ}").has_sanitize);
}

#[test]
fn the_marker_is_case_sensitive() {
    assert!(!parse_cmakelists_txt("${sanitize}").has_sanitize);
}

#[test]
fn a_false_start_before_the_marker_does_not_hide_it() {
    assert!(parse_cmakelists_txt("${SANI${SANITIZE}").has_sanitize);
    assert!(parse_cmakelists_txt("$${SANITIZE}}").has_sanitize);
}

#[test]
fn text_outside_ascii_around_the_marker() {
    assert!(parse_cmakelists_txt("# größe ñ 日本語\n${SANITIZE}\n# été").has_sanitize);
    assert!(!parse_cmakelists_txt("# größe ñ 日本語\n").has_sanitize);
}

#[test]
fn chars_of_gives_the_characters() {
    assert_eq!(chars_of("aß日"), vec!['a', 'ß', '日']);
    assert_eq!(chars_of(""), Vec::<char>::new());
}

#[test]
fn find_gives_the_first_position() {
    assert_eq!(find(&chars("abcabc"), &chars("bc")), Some(1));
    assert_eq!(find(&chars("abcabc"), &chars("abc")), Some(0));
    assert_eq!(find(&chars("abcabc"), &chars("cab")), Some(2));
}

#[test]
fn find_counts_characters_not_bytes() {
    assert_eq!(find(&chars("ßßx"), &chars("x")), Some(2));
}

#[test]
fn find_gives_none_where_the_pattern_is_absent() {
    assert_eq!(find(&chars("abcabc"), &chars("cb")), None);
    assert_eq!(find(&chars("ab"), &chars("abc")), None);
    assert_eq!(find(&chars(""), &chars("a")), None);
}

#[test]
fn the_empty_pattern_is_found_at_the_start() {
    assert_eq!(find(&chars("abc"), &chars("")), Some(0));
    assert_eq!(find(&chars(""), &chars("")), Some(0));
}

#[test]
fn matches_at_compares_in_place() {
    assert!(matches_at(&chars("abcabc"), &chars("cab"), 2));
    assert!(!matches_at(&chars("abcabc"), &chars("cab"), 1));
    assert!(matches_at(&chars("abc"), &chars(""), 3));
}

#[test]
fn matches_at_past_the_end_is_no_match() {
    assert!(!matches_at(&chars("abc"), &chars("c"), 3));
    assert!(!matches_at(&chars("abc"), &chars("bcd"), 1));
    assert!(!matches_at(&chars("abc"), &chars(""), 4));
    assert!(!matches_at(&chars("ab"), &chars("abc"), 0));
}
