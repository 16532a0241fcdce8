//! What a project's top-level build script says about the project.
//!
//! The script is searched as plain text: nothing of its language is parsed.

use vstd::prelude::*;
use vstd::string::*;

verus! {

broadcast use vstd::string::group_string_axioms;

/// What the build script of a project lets the tool do.
#[derive(Clone, Copy, Debug, PartialEq, Eq, Structural)]
pub struct CMakeListsProperties {
    pub has_sanitize: bool,
}

/// The token by which a build script announces sanitizer support.
pub open spec fn sanitize_marker() -> Seq<char> {
    "${SANITIZE}"@
}

/// `pattern` stands in `text` at the position `at`.
pub open spec fn occurs_at(text: Seq<char>, pattern: Seq<char>, at: int) -> bool {
    0 <= at && at + pattern.len() <= text.len() && text.subrange(at, at + pattern.len())
        == pattern
}

/// `pattern` stands somewhere in `text`.
pub open spec fn occurs(text: Seq<char>, pattern: Seq<char>) -> bool {
    exists|at: int| occurs_at(text, pattern, at)
}

/// The properties of a project whose build script reads `text`.
pub open spec fn properties_of(text: Seq<char>) -> CMakeListsProperties {
    CMakeListsProperties { has_sanitize: occurs(text, sanitize_marker()) }
}

/// The characters of `text`, one by one.
pub fn chars_of(text: &str) -> (chars: Vec<char>)
    ensures
        chars@ == text@,
{
    let mut chars: Vec<char> = Vec::new();
    for c in it: text.chars()
        invariant
            it.seq() == text@,
            chars@ == text@.subrange(0, it.index()),
    {
        chars.push(c);
    }
    assert(chars@ == text@);
    chars
}

/// Whether `pattern` stands in `text` at the position `at`.
pub fn matches_at(text: &Vec<char>, pattern: &Vec<char>, at: usize) -> (found: bool)
    ensures
        found == occurs_at(text@, pattern@, at as int),
{
    if pattern.len() > text.len() || at > text.len() - pattern.len() {
        return false;
    }
    let mut k: usize = 0;
    while k < pattern.len()
        invariant
            k <= pattern.len(),
            at + pattern.len() <= text.len(),
            text@.subrange(at as int, at + k) == pattern@.subrange(0, k as int),
        decreases pattern.len() - k,
    {
        if text[at + k] != pattern[k] {
            assert(text@.subrange(at as int, at + pattern.len())[k as int] != pattern@[k as int]);
            return false;
        }
        assert(text@.subrange(at as int, at + k + 1) == text@.subrange(at as int, at + k).push(
            text@[at + k],
        ));
        assert(pattern@.subrange(0, k + 1) == pattern@.subrange(0, k as int).push(
            pattern@[k as int],
        ));
        k += 1;
    }
    assert(pattern@.subrange(0, k as int) == pattern@);
    true
}

/// The first position at which `pattern` stands in `text`, if there is one.
pub fn find(text: &Vec<char>, pattern: &Vec<char>) -> (position: Option<usize>)
    ensures
        position is Some <==> occurs(text@, pattern@),
        position matches Some(at) ==> occurs_at(text@, pattern@, at as int) && forall|earlier: int|
            0 <= earlier < at ==> !occurs_at(text@, pattern@, earlier),
{
    if pattern.len() > text.len() {
        return None;
    }
    let last: usize = text.len() - pattern.len();
    let mut at: usize = 0;
    loop
        invariant
            at <= last,
            last == text.len() - pattern.len(),
            forall|earlier: int| 0 <= earlier < at ==> !occurs_at(text@, pattern@, earlier),
        decreases last - at,
    {
        if matches_at(text, pattern, at) {
            return Some(at);
        }
        if at == last {
            return None;
        }
        at += 1;
    }
}

/// Reads the properties of a project off the text of its build script: the
/// project supports sanitizer builds exactly if the marker stands in the text.
pub fn parse_cmakelists_txt(text: &str) -> (props: CMakeListsProperties)
    ensures
        props == properties_of(text@),
{
    let haystack = chars_of(text);
    let needle = chars_of("${SANITIZE}");
    let has_sanitize = find(&haystack, &needle).is_some();
    CMakeListsProperties { has_sanitize }
}

} // verus!
