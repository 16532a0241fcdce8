//! What the program says: the progress line of a configuration and the
//! messages with which a run is given up.

use vstd::prelude::*;
use vstd::string::*;

verus! {

/// The colours of the progress line.
#[derive(Clone, Copy, Debug, PartialEq, Eq, Structural)]
pub enum Highlight {
    Green,
    White,
    Yellow,
}

impl Highlight {
    /// The number by which a terminal knows the colour as a foreground colour.
    pub open spec fn code(self) -> Seq<char> {
        match self {
            Highlight::Green => "32"@,
            Highlight::Yellow => "33"@,
            Highlight::White => "37"@,
        }
    }
}

/// `text` in bold and in the colour `colour`: the escape sequence that switches
/// both on, the text, the escape sequence that resets the terminal.
pub open spec fn bold(colour: Highlight, text: Seq<char>) -> Seq<char> {
    "\x1B[1;"@ + colour.code() + "m"@ + text + "\x1B[0m"@
}

/// The line that announces the configuration `name`.
pub open spec fn progress_text(name: Seq<char>) -> Seq<char> {
    bold(Highlight::Green, "==="@) + " "@ + bold(Highlight::White, "Creating configuration for"@)
        + " "@ + bold(Highlight::Yellow, name) + " "@ + bold(Highlight::Green, "==="@)
}

/// The message for a project directory that cannot be looked up. `shown` is
/// the directory as it is shown to the user, `cause` what the system said.
pub open spec fn lookup_failure_text(shown: Seq<char>, cause: Seq<char>) -> Seq<char> {
    "Error while trying to look up directory "@ + shown + ": "@ + cause
}

/// The message for a build script that cannot be read.
pub open spec fn script_failure_text(shown: Seq<char>, cause: Seq<char>) -> Seq<char> {
    "Failed to open CMakeLists.txt in "@ + shown + ": "@ + cause
}

/// The message for a build directory that is already there.
pub open spec fn existing_build_dir_text(shown: Seq<char>) -> Seq<char> {
    "The build directory ("@ + shown + ") already exists. Delete it first."@
}

/// The message for a directory that cannot be created.
pub open spec fn creation_failure_text(name: Seq<char>, cause: Seq<char>) -> Seq<char> {
    "Failed to create directory "@ + name + ": "@ + cause
}

/// `Colour::bold`, `Style::paint` and the `Display` of the painted string, of
/// ansi_term: the text between the escape sequence for bold in that colour and
/// the one that resets the terminal.
#[verifier::external_body]
fn paint_bold(colour: Highlight, text: &str) -> (painted: String)
    ensures
        painted@ == bold(colour, text@),
{
    let colour = match colour {
        Highlight::Green => ansi_term::Colour::Green,
        Highlight::White => ansi_term::Colour::White,
        Highlight::Yellow => ansi_term::Colour::Yellow,
    };
    colour.bold().paint(text).to_string()
}

/// The line that announces the configuration `name`.
pub fn progress_line(name: &str) -> (line: String)
    ensures
        line@ == progress_text(name@),
{
    let rule = paint_bold(Highlight::Green, "===");
    let mut line = rule.clone();
    line.append(" ");
    line.append(paint_bold(Highlight::White, "Creating configuration for").as_str());
    line.append(" ");
    line.append(paint_bold(Highlight::Yellow, name).as_str());
    line.append(" ");
    line.append(rule.as_str());
    line
}

/// The message for a project directory that cannot be looked up.
pub fn lookup_failure(shown: &str, cause: &str) -> (message: String)
    ensures
        message@ == lookup_failure_text(shown@, cause@),
{
    let mut message = String::from_str("Error while trying to look up directory ");
    message.append(shown);
    message.append(": ");
    message.append(cause);
    message
}

/// The message for a build script that cannot be read.
pub fn script_failure(shown: &str, cause: &str) -> (message: String)
    ensures
        message@ == script_failure_text(shown@, cause@),
{
    let mut message = String::from_str("Failed to open CMakeLists.txt in ");
    message.append(shown);
    message.append(": ");
    message.append(cause);
    message
}

/// The message for a build directory that is already there.
pub fn existing_build_dir(shown: &str) -> (message: String)
    ensures
        message@ == existing_build_dir_text(shown@),
{
    let mut message = String::from_str("The build directory (");
    message.append(shown);
    message.append(") already exists. Delete it first.");
    message
}

/// The message for a directory that cannot be created.
pub fn creation_failure(name: &str, cause: &str) -> (message: String)
    ensures
        message@ == creation_failure_text(name@, cause@),
{
    let mut message = String::from_str("Failed to create directory ");
    message.append(name);
    message.append(": ");
    message.append(cause);
    message
}

} // verus!
