//! The plugin's command line: one subcommand.
use vstd::prelude::*;
use vstd::string::StringExecFns;

verus! {

/// What the plugin was asked to do.
#[derive(Debug, Clone, Copy, PartialEq, Eq, Structural)]
pub enum Subcommand {
    /// The action: focus the previously focused tab.
    Toggle,
    /// The `tab.focused` event hook.
    Focused,
    /// The `tab.closed` event hook.
    Closed,
}

/// A command line that names no subcommand the plugin knows.
#[derive(Debug, Clone, PartialEq, Eq)]
pub enum ParseCommandError {
    /// The text to print, ending with the usage line.
    Usage(String),
}

impl View for ParseCommandError {
    type V = Seq<char>;

    open spec fn view(&self) -> Seq<char> {
        match self {
            ParseCommandError::Usage(message) => message@,
        }
    }
}

/// The usage line.
pub open spec fn usage_text() -> Seq<char> {
    "usage: herdr-last-tab <toggle|focused|closed>"@
}

/// What the arguments after the program name ask for: exactly one of `toggle`,
/// `focused` or `closed`; anything else is answered with the usage line, after a
/// note naming an unknown subcommand.
pub open spec fn parsed_subcommand(args: Seq<Seq<char>>) -> Result<Subcommand, Seq<char>> {
    if args.len() != 1 {
        Err(usage_text())
    } else {
        let raw = args[0];
        if raw == "toggle"@ {
            Ok(Subcommand::Toggle)
        } else if raw == "focused"@ {
            Ok(Subcommand::Focused)
        } else if raw == "closed"@ {
            Ok(Subcommand::Closed)
        } else if raw == "help"@ || raw == "--help"@ || raw == "-h"@ {
            Err(usage_text())
        } else {
            Err("unknown subcommand: "@ + raw + "\n"@ + usage_text())
        }
    }
}

/// The usage line.
pub fn usage() -> (res: String)
    ensures
        res@ == usage_text(),
{
    "usage: herdr-last-tab <toggle|focused|closed>".to_owned()
}

/// Whether `text` is the literal `word`.
fn is_word(text: &String, word: &str) -> (res: bool)
    ensures
        res == (text@ == word@),
{
    *text == word.to_owned()
}

/// Reads the subcommand from the arguments that follow the program name.
pub fn parse_subcommand(args: &Vec<String>) -> (res: Result<Subcommand, ParseCommandError>)
    ensures
        match parsed_subcommand(args@.map_values(|a: String| a@)) {
            Ok(s) => res == Ok::<Subcommand, ParseCommandError>(s),
            Err(m) => res matches Err(e) && e@ == m,
        },
{
    let ghost model = args@.map_values(|a: String| a@);
    if args.len() != 1 {
        return Err(ParseCommandError::Usage(usage()));
    }
    let raw = &args[0];
    assert(model[0] == raw@);
    if is_word(raw, "toggle") {
        Ok(Subcommand::Toggle)
    } else if is_word(raw, "focused") {
        Ok(Subcommand::Focused)
    } else if is_word(raw, "closed") {
        Ok(Subcommand::Closed)
    } else if is_word(raw, "help") || is_word(raw, "--help") || is_word(raw, "-h") {
        Err(ParseCommandError::Usage(usage()))
    } else {
        let mut message = "unknown subcommand: ".to_owned();
        message.append(raw.as_str());
        message.append("\n");
        message.append(usage().as_str());
        Err(ParseCommandError::Usage(message))
    }
}

/// Only a single argument that is exactly `toggle`, `focused` or `closed` is accepted,
/// and each of them gives its own subcommand.
pub proof fn lemma_only_three_subcommands(args: Seq<Seq<char>>)
    ensures
        parsed_subcommand(args) is Ok <==> (args.len() == 1 && (args[0] == "toggle"@ || args[0]
            == "focused"@ || args[0] == "closed"@)),
        parsed_subcommand(args) == Ok::<Subcommand, Seq<char>>(Subcommand::Focused) ==> args[0]
            == "focused"@,
        parsed_subcommand(args) == Ok::<Subcommand, Seq<char>>(Subcommand::Closed) ==> args[0]
            == "closed"@,
        parsed_subcommand(args) == Ok::<Subcommand, Seq<char>>(Subcommand::Toggle) ==> args[0]
            == "toggle"@,
{
}

} // verus!
