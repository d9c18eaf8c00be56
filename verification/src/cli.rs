//! The command line: from the arguments to what is to be done.
//!
//! The organization number may be given in one argument or spread over
//! several, and with blanks in it, as it is often written: the arguments are
//! put together and the blanks taken out before anything is decided.

use vstd::prelude::*;
use vstd::string::*;
use crate::report::{Conclusion, ConclusionView};

verus! {

/// Exit code for arguments that are no organization number.
pub const EXIT_USAGE: i32 = 64;

/// Exit code after the version was shown.
pub const EXIT_VERSION: i32 = 0;

/// How many digits an organization number has.
pub const ORGANIZATION_NUMBER_LENGTH: usize = 9;

/// What the arguments ask for.
#[derive(Clone, Debug, PartialEq, Eq)]
pub enum Command {
    /// Show the version.
    Version,
    /// Look up this organization number.
    Lookup(String),
    /// Nothing that can be done: show how the program is used.
    Usage,
}

/// View of a [`Command`].
pub enum CommandView {
    Version,
    Lookup(Seq<char>),
    Usage,
}

impl DeepView for Command {
    type V = CommandView;

    open spec fn deep_view(&self) -> CommandView {
        match self {
            Command::Version => CommandView::Version,
            Command::Lookup(id) => CommandView::Lookup(id@),
            Command::Usage => CommandView::Usage,
        }
    }
}

/// The characters that stay when blanks are taken out.
pub open spec fn not_blank() -> spec_fn(char) -> bool {
    |c: char| c != ' '
}

/// The arguments put together, in their order, without the blanks in them.
pub open spec fn combined(args: Seq<Seq<char>>) -> Seq<char> {
    args.flatten().filter(not_blank())
}

/// Whether a character is one of the ten ASCII digits.
pub open spec fn is_digit(c: char) -> bool {
    '0' <= c && c <= '9'
}

/// An organization number is nine ASCII digits.
pub open spec fn is_organization_number(text: Seq<char>) -> bool {
    &&& text.len() == ORGANIZATION_NUMBER_LENGTH
    &&& forall|i: int| 0 <= i < text.len() ==> is_digit(#[trigger] text[i])
}

/// What arguments ask for: the version, where they come to the flag for it;
/// else a lookup, where they come to an organization number.
pub open spec fn command_of(args: Seq<Seq<char>>) -> CommandView {
    let text = combined(args);
    if text == "--version"@ {
        CommandView::Version
    } else if is_organization_number(text) {
        CommandView::Lookup(text)
    } else {
        CommandView::Usage
    }
}

/// How the program is used, for the name under which it was called.
pub open spec fn usage_of(program: Seq<char>) -> Seq<char> {
    "Usage: "@ + program + " *orgnr*\n(orgnr must be nine numbers)\n"@
}

/// The line that shows a version.
pub open spec fn version_line(version: Seq<char>) -> Seq<char> {
    "Version: "@ + version + " \n"@
}

/// Appends an argument without its blanks.
fn push_without_blanks(out: &mut String, arg: &str)
    ensures
        final(out)@ == old(out)@ + arg@.filter(not_blank()),
{
    let length = arg.unicode_len();
    let mut at: usize = 0;
    proof {
        assert(arg@.take(0) =~= Seq::<char>::empty());
        Seq::<char>::empty().lemma_filter_len(not_blank());
    }
    while at < length
        invariant
            at <= length == arg@.len(),
            out@ == old(out)@ + arg@.take(at as int).filter(not_blank()),
        decreases length - at,
    {
        let c = arg.get_char(at);
        proof {
            assert(arg@.take(at + 1) =~= arg@.take(at as int).push(c));
            arg@.take(at as int).lemma_filter_push(c, not_blank());
        }
        if c != ' ' {
            out.append(arg.substring_char(at, at + 1));
        }
        at = at + 1;
    }
    assert(arg@.take(length as int) =~= arg@);
}

/// Puts the arguments together and takes the blanks out.
pub fn combine_arguments(args: &Vec<String>) -> (text: String)
    ensures
        text@ == combined(args.deep_view()),
{
    let ghost all = args.deep_view();
    let mut text = String::new();
    let mut at: usize = 0;
    proof {
        assert(all.take(0) =~= Seq::<Seq<char>>::empty());
        Seq::<char>::empty().lemma_filter_len(not_blank());
    }
    while at < args.len()
        invariant
            at <= args.len(),
            all == args.deep_view(),
            text@ == combined(all.take(at as int)),
        decreases args.len() - at,
    {
        push_without_blanks(&mut text, args[at].as_str());
        proof {
            let before = all.take(at as int);
            assert(all.take(at + 1) =~= before.push(all[at as int]));
            before.lemma_flatten_push(all[at as int]);
            Seq::filter_distributes_over_add(before.flatten(), all[at as int], not_blank());
        }
        at = at + 1;
    }
    assert(all.take(args.len() as int) =~= all);
    text
}

/// Whether a text is an organization number: nine ASCII digits.
pub fn is_organization_number_text(text: &str) -> (valid: bool)
    ensures
        valid == is_organization_number(text@),
{
    let length = text.unicode_len();
    if length != ORGANIZATION_NUMBER_LENGTH {
        return false;
    }
    let mut at: usize = 0;
    while at < length
        invariant
            at <= length == text@.len(),
            forall|i: int| 0 <= i < at ==> is_digit(#[trigger] text@[i]),
        decreases length - at,
    {
        let c = text.get_char(at);
        if !(c >= '0' && c <= '9') {
            return false;
        }
        at = at + 1;
    }
    true
}

/// Decides what the arguments ask for. The name under which the program was
/// called is no argument.
pub fn parse_arguments(args: &Vec<String>) -> (command: Command)
    ensures
        command.deep_view() == command_of(args.deep_view()),
{
    let text = combine_arguments(args);
    if text == String::from_str("--version") {
        Command::Version
    } else if is_organization_number_text(text.as_str()) {
        Command::Lookup(text)
    } else {
        Command::Usage
    }
}

/// The text that says how the program is used.
pub fn usage_text(program: &str) -> (text: String)
    ensures
        text@ == usage_of(program@),
{
    let mut text = String::from_str("Usage: ");
    text.append(program);
    text.append(" *orgnr*\n(orgnr must be nine numbers)\n");
    text
}

/// The text that shows a version.
pub fn version_text(version: &str) -> (text: String)
    ensures
        text@ == version_line(version@),
{
    let mut text = String::from_str("Version: ");
    text.append(version);
    text.append(" \n");
    text
}

/// How a command ends that needs no lookup: the version goes to standard
/// output, the usage to standard error. A lookup has no such end.
pub open spec fn immediate_end(
    command: CommandView,
    program: Seq<char>,
    version: Seq<char>,
) -> Option<ConclusionView> {
    match command {
        CommandView::Version => Some(
            ConclusionView {
                exit_code: EXIT_VERSION,
                stdout: version_line(version),
                stderr: Seq::empty(),
            },
        ),
        CommandView::Usage => Some(
            ConclusionView {
                exit_code: EXIT_USAGE,
                stdout: Seq::empty(),
                stderr: usage_of(program),
            },
        ),
        CommandView::Lookup(_) => None,
    }
}

/// Says how a command ends that needs no lookup, for the name under which
/// the program was called and the version that it has; `None` for a lookup.
pub fn conclude_without_lookup(command: &Command, program: &str, version: &str) -> (end: Option<
    Conclusion,
>)
    ensures
        end.deep_view() == immediate_end(command.deep_view(), program@, version@),
{
    match command {
        Command::Version => Some(
            Conclusion {
                exit_code: EXIT_VERSION,
                stdout: version_text(version),
                stderr: String::new(),
            },
        ),
        Command::Usage => Some(
            Conclusion {
                exit_code: EXIT_USAGE,
                stdout: String::new(),
                stderr: usage_text(program),
            },
        ),
        Command::Lookup(_) => None,
    }
}

} // verus!
