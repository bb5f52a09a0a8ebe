//! The command line: which operation the arguments ask for, and what is
//! answered where they ask for none.

use crate::numbers::{all_digits, digits_value, parse_u64, parse_unsigned, unsigned_digits};
use crate::request::{page_params, page_url, random_params, random_url, request_text, search_params, search_url};
use vstd::prelude::*;
use vstd::string::*;

verus! {

/// An operation of the client.
#[derive(Clone, Debug, PartialEq, Eq)]
pub enum Command {
    /// Search for a term.
    Search(String),
    /// Fetch the plain text of the page with this number.
    Page(u64),
    /// Fetch this many random pages.
    Random(u64),
}

/// A [`Command`] as a mathematical value.
pub enum CommandView {
    Search(Seq<char>),
    Page(u64),
    Random(u64),
}

impl View for Command {
    type V = CommandView;

    open spec fn view(&self) -> CommandView {
        match self {
            Command::Search(term) => CommandView::Search(term@),
            Command::Page(pageid) => CommandView::Page(*pageid),
            Command::Random(n) => CommandView::Random(*n),
        }
    }
}

/// Why the arguments name no operation to run.
#[derive(Clone, Copy, Debug, PartialEq, Eq, Structural)]
pub enum Rejection {
    /// There is no argument at all.
    NoCommand,
    /// The first argument is none of the commands.
    UnknownCommand,
    /// `search` without a term.
    MissingSearchTerm,
    /// `page` without a number.
    MissingPageId,
    /// `page` with an argument that is not an unsigned 64-bit number.
    InvalidPageId,
    /// `random` with an argument that is not an unsigned 64-bit number.
    InvalidCount,
}

/// The views of the arguments, in order.
pub open spec fn texts(args: Seq<String>) -> Seq<Seq<char>> {
    args.map_values(|a: String| a@)
}

/// What the arguments behind the program's name ask for. Only the first two
/// are read. `random` alone asks for one page.
pub open spec fn command_of(args: Seq<Seq<char>>) -> Result<CommandView, Rejection> {
    if args.len() == 0 {
        Err(Rejection::NoCommand)
    } else if args[0] == "search"@ {
        if args.len() < 2 {
            Err(Rejection::MissingSearchTerm)
        } else {
            Ok(CommandView::Search(args[1]))
        }
    } else if args[0] == "page"@ {
        if args.len() < 2 {
            Err(Rejection::MissingPageId)
        } else {
            match parse_unsigned(args[1]) {
                Some(pageid) => Ok(CommandView::Page(pageid)),
                None => Err(Rejection::InvalidPageId),
            }
        }
    } else if args[0] == "random"@ {
        if args.len() < 2 {
            Ok(CommandView::Random(1))
        } else {
            match parse_unsigned(args[1]) {
                Some(n) => Ok(CommandView::Random(n)),
                None => Err(Rejection::InvalidCount),
            }
        }
    } else {
        Err(Rejection::UnknownCommand)
    }
}

/// `random` without a count asks for exactly what `random 1` asks for, one
/// page, so that the two are answered alike whatever the service sends.
pub proof fn lemma_random_default()
    ensures
        command_of(seq!["random"@]) == Ok::<CommandView, Rejection>(CommandView::Random(1)),
        command_of(seq!["random"@, "1"@]) == command_of(seq!["random"@]),
{
    reveal_strlit("random");
    reveal_strlit("search");
    reveal_strlit("page");
    reveal_strlit("1");
    assert("random"@[0] != "search"@[0]);
    assert("random"@.len() != "page"@.len());
    let one = "1"@;
    assert(unsigned_digits(one) == one);
    assert(one.drop_last() =~= Seq::<char>::empty());
    assert(digits_value(one.drop_last()) == 0);
    assert(digits_value(one) == 1);
    assert(all_digits(one));
    assert(parse_unsigned(one) == Some(1u64));
}

/// The address that the request of a command goes to.
pub open spec fn address_of(command: CommandView) -> Seq<char> {
    match command {
        CommandView::Search(term) => request_text(search_params(term)),
        CommandView::Page(pageid) => request_text(page_params(pageid)),
        CommandView::Random(n) => request_text(random_params(n)),
    }
}

/// Reads the arguments that follow the program's name.
pub fn parse_command(args: &Vec<String>) -> (r: Result<Command, Rejection>)
    ensures
        match r {
            Ok(command) => command_of(texts(args@)) == Ok::<CommandView, Rejection>(command@),
            Err(rejection) => command_of(texts(args@)) == Err::<CommandView, Rejection>(rejection),
        },
{
    if args.len() == 0 {
        return Err(Rejection::NoCommand);
    }
    let search = "search".to_owned();
    let page = "page".to_owned();
    let random = "random".to_owned();
    assert(texts(args@)[0] == args@[0]@);
    if args.len() >= 2 {
        assert(texts(args@)[1] == args@[1]@);
    }
    if args[0] == search {
        if args.len() < 2 {
            Err(Rejection::MissingSearchTerm)
        } else {
            Ok(Command::Search(args[1].clone()))
        }
    } else if args[0] == page {
        if args.len() < 2 {
            Err(Rejection::MissingPageId)
        } else {
            match parse_u64(args[1].as_str()) {
                Some(pageid) => Ok(Command::Page(pageid)),
                None => Err(Rejection::InvalidPageId),
            }
        }
    } else if args[0] == random {
        if args.len() < 2 {
            Ok(Command::Random(1))
        } else {
            match parse_u64(args[1].as_str()) {
                Some(n) => Ok(Command::Random(n)),
                None => Err(Rejection::InvalidCount),
            }
        }
    } else {
        Err(Rejection::UnknownCommand)
    }
}

/// The text that explains the command line.
pub fn usage() -> (r: &'static str)
    ensures
        r@ == usage_text(),
{
    "Usage: wiki <command> [args]\n\nCommands:\n  search <term>  Search Wikipedia for a term\n  page   <id>    Get the content of a Wikipedia page by ID\n  random [n]     Get n random Wikipedia pages (default: 1)"
}

impl Rejection {
    /// Whether the answer is the usage text, on standard output, rather than
    /// a diagnostic.
    pub open spec fn spec_shows_usage(self) -> bool {
        self == Rejection::NoCommand || self == Rejection::UnknownCommand
    }

    /// The status that the program ends with: success after an unknown
    /// command, 1 where there was no command, and the status of an aborted
    /// program, 101, where an argument is missing or invalid.
    pub open spec fn spec_exit_status(self) -> u8 {
        match self {
            Rejection::UnknownCommand => 0,
            Rejection::NoCommand => 1,
            _ => 101,
        }
    }

    #[verifier::when_used_as_spec(spec_shows_usage)]
    pub fn shows_usage(self) -> (r: bool)
        ensures
            r == self.spec_shows_usage(),
    {
        match self {
            Rejection::NoCommand | Rejection::UnknownCommand => true,
            _ => false,
        }
    }

    #[verifier::when_used_as_spec(spec_exit_status)]
    pub fn exit_status(self) -> (r: u8)
        ensures
            r == self.spec_exit_status(),
    {
        match self {
            Rejection::UnknownCommand => 0,
            Rejection::NoCommand => 1,
            _ => 101,
        }
    }

    /// What to tell the user: the usage text, or the diagnostic of the
    /// argument that is missing or invalid.
    pub fn message(self) -> (r: &'static str)
        ensures
            r@ == match self {
                Rejection::NoCommand | Rejection::UnknownCommand => usage_text(),
                Rejection::MissingSearchTerm => "No search term provided"@,
                Rejection::MissingPageId => "No page ID provided"@,
                Rejection::InvalidPageId => "Invalid page ID"@,
                Rejection::InvalidCount => "Invalid number of random pages"@,
            },
    {
        match self {
            Rejection::NoCommand | Rejection::UnknownCommand => usage(),
            Rejection::MissingSearchTerm => "No search term provided",
            Rejection::MissingPageId => "No page ID provided",
            Rejection::InvalidPageId => "Invalid page ID",
            Rejection::InvalidCount => "Invalid number of random pages",
        }
    }
}

/// The usage text, as a mathematical value.
pub open spec fn usage_text() -> Seq<char> {
    "Usage: wiki <command> [args]\n\nCommands:\n  search <term>  Search Wikipedia for a term\n  page   <id>    Get the content of a Wikipedia page by ID\n  random [n]     Get n random Wikipedia pages (default: 1)"@
}

impl Command {
    /// The address to send this command's one request to.
    pub fn url(&self) -> (r: String)
        ensures
            r@ == address_of(self@),
    {
        match self {
            Command::Search(term) => search_url(term.as_str()),
            Command::Page(pageid) => page_url(*pageid),
            Command::Random(n) => random_url(*n),
        }
    }
}

} // verus!
