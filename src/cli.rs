use vstd::prelude::*;
use crate::weburl::{classify_url, is_collection_url, is_url};

verus! {

/// What one invocation does, decided from its arguments.
#[derive(Clone, Copy, Debug, PartialEq, Eq, Structural)]
pub enum Action {
    /// Too few arguments: print the usage text.
    Usage,
    /// The target is not a well-formed URL.
    InvalidUrl,
    /// The command is neither of the two known ones.
    InvalidCommand,
    /// Print the first audio and video stream URLs of a single item.
    GetSources,
    /// Print the record of a single item.
    DumpSingle,
    /// Print the records of the members of a collection.
    DumpCollection,
}

/// How many arguments, the program name included, an invocation needs.
pub const MIN_ARGS: usize = 3;

/// The command that prints stream sources.
pub open spec fn get_sources_flag() -> Seq<char> {
    "--get-sources"@
}

/// The command that prints item records.
pub open spec fn dump_videos_flag() -> Seq<char> {
    "--dump-videos"@
}

/// The action that the arguments `[program, url, command, ..]` call for.
pub open spec fn action_of(args: Seq<Seq<char>>) -> Action {
    if args.len() < MIN_ARGS {
        Action::Usage
    } else if !is_url(args[1]) {
        Action::InvalidUrl
    } else if args[2] == get_sources_flag() {
        Action::GetSources
    } else if args[2] == dump_videos_flag() {
        if is_collection_url(args[1]) {
            Action::DumpCollection
        } else {
            Action::DumpSingle
        }
    } else {
        Action::InvalidCommand
    }
}

/// The arguments as sequences of characters.
pub open spec fn args_view(args: Seq<String>) -> Seq<Seq<char>> {
    args.map_values(|a: String| a@)
}

impl Action {
    /// The action prints JSON on standard output.
    pub open spec fn emits_json(self) -> bool {
        self is GetSources || self is DumpSingle || self is DumpCollection
    }

    /// Whether the action prints JSON on standard output; the others
    /// print a diagnostic and end the run as a success.
    pub fn prints_json(&self) -> (r: bool)
        ensures
            r == self.emits_json(),
    {
        match self {
            Action::GetSources | Action::DumpSingle | Action::DumpCollection => true,
            _ => false,
        }
    }
}

/// Decides what the invocation with arguments `args` does.
pub fn choose_action(args: &Vec<String>) -> (r: Action)
    ensures
        r == action_of(args_view(args@)),
{
    if args.len() < MIN_ARGS {
        return Action::Usage;
    }
    let target = &args[1];
    let command = &args[2];
    let kind = classify_url(target.as_str());
    match kind {
        None => Action::InvalidUrl,
        Some(is_collection) => {
            let get_sources = String::from_str("--get-sources");
            let dump_videos = String::from_str("--dump-videos");
            if *command == get_sources {
                Action::GetSources
            } else if *command == dump_videos {
                if is_collection {
                    Action::DumpCollection
                } else {
                    Action::DumpSingle
                }
            } else {
                Action::InvalidCommand
            }
        },
    }
}

/// The usage text, which names the program as it was invoked.
pub open spec fn usage_spec(program: Seq<char>) -> Seq<char> {
    "Usage: "@ + program + USAGE_TAIL@
}

/// What follows the program's name in the usage text.
pub const USAGE_TAIL: &'static str = " <YouTube URL> <command>\nCommands:\n  --get-sources        Print audio and video source URLs for a single video.\n  --dump-videos        Print array of video titles and URLs for a playlist.";

/// The diagnostic printed for an invalid URL.
pub const INVALID_URL_MESSAGE: &'static str = "Invalid URL provided.";

/// The diagnostic printed for an unknown command.
pub const INVALID_COMMAND_MESSAGE: &'static str = "Invalid command.";

/// The text that the action prints on the error stream, if any.
pub open spec fn diagnostic_spec(action: Action, program: Seq<char>) -> Option<Seq<char>> {
    match action {
        Action::Usage => Some(usage_spec(program)),
        Action::InvalidUrl => Some(INVALID_URL_MESSAGE@),
        Action::InvalidCommand => Some(INVALID_COMMAND_MESSAGE@),
        _ => None,
    }
}

/// The usage text for the program invoked as `program`.
pub fn usage_text(program: &str) -> (r: String)
    ensures
        r@ == usage_spec(program@),
{
    let head = String::from_str("Usage: ");
    let named = head.concat(program);
    named.concat(USAGE_TAIL)
}

/// The text that `action` prints on the error stream; `None` for the
/// actions that print JSON instead.
pub fn diagnostic(action: Action, program: &str) -> (r: Option<String>)
    ensures
        r.is_some() == diagnostic_spec(action, program@).is_some(),
        r matches Some(t) ==> diagnostic_spec(action, program@) == Some(t@),
        r.is_some() == !action.emits_json(),
{
    match action {
        Action::Usage => Some(usage_text(program)),
        Action::InvalidUrl => Some(String::from_str(INVALID_URL_MESSAGE)),
        Action::InvalidCommand => Some(String::from_str(INVALID_COMMAND_MESSAGE)),
        _ => None,
    }
}

/// With fewer arguments than the minimum, the run prints the usage text
/// on the error stream, no JSON, and ends as a success.
pub proof fn too_few_arguments_print_usage(args: Seq<Seq<char>>)
    requires
        args.len() < MIN_ARGS,
    ensures
        action_of(args) == Action::Usage,
        !action_of(args).emits_json(),
        forall|program: Seq<char>|
            #[trigger] diagnostic_spec(action_of(args), program) == Some(usage_spec(program)),
{
}

/// A target that does not parse as a URL gives the invalid-URL message on
/// the error stream and no JSON, whatever the command.
pub proof fn malformed_url_is_reported(args: Seq<Seq<char>>, program: Seq<char>)
    requires
        args.len() >= MIN_ARGS,
        !is_url(args[1]),
    ensures
        action_of(args) == Action::InvalidUrl,
        !action_of(args).emits_json(),
        diagnostic_spec(action_of(args), program) == Some("Invalid URL provided."@),
{
}

/// A command that is neither known one gives the invalid-command message on
/// the error stream and no JSON, once the target is a well-formed URL.
pub proof fn unknown_command_is_reported(args: Seq<Seq<char>>, program: Seq<char>)
    requires
        args.len() >= MIN_ARGS,
        is_url(args[1]),
        args[2] != get_sources_flag(),
        args[2] != dump_videos_flag(),
    ensures
        action_of(args) == Action::InvalidCommand,
        !action_of(args).emits_json(),
        diagnostic_spec(action_of(args), program) == Some("Invalid command."@),
{
}

} // verus!
