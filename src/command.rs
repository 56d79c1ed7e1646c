//! The commands an administrator sends in a private chat, and their parsing.
use vstd::prelude::*;
use crate::text::{split_ws, strip_at, join, texts, split_whitespace, trim_at, join_from};

verus! {

/// What a private message asks for, in terms of character sequences.
pub enum CommandModel {
    Empty,
    Help,
    AddUser { username: Seq<char>, body: Seq<char> },
    AddUserUsage,
    RemoveUser { username: Seq<char> },
    RemoveUserUsage,
    ListMappings,
    WhitelistUsage,
    WhitelistAdd { username: Seq<char> },
    WhitelistAddUsage,
    WhitelistRemove { username: Seq<char> },
    WhitelistRemoveUsage,
    WhitelistList,
    WhitelistUnknown,
    Unknown,
}

/// What a private message asks for. The `*Usage` variants stand for a known
/// command given too few arguments.
pub enum Command {
    Empty,
    Help,
    AddUser { username: String, body: String },
    AddUserUsage,
    RemoveUser { username: String },
    RemoveUserUsage,
    ListMappings,
    WhitelistUsage,
    WhitelistAdd { username: String },
    WhitelistAddUsage,
    WhitelistRemove { username: String },
    WhitelistRemoveUsage,
    WhitelistList,
    WhitelistUnknown,
    Unknown,
}

impl View for Command {
    type V = CommandModel;

    open spec fn view(&self) -> CommandModel {
        match self {
            Command::Empty => CommandModel::Empty,
            Command::Help => CommandModel::Help,
            Command::AddUser { username, body } => CommandModel::AddUser {
                username: username@,
                body: body@,
            },
            Command::AddUserUsage => CommandModel::AddUserUsage,
            Command::RemoveUser { username } => CommandModel::RemoveUser { username: username@ },
            Command::RemoveUserUsage => CommandModel::RemoveUserUsage,
            Command::ListMappings => CommandModel::ListMappings,
            Command::WhitelistUsage => CommandModel::WhitelistUsage,
            Command::WhitelistAdd { username } => CommandModel::WhitelistAdd { username: username@ },
            Command::WhitelistAddUsage => CommandModel::WhitelistAddUsage,
            Command::WhitelistRemove { username } => CommandModel::WhitelistRemove {
                username: username@,
            },
            Command::WhitelistRemoveUsage => CommandModel::WhitelistRemoveUsage,
            Command::WhitelistList => CommandModel::WhitelistList,
            Command::WhitelistUnknown => CommandModel::WhitelistUnknown,
            Command::Unknown => CommandModel::Unknown,
        }
    }
}

/// The command that the words `t` of a message ask for: the first word names
/// it, exactly and case-sensitively; usernames lose their leading `@`s; the
/// body of `/adduser` is its remaining words joined by single spaces.
pub open spec fn parse_model(t: Seq<Seq<char>>) -> CommandModel {
    if t.len() == 0 {
        CommandModel::Empty
    } else if t[0] == "/help"@ {
        CommandModel::Help
    } else if t[0] == "/adduser"@ {
        if t.len() < 3 {
            CommandModel::AddUserUsage
        } else {
            CommandModel::AddUser { username: strip_at(t[1]), body: join(t.skip(2), " "@) }
        }
    } else if t[0] == "/removeuser"@ {
        if t.len() < 2 {
            CommandModel::RemoveUserUsage
        } else {
            CommandModel::RemoveUser { username: strip_at(t[1]) }
        }
    } else if t[0] == "/list"@ {
        CommandModel::ListMappings
    } else if t[0] == "/whitelist"@ {
        if t.len() < 2 {
            CommandModel::WhitelistUsage
        } else if t[1] == "add"@ {
            if t.len() < 3 {
                CommandModel::WhitelistAddUsage
            } else {
                CommandModel::WhitelistAdd { username: strip_at(t[2]) }
            }
        } else if t[1] == "remove"@ {
            if t.len() < 3 {
                CommandModel::WhitelistRemoveUsage
            } else {
                CommandModel::WhitelistRemove { username: strip_at(t[2]) }
            }
        } else if t[1] == "list"@ {
            CommandModel::WhitelistList
        } else {
            CommandModel::WhitelistUnknown
        }
    } else {
        CommandModel::Unknown
    }
}

fn word_is(w: &String, lit: &str) -> (r: bool)
    ensures
        r == (w@ == lit@),
{
    w.eq(&String::from_str(lit))
}

/// Parses the text of a private message into a command.
pub fn parse_command(text: &str) -> (r: Command)
    ensures
        r@ == parse_model(split_ws(text@)),
{
    let words = split_whitespace(text);
    let ghost t = texts(words@);
    let n = words.len();
    if n == 0 {
        return Command::Empty;
    }
    assert(t[0] == words@[0]@);
    if word_is(&words[0], "/help") {
        Command::Help
    } else if word_is(&words[0], "/adduser") {
        if n < 3 {
            Command::AddUserUsage
        } else {
            assert(t[1] == words@[1]@);
            Command::AddUser { username: trim_at(words[1].as_str()), body: join_from(&words, 2, " ") }
        }
    } else if word_is(&words[0], "/removeuser") {
        if n < 2 {
            Command::RemoveUserUsage
        } else {
            assert(t[1] == words@[1]@);
            Command::RemoveUser { username: trim_at(words[1].as_str()) }
        }
    } else if word_is(&words[0], "/list") {
        Command::ListMappings
    } else if word_is(&words[0], "/whitelist") {
        if n < 2 {
            return Command::WhitelistUsage;
        }
        assert(t[1] == words@[1]@);
        if word_is(&words[1], "add") {
            if n < 3 {
                Command::WhitelistAddUsage
            } else {
                assert(t[2] == words@[2]@);
                Command::WhitelistAdd { username: trim_at(words[2].as_str()) }
            }
        } else if word_is(&words[1], "remove") {
            if n < 3 {
                Command::WhitelistRemoveUsage
            } else {
                assert(t[2] == words@[2]@);
                Command::WhitelistRemove { username: trim_at(words[2].as_str()) }
            }
        } else if word_is(&words[1], "list") {
            Command::WhitelistList
        } else {
            Command::WhitelistUnknown
        }
    } else {
        Command::Unknown
    }
}

} // verus!
