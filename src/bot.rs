//! The bot's state, the effect of each command on it, and the handling of
//! group and private messages.
use vstd::prelude::*;
use crate::auth_store::{AuthStore, with, without};
use crate::command::{Command, CommandModel, parse_command, parse_model};
use crate::response_table::{
    ResponseTable,
    Entries,
    has_key,
    lookup,
    upserted,
    removed,
    opt_text,
    pair_texts,
};
use crate::text::{split_ws, join, texts, join_from};

verus! {

/// The bot's state as the whitelist and the table of replies.
pub struct BotModel {
    pub whitelist: Seq<Seq<char>>,
    pub mappings: Entries,
}

pub open spec fn model_wf(s: BotModel) -> bool {
    s.whitelist.no_duplicates() && crate::response_table::keys_unique(s.mappings)
}

pub open spec fn help_text() -> Seq<char> {
    "Available commands:\n/adduser <username> <message> - Add/update a user response\n/removeuser <username> - Remove a user mapping\n/list - List all configured mappings\n/whitelist add <username> - Add user to whitelist\n/whitelist remove <username> - Remove from whitelist\n/whitelist list - List whitelist"@
}

/// One line of the `/list` reply.
pub open spec fn entry_line(p: (Seq<char>, Seq<char>)) -> Seq<char> {
    "@"@ + p.0 + " -> "@ + p.1
}

pub open spec fn mapping_lines(e: Entries) -> Seq<Seq<char>> {
    e.map_values(|p: (Seq<char>, Seq<char>)| entry_line(p))
}

/// The reply to `c` and the state after it, from state `s`.
pub open spec fn execute_model(c: CommandModel, s: BotModel) -> (Seq<char>, BotModel) {
    match c {
        CommandModel::Empty => ("Use /help to see available commands."@, s),
        CommandModel::Help => (help_text(), s),
        CommandModel::AddUser { username, body } => (
            "Added: @"@ + username + " -> "@ + body,
            BotModel { mappings: upserted(s.mappings, username, body), ..s },
        ),
        CommandModel::AddUserUsage => ("Usage: /adduser <username> <message>"@, s),
        CommandModel::RemoveUser { username } => (
            if has_key(s.mappings, username) {
                "Removed mapping for @"@ + username
            } else {
                "No mapping found for @"@ + username
            },
            BotModel { mappings: removed(s.mappings, username), ..s },
        ),
        CommandModel::RemoveUserUsage => ("Usage: /removeuser <username>"@, s),
        CommandModel::ListMappings => (
            if s.mappings.len() == 0 {
                "No mappings configured."@
            } else {
                join(mapping_lines(s.mappings), "\n"@)
            },
            s,
        ),
        CommandModel::WhitelistUsage => ("Usage: /whitelist <add|remove|list> [username]"@, s),
        CommandModel::WhitelistAdd { username } => (
            "Added @"@ + username + " to whitelist"@,
            BotModel { whitelist: with(s.whitelist, username), ..s },
        ),
        CommandModel::WhitelistAddUsage => ("Usage: /whitelist add <username>"@, s),
        CommandModel::WhitelistRemove { username } => (
            "Removed @"@ + username + " from whitelist"@,
            BotModel { whitelist: without(s.whitelist, username), ..s },
        ),
        CommandModel::WhitelistRemoveUsage => ("Usage: /whitelist remove <username>"@, s),
        CommandModel::WhitelistList => (
            if s.whitelist.len() == 0 {
                "Whitelist is empty."@
            } else {
                "Whitelist: @"@ + join(s.whitelist, ", @"@)
            },
            s,
        ),
        CommandModel::WhitelistUnknown => (
            "Unknown /whitelist command. Use: add, remove, or list"@,
            s,
        ),
        CommandModel::Unknown => ("Unknown command. Use /help for available commands."@, s),
    }
}

pub open spec fn no_username_reply() -> Seq<char> {
    "Error: No username found."@
}

pub open spec fn not_authorized_reply() -> Seq<char> {
    "You are not authorized to configure this bot."@
}

/// The reply to a private message and the state after it: the sender needs a
/// username, and that username must be whitelisted, before the text is read.
pub open spec fn private_outcome(s: BotModel, sender: Option<Seq<char>>, text: Seq<char>) -> (
    Seq<char>,
    BotModel,
) {
    match sender {
        None => (no_username_reply(), s),
        Some(u) => if s.whitelist.contains(u) {
            execute_model(parse_model(split_ws(text)), s)
        } else {
            (not_authorized_reply(), s)
        },
    }
}

/// What the bot sends to a group when `sender` posts there, if anything.
pub open spec fn group_outcome(s: BotModel, sender: Option<Seq<char>>) -> Option<Seq<char>> {
    match sender {
        None => None,
        Some(u) => lookup(s.mappings, u),
    }
}

pub open spec fn opt_str(o: Option<&str>) -> Option<Seq<char>> {
    match o {
        Some(s) => Some(s@),
        None => None,
    }
}

/// The whitelist and the table of replies, shared by all handlers.
pub struct BotState {
    pub whitelist: AuthStore,
    pub response_mappings: ResponseTable,
}

impl View for BotState {
    type V = BotModel;

    open spec fn view(&self) -> BotModel {
        BotModel { whitelist: self.whitelist@, mappings: self.response_mappings@ }
    }
}

impl BotState {
    pub open spec fn wf(&self) -> bool {
        self.whitelist.wf() && self.response_mappings.wf()
    }

    /// Both stores empty.
    pub fn new() -> (r: BotState)
        ensures
            r.wf(),
            r@.whitelist.len() == 0,
            r@.mappings.len() == 0,
    {
        BotState { whitelist: AuthStore::new(), response_mappings: ResponseTable::new() }
    }
}

fn list_reply(table: &ResponseTable) -> (r: String)
    requires
        table@.len() > 0,
    ensures
        r@ == join(mapping_lines(table@), "\n"@),
{
    let entries = table.list();
    let mut lines: Vec<String> = Vec::new();
    let n = entries.len();
    let mut i: usize = 0;
    while i < n
        invariant
            n == entries@.len(),
            pair_texts(entries@) == table@,
            i <= n,
            texts(lines@) =~= mapping_lines(table@).take(i as int),
        decreases n - i,
    {
        let ghost before = lines@;
        let line = String::from_str("@").concat(entries[i].0.as_str()).concat(" -> ").concat(
            entries[i].1.as_str(),
        );
        assert(table@[i as int] == (entries@[i as int].0@, entries@[i as int].1@));
        lines.push(line);
        assert(texts(lines@) =~= texts(before).push(line@));
        assert(mapping_lines(table@).take(i + 1) =~= mapping_lines(table@).take(i as int).push(
            entry_line(table@[i as int]),
        ));
        i = i + 1;
    }
    assert(mapping_lines(table@).take(n as int) =~= mapping_lines(table@));
    let r = join_from(&lines, 0, "\n");
    assert(texts(lines@).skip(0) =~= texts(lines@));
    r
}

fn whitelist_reply(whitelist: &AuthStore) -> (r: String)
    requires
        whitelist@.len() > 0,
    ensures
        r@ == "Whitelist: @"@ + join(whitelist@, ", @"@),
{
    let users = whitelist.list();
    let joined = join_from(&users, 0, ", @");
    assert(texts(users@).skip(0) =~= texts(users@));
    String::from_str("Whitelist: @").concat(joined.as_str())
}

/// Carries out `cmd` on the state and gives the reply to send.
pub fn execute(cmd: Command, state: &mut BotState) -> (r: String)
    requires
        old(state).wf(),
    ensures
        final(state).wf(),
        (r@, final(state)@) == execute_model(cmd@, old(state)@),
{
    match cmd {
        Command::Empty => String::from_str("Use /help to see available commands."),
        Command::Help => String::from_str(
            "Available commands:\n/adduser <username> <message> - Add/update a user response\n/removeuser <username> - Remove a user mapping\n/list - List all configured mappings\n/whitelist add <username> - Add user to whitelist\n/whitelist remove <username> - Remove from whitelist\n/whitelist list - List whitelist",
        ),
        Command::AddUser { username, body } => {
            let reply = String::from_str("Added: @").concat(username.as_str()).concat(
                " -> ",
            ).concat(body.as_str());
            state.response_mappings.upsert(username, body);
            reply
        },
        Command::AddUserUsage => String::from_str("Usage: /adduser <username> <message>"),
        Command::RemoveUser { username } => {
            if state.response_mappings.remove(username.as_str()) {
                String::from_str("Removed mapping for @").concat(username.as_str())
            } else {
                String::from_str("No mapping found for @").concat(username.as_str())
            }
        },
        Command::RemoveUserUsage => String::from_str("Usage: /removeuser <username>"),
        Command::ListMappings => {
            if state.response_mappings.is_empty() {
                String::from_str("No mappings configured.")
            } else {
                list_reply(&state.response_mappings)
            }
        },
        Command::WhitelistUsage => String::from_str(
            "Usage: /whitelist <add|remove|list> [username]",
        ),
        Command::WhitelistAdd { username } => {
            state.whitelist.add(username.as_str());
            String::from_str("Added @").concat(username.as_str()).concat(" to whitelist")
        },
        Command::WhitelistAddUsage => String::from_str("Usage: /whitelist add <username>"),
        Command::WhitelistRemove { username } => {
            state.whitelist.remove(username.as_str());
            String::from_str("Removed @").concat(username.as_str()).concat(" from whitelist")
        },
        Command::WhitelistRemoveUsage => String::from_str("Usage: /whitelist remove <username>"),
        Command::WhitelistList => {
            if state.whitelist.is_empty() {
                String::from_str("Whitelist is empty.")
            } else {
                whitelist_reply(&state.whitelist)
            }
        },
        Command::WhitelistUnknown => String::from_str(
            "Unknown /whitelist command. Use: add, remove, or list",
        ),
        Command::Unknown => String::from_str(
            "Unknown command. Use /help for available commands.",
        ),
    }
}

/// Handles a private message: checks the sender, then parses and carries out
/// the command. Always gives exactly one reply.
pub fn handle_private_message(state: &mut BotState, sender: Option<&str>, text: &str) -> (r:
    String)
    requires
        old(state).wf(),
    ensures
        final(state).wf(),
        (r@, final(state)@) == private_outcome(old(state)@, opt_str(sender), text@),
{
    match sender {
        None => String::from_str("Error: No username found."),
        Some(u) => {
            if !state.whitelist.contains(u) {
                return String::from_str("You are not authorized to configure this bot.");
            }
            let cmd = parse_command(text);
            execute(cmd, state)
        },
    }
}

/// Handles a group message: the reply stored for the sender, if the sender
/// has a username and a reply is stored for it; nothing otherwise.
pub fn handle_group_message(state: &BotState, sender: Option<&str>) -> (r: Option<String>)
    requires
        state.wf(),
    ensures
        opt_text(r) == group_outcome(state@, opt_str(sender)),
{
    match sender {
        None => None,
        Some(u) => state.response_mappings.get(u),
    }
}

} // verus!
