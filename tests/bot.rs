use fuq_bot::auth_store::AuthStore;
use fuq_bot::bot::{handle_group_message, handle_private_message, BotState};
use fuq_bot::command::{parse_command, Command};
use fuq_bot::response_table::ResponseTable;
use fuq_bot::text::{join_from, split_whitespace, trim_at};

fn admin_state(admin: &str) -> BotState {
    let mut state = BotState::new();
    state.whitelist.add(admin);
    state
}

fn say(state: &mut BotState, text: &str) -> String {
    handle_private_message(state, Some("alice"), text)
}

#[test]
fn add_user_then_group_reply() {
    let mut state = admin_state("alice");
    assert_eq!(say(&mut state, "/adduser bob Hello there"), "Added: @bob -> Hello there");
    assert_eq!(handle_group_message(&state, Some("bob")), Some("Hello there".to_string()));
}

#[test]
fn remove_missing_mapping() {
    let mut state = admin_state("alice");
    say(&mut state, "/adduser carl yo");
    assert_eq!(say(&mut state, "/removeuser bob"), "No mapping found for @bob");
    assert_eq!(say(&mut state, "/list"), "@carl -> yo");
}

#[test]
fn remove_existing_mapping() {
    let mut state = admin_state("alice");
    say(&mut state, "/adduser bob hi");
    assert_eq!(say(&mut state, "/removeuser @bob"), "Removed mapping for @bob");
    assert_eq!(handle_group_message(&state, Some("bob")), None);
    assert_eq!(say(&mut state, "/list"), "No mappings configured.");
}

#[test]
fn list_two_mappings_in_insertion_order() {
    let mut state = admin_state("alice");
    say(&mut state, "/adduser bob hi");
    say(&mut state, "/adduser carl yo");
    assert_eq!(say(&mut state, "/list"), "@bob -> hi\n@carl -> yo");
}

#[test]
fn no_username_private_message() {
    let mut state = admin_state("alice");
    for text in ["/adduser bob hi", "/whitelist add eve", "", "hello"] {
        assert_eq!(handle_private_message(&mut state, None, text), "Error: No username found.");
    }
    assert_eq!(say(&mut state, "/list"), "No mappings configured.");
    assert_eq!(say(&mut state, "/whitelist list"), "Whitelist: @alice");
}

#[test]
fn whitelist_list_two_entries() {
    let mut state = admin_state("dave");
    state.whitelist.add("erin");
    assert_eq!(
        handle_private_message(&mut state, Some("dave"), "/whitelist list"),
        "Whitelist: @dave, @erin"
    );
}

#[test]
fn absent_user_stays_absent() {
    let mut table = ResponseTable::new();
    assert_eq!(table.get("zoe"), None);
    table.upsert("bob".to_string(), "hi".to_string());
    assert_eq!(table.get("zoe"), None);
    table.remove("bob");
    assert_eq!(table.get("zoe"), None);
}

#[test]
fn add_user_twice_is_one_mapping() {
    let mut state = admin_state("alice");
    say(&mut state, "/adduser bob hi");
    say(&mut state, "/adduser bob hi");
    assert_eq!(say(&mut state, "/list"), "@bob -> hi");
    assert_eq!(state.response_mappings.list().len(), 1);
}

#[test]
fn add_user_overwrites() {
    let mut state = admin_state("alice");
    say(&mut state, "/adduser bob hi");
    say(&mut state, "/adduser carl yo");
    assert_eq!(say(&mut state, "/adduser bob bye"), "Added: @bob -> bye");
    assert_eq!(say(&mut state, "/list"), "@bob -> bye\n@carl -> yo");
}

#[test]
fn whitelist_add_twice_is_one_entry() {
    let mut state = admin_state("alice");
    assert_eq!(say(&mut state, "/whitelist add carl"), "Added @carl to whitelist");
    assert_eq!(say(&mut state, "/whitelist add @carl"), "Added @carl to whitelist");
    assert_eq!(say(&mut state, "/whitelist list"), "Whitelist: @alice, @carl");
}

#[test]
fn unauthorized_sender_changes_nothing() {
    let mut state = admin_state("alice");
    say(&mut state, "/adduser bob hi");
    for text in ["/adduser bob bye", "/removeuser bob", "/whitelist add mallory", "nonsense", ""] {
        assert_eq!(
            handle_private_message(&mut state, Some("mallory"), text),
            "You are not authorized to configure this bot."
        );
    }
    assert_eq!(say(&mut state, "/list"), "@bob -> hi");
    assert_eq!(say(&mut state, "/whitelist list"), "Whitelist: @alice");
}

#[test]
fn removed_admin_loses_access() {
    let mut state = admin_state("alice");
    say(&mut state, "/whitelist add bob");
    assert_eq!(say(&mut state, "/whitelist remove bob"), "Removed @bob from whitelist");
    assert_eq!(say(&mut state, "/whitelist remove nobody"), "Removed @nobody from whitelist");
    assert_eq!(
        handle_private_message(&mut state, Some("bob"), "/list"),
        "You are not authorized to configure this bot."
    );
    assert_eq!(say(&mut state, "/whitelist remove alice"), "Removed @alice from whitelist");
    assert_eq!(say(&mut state, "/list"), "You are not authorized to configure this bot.");
}

#[test]
fn empty_whitelist_and_table_replies() {
    let mut state = admin_state("alice");
    assert_eq!(say(&mut state, "/list"), "No mappings configured.");
    state.whitelist.remove("alice");
    assert!(state.whitelist.is_empty());
    state.whitelist.add("alice");
    assert_eq!(say(&mut state, "/whitelist list"), "Whitelist: @alice");
    say(&mut state, "/whitelist remove alice");
    assert!(state.whitelist.list().is_empty());
}

#[test]
fn usage_and_unknown_replies() {
    let mut state = admin_state("alice");
    assert_eq!(say(&mut state, "   "), "Use /help to see available commands.");
    assert_eq!(say(&mut state, "/adduser bob"), "Usage: /adduser <username> <message>");
    assert_eq!(say(&mut state, "/removeuser"), "Usage: /removeuser <username>");
    assert_eq!(say(&mut state, "/whitelist"), "Usage: /whitelist <add|remove|list> [username]");
    assert_eq!(say(&mut state, "/whitelist add"), "Usage: /whitelist add <username>");
    assert_eq!(say(&mut state, "/whitelist remove"), "Usage: /whitelist remove <username>");
    assert_eq!(
        say(&mut state, "/whitelist drop bob"),
        "Unknown /whitelist command. Use: add, remove, or list"
    );
    assert_eq!(say(&mut state, "/HELP"), "Unknown command. Use /help for available commands.");
    assert_eq!(say(&mut state, "hello"), "Unknown command. Use /help for available commands.");
    assert_eq!(say(&mut state, "/list"), "No mappings configured.");
}

#[test]
fn help_lists_every_command() {
    let mut state = admin_state("alice");
    let help = say(&mut state, "/help");
    assert_eq!(
        help,
        "Available commands:\n\
/adduser <username> <message> - Add/update a user response\n\
/removeuser <username> - Remove a user mapping\n\
/list - List all configured mappings\n\
/whitelist add <username> - Add user to whitelist\n\
/whitelist remove <username> - Remove from whitelist\n\
/whitelist list - List whitelist"
    );
}

#[test]
fn body_spacing_is_collapsed() {
    let mut state = admin_state("alice");
    assert_eq!(
        say(&mut state, "  /adduser\t@@bob   Hello \n  there\u{3000}friend "),
        "Added: @bob -> Hello there friend"
    );
    assert_eq!(handle_group_message(&state, Some("bob")), Some("Hello there friend".to_string()));
    assert_eq!(handle_group_message(&state, Some("@bob")), None);
    assert_eq!(handle_group_message(&state, Some("Bob")), None);
}

#[test]
fn group_message_without_username_is_silent() {
    let mut state = admin_state("alice");
    say(&mut state, "/adduser bob hi");
    assert_eq!(handle_group_message(&state, None), None);
    assert_eq!(handle_group_message(&state, Some("carl")), None);
}

#[test]
fn parse_examples() {
    match parse_command("/adduser @bob a  b") {
        Command::AddUser { username, body } => {
            assert_eq!(username, "bob");
            assert_eq!(body, "a b");
        }
        _ => panic!("expected AddUser"),
    }
    assert!(matches!(parse_command(""), Command::Empty));
    assert!(matches!(parse_command("/whitelist list extra"), Command::WhitelistList));
    assert!(matches!(parse_command("/list anything"), Command::ListMappings));
    assert!(matches!(parse_command("/whitelist add"), Command::WhitelistAddUsage));
}

#[test]
fn text_helpers() {
    assert_eq!(split_whitespace(" a\u{a0}b\u{85}c  d "), vec!["a", "b", "c", "d"]);
    assert!(split_whitespace(" \t\n").is_empty());
    assert_eq!(split_whitespace("x\u{200b}y"), vec!["x\u{200b}y"]);
    assert_eq!(trim_at("@@a@b"), "a@b");
    assert_eq!(trim_at("@"), "");
    let parts = vec!["a".to_string(), "b".to_string(), "c".to_string()];
    assert_eq!(join_from(&parts, 0, ", "), "a, b, c");
    assert_eq!(join_from(&parts, 2, ", "), "c");
    assert_eq!(join_from(&parts, 3, ", "), "");
}

#[test]
fn auth_store_operations() {
    let mut store = AuthStore::new();
    assert!(!store.contains("a"));
    store.add("a");
    store.add("b");
    store.add("a");
    assert_eq!(store.list(), vec!["a", "b"]);
    assert!(store.contains("a"));
    assert!(!store.contains("A"));
    assert!(store.remove("a"));
    assert!(!store.remove("a"));
    assert_eq!(store.list(), vec!["b"]);
}

#[test]
fn response_table_operations() {
    let mut table = ResponseTable::new();
    assert!(table.is_empty());
    table.upsert("a".to_string(), "1".to_string());
    table.upsert("b".to_string(), "2".to_string());
    table.upsert("a".to_string(), "3".to_string());
    assert_eq!(
        table.list(),
        vec![("a".to_string(), "3".to_string()), ("b".to_string(), "2".to_string())]
    );
    assert!(table.remove("a"));
    assert!(!table.remove("a"));
    assert_eq!(table.get("b"), Some("2".to_string()));
}
