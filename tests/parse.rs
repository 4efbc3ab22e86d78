use chat_commands::command::{
    Usage, USAGE_ACCOUNT_COMMANDS, USAGE_ACCOUNT_DELETE, USAGE_ACCOUNT_EDIT, USAGE_ACCOUNT_EXPORT,
    USAGE_ACCOUNT_IMPORT, USAGE_ACCOUNT_INFO, USAGE_ACCOUNT_LOGIN, USAGE_ACCOUNT_LOGOUT,
    USAGE_ACCOUNT_REGISTER, USAGE_MESSAGE, USAGE_ROOM_COMMANDS, USAGE_ROOM_CREATE,
    USAGE_ROOM_DELETE, USAGE_ROOM_IMPORT, USAGE_ROOM_JOIN, USAGE_ROOM_LIST,
};
use chat_commands::parser::parse_tokens_exec;
use chat_commands::tokenize::{split_tokens, tokenize};
use chat_commands::{parse_command, Command};

fn s(x: &str) -> String {
    x.to_string()
}

fn invalid(msg: &str) -> Command {
    Command::InvalidSyntax { err_msg: msg.to_string() }
}

#[test]
fn bare_commands_and_aliases() {
    assert_eq!(parse_command("/help"), Command::Help);
    assert_eq!(parse_command("/h"), Command::Help);
    assert_eq!(parse_command("/ping"), Command::Ping);
    for q in ["/quit", "/exit", "/q", "/e"] {
        assert_eq!(parse_command(q), Command::Quit);
    }
    assert_eq!(parse_command("/leave"), Command::Leave);
    assert_eq!(parse_command("/status"), Command::Status);
}

#[test]
fn bare_commands_with_extra_tokens_are_unavailable() {
    assert_eq!(parse_command("/help me"), Command::Unavailable);
    assert_eq!(parse_command("/ping now"), Command::Unavailable);
    assert_eq!(parse_command("/quit x"), Command::Unavailable);
}

#[test]
fn direct_message_aliases_agree() {
    let want = Command::DM { recipient: s("alice"), message: s("hello") };
    assert_eq!(parse_command("/dm alice hello"), want);
    assert_eq!(parse_command("/msg alice hello"), want);
    assert_eq!(parse_command("/message alice hello"), want);
}

#[test]
fn direct_message_wrong_arity() {
    assert_eq!(parse_command("/dm alice"), invalid(USAGE_MESSAGE));
    assert_eq!(parse_command("/msg alice hello there"), invalid(USAGE_MESSAGE));
    assert_eq!(parse_command("/message"), invalid(USAGE_MESSAGE));
}

#[test]
fn account_register_all_alias_spellings() {
    let want = Command::AccountRegister { username: s("alice"), password: s("pw1"), confirm: s("pw1") };
    for f in ["account", "a"] {
        for a in ["register", "r"] {
            assert_eq!(parse_command(&format!("/{} {} alice pw1 pw1", f, a)), want);
        }
    }
}

#[test]
fn account_register_arity_boundary() {
    assert_eq!(parse_command("/account register alice pw1"), invalid(USAGE_ACCOUNT_REGISTER));
    assert_ne!(parse_command("/account register alice pw1"), invalid(USAGE_ACCOUNT_COMMANDS));
    assert_eq!(parse_command("/a r a b c d"), invalid(USAGE_ACCOUNT_REGISTER));
}

#[test]
fn account_login_logout() {
    let want = Command::AccountLogin { username: s("bob"), password: s("secret") };
    for f in ["account", "a"] {
        for a in ["login", "l"] {
            assert_eq!(parse_command(&format!("/{} {} bob secret", f, a)), want);
        }
        assert_eq!(parse_command(&format!("/{} logout", f)), Command::AccountLogout);
        assert_eq!(parse_command(&format!("/{} logout now", f)), invalid(USAGE_ACCOUNT_LOGOUT));
    }
    assert_eq!(parse_command("/account login bob"), invalid(USAGE_ACCOUNT_LOGIN));
}

#[test]
fn account_edit_fields() {
    for f in ["account", "a"] {
        for e in ["edit", "e"] {
            for u in ["username", "u"] {
                assert_eq!(
                    parse_command(&format!("/{} {} {} carol", f, e, u)),
                    Command::AccountEditUsername { username: s("carol") }
                );
            }
            for p in ["password", "p"] {
                assert_eq!(
                    parse_command(&format!("/{} {} {} old new", f, e, p)),
                    Command::AccountEditPassword { current_password: s("old"), new_password: s("new") }
                );
            }
        }
    }
    assert_eq!(parse_command("/account edit"), invalid(USAGE_ACCOUNT_EDIT));
    assert_eq!(parse_command("/account edit username"), invalid(USAGE_ACCOUNT_EDIT));
    assert_eq!(parse_command("/account edit password onlyone"), invalid(USAGE_ACCOUNT_EDIT));
    assert_eq!(parse_command("/account edit email x"), invalid(USAGE_ACCOUNT_EDIT));
    assert_eq!(parse_command("/account edit username a b"), invalid(USAGE_ACCOUNT_EDIT));
}

#[test]
fn account_import_and_info() {
    assert_eq!(parse_command("/account import acc.json"), Command::AccountImport { filename: s("acc.json") });
    assert_eq!(parse_command("/a import acc.json"), Command::AccountImport { filename: s("acc.json") });
    assert_eq!(parse_command("/account import"), invalid(USAGE_ACCOUNT_IMPORT));
    for f in ["account", "a"] {
        for i in ["info", "i"] {
            assert_eq!(parse_command(&format!("/{} {}", f, i)), Command::Account);
        }
    }
    assert_eq!(parse_command("/account info extra"), invalid(USAGE_ACCOUNT_INFO));
}

#[test]
fn account_export_optional_filename() {
    assert_eq!(parse_command("/account export"), Command::AccountExport { filename: s("") });
    assert_eq!(parse_command("/account export out.json"), Command::AccountExport { filename: s("out.json") });
    assert_eq!(parse_command("/a export out.json"), Command::AccountExport { filename: s("out.json") });
    assert_eq!(parse_command("/account export a b"), invalid(USAGE_ACCOUNT_EXPORT));
}

#[test]
fn account_delete_force_flag() {
    for f in ["account", "a"] {
        for d in ["delete", "d"] {
            assert_eq!(parse_command(&format!("/{} {}", f, d)), Command::AccountDelete { force: false });
            for k in ["force", "f"] {
                assert_eq!(parse_command(&format!("/{} {} {}", f, d, k)), Command::AccountDelete { force: true });
            }
            for k in ["Force", "yes", "-f", "fo"] {
                assert_eq!(parse_command(&format!("/{} {} {}", f, d, k)), invalid(USAGE_ACCOUNT_DELETE));
            }
        }
    }
}

#[test]
fn account_unknown_action_lists_category() {
    assert_eq!(parse_command("/account"), invalid(USAGE_ACCOUNT_COMMANDS));
    assert_eq!(parse_command("/a"), invalid(USAGE_ACCOUNT_COMMANDS));
    assert_eq!(parse_command("/account fly away"), invalid(USAGE_ACCOUNT_COMMANDS));
    assert_eq!(parse_command("/account Register a b c"), invalid(USAGE_ACCOUNT_COMMANDS));
}

#[test]
fn room_create_whitelist_flag() {
    for f in ["room", "r"] {
        for c in ["create", "c"] {
            assert_eq!(
                parse_command(&format!("/{} {} lobby", f, c)),
                Command::RoomCreate { name: s("lobby"), whitelist: false }
            );
            for w in ["whitelist", "w", "private", "p"] {
                assert_eq!(
                    parse_command(&format!("/{} {} lobby {}", f, c, w)),
                    Command::RoomCreate { name: s("lobby"), whitelist: true }
                );
            }
            for w in ["public", "force", "Whitelist"] {
                assert_eq!(parse_command(&format!("/{} {} lobby {}", f, c, w)), invalid(USAGE_ROOM_CREATE));
            }
        }
    }
    assert_eq!(parse_command("/room create"), invalid(USAGE_ROOM_CREATE));
}

#[test]
fn room_join_import_list() {
    for f in ["room", "r"] {
        for j in ["join", "j"] {
            assert_eq!(parse_command(&format!("/{} {} lobby", f, j)), Command::RoomJoin { name: s("lobby") });
        }
        assert_eq!(parse_command(&format!("/{} import r.json", f)), Command::RoomImport { filename: s("r.json") });
        for l in ["list", "l"] {
            assert_eq!(parse_command(&format!("/{} {}", f, l)), Command::RoomList);
        }
    }
    assert_eq!(parse_command("/room join"), invalid(USAGE_ROOM_JOIN));
    assert_eq!(parse_command("/room import"), invalid(USAGE_ROOM_IMPORT));
    assert_eq!(parse_command("/room list all"), invalid(USAGE_ROOM_LIST));
}

#[test]
fn room_delete_force_flag() {
    for f in ["room", "r"] {
        for d in ["delete", "d"] {
            assert_eq!(
                parse_command(&format!("/{} {} lobby", f, d)),
                Command::RoomDelete { name: s("lobby"), force: false }
            );
            for k in ["force", "f"] {
                assert_eq!(
                    parse_command(&format!("/{} {} {} lobby", f, d, k)),
                    Command::RoomDelete { name: s("lobby"), force: true }
                );
            }
        }
    }
    assert_eq!(parse_command("/room delete lobby force"), invalid(USAGE_ROOM_DELETE));
    assert_eq!(parse_command("/room delete"), invalid(USAGE_ROOM_DELETE));
}

#[test]
fn room_unknown_action_lists_category() {
    assert_eq!(parse_command("/room teleport x"), invalid(USAGE_ROOM_COMMANDS));
    assert_eq!(parse_command("/room"), invalid(USAGE_ROOM_COMMANDS));
    assert_eq!(parse_command("/r"), invalid(USAGE_ROOM_COMMANDS));
}

#[test]
fn unknown_top_level_is_unavailable() {
    assert_eq!(parse_command("/frobnicate"), Command::Unavailable);
    assert_eq!(parse_command("/HELP"), Command::Unavailable);
    assert_eq!(parse_command("/Account info"), Command::Unavailable);
}

#[test]
fn empty_and_marker_only_input() {
    assert_eq!(parse_command(""), Command::Unavailable);
    assert_eq!(parse_command("   \t "), Command::Unavailable);
    assert_eq!(parse_command("/"), Command::Unavailable);
    assert_eq!(parse_command("/ help"), Command::Unavailable);
}

#[test]
fn whitespace_runs_and_trimming() {
    assert_eq!(
        parse_command("  /dm \t alice\u{3000}  hello  \n"),
        Command::DM { recipient: s("alice"), message: s("hello") }
    );
    assert_eq!(parse_command("/room\u{a0}list"), Command::RoomList);
}

#[test]
fn any_marker_character_is_removed() {
    assert_eq!(parse_command("!ping"), Command::Ping);
    assert_eq!(parse_command("\u{e9}ping"), Command::Ping);
}

#[test]
fn fields_keep_non_ascii_text() {
    assert_eq!(
        parse_command("/dm zo\u{eb} h\u{e9}llo\u{1f600}"),
        Command::DM { recipient: s("zo\u{eb}"), message: s("h\u{e9}llo\u{1f600}") }
    );
}

#[test]
fn diagnostics_are_stable_across_calls() {
    for line in ["/account register alice pw1", "/room teleport x", "/dm x", "/account edit"] {
        let first = parse_command(line);
        let second = parse_command(line);
        assert!(matches!(first, Command::InvalidSyntax { .. }));
        assert_eq!(first, second);
    }
}

#[test]
fn usage_texts() {
    assert_eq!(Usage::Message.text(), "Usage: /message <recipient> <message>");
    assert_eq!(Usage::RoomList.text(), "Usage: /room list");
    assert!(Usage::AccountCategory.text().starts_with("Account commands:\n> /account info\n"));
    assert_eq!(Usage::RoomCategory.text().lines().count(), 6);
    assert_eq!(Usage::AccountCategory.text().lines().count(), 9);
}

#[test]
fn tokenizer_splits_and_strips_marker() {
    assert_eq!(split_tokens("  a  bc\td "), vec![s("a"), s("bc"), s("d")]);
    assert_eq!(split_tokens(""), Vec::<String>::new());
    assert_eq!(tokenize("/room  join x"), vec![s("room"), s("join"), s("x")]);
    assert_eq!(tokenize("/"), vec![s("")]);
    assert_eq!(tokenize("  "), Vec::<String>::new());
}

#[test]
fn token_level_matching() {
    let toks = vec![s("a"), s("e"), s("u"), s("dave")];
    assert_eq!(parse_tokens_exec(&toks), Command::AccountEditUsername { username: s("dave") });
    assert_eq!(parse_tokens_exec(&Vec::new()), Command::Unavailable);
}
