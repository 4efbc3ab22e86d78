//! Matching a token sequence against the command table.

use vstd::prelude::*;
use crate::aliases::{
    account_action_of, account_action_of_token, edit_field_of, edit_field_of_token, family_of,
    family_of_token, force_flag, is_force_flag, is_whitelist_flag, room_action_of,
    room_action_of_token, whitelist_flag, AccountAction, EditField, Family, RoomAction,
};
use crate::command::{invalid, Command, CommandModel, Usage};
use crate::tokenize::{command_tokens, tokenize, views};

verus! {

/// What an account command decodes to; `t[0]` names the account family.
pub open spec fn parse_account(t: Seq<Seq<char>>) -> CommandModel {
    let n = t.len();
    if n < 2 {
        invalid(Usage::AccountCategory)
    } else {
        match account_action_of(t[1]) {
            None => invalid(Usage::AccountCategory),
            Some(AccountAction::Register) => if n == 5 {
                CommandModel::AccountRegister { username: t[2], password: t[3], confirm: t[4] }
            } else {
                invalid(Usage::AccountRegister)
            },
            Some(AccountAction::Login) => if n == 4 {
                CommandModel::AccountLogin { username: t[2], password: t[3] }
            } else {
                invalid(Usage::AccountLogin)
            },
            Some(AccountAction::Logout) => if n == 2 {
                CommandModel::AccountLogout
            } else {
                invalid(Usage::AccountLogout)
            },
            Some(AccountAction::Edit) => if n == 4 && edit_field_of(t[2]) == Some(
                EditField::Username,
            ) {
                CommandModel::AccountEditUsername { username: t[3] }
            } else if n == 5 && edit_field_of(t[2]) == Some(EditField::Password) {
                CommandModel::AccountEditPassword { current_password: t[3], new_password: t[4] }
            } else {
                invalid(Usage::AccountEdit)
            },
            Some(AccountAction::Import) => if n == 3 {
                CommandModel::AccountImport { filename: t[2] }
            } else {
                invalid(Usage::AccountImport)
            },
            Some(AccountAction::Export) => if n == 2 {
                CommandModel::AccountExport { filename: seq![] }
            } else if n == 3 {
                CommandModel::AccountExport { filename: t[2] }
            } else {
                invalid(Usage::AccountExport)
            },
            Some(AccountAction::Delete) => if n == 2 {
                CommandModel::AccountDelete { force: false }
            } else if n == 3 && is_force_flag(t[2]) {
                CommandModel::AccountDelete { force: true }
            } else {
                invalid(Usage::AccountDelete)
            },
            Some(AccountAction::Info) => if n == 2 {
                CommandModel::Account
            } else {
                invalid(Usage::AccountInfo)
            },
        }
    }
}

/// What a room command decodes to; `t[0]` names the room family.
pub open spec fn parse_room(t: Seq<Seq<char>>) -> CommandModel {
    let n = t.len();
    if n < 2 {
        invalid(Usage::RoomCategory)
    } else {
        match room_action_of(t[1]) {
            None => invalid(Usage::RoomCategory),
            Some(RoomAction::Create) => if n == 3 {
                CommandModel::RoomCreate { name: t[2], whitelist: false }
            } else if n == 4 && is_whitelist_flag(t[3]) {
                CommandModel::RoomCreate { name: t[2], whitelist: true }
            } else {
                invalid(Usage::RoomCreate)
            },
            Some(RoomAction::Join) => if n == 3 {
                CommandModel::RoomJoin { name: t[2] }
            } else {
                invalid(Usage::RoomJoin)
            },
            Some(RoomAction::Import) => if n == 3 {
                CommandModel::RoomImport { filename: t[2] }
            } else {
                invalid(Usage::RoomImport)
            },
            Some(RoomAction::Delete) => if n == 3 {
                CommandModel::RoomDelete { name: t[2], force: false }
            } else if n == 4 && is_force_flag(t[2]) {
                CommandModel::RoomDelete { name: t[3], force: true }
            } else {
                invalid(Usage::RoomDelete)
            },
            Some(RoomAction::List) => if n == 2 {
                CommandModel::RoomList
            } else {
                invalid(Usage::RoomList)
            },
        }
    }
}

/// A command that takes no argument: `c` when `t` is the family name alone.
pub open spec fn bare(t: Seq<Seq<char>>, c: CommandModel) -> CommandModel {
    if t.len() == 1 {
        c
    } else {
        CommandModel::Unavailable
    }
}

/// What a token sequence (marker already removed) decodes to.
pub open spec fn parse_tokens(t: Seq<Seq<char>>) -> CommandModel {
    if t.len() == 0 {
        CommandModel::Unavailable
    } else {
        match family_of(t[0]) {
            None => CommandModel::Unavailable,
            Some(Family::Help) => bare(t, CommandModel::Help),
            Some(Family::Ping) => bare(t, CommandModel::Ping),
            Some(Family::Quit) => bare(t, CommandModel::Quit),
            Some(Family::Leave) => bare(t, CommandModel::Leave),
            Some(Family::Status) => bare(t, CommandModel::Status),
            Some(Family::Message) => if t.len() == 3 {
                CommandModel::DM { recipient: t[1], message: t[2] }
            } else {
                invalid(Usage::Message)
            },
            Some(Family::Account) => parse_account(t),
            Some(Family::Room) => parse_room(t),
        }
    }
}

/// What a line of input decodes to.
pub open spec fn parse_line(s: Seq<char>) -> CommandModel {
    parse_tokens(command_tokens(s))
}

fn invalid_syntax(u: Usage) -> (r: Command)
    ensures
        r@ == invalid(u),
{
    Command::InvalidSyntax { err_msg: u.text() }
}

fn parse_account_tokens(t: &Vec<String>) -> (r: Command)
    requires
        t.len() >= 1,
    ensures
        r@ == parse_account(views(t@)),
{
    let n = t.len();
    if n < 2 {
        return invalid_syntax(Usage::AccountCategory);
    }
    match account_action_of_token(t[1].as_str()) {
        None => invalid_syntax(Usage::AccountCategory),
        Some(AccountAction::Register) => if n == 5 {
            Command::AccountRegister {
                username: t[2].clone(),
                password: t[3].clone(),
                confirm: t[4].clone(),
            }
        } else {
            invalid_syntax(Usage::AccountRegister)
        },
        Some(AccountAction::Login) => if n == 4 {
            Command::AccountLogin { username: t[2].clone(), password: t[3].clone() }
        } else {
            invalid_syntax(Usage::AccountLogin)
        },
        Some(AccountAction::Logout) => if n == 2 {
            Command::AccountLogout
        } else {
            invalid_syntax(Usage::AccountLogout)
        },
        Some(AccountAction::Edit) => {
            let field = if n >= 3 {
                edit_field_of_token(t[2].as_str())
            } else {
                None
            };
            if n == 4 && field == Some(EditField::Username) {
                Command::AccountEditUsername { username: t[3].clone() }
            } else if n == 5 && field == Some(EditField::Password) {
                Command::AccountEditPassword {
                    current_password: t[3].clone(),
                    new_password: t[4].clone(),
                }
            } else {
                invalid_syntax(Usage::AccountEdit)
            }
        },
        Some(AccountAction::Import) => if n == 3 {
            Command::AccountImport { filename: t[2].clone() }
        } else {
            invalid_syntax(Usage::AccountImport)
        },
        Some(AccountAction::Export) => if n == 2 {
            let filename = String::new();
            Command::AccountExport { filename }
        } else if n == 3 {
            Command::AccountExport { filename: t[2].clone() }
        } else {
            invalid_syntax(Usage::AccountExport)
        },
        Some(AccountAction::Delete) => if n == 2 {
            Command::AccountDelete { force: false }
        } else if n == 3 && force_flag(t[2].as_str()) {
            Command::AccountDelete { force: true }
        } else {
            invalid_syntax(Usage::AccountDelete)
        },
        Some(AccountAction::Info) => if n == 2 {
            Command::Account
        } else {
            invalid_syntax(Usage::AccountInfo)
        },
    }
}

fn parse_room_tokens(t: &Vec<String>) -> (r: Command)
    requires
        t.len() >= 1,
    ensures
        r@ == parse_room(views(t@)),
{
    let n = t.len();
    if n < 2 {
        return invalid_syntax(Usage::RoomCategory);
    }
    match room_action_of_token(t[1].as_str()) {
        None => invalid_syntax(Usage::RoomCategory),
        Some(RoomAction::Create) => if n == 3 {
            Command::RoomCreate { name: t[2].clone(), whitelist: false }
        } else if n == 4 && whitelist_flag(t[3].as_str()) {
            Command::RoomCreate { name: t[2].clone(), whitelist: true }
        } else {
            invalid_syntax(Usage::RoomCreate)
        },
        Some(RoomAction::Join) => if n == 3 {
            Command::RoomJoin { name: t[2].clone() }
        } else {
            invalid_syntax(Usage::RoomJoin)
        },
        Some(RoomAction::Import) => if n == 3 {
            Command::RoomImport { filename: t[2].clone() }
        } else {
            invalid_syntax(Usage::RoomImport)
        },
        Some(RoomAction::Delete) => if n == 3 {
            Command::RoomDelete { name: t[2].clone(), force: false }
        } else if n == 4 && force_flag(t[2].as_str()) {
            Command::RoomDelete { name: t[3].clone(), force: true }
        } else {
            invalid_syntax(Usage::RoomDelete)
        },
        Some(RoomAction::List) => if n == 2 {
            Command::RoomList
        } else {
            invalid_syntax(Usage::RoomList)
        },
    }
}

fn bare_command(n: usize, c: Command) -> (r: Command)
    ensures
        n == 1 ==> r == c,
        n != 1 ==> r is Unavailable,
{
    if n == 1 {
        c
    } else {
        Command::Unavailable
    }
}

/// Decodes a token sequence whose first token has had its marker removed.
pub fn parse_tokens_exec(t: &Vec<String>) -> (r: Command)
    ensures
        r@ == parse_tokens(views(t@)),
{
    let n = t.len();
    if n == 0 {
        return Command::Unavailable;
    }
    match family_of_token(t[0].as_str()) {
        None => Command::Unavailable,
        Some(Family::Help) => bare_command(n, Command::Help),
        Some(Family::Ping) => bare_command(n, Command::Ping),
        Some(Family::Quit) => bare_command(n, Command::Quit),
        Some(Family::Leave) => bare_command(n, Command::Leave),
        Some(Family::Status) => bare_command(n, Command::Status),
        Some(Family::Message) => if n == 3 {
            Command::DM { recipient: t[1].clone(), message: t[2].clone() }
        } else {
            invalid_syntax(Usage::Message)
        },
        Some(Family::Account) => parse_account_tokens(t),
        Some(Family::Room) => parse_room_tokens(t),
    }
}

/// Decodes one line of input that begins with the command marker.
///
/// The line is split at whitespace and the marker is removed from the first
/// token. An empty line decodes to `Unavailable`.
pub fn parse_command(input: &str) -> (r: Command)
    ensures
        r@ == parse_line(input@),
{
    let toks = tokenize(input);
    parse_tokens_exec(&toks)
}

} // verus!
