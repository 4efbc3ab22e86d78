//! The command values that a line of input decodes to, and their usage texts.

use vstd::prelude::*;

verus! {

/// The decoded intent of one line of command input.
#[derive(Debug, Clone, PartialEq, Eq)]
pub enum Command {
    Help,
    Ping,
    Quit,
    Leave,
    Status,
    DM { recipient: String, message: String },
    Account,
    AccountRegister { username: String, password: String, confirm: String },
    AccountLogin { username: String, password: String },
    AccountLogout,
    AccountEditUsername { username: String },
    AccountEditPassword { current_password: String, new_password: String },
    AccountImport { filename: String },
    AccountExport { filename: String },
    AccountDelete { force: bool },
    RoomList,
    RoomCreate { name: String, whitelist: bool },
    RoomJoin { name: String },
    RoomImport { filename: String },
    RoomDelete { name: String, force: bool },
    InvalidSyntax { err_msg: String },
    Unavailable,
}

/// A `Command` with its strings seen as character sequences.
pub ghost enum CommandModel {
    Help,
    Ping,
    Quit,
    Leave,
    Status,
    DM { recipient: Seq<char>, message: Seq<char> },
    Account,
    AccountRegister { username: Seq<char>, password: Seq<char>, confirm: Seq<char> },
    AccountLogin { username: Seq<char>, password: Seq<char> },
    AccountLogout,
    AccountEditUsername { username: Seq<char> },
    AccountEditPassword { current_password: Seq<char>, new_password: Seq<char> },
    AccountImport { filename: Seq<char> },
    AccountExport { filename: Seq<char> },
    AccountDelete { force: bool },
    RoomList,
    RoomCreate { name: Seq<char>, whitelist: bool },
    RoomJoin { name: Seq<char> },
    RoomImport { filename: Seq<char> },
    RoomDelete { name: Seq<char>, force: bool },
    InvalidSyntax { err_msg: Seq<char> },
    Unavailable,
}

impl View for Command {
    type V = CommandModel;

    open spec fn view(&self) -> CommandModel {
        match self {
            Command::Help => CommandModel::Help,
            Command::Ping => CommandModel::Ping,
            Command::Quit => CommandModel::Quit,
            Command::Leave => CommandModel::Leave,
            Command::Status => CommandModel::Status,
            Command::DM { recipient, message } => CommandModel::DM {
                recipient: recipient@,
                message: message@,
            },
            Command::Account => CommandModel::Account,
            Command::AccountRegister { username, password, confirm } =>
                CommandModel::AccountRegister {
                username: username@,
                password: password@,
                confirm: confirm@,
            },
            Command::AccountLogin { username, password } => CommandModel::AccountLogin {
                username: username@,
                password: password@,
            },
            Command::AccountLogout => CommandModel::AccountLogout,
            Command::AccountEditUsername { username } => CommandModel::AccountEditUsername {
                username: username@,
            },
            Command::AccountEditPassword { current_password, new_password } =>
                CommandModel::AccountEditPassword {
                current_password: current_password@,
                new_password: new_password@,
            },
            Command::AccountImport { filename } => CommandModel::AccountImport {
                filename: filename@,
            },
            Command::AccountExport { filename } => CommandModel::AccountExport {
                filename: filename@,
            },
            Command::AccountDelete { force } => CommandModel::AccountDelete { force: *force },
            Command::RoomList => CommandModel::RoomList,
            Command::RoomCreate { name, whitelist } => CommandModel::RoomCreate {
                name: name@,
                whitelist: *whitelist,
            },
            Command::RoomJoin { name } => CommandModel::RoomJoin { name: name@ },
            Command::RoomImport { filename } => CommandModel::RoomImport { filename: filename@ },
            Command::RoomDelete { name, force } => CommandModel::RoomDelete {
                name: name@,
                force: *force,
            },
            Command::InvalidSyntax { err_msg } => CommandModel::InvalidSyntax {
                err_msg: err_msg@,
            },
            Command::Unavailable => CommandModel::Unavailable,
        }
    }
}

/// The usage diagnostics, one for each command or family that can be
/// recognised with the wrong shape.
#[derive(Debug, Clone, Copy, PartialEq, Eq, Structural)]
pub enum Usage {
    Message,
    AccountRegister,
    AccountLogin,
    AccountLogout,
    AccountEdit,
    AccountImport,
    AccountExport,
    AccountDelete,
    AccountInfo,
    AccountCategory,
    RoomCreate,
    RoomJoin,
    RoomImport,
    RoomDelete,
    RoomList,
    RoomCategory,
}

pub const USAGE_MESSAGE: &'static str = "Usage: /message <recipient> <message>";

pub const USAGE_ACCOUNT_REGISTER: &'static str =
    "Usage: /account register <username> <password> <password confirm>";

pub const USAGE_ACCOUNT_LOGIN: &'static str = "Usage: /account login <username> <password>";

pub const USAGE_ACCOUNT_LOGOUT: &'static str = "Usage: /account logout";

pub const USAGE_ACCOUNT_EDIT: &'static str =
    "Usage: /account edit username <new username> or /account edit password <current password> <new password>";

pub const USAGE_ACCOUNT_IMPORT: &'static str = "Usage: /account import <filename>";

pub const USAGE_ACCOUNT_EXPORT: &'static str = "Usage: /account export or /account export <filename>";

pub const USAGE_ACCOUNT_DELETE: &'static str = "Usage: /account delete or /account delete force";

pub const USAGE_ACCOUNT_INFO: &'static str = "Usage: /account info";

pub const USAGE_ACCOUNT_COMMANDS: &'static str =
    "Account commands:\n> /account info\n> /account register <username> <password> <password confirm>\n> /account login <username> <password>\n> /account logout\n> /account edit username <new username> or /account edit password <current password> <new password>\n> /account import <filename>\n> /account export or /account export <filename>\n> /account delete or /account delete force";

pub const USAGE_ROOM_CREATE: &'static str =
    "Usage: /room create <room name> or /room create <room name> whitelist";

pub const USAGE_ROOM_JOIN: &'static str = "Usage: /room join <room name>";

pub const USAGE_ROOM_IMPORT: &'static str = "Usage: /room import <filename>";

pub const USAGE_ROOM_DELETE: &'static str =
    "Usage: /room delete <room name> or /room delete <room name> force";

pub const USAGE_ROOM_LIST: &'static str = "Usage: /room list";

pub const USAGE_ROOM_COMMANDS: &'static str =
    "Room commands:\n> /room list\n> /room create <room name> or /room create <room name> whitelist\n> /room join <room name>\n> /room import <filename>\n> /room delete <room name> or /room delete <room name> force";

/// The text of each usage diagnostic.
pub open spec fn usage_text(u: Usage) -> Seq<char> {
    match u {
        Usage::Message => USAGE_MESSAGE@,
        Usage::AccountRegister => USAGE_ACCOUNT_REGISTER@,
        Usage::AccountLogin => USAGE_ACCOUNT_LOGIN@,
        Usage::AccountLogout => USAGE_ACCOUNT_LOGOUT@,
        Usage::AccountEdit => USAGE_ACCOUNT_EDIT@,
        Usage::AccountImport => USAGE_ACCOUNT_IMPORT@,
        Usage::AccountExport => USAGE_ACCOUNT_EXPORT@,
        Usage::AccountDelete => USAGE_ACCOUNT_DELETE@,
        Usage::AccountInfo => USAGE_ACCOUNT_INFO@,
        Usage::AccountCategory => USAGE_ACCOUNT_COMMANDS@,
        Usage::RoomCreate => USAGE_ROOM_CREATE@,
        Usage::RoomJoin => USAGE_ROOM_JOIN@,
        Usage::RoomImport => USAGE_ROOM_IMPORT@,
        Usage::RoomDelete => USAGE_ROOM_DELETE@,
        Usage::RoomList => USAGE_ROOM_LIST@,
        Usage::RoomCategory => USAGE_ROOM_COMMANDS@,
    }
}

impl Usage {
    /// The text of this diagnostic, as an owned string.
    pub fn text(&self) -> (r: String)
        ensures
            r@ == usage_text(*self),
    {
        let s: &str = match self {
            Usage::Message => USAGE_MESSAGE,
            Usage::AccountRegister => USAGE_ACCOUNT_REGISTER,
            Usage::AccountLogin => USAGE_ACCOUNT_LOGIN,
            Usage::AccountLogout => USAGE_ACCOUNT_LOGOUT,
            Usage::AccountEdit => USAGE_ACCOUNT_EDIT,
            Usage::AccountImport => USAGE_ACCOUNT_IMPORT,
            Usage::AccountExport => USAGE_ACCOUNT_EXPORT,
            Usage::AccountDelete => USAGE_ACCOUNT_DELETE,
            Usage::AccountInfo => USAGE_ACCOUNT_INFO,
            Usage::AccountCategory => USAGE_ACCOUNT_COMMANDS,
            Usage::RoomCreate => USAGE_ROOM_CREATE,
            Usage::RoomJoin => USAGE_ROOM_JOIN,
            Usage::RoomImport => USAGE_ROOM_IMPORT,
            Usage::RoomDelete => USAGE_ROOM_DELETE,
            Usage::RoomList => USAGE_ROOM_LIST,
            Usage::RoomCategory => USAGE_ROOM_COMMANDS,
        };
        s.to_owned()
    }
}

/// The diagnostic command carrying usage `u`.
pub open spec fn invalid(u: Usage) -> CommandModel {
    CommandModel::InvalidSyntax { err_msg: usage_text(u) }
}

} // verus!
