//! The alias tables: which literal tokens name which family, action, field
//! or flag. Matching is exact and case-sensitive.

use vstd::prelude::*;

verus! {

/// A top-level command family.
#[derive(Debug, Clone, Copy, PartialEq, Eq, Structural)]
pub enum Family {
    Help,
    Ping,
    Quit,
    Leave,
    Status,
    Message,
    Account,
    Room,
}

/// A sub-action of the account family.
#[derive(Debug, Clone, Copy, PartialEq, Eq, Structural)]
pub enum AccountAction {
    Register,
    Login,
    Logout,
    Edit,
    Import,
    Export,
    Delete,
    Info,
}

/// A sub-action of the room family.
#[derive(Debug, Clone, Copy, PartialEq, Eq, Structural)]
pub enum RoomAction {
    Create,
    Join,
    Import,
    Delete,
    List,
}

/// The account field that `/account edit` changes.
#[derive(Debug, Clone, Copy, PartialEq, Eq, Structural)]
pub enum EditField {
    Username,
    Password,
}

/// The family that a first token names, if any.
pub open spec fn family_of(t: Seq<char>) -> Option<Family> {
    if t == "help"@ || t == "h"@ {
        Some(Family::Help)
    } else if t == "ping"@ {
        Some(Family::Ping)
    } else if t == "quit"@ || t == "exit"@ || t == "q"@ || t == "e"@ {
        Some(Family::Quit)
    } else if t == "leave"@ {
        Some(Family::Leave)
    } else if t == "status"@ {
        Some(Family::Status)
    } else if t == "message"@ || t == "msg"@ || t == "dm"@ {
        Some(Family::Message)
    } else if t == "account"@ || t == "a"@ {
        Some(Family::Account)
    } else if t == "room"@ || t == "r"@ {
        Some(Family::Room)
    } else {
        None
    }
}

/// The account action that a token names, if any.
pub open spec fn account_action_of(t: Seq<char>) -> Option<AccountAction> {
    if t == "register"@ || t == "r"@ {
        Some(AccountAction::Register)
    } else if t == "login"@ || t == "l"@ {
        Some(AccountAction::Login)
    } else if t == "logout"@ {
        Some(AccountAction::Logout)
    } else if t == "edit"@ || t == "e"@ {
        Some(AccountAction::Edit)
    } else if t == "import"@ {
        Some(AccountAction::Import)
    } else if t == "export"@ {
        Some(AccountAction::Export)
    } else if t == "delete"@ || t == "d"@ {
        Some(AccountAction::Delete)
    } else if t == "info"@ || t == "i"@ {
        Some(AccountAction::Info)
    } else {
        None
    }
}

/// The room action that a token names, if any.
pub open spec fn room_action_of(t: Seq<char>) -> Option<RoomAction> {
    if t == "create"@ || t == "c"@ {
        Some(RoomAction::Create)
    } else if t == "join"@ || t == "j"@ {
        Some(RoomAction::Join)
    } else if t == "import"@ {
        Some(RoomAction::Import)
    } else if t == "delete"@ || t == "d"@ {
        Some(RoomAction::Delete)
    } else if t == "list"@ || t == "l"@ {
        Some(RoomAction::List)
    } else {
        None
    }
}

/// The account field that a token names, if any.
pub open spec fn edit_field_of(t: Seq<char>) -> Option<EditField> {
    if t == "username"@ || t == "u"@ {
        Some(EditField::Username)
    } else if t == "password"@ || t == "p"@ {
        Some(EditField::Password)
    } else {
        None
    }
}

/// Whether a token is the flag that skips confirmation of a deletion.
pub open spec fn is_force_flag(t: Seq<char>) -> bool {
    t == "force"@ || t == "f"@
}

/// Whether a token is the flag that makes a new room access-restricted.
pub open spec fn is_whitelist_flag(t: Seq<char>) -> bool {
    t == "whitelist"@ || t == "w"@ || t == "private"@ || t == "p"@
}

/// Whether two strings hold the same characters.
pub fn same_text(a: &str, b: &str) -> (r: bool)
    ensures
        r == (a@ == b@),
{
    let n = a.unicode_len();
    if n != b.unicode_len() {
        return false;
    }
    let mut i: usize = 0;
    while i < n
        invariant
            n == a@.len(),
            n == b@.len(),
            i <= n,
            forall|j: int| 0 <= j < i ==> a@[j] == b@[j],
        decreases n - i,
    {
        if a.get_char(i) != b.get_char(i) {
            return false;
        }
        i += 1;
    }
    assert(a@ =~= b@);
    true
}

/// Exec form of `family_of`.
pub fn family_of_token(t: &str) -> (r: Option<Family>)
    ensures
        r == family_of(t@),
{
    if same_text(t, "help") || same_text(t, "h") {
        Some(Family::Help)
    } else if same_text(t, "ping") {
        Some(Family::Ping)
    } else if same_text(t, "quit") || same_text(t, "exit") || same_text(t, "q") || same_text(
        t,
        "e",
    ) {
        Some(Family::Quit)
    } else if same_text(t, "leave") {
        Some(Family::Leave)
    } else if same_text(t, "status") {
        Some(Family::Status)
    } else if same_text(t, "message") || same_text(t, "msg") || same_text(t, "dm") {
        Some(Family::Message)
    } else if same_text(t, "account") || same_text(t, "a") {
        Some(Family::Account)
    } else if same_text(t, "room") || same_text(t, "r") {
        Some(Family::Room)
    } else {
        None
    }
}

/// Exec form of `account_action_of`.
pub fn account_action_of_token(t: &str) -> (r: Option<AccountAction>)
    ensures
        r == account_action_of(t@),
{
    if same_text(t, "register") || same_text(t, "r") {
        Some(AccountAction::Register)
    } else if same_text(t, "login") || same_text(t, "l") {
        Some(AccountAction::Login)
    } else if same_text(t, "logout") {
        Some(AccountAction::Logout)
    } else if same_text(t, "edit") || same_text(t, "e") {
        Some(AccountAction::Edit)
    } else if same_text(t, "import") {
        Some(AccountAction::Import)
    } else if same_text(t, "export") {
        Some(AccountAction::Export)
    } else if same_text(t, "delete") || same_text(t, "d") {
        Some(AccountAction::Delete)
    } else if same_text(t, "info") || same_text(t, "i") {
        Some(AccountAction::Info)
    } else {
        None
    }
}

/// Exec form of `room_action_of`.
pub fn room_action_of_token(t: &str) -> (r: Option<RoomAction>)
    ensures
        r == room_action_of(t@),
{
    if same_text(t, "create") || same_text(t, "c") {
        Some(RoomAction::Create)
    } else if same_text(t, "join") || same_text(t, "j") {
        Some(RoomAction::Join)
    } else if same_text(t, "import") {
        Some(RoomAction::Import)
    } else if same_text(t, "delete") || same_text(t, "d") {
        Some(RoomAction::Delete)
    } else if same_text(t, "list") || same_text(t, "l") {
        Some(RoomAction::List)
    } else {
        None
    }
}

/// Exec form of `edit_field_of`.
pub fn edit_field_of_token(t: &str) -> (r: Option<EditField>)
    ensures
        r == edit_field_of(t@),
{
    if same_text(t, "username") || same_text(t, "u") {
        Some(EditField::Username)
    } else if same_text(t, "password") || same_text(t, "p") {
        Some(EditField::Password)
    } else {
        None
    }
}

/// Exec form of `is_force_flag`.
pub fn force_flag(t: &str) -> (r: bool)
    ensures
        r == is_force_flag(t@),
{
    same_text(t, "force") || same_text(t, "f")
}

/// Exec form of `is_whitelist_flag`.
pub fn whitelist_flag(t: &str) -> (r: bool)
    ensures
        r == is_whitelist_flag(t@),
{
    same_text(t, "whitelist") || same_text(t, "w") || same_text(t, "private") || same_text(t, "p")
}

} // verus!
