//! Properties of the command grammar, stated over the spec functions that
//! `parse_command` is proved against.

use vstd::prelude::*;
use crate::aliases::{
    account_action_of, edit_field_of, family_of, is_force_flag, is_whitelist_flag, room_action_of,
    AccountAction, EditField, Family, RoomAction,
};
use crate::command::{invalid, usage_text, CommandModel, Usage};
use crate::parser::{parse_line, parse_tokens};
use crate::tokenize::{command_tokens, is_space, words, words_from};

verus! {

/// A token as a user can type it: not empty, no whitespace in it.
pub open spec fn plain(w: Seq<char>) -> bool {
    w.len() > 0 && forall|i: int| 0 <= i < w.len() ==> !is_space(#[trigger] w[i])
}

/// The tokens written out with one space between each two.
pub open spec fn join_words(toks: Seq<Seq<char>>) -> Seq<char>
    decreases toks.len(),
{
    if toks.len() == 0 {
        seq![]
    } else if toks.len() == 1 {
        toks[0]
    } else {
        toks[0] + seq![' '] + join_words(toks.drop_first())
    }
}

/// The command line made of the marker `m` and the tokens.
pub open spec fn line_of(m: char, toks: Seq<Seq<char>>) -> Seq<char> {
    seq![m] + join_words(toks)
}

proof fn lemma_words_from_run(w: Seq<char>, rest: Seq<char>, cur: Seq<char>)
    requires
        forall|i: int| 0 <= i < w.len() ==> !is_space(#[trigger] w[i]),
    ensures
        words_from(w + rest, cur) == words_from(rest, cur + w),
    decreases w.len(),
{
    if w.len() == 0 {
        assert(w + rest =~= rest);
        assert(cur + w =~= cur);
    } else {
        let s = w + rest;
        assert(s[0] == w[0]);
        assert(s.drop_first() =~= w.drop_first() + rest);
        lemma_words_from_run(w.drop_first(), rest, cur.push(w[0]));
        assert(cur.push(w[0]) + w.drop_first() =~= cur + w);
    }
}

proof fn lemma_words_of_join(toks: Seq<Seq<char>>, cur: Seq<char>)
    requires
        toks.len() >= 1,
        forall|k: int| 0 <= k < toks.len() ==> plain(#[trigger] toks[k]),
    ensures
        words_from(join_words(toks), cur) == seq![cur + toks[0]] + toks.drop_first(),
    decreases toks.len(),
{
    assert(plain(toks[0]));
    if toks.len() == 1 {
        assert(toks[0] + seq![] =~= toks[0]);
        lemma_words_from_run(toks[0], seq![], cur);
        assert(toks.drop_first() =~= seq![]);
        assert(seq![cur + toks[0]] + seq![] =~= seq![cur + toks[0]]);
    } else {
        let tail = toks.drop_first();
        let rest = seq![' '] + join_words(tail);
        assert(join_words(toks) =~= toks[0] + rest);
        lemma_words_from_run(toks[0], rest, cur);
        assert(rest[0] == ' ');
        assert(rest.drop_first() =~= join_words(tail));
        assert forall|k: int| 0 <= k < tail.len() implies plain(#[trigger] tail[k]) by {
            assert(tail[k] == toks[k + 1]);
        }
        lemma_words_of_join(tail, seq![]);
        assert(seq![] + tail[0] =~= tail[0]);
        assert(seq![tail[0]] + tail.drop_first() =~= tail);
        assert(seq![cur + toks[0]] + tail =~= seq![cur + toks[0]] + words_from(
            join_words(tail),
            seq![],
        ));
    }
}

/// Writing tokens out after a marker and splitting the line again gives the
/// same tokens back, whatever non-whitespace character the marker is.
pub proof fn lemma_line_round_trip(m: char, toks: Seq<Seq<char>>)
    requires
        !is_space(m),
        toks.len() >= 1,
        forall|k: int| 0 <= k < toks.len() ==> plain(#[trigger] toks[k]),
    ensures
        command_tokens(line_of(m, toks)) == toks,
        parse_line(line_of(m, toks)) == parse_tokens(toks),
{
    lemma_words_from_run(seq![m], join_words(toks), seq![]);
    assert(seq![] + seq![m] =~= seq![m]);
    lemma_words_of_join(toks, seq![m]);
    let w = words(line_of(m, toks));
    assert((seq![m] + toks[0]).drop_first() =~= toks[0]);
    assert(w.update(0, w[0].drop_first()) =~= toks);
}


/// Alias equivalence of families: two first tokens that name the same family
/// (or both none) decode alike, whatever follows them.
pub proof fn lemma_family_aliases_agree(a1: Seq<char>, a2: Seq<char>, rest: Seq<Seq<char>>)
    requires
        family_of(a1) == family_of(a2),
    ensures
        parse_tokens(seq![a1] + rest) == parse_tokens(seq![a2] + rest),
{
    let t1 = seq![a1] + rest;
    let t2 = seq![a2] + rest;
    assert(t1[0] == a1 && t2[0] == a2);
    assert forall|k: int| 1 <= k < t1.len() implies t1[k] == t2[k] by {
        assert(t1[k] == rest[k - 1] && t2[k] == rest[k - 1]);
    }
}

/// Alias equivalence of account actions: two tokens that name the same
/// account action (or both none) decode alike after an account family name.
pub proof fn lemma_account_action_aliases_agree(
    f: Seq<char>,
    a1: Seq<char>,
    a2: Seq<char>,
    rest: Seq<Seq<char>>,
)
    requires
        family_of(f) == Some(Family::Account),
        account_action_of(a1) == account_action_of(a2),
    ensures
        parse_tokens(seq![f, a1] + rest) == parse_tokens(seq![f, a2] + rest),
{
    let t1 = seq![f, a1] + rest;
    let t2 = seq![f, a2] + rest;
    assert(t1[0] == f && t2[0] == f && t1[1] == a1 && t2[1] == a2);
    assert forall|k: int| 2 <= k < t1.len() implies t1[k] == t2[k] by {
        assert(t1[k] == rest[k - 2] && t2[k] == rest[k - 2]);
    }
}

/// Alias equivalence of room actions: two tokens that name the same room
/// action (or both none) decode alike after a room family name.
pub proof fn lemma_room_action_aliases_agree(
    f: Seq<char>,
    a1: Seq<char>,
    a2: Seq<char>,
    rest: Seq<Seq<char>>,
)
    requires
        family_of(f) == Some(Family::Room),
        room_action_of(a1) == room_action_of(a2),
    ensures
        parse_tokens(seq![f, a1] + rest) == parse_tokens(seq![f, a2] + rest),
{
    let t1 = seq![f, a1] + rest;
    let t2 = seq![f, a2] + rest;
    assert(t1[0] == f && t2[0] == f && t1[1] == a1 && t2[1] == a2);
    assert forall|k: int| 2 <= k < t1.len() implies t1[k] == t2[k] by {
        assert(t1[k] == rest[k - 2] && t2[k] == rest[k - 2]);
    }
}

/// Alias equivalence of the fields of `/account edit`: two tokens that name
/// the same field (or both none) decode alike.
pub proof fn lemma_edit_field_aliases_agree(
    f: Seq<char>,
    e: Seq<char>,
    u1: Seq<char>,
    u2: Seq<char>,
    rest: Seq<Seq<char>>,
)
    requires
        family_of(f) == Some(Family::Account),
        account_action_of(e) == Some(AccountAction::Edit),
        edit_field_of(u1) == edit_field_of(u2),
    ensures
        parse_tokens(seq![f, e, u1] + rest) == parse_tokens(seq![f, e, u2] + rest),
{
    let t1 = seq![f, e, u1] + rest;
    let t2 = seq![f, e, u2] + rest;
    assert(t1[0] == f && t2[0] == f && t1[1] == e && t2[1] == e && t1[2] == u1 && t2[2] == u2);
    assert forall|k: int| 3 <= k < t1.len() implies t1[k] == t2[k] by {
        assert(t1[k] == rest[k - 3] && t2[k] == rest[k - 3]);
    }
}

/// Flags of `/account delete`: with no third token the deletion is not
/// forced; a third token forces it exactly when it is a force flag, and any
/// other third token is a usage error.
pub proof fn lemma_account_delete_flag(f: Seq<char>, d: Seq<char>, x: Seq<char>)
    requires
        family_of(f) == Some(Family::Account),
        account_action_of(d) == Some(AccountAction::Delete),
    ensures
        parse_tokens(seq![f, d]) == (CommandModel::AccountDelete { force: false }),
        parse_tokens(seq![f, d, x]) == if is_force_flag(x) {
            CommandModel::AccountDelete { force: true }
        } else {
            invalid(Usage::AccountDelete)
        },
{
}

/// Flags of `/room create`: with no fourth token the room is open; a fourth
/// token restricts it exactly when it is a whitelist flag, and any other
/// fourth token is a usage error.
pub proof fn lemma_room_create_flag(f: Seq<char>, c: Seq<char>, name: Seq<char>, x: Seq<char>)
    requires
        family_of(f) == Some(Family::Room),
        room_action_of(c) == Some(RoomAction::Create),
    ensures
        parse_tokens(seq![f, c, name]) == (CommandModel::RoomCreate { name, whitelist: false }),
        parse_tokens(seq![f, c, name, x]) == if is_whitelist_flag(x) {
            CommandModel::RoomCreate { name, whitelist: true }
        } else {
            invalid(Usage::RoomCreate)
        },
{
}

/// Flags of `/room delete`: with the name alone the deletion is not forced;
/// with a token before the name it is forced exactly when that token is a
/// force flag, and any other token there is a usage error.
pub proof fn lemma_room_delete_flag(f: Seq<char>, d: Seq<char>, x: Seq<char>, name: Seq<char>)
    requires
        family_of(f) == Some(Family::Room),
        room_action_of(d) == Some(RoomAction::Delete),
    ensures
        parse_tokens(seq![f, d, name]) == (CommandModel::RoomDelete { name, force: false }),
        parse_tokens(seq![f, d, x, name]) == if is_force_flag(x) {
            CommandModel::RoomDelete { name, force: true }
        } else {
            invalid(Usage::RoomDelete)
        },
{
}

/// Diagnostics are fixed texts: whenever a line decodes to `InvalidSyntax`,
/// its message is one of the usage texts, never built from the input.
pub proof fn lemma_diagnostics_are_fixed(s: Seq<char>)
    ensures
        parse_line(s) is InvalidSyntax ==> exists|u: Usage|
            parse_line(s)->InvalidSyntax_err_msg == #[trigger] usage_text(u),
{
}


/// Every alias token of the command table can be typed as a token.
proof fn lemma_aliases_plain(t: Seq<char>)
    requires
        family_of(t) is Some || account_action_of(t) is Some || room_action_of(t) is Some
            || edit_field_of(t) is Some || is_force_flag(t) || is_whitelist_flag(t),
    ensures
        plain(t),
{
    reveal_strlit("help");
    reveal_strlit("h");
    reveal_strlit("ping");
    reveal_strlit("quit");
    reveal_strlit("exit");
    reveal_strlit("q");
    reveal_strlit("e");
    reveal_strlit("leave");
    reveal_strlit("status");
    reveal_strlit("message");
    reveal_strlit("msg");
    reveal_strlit("dm");
    reveal_strlit("account");
    reveal_strlit("a");
    reveal_strlit("room");
    reveal_strlit("r");
    reveal_strlit("register");
    reveal_strlit("login");
    reveal_strlit("l");
    reveal_strlit("logout");
    reveal_strlit("edit");
    reveal_strlit("import");
    reveal_strlit("export");
    reveal_strlit("delete");
    reveal_strlit("d");
    reveal_strlit("info");
    reveal_strlit("i");
    reveal_strlit("create");
    reveal_strlit("c");
    reveal_strlit("join");
    reveal_strlit("j");
    reveal_strlit("list");
    reveal_strlit("username");
    reveal_strlit("u");
    reveal_strlit("password");
    reveal_strlit("p");
    reveal_strlit("force");
    reveal_strlit("f");
    reveal_strlit("whitelist");
    reveal_strlit("w");
    reveal_strlit("private");
}

proof fn lemma_parse_line_1(m: char, a: Seq<char>)
    requires
        !is_space(m),
        plain(a),
    ensures
        parse_line(line_of(m, seq![a])) == parse_tokens(seq![a]),
{
    let t = seq![a];
    assert forall|k: int| 0 <= k < t.len() implies plain(#[trigger] t[k]) by {}
    lemma_line_round_trip(m, t);
}

proof fn lemma_parse_line_2(m: char, a: Seq<char>, b: Seq<char>)
    requires
        !is_space(m),
        plain(a),
        plain(b),
    ensures
        parse_line(line_of(m, seq![a, b])) == parse_tokens(seq![a, b]),
{
    let t = seq![a, b];
    assert forall|k: int| 0 <= k < t.len() implies plain(#[trigger] t[k]) by {
        if k == 0 {
        } else {
        }
    }
    lemma_line_round_trip(m, t);
}

proof fn lemma_parse_line_3(m: char, a: Seq<char>, b: Seq<char>, c: Seq<char>)
    requires
        !is_space(m),
        plain(a),
        plain(b),
        plain(c),
    ensures
        parse_line(line_of(m, seq![a, b, c])) == parse_tokens(seq![a, b, c]),
{
    let t = seq![a, b, c];
    assert forall|k: int| 0 <= k < t.len() implies plain(#[trigger] t[k]) by {
        if k == 0 {
        } else if k == 1 {
        } else {
        }
    }
    lemma_line_round_trip(m, t);
}

proof fn lemma_parse_line_4(m: char, a: Seq<char>, b: Seq<char>, c: Seq<char>, d: Seq<char>)
    requires
        !is_space(m),
        plain(a),
        plain(b),
        plain(c),
        plain(d),
    ensures
        parse_line(line_of(m, seq![a, b, c, d])) == parse_tokens(seq![a, b, c, d]),
{
    let t = seq![a, b, c, d];
    assert forall|k: int| 0 <= k < t.len() implies plain(#[trigger] t[k]) by {
        if k == 0 {
        } else if k == 1 {
        } else if k == 2 {
        } else {
        }
    }
    lemma_line_round_trip(m, t);
}

proof fn lemma_parse_line_5(
    m: char,
    a: Seq<char>,
    b: Seq<char>,
    c: Seq<char>,
    d: Seq<char>,
    e: Seq<char>,
)
    requires
        !is_space(m),
        plain(a),
        plain(b),
        plain(c),
        plain(d),
        plain(e),
    ensures
        parse_line(line_of(m, seq![a, b, c, d, e])) == parse_tokens(seq![a, b, c, d, e]),
{
    let t = seq![a, b, c, d, e];
    assert forall|k: int| 0 <= k < t.len() implies plain(#[trigger] t[k]) by {
        if k == 0 {
        } else if k == 1 {
        } else if k == 2 {
        } else if k == 3 {
        } else {
        }
    }
    lemma_line_round_trip(m, t);
}


/// Round trip of the commands without arguments and of direct messages: a
/// line written from any alias of the family (and, for a message, plain
/// recipient and text) decodes to that command with exactly those fields.
pub proof fn lemma_simple_round_trip(m: char, f: Seq<char>, x: Seq<char>, y: Seq<char>)
    requires
        !is_space(m),
        family_of(f) is Some,
        plain(x),
        plain(y),
    ensures
        family_of(f) == Some(Family::Help) ==> parse_line(line_of(m, seq![f]))
            == CommandModel::Help,
        family_of(f) == Some(Family::Ping) ==> parse_line(line_of(m, seq![f]))
            == CommandModel::Ping,
        family_of(f) == Some(Family::Quit) ==> parse_line(line_of(m, seq![f]))
            == CommandModel::Quit,
        family_of(f) == Some(Family::Leave) ==> parse_line(line_of(m, seq![f]))
            == CommandModel::Leave,
        family_of(f) == Some(Family::Status) ==> parse_line(line_of(m, seq![f]))
            == CommandModel::Status,
        family_of(f) == Some(Family::Message) ==> parse_line(line_of(m, seq![f, x, y]))
            == (CommandModel::DM { recipient: x, message: y }),
{
    lemma_aliases_plain(f);
    lemma_parse_line_1(m, f);
    lemma_parse_line_3(m, f, x, y);
}

/// Round trip of the account commands: a line written from any account
/// alias, any alias of an action (and of a field or flag) and plain field
/// values decodes to that command with exactly those field values.
pub proof fn lemma_account_round_trip(
    m: char,
    f: Seq<char>,
    a: Seq<char>,
    k: Seq<char>,
    x: Seq<char>,
    y: Seq<char>,
    z: Seq<char>,
)
    requires
        !is_space(m),
        family_of(f) == Some(Family::Account),
        account_action_of(a) is Some,
        plain(x),
        plain(y),
        plain(z),
    ensures
        account_action_of(a) == Some(AccountAction::Register) ==> parse_line(
            line_of(m, seq![f, a, x, y, z]),
        ) == (CommandModel::AccountRegister { username: x, password: y, confirm: z }),
        account_action_of(a) == Some(AccountAction::Login) ==> parse_line(
            line_of(m, seq![f, a, x, y]),
        ) == (CommandModel::AccountLogin { username: x, password: y }),
        account_action_of(a) == Some(AccountAction::Logout) ==> parse_line(line_of(m, seq![f, a]))
            == CommandModel::AccountLogout,
        account_action_of(a) == Some(AccountAction::Edit) && edit_field_of(k) == Some(
            EditField::Username,
        ) ==> parse_line(line_of(m, seq![f, a, k, x])) == (CommandModel::AccountEditUsername {
            username: x,
        }),
        account_action_of(a) == Some(AccountAction::Edit) && edit_field_of(k) == Some(
            EditField::Password,
        ) ==> parse_line(line_of(m, seq![f, a, k, x, y])) == (CommandModel::AccountEditPassword {
            current_password: x,
            new_password: y,
        }),
        account_action_of(a) == Some(AccountAction::Import) ==> parse_line(
            line_of(m, seq![f, a, x]),
        ) == (CommandModel::AccountImport { filename: x }),
        account_action_of(a) == Some(AccountAction::Export) ==> parse_line(line_of(m, seq![f, a]))
            == (CommandModel::AccountExport { filename: seq![] }),
        account_action_of(a) == Some(AccountAction::Export) ==> parse_line(
            line_of(m, seq![f, a, x]),
        ) == (CommandModel::AccountExport { filename: x }),
        account_action_of(a) == Some(AccountAction::Delete) ==> parse_line(line_of(m, seq![f, a]))
            == (CommandModel::AccountDelete { force: false }),
        account_action_of(a) == Some(AccountAction::Delete) && is_force_flag(k) ==> parse_line(
            line_of(m, seq![f, a, k]),
        ) == (CommandModel::AccountDelete { force: true }),
        account_action_of(a) == Some(AccountAction::Info) ==> parse_line(line_of(m, seq![f, a]))
            == CommandModel::Account,
{
    lemma_aliases_plain(f);
    lemma_aliases_plain(a);
    lemma_parse_line_2(m, f, a);
    lemma_parse_line_3(m, f, a, x);
    lemma_parse_line_4(m, f, a, x, y);
    lemma_parse_line_5(m, f, a, x, y, z);
    if edit_field_of(k) is Some || is_force_flag(k) {
        lemma_aliases_plain(k);
        lemma_parse_line_3(m, f, a, k);
        lemma_parse_line_4(m, f, a, k, x);
        lemma_parse_line_5(m, f, a, k, x, y);
    }
}

/// Round trip of the room commands: a line written from any room alias, any
/// alias of an action (and of a flag) and a plain room name or file name
/// decodes to that command with exactly that field.
pub proof fn lemma_room_round_trip(m: char, f: Seq<char>, a: Seq<char>, k: Seq<char>, x: Seq<char>)
    requires
        !is_space(m),
        family_of(f) == Some(Family::Room),
        room_action_of(a) is Some,
        plain(x),
    ensures
        room_action_of(a) == Some(RoomAction::Create) ==> parse_line(line_of(m, seq![f, a, x]))
            == (CommandModel::RoomCreate { name: x, whitelist: false }),
        room_action_of(a) == Some(RoomAction::Create) && is_whitelist_flag(k) ==> parse_line(
            line_of(m, seq![f, a, x, k]),
        ) == (CommandModel::RoomCreate { name: x, whitelist: true }),
        room_action_of(a) == Some(RoomAction::Join) ==> parse_line(line_of(m, seq![f, a, x]))
            == (CommandModel::RoomJoin { name: x }),
        room_action_of(a) == Some(RoomAction::Import) ==> parse_line(line_of(m, seq![f, a, x]))
            == (CommandModel::RoomImport { filename: x }),
        room_action_of(a) == Some(RoomAction::Delete) ==> parse_line(line_of(m, seq![f, a, x]))
            == (CommandModel::RoomDelete { name: x, force: false }),
        room_action_of(a) == Some(RoomAction::Delete) && is_force_flag(k) ==> parse_line(
            line_of(m, seq![f, a, k, x]),
        ) == (CommandModel::RoomDelete { name: x, force: true }),
        room_action_of(a) == Some(RoomAction::List) ==> parse_line(line_of(m, seq![f, a]))
            == CommandModel::RoomList,
{
    lemma_aliases_plain(f);
    lemma_aliases_plain(a);
    lemma_parse_line_2(m, f, a);
    lemma_parse_line_3(m, f, a, x);
    if is_whitelist_flag(k) || is_force_flag(k) {
        lemma_aliases_plain(k);
        lemma_parse_line_4(m, f, a, x, k);
        lemma_parse_line_4(m, f, a, k, x);
    }
}

} // verus!
