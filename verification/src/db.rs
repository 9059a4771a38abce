//! What the account directory answers, and the rules by which its records
//! are read.

use vstd::prelude::*;
use vstd::string::StringExecFns;
use crate::text::{decimal, hex, hex_text, render_decimal};

verus! {

/// What a user may do in a game.
#[derive(Copy, Clone, Debug, PartialEq, Eq, Structural)]
pub enum GamePermission {
    /// The user runs the game.
    Host,
    /// The user plays in the game.
    Player,
    /// The user has no part in the game.
    Outsider,
}

/// A game, as lists of games show it.
#[derive(Debug, PartialEq, Eq)]
pub struct Game {
    pub token: String,
    pub name: String,
}

/// An uploaded object, as lists of objects show it.
#[derive(Debug, PartialEq, Eq)]
pub struct Object {
    pub id: i32,
    pub name: String,
}

/// What the user `user` may do in a game that `host` runs and in which
/// `user` is entered `count` times.
pub fn game_permission(user: i32, host: i32, count: i64) -> (permission: GamePermission)
    ensures
        permission == if user == host {
            GamePermission::Host
        } else if count > 0 {
            GamePermission::Player
        } else {
            GamePermission::Outsider
        },
{
    if user == host {
        GamePermission::Host
    } else if count > 0 {
        GamePermission::Player
    } else {
        GamePermission::Outsider
    }
}

/// The name under which a user is known: the nickname and the tag with a
/// hash sign between them.
pub fn username(nickname: &str, tag: &str) -> (name: String)
    ensures
        name@ == nickname@ + seq!['#'] + tag@,
{
    proof {
        reveal_strlit("#");
    }
    let mut name = String::from_str(nickname);
    name.append("#");
    name.append(tag);
    assert("#"@ =~= seq!['#']);
    name
}

/// Whether a session that ends at `timeout` is still good at `now`.
pub fn session_live(now: i64, timeout: i64) -> (live: bool)
    ensures
        live == (now < timeout),
{
    now < timeout
}

/// When a session that starts at `now` and lasts `lifetime` seconds ends,
/// both times in milliseconds; `None` where that is later than can be told.
pub fn session_end(now: i64, lifetime: u64) -> (end: Option<i64>)
    ensures
        end is Some <==> now + lifetime * 1000 <= i64::MAX,
        end is Some ==> end->0 == now + lifetime * 1000,
{
    let span: i128 = lifetime as i128 * 1000;
    let sum: i128 = now as i128 + span;
    if sum <= i64::MAX as i128 {
        Some(sum as i64)
    } else {
        None
    }
}

/// The four characters of a tag: the number in decimal with zeros in front
/// of it; a number of more than four digits is written in full.
pub open spec fn tag_text(n: nat) -> Seq<char> {
    if n < 10 {
        seq!['0', '0', '0'] + decimal(n)
    } else if n < 100 {
        seq!['0', '0'] + decimal(n)
    } else if n < 1000 {
        seq!['0'] + decimal(n)
    } else {
        decimal(n)
    }
}

/// Writes the tag of a user from the number drawn for it.
pub fn user_tag(n: u16) -> (tag: String)
    ensures
        tag@ == tag_text(n as nat),
{
    proof {
        reveal_strlit("000");
        reveal_strlit("00");
        reveal_strlit("0");
    }
    let zeros = if n < 10 {
        "000"
    } else if n < 100 {
        "00"
    } else if n < 1000 {
        "0"
    } else {
        ""
    };
    let mut tag = String::from_str(zeros);
    let number = render_decimal(n as usize);
    tag.append(number.as_str());
    proof {
        reveal_strlit("");
        assert(tag@ =~= tag_text(n as nat));
    }
    tag
}

/// The token of a new game: the bytes drawn for it in hexadecimal, in small
/// letters.
pub fn game_token(bytes: &[u8]) -> (token: String)
    ensures
        token@ == hex(bytes@, false),
{
    hex_text(bytes, false)
}

} // verus!
