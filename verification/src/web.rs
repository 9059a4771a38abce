//! The answers of the web interface, and the rules by which the outcome of
//! a call becomes an answer.

use vstd::prelude::*;
use vstd::string::StringExecFns;
use crate::db::{Game, Object};
use crate::game::protocol::opt_text;

verus! {

/// How a call of the directory failed, as far as an answer depends on it.
#[derive(Clone, Copy, Debug, PartialEq, Eq, Structural)]
pub enum Fault {
    /// The token or the password was not accepted.
    Auth,
    /// The name is taken.
    AlreadyExists,
    /// Anything else.
    Other,
}

/// An answer that tells whether the call went well, and if not, why.
#[derive(Debug)]
pub struct Response {
    pub status: bool,
    pub msg: Option<String>,
}

/// An answer about a user or a game.
#[derive(Debug)]
pub struct UserResponse {
    pub status: bool,
    pub msg: Option<String>,
    pub token: Option<String>,
    pub username: Option<String>,
}

/// An answer that lists games.
#[derive(Debug)]
pub struct ListGamesResponse {
    pub status: bool,
    pub msg: Option<String>,
    pub games: Option<Vec<Game>>,
}

/// An answer that lists objects.
#[derive(Debug)]
pub struct ListObjsResponse {
    pub status: bool,
    pub msg: Option<String>,
    pub objs: Option<Vec<Object>>,
}

/// What a failed call is put down to: a refusal to `refusal`, anything
/// else to a miscellaneous error.
pub open spec fn failure_text(fault: Fault, refusal: Seq<char>) -> Seq<char> {
    match fault {
        Fault::Auth => refusal,
        _ => "miscellaneous error"@,
    }
}

/// The message for a failed call.
fn failure(fault: Fault, refusal: &str) -> (msg: Option<String>)
    ensures
        opt_text(msg) == Some(failure_text(fault, refusal@)),
{
    match fault {
        Fault::Auth => Some(String::from_str(refusal)),
        _ => Some(String::from_str("miscellaneous error")),
    }
}

impl Response {
    /// The answer to a call that went well.
    pub fn ok() -> (r: Response)
        ensures
            r.status,
            r.msg is None,
    {
        Response { status: true, msg: None }
    }

    /// The answer to a call that failed for `msg`.
    pub fn failed(msg: &str) -> (r: Response)
        ensures
            !r.status,
            opt_text(r.msg) == Some(msg@),
    {
        Response { status: false, msg: Some(String::from_str(msg)) }
    }
}

/// The answer to a call that gives nothing back: joining a game, deleting
/// an object.
pub fn answer(result: Result<(), Fault>) -> (r: Response)
    ensures
        r.status == result is Ok,
        opt_text(r.msg) == match result {
            Ok(_) => None,
            Err(fault) => Some(failure_text(fault, "user not found"@)),
        },
{
    match result {
        Ok(_) => Response::ok(),
        Err(fault) => Response { status: false, msg: failure(fault, "user not found") },
    }
}

/// The answer to the question whether a token is still good.
pub fn answer_check(result: Result<bool, Fault>) -> (r: Response)
    ensures
        r.status == (result == Ok::<bool, Fault>(true)),
        opt_text(r.msg) == match result {
            Ok(true) => None,
            Ok(false) => Some("token expired"@),
            Err(_) => Some("miscellaneous error"@),
        },
{
    match result {
        Ok(true) => Response::ok(),
        Ok(false) => Response::failed("token expired"),
        Err(_) => Response::failed("miscellaneous error"),
    }
}

/// The answer to an upload, once the file is stored.
pub fn answer_upload(result: Result<(), Fault>) -> (r: Response)
    ensures
        r.status == result is Ok,
        opt_text(r.msg) == match result {
            Ok(_) => None,
            Err(Fault::AlreadyExists) => Some("name already used"@),
            Err(fault) => Some(failure_text(fault, "user not found"@)),
        },
{
    match result {
        Ok(_) => Response::ok(),
        Err(Fault::AlreadyExists) => Response::failed("name already used"),
        Err(fault) => Response { status: false, msg: failure(fault, "user not found") },
    }
}

/// What is wrong with the parts of an upload, looked at in the order file,
/// token, name; `None` where all three are there.
pub fn check_upload(has_data: bool, has_token: bool, has_name: bool) -> (r: Option<Response>)
    ensures
        r is None <==> has_data && has_token && has_name,
        r is Some ==> !r->0.status && opt_text(r->0.msg) == Some(
            if !has_data {
                "malformed file data"@
            } else if !has_token {
                "malformed user token"@
            } else {
                "malformed map name"@
            },
        ),
{
    if !has_data {
        Some(Response::failed("malformed file data"))
    } else if !has_token {
        Some(Response::failed("malformed user token"))
    } else if !has_name {
        Some(Response::failed("malformed map name"))
    } else {
        None
    }
}

/// The answer to a registration. Its status is good either way; a failure
/// shows in the message alone.
pub fn answer_signup(result: Result<(), Fault>) -> (r: UserResponse)
    ensures
        r.status,
        opt_text(r.msg) == match result {
            Ok(_) => None,
            Err(_) => Some("miscellaneous error"@),
        },
        r.token is None,
        r.username is None,
{
    match result {
        Ok(_) => UserResponse { status: true, msg: None, token: None, username: None },
        Err(_) => UserResponse {
            status: true,
            msg: Some(String::from_str("miscellaneous error")),
            token: None,
            username: None,
        },
    }
}

/// The answer to a login, which gives a token and the user's name.
pub fn answer_login(result: Result<(String, String), Fault>) -> (r: UserResponse)
    ensures
        r.status == result is Ok,
        match result {
            Ok((token, username)) => r.msg is None && r.token == Some(token) && r.username
                == Some(username),
            Err(fault) => opt_text(r.msg) == Some(failure_text(fault, "user not found"@))
                && r.token is None && r.username is None,
        },
{
    match result {
        Ok((token, username)) => UserResponse {
            status: true,
            msg: None,
            token: Some(token),
            username: Some(username),
        },
        Err(fault) => UserResponse {
            status: false,
            msg: failure(fault, "user not found"),
            token: None,
            username: None,
        },
    }
}

/// The answer to the making of a game, which gives the game's token.
pub fn answer_new_game(result: Result<String, Fault>) -> (r: UserResponse)
    ensures
        r.status == result is Ok,
        r.username is None,
        match result {
            Ok(token) => r.msg is None && r.token == Some(token),
            Err(fault) => opt_text(r.msg) == Some(failure_text(fault, "user not found"@))
                && r.token is None,
        },
{
    match result {
        Ok(token) => UserResponse { status: true, msg: None, token: Some(token), username: None },
        Err(fault) => UserResponse {
            status: false,
            msg: failure(fault, "user not found"),
            token: None,
            username: None,
        },
    }
}

/// The answer to a request for a list of games.
pub fn answer_games(result: Result<Vec<Game>, Fault>) -> (r: ListGamesResponse)
    ensures
        r.status == result is Ok,
        match result {
            Ok(games) => r.msg is None && r.games == Some(games),
            Err(fault) => opt_text(r.msg) == Some(failure_text(fault, "user not found"@))
                && r.games is None,
        },
{
    match result {
        Ok(games) => ListGamesResponse { status: true, msg: None, games: Some(games) },
        Err(fault) => ListGamesResponse {
            status: false,
            msg: failure(fault, "user not found"),
            games: None,
        },
    }
}

/// The answer to a request for a list of objects: the user's own where
/// `own` says so, another user's otherwise.
pub fn answer_objs(result: Result<Vec<Object>, Fault>, own: bool) -> (r: ListObjsResponse)
    ensures
        r.status == result is Ok,
        match result {
            Ok(objs) => r.msg is None && r.objs == Some(objs),
            Err(fault) => opt_text(r.msg) == Some(
                failure_text(
                    fault,
                    if own {
                        "user not found"@
                    } else {
                        "permission denied"@
                    },
                ),
            ) && r.objs is None,
        },
{
    match result {
        Ok(objs) => ListObjsResponse { status: true, msg: None, objs: Some(objs) },
        Err(fault) => ListObjsResponse {
            status: false,
            msg: if own {
                failure(fault, "user not found")
            } else {
                failure(fault, "permission denied")
            },
            objs: None,
        },
    }
}

/// The text in which every place where `from` stands holds `to` instead:
/// the places are taken from the left, and none reaches into another.
pub open spec fn replaced(text: Seq<char>, from: Seq<char>, to: Seq<char>) -> Seq<char>
    decreases text.len(),
{
    if from.len() == 0 || text.len() < from.len() {
        text
    } else if text.subrange(0, from.len() as int) == from {
        to + replaced(text.skip(from.len() as int), from, to)
    } else {
        seq![text[0]] + replaced(text.skip(1), from, to)
    }
}

/// `str::replace` with a pattern that is not empty: the text named by
/// [`replaced`].
#[verifier::external_body]
fn replace_text(text: &str, from: &str, to: &str) -> (r: String)
    requires
        from@.len() > 0,
    ensures
        r@ == replaced(text@, from@, to@),
{
    text.replace(from, to)
}

/// A page as it is served: the paths under which it asks for its scripts
/// turned into those under which the service offers them.
pub open spec fn served(html: Seq<char>) -> Seq<char> {
    replaced(
        replaced(
            replaced(html, "./node_modules/react/umd"@, "/react"@),
            "./node_modules/react-dom/umd"@,
            "/react-dom"@,
        ),
        "./dist"@,
        "/dist"@,
    )
}

/// Makes a page ready to be served.
pub fn process_html(html: String) -> (page: String)
    ensures
        page@ == served(html@),
{
    proof {
        reveal_strlit("./node_modules/react/umd");
        reveal_strlit("./node_modules/react-dom/umd");
        reveal_strlit("./dist");
    }
    let first = replace_text(html.as_str(), "./node_modules/react/umd", "/react");
    let second = replace_text(first.as_str(), "./node_modules/react-dom/umd", "/react-dom");
    replace_text(second.as_str(), "./dist", "/dist")
}

/// The page of one game: the page of all games with the game's token in
/// the place kept for it.
pub fn game_page(page: &str, game_token: &str) -> (r: String)
    ensures
        r@ == replaced(page@, "GAMETOKEN"@, game_token@),
{
    proof {
        reveal_strlit("GAMETOKEN");
    }
    replace_text(page, "GAMETOKEN", game_token)
}

} // verus!
