//! The life of one connection: handshake, admission, traffic, end.
//!
//! A connection is driven from outside: whoever owns the socket reports
//! what happened as an [`Event`], and [`GameConnection::step`] answers with
//! the [`Action`] to take next.

use vstd::prelude::*;
use vstd::string::StringExecFns;
use crate::db::GamePermission;
use crate::game::server::{UserInfo, UserView};
use crate::text::{trim_text, trimmed};

verus! {

/// Why a connection was turned away.
#[derive(Debug, Clone, Copy, PartialEq, Eq, Structural)]
pub enum GameError {
    /// The handshake did not bring two text frames.
    Malformed,
    /// The user already has a connection to the room.
    AlreadyConnected,
}

/// How far a connection has come.
#[derive(Debug, Clone, Copy, PartialEq, Eq, Structural)]
pub enum Phase {
    AwaitingUserToken,
    AwaitingGameToken,
    Authorizing,
    Active,
    Closed,
}

/// What happened on a connection.
#[derive(Debug)]
pub enum Event {
    /// A text frame arrived.
    Text(String),
    /// A frame of another kind arrived.
    NonText,
    /// The socket ended or failed, or the queue towards it was closed.
    Closed,
    /// The directory told what the user may do in the room.
    Permission(GamePermission),
    /// The directory told whose token it is.
    Account { id: i32, username: String },
    /// The directory could not tell.
    DirectoryError,
    /// The room took the user in.
    Joined,
    /// The room turned the user away.
    Refused(GameError),
}

/// The mathematical value of an [`Event`].
pub enum EventView {
    Text(Seq<char>),
    NonText,
    Closed,
    Permission(GamePermission),
    Account { id: i32, username: Seq<char> },
    DirectoryError,
    Joined,
    Refused(GameError),
}

impl View for Event {
    type V = EventView;

    open spec fn view(&self) -> EventView {
        match self {
            Event::Text(text) => EventView::Text(text@),
            Event::NonText => EventView::NonText,
            Event::Closed => EventView::Closed,
            Event::Permission(permission) => EventView::Permission(*permission),
            Event::Account { id, username } => EventView::Account { id: *id, username: username@ },
            Event::DirectoryError => EventView::DirectoryError,
            Event::Joined => EventView::Joined,
            Event::Refused(error) => EventView::Refused(*error),
        }
    }
}

/// What to do next on a connection.
#[derive(Debug)]
pub enum Action {
    /// Wait for the next frame.
    Read,
    /// Ask the directory what the user may do in the room.
    CheckPermission { user_token: String, game_token: String },
    /// Ask the directory whose token it is.
    GetAccount { user_token: String },
    /// Seat the user in the room.
    Join { user: UserInfo, game_token: String },
    /// Hand the frame to the room, then wait for the next.
    Dispatch { user: UserInfo, game_token: String, text: String },
    /// Tell the client why it is turned away, then close.
    Refuse { reason: String },
    /// Close without a word.
    Drop(GameError),
    /// Take the user out of the room, then close.
    Leave { user: UserInfo, game_token: String },
    /// Nothing: the connection is closed.
    Nothing,
}

/// The mathematical value of an [`Action`].
pub enum ActionView {
    Read,
    CheckPermission { user_token: Seq<char>, game_token: Seq<char> },
    GetAccount { user_token: Seq<char> },
    Join { user: UserView, game_token: Seq<char> },
    Dispatch { user: UserView, game_token: Seq<char>, text: Seq<char> },
    Refuse { reason: Seq<char> },
    Drop(GameError),
    Leave { user: UserView, game_token: Seq<char> },
    Nothing,
}

impl View for Action {
    type V = ActionView;

    open spec fn view(&self) -> ActionView {
        match self {
            Action::Read => ActionView::Read,
            Action::CheckPermission { user_token, game_token } => ActionView::CheckPermission {
                user_token: user_token@,
                game_token: game_token@,
            },
            Action::GetAccount { user_token } => ActionView::GetAccount {
                user_token: user_token@,
            },
            Action::Join { user, game_token } => ActionView::Join {
                user: user@,
                game_token: game_token@,
            },
            Action::Dispatch { user, game_token, text } => ActionView::Dispatch {
                user: user@,
                game_token: game_token@,
                text: text@,
            },
            Action::Refuse { reason } => ActionView::Refuse { reason: reason@ },
            Action::Drop(error) => ActionView::Drop(*error),
            Action::Leave { user, game_token } => ActionView::Leave {
                user: user@,
                game_token: game_token@,
            },
            Action::Nothing => ActionView::Nothing,
        }
    }
}

/// Where a connection stands, with what it has learnt so far.
#[derive(Debug)]
enum Stage {
    AwaitingUserToken,
    AwaitingGameToken,
    AwaitingPermission,
    AwaitingAccount { is_host: bool },
    Joining { user: UserInfo },
    Active { user: UserInfo },
    Closed,
}

/// The mathematical value of the stage of a connection.
pub enum StageView {
    /// No frame has come yet.
    AwaitingUserToken,
    /// The user's token has come.
    AwaitingGameToken,
    /// Both tokens have come; the directory is asked what the user may do.
    AwaitingPermission,
    /// The user has a part in the game; the directory is asked who it is.
    AwaitingAccount { is_host: bool },
    /// The user is known; the room is asked for a seat.
    Joining { user: UserView },
    /// The user is seated.
    Active { user: UserView },
    /// The connection is over.
    Closed,
}

/// The mathematical value of a connection.
pub struct ConnView {
    /// The user's token, once it has come.
    pub user_token: Seq<char>,
    /// The room's token, once it has come.
    pub game_token: Seq<char>,
    /// Where the connection stands.
    pub stage: StageView,
}

/// What a connection does on an event.
pub struct Move {
    /// The connection afterwards.
    pub conn: ConnView,
    /// What is to be done.
    pub action: ActionView,
}

impl ConnView {
    /// The phase that the stage belongs to.
    pub open spec fn phase(self) -> Phase {
        match self.stage {
            StageView::AwaitingUserToken => Phase::AwaitingUserToken,
            StageView::AwaitingGameToken => Phase::AwaitingGameToken,
            StageView::AwaitingPermission => Phase::Authorizing,
            StageView::AwaitingAccount { .. } => Phase::Authorizing,
            StageView::Joining { .. } => Phase::Authorizing,
            StageView::Active { .. } => Phase::Active,
            StageView::Closed => Phase::Closed,
        }
    }

    /// The connection at `stage`.
    pub open spec fn at(self, stage: StageView) -> ConnView {
        ConnView { stage, ..self }
    }

    /// The connection, closed, and what is done on closing it.
    pub open spec fn close(self, action: ActionView) -> Move {
        Move { conn: self.at(StageView::Closed), action }
    }

    /// What the connection does on the event `e`.
    ///
    /// The first two frames must be texts: the user's token and the room's,
    /// each without the white space around it. The directory is then asked
    /// what the user may do in the room and, unless that is nothing, who the
    /// user is; with both answers the room is asked for a seat. Once seated,
    /// every text frame goes to the room, and the end of the socket takes
    /// the user out of it. Whatever else happens closes the connection.
    pub open spec fn next(self, e: EventView) -> Move {
        match self.stage {
            StageView::AwaitingUserToken => match e {
                EventView::Text(text) => Move {
                    conn: ConnView {
                        user_token: trimmed(text),
                        stage: StageView::AwaitingGameToken,
                        ..self
                    },
                    action: ActionView::Read,
                },
                _ => self.close(ActionView::Drop(GameError::Malformed)),
            },
            StageView::AwaitingGameToken => match e {
                EventView::Text(text) => Move {
                    conn: ConnView {
                        game_token: trimmed(text),
                        stage: StageView::AwaitingPermission,
                        ..self
                    },
                    action: ActionView::CheckPermission {
                        user_token: self.user_token,
                        game_token: trimmed(text),
                    },
                },
                _ => self.close(ActionView::Drop(GameError::Malformed)),
            },
            StageView::AwaitingPermission => match e {
                EventView::Permission(GamePermission::Outsider) => self.close(
                    ActionView::Refuse { reason: "user not in game"@ },
                ),
                EventView::Permission(permission) => Move {
                    conn: self.at(
                        StageView::AwaitingAccount { is_host: permission is Host },
                    ),
                    action: ActionView::GetAccount { user_token: self.user_token },
                },
                EventView::DirectoryError => self.close(
                    ActionView::Refuse { reason: "could not find game"@ },
                ),
                _ => self.close(ActionView::Drop(GameError::Malformed)),
            },
            StageView::AwaitingAccount { is_host } => match e {
                EventView::Account { id, username } => {
                    let user = UserView { token: self.user_token, username, is_host, id };
                    Move {
                        conn: self.at(StageView::Joining { user }),
                        action: ActionView::Join { user, game_token: self.game_token },
                    }
                },
                EventView::DirectoryError => self.close(
                    ActionView::Refuse { reason: "could not find account"@ },
                ),
                _ => self.close(ActionView::Drop(GameError::Malformed)),
            },
            StageView::Joining { user } => match e {
                EventView::Joined => Move {
                    conn: self.at(StageView::Active { user }),
                    action: ActionView::Read,
                },
                EventView::Refused(GameError::AlreadyConnected) => self.close(
                    ActionView::Refuse { reason: "user already connected"@ },
                ),
                _ => self.close(ActionView::Drop(GameError::Malformed)),
            },
            StageView::Active { user } => match e {
                EventView::Text(text) => Move {
                    conn: self,
                    action: ActionView::Dispatch { user, game_token: self.game_token, text },
                },
                EventView::NonText => Move { conn: self, action: ActionView::Read },
                _ => self.close(ActionView::Leave { user, game_token: self.game_token }),
            },
            StageView::Closed => Move { conn: self, action: ActionView::Nothing },
        }
    }
}

/// One connection of a client.
#[derive(Debug)]
pub struct GameConnection {
    user_token: String,
    game_token: String,
    stage: Stage,
}

impl View for GameConnection {
    type V = ConnView;

    closed spec fn view(&self) -> ConnView {
        ConnView {
            user_token: self.user_token@,
            game_token: self.game_token@,
            stage: match self.stage {
                Stage::AwaitingUserToken => StageView::AwaitingUserToken,
                Stage::AwaitingGameToken => StageView::AwaitingGameToken,
                Stage::AwaitingPermission => StageView::AwaitingPermission,
                Stage::AwaitingAccount { is_host } => StageView::AwaitingAccount { is_host },
                Stage::Joining { user } => StageView::Joining { user: user@ },
                Stage::Active { user } => StageView::Active { user: user@ },
                Stage::Closed => StageView::Closed,
            },
        }
    }
}

impl GameConnection {
    /// A connection on which no frame has come yet.
    pub fn new() -> (conn: GameConnection)
        ensures
            conn@ == (ConnView {
                user_token: Seq::empty(),
                game_token: Seq::empty(),
                stage: StageView::AwaitingUserToken,
            }),
    {
        GameConnection {
            user_token: String::new(),
            game_token: String::new(),
            stage: Stage::AwaitingUserToken,
        }
    }

    /// The user's token, as far as it has come.
    pub fn get_user(&self) -> (token: String)
        ensures
            token@ == self@.user_token,
    {
        self.user_token.clone()
    }

    /// The room's token, as far as it has come.
    pub fn get_game(&self) -> (token: String)
        ensures
            token@ == self@.game_token,
    {
        self.game_token.clone()
    }

    /// How far the connection has come.
    pub fn phase(&self) -> (phase: Phase)
        ensures
            phase == self@.phase(),
    {
        match &self.stage {
            Stage::AwaitingUserToken => Phase::AwaitingUserToken,
            Stage::AwaitingGameToken => Phase::AwaitingGameToken,
            Stage::AwaitingPermission => Phase::Authorizing,
            Stage::AwaitingAccount { .. } => Phase::Authorizing,
            Stage::Joining { .. } => Phase::Authorizing,
            Stage::Active { .. } => Phase::Active,
            Stage::Closed => Phase::Closed,
        }
    }

    /// Closes the connection and passes `action` on.
    fn shut(&mut self, action: Action) -> (r: Action)
        ensures
            final(self)@ == old(self)@.at(StageView::Closed),
            r == action,
    {
        self.stage = Stage::Closed;
        action
    }

    /// Takes an event and tells what to do next: the move that
    /// [`ConnView::next`] gives.
    pub fn step(&mut self, event: Event) -> (action: Action)
        ensures
            (Move { conn: final(self)@, action: action@ }) == old(self)@.next(event@),
    {
        match &self.stage {
            Stage::AwaitingUserToken => match event {
                Event::Text(text) => {
                    self.user_token = trim_text(text.as_str());
                    self.stage = Stage::AwaitingGameToken;
                    Action::Read
                },
                _ => self.shut(Action::Drop(GameError::Malformed)),
            },
            Stage::AwaitingGameToken => match event {
                Event::Text(text) => {
                    self.game_token = trim_text(text.as_str());
                    self.stage = Stage::AwaitingPermission;
                    Action::CheckPermission {
                        user_token: self.user_token.clone(),
                        game_token: self.game_token.clone(),
                    }
                },
                _ => self.shut(Action::Drop(GameError::Malformed)),
            },
            Stage::AwaitingPermission => match event {
                Event::Permission(GamePermission::Outsider) => self.shut(
                    Action::Refuse { reason: String::from_str("user not in game") },
                ),
                Event::Permission(permission) => {
                    let is_host = match permission {
                        GamePermission::Host => true,
                        _ => false,
                    };
                    self.stage = Stage::AwaitingAccount { is_host };
                    Action::GetAccount { user_token: self.user_token.clone() }
                },
                Event::DirectoryError => self.shut(
                    Action::Refuse { reason: String::from_str("could not find game") },
                ),
                _ => self.shut(Action::Drop(GameError::Malformed)),
            },
            Stage::AwaitingAccount { is_host } => match event {
                Event::Account { id, username } => {
                    let user = UserInfo {
                        token: self.user_token.clone(),
                        username,
                        is_host: *is_host,
                        id,
                    };
                    let seat = user.clone();
                    self.stage = Stage::Joining { user };
                    Action::Join { user: seat, game_token: self.game_token.clone() }
                },
                Event::DirectoryError => self.shut(
                    Action::Refuse { reason: String::from_str("could not find account") },
                ),
                _ => self.shut(Action::Drop(GameError::Malformed)),
            },
            Stage::Joining { user } => match event {
                Event::Joined => {
                    let user = user.clone();
                    self.stage = Stage::Active { user };
                    Action::Read
                },
                Event::Refused(GameError::AlreadyConnected) => self.shut(
                    Action::Refuse { reason: String::from_str("user already connected") },
                ),
                _ => self.shut(Action::Drop(GameError::Malformed)),
            },
            Stage::Active { user } => match event {
                Event::Text(text) => Action::Dispatch {
                    user: user.clone(),
                    game_token: self.game_token.clone(),
                    text,
                },
                Event::NonText => Action::Read,
                _ => {
                    let action = Action::Leave {
                        user: user.clone(),
                        game_token: self.game_token.clone(),
                    };
                    self.shut(action)
                },
            },
            Stage::Closed => Action::Nothing,
        }
    }
}

/// A user is taken out of its room exactly when a seated connection
/// closes, and a closed connection does nothing more: so no user is taken
/// out twice.
pub proof fn law_leave_once(c: ConnView, e: EventView)
    ensures
        c.next(e).action is Leave <==> c.phase() is Active && c.next(e).conn.phase() is Closed,
        c.phase() is Closed ==> c.next(e).conn == c && c.next(e).action is Nothing,
{
}

} // verus!
