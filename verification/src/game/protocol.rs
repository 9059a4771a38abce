//! The messages that clients and a room exchange.

use vstd::prelude::*;

verus! {

/// What an optional string holds, as an optional sequence of characters.
pub open spec fn opt_text(o: Option<String>) -> Option<Seq<char>> {
    match o {
        Some(s) => Some(s@),
        None => None,
    }
}

/// Copies an optional string.
pub fn copy_opt_text(o: &Option<String>) -> (r: Option<String>)
    ensures
        opt_text(r) == opt_text(*o),
{
    match o {
        Some(s) => Some(s.clone()),
        None => None,
    }
}

/// A token on the board. The room assigns `id` and `controller` when the
/// token is placed.
#[derive(Debug, PartialEq, Eq)]
pub struct Token {
    pub id: Option<String>,
    pub kind: String,
    pub x: i16,
    pub y: i16,
    pub colour: String,
    pub controller: Option<String>,
}

/// The mathematical value of a [`Token`].
pub struct TokenView {
    pub id: Option<Seq<char>>,
    pub kind: Seq<char>,
    pub x: i16,
    pub y: i16,
    pub colour: Seq<char>,
    pub controller: Option<Seq<char>>,
}

impl View for Token {
    type V = TokenView;

    open spec fn view(&self) -> TokenView {
        TokenView {
            id: opt_text(self.id),
            kind: self.kind@,
            x: self.x,
            y: self.y,
            colour: self.colour@,
            controller: opt_text(self.controller),
        }
    }
}

impl Clone for Token {
    fn clone(&self) -> (r: Token)
        ensures
            r@ == self@,
    {
        Token {
            id: copy_opt_text(&self.id),
            kind: self.kind.clone(),
            x: self.x,
            y: self.y,
            colour: self.colour.clone(),
            controller: copy_opt_text(&self.controller),
        }
    }
}

impl Token {
    /// The message that places this token.
    pub fn to_msg(&self) -> (m: ProtocolMessage)
        ensures
            m@ == MessageView::PlaceToken(self@),
    {
        ProtocolMessage::PlaceToken(self.clone())
    }
}

/// An object laid on the board; `obj_id` names an asset kept elsewhere. The
/// room assigns `id` and `controller` when the object is placed.
#[derive(Debug, PartialEq, Eq)]
pub struct PlacedObj {
    pub id: Option<String>,
    pub obj_id: i32,
    pub x: i16,
    pub y: i16,
    pub controller: Option<String>,
}

/// The mathematical value of a [`PlacedObj`].
pub struct PlacedObjView {
    pub id: Option<Seq<char>>,
    pub obj_id: i32,
    pub x: i16,
    pub y: i16,
    pub controller: Option<Seq<char>>,
}

impl View for PlacedObj {
    type V = PlacedObjView;

    open spec fn view(&self) -> PlacedObjView {
        PlacedObjView {
            id: opt_text(self.id),
            obj_id: self.obj_id,
            x: self.x,
            y: self.y,
            controller: opt_text(self.controller),
        }
    }
}

impl Clone for PlacedObj {
    fn clone(&self) -> (r: PlacedObj)
        ensures
            r@ == self@,
    {
        PlacedObj {
            id: copy_opt_text(&self.id),
            obj_id: self.obj_id,
            x: self.x,
            y: self.y,
            controller: copy_opt_text(&self.controller),
        }
    }
}

impl PlacedObj {
    /// The message that places this object.
    pub fn to_msg(&self) -> (m: ProtocolMessage)
        ensures
            m@ == MessageView::PlaceObj(self@),
    {
        ProtocolMessage::PlaceObj(self.clone())
    }
}

/// A message of the room protocol.
#[derive(Debug, PartialEq, Eq)]
pub enum ProtocolMessage {
    PlaceToken(Token),
    DeleteToken { token_id: String },
    Movement { id: String, token_id: String, dx: i16, dy: i16 },
    PlaceObj(PlacedObj),
    DeleteObj { id: String },
    SetController { token_id: String, new_controller: String },
    Connect { username: String, host: bool, host_id: i32 },
    Disconnect { username: String },
    FailedConnection { reason: String },
}

/// The mathematical value of a [`ProtocolMessage`].
pub enum MessageView {
    PlaceToken(TokenView),
    DeleteToken { token_id: Seq<char> },
    Movement { id: Seq<char>, token_id: Seq<char>, dx: i16, dy: i16 },
    PlaceObj(PlacedObjView),
    DeleteObj { id: Seq<char> },
    SetController { token_id: Seq<char>, new_controller: Seq<char> },
    Connect { username: Seq<char>, host: bool, host_id: i32 },
    Disconnect { username: Seq<char> },
    FailedConnection { reason: Seq<char> },
}

impl View for ProtocolMessage {
    type V = MessageView;

    open spec fn view(&self) -> MessageView {
        match self {
            ProtocolMessage::PlaceToken(token) => MessageView::PlaceToken(token@),
            ProtocolMessage::DeleteToken { token_id } => MessageView::DeleteToken {
                token_id: token_id@,
            },
            ProtocolMessage::Movement { id, token_id, dx, dy } => MessageView::Movement {
                id: id@,
                token_id: token_id@,
                dx: *dx,
                dy: *dy,
            },
            ProtocolMessage::PlaceObj(obj) => MessageView::PlaceObj(obj@),
            ProtocolMessage::DeleteObj { id } => MessageView::DeleteObj { id: id@ },
            ProtocolMessage::SetController { token_id, new_controller } => {
                MessageView::SetController { token_id: token_id@, new_controller: new_controller@ }
            },
            ProtocolMessage::Connect { username, host, host_id } => MessageView::Connect {
                username: username@,
                host: *host,
                host_id: *host_id,
            },
            ProtocolMessage::Disconnect { username } => MessageView::Disconnect {
                username: username@,
            },
            ProtocolMessage::FailedConnection { reason } => MessageView::FailedConnection {
                reason: reason@,
            },
        }
    }
}

impl Clone for ProtocolMessage {
    fn clone(&self) -> (r: ProtocolMessage)
        ensures
            r@ == self@,
    {
        match self {
            ProtocolMessage::PlaceToken(token) => ProtocolMessage::PlaceToken(token.clone()),
            ProtocolMessage::DeleteToken { token_id } => ProtocolMessage::DeleteToken {
                token_id: token_id.clone(),
            },
            ProtocolMessage::Movement { id, token_id, dx, dy } => ProtocolMessage::Movement {
                id: id.clone(),
                token_id: token_id.clone(),
                dx: *dx,
                dy: *dy,
            },
            ProtocolMessage::PlaceObj(obj) => ProtocolMessage::PlaceObj(obj.clone()),
            ProtocolMessage::DeleteObj { id } => ProtocolMessage::DeleteObj { id: id.clone() },
            ProtocolMessage::SetController { token_id, new_controller } => {
                ProtocolMessage::SetController {
                    token_id: token_id.clone(),
                    new_controller: new_controller.clone(),
                }
            },
            ProtocolMessage::Connect { username, host, host_id } => ProtocolMessage::Connect {
                username: username.clone(),
                host: *host,
                host_id: *host_id,
            },
            ProtocolMessage::Disconnect { username } => ProtocolMessage::Disconnect {
                username: username.clone(),
            },
            ProtocolMessage::FailedConnection { reason } => ProtocolMessage::FailedConnection {
                reason: reason.clone(),
            },
        }
    }
}

} // verus!
