//! How a message is written as a JSON document and read back from one.
//!
//! A message is an object with one member: its name is the kind of the
//! message and its value an object that holds the fields.

use vstd::prelude::*;
use vstd::string::StringExecFns;
use crate::game::protocol::{
    opt_text,
    MessageView,
    PlacedObj,
    PlacedObjView,
    ProtocolMessage,
    Token,
    TokenView,
};
use crate::json::{
    find_member,
    json_of_text,
    lemma_object_tree,
    member,
    members_view,
    read_json,
    text_of_json,
    write_json,
    Json,
    JsonView,
};
use crate::text::same_text;

verus! {

/// What an optional message holds, as an optional value.
pub open spec fn opt_message(o: Option<ProtocolMessage>) -> Option<MessageView> {
    match o {
        Some(m) => Some(m@),
        None => None,
    }
}

/// The text of the member `name`; `None` where it is missing or no text.
pub open spec fn text_member(fields: Seq<(Seq<char>, JsonView)>, name: Seq<char>) -> Option<
    Seq<char>,
> {
    match member(fields, name) {
        Some(JsonView::Text(s)) => Some(s),
        _ => None,
    }
}

/// The text of the member `name`, which may be missing or null; `None`
/// where it is anything else.
pub open spec fn optional_text_member(
    fields: Seq<(Seq<char>, JsonView)>,
    name: Seq<char>,
) -> Option<Option<Seq<char>>> {
    match member(fields, name) {
        None => Some(None),
        Some(JsonView::Null) => Some(None),
        Some(JsonView::Text(s)) => Some(Some(s)),
        _ => None,
    }
}

/// The integer of the member `name`; `None` where it is missing, no
/// integer, or outside the range of `i16`.
pub open spec fn i16_member(fields: Seq<(Seq<char>, JsonView)>, name: Seq<char>) -> Option<i16> {
    match member(fields, name) {
        Some(JsonView::Int(n)) => if i16::MIN <= n <= i16::MAX {
            Some(n as i16)
        } else {
            None
        },
        _ => None,
    }
}

/// The integer of the member `name`; `None` where it is missing, no
/// integer, or outside the range of `i32`.
pub open spec fn i32_member(fields: Seq<(Seq<char>, JsonView)>, name: Seq<char>) -> Option<i32> {
    match member(fields, name) {
        Some(JsonView::Int(n)) => if i32::MIN <= n <= i32::MAX {
            Some(n as i32)
        } else {
            None
        },
        _ => None,
    }
}

/// The truth value of the member `name`; `None` where it is missing or
/// none.
pub open spec fn bool_member(fields: Seq<(Seq<char>, JsonView)>, name: Seq<char>) -> Option<bool> {
    match member(fields, name) {
        Some(JsonView::Bool(b)) => Some(b),
        _ => None,
    }
}

/// The token that a set of fields describes.
pub open spec fn decoded_token(fields: Seq<(Seq<char>, JsonView)>) -> Option<TokenView> {
    let id = optional_text_member(fields, "id"@);
    let kind = text_member(fields, "kind"@);
    let x = i16_member(fields, "x"@);
    let y = i16_member(fields, "y"@);
    let colour = text_member(fields, "colour"@);
    let controller = optional_text_member(fields, "controller"@);
    if id is Some && kind is Some && x is Some && y is Some && colour is Some && controller
        is Some {
        Some(
            TokenView {
                id: id->0,
                kind: kind->0,
                x: x->0,
                y: y->0,
                colour: colour->0,
                controller: controller->0,
            },
        )
    } else {
        None
    }
}

/// The object that a set of fields describes.
pub open spec fn decoded_obj(fields: Seq<(Seq<char>, JsonView)>) -> Option<PlacedObjView> {
    let id = optional_text_member(fields, "id"@);
    let obj_id = i32_member(fields, "objId"@);
    let x = i16_member(fields, "x"@);
    let y = i16_member(fields, "y"@);
    let controller = optional_text_member(fields, "controller"@);
    if id is Some && obj_id is Some && x is Some && y is Some && controller is Some {
        Some(
            PlacedObjView {
                id: id->0,
                obj_id: obj_id->0,
                x: x->0,
                y: y->0,
                controller: controller->0,
            },
        )
    } else {
        None
    }
}

/// The message of kind `tag` that a set of fields describes.
pub open spec fn decoded_body(tag: Seq<char>, fields: Seq<(Seq<char>, JsonView)>) -> Option<
    MessageView,
> {
    if tag == "PlaceToken"@ {
        match decoded_token(fields) {
            Some(token) => Some(MessageView::PlaceToken(token)),
            None => None,
        }
    } else if tag == "DeleteToken"@ {
        match text_member(fields, "tokenId"@) {
            Some(token_id) => Some(MessageView::DeleteToken { token_id }),
            None => None,
        }
    } else if tag == "Movement"@ {
        let id = text_member(fields, "id"@);
        let token_id = text_member(fields, "tokenId"@);
        let dx = i16_member(fields, "dx"@);
        let dy = i16_member(fields, "dy"@);
        if id is Some && token_id is Some && dx is Some && dy is Some {
            Some(MessageView::Movement { id: id->0, token_id: token_id->0, dx: dx->0, dy: dy->0 })
        } else {
            None
        }
    } else if tag == "PlaceObj"@ {
        match decoded_obj(fields) {
            Some(obj) => Some(MessageView::PlaceObj(obj)),
            None => None,
        }
    } else if tag == "DeleteObj"@ {
        match text_member(fields, "id"@) {
            Some(id) => Some(MessageView::DeleteObj { id }),
            None => None,
        }
    } else if tag == "SetController"@ {
        let token_id = text_member(fields, "tokenId"@);
        let new_controller = text_member(fields, "newController"@);
        if token_id is Some && new_controller is Some {
            Some(
                MessageView::SetController {
                    token_id: token_id->0,
                    new_controller: new_controller->0,
                },
            )
        } else {
            None
        }
    } else if tag == "Connect"@ {
        let username = text_member(fields, "username"@);
        let host = bool_member(fields, "host"@);
        let host_id = i32_member(fields, "hostId"@);
        if username is Some && host is Some && host_id is Some {
            Some(
                MessageView::Connect { username: username->0, host: host->0, host_id: host_id->0 },
            )
        } else {
            None
        }
    } else if tag == "Disconnect"@ {
        match text_member(fields, "username"@) {
            Some(username) => Some(MessageView::Disconnect { username }),
            None => None,
        }
    } else if tag == "FailedConnection"@ {
        match text_member(fields, "reason"@) {
            Some(reason) => Some(MessageView::FailedConnection { reason }),
            None => None,
        }
    } else {
        None
    }
}

/// The message that a document describes: the document must be an object
/// with exactly one member, whose value is an object too. Members that the
/// kind does not know are passed over.
pub open spec fn decoded(j: JsonView) -> Option<MessageView> {
    match j {
        JsonView::Object(members) => if members.len() == 1 {
            match members[0].1 {
                JsonView::Object(fields) => decoded_body(members[0].0, fields),
                _ => None,
            }
        } else {
            None
        }
        ,
        _ => None,
    }
}

/// An optional text as a document: the text, or null.
pub open spec fn optional_text(o: Option<Seq<char>>) -> JsonView {
    match o {
        Some(s) => JsonView::Text(s),
        None => JsonView::Null,
    }
}

/// The document of a message of kind `tag` with the given fields.
pub open spec fn tagged(tag: Seq<char>, fields: Seq<(Seq<char>, JsonView)>) -> JsonView {
    JsonView::Object(seq![(tag, JsonView::Object(fields))])
}

/// The fields of a token.
pub open spec fn token_fields(t: TokenView) -> Seq<(Seq<char>, JsonView)> {
    seq![
        ("id"@, optional_text(t.id)),
        ("kind"@, JsonView::Text(t.kind)),
        ("x"@, JsonView::Int(t.x as i64)),
        ("y"@, JsonView::Int(t.y as i64)),
        ("colour"@, JsonView::Text(t.colour)),
        ("controller"@, optional_text(t.controller)),
    ]
}

/// The fields of a placed object.
pub open spec fn obj_fields(o: PlacedObjView) -> Seq<(Seq<char>, JsonView)> {
    seq![
        ("id"@, optional_text(o.id)),
        ("objId"@, JsonView::Int(o.obj_id as i64)),
        ("x"@, JsonView::Int(o.x as i64)),
        ("y"@, JsonView::Int(o.y as i64)),
        ("controller"@, optional_text(o.controller)),
    ]
}

/// The document of a message.
pub open spec fn encoded(m: MessageView) -> JsonView {
    match m {
        MessageView::PlaceToken(token) => tagged("PlaceToken"@, token_fields(token)),
        MessageView::DeleteToken { token_id } => tagged(
            "DeleteToken"@,
            seq![("tokenId"@, JsonView::Text(token_id))],
        ),
        MessageView::Movement { id, token_id, dx, dy } => tagged(
            "Movement"@,
            seq![
                ("id"@, JsonView::Text(id)),
                ("tokenId"@, JsonView::Text(token_id)),
                ("dx"@, JsonView::Int(dx as i64)),
                ("dy"@, JsonView::Int(dy as i64)),
            ],
        ),
        MessageView::PlaceObj(obj) => tagged("PlaceObj"@, obj_fields(obj)),
        MessageView::DeleteObj { id } => tagged("DeleteObj"@, seq![("id"@, JsonView::Text(id))]),
        MessageView::SetController { token_id, new_controller } => tagged(
            "SetController"@,
            seq![
                ("tokenId"@, JsonView::Text(token_id)),
                ("newController"@, JsonView::Text(new_controller)),
            ],
        ),
        MessageView::Connect { username, host, host_id } => tagged(
            "Connect"@,
            seq![
                ("username"@, JsonView::Text(username)),
                ("host"@, JsonView::Bool(host)),
                ("hostId"@, JsonView::Int(host_id as i64)),
            ],
        ),
        MessageView::Disconnect { username } => tagged(
            "Disconnect"@,
            seq![("username"@, JsonView::Text(username))],
        ),
        MessageView::FailedConnection { reason } => tagged(
            "FailedConnection"@,
            seq![("reason"@, JsonView::Text(reason))],
        ),
    }
}

/// The text that carries a message.
pub open spec fn wire_text(m: MessageView) -> Seq<char> {
    text_of_json(encoded(m))
}

/// The message that a text carries, if it carries one.
pub open spec fn wire_message(text: Seq<char>) -> Option<MessageView> {
    match json_of_text(text) {
        Some(j) => decoded(j),
        None => None,
    }
}

/// Reads the member `name` as a text.
fn read_text(fields: &Vec<(String, Json)>, name: &str) -> (r: Option<String>)
    ensures
        opt_text(r) == text_member(members_view(fields@), name@),
{
    match find_member(fields, name) {
        Some(Json::Text(s)) => Some(s.clone()),
        _ => None,
    }
}

/// Reads the member `name` as a text that may be missing or null.
fn read_optional_text(fields: &Vec<(String, Json)>, name: &str) -> (r: Option<Option<String>>)
    ensures
        match r {
            Some(o) => optional_text_member(members_view(fields@), name@) == Some(opt_text(o)),
            None => optional_text_member(members_view(fields@), name@) is None,
        },
{
    match find_member(fields, name) {
        None => Some(None),
        Some(Json::Null) => Some(None),
        Some(Json::Text(s)) => Some(Some(s.clone())),
        _ => None,
    }
}

/// Reads the member `name` as an integer of 16 bits.
fn read_i16(fields: &Vec<(String, Json)>, name: &str) -> (r: Option<i16>)
    ensures
        r == i16_member(members_view(fields@), name@),
{
    match find_member(fields, name) {
        Some(Json::Int(n)) => {
            if -32768 <= *n && *n <= 32767 {
                Some(*n as i16)
            } else {
                None
            }
        },
        _ => None,
    }
}

/// Reads the member `name` as an integer of 32 bits.
fn read_i32(fields: &Vec<(String, Json)>, name: &str) -> (r: Option<i32>)
    ensures
        r == i32_member(members_view(fields@), name@),
{
    match find_member(fields, name) {
        Some(Json::Int(n)) => {
            if -2147483648 <= *n && *n <= 2147483647 {
                Some(*n as i32)
            } else {
                None
            }
        },
        _ => None,
    }
}

/// Reads the member `name` as a truth value.
fn read_bool(fields: &Vec<(String, Json)>, name: &str) -> (r: Option<bool>)
    ensures
        r == bool_member(members_view(fields@), name@),
{
    match find_member(fields, name) {
        Some(Json::Bool(b)) => Some(*b),
        _ => None,
    }
}

/// Reads a token out of a set of fields.
fn decode_token(fields: &Vec<(String, Json)>) -> (r: Option<Token>)
    ensures
        match r {
            Some(token) => decoded_token(members_view(fields@)) == Some(token@),
            None => decoded_token(members_view(fields@)) is None,
        },
{
    let id = read_optional_text(fields, "id");
    let kind = read_text(fields, "kind");
    let x = read_i16(fields, "x");
    let y = read_i16(fields, "y");
    let colour = read_text(fields, "colour");
    let controller = read_optional_text(fields, "controller");
    match (id, kind, x, y, colour, controller) {
        (Some(id), Some(kind), Some(x), Some(y), Some(colour), Some(controller)) => Some(
            Token { id, kind, x, y, colour, controller },
        ),
        _ => None,
    }
}

/// Reads a placed object out of a set of fields.
fn decode_obj(fields: &Vec<(String, Json)>) -> (r: Option<PlacedObj>)
    ensures
        match r {
            Some(obj) => decoded_obj(members_view(fields@)) == Some(obj@),
            None => decoded_obj(members_view(fields@)) is None,
        },
{
    let id = read_optional_text(fields, "id");
    let obj_id = read_i32(fields, "objId");
    let x = read_i16(fields, "x");
    let y = read_i16(fields, "y");
    let controller = read_optional_text(fields, "controller");
    match (id, obj_id, x, y, controller) {
        (Some(id), Some(obj_id), Some(x), Some(y), Some(controller)) => Some(
            PlacedObj { id, obj_id, x, y, controller },
        ),
        _ => None,
    }
}

/// Reads the message of kind `tag` out of a set of fields.
fn decode_body(tag: &str, fields: &Vec<(String, Json)>) -> (r: Option<ProtocolMessage>)
    ensures
        opt_message(r) == decoded_body(tag@, members_view(fields@)),
{
    if same_text(tag, "PlaceToken") {
        match decode_token(fields) {
            Some(token) => Some(ProtocolMessage::PlaceToken(token)),
            None => None,
        }
    } else if same_text(tag, "DeleteToken") {
        match read_text(fields, "tokenId") {
            Some(token_id) => Some(ProtocolMessage::DeleteToken { token_id }),
            None => None,
        }
    } else if same_text(tag, "Movement") {
        let id = read_text(fields, "id");
        let token_id = read_text(fields, "tokenId");
        let dx = read_i16(fields, "dx");
        let dy = read_i16(fields, "dy");
        match (id, token_id, dx, dy) {
            (Some(id), Some(token_id), Some(dx), Some(dy)) => Some(
                ProtocolMessage::Movement { id, token_id, dx, dy },
            ),
            _ => None,
        }
    } else if same_text(tag, "PlaceObj") {
        match decode_obj(fields) {
            Some(obj) => Some(ProtocolMessage::PlaceObj(obj)),
            None => None,
        }
    } else if same_text(tag, "DeleteObj") {
        match read_text(fields, "id") {
            Some(id) => Some(ProtocolMessage::DeleteObj { id }),
            None => None,
        }
    } else if same_text(tag, "SetController") {
        let token_id = read_text(fields, "tokenId");
        let new_controller = read_text(fields, "newController");
        match (token_id, new_controller) {
            (Some(token_id), Some(new_controller)) => Some(
                ProtocolMessage::SetController { token_id, new_controller },
            ),
            _ => None,
        }
    } else if same_text(tag, "Connect") {
        let username = read_text(fields, "username");
        let host = read_bool(fields, "host");
        let host_id = read_i32(fields, "hostId");
        match (username, host, host_id) {
            (Some(username), Some(host), Some(host_id)) => Some(
                ProtocolMessage::Connect { username, host, host_id },
            ),
            _ => None,
        }
    } else if same_text(tag, "Disconnect") {
        match read_text(fields, "username") {
            Some(username) => Some(ProtocolMessage::Disconnect { username }),
            None => None,
        }
    } else if same_text(tag, "FailedConnection") {
        match read_text(fields, "reason") {
            Some(reason) => Some(ProtocolMessage::FailedConnection { reason }),
            None => None,
        }
    } else {
        None
    }
}

/// Reads a message out of a document: the message that [`decoded`] gives,
/// `None` where it gives none.
pub fn decode_message(j: &Json) -> (r: Option<ProtocolMessage>)
    ensures
        opt_message(r) == decoded(j@),
{
    match j {
        Json::Object(members) => {
            proof {
                lemma_object_tree(*j);
            }
            if members.len() == 1 {
                match &members[0].1 {
                    Json::Object(fields) => {
                        proof {
                            lemma_object_tree(members[0].1);
                        }
                        decode_body(members[0].0.as_str(), fields)
                    },
                    _ => None,
                }
            } else {
                None
            }
        },
        _ => None,
    }
}

/// A member of an object.
fn field(name: &str, value: Json) -> (r: (String, Json))
    ensures
        r.0@ == name@,
        r.1@ == value@,
{
    (String::from_str(name), value)
}

/// A text as a document.
fn text_json(s: &String) -> (j: Json)
    ensures
        j@ == JsonView::Text(s@),
{
    Json::Text(s.clone())
}

/// An optional text as a document.
fn optional_text_json(o: &Option<String>) -> (j: Json)
    ensures
        j@ == optional_text(opt_text(*o)),
{
    match o {
        Some(s) => Json::Text(s.clone()),
        None => Json::Null,
    }
}

/// The document of a message of kind `tag` with the given fields.
fn tagged_json(tag: &str, fields: Vec<(String, Json)>) -> (j: Json)
    ensures
        j@ == tagged(tag@, members_view(fields@)),
{
    let body = Json::Object(fields);
    proof {
        lemma_object_tree(body);
    }
    let mut members: Vec<(String, Json)> = Vec::new();
    members.push(field(tag, body));
    let j = Json::Object(members);
    proof {
        lemma_object_tree(j);
        assert(members_view(members@) =~= seq![(tag@, body@)]);
    }
    j
}

/// The fields of a token.
fn token_json(token: &Token) -> (fields: Vec<(String, Json)>)
    ensures
        members_view(fields@) == token_fields(token@),
{
    let mut fields: Vec<(String, Json)> = Vec::new();
    fields.push(field("id", optional_text_json(&token.id)));
    fields.push(field("kind", text_json(&token.kind)));
    fields.push(field("x", Json::Int(token.x as i64)));
    fields.push(field("y", Json::Int(token.y as i64)));
    fields.push(field("colour", text_json(&token.colour)));
    fields.push(field("controller", optional_text_json(&token.controller)));
    assert(members_view(fields@) =~= token_fields(token@));
    fields
}

/// The fields of a placed object.
fn obj_json(obj: &PlacedObj) -> (fields: Vec<(String, Json)>)
    ensures
        members_view(fields@) == obj_fields(obj@),
{
    let mut fields: Vec<(String, Json)> = Vec::new();
    fields.push(field("id", optional_text_json(&obj.id)));
    fields.push(field("objId", Json::Int(obj.obj_id as i64)));
    fields.push(field("x", Json::Int(obj.x as i64)));
    fields.push(field("y", Json::Int(obj.y as i64)));
    fields.push(field("controller", optional_text_json(&obj.controller)));
    assert(members_view(fields@) =~= obj_fields(obj@));
    fields
}

/// Writes a message as a document: the one that [`encoded`] gives.
pub fn encode_message(m: &ProtocolMessage) -> (j: Json)
    ensures
        j@ == encoded(m@),
{
    match m {
        ProtocolMessage::PlaceToken(token) => tagged_json("PlaceToken", token_json(token)),
        ProtocolMessage::DeleteToken { token_id } => {
            let mut fields: Vec<(String, Json)> = Vec::new();
            fields.push(field("tokenId", text_json(token_id)));
            assert(members_view(fields@) =~= seq![("tokenId"@, JsonView::Text(token_id@))]);
            tagged_json("DeleteToken", fields)
        },
        ProtocolMessage::Movement { id, token_id, dx, dy } => {
            let mut fields: Vec<(String, Json)> = Vec::new();
            fields.push(field("id", text_json(id)));
            fields.push(field("tokenId", text_json(token_id)));
            fields.push(field("dx", Json::Int(*dx as i64)));
            fields.push(field("dy", Json::Int(*dy as i64)));
            assert(members_view(fields@) =~= seq![
                ("id"@, JsonView::Text(id@)),
                ("tokenId"@, JsonView::Text(token_id@)),
                ("dx"@, JsonView::Int(*dx as i64)),
                ("dy"@, JsonView::Int(*dy as i64)),
            ]);
            tagged_json("Movement", fields)
        },
        ProtocolMessage::PlaceObj(obj) => tagged_json("PlaceObj", obj_json(obj)),
        ProtocolMessage::DeleteObj { id } => {
            let mut fields: Vec<(String, Json)> = Vec::new();
            fields.push(field("id", text_json(id)));
            assert(members_view(fields@) =~= seq![("id"@, JsonView::Text(id@))]);
            tagged_json("DeleteObj", fields)
        },
        ProtocolMessage::SetController { token_id, new_controller } => {
            let mut fields: Vec<(String, Json)> = Vec::new();
            fields.push(field("tokenId", text_json(token_id)));
            fields.push(field("newController", text_json(new_controller)));
            assert(members_view(fields@) =~= seq![
                ("tokenId"@, JsonView::Text(token_id@)),
                ("newController"@, JsonView::Text(new_controller@)),
            ]);
            tagged_json("SetController", fields)
        },
        ProtocolMessage::Connect { username, host, host_id } => {
            let mut fields: Vec<(String, Json)> = Vec::new();
            fields.push(field("username", text_json(username)));
            fields.push(field("host", Json::Bool(*host)));
            fields.push(field("hostId", Json::Int(*host_id as i64)));
            assert(members_view(fields@) =~= seq![
                ("username"@, JsonView::Text(username@)),
                ("host"@, JsonView::Bool(*host)),
                ("hostId"@, JsonView::Int(*host_id as i64)),
            ]);
            tagged_json("Connect", fields)
        },
        ProtocolMessage::Disconnect { username } => {
            let mut fields: Vec<(String, Json)> = Vec::new();
            fields.push(field("username", text_json(username)));
            assert(members_view(fields@) =~= seq![("username"@, JsonView::Text(username@))]);
            tagged_json("Disconnect", fields)
        },
        ProtocolMessage::FailedConnection { reason } => {
            let mut fields: Vec<(String, Json)> = Vec::new();
            fields.push(field("reason", text_json(reason)));
            assert(members_view(fields@) =~= seq![("reason"@, JsonView::Text(reason@))]);
            tagged_json("FailedConnection", fields)
        },
    }
}

impl ProtocolMessage {
    /// The text that carries this message.
    pub fn to_string(&self) -> (text: String)
        ensures
            text@ == wire_text(self@),
    {
        write_json(&encode_message(self))
    }

    /// The message that a text carries; `None` where the text is no JSON
    /// document or the document describes no message.
    pub fn from_text(text: &str) -> (r: Option<ProtocolMessage>)
        ensures
            opt_message(r) == wire_message(text@),
    {
        match read_json(text) {
            Some(j) => decode_message(&j),
            None => None,
        }
    }
}

/// What is known of the names of the kinds and of the fields: no two of
/// them that one message uses are the same.
proof fn lemma_names_differ()
    ensures
        "PlaceToken"@ != "DeleteToken"@,
        "PlaceToken"@ != "Movement"@,
        "PlaceToken"@ != "PlaceObj"@,
        "PlaceToken"@ != "DeleteObj"@,
        "PlaceToken"@ != "SetController"@,
        "PlaceToken"@ != "Connect"@,
        "PlaceToken"@ != "Disconnect"@,
        "PlaceToken"@ != "FailedConnection"@,
        "DeleteToken"@ != "Movement"@,
        "DeleteToken"@ != "PlaceObj"@,
        "DeleteToken"@ != "DeleteObj"@,
        "DeleteToken"@ != "SetController"@,
        "DeleteToken"@ != "Connect"@,
        "DeleteToken"@ != "Disconnect"@,
        "DeleteToken"@ != "FailedConnection"@,
        "Movement"@ != "PlaceObj"@,
        "Movement"@ != "DeleteObj"@,
        "Movement"@ != "SetController"@,
        "Movement"@ != "Connect"@,
        "Movement"@ != "Disconnect"@,
        "Movement"@ != "FailedConnection"@,
        "PlaceObj"@ != "DeleteObj"@,
        "PlaceObj"@ != "SetController"@,
        "PlaceObj"@ != "Connect"@,
        "PlaceObj"@ != "Disconnect"@,
        "PlaceObj"@ != "FailedConnection"@,
        "DeleteObj"@ != "SetController"@,
        "DeleteObj"@ != "Connect"@,
        "DeleteObj"@ != "Disconnect"@,
        "DeleteObj"@ != "FailedConnection"@,
        "SetController"@ != "Connect"@,
        "SetController"@ != "Disconnect"@,
        "SetController"@ != "FailedConnection"@,
        "Connect"@ != "Disconnect"@,
        "Connect"@ != "FailedConnection"@,
        "Disconnect"@ != "FailedConnection"@,
        "id"@ != "kind"@,
        "id"@ != "x"@,
        "id"@ != "y"@,
        "id"@ != "colour"@,
        "id"@ != "controller"@,
        "id"@ != "objId"@,
        "id"@ != "tokenId"@,
        "id"@ != "dx"@,
        "id"@ != "dy"@,
        "kind"@ != "x"@,
        "kind"@ != "y"@,
        "kind"@ != "colour"@,
        "kind"@ != "controller"@,
        "x"@ != "y"@,
        "x"@ != "colour"@,
        "x"@ != "controller"@,
        "x"@ != "objId"@,
        "y"@ != "colour"@,
        "y"@ != "controller"@,
        "y"@ != "objId"@,
        "colour"@ != "controller"@,
        "objId"@ != "controller"@,
        "tokenId"@ != "dx"@,
        "tokenId"@ != "dy"@,
        "tokenId"@ != "newController"@,
        "dx"@ != "dy"@,
        "username"@ != "host"@,
        "username"@ != "hostId"@,
        "host"@ != "hostId"@,
{
    reveal_strlit("PlaceToken");
    reveal_strlit("DeleteToken");
    reveal_strlit("Movement");
    reveal_strlit("PlaceObj");
    reveal_strlit("DeleteObj");
    reveal_strlit("SetController");
    reveal_strlit("Connect");
    reveal_strlit("Disconnect");
    reveal_strlit("FailedConnection");
    reveal_strlit("id");
    reveal_strlit("kind");
    reveal_strlit("x");
    reveal_strlit("y");
    reveal_strlit("colour");
    reveal_strlit("controller");
    reveal_strlit("objId");
    reveal_strlit("tokenId");
    reveal_strlit("newController");
    reveal_strlit("dx");
    reveal_strlit("dy");
    reveal_strlit("username");
    reveal_strlit("host");
    reveal_strlit("hostId");
    assert("PlaceToken"@.len() == 10);
    assert("DeleteToken"@.len() == 11);
    assert("Movement"@.len() == 8);
    assert("PlaceObj"@.len() == 8);
    assert("DeleteObj"@.len() == 9);
    assert("SetController"@.len() == 13);
    assert("Connect"@.len() == 7);
    assert("Disconnect"@.len() == 10);
    assert("FailedConnection"@.len() == 16);
    assert("id"@.len() == 2);
    assert("kind"@.len() == 4);
    assert("x"@.len() == 1);
    assert("y"@.len() == 1);
    assert("colour"@.len() == 6);
    assert("controller"@.len() == 10);
    assert("objId"@.len() == 5);
    assert("tokenId"@.len() == 7);
    assert("newController"@.len() == 13);
    assert("dx"@.len() == 2);
    assert("dy"@.len() == 2);
    assert("username"@.len() == 8);
    assert("host"@.len() == 4);
    assert("hostId"@.len() == 6);
    assert("PlaceToken"@[0] != "Disconnect"@[0]);
    assert("Movement"@[0] != "PlaceObj"@[0]);
    assert("x"@[0] != "y"@[0]);
    assert("id"@[0] != "dx"@[0]);
    assert("id"@[0] != "dy"@[0]);
    assert("dx"@[1] != "dy"@[1]);
}

/// A member is found under its name after members of other names.
proof fn lemma_member_at(members: Seq<(Seq<char>, JsonView)>, name: Seq<char>, at: int)
    requires
        0 <= at < members.len(),
        members[at].0 == name,
        forall|i: int| 0 <= i < at ==> (#[trigger] members[i]).0 != name,
    ensures
        member(members, name) == Some(members[at].1),
    decreases at,
{
    if at > 0 {
        let rest = members.drop_first();
        assert(rest[at - 1] == members[at]);
        assert forall|i: int| 0 <= i < at - 1 implies (#[trigger] rest[i]).0 != name by {
            assert(rest[i] == members[i + 1]);
        }
        lemma_member_at(rest, name, at - 1);
    }
}

/// Reading a document that was written for a message gives the message
/// back.
pub proof fn law_decode_after_encode(m: MessageView)
    ensures
        decoded(encoded(m)) == Some(m),
{
    lemma_names_differ();
    match m {
        MessageView::PlaceToken(token) => {
            let fields = token_fields(token);
            lemma_member_at(fields, "id"@, 0);
            lemma_member_at(fields, "kind"@, 1);
            lemma_member_at(fields, "x"@, 2);
            lemma_member_at(fields, "y"@, 3);
            lemma_member_at(fields, "colour"@, 4);
            lemma_member_at(fields, "controller"@, 5);
            assert(decoded_token(fields) == Some(token));
        },
        MessageView::DeleteToken { token_id } => {
            lemma_member_at(seq![("tokenId"@, JsonView::Text(token_id))], "tokenId"@, 0);
        },
        MessageView::Movement { id, token_id, dx, dy } => {
            let fields = seq![
                ("id"@, JsonView::Text(id)),
                ("tokenId"@, JsonView::Text(token_id)),
                ("dx"@, JsonView::Int(dx as i64)),
                ("dy"@, JsonView::Int(dy as i64)),
            ];
            lemma_member_at(fields, "id"@, 0);
            lemma_member_at(fields, "tokenId"@, 1);
            lemma_member_at(fields, "dx"@, 2);
            lemma_member_at(fields, "dy"@, 3);
        },
        MessageView::PlaceObj(obj) => {
            let fields = obj_fields(obj);
            lemma_member_at(fields, "id"@, 0);
            lemma_member_at(fields, "objId"@, 1);
            lemma_member_at(fields, "x"@, 2);
            lemma_member_at(fields, "y"@, 3);
            lemma_member_at(fields, "controller"@, 4);
            assert(decoded_obj(fields) == Some(obj));
        },
        MessageView::DeleteObj { id } => {
            lemma_member_at(seq![("id"@, JsonView::Text(id))], "id"@, 0);
        },
        MessageView::SetController { token_id, new_controller } => {
            let fields = seq![
                ("tokenId"@, JsonView::Text(token_id)),
                ("newController"@, JsonView::Text(new_controller)),
            ];
            lemma_member_at(fields, "tokenId"@, 0);
            lemma_member_at(fields, "newController"@, 1);
        },
        MessageView::Connect { username, host, host_id } => {
            let fields = seq![
                ("username"@, JsonView::Text(username)),
                ("host"@, JsonView::Bool(host)),
                ("hostId"@, JsonView::Int(host_id as i64)),
            ];
            lemma_member_at(fields, "username"@, 0);
            lemma_member_at(fields, "host"@, 1);
            lemma_member_at(fields, "hostId"@, 2);
        },
        MessageView::Disconnect { username } => {
            lemma_member_at(seq![("username"@, JsonView::Text(username))], "username"@, 0);
        },
        MessageView::FailedConnection { reason } => {
            lemma_member_at(seq![("reason"@, JsonView::Text(reason))], "reason"@, 0);
        },
    }
}

} // verus!
