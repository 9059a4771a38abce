use rolecall::game::protocol::{PlacedObj, ProtocolMessage, Token};
use rolecall::json::{read_json, write_json, Json};

fn orc() -> Token {
    Token {
        id: Some("0".to_string()),
        kind: "orc".to_string(),
        x: 1,
        y: 1,
        colour: "red".to_string(),
        controller: Some("H".to_string()),
    }
}

fn all_kinds() -> Vec<ProtocolMessage> {
    vec![
        ProtocolMessage::PlaceToken(orc()),
        ProtocolMessage::PlaceToken(Token { id: None, controller: None, ..orc() }),
        ProtocolMessage::DeleteToken { token_id: "3".to_string() },
        ProtocolMessage::Movement {
            id: "m".to_string(),
            token_id: "0".to_string(),
            dx: -32768,
            dy: 32767,
        },
        ProtocolMessage::PlaceObj(PlacedObj {
            id: Some("2".to_string()),
            obj_id: -2147483648,
            x: 4,
            y: 5,
            controller: Some("H".to_string()),
        }),
        ProtocolMessage::PlaceObj(PlacedObj { id: None, obj_id: 9, x: 4, y: 5, controller: None }),
        ProtocolMessage::DeleteObj { id: "2".to_string() },
        ProtocolMessage::SetController {
            token_id: "0".to_string(),
            new_controller: "P#0001".to_string(),
        },
        ProtocolMessage::Connect { username: "H".to_string(), host: true, host_id: 2147483647 },
        ProtocolMessage::Disconnect { username: "quote\" and \\ and \n".to_string() },
        ProtocolMessage::FailedConnection { reason: "user already connected".to_string() },
    ]
}

#[test]
fn place_token_text() {
    assert_eq!(
        ProtocolMessage::PlaceToken(orc()).to_string(),
        r#"{"PlaceToken":{"colour":"red","controller":"H","id":"0","kind":"orc","x":1,"y":1}}"#
    );
}

#[test]
fn draft_token_text_has_nulls() {
    let draft = Token { id: None, controller: None, ..orc() };
    assert_eq!(
        ProtocolMessage::PlaceToken(draft).to_string(),
        r#"{"PlaceToken":{"colour":"red","controller":null,"id":null,"kind":"orc","x":1,"y":1}}"#
    );
}

#[test]
fn texts_of_the_other_kinds() {
    assert_eq!(
        ProtocolMessage::DeleteToken { token_id: "3".to_string() }.to_string(),
        r#"{"DeleteToken":{"tokenId":"3"}}"#
    );
    assert_eq!(
        ProtocolMessage::Movement {
            id: "m".to_string(),
            token_id: "0".to_string(),
            dx: 1,
            dy: -1
        }
        .to_string(),
        r#"{"Movement":{"dx":1,"dy":-1,"id":"m","tokenId":"0"}}"#
    );
    assert_eq!(
        ProtocolMessage::PlaceObj(PlacedObj {
            id: Some("0".to_string()),
            obj_id: 12,
            x: 3,
            y: 4,
            controller: Some("H".to_string()),
        })
        .to_string(),
        r#"{"PlaceObj":{"controller":"H","id":"0","objId":12,"x":3,"y":4}}"#
    );
    assert_eq!(
        ProtocolMessage::DeleteObj { id: "0".to_string() }.to_string(),
        r#"{"DeleteObj":{"id":"0"}}"#
    );
    assert_eq!(
        ProtocolMessage::SetController {
            token_id: "0".to_string(),
            new_controller: "P".to_string()
        }
        .to_string(),
        r#"{"SetController":{"newController":"P","tokenId":"0"}}"#
    );
    assert_eq!(
        ProtocolMessage::Connect { username: "H".to_string(), host: true, host_id: 7 }.to_string(),
        r#"{"Connect":{"host":true,"hostId":7,"username":"H"}}"#
    );
    assert_eq!(
        ProtocolMessage::Disconnect { username: "H".to_string() }.to_string(),
        r#"{"Disconnect":{"username":"H"}}"#
    );
    assert_eq!(
        ProtocolMessage::FailedConnection { reason: "could not find game".to_string() }
            .to_string(),
        r#"{"FailedConnection":{"reason":"could not find game"}}"#
    );
}

#[test]
fn reading_a_written_message_gives_it_back() {
    for message in all_kinds() {
        let text = message.to_string();
        assert_eq!(ProtocolMessage::from_text(&text), Some(message));
    }
}

#[test]
fn a_client_draft_is_read() {
    let text = r#"{"PlaceToken":{"kind":"orc","x":1,"y":1,"colour":"red"}}"#;
    assert_eq!(
        ProtocolMessage::from_text(text),
        Some(ProtocolMessage::PlaceToken(Token { id: None, controller: None, ..orc() }))
    );
    let text = r#" { "PlaceObj" : { "objId" : 3, "x" : 0, "y" : -1 } } "#;
    assert_eq!(
        ProtocolMessage::from_text(text),
        Some(ProtocolMessage::PlaceObj(PlacedObj {
            id: None,
            obj_id: 3,
            x: 0,
            y: -1,
            controller: None
        }))
    );
}

#[test]
fn unknown_members_are_passed_over() {
    let text = r#"{"DeleteToken":{"tokenId":"3","why":["a",{"b":null}],"n":12,"f":1.5,"u":1e99}}"#;
    assert_eq!(
        ProtocolMessage::from_text(text),
        Some(ProtocolMessage::DeleteToken { token_id: "3".to_string() })
    );
}

#[test]
fn frames_that_carry_no_message() {
    let bad = [
        "",
        "hello",
        "{",
        "null",
        "[]",
        "\"PlaceToken\"",
        "{}",
        r#"{"Nonsense":{}}"#,
        r#"{"placetoken":{"kind":"orc","x":1,"y":1,"colour":"red"}}"#,
        r#"{"DeleteToken":"3"}"#,
        r#"{"DeleteToken":{}}"#,
        r#"{"DeleteToken":{"tokenId":3}}"#,
        r#"{"DeleteToken":{"tokenId":null}}"#,
        r#"{"DeleteToken":{"token_id":"3"}}"#,
        r#"{"DeleteToken":{"tokenId":"3"},"Disconnect":{"username":"H"}}"#,
        r#"{"PlaceToken":{"kind":"orc","x":1,"y":1}}"#,
        r#"{"PlaceToken":{"kind":"orc","x":"1","y":1,"colour":"red"}}"#,
        r#"{"PlaceToken":{"kind":"orc","x":1,"y":1,"colour":"red","id":7}}"#,
        r#"{"PlaceToken":{"kind":"orc","x":32768,"y":1,"colour":"red"}}"#,
        r#"{"PlaceToken":{"kind":"orc","x":1,"y":-32769,"colour":"red"}}"#,
        r#"{"PlaceToken":{"kind":"orc","x":1.5,"y":1,"colour":"red"}}"#,
        r#"{"PlaceObj":{"objId":2147483648,"x":1,"y":1}}"#,
        r#"{"Connect":{"username":"H","host":1,"hostId":7}}"#,
        r#"{"Movement":{"id":"m","tokenId":"0","dx":1}}"#,
    ];
    for text in bad {
        assert_eq!(ProtocolMessage::from_text(text), None, "{}", text);
    }
}

#[test]
fn numbers_at_the_ends_of_their_ranges() {
    let text = r#"{"Movement":{"id":"m","tokenId":"0","dx":-32768,"dy":32767}}"#;
    assert_eq!(
        ProtocolMessage::from_text(text),
        Some(ProtocolMessage::Movement {
            id: "m".to_string(),
            token_id: "0".to_string(),
            dx: i16::MIN,
            dy: i16::MAX
        })
    );
}

#[test]
fn json_documents_are_read_as_trees() {
    match read_json(r#"{"b":[1,true,null,"x"],"a":{"n":-9223372036854775808}}"#) {
        Some(Json::Object(members)) => {
            assert_eq!(members.len(), 2);
            assert_eq!(members[0].0, "a");
            assert!(matches!(&members[0].1, Json::Object(inner)
                if inner.len() == 1 && matches!(inner[0].1, Json::Int(i64::MIN))));
            assert_eq!(members[1].0, "b");
            match &members[1].1 {
                Json::List(items) => {
                    assert_eq!(items.len(), 4);
                    assert!(matches!(items[0], Json::Int(1)));
                    assert!(matches!(items[1], Json::Bool(true)));
                    assert!(matches!(items[2], Json::Null));
                    assert!(matches!(&items[3], Json::Text(s) if s == "x"));
                },
                other => panic!("unexpected {:?}", other),
            }
        },
        other => panic!("unexpected {:?}", other),
    }
    assert!(read_json("{\"a\":").is_none());
    assert!(read_json("1 2").is_none());
}

#[test]
fn numbers_that_are_no_i64_are_carried() {
    match read_json("18446744073709551615") {
        Some(Json::Other(n)) => assert_eq!(n.as_u64(), Some(u64::MAX)),
        other => panic!("unexpected {:?}", other),
    }
    match read_json("[1, 2.5, -9223372036854775808, 9223372036854775808]") {
        Some(Json::List(items)) => {
            assert!(matches!(items[0], Json::Int(1)));
            assert!(matches!(&items[1], Json::Other(n) if n.as_i64().is_none()));
            assert!(matches!(items[2], Json::Int(i64::MIN)));
            assert!(matches!(&items[3], Json::Other(n) if n.as_u64() == Some(1 << 63)));
        },
        other => panic!("unexpected {:?}", other),
    }
    let text = "{\"big\":18446744073709551615,\"half\":0.5,\"n\":7}";
    let tree = read_json(text).expect("a document");
    assert_eq!(write_json(&tree), text);
}

#[test]
fn json_trees_are_written_compactly() {
    let tree = Json::Object(vec![
        ("z".to_string(), Json::List(vec![Json::Int(-3), Json::Null, Json::Bool(false)])),
        ("a".to_string(), Json::Text("tab\there".to_string())),
    ]);
    assert_eq!(write_json(&tree), r#"{"a":"tab\there","z":[-3,null,false]}"#);
    assert_eq!(write_json(&Json::Text("x".to_string())), "\"x\"");
}
