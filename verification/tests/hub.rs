use std::sync::mpsc::{sync_channel, Receiver, SyncSender};

use rolecall::game::conn::GameError;
use rolecall::game::protocol::{ProtocolMessage, Token};
use rolecall::game::server::{
    connect_to_server,
    server_monitor,
    Dispatch,
    Joined,
    Registry,
    Server,
    UserInfo,
    QUEUE_BOUND,
};

fn user(name: &str, is_host: bool, id: i32) -> UserInfo {
    UserInfo { token: format!("token-of-{}", name), username: name.to_string(), is_host, id }
}

fn queue() -> (SyncSender<String>, Receiver<String>) {
    sync_channel(100)
}

fn drain(rx: &Receiver<String>) -> Vec<String> {
    let mut texts = Vec::new();
    while let Ok(text) = rx.try_recv() {
        texts.push(text);
    }
    texts
}

fn place_text(kind: &str, x: i16, y: i16) -> String {
    format!(r#"{{"PlaceToken":{{"kind":"{}","x":{},"y":{},"colour":"red"}}}}"#, kind, x, y)
}

fn connect_text(name: &str, host: bool, host_id: i32) -> String {
    ProtocolMessage::Connect { username: name.to_string(), host, host_id }.to_string()
}

fn names(out: &Dispatch) -> Vec<String> {
    match out {
        Dispatch::Broadcast { sent, .. } => {
            let mut names: Vec<String> = sent.iter().map(|d| d.username.clone()).collect();
            names.sort();
            names
        },
        other => panic!("no broadcast: {:?}", other),
    }
}

fn join(server: &mut Server, who: &UserInfo) -> (Joined, Receiver<String>) {
    let (tx, rx) = queue();
    let joined = server.add_client(who.clone(), tx).expect("the seat is free");
    (joined, rx)
}

#[test]
fn new_room_is_empty_and_idle() {
    let server = Server::new(user("H", true, 7), "abc123".to_string(), 1_000);
    assert_eq!(server.game_token(), "abc123");
    assert_eq!(server.client_count(), 0);
    assert_eq!(server.idle_since(), Some(1_000));
    assert!(server.state().replay().is_empty());
    assert!(!server.has_client(&user("H", true, 7)));
}

#[test]
fn first_client_is_announced_to_itself() {
    let h = user("H", true, 7);
    let mut server = Server::new(h.clone(), "abc123".to_string(), 0);
    let (joined, rx) = join(&mut server, &h);
    assert!(joined.present.is_empty());
    assert!(joined.greeting.is_empty());
    assert_eq!(names(&joined.announcement), vec!["H".to_string()]);
    assert_eq!(drain(&rx), vec![connect_text("H", true, 7)]);
    assert!(server.has_client(&h));
    assert_eq!(server.client_count(), 1);
    assert_eq!(server.idle_since(), None);
}

#[test]
fn second_join_under_a_name_is_refused_until_the_first_leaves() {
    let h = user("H", true, 7);
    let mut server = Server::new(h.clone(), "abc123".to_string(), 0);
    let (_, rx) = join(&mut server, &h);
    drain(&rx);

    // the same seat under a fresh token
    let again = UserInfo { token: "another-token".to_string(), ..h.clone() };
    let (tx2, rx2) = queue();
    match server.add_client(again.clone(), tx2) {
        Err(GameError::AlreadyConnected) => {},
        other => panic!("unexpected {:?}", other),
    }
    assert_eq!(server.client_count(), 1);
    assert!(drain(&rx).is_empty());
    assert!(drain(&rx2).is_empty());

    server.close_client(h.clone(), 5);
    assert!(!server.has_client(&h));
    let (tx3, rx3) = queue();
    assert!(server.add_client(again, tx3).is_ok());
    assert_eq!(drain(&rx3), vec![connect_text("H", true, 7)]);
}

#[test]
fn seats_hold_their_own_queues() {
    let h = user("H", true, 7);
    let p = user("P", false, 8);
    let mut server = Server::new(h.clone(), "abc123".to_string(), 0);
    let (_, rx_h) = join(&mut server, &h);
    let (_, rx_p) = join(&mut server, &p);
    drain(&rx_h);
    drain(&rx_p);

    // a refused join changes nobody's queue and is offered nothing
    let (tx_again, rx_again) = queue();
    assert!(server.add_client(p.clone(), tx_again).is_err());
    let first = server.recv(&place_text("orc", 1, 1), &h);
    let first = match first {
        Dispatch::Broadcast { text, .. } => text,
        other => panic!("unexpected {:?}", other),
    };
    assert_eq!(drain(&rx_h), vec![first.clone()]);
    assert_eq!(drain(&rx_p), vec![first]);
    assert!(drain(&rx_again).is_empty());

    // who stays after a leave keeps its queue; the queue of who left gets no more
    server.close_client(p.clone(), 10);
    let word = ProtocolMessage::Disconnect { username: "P".to_string() }.to_string();
    assert_eq!(drain(&rx_h), vec![word]);
    assert!(drain(&rx_p).is_empty());

    // who comes back sits on the queue it came back with
    let (tx_back, rx_back) = queue();
    assert!(server.add_client(p.clone(), tx_back).is_ok());
    drain(&rx_h);
    drain(&rx_back);
    let second = match server.recv(&place_text("elf", 2, 2), &h) {
        Dispatch::Broadcast { text, .. } => text,
        other => panic!("unexpected {:?}", other),
    };
    assert_eq!(drain(&rx_h), vec![second.clone()]);
    assert_eq!(drain(&rx_back), vec![second]);
    assert!(drain(&rx_p).is_empty());
    assert!(drain(&rx_again).is_empty());
}

#[test]
fn newcomer_is_told_of_clients_and_board() {
    let h = user("H", true, 7);
    let p = user("P", false, 8);
    let q = user("Q", false, 9);
    let mut server = Server::new(h.clone(), "abc123".to_string(), 0);
    let (_, rx_h) = join(&mut server, &h);
    let (_, rx_p) = join(&mut server, &p);
    server.recv(&place_text("orc", 1, 1), &h);
    server.recv(&place_text("elf", 2, 1), &h);
    server.recv(r#"{"PlaceObj":{"objId":4,"x":0,"y":0}}"#, &h);
    drain(&rx_h);
    drain(&rx_p);

    let (joined, rx_q) = join(&mut server, &q);
    let mut present: Vec<String> = joined.present.iter().map(|u| u.username.clone()).collect();
    present.sort();
    assert_eq!(present, vec!["H".to_string(), "P".to_string()]);
    assert_eq!(joined.greeting.len(), 5);
    assert!(joined.greeting.iter().all(|offer| offer.delivered));

    let got = drain(&rx_q);
    assert_eq!(got.len(), 6);
    let offered: Vec<String> = joined.greeting.iter().map(|offer| offer.text.clone()).collect();
    assert_eq!(&got[..5], &offered[..]);
    let mut told = vec![got[0].clone(), got[1].clone()];
    told.sort();
    let mut expected = vec![connect_text("H", true, 7), connect_text("P", false, 7)];
    expected.sort();
    assert_eq!(told, expected);
    let replay: Vec<String> = server.state().replay().iter().map(|m| m.to_string()).collect();
    assert_eq!(replay.len(), 3);
    assert_eq!(&got[2..5], &replay[..]);
    assert_eq!(got[5], connect_text("Q", false, 7));

    assert_eq!(drain(&rx_h), vec![connect_text("Q", false, 7)]);
    assert_eq!(drain(&rx_p), vec![connect_text("Q", false, 7)]);
    assert_eq!(
        names(&joined.announcement),
        vec!["H".to_string(), "P".to_string(), "Q".to_string()]
    );
}

#[test]
fn accepted_command_reaches_every_client() {
    let h = user("H", true, 7);
    let p = user("P", false, 8);
    let mut server = Server::new(h.clone(), "abc123".to_string(), 0);
    let (_, rx_h) = join(&mut server, &h);
    let (_, rx_p) = join(&mut server, &p);
    drain(&rx_h);
    drain(&rx_p);

    let out = server.recv(&place_text("orc", 1, 1), &h);
    let stamped = ProtocolMessage::PlaceToken(Token {
        id: Some("0".to_string()),
        kind: "orc".to_string(),
        x: 1,
        y: 1,
        colour: "red".to_string(),
        controller: Some("H".to_string()),
    })
    .to_string();
    match &out {
        Dispatch::Broadcast { text, sent } => {
            assert_eq!(text, &stamped);
            assert!(sent.iter().all(|d| d.delivered));
        },
        other => panic!("unexpected {:?}", other),
    }
    assert_eq!(names(&out), vec!["H".to_string(), "P".to_string()]);
    assert_eq!(drain(&rx_h), vec![stamped.clone()]);
    assert_eq!(drain(&rx_p), vec![stamped]);
}

#[test]
fn refused_placement_reaches_nobody() {
    let h = user("H", true, 7);
    let mut server = Server::new(h.clone(), "abc123".to_string(), 0);
    let (_, rx_h) = join(&mut server, &h);
    server.recv(&place_text("orc", 1, 1), &h);
    drain(&rx_h);
    let before = server.state().replay();

    let out = server.recv(&place_text("elf", 1, 1), &h);
    assert!(matches!(out, Dispatch::Rejected));
    assert!(drain(&rx_h).is_empty());
    assert_eq!(server.state().replay(), before);
}

#[test]
fn malformed_frame_reaches_nobody() {
    let h = user("H", true, 7);
    let mut server = Server::new(h.clone(), "abc123".to_string(), 0);
    let (_, rx_h) = join(&mut server, &h);
    drain(&rx_h);
    assert!(matches!(server.recv("{\"PlaceToken\":", &h), Dispatch::Malformed));
    assert!(matches!(server.recv("", &h), Dispatch::Malformed));
    assert!(drain(&rx_h).is_empty());
    assert!(server.state().replay().is_empty());
    // the connection is still served
    assert!(matches!(server.recv(&place_text("orc", 0, 0), &h), Dispatch::Broadcast { .. }));
}

#[test]
fn players_may_not_edit_the_board() {
    let h = user("H", true, 7);
    let p = user("P", false, 8);
    let mut server = Server::new(h.clone(), "abc123".to_string(), 0);
    let (_, rx_h) = join(&mut server, &h);
    let (_, rx_p) = join(&mut server, &p);
    server.recv(&place_text("orc", 1, 1), &h);
    server.recv(r#"{"PlaceObj":{"objId":4,"x":0,"y":0}}"#, &h);
    drain(&rx_h);
    drain(&rx_p);
    let before = server.state().replay();

    let commands = [
        place_text("elf", 5, 5),
        r#"{"DeleteToken":{"tokenId":"0"}}"#.to_string(),
        r#"{"PlaceObj":{"objId":4,"x":0,"y":0}}"#.to_string(),
        r#"{"DeleteObj":{"id":"0"}}"#.to_string(),
        r#"{"SetController":{"tokenId":"0","newController":"P"}}"#.to_string(),
    ];
    for command in commands {
        assert!(matches!(server.recv(&command, &p), Dispatch::Unauthorised), "{}", command);
    }
    assert!(drain(&rx_h).is_empty());
    assert!(drain(&rx_p).is_empty());
    assert_eq!(server.state().replay(), before);
}

#[test]
fn players_move_only_their_own_tokens() {
    let h = user("H", true, 7);
    let p = user("P", false, 8);
    let mut server = Server::new(h.clone(), "abc123".to_string(), 0);
    let (_, rx_h) = join(&mut server, &h);
    let (_, rx_p) = join(&mut server, &p);
    server.recv(&place_text("orc", 1, 1), &h);
    server.recv(&place_text("elf", 2, 2), &h);
    server.recv(r#"{"SetController":{"tokenId":"1","newController":"P"}}"#, &h);
    drain(&rx_h);
    drain(&rx_p);

    let theirs = r#"{"Movement":{"id":"a","tokenId":"1","dx":1,"dy":1}}"#;
    let not_theirs = r#"{"Movement":{"id":"b","tokenId":"0","dx":1,"dy":1}}"#;
    let missing = r#"{"Movement":{"id":"c","tokenId":"9","dx":1,"dy":1}}"#;
    assert!(matches!(server.recv(not_theirs, &p), Dispatch::Unauthorised));
    assert!(matches!(server.recv(missing, &p), Dispatch::Unauthorised));
    assert!(drain(&rx_h).is_empty());
    assert!(matches!(server.recv(theirs, &p), Dispatch::Broadcast { .. }));
    assert_eq!(drain(&rx_h).len(), 1);
    assert_eq!(drain(&rx_p).len(), 1);
    // the host moves any token, but not one that is not there
    assert!(matches!(server.recv(not_theirs, &h), Dispatch::Broadcast { .. }));
    assert!(matches!(server.recv(missing, &h), Dispatch::Rejected));

    assert!(server.authorised(&ProtocolMessage::Disconnect { username: "x".to_string() }, &p));
    assert!(!server.authorised(&ProtocolMessage::DeleteObj { id: "0".to_string() }, &p));
    assert!(server.authorised(&ProtocolMessage::DeleteObj { id: "0".to_string() }, &h));
}

#[test]
fn leaving_tells_those_who_stay_and_starts_the_clock() {
    let h = user("H", true, 7);
    let p = user("P", false, 8);
    let mut server = Server::new(h.clone(), "abc123".to_string(), 0);
    let (_, rx_h) = join(&mut server, &h);
    let (_, rx_p) = join(&mut server, &p);
    drain(&rx_h);
    drain(&rx_p);

    let out = server.close_client(p.clone(), 50);
    let word = ProtocolMessage::Disconnect { username: "P".to_string() }.to_string();
    assert_eq!(names(&out), vec!["H".to_string()]);
    assert_eq!(drain(&rx_h), vec![word]);
    assert!(drain(&rx_p).is_empty());
    assert_eq!(server.idle_since(), None);

    let out = server.close_client(h.clone(), 60);
    assert!(names(&out).is_empty());
    assert_eq!(server.client_count(), 0);
    assert_eq!(server.idle_since(), Some(60));
    // somebody who is not there leaves: the clock is not started anew
    server.close_client(p, 70);
    assert_eq!(server.idle_since(), Some(60));
}

#[test]
fn a_full_queue_holds_nobody_else_up() {
    let h = user("H", true, 7);
    let p = user("P", false, 8);
    let mut server = Server::new(h.clone(), "abc123".to_string(), 0);
    let (_, rx_h) = join(&mut server, &h);
    let (tx_p, rx_p) = sync_channel(1);
    let joined = server.add_client(p.clone(), tx_p).expect("the seat is free");
    // the one place in P's queue went to word of H; its own announcement was dropped
    assert_eq!(joined.greeting.len(), 1);
    assert!(joined.greeting[0].delivered);
    match &joined.announcement {
        Dispatch::Broadcast { sent, .. } => {
            for delivery in sent {
                assert_eq!(delivery.delivered, delivery.username == "H");
            }
        },
        other => panic!("unexpected {:?}", other),
    }
    drain(&rx_h);
    let out = server.recv(&place_text("orc", 1, 1), &h);
    match &out {
        Dispatch::Broadcast { sent, .. } => {
            assert_eq!(sent.len(), 2);
            for delivery in sent {
                assert_eq!(delivery.delivered, delivery.username == "H");
            }
        },
        other => panic!("unexpected {:?}", other),
    }
    assert_eq!(drain(&rx_h).len(), 1);
    assert_eq!(drain(&rx_p), vec![connect_text("H", true, 7)]);
}

#[test]
fn a_queue_holds_a_hundred_texts() {
    assert_eq!(QUEUE_BOUND, 100);
    let h = user("H", true, 7);
    let mut server = Server::new(h.clone(), "abc123".to_string(), 0);
    let (tx, rx) = sync_channel(QUEUE_BOUND);
    server.add_client(h.clone(), tx).expect("the seat is free");
    // the announcement took the first place
    for i in 1..QUEUE_BOUND {
        let out = server.recv(&place_text("pawn", i as i16, 0), &h);
        assert!(matches!(&out, Dispatch::Broadcast { sent, .. } if sent[0].delivered));
    }
    let out = server.recv(&place_text("pawn", 0, 1), &h);
    assert!(matches!(&out, Dispatch::Broadcast { sent, .. } if !sent[0].delivered));
    // the command was carried out all the same
    assert_eq!(server.state().replay().len(), QUEUE_BOUND);
    assert_eq!(drain(&rx).len(), QUEUE_BOUND);
}

#[test]
fn a_closed_queue_is_skipped() {
    let h = user("H", true, 7);
    let p = user("P", false, 8);
    let mut server = Server::new(h.clone(), "abc123".to_string(), 0);
    let (_, rx_h) = join(&mut server, &h);
    let (_, rx_p) = join(&mut server, &p);
    drop(rx_p);
    drain(&rx_h);
    let out = server.recv(&place_text("orc", 1, 1), &h);
    match &out {
        Dispatch::Broadcast { sent, .. } => {
            for delivery in sent {
                assert_eq!(delivery.delivered, delivery.username == "H");
            }
        },
        other => panic!("unexpected {:?}", other),
    }
    assert_eq!(drain(&rx_h).len(), 1);
    assert_eq!(server.client_count(), 2);
}

#[test]
fn end_to_end() {
    let mut registry = Registry::new();
    let h = user("H", true, 7);
    let p = user("P", false, 8);

    let (tx_h, rx_h) = queue();
    assert!(connect_to_server(&mut registry, h.clone(), "abc123".to_string(), tx_h, 0).is_ok());
    assert_eq!(registry.len(), 1);
    assert_eq!(drain(&rx_h), vec![connect_text("H", true, 7)]);

    let placed = registry.recv("abc123", &place_text("orc", 1, 1), &h);
    let stamped = r#"{"PlaceToken":{"colour":"red","controller":"H","id":"0","kind":"orc","x":1,"y":1}}"#;
    assert!(matches!(&placed, Some(Dispatch::Broadcast { text, .. }) if text == stamped));
    assert_eq!(drain(&rx_h), vec![stamped.to_string()]);

    let (tx_p, rx_p) = queue();
    assert!(connect_to_server(&mut registry, p.clone(), "abc123".to_string(), tx_p, 1).is_ok());
    assert_eq!(registry.len(), 1);
    assert_eq!(
        drain(&rx_p),
        vec![connect_text("H", true, 7), stamped.to_string(), connect_text("P", false, 7)]
    );
    assert_eq!(drain(&rx_h), vec![connect_text("P", false, 7)]);

    let go = r#"{"Movement":{"id":"m","tokenId":"0","dx":1,"dy":0}}"#;
    let moved = registry.recv("abc123", go, &h);
    assert!(matches!(moved, Some(Dispatch::Broadcast { .. })));
    let echoed = ProtocolMessage::Movement {
        id: "m".to_string(),
        token_id: "0".to_string(),
        dx: 1,
        dy: 0,
    }
    .to_string();
    assert_eq!(drain(&rx_h), vec![echoed.clone()]);
    assert_eq!(drain(&rx_p), vec![echoed]);
    let room = registry.room("abc123").expect("the room is open");
    match &room.state().replay()[..] {
        [ProtocolMessage::PlaceToken(token)] => assert_eq!((token.x, token.y), (2, 1)),
        other => panic!("unexpected {:?}", other),
    }

    let refused = registry.recv("abc123", &place_text("orc", 1, 1), &p);
    assert!(matches!(refused, Some(Dispatch::Unauthorised)));
    assert!(drain(&rx_h).is_empty());
    assert!(drain(&rx_p).is_empty());
    assert_eq!(registry.room("abc123").expect("the room is open").state().replay().len(), 1);
}

#[test]
fn rooms_are_apart() {
    let mut registry = Registry::new();
    let h = user("H", true, 7);
    let g = user("G", true, 9);
    let (tx_h, rx_h) = queue();
    let (tx_g, rx_g) = queue();
    connect_to_server(&mut registry, h.clone(), "one".to_string(), tx_h, 0).expect("free");
    connect_to_server(&mut registry, g.clone(), "two".to_string(), tx_g, 0).expect("free");
    assert_eq!(registry.len(), 2);
    drain(&rx_h);
    drain(&rx_g);
    registry.recv("one", &place_text("orc", 1, 1), &h);
    assert_eq!(drain(&rx_h).len(), 1);
    assert!(drain(&rx_g).is_empty());
    assert!(registry.room("two").expect("open").state().replay().is_empty());
    // the same user may sit in both rooms
    let (tx, _rx) = queue();
    assert!(connect_to_server(&mut registry, h.clone(), "two".to_string(), tx, 0).is_ok());
    // but not twice in one
    let (tx, _rx) = queue();
    match connect_to_server(&mut registry, h.clone(), "one".to_string(), tx, 0) {
        Err(GameError::AlreadyConnected) => {},
        other => panic!("unexpected {:?}", other),
    }
    assert_eq!(registry.len(), 2);
}

#[test]
fn the_first_to_join_is_the_rooms_host() {
    let mut registry = Registry::new();
    let p = user("P", false, 8);
    let (tx, rx) = queue();
    connect_to_server(&mut registry, p.clone(), "abc".to_string(), tx, 0).expect("free");
    assert_eq!(drain(&rx), vec![connect_text("P", false, 8)]);
}

#[test]
fn a_room_is_opened_once() {
    let mut registry = Registry::new();
    let h = user("H", true, 7);
    let p = user("P", false, 8);
    assert_eq!(registry.resolve("one".to_string(), &h, 10), 0);
    assert_eq!(registry.resolve("two".to_string(), &p, 20), 1);
    assert_eq!(registry.resolve("one".to_string(), &p, 30), 0);
    assert_eq!(registry.len(), 2);
    let one = registry.room("one").expect("open");
    assert_eq!(one.game_token(), "one");
    assert_eq!(one.idle_since(), Some(10));
    assert_eq!(one.client_count(), 0);
    // the room places under the name of the user it was opened for
    registry.recv("two", &place_text("orc", 1, 1), &h);
    assert_eq!(registry.room("two").expect("open").state().get_owner("0"), Some("P".to_string()));
}

#[test]
fn a_room_that_is_not_open_takes_nothing() {
    let mut registry = Registry::new();
    let h = user("H", true, 7);
    assert!(registry.recv("nowhere", &place_text("orc", 1, 1), &h).is_none());
    assert!(registry.close_client("nowhere", h, 0).is_none());
    assert!(registry.room("nowhere").is_none());
    assert_eq!(registry.len(), 0);
}

#[test]
fn idle_rooms_are_swept() {
    let mut registry = Registry::new();
    let h = user("H", true, 7);
    let g = user("G", true, 9);
    let (tx_h, _rx_h) = queue();
    let (tx_g, _rx_g) = queue();
    connect_to_server(&mut registry, h.clone(), "one".to_string(), tx_h, 0).expect("free");
    connect_to_server(&mut registry, g.clone(), "two".to_string(), tx_g, 0).expect("free");
    registry.close_client("one", h.clone(), 1_000);

    // not yet longer than the timeout
    assert!(server_monitor(&mut registry, 1_000 + 1_800, 1_800).is_empty());
    assert_eq!(registry.len(), 2);
    // a room with a client is never swept
    assert_eq!(server_monitor(&mut registry, 1_000 + 1_801, 1_800), vec!["one".to_string()]);
    assert_eq!(registry.len(), 1);
    assert!(registry.room("one").is_none());
    assert!(registry.room("two").is_some());
    assert!(server_monitor(&mut registry, u64::MAX, 0).is_empty());
    assert_eq!(registry.len(), 1);
}

#[test]
fn a_room_that_regains_a_client_is_kept() {
    let mut registry = Registry::new();
    let h = user("H", true, 7);
    let (tx, _rx) = queue();
    connect_to_server(&mut registry, h.clone(), "one".to_string(), tx, 0).expect("free");
    registry.close_client("one", h.clone(), 100);
    let (tx, _rx2) = queue();
    connect_to_server(&mut registry, h.clone(), "one".to_string(), tx, 500).expect("free");
    assert!(server_monitor(&mut registry, 1_000_000, 1_800).is_empty());
    assert_eq!(registry.len(), 1);
    // it keeps its board while it is kept
    registry.recv("one", &place_text("orc", 1, 1), &h);
    registry.close_client("one", h.clone(), 2_000_000);
    assert!(server_monitor(&mut registry, 2_000_000, 1_800).is_empty());
    assert_eq!(registry.room("one").expect("open").state().replay().len(), 1);
    assert_eq!(server_monitor(&mut registry, 2_001_801, 1_800), vec!["one".to_string()]);
    // a room opened anew starts with an empty board
    let (tx, _rx3) = queue();
    connect_to_server(&mut registry, h.clone(), "one".to_string(), tx, 3_000_000).expect("free");
    assert!(registry.room("one").expect("open").state().replay().is_empty());
}

#[test]
fn a_clock_that_runs_backwards_sweeps_nothing() {
    let server = Server::new(user("H", true, 7), "abc".to_string(), 1_000);
    assert!(!server.expired(500, 0));
    assert!(!server.expired(1_000, 0));
    assert!(server.expired(1_001, 0));
    assert!(!server.expired(1_010, 10));
    assert!(server.expired(1_011, 10));
}
