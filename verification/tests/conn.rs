use rolecall::db::GamePermission;
use rolecall::game::conn::{Action, Event, GameConnection, GameError, Phase};

fn text(s: &str) -> Event {
    Event::Text(s.to_string())
}

fn shaken() -> GameConnection {
    let mut conn = GameConnection::new();
    conn.step(text("user-token"));
    conn.step(text("abc123"));
    conn
}

fn seated() -> GameConnection {
    let mut conn = shaken();
    conn.step(Event::Permission(GamePermission::Player));
    conn.step(Event::Account { id: 8, username: "P#0001".to_string() });
    conn.step(Event::Joined);
    conn
}

#[test]
fn handshake_takes_two_trimmed_texts() {
    let mut conn = GameConnection::new();
    assert_eq!(conn.phase(), Phase::AwaitingUserToken);
    assert!(matches!(conn.step(text("  user-token\r\n")), Action::Read));
    assert_eq!(conn.phase(), Phase::AwaitingGameToken);
    assert_eq!(conn.get_user(), "user-token");
    match conn.step(text("\t abc 123 \u{a0}\u{3000}\n")) {
        Action::CheckPermission { user_token, game_token } => {
            assert_eq!(user_token, "user-token");
            assert_eq!(game_token, "abc 123");
        },
        other => panic!("unexpected {:?}", other),
    }
    assert_eq!(conn.phase(), Phase::Authorizing);
    assert_eq!(conn.get_game(), "abc 123");
}

#[test]
fn a_token_of_white_space_is_empty() {
    let mut conn = GameConnection::new();
    conn.step(text(" \n\t "));
    assert_eq!(conn.get_user(), "");
    assert_eq!(conn.phase(), Phase::AwaitingGameToken);
}

#[test]
fn handshake_without_texts_is_malformed() {
    for event in [Event::NonText, Event::Closed, Event::Joined, Event::DirectoryError] {
        let mut conn = GameConnection::new();
        assert!(matches!(conn.step(event), Action::Drop(GameError::Malformed)));
        assert_eq!(conn.phase(), Phase::Closed);
    }
    for event in [Event::NonText, Event::Closed] {
        let mut conn = GameConnection::new();
        conn.step(text("user-token"));
        assert!(matches!(conn.step(event), Action::Drop(GameError::Malformed)));
        assert_eq!(conn.phase(), Phase::Closed);
    }
}

#[test]
fn host_is_seated_as_host() {
    let mut conn = shaken();
    match conn.step(Event::Permission(GamePermission::Host)) {
        Action::GetAccount { user_token } => assert_eq!(user_token, "user-token"),
        other => panic!("unexpected {:?}", other),
    }
    assert_eq!(conn.phase(), Phase::Authorizing);
    match conn.step(Event::Account { id: 7, username: "H#0042".to_string() }) {
        Action::Join { user, game_token } => {
            assert_eq!(user.token, "user-token");
            assert_eq!(user.username, "H#0042");
            assert_eq!(user.id, 7);
            assert!(user.is_host);
            assert_eq!(game_token, "abc123");
        },
        other => panic!("unexpected {:?}", other),
    }
    assert_eq!(conn.phase(), Phase::Authorizing);
    assert!(matches!(conn.step(Event::Joined), Action::Read));
    assert_eq!(conn.phase(), Phase::Active);
}

#[test]
fn player_is_seated_as_player() {
    let mut conn = shaken();
    conn.step(Event::Permission(GamePermission::Player));
    match conn.step(Event::Account { id: 8, username: "P#0001".to_string() }) {
        Action::Join { user, .. } => assert!(!user.is_host),
        other => panic!("unexpected {:?}", other),
    }
}

#[test]
fn outsider_is_refused() {
    let mut conn = shaken();
    match conn.step(Event::Permission(GamePermission::Outsider)) {
        Action::Refuse { reason } => assert_eq!(reason, "user not in game"),
        other => panic!("unexpected {:?}", other),
    }
    assert_eq!(conn.phase(), Phase::Closed);
}

#[test]
fn directory_errors_are_refused() {
    let mut conn = shaken();
    match conn.step(Event::DirectoryError) {
        Action::Refuse { reason } => assert_eq!(reason, "could not find game"),
        other => panic!("unexpected {:?}", other),
    }
    assert_eq!(conn.phase(), Phase::Closed);

    let mut conn = shaken();
    conn.step(Event::Permission(GamePermission::Player));
    match conn.step(Event::DirectoryError) {
        Action::Refuse { reason } => assert_eq!(reason, "could not find account"),
        other => panic!("unexpected {:?}", other),
    }
    assert_eq!(conn.phase(), Phase::Closed);
}

#[test]
fn second_connection_is_refused() {
    let mut conn = shaken();
    conn.step(Event::Permission(GamePermission::Player));
    conn.step(Event::Account { id: 8, username: "P#0001".to_string() });
    match conn.step(Event::Refused(GameError::AlreadyConnected)) {
        Action::Refuse { reason } => assert_eq!(reason, "user already connected"),
        other => panic!("unexpected {:?}", other),
    }
    assert_eq!(conn.phase(), Phase::Closed);
}

#[test]
fn seated_connection_hands_texts_on() {
    let mut conn = seated();
    match conn.step(text("  {\"DeleteToken\":{\"tokenId\":\"0\"}} ")) {
        Action::Dispatch { user, game_token, text } => {
            assert_eq!(user.username, "P#0001");
            assert_eq!(game_token, "abc123");
            assert_eq!(text, "  {\"DeleteToken\":{\"tokenId\":\"0\"}} ");
        },
        other => panic!("unexpected {:?}", other),
    }
    assert_eq!(conn.phase(), Phase::Active);
    assert!(matches!(conn.step(Event::NonText), Action::Read));
    assert_eq!(conn.phase(), Phase::Active);
}

#[test]
fn seated_connection_leaves_once() {
    let mut conn = seated();
    match conn.step(Event::Closed) {
        Action::Leave { user, game_token } => {
            assert_eq!(user.username, "P#0001");
            assert_eq!(user.id, 8);
            assert_eq!(game_token, "abc123");
        },
        other => panic!("unexpected {:?}", other),
    }
    assert_eq!(conn.phase(), Phase::Closed);
    assert!(matches!(conn.step(Event::Closed), Action::Nothing));
    assert!(matches!(conn.step(text("late")), Action::Nothing));
    assert_eq!(conn.phase(), Phase::Closed);
}

#[test]
fn events_out_of_turn_close_the_connection() {
    let mut conn = shaken();
    assert!(matches!(conn.step(text("third")), Action::Drop(GameError::Malformed)));
    assert_eq!(conn.phase(), Phase::Closed);

    let mut conn = shaken();
    conn.step(Event::Permission(GamePermission::Host));
    assert!(matches!(conn.step(Event::Joined), Action::Drop(GameError::Malformed)));
    assert_eq!(conn.phase(), Phase::Closed);

    let mut conn = seated();
    assert!(matches!(conn.step(Event::Joined), Action::Leave { .. }));
    assert_eq!(conn.phase(), Phase::Closed);
}

#[test]
fn white_space_is_what_unicode_says() {
    let spaces = |c: char| {
        matches!(
            c,
            '\u{9}'..='\u{d}'
                | ' '
                | '\u{85}'
                | '\u{a0}'
                | '\u{1680}'
                | '\u{2000}'..='\u{200a}'
                | '\u{2028}'
                | '\u{2029}'
                | '\u{202f}'
                | '\u{205f}'
                | '\u{3000}'
        )
    };
    for code in 0..=0x10ffffu32 {
        let Some(c) = char::from_u32(code) else { continue };
        let frame = format!("{}x y{}", c, c);
        let mut conn = GameConnection::new();
        conn.step(Event::Text(frame.clone()));
        if spaces(c) {
            assert_eq!(conn.get_user(), "x y", "U+{:04X}", code);
        } else {
            assert_eq!(conn.get_user(), frame, "U+{:04X}", code);
        }
    }
}
