use rolecall::config::{check_vars, load_config, millis, Config, ConfigError, RunMode, Vars};
use rolecall::counter::Counter;
use rolecall::db::{game_permission, game_token, session_end, session_live, user_tag, username};
use rolecall::db::{Game, GamePermission, Object};
use rolecall::text::hex_text;
use rolecall::web::{
    answer,
    answer_check,
    answer_games,
    answer_login,
    answer_new_game,
    answer_objs,
    answer_signup,
    answer_upload,
    check_upload,
    game_page,
    process_html,
    Fault,
    Response,
};

fn no_vars() -> Vars {
    Vars {
        pepper: None,
        session_timeout: None,
        game_timeout: None,
        monitor_interval: None,
        mode: None,
        db_address: None,
        db_user: None,
        db_password: None,
        db_name: None,
        websocket_addr: None,
        upload_path: None,
        max_upload_mb: None,
    }
}

/// Works the settings out the way the service does: test first, then load.
fn load(vars: Vars, fresh: &[u8]) -> Result<Config, ConfigError> {
    check_vars(&vars)?;
    Ok(load_config(vars, fresh))
}

fn some(s: &str) -> Option<String> {
    Some(s.to_string())
}

#[test]
fn counter_counts_in_decimal() {
    let mut counter = Counter::new();
    assert_eq!(counter.text(), "0");
    let mut seen = Vec::new();
    for _ in 0..1_001 {
        seen.push(counter.text());
        counter.bump();
    }
    assert_eq!(counter.text(), "1001");
    for (i, text) in seen.iter().enumerate() {
        assert_eq!(text, &format!("{}", i));
    }
}

#[test]
fn counter_goes_beyond_machine_words() {
    let mut counter = Counter::new();
    // to 10^3 - 1, then carry through a run of nines
    for _ in 0..999 {
        counter.bump();
    }
    assert_eq!(counter.text(), "999");
    counter.bump();
    assert_eq!(counter.text(), "1000");
}

#[test]
fn settings_default() {
    let config = load(no_vars(), &[0x0a, 0xff, 0x00, 0x10]).expect("defaults are good");
    assert_eq!(config.user_token_timeout, 86_400);
    assert_eq!(config.game_timeout, 1_800);
    assert_eq!(config.monitor_interval, 300);
    assert_eq!(config.pepper, "AFF010");
    assert_eq!(config.mode, RunMode::Release);
    assert_eq!(config.db_addr, "localhost");
    assert_eq!(config.db_user, "postgres");
    assert_eq!(config.db_password, "password");
    assert_eq!(config.db_name, "rolecall");
    assert_eq!(config.listen_addr, "0.0.0.0:9000");
    assert_eq!(config.upload_dir, "upload");
    assert_eq!(config.max_upload_mb, 20 * 1024 * 1024);
}

#[test]
fn settings_from_the_environment() {
    let vars = Vars {
        pepper: some("salt"),
        session_timeout: some("60"),
        game_timeout: some("+7"),
        monitor_interval: some("007"),
        mode: some("debug"),
        db_address: some("db.example"),
        db_user: some("u"),
        db_password: some("p"),
        db_name: some("n"),
        websocket_addr: some("127.0.0.1:1"),
        upload_path: some("files"),
        max_upload_mb: some("3"),
    };
    let config = load(vars, &[1, 2, 3]).expect("all settings are good");
    assert_eq!(config.user_token_timeout, 60);
    assert_eq!(config.game_timeout, 7);
    assert_eq!(config.monitor_interval, 7);
    assert_eq!(config.pepper, "salt");
    assert_eq!(config.mode, RunMode::Debug);
    assert_eq!(config.db_addr, "db.example");
    assert_eq!(config.db_user, "u");
    assert_eq!(config.db_password, "p");
    assert_eq!(config.db_name, "n");
    assert_eq!(config.listen_addr, "127.0.0.1:1");
    assert_eq!(config.upload_dir, "files");
    assert_eq!(config.max_upload_mb, 3 * 1024 * 1024);
}

#[test]
fn settings_that_cannot_be_read() {
    for bad in ["", "+", "-1", "1.5", " 5", "5s", "18446744073709551616"] {
        let vars = Vars { session_timeout: some(bad), ..no_vars() };
        assert_eq!(load(vars, &[]).err(), Some(ConfigError::SessionTimeout), "{:?}", bad);
        let vars = Vars { game_timeout: some(bad), ..no_vars() };
        assert_eq!(load(vars, &[]).err(), Some(ConfigError::GameTimeout), "{:?}", bad);
        let vars = Vars { monitor_interval: some(bad), ..no_vars() };
        assert_eq!(load(vars, &[]).err(), Some(ConfigError::MonitorInterval), "{:?}", bad);
        // a limit on uploads that cannot be read is taken as not given
        let vars = Vars { max_upload_mb: some(bad), ..no_vars() };
        assert_eq!(load(vars, &[]).expect("good").max_upload_mb, 20 * 1024 * 1024);
    }
    let vars = Vars { session_timeout: some("x"), game_timeout: some("y"), ..no_vars() };
    assert_eq!(load(vars, &[]).err(), Some(ConfigError::SessionTimeout));
    let vars = Vars { session_timeout: some("18446744073709551615"), ..no_vars() };
    assert_eq!(load(vars, &[]).expect("good").user_token_timeout, u64::MAX);
}

#[test]
fn upload_limit_must_fit() {
    let most = u64::MAX / (1024 * 1024);
    let vars = Vars { max_upload_mb: Some(format!("{}", most)), ..no_vars() };
    assert_eq!(load(vars, &[]).expect("fits").max_upload_mb, most * 1024 * 1024);
    let vars = Vars { max_upload_mb: Some(format!("{}", most + 1)), ..no_vars() };
    assert_eq!(load(vars, &[]).err(), Some(ConfigError::UploadLimit));
}

#[test]
fn the_test_of_the_environment_names_the_first_fault() {
    assert_eq!(check_vars(&no_vars()), Ok(()));
    let vars = Vars { game_timeout: some("soon"), max_upload_mb: some("x"), ..no_vars() };
    assert_eq!(check_vars(&vars), Err(ConfigError::GameTimeout));
    let vars = Vars {
        monitor_interval: some("1e3"),
        max_upload_mb: some("18446744073709551615"),
        ..no_vars()
    };
    assert_eq!(check_vars(&vars), Err(ConfigError::MonitorInterval));
    let vars = Vars { max_upload_mb: some("18446744073709551615"), ..no_vars() };
    assert_eq!(check_vars(&vars), Err(ConfigError::UploadLimit));
    let vars = Vars { game_timeout: some("0"), monitor_interval: some("+0"), ..no_vars() };
    assert_eq!(check_vars(&vars), Ok(()));
    let config = load_config(vars, &[]);
    assert_eq!((config.game_timeout, config.monitor_interval), (0, 0));
}

#[test]
fn seconds_in_milliseconds() {
    assert_eq!(millis(0), 0);
    assert_eq!(millis(1_800), 1_800_000);
    assert_eq!(millis(u64::MAX / 1000), u64::MAX / 1000 * 1000);
    assert_eq!(millis(u64::MAX / 1000 + 1), u64::MAX);
    assert_eq!(millis(u64::MAX), u64::MAX);
}

#[test]
fn mode_is_debug_only_on_request() {
    for (text, mode) in
        [("debug", RunMode::Debug), ("Debug", RunMode::Release), ("release", RunMode::Release)]
    {
        let vars = Vars { mode: some(text), ..no_vars() };
        assert_eq!(load(vars, &[]).expect("good").mode, mode);
    }
}

#[test]
fn hexadecimal_without_padding() {
    assert_eq!(hex_text(&[], true), "");
    assert_eq!(hex_text(&[0], true), "0");
    assert_eq!(hex_text(&[0x0f, 0x10, 0xab, 0x09], true), "F10AB9");
    assert_eq!(hex_text(&[0x0f, 0x10, 0xab, 0x09], false), "f10ab9");
    assert_eq!(game_token(&[0xde, 0xad, 0x0b, 0xef, 0x00, 0x01, 0xc0, 0xff]), "deadbef01c0ff");
}

#[test]
fn permission_follows_the_records() {
    assert_eq!(game_permission(3, 3, 0), GamePermission::Host);
    assert_eq!(game_permission(3, 3, 1), GamePermission::Host);
    assert_eq!(game_permission(4, 3, 1), GamePermission::Player);
    assert_eq!(game_permission(4, 3, 0), GamePermission::Outsider);
    assert_eq!(game_permission(4, 3, -1), GamePermission::Outsider);
}

#[test]
fn user_names_and_tags() {
    assert_eq!(username("nick", "0042"), "nick#0042");
    assert_eq!(username("", ""), "#");
    assert_eq!(user_tag(0), "0000");
    assert_eq!(user_tag(7), "0007");
    assert_eq!(user_tag(42), "0042");
    assert_eq!(user_tag(999), "0999");
    assert_eq!(user_tag(1000), "1000");
    assert_eq!(user_tag(9999), "9999");
    assert_eq!(user_tag(10000), "10000");
    assert_eq!(user_tag(65535), "65535");
}

#[test]
fn sessions_end() {
    assert!(session_live(5, 6));
    assert!(!session_live(6, 6));
    assert!(!session_live(7, 6));
    assert_eq!(session_end(1_000, 86_400), Some(86_401_000));
    assert_eq!(session_end(-5_000, 3), Some(-2_000));
    assert_eq!(session_end(i64::MAX, 0), Some(i64::MAX));
    assert_eq!(session_end(i64::MAX - 999, 1), None);
    assert_eq!(session_end(i64::MAX - 1_000, 1), Some(i64::MAX));
    assert_eq!(session_end(0, 9_223_372_036_854_775), Some(9_223_372_036_854_775_000));
    assert_eq!(session_end(0, 9_223_372_036_854_776), None);
    assert_eq!(session_end(i64::MIN, u64::MAX), None);
}

#[test]
fn plain_answers() {
    let ok = Response::ok();
    assert!(ok.status && ok.msg.is_none());
    let r = answer(Ok(()));
    assert!(r.status && r.msg.is_none());
    let r = answer(Err(Fault::Auth));
    assert_eq!((r.status, r.msg.as_deref()), (false, Some("user not found")));
    let r = answer(Err(Fault::Other));
    assert_eq!((r.status, r.msg.as_deref()), (false, Some("miscellaneous error")));
    let r = answer(Err(Fault::AlreadyExists));
    assert_eq!((r.status, r.msg.as_deref()), (false, Some("miscellaneous error")));
}

#[test]
fn answers_to_a_check() {
    let r = answer_check(Ok(true));
    assert!(r.status && r.msg.is_none());
    let r = answer_check(Ok(false));
    assert_eq!((r.status, r.msg.as_deref()), (false, Some("token expired")));
    let r = answer_check(Err(Fault::Auth));
    assert_eq!((r.status, r.msg.as_deref()), (false, Some("miscellaneous error")));
}

#[test]
fn answers_to_an_upload() {
    assert!(check_upload(true, true, true).is_none());
    let msg = |r: Option<Response>| r.and_then(|r| r.msg);
    assert_eq!(msg(check_upload(false, false, false)).as_deref(), Some("malformed file data"));
    assert_eq!(msg(check_upload(true, false, false)).as_deref(), Some("malformed user token"));
    assert_eq!(msg(check_upload(true, true, false)).as_deref(), Some("malformed map name"));
    assert_eq!(msg(check_upload(false, true, true)).as_deref(), Some("malformed file data"));
    let r = answer_upload(Ok(()));
    assert!(r.status && r.msg.is_none());
    let r = answer_upload(Err(Fault::AlreadyExists));
    assert_eq!((r.status, r.msg.as_deref()), (false, Some("name already used")));
    let r = answer_upload(Err(Fault::Auth));
    assert_eq!((r.status, r.msg.as_deref()), (false, Some("user not found")));
    let r = answer_upload(Err(Fault::Other));
    assert_eq!((r.status, r.msg.as_deref()), (false, Some("miscellaneous error")));
}

#[test]
fn answers_about_users_and_games() {
    let r = answer_signup(Ok(()));
    assert!(r.status && r.msg.is_none() && r.token.is_none() && r.username.is_none());
    let r = answer_signup(Err(Fault::Other));
    assert!(r.status);
    assert_eq!(r.msg.as_deref(), Some("miscellaneous error"));

    let r = answer_login(Ok(("tok".to_string(), "nick#0001".to_string())));
    assert!(r.status && r.msg.is_none());
    assert_eq!(r.token.as_deref(), Some("tok"));
    assert_eq!(r.username.as_deref(), Some("nick#0001"));
    let r = answer_login(Err(Fault::Auth));
    assert!(!r.status && r.token.is_none() && r.username.is_none());
    assert_eq!(r.msg.as_deref(), Some("user not found"));
    let r = answer_login(Err(Fault::Other));
    assert_eq!(r.msg.as_deref(), Some("miscellaneous error"));

    let r = answer_new_game(Ok("abc123".to_string()));
    assert!(r.status && r.msg.is_none() && r.username.is_none());
    assert_eq!(r.token.as_deref(), Some("abc123"));
    let r = answer_new_game(Err(Fault::Auth));
    assert!(!r.status && r.token.is_none());
    assert_eq!(r.msg.as_deref(), Some("user not found"));
}

#[test]
fn answers_with_lists() {
    let r = answer_games(Ok(vec![Game { token: "t".to_string(), name: "n".to_string() }]));
    assert!(r.status && r.msg.is_none());
    assert_eq!(r.games, Some(vec![Game { token: "t".to_string(), name: "n".to_string() }]));
    let r = answer_games(Err(Fault::Auth));
    assert!(!r.status && r.games.is_none());
    assert_eq!(r.msg.as_deref(), Some("user not found"));

    let r = answer_objs(Ok(vec![Object { id: 3, name: "map".to_string() }]), true);
    assert!(r.status && r.msg.is_none());
    assert_eq!(r.objs, Some(vec![Object { id: 3, name: "map".to_string() }]));
    let r = answer_objs(Err(Fault::Auth), true);
    assert_eq!(r.msg.as_deref(), Some("user not found"));
    let r = answer_objs(Err(Fault::Auth), false);
    assert!(!r.status && r.objs.is_none());
    assert_eq!(r.msg.as_deref(), Some("permission denied"));
    let r = answer_objs(Err(Fault::Other), false);
    assert_eq!(r.msg.as_deref(), Some("miscellaneous error"));
}

#[test]
fn pages_are_made_ready() {
    let html = "<script src=\"./node_modules/react/umd/react.js\"></script>\
                <script src=\"./node_modules/react-dom/umd/react-dom.js\"></script>\
                <script src=\"./dist/main.js\"></script><a href=\"./dist\">./distant</a>";
    assert_eq!(
        process_html(html.to_string()),
        "<script src=\"/react/react.js\"></script>\
         <script src=\"/react-dom/react-dom.js\"></script>\
         <script src=\"/dist/main.js\"></script><a href=\"/dist\">/distant</a>"
    );
    assert_eq!(process_html(String::new()), "");
    assert_eq!(game_page("token: GAMETOKEN, again GAMETOKEN", "abc"), "token: abc, again abc");
    assert_eq!(game_page("GAMETOKENGAMETOKE", "GAMETOKEN"), "GAMETOKENGAMETOKE");
    assert_eq!(game_page("nothing here", "abc"), "nothing here");
}
