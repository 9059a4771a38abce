//! The settings of the service, as worked out from what the environment
//! holds.

use vstd::prelude::*;
use vstd::string::StringExecFns;
use crate::text::{hex, hex_text, numeral_value};

verus! {

/// Whether the service runs for its developers or for its users.
#[derive(Clone, Copy, Debug, PartialEq, Eq, Structural)]
pub enum RunMode {
    Debug,
    Release,
}

/// Which setting cannot be read.
#[derive(Clone, Copy, Debug, PartialEq, Eq, Structural)]
pub enum ConfigError {
    /// The lifetime of a session is no number of seconds.
    SessionTimeout,
    /// The idle time of a room is no number of seconds.
    GameTimeout,
    /// The time between two sweeps is no number of seconds.
    MonitorInterval,
    /// The limit on uploads is more bytes than can be counted.
    UploadLimit,
}

/// What the environment holds for each setting, where it holds anything.
#[derive(Debug)]
pub struct Vars {
    pub pepper: Option<String>,
    pub session_timeout: Option<String>,
    pub game_timeout: Option<String>,
    pub monitor_interval: Option<String>,
    pub mode: Option<String>,
    pub db_address: Option<String>,
    pub db_user: Option<String>,
    pub db_password: Option<String>,
    pub db_name: Option<String>,
    pub websocket_addr: Option<String>,
    pub upload_path: Option<String>,
    pub max_upload_mb: Option<String>,
}

/// The settings of the service.
#[derive(Debug)]
pub struct Config {
    /// How long a session lasts, in seconds.
    pub user_token_timeout: u64,
    /// How long a room may stay without clients, in seconds.
    pub game_timeout: u64,
    /// How long the sweeper rests between two sweeps, in seconds.
    pub monitor_interval: u64,
    pub pepper: String,
    pub mode: RunMode,
    pub db_addr: String,
    pub db_user: String,
    pub db_password: String,
    pub db_name: String,
    pub listen_addr: String,
    pub upload_dir: String,
    /// The most that one upload may hold, in bytes.
    pub max_upload_mb: u64,
}

/// The mathematical value of a [`Config`].
pub struct ConfigView {
    pub user_token_timeout: u64,
    pub game_timeout: u64,
    pub monitor_interval: u64,
    pub pepper: Seq<char>,
    pub mode: RunMode,
    pub db_addr: Seq<char>,
    pub db_user: Seq<char>,
    pub db_password: Seq<char>,
    pub db_name: Seq<char>,
    pub listen_addr: Seq<char>,
    pub upload_dir: Seq<char>,
    pub max_upload_mb: u64,
}

impl View for Config {
    type V = ConfigView;

    open spec fn view(&self) -> ConfigView {
        ConfigView {
            user_token_timeout: self.user_token_timeout,
            game_timeout: self.game_timeout,
            monitor_interval: self.monitor_interval,
            pepper: self.pepper@,
            mode: self.mode,
            db_addr: self.db_addr@,
            db_user: self.db_user@,
            db_password: self.db_password@,
            db_name: self.db_name@,
            listen_addr: self.listen_addr@,
            upload_dir: self.upload_dir@,
            max_upload_mb: self.max_upload_mb,
        }
    }
}

/// A number of seconds in milliseconds, as far as `u64` reaches.
pub fn millis(seconds: u64) -> (r: u64)
    ensures
        r == if seconds * 1000 <= u64::MAX {
            seconds * 1000
        } else {
            u64::MAX as int
        },
{
    if seconds > u64::MAX / 1000 {
        u64::MAX
    } else {
        seconds * 1000
    }
}

/// Whether every character of a text is a decimal digit.
pub open spec fn all_digits(s: Seq<char>) -> bool {
    forall|i: int| 0 <= i < s.len() ==> '0' <= #[trigger] s[i] <= '9'
}

/// The number that a text writes: digits, with or without a plus sign in
/// front, that denote a number within `u64`. `None` for any other text.
pub open spec fn u64_of_text(s: Seq<char>) -> Option<u64> {
    let digits = if s.len() > 0 && s[0] == '+' {
        s.drop_first()
    } else {
        s
    };
    if digits.len() > 0 && all_digits(digits) && numeral_value(digits) <= u64::MAX {
        Some(numeral_value(digits) as u64)
    } else {
        None
    }
}

/// `str::parse` for `u64`: the number that the text writes in decimal
/// digits, which may follow a plus sign; `None` for any other text and for a
/// number beyond `u64`.
#[verifier::external_body]
fn parse_u64(s: &str) -> (r: Option<u64>)
    ensures
        r == u64_of_text(s@),
{
    s.parse::<u64>().ok()
}

/// The text of a setting, or what holds where the environment has none.
pub open spec fn text_or(var: Option<String>, default: Seq<char>) -> Seq<char> {
    match var {
        Some(s) => s@,
        None => default,
    }
}

/// The number of seconds of a setting: what the environment holds, which
/// must be a number, or `default` where it holds nothing.
pub open spec fn seconds_or(var: Option<String>, default: u64) -> Option<u64> {
    match var {
        Some(s) => u64_of_text(s@),
        None => Some(default),
    }
}

/// The limit on uploads in megabytes: what the environment holds where that
/// is a number, twenty otherwise.
pub open spec fn upload_megabytes(var: Option<String>) -> u64 {
    match var {
        Some(s) => match u64_of_text(s@) {
            Some(n) => n,
            None => 20,
        },
        None => 20,
    }
}

/// The mode that the environment asks for: the developers' only where it
/// says `debug`.
pub open spec fn mode_of(var: Option<String>) -> RunMode {
    match var {
        Some(s) => if s@ == "debug"@ {
            RunMode::Debug
        } else {
            RunMode::Release
        },
        None => RunMode::Release,
    }
}

/// What keeps the environment `vars` from being read, if anything does: a
/// setting of seconds that is no number, or a limit on uploads of more bytes
/// than `u64` counts. The first of them, in the order of [`ConfigError`],
/// decides.
pub open spec fn fault(vars: Vars) -> Option<ConfigError> {
    if seconds_or(vars.session_timeout, 86400) is None {
        Some(ConfigError::SessionTimeout)
    } else if seconds_or(vars.game_timeout, 1800) is None {
        Some(ConfigError::GameTimeout)
    } else if seconds_or(vars.monitor_interval, 300) is None {
        Some(ConfigError::MonitorInterval)
    } else if upload_megabytes(vars.max_upload_mb) * 1024 * 1024 > u64::MAX {
        Some(ConfigError::UploadLimit)
    } else {
        None
    }
}

/// The settings that an environment `vars` without [`fault`] gives. A
/// pepper that the environment does not hold is made of `fresh`, written in
/// hexadecimal.
pub open spec fn settings(vars: Vars, fresh: Seq<u8>) -> ConfigView {
    ConfigView {
        user_token_timeout: seconds_or(vars.session_timeout, 86400)->0,
        game_timeout: seconds_or(vars.game_timeout, 1800)->0,
        monitor_interval: seconds_or(vars.monitor_interval, 300)->0,
        pepper: match vars.pepper {
            Some(s) => s@,
            None => hex(fresh, true),
        },
        mode: mode_of(vars.mode),
        db_addr: text_or(vars.db_address, "localhost"@),
        db_user: text_or(vars.db_user, "postgres"@),
        db_password: text_or(vars.db_password, "password"@),
        db_name: text_or(vars.db_name, "rolecall"@),
        listen_addr: text_or(vars.websocket_addr, "0.0.0.0:9000"@),
        upload_dir: text_or(vars.upload_path, "upload"@),
        max_upload_mb: (upload_megabytes(vars.max_upload_mb) * 1024 * 1024) as u64,
    }
}

/// The text of a setting, or `default` where the environment has none.
fn or_text(var: Option<String>, default: &str) -> (r: String)
    ensures
        r@ == text_or(var, default@),
{
    match var {
        Some(s) => s,
        None => String::from_str(default),
    }
}

/// The number of seconds of a setting, or `default` where the environment
/// has none.
fn or_seconds(var: &Option<String>, default: u64) -> (r: Option<u64>)
    ensures
        r == seconds_or(*var, default),
{
    match var {
        Some(s) => parse_u64(s.as_str()),
        None => Some(default),
    }
}

/// The limit on uploads in megabytes, as [`upload_megabytes`] has it.
fn megabytes_of(var: &Option<String>) -> (r: u64)
    ensures
        r == upload_megabytes(*var),
{
    match var {
        Some(s) => match parse_u64(s.as_str()) {
            Some(n) => n,
            None => 20,
        },
        None => 20,
    }
}

/// Tells whether the settings can be worked out of `vars`, and if not,
/// which setting stands in the way: the one that [`fault`] names.
pub fn check_vars(vars: &Vars) -> (r: Result<(), ConfigError>)
    ensures
        r is Ok <==> fault(*vars) is None,
        r is Err ==> fault(*vars) == Some(r->Err_0),
{
    if or_seconds(&vars.session_timeout, 86400).is_none() {
        Err(ConfigError::SessionTimeout)
    } else if or_seconds(&vars.game_timeout, 1800).is_none() {
        Err(ConfigError::GameTimeout)
    } else if or_seconds(&vars.monitor_interval, 300).is_none() {
        Err(ConfigError::MonitorInterval)
    } else if megabytes_of(&vars.max_upload_mb) > u64::MAX / (1024 * 1024) {
        Err(ConfigError::UploadLimit)
    } else {
        Ok(())
    }
}

/// Works the settings out of an environment that can be read: those that
/// [`settings`] gives. Whether it can be read, [`check_vars`] tells.
pub fn load_config(vars: Vars, fresh: &[u8]) -> (config: Config)
    requires
        fault(vars) is None,
    ensures
        config@ == settings(vars, fresh@),
{
    let user_token_timeout = or_seconds(&vars.session_timeout, 86400).unwrap();
    let game_timeout = or_seconds(&vars.game_timeout, 1800).unwrap();
    let monitor_interval = or_seconds(&vars.monitor_interval, 300).unwrap();
    let megabytes = megabytes_of(&vars.max_upload_mb);
    let mode = match &vars.mode {
        Some(s) => if crate::text::same_text(s.as_str(), "debug") {
            RunMode::Debug
        } else {
            RunMode::Release
        },
        None => RunMode::Release,
    };
    let pepper = match vars.pepper {
        Some(s) => s,
        None => hex_text(fresh, true),
    };
    Config {
        user_token_timeout,
        game_timeout,
        monitor_interval,
        pepper,
        mode,
        db_addr: or_text(vars.db_address, "localhost"),
        db_user: or_text(vars.db_user, "postgres"),
        db_password: or_text(vars.db_password, "password"),
        db_name: or_text(vars.db_name, "rolecall"),
        listen_addr: or_text(vars.websocket_addr, "0.0.0.0:9000"),
        upload_dir: or_text(vars.upload_path, "upload"),
        max_upload_mb: megabytes * 1024 * 1024,
    }
}

} // verus!
