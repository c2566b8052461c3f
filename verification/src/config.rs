//! The configuration resolver: from the texts found on the command line and
//! in the environment to a validated `Configuration`.
//!
//! For each setting the command line is consulted first, then the
//! environment, then the documented default. A text that is present but is
//! no numeral of the expected range is an error; it is never skipped in
//! favour of the next layer.

use crate::decimal::{is_digit, parse_i64, parse_usize, signed_value, unsigned_value};
use vstd::prelude::*;

verus! {

/// The port the server listens on when none is given.
pub const DEFAULT_PORT: u16 = 3779;

/// The worker count used when none is given: let the host decide.
pub const DEFAULT_WORKER_COUNT: usize = 0;

/// The resolved settings of one server process.
#[derive(Clone, Copy, Debug, PartialEq, Eq, Structural)]
pub struct Configuration {
    /// TCP port to listen on.
    pub port: u16,
    /// Discriminator of the concurrency topology: `0` sizes the worker pool
    /// by the host, `1` asks for a single cooperative worker, any larger
    /// number for a pool of exactly that many workers.
    pub worker_count: usize,
}

impl Default for Configuration {
    /// The configuration of a process that was given no setting at all.
    fn default() -> (config: Self)
        ensures
            config == (Configuration { port: DEFAULT_PORT, worker_count: DEFAULT_WORKER_COUNT }),
    {
        Configuration { port: DEFAULT_PORT, worker_count: DEFAULT_WORKER_COUNT }
    }
}

/// The settings a `Configuration` is made of.
#[derive(Clone, Copy, Debug, PartialEq, Eq, Structural)]
pub enum Setting {
    Port,
    WorkerCount,
}

/// The layer a text was taken from.
#[derive(Clone, Copy, Debug, PartialEq, Eq, Structural)]
pub enum Origin {
    CommandLine,
    Environment,
}

/// A setting was present but its text is not a number of the expected range.
#[derive(Clone, Copy, Debug, PartialEq, Eq, Structural)]
pub struct ConfigError {
    /// The setting whose text was rejected.
    pub setting: Setting,
    /// The layer that supplied the rejected text.
    pub origin: Origin,
}

/// The texts of the settings as found, before any of them is read as a
/// number. `None` means that the layer does not mention the setting.
#[derive(Clone, Debug, Default, PartialEq, Eq)]
pub struct RawSettings {
    /// Value of `--port`.
    pub cli_port: Option<String>,
    /// Value of `SUWARIYOMI_PORT`.
    pub env_port: Option<String>,
    /// Value of `--num-threads`.
    pub cli_worker_count: Option<String>,
    /// Value of `SUWARIYOMI_NUM_THREADS`.
    pub env_worker_count: Option<String>,
}

/// `RawSettings` as sequences of characters.
pub struct RawSettingsView {
    pub cli_port: Option<Seq<char>>,
    pub env_port: Option<Seq<char>>,
    pub cli_worker_count: Option<Seq<char>>,
    pub env_worker_count: Option<Seq<char>>,
}

/// The characters of an optional text.
pub open spec fn text_of(o: Option<String>) -> Option<Seq<char>> {
    match o {
        Some(s) => Some(s@),
        None => None,
    }
}

impl View for RawSettings {
    type V = RawSettingsView;

    open spec fn view(&self) -> RawSettingsView {
        RawSettingsView {
            cli_port: text_of(self.cli_port),
            env_port: text_of(self.env_port),
            cli_worker_count: text_of(self.cli_worker_count),
            env_worker_count: text_of(self.env_worker_count),
        }
    }
}

/// The port that the text `s` denotes: a signed numeral whose value lies in
/// `0..=65535`.
pub open spec fn port_value(s: Seq<char>) -> Option<u16> {
    match signed_value(s) {
        Some(v) if 0 <= v <= u16::MAX => Some(v as u16),
        _ => None,
    }
}

/// The worker count that the text `s` denotes: an unsigned numeral whose
/// value fits in `usize`.
pub open spec fn worker_count_value(s: Seq<char>) -> Option<usize> {
    match unsigned_value(s) {
        Some(v) if v <= usize::MAX => Some(v as usize),
        _ => None,
    }
}

/// The text that decides a setting, with the layer it comes from: the command
/// line's if it has one, else the environment's, else none.
pub open spec fn deciding_text(cli: Option<Seq<char>>, env: Option<Seq<char>>) -> Option<
    (Seq<char>, Origin),
> {
    match (cli, env) {
        (Some(s), _) => Some((s, Origin::CommandLine)),
        (None, Some(s)) => Some((s, Origin::Environment)),
        (None, None) => None,
    }
}

/// The port that two layers resolve to.
pub open spec fn resolved_port(cli: Option<Seq<char>>, env: Option<Seq<char>>) -> Result<
    u16,
    ConfigError,
> {
    match deciding_text(cli, env) {
        None => Ok(DEFAULT_PORT),
        Some((s, origin)) => match port_value(s) {
            Some(port) => Ok(port),
            None => Err(ConfigError { setting: Setting::Port, origin }),
        },
    }
}

/// The worker count that two layers resolve to.
pub open spec fn resolved_worker_count(cli: Option<Seq<char>>, env: Option<Seq<char>>) -> Result<
    usize,
    ConfigError,
> {
    match deciding_text(cli, env) {
        None => Ok(DEFAULT_WORKER_COUNT),
        Some((s, origin)) => match worker_count_value(s) {
            Some(n) => Ok(n),
            None => Err(ConfigError { setting: Setting::WorkerCount, origin }),
        },
    }
}

/// What `raw` resolves to. The port is examined first, so when both settings
/// are malformed the error names the port.
pub open spec fn resolved(raw: RawSettingsView) -> Result<Configuration, ConfigError> {
    match resolved_port(raw.cli_port, raw.env_port) {
        Err(e) => Err(e),
        Ok(port) => match resolved_worker_count(raw.cli_worker_count, raw.env_worker_count) {
            Err(e) => Err(e),
            Ok(worker_count) => Ok(Configuration { port, worker_count }),
        },
    }
}

/// Reads a port number.
///
/// The text is taken as a signed numeral and its value must lie in
/// `0..=65535`; `+80`, `0080` and `-0` are therefore ports, while ` 80`,
/// `80 `, `0x50`, `65536` and the empty text are not.
pub fn parse_port(s: &str) -> (r: Option<u16>)
    ensures
        r == port_value(s@),
{
    match parse_i64(s) {
        Some(v) => if 0 <= v && v <= 65535 {
            Some(v as u16)
        } else {
            None
        },
        None => None,
    }
}

/// Reads a worker count: an unsigned numeral that fits in `usize`. A minus
/// sign is not accepted, not even before zero.
pub fn parse_worker_count(s: &str) -> (r: Option<usize>)
    ensures
        r == worker_count_value(s@),
{
    parse_usize(s)
}

/// Resolves the port from its two layers.
pub fn resolve_port(cli: &Option<String>, env: &Option<String>) -> (r: Result<u16, ConfigError>)
    ensures
        r == resolved_port(text_of(*cli), text_of(*env)),
{
    match cli {
        Some(s) => match parse_port(s.as_str()) {
            Some(port) => Ok(port),
            None => Err(ConfigError { setting: Setting::Port, origin: Origin::CommandLine }),
        },
        None => match env {
            Some(s) => match parse_port(s.as_str()) {
                Some(port) => Ok(port),
                None => Err(ConfigError { setting: Setting::Port, origin: Origin::Environment }),
            },
            None => Ok(DEFAULT_PORT),
        },
    }
}

/// Resolves the worker count from its two layers.
pub fn resolve_worker_count(cli: &Option<String>, env: &Option<String>) -> (r: Result<
    usize,
    ConfigError,
>)
    ensures
        r == resolved_worker_count(text_of(*cli), text_of(*env)),
{
    match cli {
        Some(s) => match parse_worker_count(s.as_str()) {
            Some(n) => Ok(n),
            None => Err(
                ConfigError { setting: Setting::WorkerCount, origin: Origin::CommandLine },
            ),
        },
        None => match env {
            Some(s) => match parse_worker_count(s.as_str()) {
                Some(n) => Ok(n),
                None => Err(
                    ConfigError { setting: Setting::WorkerCount, origin: Origin::Environment },
                ),
            },
            None => Ok(DEFAULT_WORKER_COUNT),
        },
    }
}

/// Resolves the configuration of the process.
///
/// Succeeds exactly when every setting that some layer mentions is well
/// formed in the layer that decides it; a setting that no layer mentions
/// takes its default. Nothing but `raw` is read.
pub fn resolve(raw: &RawSettings) -> (r: Result<Configuration, ConfigError>)
    ensures
        r == resolved(raw@),
{
    let port = match resolve_port(&raw.cli_port, &raw.env_port) {
        Ok(port) => port,
        Err(e) => {
            return Err(e);
        },
    };
    match resolve_worker_count(&raw.cli_worker_count, &raw.env_worker_count) {
        Ok(worker_count) => Ok(Configuration { port, worker_count }),
        Err(e) => Err(e),
    }
}

/// A text with a character that is neither a digit nor a sign in front, such
/// as `abc`, is no port and no worker count.
pub proof fn lemma_non_numeric_is_rejected(s: Seq<char>, i: int)
    requires
        0 <= i < s.len(),
        !is_digit(s[i]),
        i > 0 || (s[0] != '+' && s[0] != '-'),
    ensures
        port_value(s) is None,
        worker_count_value(s) is None,
{
    let tail = s.subrange(1, s.len() as int);
    if i > 0 {
        assert(tail[i - 1] == s[i]);
    }
}

/// A `--port` that is no port is an error of the command line, whatever the
/// environment and the other setting hold.
pub proof fn lemma_malformed_port_is_rejected(raw: RawSettingsView)
    requires
        raw.cli_port matches Some(s) && port_value(s) is None,
    ensures
        resolved(raw) == Err::<Configuration, ConfigError>(
            ConfigError { setting: Setting::Port, origin: Origin::CommandLine },
        ),
{
}

/// Settings that no layer mentions resolve to the defaults.
pub proof fn lemma_silent_layers_give_defaults(raw: RawSettingsView)
    requires
        raw.cli_port is None,
        raw.env_port is None,
        raw.cli_worker_count is None,
        raw.env_worker_count is None,
    ensures
        resolved(raw) == Ok::<Configuration, ConfigError>(
            Configuration { port: 3779, worker_count: 0 },
        ),
{
}

/// The command line outranks the environment: where it gives a setting, the
/// environment's text for that setting is not even looked at.
pub proof fn lemma_command_line_outranks_environment(
    raw: RawSettingsView,
    env_port: Option<Seq<char>>,
    env_worker_count: Option<Seq<char>>,
)
    requires
        raw.cli_port is Some,
        raw.cli_worker_count is Some,
    ensures
        resolved(RawSettingsView { env_port, env_worker_count, ..raw }) == resolved(raw),
{
}

} // verus!
