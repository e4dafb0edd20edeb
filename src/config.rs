//! Daemon settings and the per-user locations the tool keeps its files in.

use vstd::prelude::*;

verus! {

/// Settings the daemon reads once at startup.
#[derive(PartialEq, Eq, Structural, Clone, Copy, Debug)]
pub struct DaemonConfig {
    pub port: u16,
    /// Minutes without a request before the daemon stops itself; 0 turns this off.
    pub idle_timeout_minutes: u32,
    pub auto_start: bool,
}

/// Port the daemon listens on when the configuration names none.
pub fn default_port() -> (r: u16)
    ensures
        r == 7654,
{
    7654
}

/// Idle timeout, in minutes, when the configuration names none.
pub fn default_idle_timeout() -> (r: u32)
    ensures
        r == 30,
{
    30
}

/// The settings used when none are configured.
pub open spec fn default_daemon_config() -> DaemonConfig {
    DaemonConfig { port: 7654, idle_timeout_minutes: 30, auto_start: false }
}

impl Default for DaemonConfig {
    fn default() -> (r: Self)
        ensures
            r == default_daemon_config(),
    {
        DaemonConfig {
            port: default_port(),
            idle_timeout_minutes: default_idle_timeout(),
            auto_start: false,
        }
    }
}

/// The whole configuration record.
#[derive(Clone, Debug)]
pub struct Config {
    /// Model file to load instead of the default one.
    pub model_path: Option<String>,
    pub daemon: DaemonConfig,
}

impl Default for Config {
    fn default() -> (r: Self)
        ensures
            r.model_path is None,
            r.daemon == default_daemon_config(),
    {
        Config { model_path: None, daemon: DaemonConfig::default() }
    }
}

/// `base` extended by the relative path `rel`, with one `/` between them.
pub open spec fn joined(base: Seq<char>, rel: Seq<char>) -> Seq<char> {
    if base.len() == 0 || base.last() == '/' {
        base + rel
    } else {
        base + seq!['/'] + rel
    }
}

/// Appends the relative path `rel` to `base` (`Path::join` on a relative path).
pub fn join_path(base: &str, rel: &str) -> (r: String)
    ensures
        r@ == joined(base@, rel@),
{
    let n = base.unicode_len();
    let mut out = String::from_str(base);
    if n > 0 && base.get_char(n - 1) != '/' {
        out.append("/");
        proof {
            reveal_strlit("/");
        }
    }
    out.append(rel);
    out
}

pub open spec fn alfred_dir_of(home: Seq<char>) -> Seq<char> {
    joined(home, ".alfred"@)
}

/// The directory that holds the tool's files, under the home directory `home`.
pub fn alfred_dir(home: &str) -> (r: String)
    ensures
        r@ == alfred_dir_of(home@),
{
    join_path(home, ".alfred")
}

/// The configuration file.
pub fn config_path(home: &str) -> (r: String)
    ensures
        r@ == joined(alfred_dir_of(home@), "config.yaml"@),
{
    join_path(&alfred_dir(home), "config.yaml")
}

pub open spec fn models_dir_of(home: Seq<char>) -> Seq<char> {
    joined(alfred_dir_of(home), "models"@)
}

/// The directory that downloaded models go to.
pub fn models_dir(home: &str) -> (r: String)
    ensures
        r@ == models_dir_of(home@),
{
    join_path(&alfred_dir(home), "models")
}

/// The directory for native libraries.
pub fn lib_dir(home: &str) -> (r: String)
    ensures
        r@ == joined(alfred_dir_of(home@), "lib"@),
{
    join_path(&alfred_dir(home), "lib")
}

pub open spec fn default_model_path_of(home: Seq<char>) -> Seq<char> {
    joined(models_dir_of(home), "phi-3-mini-q4.gguf"@)
}

/// The model file used when the configuration names none.
pub fn default_model_path(home: &str) -> (r: String)
    ensures
        r@ == default_model_path_of(home@),
{
    join_path(&models_dir(home), "phi-3-mini-q4.gguf")
}

/// The file that records the running daemon's process id.
pub fn pid_file(home: &str) -> (r: String)
    ensures
        r@ == joined(alfred_dir_of(home@), "alferd.pid"@),
{
    join_path(&alfred_dir(home), "alferd.pid")
}

/// The model file to load: the configured one, or the default one when the
/// configuration could not be loaded or names none.
pub fn get_model_path(loaded: &Option<Config>, home: &str) -> (r: String)
    ensures
        r@ == (match loaded {
            Some(c) => match c.model_path {
                Some(p) => p@,
                None => default_model_path_of(home@),
            },
            None => default_model_path_of(home@),
        }),
{
    match loaded {
        Some(c) => match &c.model_path {
            Some(p) => p.clone(),
            None => default_model_path(home),
        },
        None => default_model_path(home),
    }
}

/// The daemon settings: the configured ones, or the defaults when the
/// configuration could not be loaded.
pub fn get_daemon_config(loaded: &Option<Config>) -> (r: DaemonConfig)
    ensures
        r == (match loaded {
            Some(c) => c.daemon,
            None => default_daemon_config(),
        }),
{
    match loaded {
        Some(c) => c.daemon,
        None => DaemonConfig::default(),
    }
}

} // verus!
