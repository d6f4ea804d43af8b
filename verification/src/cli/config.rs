//! Configuration: `[storage]`, `[tax]` and `[bus]` with their defaults,
//! and where the config file is looked for.

use vstd::prelude::*;
use crate::text::{chars_of, push_str_chars, string_from_chars};

verus! {

/// Why the configuration could not be loaded.
#[derive(Debug, Clone, PartialEq, Eq)]
pub enum ConfigError {
    /// Reading the file failed.
    Io {
        /// File path.
        path: String,
        /// The I/O error's message.
        message: String,
    },
    /// The file is not valid TOML for the schema.
    Parse {
        /// File path.
        path: String,
        /// The parser's message.
        message: String,
    },
}

/// The message a configuration error displays.
pub open spec fn config_error_message(e: ConfigError) -> Seq<char> {
    match e {
        ConfigError::Io { path, message } => "reading config file "@ + path@ + ": "@ + message@,
        ConfigError::Parse { path, message } => "parsing config TOML "@ + path@ + ": "@ + message@,
    }
}

impl ConfigError {
    /// Human-readable message.
    pub fn message(&self) -> (s: String)
        ensures
            s@ == config_error_message(*self),
    {
        let mut v: Vec<char> = Vec::new();
        match self {
            ConfigError::Io { path, message } => {
                push_str_chars(&mut v, "reading config file ");
                push_str_chars(&mut v, path.as_str());
                push_str_chars(&mut v, ": ");
                push_str_chars(&mut v, message.as_str());
            },
            ConfigError::Parse { path, message } => {
                push_str_chars(&mut v, "parsing config TOML ");
                push_str_chars(&mut v, path.as_str());
                push_str_chars(&mut v, ": ");
                push_str_chars(&mut v, message.as_str());
            },
        }
        string_from_chars(&v)
    }
}

/// Storage backend settings.
#[derive(Debug, Clone, PartialEq, Eq)]
pub struct StorageConfig {
    /// Backend name (`sqlite`).
    pub backend: String,
    /// Connection string.
    pub dsn: String,
}

/// Tax settings.
#[derive(Debug, Clone, PartialEq, Eq)]
pub struct TaxConfig {
    /// Path of the tax-table file.
    pub tax_tables: String,
}

/// Bus settings.
#[derive(Debug, Default, Clone, PartialEq, Eq)]
pub struct BusConfig {
    /// Inbound topics to subscribe to.
    pub topics_in: Vec<String>,
}

/// The whole configuration file.
#[derive(Debug, Clone, PartialEq, Eq)]
pub struct Config {
    /// `[storage]`
    pub storage: StorageConfig,
    /// `[tax]`
    pub tax: TaxConfig,
    /// `[bus]`
    pub bus: BusConfig,
}

/// Default storage backend: `sqlite`.
pub fn default_backend() -> (s: String)
    ensures
        s@ == "sqlite"@,
{
    "sqlite".to_string()
}

/// Default connection string: an in-memory SQLite database.
pub fn default_dsn() -> (s: String)
    ensures
        s@ == "sqlite::memory:"@,
{
    "sqlite::memory:".to_string()
}

/// Default tax-table path.
pub fn default_tax_tables() -> (s: String)
    ensures
        s@ == "tax-tables/default.toml"@,
{
    "tax-tables/default.toml".to_string()
}

impl Default for StorageConfig {
    fn default() -> (c: Self)
        ensures
            c.backend@ == "sqlite"@,
            c.dsn@ == "sqlite::memory:"@,
    {
        StorageConfig { backend: default_backend(), dsn: default_dsn() }
    }
}

impl Default for TaxConfig {
    fn default() -> (c: Self)
        ensures
            c.tax_tables@ == "tax-tables/default.toml"@,
    {
        TaxConfig { tax_tables: default_tax_tables() }
    }
}

impl Default for Config {
    fn default() -> (c: Self)
        ensures
            c.storage.backend@ == "sqlite"@,
            c.storage.dsn@ == "sqlite::memory:"@,
            c.tax.tax_tables@ == "tax-tables/default.toml"@,
            c.bus.topics_in@.len() == 0,
    {
        Config {
            storage: StorageConfig::default(),
            tax: TaxConfig::default(),
            bus: BusConfig { topics_in: Vec::new() },
        }
    }
}

/// `PathBuf::from(base).join(rel)` for a non-empty base and a relative
/// `rel`: a separator is added unless `base` already ends with one.
pub open spec fn path_join(base: Seq<char>, rel: Seq<char>) -> Seq<char> {
    if base.len() > 0 && base.last() == '/' {
        base + rel
    } else {
        base + "/"@ + rel
    }
}

/// Where the config file is looked for: `$XDG_CONFIG_HOME/inv/config.toml`
/// when that variable is set and non-empty, else
/// `$HOME/.config/inv/config.toml` when `HOME` is, else nowhere.
pub open spec fn default_config_path(xdg: Option<Seq<char>>, home: Option<Seq<char>>) -> Option<Seq<char>> {
    match xdg {
        Some(x) if x.len() > 0 => Some(path_join(path_join(x, "inv"@), "config.toml"@)),
        _ => match home {
            Some(h) if h.len() > 0 => Some(
                path_join(path_join(path_join(h, ".config"@), "inv"@), "config.toml"@),
            ),
            _ => None,
        },
    }
}

/// Join a relative path onto a non-empty base.
pub fn join_path(base: &str, rel: &str) -> (s: String)
    requires
        base@.len() > 0,
    ensures
        s@ == path_join(base@, rel@),
        s@.len() > 0,
{
    let b = chars_of(base);
    let mut v = chars_of(base);
    if b[b.len() - 1] != '/' {
        v.push('/');
    }
    push_str_chars(&mut v, rel);
    proof {
        reveal_strlit("/");
    }
    string_from_chars(&v)
}

/// The text of an optional string.
pub open spec fn opt_text(o: Option<String>) -> Option<Seq<char>> {
    match o {
        Some(s) => Some(s@),
        None => None,
    }
}

/// The config file path, from the values of `XDG_CONFIG_HOME` and `HOME`.
pub fn config_path_from_env(xdg: &Option<String>, home: &Option<String>) -> (r: Option<String>)
    ensures
        opt_text(r) == default_config_path(opt_text(*xdg), opt_text(*home)),
{
    if let Some(x) = xdg {
        if chars_of(x.as_str()).len() > 0 {
            let a = join_path(x.as_str(), "inv");
            return Some(join_path(a.as_str(), "config.toml"));
        }
    }
    if let Some(h) = home {
        if chars_of(h.as_str()).len() > 0 {
            let a = join_path(h.as_str(), ".config");
            let b = join_path(a.as_str(), "inv");
            return Some(join_path(b.as_str(), "config.toml"));
        }
    }
    None
}

} // verus!
