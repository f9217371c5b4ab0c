//! The typed configuration produced by the loader, its documented defaults,
//! and the `Montar` instance that owns it for the rest of the process.

use vstd::prelude::*;

use crate::level::LevelFilter;

verus! {

/// Mathematical value of a [`LogConfig`].
pub ghost struct LogConfigView {
    pub level: LevelFilter,
    pub date_format: Seq<char>,
    pub files: Seq<Seq<char>>,
}

/// Mathematical value of a [`Config`].
pub ghost struct ConfigView {
    pub address: Seq<char>,
    pub log: LogConfigView,
}

/// The logging section of the configuration.
#[derive(Debug)]
pub struct LogConfig {
    /// Minimum severity to emit.
    pub level: LevelFilter,
    /// strftime-style pattern rendering the local timestamp of every record.
    pub date_format: String,
    /// Paths of additional log destinations, each opened for append, in
    /// attachment order.
    pub files: Vec<String>,
}

/// The root settings object, constructed once at startup and immutable
/// afterwards.
#[derive(Debug)]
pub struct Config {
    /// Address the server binds to.
    pub address: String,
    /// The logging section.
    pub log: LogConfig,
}

impl View for LogConfig {
    type V = LogConfigView;

    open spec fn view(&self) -> LogConfigView {
        LogConfigView { level: self.level, date_format: self.date_format@, files: self.files.deep_view() }
    }
}

impl View for Config {
    type V = ConfigView;

    open spec fn view(&self) -> ConfigView {
        ConfigView { address: self.address@, log: self.log@ }
    }
}

/// Default bind address.
pub open spec fn spec_default_address() -> Seq<char> {
    "127.0.0.1:25565"@
}

/// Default minimum severity.
pub open spec fn spec_default_level_filter() -> LevelFilter {
    LevelFilter::Info
}

/// Default timestamp pattern: day-month-year, hour-minute-second.
pub open spec fn spec_default_date_format() -> Seq<char> {
    "%d-%m-%Y %H-%M-%S"@
}

/// The configuration in which every field holds its documented default and no
/// extra file destination is attached: what a document consisting of an empty
/// `log` section yields.
pub open spec fn spec_default_config() -> ConfigView {
    ConfigView {
        address: spec_default_address(),
        log: LogConfigView {
            level: spec_default_level_filter(),
            date_format: spec_default_date_format(),
            files: Seq::empty(),
        },
    }
}

/// Default bind address.
pub fn default_address() -> (r: String)
    ensures
        r@ == spec_default_address(),
{
    "127.0.0.1:25565".to_owned()
}

/// Default minimum severity.
pub fn default_level_filter() -> (r: LevelFilter)
    ensures
        r == spec_default_level_filter(),
{
    LevelFilter::Info
}

/// Default timestamp pattern.
pub fn default_date_format() -> (r: String)
    ensures
        r@ == spec_default_date_format(),
{
    "%d-%m-%Y %H-%M-%S".to_owned()
}

/// A server instance. It owns the configuration for the remainder of the
/// process lifetime; nothing mutates the configuration after construction.
pub struct Montar {
    config: Config,
}

impl Montar {
    /// The configuration this instance was constructed with.
    pub closed spec fn config(&self) -> ConfigView {
        self.config@
    }

    /// Create a new montar instance with a configuration.
    pub fn new(config: Config) -> (m: Montar)
        ensures
            m.config() == config@,
    {
        Montar { config }
    }

    /// Start montar. A deliberate placeholder: the server logic is future
    /// work, so starting changes nothing observable.
    pub fn start(&mut self)
        ensures
            final(self).config() == old(self).config(),
    {
    }
}

} // verus!
