//! Failure taxonomy of the bootstrap pipeline: every failure mode, its exit
//! status, and the first line of its two-line diagnostic.

use vstd::prelude::*;
use vstd::string::StringExecFns;

verus! {

/// A reason a configuration document is rejected by the schema.
#[derive(Clone, Copy, Debug, PartialEq, Eq, Structural)]
pub enum SchemaError {
    /// A line does not match the document grammar.
    Syntax,
    /// A key or a section the schema does not know.
    UnknownKey,
    /// A key or a section given twice.
    DuplicateKey,
    /// A known key whose value has the wrong shape.
    WrongType,
    /// A `level` value outside the enumerated set.
    UnknownLevel,
    /// The required `log` section is absent from the document.
    MissingLog,
    /// A `dateFormat` value that is not a valid strftime pattern.
    BadDateFormat,
}

/// A fatal startup failure. Each variant terminates the process with its own
/// exit status after a two-line diagnostic.
#[derive(Clone, Copy, Debug, PartialEq, Eq, Structural)]
pub enum BootstrapError {
    /// The configuration file could not be opened.
    ConfigFileNotFound,
    /// The configuration file is not valid UTF-8 text.
    ConfigEncodingError,
    /// The configuration document does not match the schema.
    ConfigSchemaError,
    /// A configured log destination could not be opened.
    LoggingSinkError,
    /// The assembled dispatcher could not be installed process-wide.
    LoggingInstallError,
}

/// The process exit status of each failure: 1 for an unopenable configuration
/// file, 2 for an encoding failure, 3 for a schema failure, 4 for a logging
/// failure (sink or install).
pub open spec fn spec_exit_status(e: BootstrapError) -> int {
    match e {
        BootstrapError::ConfigFileNotFound => 1,
        BootstrapError::ConfigEncodingError => 2,
        BootstrapError::ConfigSchemaError => 3,
        BootstrapError::LoggingSinkError => 4,
        BootstrapError::LoggingInstallError => 4,
    }
}

/// The process exit status of a failure.
pub fn exit_status(e: BootstrapError) -> (s: i32)
    ensures
        s == spec_exit_status(e),
{
    match e {
        BootstrapError::ConfigFileNotFound => 1,
        BootstrapError::ConfigEncodingError => 2,
        BootstrapError::ConfigSchemaError => 3,
        BootstrapError::LoggingSinkError => 4,
        BootstrapError::LoggingInstallError => 4,
    }
}

/// First diagnostic line when the configuration file at `path` cannot be
/// opened; it names the attempted path.
pub open spec fn spec_open_failure_line(path: Seq<char>) -> Seq<char> {
    "Could not open configuration file located at '"@ + path
        + "' because of the following error:"@
}

/// First diagnostic line when the configuration file at `path` cannot be
/// opened.
pub fn open_failure_line(path: &str) -> (r: String)
    ensures
        r@ == spec_open_failure_line(path@),
{
    let mut m = "Could not open configuration file located at '".to_owned();
    m.append(path);
    m.append("' because of the following error:");
    m
}

/// First diagnostic line when the configuration file is not UTF-8 text.
pub open spec fn spec_encoding_failure_line() -> Seq<char> {
    "The configuration file could not be read, maybe try converting it to UTF-8?"@
}

/// First diagnostic line when the configuration file is not UTF-8 text.
pub fn encoding_failure_line() -> (r: String)
    ensures
        r@ == spec_encoding_failure_line(),
{
    "The configuration file could not be read, maybe try converting it to UTF-8?".to_owned()
}

/// First diagnostic line when the configuration document is rejected.
pub open spec fn spec_schema_failure_line() -> Seq<char> {
    "The provided configuration file contains at least one error:"@
}

/// First diagnostic line when the configuration document is rejected.
pub fn schema_failure_line() -> (r: String)
    ensures
        r@ == spec_schema_failure_line(),
{
    "The provided configuration file contains at least one error:".to_owned()
}

/// First diagnostic line when the log destination at `path` cannot be opened;
/// it names the offending path.
pub open spec fn spec_sink_failure_line(path: Seq<char>) -> Seq<char> {
    "Could not open log file located at '"@ + path + "' because of the following error:"@
}

/// First diagnostic line when the log destination at `path` cannot be opened.
pub fn sink_failure_line(path: &str) -> (r: String)
    ensures
        r@ == spec_sink_failure_line(path@),
{
    let mut m = "Could not open log file located at '".to_owned();
    m.append(path);
    m.append("' because of the following error:");
    m
}

/// First diagnostic line when the assembled dispatcher cannot be installed.
pub open spec fn spec_install_failure_line() -> Seq<char> {
    "The logging configuration could not be set up because of the following error:"@
}

/// First diagnostic line when the assembled dispatcher cannot be installed.
pub fn install_failure_line() -> (r: String)
    ensures
        r@ == spec_install_failure_line(),
{
    "The logging configuration could not be set up because of the following error:".to_owned()
}

/// The second diagnostic line of a schema failure: what the parser objected
/// to, in words.
pub open spec fn spec_schema_error_text(e: SchemaError) -> Seq<char> {
    match e {
        SchemaError::Syntax => "a line does not match the expected key-value grammar"@,
        SchemaError::UnknownKey => "an unrecognized key or section"@,
        SchemaError::DuplicateKey => "a key or section is given twice"@,
        SchemaError::WrongType => "a value of the wrong type or shape"@,
        SchemaError::UnknownLevel => "a log level outside Trace, Debug, Info, Warn, Error, Off"@,
        SchemaError::MissingLog => "the required log section is missing"@,
        SchemaError::BadDateFormat => "the date format is not a valid strftime pattern"@,
    }
}

/// The second diagnostic line of a schema failure.
pub fn schema_error_text(e: SchemaError) -> (r: &'static str)
    ensures
        r@ == spec_schema_error_text(e),
{
    match e {
        SchemaError::Syntax => "a line does not match the expected key-value grammar",
        SchemaError::UnknownKey => "an unrecognized key or section",
        SchemaError::DuplicateKey => "a key or section is given twice",
        SchemaError::WrongType => "a value of the wrong type or shape",
        SchemaError::UnknownLevel => "a log level outside Trace, Debug, Info, Warn, Error, Off",
        SchemaError::MissingLog => "the required log section is missing",
        SchemaError::BadDateFormat => "the date format is not a valid strftime pattern",
    }
}

} // verus!
