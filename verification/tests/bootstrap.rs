use montar::config::{default_address, default_date_format, default_level_filter, Config,
    LogConfig, Montar};
use montar::emit::to_document;
use montar::errors::{encoding_failure_line, exit_status, install_failure_line, open_failure_line,
    schema_error_text, schema_failure_line, sink_failure_line, BootstrapError, SchemaError};
use montar::level::{filter_name, level_name, level_passes, Level, LevelFilter};
use montar::logfmt::{format_record, render_record, validate_date_format};
use montar::parse::{parse_config, parse_filter_chars};

#[test]
fn missing_log_section_is_rejected_with_status_3() {
    assert_eq!(parse_config("").unwrap_err(), SchemaError::MissingLog);
    assert_eq!(
        parse_config("address = \"0.0.0.0:1\"\n").unwrap_err(),
        SchemaError::MissingLog
    );
    assert_eq!(exit_status(BootstrapError::ConfigSchemaError), 3);
}

#[test]
fn empty_log_section_yields_log_defaults() {
    let c = parse_config("[log]\n").unwrap();
    assert_eq!(c.address, "127.0.0.1:25565");
    assert_eq!(c.log.level, LevelFilter::Info);
    assert_eq!(c.log.date_format, "%d-%m-%Y %H-%M-%S");
    assert!(c.log.files.is_empty());
}

#[test]
fn partial_document_keeps_defaults_for_the_rest() {
    let c = parse_config("address = \"0.0.0.0:1\"\n[log]\n").unwrap();
    assert_eq!(c.address, "0.0.0.0:1");
    assert_eq!(c.log.level, LevelFilter::Info);
    assert_eq!(c.log.date_format, "%d-%m-%Y %H-%M-%S");
    assert!(c.log.files.is_empty());

    let c = parse_config("[log]\nlevel = \"Debug\"\n").unwrap();
    assert_eq!(c.address, "127.0.0.1:25565");
    assert_eq!(c.log.level, LevelFilter::Debug);
    assert_eq!(c.log.date_format, "%d-%m-%Y %H-%M-%S");
}

#[test]
fn default_helpers_match_documented_values() {
    assert_eq!(default_address(), "127.0.0.1:25565");
    assert_eq!(default_level_filter(), LevelFilter::Info);
    assert_eq!(default_date_format(), "%d-%m-%Y %H-%M-%S");
}

#[test]
fn unknown_level_is_a_schema_error_with_status_3() {
    let r = parse_config("[log]\nlevel = \"Verbose\"\n");
    assert_eq!(r.unwrap_err(), SchemaError::UnknownLevel);
    assert_eq!(exit_status(BootstrapError::ConfigSchemaError), 3);
}

#[test]
fn level_casing_is_not_coerced() {
    let r = parse_config("[log]\nlevel = \"INFO\"\n");
    assert_eq!(r.unwrap_err(), SchemaError::UnknownLevel);
}

#[test]
fn exit_statuses_are_distinct_per_failure() {
    assert_eq!(exit_status(BootstrapError::ConfigFileNotFound), 1);
    assert_eq!(exit_status(BootstrapError::ConfigEncodingError), 2);
    assert_eq!(exit_status(BootstrapError::ConfigSchemaError), 3);
    assert_eq!(exit_status(BootstrapError::LoggingSinkError), 4);
    assert_eq!(exit_status(BootstrapError::LoggingInstallError), 4);
}

#[test]
fn open_failure_diagnostic_names_the_path() {
    let line = open_failure_line("missing.toml");
    assert_eq!(
        line,
        "Could not open configuration file located at 'missing.toml' because of the following error:"
    );
    assert!(line.contains("missing.toml"));
}

#[test]
fn sink_failure_diagnostic_names_the_path() {
    let line = sink_failure_line("/no/such/dir/a.log");
    assert_eq!(
        line,
        "Could not open log file located at '/no/such/dir/a.log' because of the following error:"
    );
    assert_eq!(exit_status(BootstrapError::LoggingSinkError), 4);
}

#[test]
fn fixed_diagnostic_lines() {
    assert_eq!(
        encoding_failure_line(),
        "The configuration file could not be read, maybe try converting it to UTF-8?"
    );
    assert_eq!(
        schema_failure_line(),
        "The provided configuration file contains at least one error:"
    );
    assert_eq!(
        install_failure_line(),
        "The logging configuration could not be set up because of the following error:"
    );
}

#[test]
fn schema_error_texts_are_distinct() {
    let all = [
        SchemaError::Syntax,
        SchemaError::UnknownKey,
        SchemaError::DuplicateKey,
        SchemaError::WrongType,
        SchemaError::UnknownLevel,
        SchemaError::MissingLog,
        SchemaError::BadDateFormat,
    ];
    for i in 0..all.len() {
        for j in 0..all.len() {
            if i != j {
                assert_ne!(schema_error_text(all[i]), schema_error_text(all[j]));
            }
        }
    }
}

#[test]
fn severity_filter_orders_levels() {
    assert!(!level_passes(Level::Info, LevelFilter::Warn));
    assert!(level_passes(Level::Warn, LevelFilter::Warn));
    assert!(level_passes(Level::Error, LevelFilter::Warn));
    assert!(!level_passes(Level::Error, LevelFilter::Off));
    assert!(level_passes(Level::Trace, LevelFilter::Trace));
    assert!(!level_passes(Level::Trace, LevelFilter::Debug));
}

#[test]
fn format_record_renders_the_documented_shape() {
    let line = format_record("01-02-2003 04-05-06", "montar", Level::Warn, "hello");
    assert_eq!(line, "01-02-2003 04-05-06 [montar] [WARN]: hello");
}

#[test]
fn render_record_drops_below_the_filter() {
    let none = render_record(LevelFilter::Warn, "t", "montar", Level::Info, "quiet");
    assert!(none.is_none());
    let some = render_record(LevelFilter::Warn, "t", "montar", Level::Warn, "loud");
    assert_eq!(some.unwrap(), "t [montar] [WARN]: loud");
}

#[test]
fn level_names_match_the_log_convention() {
    assert_eq!(level_name(Level::Error), "ERROR");
    assert_eq!(level_name(Level::Warn), "WARN");
    assert_eq!(level_name(Level::Info), "INFO");
    assert_eq!(level_name(Level::Debug), "DEBUG");
    assert_eq!(level_name(Level::Trace), "TRACE");
}

#[test]
fn filter_names_round_trip_through_parsing() {
    let filters = [
        LevelFilter::Off,
        LevelFilter::Error,
        LevelFilter::Warn,
        LevelFilter::Info,
        LevelFilter::Debug,
        LevelFilter::Trace,
    ];
    for f in filters {
        let name: Vec<char> = filter_name(f).chars().collect();
        assert_eq!(parse_filter_chars(&name), Some(f));
    }
    let bad: Vec<char> = "Loud".chars().collect();
    assert_eq!(parse_filter_chars(&bad), None);
}

#[test]
fn full_document_parses_every_field() {
    let doc = "address = \"0.0.0.0:1234\"\n[log]\nlevel = \"Warn\"\nfiles = [\"a.log\", \"b.log\"]\n";
    let c = parse_config(doc).unwrap();
    assert_eq!(c.address, "0.0.0.0:1234");
    assert_eq!(c.log.level, LevelFilter::Warn);
    assert_eq!(c.log.date_format, "%d-%m-%Y %H-%M-%S");
    assert_eq!(c.log.files, vec!["a.log".to_owned(), "b.log".to_owned()]);
}

#[test]
fn round_trip_preserves_every_field() {
    let c = Config {
        address: "0.0.0.0:1234".to_owned(),
        log: LogConfig {
            level: LevelFilter::Warn,
            date_format: "%Y-%m-%d %H:%M:%S".to_owned(),
            files: vec!["a.log".to_owned(), "b.log".to_owned()],
        },
    };
    let doc = to_document(&c);
    let back = parse_config(&doc).unwrap();
    assert_eq!(back.address, c.address);
    assert_eq!(back.log.level, c.log.level);
    assert_eq!(back.log.date_format, c.log.date_format);
    assert_eq!(back.log.files, c.log.files);
}

#[test]
fn to_document_writes_the_exact_text() {
    let c = Config {
        address: "h:1".to_owned(),
        log: LogConfig {
            level: LevelFilter::Off,
            date_format: "%H".to_owned(),
            files: vec!["x".to_owned()],
        },
    };
    assert_eq!(
        to_document(&c),
        "address = \"h:1\"\n[log]\nlevel = \"Off\"\ndateFormat = \"%H\"\nfiles = [\"x\"]\n"
    );
}

#[test]
fn malformed_lines_are_syntax_errors() {
    assert_eq!(parse_config("address\n").unwrap_err(), SchemaError::Syntax);
    assert_eq!(parse_config("address = bare\n").unwrap_err(), SchemaError::Syntax);
    assert_eq!(parse_config("address = \"open\n").unwrap_err(), SchemaError::Syntax);
    assert_eq!(parse_config("address = \"a\\\\b\"\n").unwrap_err(), SchemaError::Syntax);
    assert_eq!(parse_config("[log\n").unwrap_err(), SchemaError::Syntax);
}

#[test]
fn unknown_keys_and_sections_are_rejected() {
    assert_eq!(parse_config("port = \"1\"\n").unwrap_err(), SchemaError::UnknownKey);
    assert_eq!(parse_config("[net]\n").unwrap_err(), SchemaError::UnknownKey);
    assert_eq!(
        parse_config("[log]\ncolour = \"red\"\n").unwrap_err(),
        SchemaError::UnknownKey
    );
}

#[test]
fn duplicate_keys_are_rejected() {
    assert_eq!(
        parse_config("address = \"a\"\naddress = \"b\"\n").unwrap_err(),
        SchemaError::DuplicateKey
    );
    assert_eq!(
        parse_config("[log]\nlevel = \"Info\"\nlevel = \"Warn\"\n").unwrap_err(),
        SchemaError::DuplicateKey
    );
    assert_eq!(parse_config("[log]\n[log]\n").unwrap_err(), SchemaError::DuplicateKey);
}

#[test]
fn values_of_the_wrong_shape_are_rejected() {
    assert_eq!(
        parse_config("address = [\"a\"]\n").unwrap_err(),
        SchemaError::WrongType
    );
    assert_eq!(
        parse_config("[log]\nfiles = \"a.log\"\n").unwrap_err(),
        SchemaError::WrongType
    );
    assert_eq!(parse_config("log = \"x\"\n").unwrap_err(), SchemaError::WrongType);
}

#[test]
fn comments_and_whitespace_are_ignored() {
    let doc = "# montar configuration\n\n  address = \"a:1\"  # bind here\n\t\n[log] # section\n";
    let c = parse_config(doc).unwrap();
    assert_eq!(c.address, "a:1");
}

#[test]
fn arrays_allow_spacing_and_trailing_comma() {
    let c = parse_config("[log]\nfiles = []\n").unwrap();
    assert!(c.log.files.is_empty());
    let c = parse_config("[log]\nfiles = [ \"a\" , \"b\" , ]\n").unwrap();
    assert_eq!(c.log.files, vec!["a".to_owned(), "b".to_owned()]);
}

#[test]
fn date_format_validation_accepts_and_rejects() {
    assert!(validate_date_format("%d-%m-%Y %H-%M-%S").is_ok());
    assert!(validate_date_format("plain text").is_ok());
    assert_eq!(validate_date_format("%").unwrap_err(), SchemaError::BadDateFormat);
    assert_eq!(exit_status(BootstrapError::ConfigSchemaError), 3);
}

#[test]
fn date_format_key_parses_from_the_document() {
    let c = parse_config("[log]\ndateFormat = \"%H:%M\"\n").unwrap();
    assert_eq!(c.log.date_format, "%H:%M");
}

#[test]
fn carriage_returns_count_as_line_padding() {
    let c = parse_config("address = \"a\"\r\n[log]\r\n").unwrap();
    assert_eq!(c.address, "a");
}

#[test]
fn montar_starts_with_its_configuration() {
    let c = parse_config("address = \"0.0.0.0:9\"\n[log]\n").unwrap();
    let mut m = Montar::new(c);
    m.start();
}
