//! The one formatting rule every sink shares, and the dispatcher's decision
//! of whether a record is emitted at all.

use vstd::prelude::*;
use vstd::string::StringExecFns;

use crate::errors::SchemaError;
use crate::level::{spec_level_name, level_name, level_rank, filter_rank, level_passes, Level,
    LevelFilter};

verus! {

/// Whether a timestamp pattern is valid strftime syntax, as chrono's pattern
/// parser judges it: a function of the pattern alone.
pub uninterp spec fn strftime_ok(pattern: Seq<char>) -> bool;

/// Relies on chrono's strftime parser, `chrono::format::StrftimeItems`: the
/// items it yields, and so whether any of them is the invalid-pattern item,
/// depend on the pattern alone.
#[verifier::external_body]
fn strftime_items_valid(pattern: &str) -> (r: bool)
    ensures
        r == strftime_ok(pattern@),
{
    for item in chrono::format::StrftimeItems::new(pattern) {
        match item {
            chrono::format::Item::Literal(_) => {},
            chrono::format::Item::OwnedLiteral(_) => {},
            chrono::format::Item::Space(_) => {},
            chrono::format::Item::OwnedSpace(_) => {},
            chrono::format::Item::Numeric(_, _) => {},
            chrono::format::Item::Fixed(_) => {},
            chrono::format::Item::Error => return false,
        }
    }
    true
}

/// Validates a `dateFormat` pattern against the strftime grammar once, at
/// startup, rather than letting a bad pattern surface on the first emitted
/// record: valid patterns pass, every other pattern is the schema error for a
/// bad date format.
pub fn validate_date_format(pattern: &str) -> (r: Result<(), SchemaError>)
    ensures
        r is Ok <==> strftime_ok(pattern@),
        !strftime_ok(pattern@) ==> r == Err::<(), SchemaError>(SchemaError::BadDateFormat),
{
    if strftime_items_valid(pattern) {
        Ok(())
    } else {
        Err(SchemaError::BadDateFormat)
    }
}

/// The rendered form of one record: timestamp, emitting target, severity,
/// message, exactly as every sink writes it.
pub open spec fn spec_format_record(
    timestamp: Seq<char>,
    target: Seq<char>,
    level: Level,
    message: Seq<char>,
) -> Seq<char> {
    timestamp + " ["@ + target + "] ["@ + spec_level_name(level) + "]: "@ + message
}

/// Renders one record with the shared formatting rule.
pub fn format_record(timestamp: &str, target: &str, level: Level, message: &str) -> (r: String)
    ensures
        r@ == spec_format_record(timestamp@, target@, level, message@),
{
    let mut m = timestamp.to_owned();
    m.append(" [");
    m.append(target);
    m.append("] [");
    m.append(level_name(level));
    m.append("]: ");
    m.append(message);
    m
}

/// What the dispatcher hands each sink for one record: the rendered line if
/// the record's severity passes the configured filter, and nothing at all
/// otherwise — a dropped record is never formatted.
pub fn render_record(
    filter: LevelFilter,
    timestamp: &str,
    target: &str,
    level: Level,
    message: &str,
) -> (r: Option<String>)
    ensures
        level_rank(level) <= filter_rank(filter) ==> (r matches Some(line) && line@
            == spec_format_record(timestamp@, target@, level, message@)),
        level_rank(level) > filter_rank(filter) ==> r is None,
{
    if level_passes(level, filter) {
        Some(format_record(timestamp, target, level, message))
    } else {
        None
    }
}

} // verus!
