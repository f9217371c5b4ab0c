//! The configuration document grammar and its parser.
//!
//! A document is a sequence of lines. A line is blank (possibly a `#`
//! comment), a section header `[name]`, or a key-value pair `key = value`
//! where a value is a double-quoted string or an array of such strings. The
//! schema knows one top-level key, `address`, and one section, `log`, with
//! keys `level`, `dateFormat` and `files`. The `log` section is required (it
//! may be empty); every field is optional and defaults as documented. A
//! document without `[log]`, unknown or duplicate keys, malformed lines,
//! values of the wrong shape, and `level` strings outside the enumerated set
//! are all rejected, each with its own [`SchemaError`].

use vstd::prelude::*;
use vstd::slice::{slice_subrange, slice_to_vec};

use crate::config::{Config, ConfigView, LogConfig, LogConfigView, spec_default_address,
    spec_default_date_format, spec_default_level_filter, default_address, default_date_format,
    default_level_filter};
use crate::errors::SchemaError;
use crate::level::{spec_parse_filter, LevelFilter};
use crate::text::{chars_of, eq_str, string_of};

verus! {

/// Whitespace that may pad a line's tokens.
pub open spec fn is_ws_char(c: char) -> bool {
    c == ' ' || c == '\t' || c == '\r'
}

/// Characters a bare key is made of.
pub open spec fn is_key_char(c: char) -> bool {
    ('a' <= c && c <= 'z') || ('A' <= c && c <= 'Z') || ('0' <= c && c <= '9') || c == '_'
        || c == '-'
}

/// A character that may stand verbatim inside a quoted string: not the
/// closing quote, not a backslash, and not a control character.
pub open spec fn is_clean_char(c: char) -> bool {
    c != '"' && c != '\\' && (c as u32) >= 0x20 && (c as u32) != 0x7f
}

/// A string whose characters may all stand verbatim inside quotes.
pub open spec fn clean_string(s: Seq<char>) -> bool {
    forall|i: int| 0 <= i < s.len() ==> is_clean_char(s[i])
}

/// First position at or after `i` that holds no whitespace, or the line's end.
pub open spec fn skip_ws(l: Seq<char>, i: int) -> int
    decreases l.len() - i,
{
    if 0 <= i < l.len() && is_ws_char(l[i]) {
        skip_ws(l, i + 1)
    } else {
        i
    }
}

/// First position at or after `i` that holds no key character.
pub open spec fn key_end(l: Seq<char>, i: int) -> int
    decreases l.len() - i,
{
    if 0 <= i < l.len() && is_key_char(l[i]) {
        key_end(l, i + 1)
    } else {
        i
    }
}

/// Position of the quote closing a string whose content starts at `i`, or the
/// error for a string that runs off the line or holds a character that may
/// not stand in one.
pub open spec fn string_end(l: Seq<char>, i: int) -> Result<int, SchemaError>
    decreases l.len() - i,
{
    if !(0 <= i < l.len()) {
        Err(SchemaError::Syntax)
    } else if l[i] == '"' {
        Ok(i)
    } else if is_clean_char(l[i]) {
        string_end(l, i + 1)
    } else {
        Err(SchemaError::Syntax)
    }
}

/// A parsed value: a quoted string, or an array of quoted strings.
pub ghost enum ValueView {
    VStr(Seq<char>),
    VArr(Seq<Seq<char>>),
}

/// Parses the items of an array from position `i` (whitespace already
/// skipped, the opening bracket already consumed) up to and including the
/// closing bracket; returns the items after `acc` and the position past the
/// bracket.
pub open spec fn array_rest(l: Seq<char>, i: int, acc: Seq<Seq<char>>) -> Result<
    (Seq<Seq<char>>, int),
    SchemaError,
>
    decreases l.len() - i,
{
    if !(0 <= i < l.len()) {
        Err(SchemaError::Syntax)
    } else if l[i] == ']' {
        Ok((acc, i + 1))
    } else if l[i] == '"' {
        match string_end(l, i + 1) {
            Err(e) => Err(e),
            Ok(e) => {
                let s = l.subrange(i + 1, e);
                let j = skip_ws(l, e + 1);
                if !(0 <= j < l.len()) {
                    Err(SchemaError::Syntax)
                } else if l[j] == ']' {
                    Ok((acc.push(s), j + 1))
                } else if l[j] == ',' {
                    let j2 = skip_ws(l, j + 1);
                    if i < j2 <= l.len() {
                        array_rest(l, j2, acc.push(s))
                    } else {
                        Err(SchemaError::Syntax)
                    }
                } else {
                    Err(SchemaError::Syntax)
                }
            },
        }
    } else {
        Err(SchemaError::Syntax)
    }
}

/// Parses one value starting at position `i` and returns it with the position
/// just past it.
pub open spec fn spec_parse_value(l: Seq<char>, i: int) -> Result<(ValueView, int), SchemaError> {
    if !(0 <= i < l.len()) {
        Err(SchemaError::Syntax)
    } else if l[i] == '"' {
        match string_end(l, i + 1) {
            Err(e) => Err(e),
            Ok(e) => Ok((ValueView::VStr(l.subrange(i + 1, e)), e + 1)),
        }
    } else if l[i] == '[' {
        match array_rest(l, skip_ws(l, i + 1), Seq::empty()) {
            Err(e) => Err(e),
            Ok((items, j)) => Ok((ValueView::VArr(items), j)),
        }
    } else {
        Err(SchemaError::Syntax)
    }
}

/// What one line of the document says.
pub ghost enum LineView {
    /// Nothing: whitespace, possibly followed by a comment.
    Blank,
    /// A section header naming the section.
    Section(Seq<char>),
    /// A key with its value.
    KeyVal(Seq<char>, ValueView),
    /// A line that does not match the grammar.
    Bad(SchemaError),
}

/// Parses one line (the text between two line breaks).
pub open spec fn spec_parse_line(l: Seq<char>) -> LineView {
    let i = skip_ws(l, 0);
    if !(0 <= i < l.len()) {
        LineView::Blank
    } else if l[i] == '#' {
        LineView::Blank
    } else if l[i] == '[' {
        let j = skip_ws(l, i + 1);
        let k = key_end(l, j);
        if k == j || !(0 <= j <= k <= l.len()) {
            LineView::Bad(SchemaError::Syntax)
        } else {
            let key = l.subrange(j, k);
            let j2 = skip_ws(l, k);
            if 0 <= j2 < l.len() && l[j2] == ']' {
                let j3 = skip_ws(l, j2 + 1);
                if !(0 <= j3 < l.len()) || l[j3] == '#' {
                    LineView::Section(key)
                } else {
                    LineView::Bad(SchemaError::Syntax)
                }
            } else {
                LineView::Bad(SchemaError::Syntax)
            }
        }
    } else {
        let k = key_end(l, i);
        if k == i || !(0 <= i <= k <= l.len()) {
            LineView::Bad(SchemaError::Syntax)
        } else {
            let key = l.subrange(i, k);
            let j = skip_ws(l, k);
            if 0 <= j < l.len() && l[j] == '=' {
                let j2 = skip_ws(l, j + 1);
                match spec_parse_value(l, j2) {
                    Err(e) => LineView::Bad(e),
                    Ok((v, j3)) => {
                        let j4 = skip_ws(l, j3);
                        if !(0 <= j4 < l.len()) || l[j4] == '#' {
                            LineView::KeyVal(key, v)
                        } else {
                            LineView::Bad(SchemaError::Syntax)
                        }
                    },
                }
            } else {
                LineView::Bad(SchemaError::Syntax)
            }
        }
    }
}

/// Position of the first line break at or after `i`, or the document's end.
pub open spec fn line_break(s: Seq<char>, i: int) -> int
    decreases s.len() - i,
{
    if 0 <= i < s.len() {
        if s[i] == '\n' {
            i
        } else {
            line_break(s, i + 1)
        }
    } else {
        s.len() as int
    }
}

/// The document's lines: the text between consecutive line breaks. A trailing
/// line break opens no further line.
pub open spec fn split_lines(s: Seq<char>) -> Seq<Seq<char>>
    decreases s.len(),
{
    if s.len() == 0 {
        Seq::empty()
    } else {
        let e = line_break(s, 0);
        if !(0 <= e < s.len()) {
            seq![s]
        } else {
            seq![s.subrange(0, e)] + split_lines(s.subrange(e + 1, s.len() as int))
        }
    }
}

/// The fields a document gave explicitly, before defaulting.
pub ghost struct RawDocView {
    pub address: Option<Seq<char>>,
    pub log_seen: bool,
    pub level: Option<Seq<char>>,
    pub date_format: Option<Seq<char>>,
    pub files: Option<Seq<Seq<char>>>,
}

/// Which section the lines read so far have opened.
pub ghost enum SectionView {
    Top,
    LogSection,
}

/// Parser state: the open section and the fields seen so far.
pub ghost struct ParseStateView {
    pub section: SectionView,
    pub raw: RawDocView,
}

/// The state before any line is read: top level, no field seen.
pub open spec fn initial_state() -> ParseStateView {
    ParseStateView {
        section: SectionView::Top,
        raw: RawDocView {
            address: None,
            log_seen: false,
            level: None,
            date_format: None,
            files: None,
        },
    }
}

/// Folds one parsed line into the state: blank lines change nothing, `[log]`
/// opens the log section once, and each known key stores its value once, in
/// the section that owns it.
pub open spec fn step_line(st: ParseStateView, line: LineView) -> Result<
    ParseStateView,
    SchemaError,
> {
    match line {
        LineView::Blank => Ok(st),
        LineView::Bad(e) => Err(e),
        LineView::Section(k) => if k == "log"@ {
            if st.raw.log_seen {
                Err(SchemaError::DuplicateKey)
            } else {
                Ok(
                    ParseStateView {
                        section: SectionView::LogSection,
                        raw: RawDocView { log_seen: true, ..st.raw },
                    },
                )
            }
        } else {
            Err(SchemaError::UnknownKey)
        },
        LineView::KeyVal(k, v) => match st.section {
            SectionView::Top => if k == "address"@ {
                match v {
                    ValueView::VStr(s) => if st.raw.address is Some {
                        Err(SchemaError::DuplicateKey)
                    } else {
                        Ok(ParseStateView { raw: RawDocView { address: Some(s), ..st.raw }, ..st })
                    },
                    ValueView::VArr(_) => Err(SchemaError::WrongType),
                }
            } else if k == "log"@ {
                Err(SchemaError::WrongType)
            } else {
                Err(SchemaError::UnknownKey)
            },
            SectionView::LogSection => if k == "level"@ {
                match v {
                    ValueView::VStr(s) => if st.raw.level is Some {
                        Err(SchemaError::DuplicateKey)
                    } else {
                        Ok(ParseStateView { raw: RawDocView { level: Some(s), ..st.raw }, ..st })
                    },
                    ValueView::VArr(_) => Err(SchemaError::WrongType),
                }
            } else if k == "dateFormat"@ {
                match v {
                    ValueView::VStr(s) => if st.raw.date_format is Some {
                        Err(SchemaError::DuplicateKey)
                    } else {
                        Ok(
                            ParseStateView {
                                raw: RawDocView { date_format: Some(s), ..st.raw },
                                ..st
                            },
                        )
                    },
                    ValueView::VArr(_) => Err(SchemaError::WrongType),
                }
            } else if k == "files"@ {
                match v {
                    ValueView::VArr(items) => if st.raw.files is Some {
                        Err(SchemaError::DuplicateKey)
                    } else {
                        Ok(ParseStateView { raw: RawDocView { files: Some(items), ..st.raw }, ..st })
                    },
                    ValueView::VStr(_) => Err(SchemaError::WrongType),
                }
            } else {
                Err(SchemaError::UnknownKey)
            },
        },
    }
}

/// Folds a sequence of lines, in order, into the fields they give.
pub open spec fn parse_lines(lines: Seq<Seq<char>>, st: ParseStateView) -> Result<
    RawDocView,
    SchemaError,
>
    decreases lines.len(),
{
    if lines.len() == 0 {
        Ok(st.raw)
    } else {
        match step_line(st, spec_parse_line(lines[0])) {
            Ok(st2) => parse_lines(lines.drop_first(), st2),
            Err(e) => Err(e),
        }
    }
}

/// Applies the documented default to every field the document left out;
/// rejects a `level` string outside the enumerated set, and a document whose
/// required `log` section never appeared.
pub open spec fn finalize(raw: RawDocView) -> Result<ConfigView, SchemaError> {
    let level = match raw.level {
        None => Some(spec_default_level_filter()),
        Some(s) => spec_parse_filter(s),
    };
    match level {
        None => Err(SchemaError::UnknownLevel),
        Some(f) => if !raw.log_seen {
            Err(SchemaError::MissingLog)
        } else {
            Ok(
            ConfigView {
                address: match raw.address {
                    None => spec_default_address(),
                    Some(a) => a,
                },
                log: LogConfigView {
                    level: f,
                    date_format: match raw.date_format {
                        None => spec_default_date_format(),
                        Some(d) => d,
                    },
                    files: match raw.files {
                        None => Seq::empty(),
                        Some(fs) => fs,
                    },
                },
            },
        )
        },
    }
}

/// The configuration a document denotes: its lines folded in order, then
/// every absent field defaulted — or the first schema error.
pub open spec fn spec_parse_config(s: Seq<char>) -> Result<ConfigView, SchemaError> {
    match parse_lines(split_lines(s), initial_state()) {
        Ok(raw) => finalize(raw),
        Err(e) => Err(e),
    }
}

fn is_ws(c: char) -> (r: bool)
    ensures
        r == is_ws_char(c),
{
    c == ' ' || c == '\t' || c == '\r'
}

fn is_key(c: char) -> (r: bool)
    ensures
        r == is_key_char(c),
{
    ('a' <= c && c <= 'z') || ('A' <= c && c <= 'Z') || ('0' <= c && c <= '9') || c == '_'
        || c == '-'
}

fn is_clean(c: char) -> (r: bool)
    ensures
        r == is_clean_char(c),
{
    c != '"' && c != '\\' && (c as u32) >= 0x20 && (c as u32) != 0x7f
}

fn skip_ws_at(l: &[char], i: usize) -> (r: usize)
    requires
        i <= l@.len(),
    ensures
        r == skip_ws(l@, i as int),
        i <= r <= l@.len(),
{
    let mut r = i;
    while r < l.len() && is_ws(l[r])
        invariant
            i <= r <= l@.len(),
            skip_ws(l@, i as int) == skip_ws(l@, r as int),
        decreases l@.len() - r,
    {
        r = r + 1;
    }
    r
}

fn key_end_at(l: &[char], i: usize) -> (r: usize)
    requires
        i <= l@.len(),
    ensures
        r == key_end(l@, i as int),
        i <= r <= l@.len(),
{
    let mut r = i;
    while r < l.len() && is_key(l[r])
        invariant
            i <= r <= l@.len(),
            key_end(l@, i as int) == key_end(l@, r as int),
        decreases l@.len() - r,
    {
        r = r + 1;
    }
    r
}

fn string_end_at(l: &[char], i: usize) -> (r: Result<usize, SchemaError>)
    requires
        i <= l@.len(),
    ensures
        match r {
            Ok(e) => string_end(l@, i as int) == Ok::<int, SchemaError>(e as int) && i <= e
                < l@.len(),
            Err(e) => string_end(l@, i as int) == Err::<int, SchemaError>(e),
        },
{
    let mut j = i;
    loop
        invariant
            i <= j <= l@.len(),
            string_end(l@, i as int) == string_end(l@, j as int),
        decreases l@.len() - j,
    {
        if j >= l.len() {
            return Err(SchemaError::Syntax);
        }
        if l[j] == '"' {
            return Ok(j);
        }
        if !is_clean(l[j]) {
            return Err(SchemaError::Syntax);
        }
        j = j + 1;
    }
}

/// A parsed value of the document.
pub enum DocValue {
    Str(Vec<char>),
    Arr(Vec<Vec<char>>),
}

impl DocValue {
    /// The mathematical value this parsed value denotes.
    pub open spec fn view(&self) -> ValueView {
        match self {
            DocValue::Str(s) => ValueView::VStr(s@),
            DocValue::Arr(items) => ValueView::VArr(items.deep_view()),
        }
    }
}

fn array_rest_at(l: &[char], i: usize, acc: Vec<Vec<char>>) -> (r: Result<
    (Vec<Vec<char>>, usize),
    SchemaError,
>)
    requires
        i <= l@.len(),
    ensures
        match r {
            Ok(p) => array_rest(l@, i as int, acc.deep_view()) == Ok::<(Seq<Seq<char>>, int),
                SchemaError,
            >((p.0.deep_view(), p.1 as int)) && p.1 <= l@.len(),
            Err(e) => array_rest(l@, i as int, acc.deep_view()) == Err::<(Seq<Seq<char>>, int),
                SchemaError,
            >(e),
        },
    decreases l@.len() - i,
{
    if i >= l.len() {
        return Err(SchemaError::Syntax);
    }
    if l[i] == ']' {
        return Ok((acc, i + 1));
    }
    if l[i] != '"' {
        return Err(SchemaError::Syntax);
    }
    match string_end_at(l, i + 1) {
        Err(e) => Err(e),
        Ok(e) => {
            let s = slice_to_vec(slice_subrange(l, i + 1, e));
            let j = skip_ws_at(l, e + 1);
            let ghost old_acc = acc.deep_view();
            let mut acc2 = acc;
            acc2.push(s);
            proof {
                assert(acc2.deep_view() =~~= old_acc.push(l@.subrange(i + 1, e as int)));
            }
            if j >= l.len() {
                return Err(SchemaError::Syntax);
            }
            if l[j] == ']' {
                return Ok((acc2, j + 1));
            }
            if l[j] != ',' {
                return Err(SchemaError::Syntax);
            }
            let j2 = skip_ws_at(l, j + 1);
            if i < j2 && j2 <= l.len() {
                array_rest_at(l, j2, acc2)
            } else {
                Err(SchemaError::Syntax)
            }
        },
    }
}

fn parse_value_at(l: &[char], i: usize) -> (r: Result<(DocValue, usize), SchemaError>)
    requires
        i <= l@.len(),
    ensures
        match r {
            Ok(p) => spec_parse_value(l@, i as int) == Ok::<(ValueView, int), SchemaError>(
                (p.0@, p.1 as int),
            ) && p.1 <= l@.len(),
            Err(e) => spec_parse_value(l@, i as int) == Err::<(ValueView, int), SchemaError>(e),
        },
{
    if i >= l.len() {
        return Err(SchemaError::Syntax);
    }
    if l[i] == '"' {
        match string_end_at(l, i + 1) {
            Err(e) => Err(e),
            Ok(e) => {
                let s = slice_to_vec(slice_subrange(l, i + 1, e));
                Ok((DocValue::Str(s), e + 1))
            },
        }
    } else if l[i] == '[' {
        let j = skip_ws_at(l, i + 1);
        let empty: Vec<Vec<char>> = Vec::new();
        proof {
            assert(empty.deep_view() =~= Seq::<Seq<char>>::empty());
        }
        match array_rest_at(l, j, empty) {
            Err(e) => Err(e),
            Ok((items, j2)) => Ok((DocValue::Arr(items), j2)),
        }
    } else {
        Err(SchemaError::Syntax)
    }
}

/// One parsed line of the document.
pub enum Line {
    Blank,
    Section(Vec<char>),
    KeyVal(Vec<char>, DocValue),
    Bad(SchemaError),
}

impl Line {
    /// The line this parse result denotes.
    pub open spec fn view(&self) -> LineView {
        match self {
            Line::Blank => LineView::Blank,
            Line::Section(k) => LineView::Section(k@),
            Line::KeyVal(k, v) => LineView::KeyVal(k@, v@),
            Line::Bad(e) => LineView::Bad(*e),
        }
    }
}

/// Parses one line of the document.
pub fn parse_line(l: &[char]) -> (r: Line)
    ensures
        r@ == spec_parse_line(l@),
{
    let i = skip_ws_at(l, 0);
    if i >= l.len() {
        return Line::Blank;
    }
    if l[i] == '#' {
        return Line::Blank;
    }
    if l[i] == '[' {
        let j = skip_ws_at(l, i + 1);
        let k = key_end_at(l, j);
        if k == j {
            return Line::Bad(SchemaError::Syntax);
        }
        let key = slice_to_vec(slice_subrange(l, j, k));
        let j2 = skip_ws_at(l, k);
        if j2 < l.len() && l[j2] == ']' {
            let j3 = skip_ws_at(l, j2 + 1);
            if j3 >= l.len() || l[j3] == '#' {
                Line::Section(key)
            } else {
                Line::Bad(SchemaError::Syntax)
            }
        } else {
            Line::Bad(SchemaError::Syntax)
        }
    } else {
        let k = key_end_at(l, i);
        if k == i {
            return Line::Bad(SchemaError::Syntax);
        }
        let key = slice_to_vec(slice_subrange(l, i, k));
        let j = skip_ws_at(l, k);
        if j < l.len() && l[j] == '=' {
            let j2 = skip_ws_at(l, j + 1);
            match parse_value_at(l, j2) {
                Err(e) => Line::Bad(e),
                Ok((v, j3)) => {
                    let j4 = skip_ws_at(l, j3);
                    if j4 >= l.len() || l[j4] == '#' {
                        Line::KeyVal(key, v)
                    } else {
                        Line::Bad(SchemaError::Syntax)
                    }
                },
            }
        } else {
            Line::Bad(SchemaError::Syntax)
        }
    }
}

fn line_break_at(s: &[char], i: usize) -> (r: usize)
    requires
        i <= s@.len(),
    ensures
        r == line_break(s@, i as int),
        i <= r <= s@.len(),
{
    let mut r = i;
    while r < s.len() && s[r] != '\n'
        invariant
            i <= r <= s@.len(),
            line_break(s@, i as int) == line_break(s@, r as int),
        decreases s@.len() - r,
    {
        r = r + 1;
    }
    r
}

/// The fields a document gave explicitly, before defaulting.
pub struct RawDoc {
    pub address: Option<Vec<char>>,
    pub log_seen: bool,
    pub level: Option<Vec<char>>,
    pub date_format: Option<Vec<char>>,
    pub files: Option<Vec<Vec<char>>>,
}

impl RawDoc {
    /// The raw document this value denotes.
    pub open spec fn view(&self) -> RawDocView {
        RawDocView {
            address: self.address.deep_view(),
            log_seen: self.log_seen,
            level: self.level.deep_view(),
            date_format: self.date_format.deep_view(),
            files: self.files.deep_view(),
        }
    }
}

/// Parser state: whether the log section is open, and the fields seen so far.
pub struct ParseState {
    pub in_log: bool,
    pub raw: RawDoc,
}

impl ParseState {
    /// The state this value denotes.
    pub open spec fn view(&self) -> ParseStateView {
        ParseStateView {
            section: if self.in_log {
                SectionView::LogSection
            } else {
                SectionView::Top
            },
            raw: self.raw@,
        }
    }

    /// The state before any line is read.
    pub fn initial() -> (st: ParseState)
        ensures
            st@ == initial_state(),
    {
        ParseState {
            in_log: false,
            raw: RawDoc {
                address: None,
                log_seen: false,
                level: None,
                date_format: None,
                files: None,
            },
        }
    }
}

fn step_line_exec(st: ParseState, line: Line) -> (r: Result<ParseState, SchemaError>)
    ensures
        match r {
            Ok(st2) => step_line(st@, line@) == Ok::<ParseStateView, SchemaError>(st2@),
            Err(e) => step_line(st@, line@) == Err::<ParseStateView, SchemaError>(e),
        },
{
    match line {
        Line::Blank => Ok(st),
        Line::Bad(e) => Err(e),
        Line::Section(k) => {
            if eq_str(k.as_slice(), "log") {
                if st.raw.log_seen {
                    Err(SchemaError::DuplicateKey)
                } else {
                    Ok(
                        ParseState {
                            in_log: true,
                            raw: RawDoc { log_seen: true, ..st.raw },
                        },
                    )
                }
            } else {
                Err(SchemaError::UnknownKey)
            }
        },
        Line::KeyVal(k, v) => {
            if !st.in_log {
                if eq_str(k.as_slice(), "address") {
                    match v {
                        DocValue::Str(s) => {
                            proof {
                                assert(s.deep_view() =~= s@);
                            }
                            if st.raw.address.is_some() {
                                Err(SchemaError::DuplicateKey)
                            } else {
                                Ok(
                                    ParseState {
                                        raw: RawDoc { address: Some(s), ..st.raw },
                                        ..st
                                    },
                                )
                            }
                        },
                        DocValue::Arr(_) => Err(SchemaError::WrongType),
                    }
                } else if eq_str(k.as_slice(), "log") {
                    Err(SchemaError::WrongType)
                } else {
                    Err(SchemaError::UnknownKey)
                }
            } else {
                if eq_str(k.as_slice(), "level") {
                    match v {
                        DocValue::Str(s) => {
                            proof {
                                assert(s.deep_view() =~= s@);
                            }
                            if st.raw.level.is_some() {
                                Err(SchemaError::DuplicateKey)
                            } else {
                                Ok(ParseState { raw: RawDoc { level: Some(s), ..st.raw }, ..st })
                            }
                        },
                        DocValue::Arr(_) => Err(SchemaError::WrongType),
                    }
                } else if eq_str(k.as_slice(), "dateFormat") {
                    match v {
                        DocValue::Str(s) => {
                            proof {
                                assert(s.deep_view() =~= s@);
                            }
                            if st.raw.date_format.is_some() {
                                Err(SchemaError::DuplicateKey)
                            } else {
                                Ok(
                                    ParseState {
                                        raw: RawDoc { date_format: Some(s), ..st.raw },
                                        ..st
                                    },
                                )
                            }
                        },
                        DocValue::Arr(_) => Err(SchemaError::WrongType),
                    }
                } else if eq_str(k.as_slice(), "files") {
                    match v {
                        DocValue::Arr(items) => {
                            if st.raw.files.is_some() {
                                Err(SchemaError::DuplicateKey)
                            } else {
                                Ok(
                                    ParseState {
                                        raw: RawDoc { files: Some(items), ..st.raw },
                                        ..st
                                    },
                                )
                            }
                        },
                        DocValue::Str(_) => Err(SchemaError::WrongType),
                    }
                } else {
                    Err(SchemaError::UnknownKey)
                }
            }
        },
    }
}

fn parse_doc(l: &[char], st: ParseState) -> (r: Result<RawDoc, SchemaError>)
    ensures
        match r {
            Ok(raw) => parse_lines(split_lines(l@), st@) == Ok::<RawDocView, SchemaError>(raw@),
            Err(e) => parse_lines(split_lines(l@), st@) == Err::<RawDocView, SchemaError>(e),
        },
    decreases l@.len(),
{
    if l.is_empty() {
        proof {
            assert(split_lines(l@) =~= Seq::<Seq<char>>::empty());
            assert(parse_lines(Seq::<Seq<char>>::empty(), st@) == Ok::<RawDocView, SchemaError>(
                st@.raw,
            ));
        }
        return Ok(st.raw);
    }
    let e = line_break_at(l, 0);
    if e >= l.len() {
        let line = parse_line(l);
        proof {
            assert(split_lines(l@) == seq![l@]);
            assert(seq![l@][0] == l@);
            assert(seq![l@].drop_first() =~= Seq::<Seq<char>>::empty());
        }
        match step_line_exec(st, line) {
            Ok(st2) => {
                proof {
                    assert(parse_lines(Seq::<Seq<char>>::empty(), st2@)
                        == Ok::<RawDocView, SchemaError>(st2@.raw));
                }
                Ok(st2.raw)
            },
            Err(er) => Err(er),
        }
    } else {
        let first = slice_subrange(l, 0, e);
        let rest = slice_subrange(l, e + 1, l.len());
        let line = parse_line(first);
        proof {
            assert(split_lines(l@) == seq![l@.subrange(0, e as int)] + split_lines(
                l@.subrange(e as int + 1, l@.len() as int),
            ));
            assert(split_lines(l@)[0] == first@);
            assert(split_lines(l@).drop_first() =~= split_lines(rest@));
        }
        match step_line_exec(st, line) {
            Ok(st2) => parse_doc(rest, st2),
            Err(er) => Err(er),
        }
    }
}

/// The filter a character string of the document names.
pub fn parse_filter_chars(v: &[char]) -> (r: Option<LevelFilter>)
    ensures
        r == spec_parse_filter(v@),
{
    if eq_str(v, "Off") {
        Some(LevelFilter::Off)
    } else if eq_str(v, "Error") {
        Some(LevelFilter::Error)
    } else if eq_str(v, "Warn") {
        Some(LevelFilter::Warn)
    } else if eq_str(v, "Info") {
        Some(LevelFilter::Info)
    } else if eq_str(v, "Debug") {
        Some(LevelFilter::Debug)
    } else if eq_str(v, "Trace") {
        Some(LevelFilter::Trace)
    } else {
        None
    }
}

fn strings_of(fs: Vec<Vec<char>>) -> (r: Vec<String>)
    ensures
        r.deep_view() == fs.deep_view(),
{
    let mut r: Vec<String> = Vec::new();
    let mut i: usize = 0;
    while i < fs.len()
        invariant
            i <= fs@.len(),
            r@.len() == i,
            forall|j: int| 0 <= j < i ==> r@[j]@ == fs@[j]@,
        decreases fs@.len() - i,
    {
        let s = string_of(fs[i].as_slice());
        r.push(s);
        i = i + 1;
    }
    proof {
        assert(r.deep_view() =~~= fs.deep_view());
    }
    r
}

/// Parses a configuration document into the typed configuration, applying the
/// documented default to every absent field — or reports the first schema
/// error, exactly as [`spec_parse_config`] lays the document out.
pub fn parse_config(text: &str) -> (r: Result<Config, SchemaError>)
    ensures
        match r {
            Ok(c) => spec_parse_config(text@) == Ok::<ConfigView, SchemaError>(c@),
            Err(e) => spec_parse_config(text@) == Err::<ConfigView, SchemaError>(e),
        },
{
    let chars = chars_of(text);
    match parse_doc(chars.as_slice(), ParseState::initial()) {
        Err(e) => Err(e),
        Ok(raw) => {
            let ghost rawv = raw@;
            let level: LevelFilter = match &raw.level {
                None => default_level_filter(),
                Some(s) => {
                    proof {
                        assert(s.deep_view() =~= s@);
                    }
                    match parse_filter_chars(s.as_slice()) {
                        Some(f) => f,
                        None => {
                            return Err(SchemaError::UnknownLevel);
                        },
                    }
                },
            };
            if !raw.log_seen {
                return Err(SchemaError::MissingLog);
            }
            let address: String = match raw.address {
                None => default_address(),
                Some(a) => {
                    proof {
                        assert(a.deep_view() =~= a@);
                    }
                    string_of(a.as_slice())
                },
            };
            let date_format: String = match raw.date_format {
                None => default_date_format(),
                Some(d) => {
                    proof {
                        assert(d.deep_view() =~= d@);
                    }
                    string_of(d.as_slice())
                },
            };
            let files: Vec<String> = match raw.files {
                None => Vec::new(),
                Some(fs) => strings_of(fs),
            };
            let c = Config { address, log: LogConfig { level, date_format, files } };
            proof {
                assert(c@.log.files =~~= match rawv.files {
                    None => Seq::<Seq<char>>::empty(),
                    Some(fs) => fs,
                });
            }
            Ok(c)
        },
    }
}

} // verus!

