//! The laws of the bootstrap pipeline: defaulting, rejection of unknown
//! levels, and the document round trip.

use vstd::prelude::*;

use crate::config::{ConfigView, spec_default_address, spec_default_date_format,
    spec_default_level_filter};
use crate::errors::{BootstrapError, SchemaError, spec_exit_status};
use crate::level::{spec_filter_name, spec_parse_filter, lemma_filter_name_round_trip};
use crate::parse::{array_rest, clean_string, finalize, initial_state, is_clean_char, is_key_char,
    is_ws_char, key_end, line_break, parse_lines, skip_ws, spec_parse_config, spec_parse_line,
    spec_parse_value, split_lines, step_line, string_end, LineView, ParseStateView, RawDocView,
    SectionView, ValueView};
use crate::emit::{kv_line, quoted, section_line, ser_array, ser_config, ser_items};

verus! {

/// Every field a valid document (one whose `log` section appears) leaves out
/// comes back as its documented default, and a given field comes back exactly
/// as given: defaulting touches absent fields only.
pub proof fn lemma_defaults_applied(s: Seq<char>, raw: RawDocView)
    requires
        parse_lines(split_lines(s), initial_state()) == Ok::<RawDocView, SchemaError>(raw),
        raw.log_seen,
        match raw.level {
            Some(lv) => spec_parse_filter(lv) is Some,
            None => true,
        },
    ensures
        spec_parse_config(s) matches Ok(c) && {
            &&& (raw.address is None ==> c.address == spec_default_address())
            &&& (raw.address matches Some(a) ==> c.address == a)
            &&& (raw.level is None ==> c.log.level == spec_default_level_filter())
            &&& (raw.level matches Some(lv) ==> Some(c.log.level) == spec_parse_filter(lv))
            &&& (raw.date_format is None ==> c.log.date_format == spec_default_date_format())
            &&& (raw.date_format matches Some(d) ==> c.log.date_format == d)
            &&& (raw.files is None ==> c.log.files == Seq::<Seq<char>>::empty())
            &&& (raw.files matches Some(fs) ==> c.log.files == fs)
        },
{
}

/// A document whose `level` string lies outside the enumerated set is
/// rejected as a schema error, never coerced — and a schema failure exits the
/// process with status 3.
pub proof fn lemma_unknown_level_rejected(s: Seq<char>, raw: RawDocView)
    requires
        parse_lines(split_lines(s), initial_state()) == Ok::<RawDocView, SchemaError>(raw),
        raw.level matches Some(lv) && spec_parse_filter(lv) is None,
    ensures
        spec_parse_config(s) == Err::<ConfigView, SchemaError>(SchemaError::UnknownLevel),
        spec_exit_status(BootstrapError::ConfigSchemaError) == 3,
{
}

/// A state in which a stored `level` or an open log section witnesses that
/// `[log]` has appeared: `step_line` keeps this, since the `level` key is
/// only accepted inside the section.
spec fn log_witness(st: ParseStateView) -> bool {
    &&& (st.raw.level is Some ==> st.raw.log_seen)
    &&& (st.section is LogSection ==> st.raw.log_seen)
}

proof fn lemma_level_needs_log(lines: Seq<Seq<char>>, st: ParseStateView)
    requires
        log_witness(st),
    ensures
        parse_lines(lines, st) matches Ok(raw) ==> (raw.level is Some ==> raw.log_seen),
    decreases lines.len(),
{
    if lines.len() > 0 {
        match step_line(st, spec_parse_line(lines[0])) {
            Ok(st2) => {
                assert(log_witness(st2));
                lemma_level_needs_log(lines.drop_first(), st2);
            },
            Err(_) => {},
        }
    }
}

/// A document that never opens the required `log` section is rejected as a
/// schema error, however complete its other fields — and a schema failure
/// exits the process with status 3.
pub proof fn lemma_missing_log_rejected(s: Seq<char>, raw: RawDocView)
    requires
        parse_lines(split_lines(s), initial_state()) == Ok::<RawDocView, SchemaError>(raw),
        !raw.log_seen,
    ensures
        spec_parse_config(s) == Err::<ConfigView, SchemaError>(SchemaError::MissingLog),
        spec_exit_status(BootstrapError::ConfigSchemaError) == 3,
{
    lemma_level_needs_log(split_lines(s), initial_state());
}

/// The document consisting of the `log` section header alone denotes the
/// fully defaulted configuration: an empty section yields every documented
/// default.
pub proof fn lemma_log_only_document_defaults()
    ensures
        spec_parse_config(section_line() + seq!['\n']) == Ok::<ConfigView, SchemaError>(
            crate::config::spec_default_config(),
        ),
{
    reveal_strlit("log");
    let sec = section_line();
    let doc = sec + seq!['\n'];
    assert(no_newline(sec)) by {
        assert(no_newline("log"@)) by {
            assert("log"@.len() == 3);
        }
        lemma_no_newline_concat(seq!['['], "log"@);
        lemma_no_newline_concat(seq!['['] + "log"@, seq![']']);
    }
    lemma_split_prepend(sec, Seq::<char>::empty());
    assert(split_lines(Seq::<char>::empty()) == Seq::<Seq<char>>::empty());
    let lines = seq![sec];
    assert(split_lines(doc) =~= lines);
    lemma_parse_section_line();
    let st0 = initial_state();
    let st1 = ParseStateView {
        section: SectionView::LogSection,
        raw: RawDocView { log_seen: true, ..st0.raw },
    };
    assert(lines[0] == sec);
    assert(step_line(st0, spec_parse_line(lines[0])) == Ok::<ParseStateView, SchemaError>(st1));
    assert(parse_lines(lines, st0) == parse_lines(lines.drop_first(), st1));
    assert(lines.drop_first() =~= Seq::<Seq<char>>::empty());
    assert(parse_lines(Seq::<Seq<char>>::empty(), st1) == Ok::<RawDocView, SchemaError>(st1.raw));
    assert(parse_lines(split_lines(doc), st0) == parse_lines(lines, st0));
}

proof fn lemma_key_end_run(l: Seq<char>, i: int, n: int)
    requires
        0 <= i,
        0 <= n,
        i + n <= l.len(),
        forall|j: int| i <= j < i + n ==> is_key_char(l[j]),
        i + n == l.len() || !is_key_char(l[i + n]),
    ensures
        key_end(l, i) == i + n,
    decreases n,
{
    if n > 0 {
        lemma_key_end_run(l, i + 1, n - 1);
    }
}

proof fn lemma_string_end_run(l: Seq<char>, i: int, s0: Seq<char>)
    requires
        0 <= i,
        i + s0.len() < l.len(),
        l.subrange(i, i + s0.len() as int) == s0,
        clean_string(s0),
        l[i + s0.len()] == '"',
    ensures
        string_end(l, i) == Ok::<int, SchemaError>(i + s0.len() as int),
    decreases s0.len(),
{
    if s0.len() == 0 {
        assert(l[i] == '"');
    } else {
        assert(l[i] == s0[0]) by {
            assert(l.subrange(i, i + s0.len() as int)[0] == s0[0]);
        }
        assert(is_clean_char(l[i]));
        assert(l[i] != '"');
        let tail = s0.drop_first();
        assert(l.subrange(i + 1, i + 1 + tail.len() as int) =~= tail) by {
            assert forall|t: int| 0 <= t < tail.len() implies l.subrange(
                i + 1,
                i + 1 + tail.len() as int,
            )[t] == tail[t] by {
                assert(l.subrange(i, i + s0.len() as int)[t + 1] == s0[t + 1]);
            }
        }
        assert(clean_string(tail)) by {
            assert(forall|t: int| 0 <= t < tail.len() ==> #[trigger] tail[t] == s0[t + 1]);
        }
        assert(l[i + 1 + tail.len()] == '"');
        lemma_string_end_run(l, i + 1, tail);
    }
}

proof fn lemma_line_break_run(s: Seq<char>, i: int, n: int)
    requires
        0 <= i,
        0 <= n,
        i + n < s.len(),
        forall|j: int| i <= j < i + n ==> s[j] != '\n',
        s[i + n] == '\n',
    ensures
        line_break(s, i) == i + n,
    decreases n,
{
    if n > 0 {
        lemma_line_break_run(s, i + 1, n - 1);
    }
}

proof fn lemma_split_prepend(a: Seq<char>, rest: Seq<char>)
    requires
        forall|j: int| 0 <= j < a.len() ==> a[j] != '\n',
    ensures
        split_lines(a + seq!['\n'] + rest) == seq![a] + split_lines(rest),
{
    let s = a + seq!['\n'] + rest;
    lemma_line_break_run(s, 0, a.len() as int);
    assert(s.subrange(0, a.len() as int) =~= a);
    assert(s.subrange(a.len() as int + 1, s.len() as int) =~= rest);
}

proof fn lemma_array_run(l: Seq<char>, i: int, files: Seq<Seq<char>>, acc: Seq<Seq<char>>)
    requires
        0 <= i,
        i + ser_items(files).len() + 1 <= l.len(),
        l.subrange(i, i + ser_items(files).len() + 1) == ser_items(files) + seq![']'],
        forall|k: int| 0 <= k < files.len() ==> clean_string(#[trigger] files[k]),
    ensures
        array_rest(l, i, acc) == Ok::<(Seq<Seq<char>>, int), SchemaError>(
            (acc + files, i + ser_items(files).len() + 1),
        ),
    decreases files.len(),
{
    let body = ser_items(files) + seq![']'];
    assert(forall|t: int| 0 <= t < body.len() ==> l[i + t] == #[trigger] body[t]) by {
        assert(forall|t: int|
            0 <= t < body.len() ==> #[trigger] body[t] == l.subrange(
                i,
                i + ser_items(files).len() + 1,
            )[t]);
    }
    if files.len() == 0 {
        assert(body[0] == ']');
        assert(l[i + 0] == body[0]);
        assert(l[i] == ']');
        assert(acc + files =~= acc);
    } else {
        let f0 = files[0];
        assert(clean_string(f0));
        let q = quoted(f0);
        let n = f0.len() as int;
        assert(body[0] == '"') by {
            assert(q[0] == '"');
        }
        assert(l[i + 0] == body[0]);
        assert(l[i] == '"');
        assert(l[i] != ']');
        let e = i + 1 + n;
        assert(body[n + 1] == '"') by {
            assert(q[n + 1] == '"');
        }
        assert(l[i + (n + 1)] == body[n + 1]);
        assert(l[e] == '"');
        assert(l.subrange(i + 1, e) =~= f0) by {
            assert forall|t: int| 0 <= t < n implies l.subrange(i + 1, e)[t] == f0[t] by {
                assert(q[1 + t] == f0[t]);
                assert(body[1 + t] == q[1 + t]);
                assert(l[i + (1 + t)] == body[1 + t]);
                assert(l.subrange(i + 1, e)[t] == l[i + 1 + t]);
            }
        }
        lemma_string_end_run(l, i + 1, f0);
        assert(string_end(l, i + 1) == Ok::<int, SchemaError>(e));
        if files.len() == 1 {
            assert(ser_items(files) == q);
            assert(body[n + 2] == ']');
            assert(l[i + (n + 2)] == body[n + 2]);
            assert(l[e + 1] == ']');
            assert(!is_ws_char(']'));
            assert(skip_ws(l, e + 1) == e + 1);
            assert(acc.push(f0) =~= acc + files);
        } else {
            let rest = files.drop_first();
            let sr = ser_items(rest);
            assert(ser_items(files) == q + seq![',', ' '] + sr);
            assert(body[n + 2] == ',') by {
                assert((q + seq![',', ' '])[n + 2] == ',');
                assert((q + seq![',', ' '] + sr)[n + 2] == (q + seq![',', ' '])[n + 2]);
            }
            assert(body[n + 3] == ' ') by {
                assert((q + seq![',', ' '])[n + 3] == ' ');
                assert((q + seq![',', ' '] + sr)[n + 3] == (q + seq![',', ' '])[n + 3]);
            }
            let j = e + 1;
            assert(l[i + (n + 2)] == body[n + 2]);
            assert(l[j] == ',');
            assert(!is_ws_char(','));
            assert(skip_ws(l, j) == j);
            assert(l[j] != ']');
            assert(l[i + (n + 3)] == body[n + 3]);
            assert(l[j + 1] == ' ');
            let j2 = j + 2;
            assert(sr[0] == '"') by {
                if rest.len() == 1 {
                    assert(quoted(rest[0])[0] == '"');
                } else {
                    assert(quoted(rest[0])[0] == '"');
                    assert((quoted(rest[0]) + seq![',', ' '])[0] == '"');
                }
            }
            assert(body[n + 4] == sr[0]) by {
                assert((q + seq![',', ' '] + sr)[n + 4] == sr[0]);
            }
            assert(l[i + (n + 4)] == body[n + 4]);
            assert(l[j2] == '"');
            assert(!is_ws_char('"'));
            assert(skip_ws(l, j2) == j2);
            assert(skip_ws(l, j + 1) == j2);
            assert(i < j2 <= l.len());
            assert(l.subrange(j2, j2 + sr.len() + 1) =~= sr + seq![']']) by {
                assert(forall|t: int| 0 <= t < sr.len() + 1 ==> #[trigger] body[n + 4 + t] == (sr
                    + seq![']'])[t]) by {
                    assert(forall|t: int|
                        0 <= t < sr.len() ==> #[trigger] body[n + 4 + t] == sr[t]);
                    assert(body[n + 4 + sr.len()] == ']');
                }
                assert(forall|t: int|
                    0 <= t < sr.len() + 1 ==> #[trigger] l.subrange(j2, j2 + sr.len() + 1)[t] == l[
                        i + (n + 4 + t)
                    ] && l[i + (n + 4 + t)] == body[n + 4 + t]);
            }
            assert(forall|k: int| 0 <= k < rest.len() ==> clean_string(#[trigger] rest[k])) by {
                assert(forall|k: int| 0 <= k < rest.len() ==> #[trigger] rest[k] == files[k + 1]);
            }
            lemma_array_run(l, j2, rest, acc.push(f0));
            assert(acc.push(f0) + rest =~= acc + files);
            assert(j2 + sr.len() + 1 == i + ser_items(files).len() + 1);
        }
    }
}

/// The characters of a key literal: every character is a key character, and
/// none is a line break.
spec fn key_like(k: Seq<char>) -> bool {
    k.len() > 0 && (forall|j: int| 0 <= j < k.len() ==> is_key_char(#[trigger] k[j]))
}

proof fn lemma_kv_prefix(key: Seq<char>, v: Seq<char>)
    requires
        key_like(key),
        v.len() > 0,
        !is_ws_char(v[0]),
    ensures
        ({
            let l = kv_line(key, v);
            &&& l.len() == key.len() + 3 + v.len()
            &&& skip_ws(l, 0) == 0
            &&& key_end(l, 0) == key.len()
            &&& l.subrange(0, key.len() as int) == key
            &&& skip_ws(l, key.len() as int) == key.len() + 1
            &&& l[key.len() as int + 1] == '='
            &&& skip_ws(l, key.len() as int + 2) == key.len() + 3
            &&& (forall|t: int| 0 <= t < v.len() ==> l[key.len() + 3 + t] == #[trigger] v[t])
            &&& l[0] == key[0]
        }),
{
    let l = kv_line(key, v);
    let sep = seq![' ', '=', ' '];
    let a = key + sep;
    let klen = key.len() as int;
    assert(forall|j: int| 0 <= j < klen ==> l[j] == #[trigger] key[j]) by {
        assert(forall|j: int| 0 <= j < klen ==> #[trigger] a[j] == key[j]);
        assert(forall|j: int| 0 <= j < klen ==> #[trigger] l[j] == a[j]);
    }
    assert(l[0] == key[0]);
    assert(!is_ws_char(l[0]));
    assert(l[klen] == ' ' && l[klen + 1] == '=' && l[klen + 2] == ' ') by {
        assert(a[klen] == ' ' && a[klen + 1] == '=' && a[klen + 2] == ' ');
        assert(l[klen] == a[klen] && l[klen + 1] == a[klen + 1] && l[klen + 2] == a[klen + 2]);
    }
    assert(!is_key_char(' '));
    lemma_key_end_run(l, 0, klen);
    assert(l.subrange(0, klen) =~= key);
    assert(!is_ws_char('='));
    assert(skip_ws(l, klen + 1) == klen + 1);
    assert(forall|t: int| 0 <= t < v.len() ==> l[klen + 3 + t] == #[trigger] v[t]) by {
        assert(forall|t: int| 0 <= t < v.len() ==> l[klen + 3 + t] == (a + v)[klen + 3 + t]
            && #[trigger] (a + v)[klen + 3 + t] == v[t]);
    }
    assert(l[klen + 3] == v[0]) by {
        assert(l[klen + 3 + 0] == v[0]);
    }
    assert(skip_ws(l, klen + 3) == klen + 3);
    assert(skip_ws(l, klen + 2) == skip_ws(l, klen + 3));
}

proof fn lemma_parse_line_kv_str(key: Seq<char>, s: Seq<char>)
    requires
        key_like(key),
        clean_string(s),
    ensures
        spec_parse_line(kv_line(key, quoted(s))) == LineView::KeyVal(key, ValueView::VStr(s)),
{
    let v = quoted(s);
    let l = kv_line(key, v);
    let klen = key.len() as int;
    lemma_kv_prefix(key, v);
    assert(v[0] == '"');
    assert(l[klen + 3 + 0] == v[0]);
    assert(l[klen + 3] == '"');
    assert(!is_ws_char('"'));
    assert(skip_ws(l, klen + 3) == klen + 3);
    assert(l.subrange(klen + 4, klen + 4 + s.len() as int) =~= s) by {
        assert forall|t: int| 0 <= t < s.len() implies l.subrange(
            klen + 4,
            klen + 4 + s.len() as int,
        )[t] == s[t] by {
            assert(v[1 + t] == s[t]);
            assert(l[klen + 3 + (1 + t)] == v[1 + t]);
            assert(l.subrange(klen + 4, klen + 4 + s.len() as int)[t] == l[klen + 4 + t]);
        }
    }
    assert(l[klen + 3 + (s.len() as int + 1)] == v[s.len() as int + 1]);
    assert(v[s.len() as int + 1] == '"');
    assert(l[klen + 4 + s.len()] == '"');
    lemma_string_end_run(l, klen + 4, s);
    assert(string_end(l, klen + 4) == Ok::<int, SchemaError>(klen + 4 + s.len()));
    let j3 = klen + 4 + s.len() + 1;
    assert(j3 == l.len());
    assert(skip_ws(l, j3) == j3);
    assert(spec_parse_value(l, klen + 3) == Ok::<(ValueView, int), SchemaError>(
        (ValueView::VStr(s), j3),
    ));
}

proof fn lemma_parse_line_kv_arr(key: Seq<char>, files: Seq<Seq<char>>)
    requires
        key_like(key),
        forall|k: int| 0 <= k < files.len() ==> clean_string(#[trigger] files[k]),
    ensures
        spec_parse_line(kv_line(key, ser_array(files))) == LineView::KeyVal(
            key,
            ValueView::VArr(files),
        ),
{
    let v = ser_array(files);
    let l = kv_line(key, v);
    let klen = key.len() as int;
    lemma_kv_prefix(key, v);
    assert(v[0] == '[');
    assert(l[klen + 3] == '[');
    assert(l[klen + 3] != '"');
    assert(!is_ws_char('['));
    assert(skip_ws(l, klen + 3) == klen + 3);
    let i = klen + 4;
    assert(l[i] == v[1]);
    assert(ser_items(files).len() > 0 ==> v[1] == ser_items(files)[0]);
    assert(ser_items(files).len() == 0 ==> v[1] == ']');
    assert(ser_items(files).len() > 0 ==> ser_items(files)[0] == '"') by {
        if files.len() == 0 {
        } else if files.len() == 1 {
        } else {
        }
    }
    assert(!is_ws_char(l[i]));
    assert(skip_ws(l, i) == i);
    assert(l.subrange(i, i + ser_items(files).len() + 1) =~= ser_items(files) + seq![']']);
    lemma_array_run(l, i, files, Seq::empty());
    assert(Seq::<Seq<char>>::empty() + files =~= files);
    let j3 = i + ser_items(files).len() + 1;
    assert(j3 == l.len());
    assert(skip_ws(l, j3) == j3);
    assert(spec_parse_value(l, klen + 3) == Ok::<(ValueView, int), SchemaError>(
        (ValueView::VArr(files), j3),
    ));
}

proof fn lemma_parse_section_line()
    ensures
        spec_parse_line(section_line()) == LineView::Section("log"@),
{
    reveal_strlit("log");
    let l = section_line();
    assert(l.len() == 5);
    assert(l[0] == '[');
    assert(!is_ws_char('['));
    assert(skip_ws(l, 0) == 0);
    assert(l[1] == 'l');
    assert(l[2] == 'o');
    assert(l[3] == 'g');
    assert(l[4] == ']');
    assert(!is_ws_char('l'));
    assert(skip_ws(l, 1) == 1);
    assert(forall|j: int| 1 <= j < 4 ==> is_key_char(l[j]));
    assert(!is_key_char(']'));
    lemma_key_end_run(l, 1, 3);
    assert(key_end(l, 1) == 4);
    assert(l.subrange(1, 4) =~= "log"@);
    assert(!is_ws_char(']'));
    assert(skip_ws(l, 4) == 4);
    assert(skip_ws(l, 5) == 5);
}


/// No character of the string is a line break.
spec fn no_newline(s: Seq<char>) -> bool {
    forall|j: int| 0 <= j < s.len() ==> s[j] != '\n'
}

proof fn lemma_no_newline_concat(a: Seq<char>, b: Seq<char>)
    requires
        no_newline(a),
        no_newline(b),
    ensures
        no_newline(a + b),
{
    assert forall|j: int| 0 <= j < (a + b).len() implies (a + b)[j] != '\n' by {
        if j < a.len() {
            assert((a + b)[j] == a[j]);
        } else {
            assert((a + b)[j] == b[j - a.len()]);
        }
    }
}

proof fn lemma_clean_no_newline(s: Seq<char>)
    requires
        clean_string(s),
    ensures
        no_newline(s),
{
    assert('\n' as u32 == 10);
}

proof fn lemma_quoted_clean_line(s: Seq<char>)
    requires
        clean_string(s),
    ensures
        no_newline(quoted(s)),
{
    lemma_clean_no_newline(s);
    lemma_no_newline_concat(seq!['"'], s);
    lemma_no_newline_concat(seq!['"'] + s, seq!['"']);
}

proof fn lemma_ser_items_no_newline(files: Seq<Seq<char>>)
    requires
        forall|k: int| 0 <= k < files.len() ==> clean_string(#[trigger] files[k]),
    ensures
        no_newline(ser_items(files)),
    decreases files.len(),
{
    if files.len() == 0 {
    } else if files.len() == 1 {
        lemma_quoted_clean_line(files[0]);
    } else {
        let rest = files.drop_first();
        assert(forall|k: int| 0 <= k < rest.len() ==> clean_string(#[trigger] rest[k])) by {
            assert(forall|k: int| 0 <= k < rest.len() ==> #[trigger] rest[k] == files[k + 1]);
        }
        lemma_ser_items_no_newline(rest);
        lemma_quoted_clean_line(files[0]);
        lemma_no_newline_concat(quoted(files[0]), seq![',', ' ']);
        lemma_no_newline_concat(quoted(files[0]) + seq![',', ' '], ser_items(rest));
    }
}

proof fn lemma_kv_line_no_newline(key: Seq<char>, v: Seq<char>)
    requires
        key_like(key),
        no_newline(v),
    ensures
        no_newline(kv_line(key, v)),
{
    assert(no_newline(key));
    lemma_no_newline_concat(key, seq![' ', '=', ' ']);
    lemma_no_newline_concat(key + seq![' ', '=', ' '], v);
}

proof fn lemma_key_literals()
    ensures
        key_like("address"@),
        key_like("level"@),
        key_like("dateFormat"@),
        key_like("files"@),
{
    reveal_strlit("address");
    reveal_strlit("level");
    reveal_strlit("dateFormat");
    reveal_strlit("files");
    assert forall|j: int| 0 <= j < "address"@.len() implies is_key_char("address"@[j]) by {
        assert("address"@.len() == 7);
    }
    assert forall|j: int| 0 <= j < "level"@.len() implies is_key_char("level"@[j]) by {
        assert("level"@.len() == 5);
    }
    assert forall|j: int| 0 <= j < "dateFormat"@.len() implies is_key_char("dateFormat"@[j]) by {
        assert("dateFormat"@.len() == 10);
    }
    assert forall|j: int| 0 <= j < "files"@.len() implies is_key_char("files"@[j]) by {
        assert("files"@.len() == 5);
    }
}

proof fn lemma_filter_name_clean(f: crate::level::LevelFilter)
    ensures
        clean_string(spec_filter_name(f)),
{
    reveal_strlit("Off");
    reveal_strlit("Error");
    reveal_strlit("Warn");
    reveal_strlit("Info");
    reveal_strlit("Debug");
    reveal_strlit("Trace");
    match f {
        crate::level::LevelFilter::Off => {
            assert forall|j: int| 0 <= j < "Off"@.len() implies is_clean_char("Off"@[j]) by {
                assert("Off"@.len() == 3);
            }
        },
        crate::level::LevelFilter::Error => {
            assert forall|j: int| 0 <= j < "Error"@.len() implies is_clean_char("Error"@[j]) by {
                assert("Error"@.len() == 5);
            }
        },
        crate::level::LevelFilter::Warn => {
            assert forall|j: int| 0 <= j < "Warn"@.len() implies is_clean_char("Warn"@[j]) by {
                assert("Warn"@.len() == 4);
            }
        },
        crate::level::LevelFilter::Info => {
            assert forall|j: int| 0 <= j < "Info"@.len() implies is_clean_char("Info"@[j]) by {
                assert("Info"@.len() == 4);
            }
        },
        crate::level::LevelFilter::Debug => {
            assert forall|j: int| 0 <= j < "Debug"@.len() implies is_clean_char("Debug"@[j]) by {
                assert("Debug"@.len() == 5);
            }
        },
        crate::level::LevelFilter::Trace => {
            assert forall|j: int| 0 <= j < "Trace"@.len() implies is_clean_char("Trace"@[j]) by {
                assert("Trace"@.len() == 5);
            }
        },
    }
}

/// A configuration whose strings may all stand verbatim inside the document's
/// quotes: no quote, no backslash, no control character.
pub open spec fn config_clean(c: ConfigView) -> bool {
    &&& clean_string(c.address)
    &&& clean_string(c.log.date_format)
    &&& forall|k: int| 0 <= k < c.log.files.len() ==> clean_string(#[trigger] c.log.files[k])
}

/// Round trip: a configuration written out as a document and parsed back
/// comes back field for field the same, for every configuration whose strings
/// can stand inside the document's quotes.
#[verifier::rlimit(100)]
pub proof fn lemma_document_round_trip(c: ConfigView)
    requires
        config_clean(c),
    ensures
        spec_parse_config(ser_config(c)) == Ok::<ConfigView, SchemaError>(c),
{
    reveal_strlit("address");
    reveal_strlit("level");
    reveal_strlit("dateFormat");
    reveal_strlit("files");
    reveal_strlit("log");
    lemma_key_literals();
    lemma_filter_name_clean(c.log.level);
    let name = spec_filter_name(c.log.level);
    let addr_line = kv_line("address"@, quoted(c.address));
    let sec = section_line();
    let lvl_line = kv_line("level"@, quoted(name));
    let df_line = kv_line("dateFormat"@, quoted(c.log.date_format));
    let files_line = kv_line("files"@, ser_array(c.log.files));
    let doc = ser_config(c);

    // the document splits into its five lines
    lemma_quoted_clean_line(c.address);
    lemma_quoted_clean_line(name);
    lemma_quoted_clean_line(c.log.date_format);
    lemma_kv_line_no_newline("address"@, quoted(c.address));
    lemma_kv_line_no_newline("level"@, quoted(name));
    lemma_kv_line_no_newline("dateFormat"@, quoted(c.log.date_format));
    lemma_ser_items_no_newline(c.log.files);
    lemma_no_newline_concat(seq!['['], ser_items(c.log.files));
    lemma_no_newline_concat(seq!['['] + ser_items(c.log.files), seq![']']);
    lemma_kv_line_no_newline("files"@, ser_array(c.log.files));
    assert(no_newline(sec)) by {
        assert(no_newline("log"@)) by {
            assert("log"@.len() == 3);
        }
        lemma_no_newline_concat(seq!['['], "log"@);
        lemma_no_newline_concat(seq!['['] + "log"@, seq![']']);
    }
    let rest4 = files_line + seq!['\n'] + Seq::<char>::empty();
    let rest3 = df_line + seq!['\n'] + rest4;
    let rest2 = lvl_line + seq!['\n'] + rest3;
    let rest1 = sec + seq!['\n'] + rest2;
    assert(doc =~= addr_line + seq!['\n'] + rest1);
    lemma_split_prepend(addr_line, rest1);
    lemma_split_prepend(sec, rest2);
    lemma_split_prepend(lvl_line, rest3);
    lemma_split_prepend(df_line, rest4);
    lemma_split_prepend(files_line, Seq::<char>::empty());
    assert(split_lines(Seq::<char>::empty()) == Seq::<Seq<char>>::empty());
    let lines = seq![addr_line, sec, lvl_line, df_line, files_line];
    assert(split_lines(doc) =~= lines);

    // each line parses to what it was written as
    lemma_parse_line_kv_str("address"@, c.address);
    lemma_parse_section_line();
    lemma_parse_line_kv_str("level"@, name);
    lemma_parse_line_kv_str("dateFormat"@, c.log.date_format);
    lemma_parse_line_kv_arr("files"@, c.log.files);

    // the five lines fold into the five given fields
    let st0 = initial_state();
    let raw1 = RawDocView {
        address: Some(c.address),
        log_seen: false,
        level: None,
        date_format: None,
        files: None,
    };
    let st1 = ParseStateView { section: SectionView::Top, raw: raw1 };
    let st2 = ParseStateView {
        section: SectionView::LogSection,
        raw: RawDocView { log_seen: true, ..raw1 },
    };
    let st3 = ParseStateView {
        section: SectionView::LogSection,
        raw: RawDocView { level: Some(name), ..st2.raw },
    };
    let st4 = ParseStateView {
        section: SectionView::LogSection,
        raw: RawDocView { date_format: Some(c.log.date_format), ..st3.raw },
    };
    let st5 = ParseStateView {
        section: SectionView::LogSection,
        raw: RawDocView { files: Some(c.log.files), ..st4.raw },
    };
    assert("address"@ != "log"@);
    assert("dateFormat"@ != "level"@);
    assert("files"@[0] != "level"@[0]);
    assert("files"@ != "level"@);
    assert("files"@ != "dateFormat"@);
    assert(lines[0] == addr_line && lines[1] == sec && lines[2] == lvl_line && lines[3] == df_line
        && lines[4] == files_line);
    assert(step_line(st0, spec_parse_line(lines[0])) == Ok::<ParseStateView, SchemaError>(st1));
    assert(parse_lines(lines, st0) == parse_lines(lines.drop_first(), st1));
    let lines1 = lines.drop_first();
    assert(lines1[0] == sec && lines1[1] == lvl_line && lines1[2] == df_line && lines1[3]
        == files_line);
    assert(step_line(st1, spec_parse_line(lines1[0])) == Ok::<ParseStateView, SchemaError>(st2));
    assert(parse_lines(lines1, st1) == parse_lines(lines1.drop_first(), st2));
    let lines2 = lines1.drop_first();
    assert(lines2[0] == lvl_line && lines2[1] == df_line && lines2[2] == files_line);
    assert(step_line(st2, spec_parse_line(lines2[0])) == Ok::<ParseStateView, SchemaError>(st3));
    assert(parse_lines(lines2, st2) == parse_lines(lines2.drop_first(), st3));
    let lines3 = lines2.drop_first();
    assert(lines3[0] == df_line && lines3[1] == files_line);
    assert(step_line(st3, spec_parse_line(lines3[0])) == Ok::<ParseStateView, SchemaError>(st4));
    assert(parse_lines(lines3, st3) == parse_lines(lines3.drop_first(), st4));
    let lines4 = lines3.drop_first();
    assert(lines4[0] == files_line && lines4.len() == 1);
    assert(step_line(st4, spec_parse_line(lines4[0])) == Ok::<ParseStateView, SchemaError>(st5));
    assert(parse_lines(lines4, st4) == parse_lines(lines4.drop_first(), st5));
    assert(lines4.drop_first() =~= Seq::<Seq<char>>::empty());
    assert(parse_lines(Seq::<Seq<char>>::empty(), st5) == Ok::<RawDocView, SchemaError>(st5.raw));

    // defaulting touches nothing: every field was given
    lemma_filter_name_round_trip(c.log.level);
    assert(finalize(st5.raw) == Ok::<ConfigView, SchemaError>(c)) by {
        assert(c == ConfigView { address: c.address, log: c.log });
        assert(c.log == crate::config::LogConfigView {
            level: c.log.level,
            date_format: c.log.date_format,
            files: c.log.files,
        });
    }
    assert(parse_lines(split_lines(doc), st0) == parse_lines(lines, st0));
}

} // verus!
