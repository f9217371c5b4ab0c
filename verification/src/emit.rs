//! The serializer: writes a configuration back out as a document the parser
//! reads. Every field is written explicitly, so nothing is left to defaults.

use vstd::prelude::*;
use vstd::slice::slice_subrange;
use vstd::string::StringExecFns;

use crate::config::{Config, ConfigView};
use crate::level::{spec_filter_name, filter_name};
use crate::text::push_char;

verus! {

/// A string in its quoted document form.
pub open spec fn quoted(s: Seq<char>) -> Seq<char> {
    seq!['"'] + s + seq!['"']
}

/// The items of an array in document form: quoted, separated by a comma and
/// one space.
pub open spec fn ser_items(files: Seq<Seq<char>>) -> Seq<char>
    decreases files.len(),
{
    if files.len() == 0 {
        Seq::empty()
    } else if files.len() == 1 {
        quoted(files[0])
    } else {
        quoted(files[0]) + seq![',', ' '] + ser_items(files.drop_first())
    }
}

/// An array in document form.
pub open spec fn ser_array(files: Seq<Seq<char>>) -> Seq<char> {
    seq!['['] + ser_items(files) + seq![']']
}

/// A key-value line: the key, one space, the equals sign, one space, the
/// value in document form.
pub open spec fn kv_line(key: Seq<char>, v: Seq<char>) -> Seq<char> {
    key + seq![' ', '=', ' '] + v
}

/// The header line opening the log section.
pub open spec fn section_line() -> Seq<char> {
    seq!['['] + "log"@ + seq![']']
}

/// The document a configuration is written out as: the address line, the log
/// section header, and one line for each logging field, each line closed by a
/// line break.
pub open spec fn ser_config(c: ConfigView) -> Seq<char> {
    kv_line("address"@, quoted(c.address)) + seq!['\n'] + section_line() + seq!['\n'] + kv_line(
        "level"@,
        quoted(spec_filter_name(c.log.level)),
    ) + seq!['\n'] + kv_line("dateFormat"@, quoted(c.log.date_format)) + seq!['\n'] + kv_line(
        "files"@,
        ser_array(c.log.files),
    ) + seq!['\n']
}

fn quoted_str(s: &str) -> (r: String)
    ensures
        r@ == quoted(s@),
{
    let mut m = String::new();
    push_char(&mut m, '"');
    m.append(s);
    push_char(&mut m, '"');
    proof {
        assert(m@ =~= quoted(s@));
    }
    m
}

fn ser_items_exec(files: &[String]) -> (r: String)
    ensures
        r@ == ser_items(files.deep_view()),
    decreases files@.len(),
{
    if files.len() == 0 {
        let r = String::new();
        proof {
            assert(files.deep_view().len() == 0);
        }
        r
    } else {
        let mut m = quoted_str(files[0].as_str());
        if files.len() > 1 {
            m.append(", ");
            let rest = slice_subrange(files, 1, files.len());
            let tail = ser_items_exec(rest);
            m.append(tail.as_str());
            proof {
                reveal_strlit(", ");
                assert(", "@ =~= seq![',', ' ']);
                assert(rest.deep_view() =~= files.deep_view().drop_first());
                assert(files.deep_view()[0] == files@[0]@);
                assert(m@ =~= ser_items(files.deep_view()));
            }
        } else {
            proof {
                assert(files.deep_view().len() == 1);
                assert(files.deep_view()[0] == files@[0]@);
            }
        }
        m
    }
}

/// Writes a configuration out as a document. Every field stands explicitly;
/// [`crate::parse::spec_parse_config`] reads the result back, and the
/// round-trip law shows it reads back to the same configuration whenever its
/// strings can stand inside quotes. The grammar carries no escape sequences,
/// so a string holding a quote, a backslash or a control character has no
/// written form: such a configuration serializes to a document that does not
/// parse back.
pub fn to_document(c: &Config) -> (r: String)
    ensures
        r@ == ser_config(c@),
{
    let mut m = "address".to_owned();
    m.append(" = ");
    let qa = quoted_str(c.address.as_str());
    m.append(qa.as_str());
    m.append("\n");
    m.append("[");
    m.append("log");
    m.append("]");
    m.append("\n");
    m.append("level");
    m.append(" = ");
    let ql = quoted_str(filter_name(c.log.level));
    m.append(ql.as_str());
    m.append("\n");
    m.append("dateFormat");
    m.append(" = ");
    let qd = quoted_str(c.log.date_format.as_str());
    m.append(qd.as_str());
    m.append("\n");
    m.append("files");
    m.append(" = ");
    m.append("[");
    let fs = c.log.files.as_slice();
    let items = ser_items_exec(fs);
    m.append(items.as_str());
    m.append("]");
    m.append("\n");
    proof {
        reveal_strlit(" = ");
        reveal_strlit("\n");
        reveal_strlit("[");
        reveal_strlit("]");
        assert(" = "@ =~= seq![' ', '=', ' ']);
        assert("\n"@ =~= seq!['\n']);
        assert("["@ =~= seq!['[']);
        assert("]"@ =~= seq![']']);
        assert(fs.deep_view() =~= c@.log.files);
        assert(m@ =~= ser_config(c@));
    }
    m
}

} // verus!
