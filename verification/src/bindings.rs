//! The decisions the Node and Python bindings make before they reach the
//! engine: which store to open, and which half of neSQL a forced dialect names.
//!
//! Every error crosses the boundary as a message, never as a panic.

use vstd::prelude::*;

use crate::text::{ascii_upper, to_ascii_uppercase};

verus! {

/// The environment variable that names the store when no path is passed.
pub const DB_PATH_ENV: &'static str = "NEDB_PATH";

/// Which half of neSQL a statement is written in.
#[derive(Clone, Copy, Debug, PartialEq, Eq, Structural)]
pub enum Dialect {
    Nql,
    Sql,
}

/// The message for a call that names no store, where `param` is the binding's
/// own name for the path argument (`dbPath` for Node, `db_path` for Python).
pub open spec fn missing_path_message(param: Seq<char>) -> Seq<char> {
    "a db path is required (pass "@ + param + " or set NEDB_PATH)"@
}

/// The store to open: the path passed to the call, else the value of
/// `NEDB_PATH` (read by the caller and handed in as `env_path`), else an error
/// naming both ways to supply one.
pub fn db_path(path: Option<String>, env_path: Option<String>, param: &str) -> (r: Result<String, String>)
    ensures
        (r is Ok) <==> (path is Some || env_path is Some),
        path matches Some(p) ==> r == Ok::<String, String>(p),
        path is None ==> (env_path matches Some(e) ==> r == Ok::<String, String>(e)),
        r matches Err(m) ==> m@ == missing_path_message(param@),
{
    match path {
        Some(p) => Ok(p),
        None => match env_path {
            Some(e) => Ok(e),
            None => {
                let mut m = "a db path is required (pass ".to_string();
                m.append(param);
                m.append(" or set NEDB_PATH)");
                Err(m)
            },
        },
    }
}

/// What `format!("{:?}", s)` writes for a string `s`: the string quoted, with
/// its special characters escaped.
pub uninterp spec fn debug_quoted(s: Seq<char>) -> Seq<char>;

/// A string as `{:?}` writes it (`<str as Debug>::fmt`).
///
/// Claimed: the text is `debug_quoted` of the string. The escaping rules
/// themselves are not stated.
#[verifier::external_body]
fn debug_str(s: &str) -> (q: String)
    ensures
        q@ == debug_quoted(s@),
{
    format!("{:?}", s)
}

/// The dialect an (already upper-cased) name denotes, if any.
pub open spec fn dialect_named(name: Seq<char>) -> Option<Dialect> {
    if name == "NQL"@ {
        Some(Dialect::Nql)
    } else if name == "SQL"@ {
        Some(Dialect::Sql)
    } else {
        None
    }
}

/// The message for a forced dialect that names neither half.
pub open spec fn bad_dialect_message(upper: Seq<char>) -> Seq<char> {
    "forced dialect must be \"nql\" or \"sql\", got "@ + debug_quoted(upper)
}

/// A forced dialect as the Python binding accepts it: `nql` or `sql` in any
/// ASCII case; no dialect when none is forced.
pub fn parse_forced_dialect(forced: Option<&str>) -> (r: Result<Option<Dialect>, String>)
    ensures
        (r == Ok::<Option<Dialect>, String>(Some(Dialect::Nql)))
            <==> (forced is Some && ascii_upper(forced.unwrap()@) == "NQL"@),
        (r == Ok::<Option<Dialect>, String>(Some(Dialect::Sql)))
            <==> (forced is Some && ascii_upper(forced.unwrap()@) == "SQL"@),
        (r is Err) <==> (forced is Some && ascii_upper(forced.unwrap()@) != "NQL"@
            && ascii_upper(forced.unwrap()@) != "SQL"@),
        forced is None ==> r == Ok::<Option<Dialect>, String>(None),
        forced matches Some(f) ==> match dialect_named(ascii_upper(f@)) {
            Some(d) => r == Ok::<Option<Dialect>, String>(Some(d)),
            None => r matches Err(m) && m@ == bad_dialect_message(ascii_upper(f@)),
        },
{
    proof {
        lemma_only_nql_and_sql_are_dialects("NQL"@);
    }
    match forced {
        None => Ok(None),
        Some(f) => {
            let upper = to_ascii_uppercase(f);
            if upper == "NQL".to_string() {
                Ok(Some(Dialect::Nql))
            } else if upper == "SQL".to_string() {
                Ok(Some(Dialect::Sql))
            } else {
                let mut m = "forced dialect must be \"nql\" or \"sql\", got ".to_string();
                let quoted = debug_str(upper.as_str());
                m.append(quoted.as_str());
                Err(m)
            }
        },
    }
}

/// Exactly two names denote a dialect: `NQL` denotes NQL, `SQL` denotes SQL,
/// and every other name — a longer one that starts with either included —
/// denotes none.
pub proof fn lemma_only_nql_and_sql_are_dialects(name: Seq<char>)
    ensures
        (dialect_named(name) == Some(Dialect::Nql)) <==> (name == "NQL"@),
        (dialect_named(name) == Some(Dialect::Sql)) <==> (name == "SQL"@),
        (dialect_named(name) is None) <==> (name != "NQL"@ && name != "SQL"@),
        "NQL"@ != "SQL"@,
{
    reveal_strlit("NQL");
    reveal_strlit("SQL");
    assert("NQL"@[0] != "SQL"@[0]);
}

/// Forcing a dialect ignores ASCII case: two spellings that agree once
/// upper-cased force the same dialect, or are refused with the same message.
pub proof fn lemma_forced_dialect_ignores_case(f: Seq<char>, g: Seq<char>)
    requires
        ascii_upper(f) == ascii_upper(g),
    ensures
        dialect_named(ascii_upper(f)) == dialect_named(ascii_upper(g)),
        bad_dialect_message(ascii_upper(f)) == bad_dialect_message(ascii_upper(g)),
{
}

} // verus!
