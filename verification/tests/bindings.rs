use nesql::bindings::{db_path, parse_forced_dialect, Dialect, DB_PATH_ENV};

#[test]
fn explicit_path_wins_over_environment() {
    let r = db_path(Some("/data/a".to_string()), Some("/data/env".to_string()), "dbPath");
    assert_eq!(r, Ok("/data/a".to_string()));
}

#[test]
fn environment_path_used_when_none_passed() {
    let r = db_path(None, Some("/data/env".to_string()), "db_path");
    assert_eq!(r, Ok("/data/env".to_string()));
}

#[test]
fn missing_path_names_both_ways_node() {
    let r = db_path(None, None, "dbPath");
    assert_eq!(r, Err("a db path is required (pass dbPath or set NEDB_PATH)".to_string()));
}

#[test]
fn missing_path_names_both_ways_python() {
    let r = db_path(None, None, "db_path");
    assert_eq!(r, Err("a db path is required (pass db_path or set NEDB_PATH)".to_string()));
}

#[test]
fn environment_variable_name() {
    assert_eq!(DB_PATH_ENV, "NEDB_PATH");
}

#[test]
fn no_forced_dialect() {
    assert_eq!(parse_forced_dialect(None), Ok(None));
}

#[test]
fn forced_dialect_in_any_case() {
    assert_eq!(parse_forced_dialect(Some("nql")), Ok(Some(Dialect::Nql)));
    assert_eq!(parse_forced_dialect(Some("NQL")), Ok(Some(Dialect::Nql)));
    assert_eq!(parse_forced_dialect(Some("Nql")), Ok(Some(Dialect::Nql)));
    assert_eq!(parse_forced_dialect(Some("sql")), Ok(Some(Dialect::Sql)));
    assert_eq!(parse_forced_dialect(Some("sQl")), Ok(Some(Dialect::Sql)));
}

#[test]
fn unknown_forced_dialect_is_refused_with_the_upper_cased_name() {
    assert_eq!(
        parse_forced_dialect(Some("postgres")),
        Err("forced dialect must be \"nql\" or \"sql\", got \"POSTGRES\"".to_string())
    );
    assert_eq!(
        parse_forced_dialect(Some("")),
        Err("forced dialect must be \"nql\" or \"sql\", got \"\"".to_string())
    );
    assert_eq!(
        parse_forced_dialect(Some(" sql")),
        Err("forced dialect must be \"nql\" or \"sql\", got \" SQL\"".to_string())
    );
}

#[test]
fn refusal_message_escapes_like_debug() {
    assert_eq!(
        parse_forced_dialect(Some("a\"b\n")),
        Err(format!("forced dialect must be \"nql\" or \"sql\", got {:?}", "A\"B\n"))
    );
}
