use fdb_cli::cli::{describe, parse, Opts, ParseError, Setup, Space, USAGE};

fn args(list: &[&str]) -> Vec<String> {
    list.iter().map(|s| s.to_string()).collect()
}

#[test]
fn get_key_with_proto() {
    match parse(&args(&["get", "key", "k1", "--proto", "Person"])) {
        Ok(Opts::Get(Space::Key(k))) => {
            assert_eq!(k.key, "k1");
            assert_eq!(k.proto, Some("Person".to_string()));
        }
        other => panic!("unexpected: {:?}", other),
    }
}

#[test]
fn get_key_option_before_value() {
    match parse(&args(&["get", "key", "-p", "Person", "k1"])) {
        Ok(Opts::Get(Space::Key(k))) => {
            assert_eq!(k.key, "k1");
            assert_eq!(k.proto, Some("Person".to_string()));
        }
        other => panic!("unexpected: {:?}", other),
    }
}

#[test]
fn delete_range_all_options() {
    match parse(&args(&["delete", "range", "-s", "a", "-e", "b", "-p", "M"])) {
        Ok(Opts::Delete(Space::Range(r))) => {
            assert_eq!(r.start, "a");
            assert_eq!(r.end, Some("b".to_string()));
            assert_eq!(r.proto, Some("M".to_string()));
        }
        other => panic!("unexpected: {:?}", other),
    }
}

#[test]
fn range_needs_start() {
    assert_eq!(
        parse(&args(&["get", "range", "--end", "z"])).err(),
        Some(ParseError::MissingRequired { at: 4 })
    );
}

#[test]
fn key_needs_key() {
    assert_eq!(
        parse(&args(&["get", "key"])).err(),
        Some(ParseError::MissingRequired { at: 2 })
    );
}

#[test]
fn plain_operations() {
    assert!(matches!(parse(&args(&["move"])), Ok(Opts::Move)));
    assert!(matches!(parse(&args(&["reset"])), Ok(Opts::Reset)));
    assert!(matches!(parse(&args(&["setup", "view"])), Ok(Opts::Setup(Setup::View))));
}

#[test]
fn setup_update_takes_both_paths() {
    match parse(&args(&["setup", "set", "--cluster-file", "/c", "-p", "/s.proto"])) {
        Ok(Opts::Setup(Setup::Update(s))) => {
            assert_eq!(s.cluster_file, Some("/c".to_string()));
            assert_eq!(s.proto_file, Some("/s.proto".to_string()));
        }
        other => panic!("unexpected: {:?}", other),
    }
}

#[test]
fn every_parse_error() {
    assert_eq!(parse(&args(&[])).err(), Some(ParseError::MissingCommand { at: 0 }));
    assert_eq!(parse(&args(&["get"])).err(), Some(ParseError::MissingCommand { at: 1 }));
    assert_eq!(parse(&args(&["fetch"])).err(), Some(ParseError::UnknownCommand { at: 0 }));
    assert_eq!(parse(&args(&["get", "all"])).err(), Some(ParseError::UnknownCommand { at: 1 }));
    assert_eq!(
        parse(&args(&["get", "key", "k", "-p"])).err(),
        Some(ParseError::MissingValue { at: 3 })
    );
    assert_eq!(
        parse(&args(&["get", "key", "-p", "A", "-p", "B"])).err(),
        Some(ParseError::DuplicateOption { at: 4 })
    );
    assert_eq!(
        parse(&args(&["get", "key", "--verbose"])).err(),
        Some(ParseError::UnknownOption { at: 2 })
    );
    assert_eq!(
        parse(&args(&["get", "key", "a", "b"])).err(),
        Some(ParseError::UnexpectedArgument { at: 3 })
    );
    assert_eq!(
        parse(&args(&["get", "range", "-s", "a", "b"])).err(),
        Some(ParseError::UnexpectedArgument { at: 4 })
    );
    assert_eq!(parse(&args(&["reset", "now"])).err(), Some(ParseError::UnexpectedArgument { at: 1 }));
}

#[test]
fn parse_errors_are_described() {
    let list = args(&["get", "key", "--verbose", "-p"]);
    assert_eq!(describe(ParseError::MissingCommand { at: 4 }, &list), "an operation is missing");
    assert_eq!(describe(ParseError::UnknownCommand { at: 0 }, &list), "unknown operation `get`");
    assert_eq!(describe(ParseError::MissingValue { at: 3 }, &list), "`-p` needs a value");
    assert_eq!(describe(ParseError::DuplicateOption { at: 3 }, &list), "`-p` is given twice");
    assert_eq!(describe(ParseError::UnknownOption { at: 2 }, &list), "unknown option `--verbose`");
    assert_eq!(describe(ParseError::UnexpectedArgument { at: 1 }, &list), "unexpected `key`");
    assert_eq!(describe(ParseError::UnexpectedArgument { at: 9 }, &list), "unexpected ``");
    assert_eq!(
        describe(ParseError::MissingRequired { at: 4 }, &list),
        "a required argument is missing"
    );
    assert!(USAGE.starts_with("usage: fdb-cli <operation>\n  get key <key>"));
    assert!(USAGE.ends_with("\n  reset"));
}
