use lineup::matches::Matches;

#[test]
fn simple_out() {
    assert!(Matches::OutRe("version".to_string()).is_match("version", "").unwrap());
}

#[test]
fn simple_err() {
    assert!(Matches::ErrRe("version".to_string()).is_match("", "version").unwrap());
}

#[test]
fn simple_any_out() {
    assert!(Matches::AnyRe("version".to_string()).is_match("version", "").unwrap());
}

#[test]
fn simple_any_err() {
    assert!(Matches::AnyRe("version".to_string()).is_match("", "version").unwrap());
}

#[test]
fn simple_or() {
    let matches = Matches::Or(vec![
        Matches::ErrRe("LLM".to_string()),
        Matches::ErrRe("toml".to_string()),
    ]);
    assert!(matches.is_match("", "toml").unwrap());
    assert!(matches.is_match("", "LLM").unwrap());
}

#[test]
fn simple_and() {
    let matches = Matches::And(vec![
        Matches::ErrRe("LLM".to_string()),
        Matches::ErrRe("toml".to_string()),
    ]);
    assert!(!matches.is_match("", "toml").unwrap());
    assert!(!matches.is_match("", "LLM").unwrap());
    assert!(matches.is_match("", "toml LLM").unwrap());
}

#[test]
fn nested() {
    let matches = Matches::And(vec![
        Matches::OutRe("ls".to_string()),
        Matches::Or(vec![
            Matches::ErrRe("LLM".to_string()),
            Matches::ErrRe("toml".to_string()),
        ]),
    ]);
    assert!(matches.is_match("ls", "toml").unwrap());
    assert!(matches.is_match("ls", "LLM").unwrap());
    assert!(!matches.is_match("", "toml LLM").unwrap());
    assert!(!matches.is_match("ls", "").unwrap());
}

#[test]
fn bad_pattern_is_an_error() {
    assert!(Matches::OutRe("(".to_string()).is_match("x", "").is_err());
}
