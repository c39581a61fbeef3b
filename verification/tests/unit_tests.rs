use lineup::cmd::{CmdOut, CmdParamsResult, CmdStream, show_duration, run_decision, CmdParams,
    CmdOutput};
use lineup::effects::RawOut;
use lineup::json::json_encode;
use lineup::quote::{quote, quote_args};
use lineup::strings::{u64_string, i64_string, parse_usize};
use lineup::value::Val;
use lineup::vars::{Var, Kind, parse_kind};
use lineup::fs_store::FsStore;
use lineup::matches::Matches;
use lineup::module::resolve;
use lineup::error::Error;
use lineup::filters::{host_cmd_argv, host_cmd_capture};
use lineup::parse::{parse_json, parse_yaml, parse_toml, parse_csv};
use lineup::re::{regex_escape, regex_match, regex_replacen};

#[test]
fn numbers_render_in_decimal() {
    assert_eq!(u64_string(0), "0");
    assert_eq!(u64_string(1234567890), "1234567890");
    assert_eq!(i64_string(-42), "-42");
    assert_eq!(i64_string(i64::MIN), "-9223372036854775808");
    assert_eq!(parse_usize("128"), Some(128));
    assert_eq!(parse_usize(""), None);
    assert_eq!(parse_usize("12x"), None);
}

#[test]
fn json_encoding_is_compact() {
    let v = Val::Obj(vec![
        ("a".to_string(), Val::Arr(vec![Val::Uint(1), Val::Null, Val::Bool(true)])),
        ("b".to_string(), Val::Str("x\"y\n".to_string())),
        ("c".to_string(), Val::Int(-5)),
    ]);
    assert_eq!(json_encode(&v), "{\"a\":[1,null,true],\"b\":\"x\\\"y\\n\",\"c\":-5}");
}

#[test]
fn quote_is_shell_safe() {
    assert_eq!(quote("plain"), "plain");
    assert_eq!(quote("$HOME"), "'$HOME'");
    assert_eq!(quote("can't"), "\"can't\"");
    assert_eq!(quote(""), "''");
    let args = vec!["echo".to_string(), "a b".to_string()];
    assert_eq!(quote_args(&args), "echo 'a b'");
}

#[test]
fn quote_args_empty_is_empty() {
    let args: Vec<String> = vec![];
    assert_eq!(quote_args(&args), "");
}

#[test]
fn var_grammar_parses() {
    let v = Var::parse("json(render:false) % user.profile : object | string").unwrap();
    assert_eq!(v.name, "user.profile");
    assert!(matches!(v.kind, Kind::Json));
    assert_eq!(v.types.len(), 2);
    let plain = Var::parse("user").unwrap();
    assert_eq!(plain.name, "user");
    assert!(plain.kind.is_nothing());
    assert!(Var::parse("no good").is_err());
    assert!(matches!(Var::parse("zz % name"), Err(Error::UnknownVarKind(_))));
    assert!(matches!(Var::parse("name: zz"), Err(Error::UnknownVarType(_))));
    assert!(parse_kind("FS").is_ok());
}

#[test]
fn var_check_type() {
    let v = Var::parse("n: u64 | string").unwrap();
    assert!(v.check_type(&Val::Uint(3)).is_ok());
    assert!(v.check_type(&Val::Str("x".to_string())).is_ok());
    match v.check_type(&Val::Bool(true)) {
        Err(Error::WrongVarType(name, _)) => assert_eq!(name, "n"),
        _ => panic!("expected WrongVarType"),
    }
}

#[test]
fn fs_store_round_trip() {
    let mut store = FsStore::new();
    store.write("key_1".to_string(), Val::Str("payload".to_string()));
    let got = store.read("key_1").unwrap();
    assert_eq!(json_encode(got), "\"payload\"");
    assert!(store.has("key_1"));
    assert!(!store.has("other"));
    store.write("key_1".to_string(), Val::Uint(2));
    assert_eq!(json_encode(store.read("key_1").unwrap()), "2");
}

#[test]
fn result_shaping() {
    let out = CmdOut {
        stdout: "one\ntwo\n".to_string(),
        stderr: "".to_string(),
        code: Some(0),
        success_codes: vec![0],
        matched: false,
    };
    let shaped = CmdParamsResult {
        lines: true,
        matched: false,
        return_code: false,
        stream: CmdStream::Stdout,
        strip: true,
    };
    assert_eq!(json_encode(&shaped.get(&out)), "[\"one\",\"two\"]");
    let rc = CmdParamsResult {
        lines: false,
        matched: false,
        return_code: true,
        stream: CmdStream::Stdout,
        strip: false,
    };
    assert_eq!(json_encode(&rc.get(&out)), "0");
}

#[test]
fn success_codes_zero_and_no_check_never_raises_exit_code() {
    // every exit code passes when check is off
    for code in [Some(0), Some(1), Some(127), None] {
        let params = CmdParams::quiet();
        let raw = RawOut { stdout: String::new(), stderr: String::new(), code };
        let r = run_decision("cmd", &params, raw, false);
        assert!(r.is_ok());
    }
}

#[test]
fn check_rejects_bad_exit_code() {
    let params = CmdParams::quiet();
    let raw = RawOut { stdout: String::new(), stderr: String::new(), code: Some(3) };
    match run_decision("cmd", &params, raw, true) {
        Err(f) => assert!(matches!(f.error, Error::CommandFailedExitCode(_))),
        Ok(_) => panic!("expected an exit-code failure"),
    }
}

#[test]
fn failure_matches_beat_success() {
    let mut params = CmdParams::quiet();
    params.check = Some(false);
    params.failure_matches = Some(Matches::OutRe("boom".to_string()));
    let raw = RawOut { stdout: "boom".to_string(), stderr: String::new(), code: Some(0) };
    match run_decision("cmd", &params, raw, true) {
        Err(f) => assert!(matches!(f.error, Error::CommandFailedFailureMatches(_))),
        Ok(_) => panic!("expected a failure-matches failure"),
    }
}

#[test]
fn unmatched_success_matches_fail() {
    let mut params = CmdParams::quiet();
    params.check = Some(false);
    params.success_matches = Some(Matches::OutRe("ready".to_string()));
    let raw = RawOut { stdout: "pending".to_string(), stderr: String::new(), code: Some(0) };
    match run_decision("cmd", &params, raw, true) {
        Err(f) => assert!(matches!(f.error, Error::CommandFailedSuccessMatches(_))),
        Ok(_) => panic!("expected a success-matches failure"),
    }
}

#[test]
fn duration_text() {
    assert_eq!(show_duration(1999), "1999 ms");
    assert_eq!(show_duration(2000), "2 s");
}

#[test]
fn module_resolution() {
    assert_eq!(resolve("/abs/path.toml", "/caller", "/cfg"), "/abs/path.toml");
    assert_eq!(resolve("./m.toml", "/caller", "/cfg"), "/caller/./m.toml");
    assert_eq!(resolve("../m.toml", "/caller", "/cfg"), "/caller/../m.toml");
    assert_eq!(resolve("shared", "/caller", "/cfg"), "/cfg/modules/shared.toml");
}

#[test]
fn matches_singleton_and_or_mean_their_member() {
    let m = Matches::OutRe("ok".to_string());
    for (out, err) in [("ok", ""), ("no", ""), ("", "ok")] {
        let direct = m.is_match(out, err).unwrap();
        let a = Matches::And(vec![Matches::OutRe("ok".to_string())]);
        let o = Matches::Or(vec![Matches::OutRe("ok".to_string())]);
        assert_eq!(a.is_match(out, err).unwrap(), direct);
        assert_eq!(o.is_match(out, err).unwrap(), direct);
    }
}

#[test]
fn host_cmd_plan_and_capture() {
    let argv = host_cmd_argv(&Val::Str("echo hi".to_string())).unwrap();
    assert_eq!(argv, vec!["sh".to_string(), "-c".to_string(), "echo hi".to_string()]);
    let argv = host_cmd_argv(&Val::Arr(vec![
        Val::Str("ls".to_string()),
        Val::Str("-l".to_string()),
    ]))
    .unwrap();
    assert_eq!(argv, vec!["ls".to_string(), "-l".to_string()]);
    assert!(host_cmd_argv(&Val::Uint(1)).is_err());
    assert!(host_cmd_argv(&Val::Arr(vec![Val::Uint(1)])).is_err());
    let out = RawOut { stdout: "text\n".to_string(), stderr: String::new(), code: Some(0) };
    assert_eq!(host_cmd_capture(&out, true, true).unwrap(), "text");
    let bad = RawOut { stdout: String::new(), stderr: "e\n".to_string(), code: Some(2) };
    assert!(host_cmd_capture(&bad, true, true).is_err());
    assert_eq!(host_cmd_capture(&bad, false, false).unwrap(), "e");
}

#[test]
fn parse_wrappers_read_real_text() {
    let v = parse_json("{\"a\": [1, true, \"x\"]}").unwrap();
    assert_eq!(json_encode(&v), "{\"a\":[1,true,\"x\"]}");
    assert!(parse_json("{oops").is_none());
    let v = parse_yaml("a: 1\nb: [x, y]\n").unwrap();
    assert_eq!(json_encode(&v), "{\"a\":1,\"b\":[\"x\",\"y\"]}");
    let v = parse_toml("a = 1\n[t]\nb = \"x\"\n").unwrap();
    assert_eq!(json_encode(&v), "{\"a\":1,\"t\":{\"b\":\"x\"}}");
    let rows = parse_csv("name,age\nana,3\nbo,5\n").unwrap();
    assert_eq!(rows.len(), 2);
    assert_eq!(rows[0], vec![("age".to_string(), "3".to_string()),
        ("name".to_string(), "ana".to_string())]);
}

#[test]
fn regex_escape_makes_patterns_literal() {
    let escaped = regex_escape("a+b");
    assert_eq!(regex_match(&escaped, "a+b"), Some(true));
    assert_eq!(regex_match(&escaped, "aab"), Some(false));
    // unescaped, the same pattern matches repetition instead
    assert_eq!(regex_match("a+b", "aab"), Some(true));
}

#[test]
fn regex_replacen_limits_replacements() {
    assert_eq!(regex_replacen("o", "foo boo", 1, "0"), Some("f0o boo".to_string()));
    assert_eq!(regex_replacen("o", "foo boo", 0, "0"), Some("f00 b00".to_string()));
    assert_eq!(regex_replacen("(", "x", 0, "y"), None);
}

#[test]
fn missing_items_are_reported_in_order() {
    let wanted = vec!["a".to_string(), "b".to_string(), "c".to_string()];
    let available = vec!["b".to_string()];
    assert_eq!(
        lineup::module::missing_items(&wanted, &available),
        vec!["a".to_string(), "c".to_string()]
    );
    assert!(lineup::module::missing_items(&vec![], &available).is_empty());
}
