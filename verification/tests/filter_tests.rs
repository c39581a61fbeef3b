use lineup::filters::{basename_filter, dirname_filter, cond_filter, is_empty_filter,
    lines_filter, quote_filter, re_match_scalar, re_match_array, re_sub_scalar, re_sub_array};
use lineup::json::json_encode;
use lineup::value::Val;

fn s(text: &str) -> Val {
    Val::Str(text.to_string())
}

fn arr(items: &[&str]) -> Vec<Val> {
    items.iter().map(|t| s(t)).collect()
}

fn same(a: &Val, b: &Val) -> bool {
    json_encode(a) == json_encode(b)
}

#[test]
fn filter_basename() {
    assert!(same(&basename_filter(&s("/usr/share")).unwrap(), &s("share")));
}

#[test]
fn filter_dirname() {
    assert!(same(&dirname_filter(&s("/usr/share")).unwrap(), &s("/usr")));
}

#[test]
fn filter_cond_true_if() {
    let r = cond_filter(&Val::Bool(true), Some(&s("--now")), None).unwrap();
    assert!(same(&r, &s("--now")));
}

#[test]
fn filter_cond_false_else() {
    let r = cond_filter(&Val::Bool(false), None, Some(&s("--never"))).unwrap();
    assert!(same(&r, &s("--never")));
}

#[test]
fn filter_cond_true_if_else() {
    let r = cond_filter(&Val::Bool(true), Some(&s("--now")), Some(&s("--never"))).unwrap();
    assert!(same(&r, &s("--now")));
}

#[test]
fn filter_cond_false_if_else() {
    let r = cond_filter(&Val::Bool(false), Some(&s("--now")), Some(&s("--never"))).unwrap();
    assert!(same(&r, &s("--never")));
}

#[test]
fn filter_cond_false_if() {
    let r = cond_filter(&Val::Bool(false), Some(&s("--now")), None).unwrap();
    assert!(same(&r, &s("")));
}

#[test]
fn filter_cond_true_else() {
    let r = cond_filter(&Val::Bool(true), None, Some(&s("--never"))).unwrap();
    assert!(same(&r, &s("")));
}

#[test]
fn filter_cond_true() {
    let r = cond_filter(&Val::Bool(true), None, None).unwrap();
    assert!(same(&r, &s("")));
}

#[test]
fn filter_cond_false() {
    let r = cond_filter(&Val::Bool(false), None, None).unwrap();
    assert!(same(&r, &s("")));
}

#[test]
fn filter_cond_not_bool() {
    assert!(cond_filter(&Val::Uint(1), None, None).is_err());
}

#[test]
fn filter_is_empty() {
    assert!(same(&is_empty_filter(&s("")).unwrap(), &Val::Bool(true)));
    assert!(same(&is_empty_filter(&s("x")).unwrap(), &Val::Bool(false)));
    assert!(same(&is_empty_filter(&Val::Arr(vec![])).unwrap(), &Val::Bool(true)));
    assert!(is_empty_filter(&Val::Uint(1)).is_err());
}

#[test]
fn filter_lines() {
    let r = lines_filter(&s("a\nb\n")).unwrap();
    assert!(same(&r, &Val::Arr(arr(&["a", "b"]))));
}

#[test]
fn filter_quote_number() {
    let r = quote_filter(&Val::Uint(8), " ").unwrap();
    assert!(same(&r, &s("8")));
}

#[test]
fn filter_quote_str() {
    let r = quote_filter(&s("str"), " ").unwrap();
    assert!(same(&r, &s("str")));
}

#[test]
fn filter_quote_in_quotation_marks() {
    for t in ["$HOME", "one two", "q\"q", "`date`", "echo 1 | cat"] {
        let r = quote_filter(&s(t), " ").unwrap();
        assert!(same(&r, &s(&format!("'{}'", t))));
    }
}

#[test]
fn filter_quote_single_quote() {
    let r = quote_filter(&s("can't"), " ").unwrap();
    assert!(same(&r, &s("\"can't\"")));
}

#[test]
fn filter_quote_array() {
    let r = quote_filter(&Val::Arr(arr(&["echo", "$?"])), " ").unwrap();
    assert!(same(&r, &s("echo '$?'")));
}

#[test]
fn filter_quote_array_sep() {
    let r = quote_filter(&Val::Arr(arr(&["docker", "vmusers"])), ",").unwrap();
    assert!(same(&r, &s("docker,vmusers")));
}

#[test]
fn filter_quote_array_sep_number() {
    let r = quote_filter(&Val::Arr(arr(&["one", "two"])), "0").unwrap();
    assert!(same(&r, &s("one0two")));
}

#[test]
fn filter_quote_object_rejected() {
    assert!(quote_filter(&Val::Obj(vec![]), " ").is_err());
}

#[test]
fn filter_re_match_match() {
    let r = re_match_scalar(&s("version: 1.2-3"), "1.2.3", false).unwrap();
    assert!(same(&r, &Val::Bool(true)));
}

#[test]
fn filter_re_match_not_match() {
    let r = re_match_scalar(&s("version: 1.2-3"), "1.23", false).unwrap();
    assert!(same(&r, &Val::Bool(false)));
}

#[test]
fn filter_re_match_match_number() {
    let r = re_match_scalar(&Val::Uint(1), r"\d", false).unwrap();
    assert!(same(&r, &Val::Bool(true)));
}

#[test]
fn filter_re_match_fixed_string() {
    let r = re_match_scalar(&s("+"), "+", true).unwrap();
    assert!(same(&r, &Val::Bool(true)));
}

#[test]
fn filter_re_match_bad_pattern() {
    assert!(re_match_scalar(&s("+"), "+", false).is_err());
}

#[test]
fn filter_re_match_match_array() {
    let r = re_match_array(&arr(&["version: 1.2-3", "12"]), "1.2.3", false).unwrap();
    assert!(same(&r, &Val::Arr(arr(&["version: 1.2-3"]))));
}

#[test]
fn filter_re_match_not_match_array() {
    let r = re_match_array(&arr(&["version: 1.2-3", "12"]), "1.23", false).unwrap();
    assert!(same(&r, &Val::Arr(vec![])));
}

#[test]
fn filter_re_match_fail_wrong_value_type() {
    assert!(re_match_scalar(&Val::Arr(vec![Val::Null]), "1.23", false).is_err());
}

#[test]
fn filter_re_sub_matches_only() {
    let r = re_sub_array(&arr(&["version: 1.2-3", "12"]), "1.2.3", "VER", 0, false, true)
        .unwrap();
    assert!(same(&r, &Val::Arr(arr(&["version: VER"]))));
}

#[test]
fn filter_re_sub_all() {
    let r = re_sub_array(&arr(&["version: 1.2-3", "12"]), "1.2.3", "VER", 0, false, false)
        .unwrap();
    assert!(same(&r, &Val::Arr(arr(&["version: VER", "12"]))));
}

#[test]
fn filter_re_sub_one_str() {
    let r = re_sub_scalar(&s("version: 1.2-3"), "1.2.3", "VER", 0, false).unwrap();
    assert!(same(&r, &s("version: VER")));
}

#[test]
fn filter_re_sub_one_number() {
    let r = re_sub_scalar(&Val::Uint(1), "1", "ONE", 0, false).unwrap();
    assert!(same(&r, &s("ONE")));
}

#[test]
fn filter_re_sub_fixed_string() {
    let r = re_sub_scalar(&s("+"), "+", "plus", 0, true).unwrap();
    assert!(same(&r, &s("plus")));
}
