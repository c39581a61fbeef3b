use lineup::context::Context;
use lineup::task_type::EnsureType;
use lineup::value::Val;
use lineup::vars::Var;
use lineup::error::Error;

fn context() -> Context {
    let mut context = Context::new();
    context.insert("user".to_string(), Val::Str("user".to_string()));
    context.insert(
        "packages".to_string(),
        Val::Arr(vec![Val::Str("apt-repo".to_string())]),
    );
    context.insert(
        "vars".to_string(),
        Val::Obj(vec![("one".to_string(), Val::Uint(1))]),
    );
    context.insert(
        "out".to_string(),
        Val::Obj(vec![(
            "in".to_string(),
            Val::Obj(vec![("one".to_string(), Val::Uint(1))]),
        )]),
    );
    context
}

fn vars(names: &[&str]) -> Vec<Var> {
    names.iter().map(|n| Var::parse(n).unwrap()).collect()
}

#[test]
fn empty_ensure_vars_empty_context() {
    let ensure = EnsureType { vars: Vec::new() };
    assert!(ensure.ensure_vars(&Context::new()).is_ok());
}

#[test]
fn empty_ensure_vars() {
    let ensure = EnsureType { vars: Vec::new() };
    assert!(ensure.ensure_vars(&context()).is_ok());
}

#[test]
fn non_nested_ensure_vars() {
    let ensure = EnsureType { vars: vars(&["user", "packages"]) };
    assert!(ensure.ensure_vars(&context()).is_ok());
}

#[test]
fn non_nested_ensure_vars_absent() {
    let ensure = EnsureType { vars: vars(&["target"]) };
    assert!(ensure.ensure_vars(&context()).is_err());
}

#[test]
fn nested_ensure_vars() {
    let ensure = EnsureType { vars: vars(&["vars.one", "out.in.one"]) };
    assert!(ensure.ensure_vars(&context()).is_ok());
}

#[test]
fn nested_ensure_vars_absent() {
    let ensure = EnsureType { vars: vars(&["out.in.two"]) };
    assert!(ensure.ensure_vars(&context()).is_err());
}

#[test]
fn top_level_ensure_vars() {
    let ensure = EnsureType { vars: vars(&["vars", "out.in"]) };
    assert!(ensure.ensure_vars(&context()).is_ok());
}

#[test]
fn top_level_ensure_vars_absent() {
    let ensure = EnsureType { vars: vars(&["out.vars"]) };
    assert!(ensure.ensure_vars(&context()).is_err());
}

#[test]
fn ensure_absent_names_the_variable() {
    let ensure = EnsureType { vars: vars(&["nonexistent.path"]) };
    match ensure.ensure_vars(&Context::new()) {
        Err(Error::EnsureAbsentVars(names, _)) => {
            assert!(names.contains("nonexistent.path"));
        }
        other => panic!("expected EnsureAbsentVars, got {:?}", other.is_ok()),
    }
}

#[test]
fn ensure_typed_variable() {
    let ok = EnsureType { vars: vars(&["user: string"]) };
    assert!(ok.ensure_vars(&context()).is_ok());
    let bad = EnsureType { vars: vars(&["user: number"]) };
    assert!(bad.ensure_vars(&context()).is_err());
}
