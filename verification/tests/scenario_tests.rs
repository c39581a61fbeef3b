use lineup::cmd::{CmdParams, CmdOutput, Failure};
use lineup::context::Context;
use lineup::effects::{Feed, Reply, Request, RawOut, Stop};
use lineup::engine::{Engine, EngineBase, EngineHost};
use lineup::json::json_encode;
use lineup::task::{Task, Env, TaskItemsTable, TaskTry};
use lineup::task_result::TaskResult;
use lineup::task_type::{TaskType, ShellType, DummyType, BreakType, RunTasklineType};
use lineup::taskline::{Taskline, TasklineElem};
use lineup::items::{Items, StringOrInt};
use lineup::value::Val;
use lineup::vars::{Var, Vars, ExtVars};
use lineup::worker::Worker;

fn host_worker() -> Worker {
    Worker {
        name: "host".to_string(),
        name_outer: "host".to_string(),
        workdir: String::new(),
        engine: Engine::Host(EngineHost { base: EngineBase { name: None, setup: true } }),
        setup: true,
    }
}

fn quiet_params() -> CmdParams {
    CmdParams::new_default(CmdOutput::quiet(), CmdOutput::quiet())
}

fn plain_task(tt: TaskType) -> Task {
    Task {
        table: None,
        condition: None,
        clean_vars: false,
        parallel: false,
        result_fs_var: None,
        vars: ExtVars::Vars(Vars::new()),
        export_vars: Vec::new(),
        items_table: None,
        task_type: tt,
        try_: None,
    }
}

fn shell(cmd: &str) -> TaskType {
    TaskType::Shell(ShellType { command: cmd.to_string(), params: quiet_params() })
}

fn env_with(tasklines: Vec<(String, Taskline)>) -> Env {
    Env {
        dir: "/tmp".to_string(),
        config_dir: "/tmp".to_string(),
        tasklines,
        workers: Vec::new(),
        default_check: true,
    }
}

/// A tiny stand-in template engine: `{{ name }}` alone is looked up in
/// the context, anything else renders to itself.
fn render_fake(template: &str, ctx: &Val) -> String {
    let t = template.trim();
    if t.starts_with("{{") && t.ends_with("}}") {
        let key = t[2..t.len() - 2].trim();
        if let Val::Obj(entries) = ctx {
            for (k, v) in entries {
                if k == key {
                    return match v {
                        Val::Str(s) => s.clone(),
                        other => json_encode(other),
                    };
                }
            }
        }
        return String::new();
    }
    template.to_string()
}

/// A tiny stand-in host: `echo X` prints X, `false` fails, `true`
/// passes, `fail-once` fails on its first run only.
fn answer(req: &Request, log: &mut Vec<String>, fail_once_seen: &mut bool) -> Reply {
    match req {
        Request::Render { template, context } => {
            Reply::Rendered(Ok(render_fake(template, context)))
        }
        Request::RunCmd { argv, .. } => {
            let cmd = if argv.len() == 3 && argv[0] == "sh" && argv[1] == "-c" {
                argv[2].clone()
            } else {
                argv.join(" ")
            };
            log.push(cmd.clone());
            if let Some(rest) = cmd.strip_prefix("echo ") {
                Reply::Ran(Ok(RawOut {
                    stdout: format!("{}\n", rest),
                    stderr: String::new(),
                    code: Some(0),
                }))
            } else if cmd == "false" {
                Reply::Ran(Ok(RawOut { stdout: String::new(), stderr: String::new(), code: Some(1) }))
            } else if cmd == "fail-once" {
                let code = if *fail_once_seen { 0 } else { 1 };
                *fail_once_seen = true;
                Reply::Ran(Ok(RawOut { stdout: String::new(), stderr: String::new(), code: Some(code) }))
            } else {
                Reply::Ran(Ok(RawOut { stdout: String::new(), stderr: String::new(), code: Some(0) }))
            }
        }
        Request::Sleep { .. } => {
            log.push("sleep".to_string());
            Reply::Unit(Ok(()))
        }
        Request::Print { .. } | Request::Log { .. } => Reply::Unit(Ok(())),
        Request::WriteFsVar { name, value } => {
            log.push(format!("fs:{}={}", name, json_encode(value)));
            Reply::Unit(Ok(()))
        }
        Request::ReadFsVar { .. } => Reply::FsValue(None),
        Request::LoadModule { .. } => Reply::Module(Err("no modules here".to_string())),
        Request::RunTasksetFile { .. } => Reply::Unit(Ok(())),
    }
}

/// Replays the engine against the stand-in host until it finishes.
fn drive<F>(mut f: F) -> (Result<TaskResult, Failure>, Vec<String>)
where
    F: FnMut(&mut Feed) -> Result<TaskResult, Stop>,
{
    let mut feed = Feed::new();
    let mut log: Vec<String> = Vec::new();
    let mut fail_once_seen = false;
    loop {
        feed.cursor = 0;
        match f(&mut feed) {
            Ok(r) => return (Ok(r), log),
            Err(Stop::Fail(fa)) => return (Err(fa), log),
            Err(Stop::Suspend(req)) => {
                let reply = answer(&req, &mut log, &mut fail_once_seen);
                feed.replies.push(reply);
            }
        }
    }
}

fn value_json(r: &TaskResult) -> String {
    json_encode(r.as_value().expect("expected a value result"))
}

#[test]
fn sequential_taskline_threads_results() {
    let elems = vec![
        TasklineElem { name: None, task: plain_task(shell("echo one")) },
        TasklineElem { name: None, task: plain_task(shell("echo two")) },
    ];
    let tasklines = vec![("t1".to_string(), Taskline::Line(elems))];
    let worker = host_worker();
    let (r, _log) = drive(|feed| {
        let env = env_with(vec![(
            "t1".to_string(),
            match &tasklines[0].1 {
                Taskline::Line(e) => Taskline::Line(
                    e.iter()
                        .map(|el| TasklineElem {
                            name: el.name.clone(),
                            task: lineup::task::dup_task(&el.task),
                        })
                        .collect(),
                ),
                _ => unreachable!(),
            },
        )]);
        let rt = TaskType::RunTaskline(RunTasklineType {
            taskline: "t1".to_string(),
            module: String::new(),
        });
        rt.run(&Context::new(), &env, &worker, feed, 16)
    });
    assert_eq!(value_json(&r.unwrap()), "[\"two\"]");
}

#[test]
fn taskline_intermediate_result_is_visible() {
    let elems = vec![
        TasklineElem { name: None, task: plain_task(shell("echo one")) },
        TasklineElem { name: None, task: plain_task(TaskType::Dummy(DummyType { result: None })) },
    ];
    let worker = host_worker();
    let (r, _log) = drive(|feed| {
        let env = env_with(vec![(
            "t".to_string(),
            Taskline::Line(
                elems
                    .iter()
                    .map(|el| TasklineElem {
                        name: el.name.clone(),
                        task: lineup::task::dup_task(&el.task),
                    })
                    .collect(),
            ),
        )]);
        let rt = TaskType::RunTaskline(RunTasklineType {
            taskline: "t".to_string(),
            module: String::new(),
        });
        rt.run(&Context::new(), &env, &worker, feed, 16)
    });
    assert_eq!(value_json(&r.unwrap()), "[\"one\"]");
}

#[test]
fn items_fan_out_with_retry() {
    let items = Items::Words(vec![
        StringOrInt::Text("a".to_string()),
        StringOrInt::Text("b".to_string()),
        StringOrInt::Text("c".to_string()),
    ]);
    let worker = host_worker();
    let (r, log) = drive(|feed| {
        let task = Task {
            items_table: Some(TaskItemsTable {
                items: lineup::items::dup_items(&items),
                items_var: "item".to_string(),
                table_by_item: None,
            }),
            try_: Some(TaskTry { attempts: 3, cleanup: None, sleep_ms: 10 }),
            ..plain_task(shell("false"))
        };
        let env = env_with(Vec::new());
        task.run(&None, &Context::new(), &env, &worker, feed, 16)
    });
    let failure = r.err().expect("the task should fail");
    assert!(matches!(failure.error, lineup::error::Error::CommandFailedExitCode(_)));
    assert!(failure
        .context
        .iter()
        .any(|(k, v)| k == "item" && v == "a"));
    // three attempts ran, all on the first item
    assert_eq!(log.iter().filter(|c| c.as_str() == "false").count(), 3);
}

#[test]
fn retry_succeeds_after_cleanup() {
    let worker = host_worker();
    let (r, log) = drive(|feed| {
        let task = Task {
            try_: Some(TaskTry { attempts: 3, cleanup: None, sleep_ms: 1 }),
            ..plain_task(shell("fail-once"))
        };
        let env = env_with(Vec::new());
        task.run(&None, &Context::new(), &env, &worker, feed, 16)
    });
    assert!(r.is_ok());
    assert_eq!(log.iter().filter(|c| c.as_str() == "fail-once").count(), 2);
}

#[test]
fn break_out_of_nested_taskline() {
    let inner = vec![
        TasklineElem {
            name: None,
            task: plain_task(TaskType::Break(BreakType {
                taskline: Some("outer".to_string()),
                result: Some(Val::Uint(42)),
            })),
        },
        TasklineElem { name: None, task: plain_task(shell("echo never")) },
    ];
    let outer = vec![TasklineElem {
        name: None,
        task: plain_task(TaskType::RunTaskline(RunTasklineType {
            taskline: "inner".to_string(),
            module: String::new(),
        })),
    }];
    let worker = host_worker();
    let (r, log) = drive(|feed| {
        let env = env_with(vec![
            (
                "inner".to_string(),
                Taskline::Line(
                    inner
                        .iter()
                        .map(|el| TasklineElem {
                            name: el.name.clone(),
                            task: lineup::task::dup_task(&el.task),
                        })
                        .collect(),
                ),
            ),
            (
                "outer".to_string(),
                Taskline::Line(
                    outer
                        .iter()
                        .map(|el| TasklineElem {
                            name: el.name.clone(),
                            task: lineup::task::dup_task(&el.task),
                        })
                        .collect(),
                ),
            ),
        ]);
        let rt = TaskType::RunTaskline(RunTasklineType {
            taskline: "outer".to_string(),
            module: String::new(),
        });
        rt.run(&Context::new(), &env, &worker, feed, 16)
    });
    assert_eq!(value_json(&r.unwrap()), "42");
    assert!(!log.iter().any(|c| c.contains("never")));
}

#[test]
fn export_vars_flow_to_later_tasks() {
    let mut vars = Vars::new();
    vars.insert(Var::from_name("k".to_string()), Val::Str("v".to_string()));
    let t1 = Task {
        vars: ExtVars::Vars(vars),
        export_vars: vec!["k".to_string()],
        ..plain_task(TaskType::Dummy(DummyType { result: None }))
    };
    let t2 = plain_task(TaskType::Dummy(DummyType {
        result: Some(Val::Str("{{ k }}".to_string())),
    }));
    let worker = host_worker();
    let (r, _log) = drive(|feed| {
        let env = env_with(vec![(
            "t".to_string(),
            Taskline::Line(vec![
                TasklineElem { name: None, task: lineup::task::dup_task(&t1) },
                TasklineElem { name: None, task: lineup::task::dup_task(&t2) },
            ]),
        )]);
        let rt = TaskType::RunTaskline(RunTasklineType {
            taskline: "t".to_string(),
            module: String::new(),
        });
        rt.run(&Context::new(), &env, &worker, feed, 16)
    });
    assert_eq!(value_json(&r.unwrap()), "\"v\"");
}

#[test]
fn no_items_means_one_pass_with_empty_item() {
    let worker = host_worker();
    let (r, log) = drive(|feed| {
        let task = plain_task(TaskType::Dummy(DummyType {
            result: Some(Val::Str("{{ item }}".to_string())),
        }));
        let env = env_with(Vec::new());
        task.run(&None, &Context::new(), &env, &worker, feed, 16)
    });
    assert_eq!(value_json(&r.unwrap()), "\"\"");
    assert!(log.is_empty());
}

#[test]
fn no_table_means_one_pass() {
    let worker = host_worker();
    let (_r, log) = drive(|feed| {
        let task = plain_task(shell("echo once"));
        let env = env_with(Vec::new());
        task.run(&None, &Context::new(), &env, &worker, feed, 16)
    });
    assert_eq!(log.iter().filter(|c| c.as_str() == "echo once").count(), 1);
}

#[test]
fn condition_true_proceeds_without_worker() {
    let worker = host_worker();
    let (_r, log) = drive(|feed| {
        let task = Task { condition: Some("true".to_string()), ..plain_task(shell("echo run")) };
        let env = env_with(Vec::new());
        task.run(&None, &Context::new(), &env, &worker, feed, 16)
    });
    // only the task's own command ran; the condition invoked nothing
    assert_eq!(log.len(), 1);
    assert_eq!(log[0], "echo run");
}

#[test]
fn condition_false_always_skips() {
    let worker = host_worker();
    let (r, log) = drive(|feed| {
        let task = Task { condition: Some("false".to_string()), ..plain_task(shell("echo run")) };
        let env = env_with(Vec::new());
        task.run(&None, &Context::new(), &env, &worker, feed, 16)
    });
    assert!(log.is_empty());
    assert_eq!(value_json(&r.unwrap()), "null");
}

#[test]
fn condition_command_decides() {
    let worker = host_worker();
    let (_r, log) = drive(|feed| {
        let task = Task {
            condition: Some("probe-cmd".to_string()),
            ..plain_task(shell("echo run"))
        };
        let env = env_with(Vec::new());
        task.run(&None, &Context::new(), &env, &worker, feed, 16)
    });
    assert_eq!(log, vec!["probe-cmd".to_string(), "echo run".to_string()]);
}

#[test]
fn table_rows_fold_to_an_array() {
    let worker = host_worker();
    let (r, log) = drive(|feed| {
        let task = Task {
            table: Some(lineup::table::Table::Maps(vec![
                vec![("name".to_string(), StringOrInt::Text("x".to_string()))],
                vec![("name".to_string(), StringOrInt::Text("y".to_string()))],
            ])),
            ..plain_task(TaskType::Dummy(DummyType {
                result: Some(Val::Str("row".to_string())),
            }))
        };
        let env = env_with(Vec::new());
        task.run(&None, &Context::new(), &env, &worker, feed, 16)
    });
    assert_eq!(log.len(), 0);
    assert_eq!(value_json(&r.unwrap()), "[\"row\",\"row\"]");
}

/// Replays a unit-result engine call the same way.
fn drive_unit<F>(mut f: F) -> (Result<(), Failure>, Vec<String>)
where
    F: FnMut(&mut Feed) -> Result<(), Stop>,
{
    let mut feed = Feed::new();
    let mut log: Vec<String> = Vec::new();
    let mut fail_once_seen = false;
    loop {
        feed.cursor = 0;
        match f(&mut feed) {
            Ok(()) => return (Ok(()), log),
            Err(Stop::Fail(fa)) => return (Err(fa), log),
            Err(Stop::Suspend(req)) => {
                let reply = answer(&req, &mut log, &mut fail_once_seen);
                feed.replies.push(reply);
            }
        }
    }
}

fn taskset_elem(requires: &[&str], tt: TaskType) -> lineup::runner::TasksetElem {
    lineup::runner::TasksetElem {
        requires: requires.iter().map(|r| r.to_string()).collect(),
        workers: vec![".*".to_string()],
        provide_workers: Vec::new(),
        task: plain_task(tt),
    }
}

fn runner_with(taskset: Vec<(String, lineup::runner::TasksetElem)>) -> lineup::runner::Runner {
    lineup::runner::Runner {
        taskset,
        skip_tasks: Vec::new(),
        tasklines: Vec::new(),
        vars_context: Context::new(),
        networks: Vec::new(),
        storages: Vec::new(),
        workers: vec![host_worker()],
        dir: "/tmp".to_string(),
        config_dir: "/tmp".to_string(),
        default_check: true,
        worker_exists: None,
    }
}

#[test]
fn cyclic_taskset_fails_with_tsort() {
    let (r, log) = drive_unit(|feed| {
        let mut runner = runner_with(vec![
            ("A".to_string(), taskset_elem(&["B"], shell("echo a"))),
            ("B".to_string(), taskset_elem(&["A"], shell("echo b"))),
        ]);
        runner.run(feed, 16)
    });
    let failure = r.err().expect("a cyclic taskset must fail");
    match failure.error {
        lineup::error::Error::TSort(place) => assert_eq!(place, "taskset requires"),
        other => panic!("expected TSort, got {:?}", other),
    }
    // the sort failed before any task or worker was touched
    assert!(log.is_empty());
}

#[test]
fn empty_workers_fail_before_anything() {
    let (r, log) = drive_unit(|feed| {
        let mut runner = runner_with(vec![(
            "A".to_string(),
            taskset_elem(&[], shell("echo a")),
        )]);
        runner.workers = Vec::new();
        runner.run(feed, 16)
    });
    assert!(matches!(r.err().unwrap().error, lineup::error::Error::NoWorkers));
    assert!(log.is_empty());
}

#[test]
fn skipped_tasks_satisfy_dependents_without_running() {
    let (r, log) = drive_unit(|feed| {
        let mut runner = runner_with(vec![
            ("A".to_string(), taskset_elem(&[], shell("echo a"))),
            ("B".to_string(), taskset_elem(&["A"], shell("echo b"))),
        ]);
        runner.skip_tasks = vec!["A".to_string()];
        runner.run(feed, 16)
    });
    assert!(r.is_ok());
    assert!(!log.iter().any(|c| c == "echo a"));
    assert!(log.iter().any(|c| c == "echo b"));
}

#[test]
fn unmatched_workers_see_no_dispatch() {
    let (r, log) = drive_unit(|feed| {
        let mut elem = taskset_elem(&[], shell("echo only-web"));
        elem.workers = vec!["web".to_string()];
        let mut runner = runner_with(vec![("A".to_string(), elem)]);
        runner.workers = vec![
            {
                let mut w = host_worker();
                w.name = "web".to_string();
                w.name_outer = "web".to_string();
                w
            },
            {
                let mut w = host_worker();
                w.name = "web-2".to_string();
                w.name_outer = "web-2".to_string();
                w
            },
        ];
        runner.run(feed, 16)
    });
    assert!(r.is_ok());
    // the anchored pattern matched exactly one of the two workers
    assert_eq!(log.iter().filter(|c| c.as_str() == "echo only-web").count(), 1);
}

#[test]
fn vars_render_against_the_accumulator() {
    let mut vars = lineup::vars::Vars::new();
    vars.insert(
        lineup::vars::Var::from_name("a".to_string()),
        Val::Str("1".to_string()),
    );
    vars.insert(
        lineup::vars::Var::from_name("b".to_string()),
        Val::Str("{{ a }}".to_string()),
    );
    let mut feed = Feed::new();
    let mut log: Vec<String> = Vec::new();
    let mut fo = false;
    let rendered = loop {
        feed.cursor = 0;
        match lineup::vars::render_vars(&vars, &Context::new(), &mut feed) {
            Ok(r) => break r.expect("rendering must succeed"),
            Err(Stop::Fail(f)) => panic!("unexpected failure: {:?}", f.error),
            Err(Stop::Suspend(req)) => {
                let reply = answer(&req, &mut log, &mut fo);
                feed.replies.push(reply);
            }
        }
    };
    let ctx = rendered.context();
    let b = ctx.get("b").expect("b must be rendered");
    assert_eq!(lineup::json::json_encode(b), "\"1\"");
}
