use vstd::prelude::*;

verus! {

use crate::items::{Items, dup_items};
use crate::table::{Table, dup_table};
use crate::task_type::{TaskType, dup_task_type};
use crate::vars::ExtVars;
use crate::value::{Val, Vm};
use crate::context::Context;
use crate::effects::{Feed, Stop, fail};
use crate::task_result::TaskResult;
use vstd::string::StringExecFns;

/// The item fan-out declaration: the items, the context key the current
/// item is bound to, and an optional table searched by item.
pub struct TaskItemsTable {
    pub items: Items,
    pub items_var: String,
    pub table_by_item: Option<Table>,
}

/// A cleanup task run between retry attempts.
pub struct TaskTryCleanup {
    pub task: TaskType,
}

/// The retry policy: attempts, the pause between them in milliseconds,
/// and an optional cleanup.
pub struct TaskTry {
    pub attempts: u32,
    pub cleanup: Option<TaskTryCleanup>,
    pub sleep_ms: u64,
}

/// One task as the manifest declares it: fan-outs, condition, variable
/// bindings, the primitive body, and the retry policy.
pub struct Task {
    pub table: Option<Table>,
    pub condition: Option<String>,
    pub clean_vars: bool,
    pub parallel: bool,
    pub result_fs_var: Option<String>,
    pub vars: ExtVars,
    pub export_vars: Vec<String>,
    pub items_table: Option<TaskItemsTable>,
    pub task_type: TaskType,
    pub try_: Option<TaskTry>,
}

pub fn dup_task(t: &Task) -> (r: Task) {
    Task {
        table: match &t.table {
            Some(tb) => Some(dup_table(tb)),
            None => None,
        },
        condition: match &t.condition {
            Some(c) => Some(c.clone()),
            None => None,
        },
        clean_vars: t.clean_vars,
        parallel: t.parallel,
        result_fs_var: match &t.result_fs_var {
            Some(c) => Some(c.clone()),
            None => None,
        },
        vars: crate::vars::dup_ext_vars(&t.vars),
        export_vars: crate::task_type::dup_strings(&t.export_vars),
        items_table: match &t.items_table {
            Some(it) => Some(
                TaskItemsTable {
                    items: dup_items(&it.items),
                    items_var: it.items_var.clone(),
                    table_by_item: match &it.table_by_item {
                        Some(tb) => Some(dup_table(tb)),
                        None => None,
                    },
                },
            ),
            None => None,
        },
        task_type: dup_task_type(&t.task_type),
        try_: match &t.try_ {
            Some(tr) => Some(
                TaskTry {
                    attempts: tr.attempts,
                    cleanup: match &tr.cleanup {
                        Some(c) => Some(TaskTryCleanup { task: dup_task_type(&c.task) }),
                        None => None,
                    },
                    sleep_ms: tr.sleep_ms,
                },
            ),
            None => None,
        },
    }
}


/// What an evaluated condition asks for: the literal `true` proceeds, the
/// literal `false` skips, anything else is run as a shell command whose
/// success decides.
pub enum ConditionAction {
    Proceed,
    Skip,
    RunShell,
}

pub fn condition_action(rendered: &str) -> (r: ConditionAction)
    ensures
        r is Proceed <==> crate::strings::trimmed(rendered@) == "true"@,
        r is Skip <==> (crate::strings::trimmed(rendered@) == "false"@ && crate::strings::trimmed(
            rendered@,
        ) != "true"@),
        r is RunShell <==> (crate::strings::trimmed(rendered@) != "true"@
            && crate::strings::trimmed(rendered@) != "false"@),
{
    let t = crate::strings::trim_exec(rendered);
    if crate::strings::str_eq(t.as_str(), "true") {
        ConditionAction::Proceed
    } else if crate::strings::str_eq(t.as_str(), "false") {
        ConditionAction::Skip
    } else {
        ConditionAction::RunShell
    }
}

/// What one task run needs around it: the manifest's directory, the
/// configuration directory, the known tasklines, the workers offered to
/// nested tasksets, and the configured default for command checking.
pub struct Env {
    pub dir: String,
    pub config_dir: String,
    pub tasklines: Vec<(String, crate::taskline::Taskline)>,
    pub workers: Vec<crate::worker::Worker>,
    pub default_check: bool,
}

pub fn dup_env(env: &Env) -> (r: Env) {
    let mut tasklines: Vec<(String, crate::taskline::Taskline)> = Vec::new();
    let mut i: usize = 0;
    while i < env.tasklines.len()
        decreases env.tasklines@.len() - i,
    {
        tasklines.push(
            (env.tasklines[i].0.clone(), crate::taskline::dup_taskline(&env.tasklines[i].1)),
        );
        i += 1;
    }
    Env {
        dir: env.dir.clone(),
        config_dir: env.config_dir.clone(),
        tasklines,
        workers: crate::worker::dup_workers(&env.workers),
        default_check: env.default_check,
    }
}

/// The named taskline, when it is known.
pub fn lookup_taskline<'a>(
    tasklines: &'a Vec<(String, crate::taskline::Taskline)>,
    name: &str,
) -> (r: Option<&'a crate::taskline::Taskline>) {
    let mut i: usize = 0;
    while i < tasklines.len()
        decreases tasklines@.len() - i,
    {
        if crate::strings::str_eq(tasklines[i].0.as_str(), name) {
            return Some(&tasklines[i].1);
        }
        i += 1;
    }
    None
}

/// A row of text cells as a context value.
fn row_value(row: &Vec<(String, String)>) -> (r: Val) {
    let mut entries: Vec<(String, Val)> = Vec::new();
    let mut i: usize = 0;
    while i < row.len()
        decreases row@.len() - i,
    {
        entries.push((row[i].0.clone(), Val::Str(row[i].1.clone())));
        i += 1;
    }
    Val::Obj(entries)
}

fn dup_rows(rows: &Vec<Vec<(String, String)>>) -> (r: Vec<Vec<(String, String)>>) {
    let mut out: Vec<Vec<(String, String)>> = Vec::new();
    let mut i: usize = 0;
    while i < rows.len()
        invariant
            i <= rows@.len(),
        decreases rows@.len() - i,
    {
        let mut row: Vec<(String, String)> = Vec::new();
        let mut j: usize = 0;
        while j < rows[i].len()
            invariant
                i < rows@.len(),
                j <= rows@[i as int]@.len(),
            decreases rows@[i as int]@.len() - j,
        {
            row.push((rows[i][j].0.clone(), rows[i][j].1.clone()));
            j += 1;
        }
        out.push(row);
        i += 1;
    }
    out
}

/// The value a row's `item` column holds, when there is one.
fn row_item<'a>(row: &'a Vec<(String, String)>) -> (r: Option<&'a String>) {
    let mut i: usize = 0;
    while i < row.len()
        decreases row@.len() - i,
    {
        if crate::strings::str_eq(row[i].0.as_str(), "item") {
            return Some(&row[i].1);
        }
        i += 1;
    }
    None
}

impl Task {
    /// Runs the task: the item fan-out over the rendered items (one empty
    /// item when none are declared), the row fan-out over the rendered
    /// table (one empty row likewise), the condition, the retry policy,
    /// and the folding of results — items are keyed into an object, rows
    /// into an array. Exported variables ride on the result.
    pub fn run(
        &self,
        name: &Option<String>,
        context: &Context,
        env: &Env,
        worker: &crate::worker::Worker,
        feed: &mut Feed,
        depth: u64,
    ) -> (r: Result<TaskResult, Stop>)
        ensures
            // an exhausted nesting budget fails rather than recurse
            depth == 0 ==> (r matches Err(s) && (s matches Stop::Fail(f) && f.error is TooDeep)),
            // an item fan-out folds into an object keyed by item, unless an
            // exception cut it short
            self.items_table is Some ==> (r matches Ok(tr) ==> (tr.deep_view() is Exception
                || tr.deep_view() matches crate::task_result::TrV::Value {
                value: Vm::Obj(_),
                ..
            })),
            // a row fan-out without items folds into an array of row results
            self.items_table is None && self.table is Some ==> (r matches Ok(tr) ==> (
            tr.deep_view() is Exception || tr.deep_view() matches crate::task_result::TrV::Value {
                value: Vm::Arr(_),
                ..
            })),
        decreases depth,
    {
        if depth == 0 {
            return Err(fail(crate::error::Error::TooDeep));
        }
        let base_context = if self.clean_vars {
            Context::new()
        } else {
            context.dup()
        };
        // P9: no declared items means exactly one pass with the empty item
        let items: Vec<String> = match &self.items_table {
            Some(it) => {
                match it.items.list(&base_context, feed)? {
                    Ok(items) => items,
                    Err(f) => {
                        return Err(Stop::Fail(f));
                    }
                }
            }
            None => {
                let mut one: Vec<String> = Vec::new();
                one.push(String::new());
                one
            }
        };
        let items_var: String = match &self.items_table {
            Some(it) => it.items_var.clone(),
            None => "item".to_owned(),
        };
        let mut pairs: Vec<(String, TaskResult)> = Vec::new();
        let mut i: usize = 0;
        while i < items.len()
            invariant
                depth >= 1,
                pairs@.len() == i,
                self.items_table is None ==> items@.len() == 1,
                self.items_table is Some ==> forall|k: int|
                    0 <= k < pairs@.len() ==> !((#[trigger] pairs@[k]).1.deep_view() is Exception),
                self.items_table is None && self.table is Some ==> forall|k: int|
                    0 <= k < pairs@.len() ==> ((#[trigger] pairs@[k]).1.deep_view() is Exception
                        || pairs@[k].1.deep_view() matches crate::task_result::TrV::Value {
                        value: Vm::Arr(_),
                        ..
                    }),
            decreases items@.len() - i,
        {
            let item = items[i].clone();
            // P10: no declared table means exactly one pass with an empty row
            let rows: Vec<Vec<(String, String)>> = match &self.table {
                Some(t) => {
                    match t.list(&base_context, feed)? {
                        Ok(rows) => rows,
                        Err(f) => {
                            return Err(Stop::Fail(f));
                        }
                    }
                }
                None => {
                    let mut one: Vec<Vec<(String, String)>> = Vec::new();
                    one.push(Vec::new());
                    one
                }
            };
            let mut item_context = base_context.dup();
            item_context.insert(items_var.clone(), Val::Str(item.clone()));
            match &self.items_table {
                Some(it) => {
                    match &it.table_by_item {
                        Some(tbi) => {
                            let by_item = match tbi.list(&item_context, feed)? {
                                Ok(rows) => rows,
                                Err(f) => {
                                    return Err(Stop::Fail(f));
                                }
                            };
                            let mut b: usize = 0;
                            while b < by_item.len()
                                decreases by_item@.len() - b,
                            {
                                match row_item(&by_item[b]) {
                                    Some(row_it) => {
                                        if crate::strings::str_eq(
                                            row_it.as_str(),
                                            item.as_str(),
                                        ) {
                                            item_context.insert(
                                                "row_by_item".to_owned(),
                                                row_value(&by_item[b]),
                                            );
                                        }
                                    }
                                    None => {},
                                }
                                b += 1;
                            }
                        }
                        None => {},
                    }
                }
                None => {},
            }
            let mut row_results: Vec<TaskResult> = Vec::new();
            let mut rix: usize = 0;
            while rix < rows.len()
                invariant
                    depth >= 1,
                    self.items_table is Some ==> forall|k: int|
                        0 <= k < pairs@.len() ==> !((#[trigger] pairs@[k]).1.deep_view()
                            is Exception),
                    self.items_table is None && self.table is Some ==> forall|k: int|
                        0 <= k < pairs@.len() ==> ((#[trigger] pairs@[k]).1.deep_view()
                            is Exception || pairs@[k].1.deep_view() matches
                            crate::task_result::TrV::Value { value: Vm::Arr(_), .. }),
                decreases rows@.len() - rix,
            {
                let step = self.run_one(
                    name,
                    &item_context,
                    &rows[rix],
                    item.as_str(),
                    env,
                    worker,
                    feed,
                    (depth - 1) as u64,
                );
                let result = match step {
                    Ok(r) => r,
                    Err(Stop::Suspend(req)) => {
                        return Err(Stop::Suspend(req));
                    }
                    Err(Stop::Fail(mut f)) => {
                        if matches!(self.items_table, Some(_)) {
                            f.context.push(("item".to_owned(), item.clone()));
                        }
                        return Err(Stop::Fail(f));
                    }
                };
                row_results.push(result);
                rix += 1;
            }
            let folded = if matches!(self.table, Some(_)) {
                let f = crate::task_result::fold_vec(&row_results);
                proof {
                    crate::task_result::lemma_first_exception_shape(row_results.deep_view());
                }
                f
            } else if row_results.len() > 0 {
                row_results[0].dup()
            } else {
                TaskResult::from_value(Val::Null)
            };
            let is_exception = matches!(folded.as_exception(), Some(_));
            if is_exception && matches!(self.items_table, Some(_)) {
                return Ok(folded);
            }
            pairs.push((item, folded));
            i += 1;
        }
        let result = if matches!(self.items_table, Some(_)) {
            let folded = crate::task_result::fold_items(&pairs);
            proof {
                let dv = pairs.deep_view();
                assert(dv =~= Seq::new(pairs@.len(), |k: int| pairs@[k].deep_view()));
                assert forall|k: int|
                    0 <= k < crate::task_result::seconds(dv).len() implies !((
                #[trigger] crate::task_result::seconds(dv)[k]) is Exception) by {
                    assert(crate::task_result::seconds(dv)[k] == pairs@[k].1.deep_view());
                }
                crate::task_result::lemma_first_exception_none(
                    crate::task_result::seconds(dv),
                );
            }
            folded
        } else if pairs.len() > 0 {
            pairs[0].1.dup()
        } else {
            TaskResult::from_value(Val::Null)
        };
        match &self.result_fs_var {
            Some(fs_name) => {
                match result.as_value() {
                    Some(v) => {
                        let rendered = feed.render(fs_name.clone(), &base_context)?;
                        if !crate::fs_store::check_fs_name(rendered.as_str()) {
                            return Err(fail(crate::error::Error::BadFsVar(rendered)));
                        }
                        let owned = v.dup();
                        feed.write_fs_var(rendered, owned)?;
                    }
                    None => {},
                }
            }
            None => {},
        }
        Ok(result)
    }

    /// One pass of the fan-out: binds the row, renders the task's
    /// variables, evaluates the condition (`true` proceeds without
    /// touching the worker, `false` skips with the inherited result, any
    /// other text runs as a shell command whose failure skips), then runs
    /// the body under the retry policy and attaches the exported
    /// variables.
    fn run_one(
        &self,
        name: &Option<String>,
        item_context: &Context,
        row: &Vec<(String, String)>,
        item: &str,
        env: &Env,
        worker: &crate::worker::Worker,
        feed: &mut Feed,
        depth: u64,
    ) -> (r: Result<TaskResult, Stop>)
        decreases depth,
    {
        if depth == 0 {
            return Err(fail(crate::error::Error::TooDeep));
        }
        let mut context = item_context.dup();
        context.insert("row".to_owned(), row_value(row));
        let task_vars = match crate::vars::ext_vars_context(&self.vars, &context, feed)? {
            Ok(v) => v,
            Err(e) => {
                return Err(fail(e));
            }
        };
        let vars_context = task_vars.context();
        context.extend_from(&vars_context);
        match &self.condition {
            Some(condition) => {
                let rendered = feed.render(condition.clone(), &context)?;
                match condition_action(rendered.as_str()) {
                    ConditionAction::Proceed => {},
                    ConditionAction::Skip => {
                        return Ok(
                            TaskResult::from_value(
                                crate::task_type::inherited_result(&context),
                            ),
                        );
                    }
                    ConditionAction::RunShell => {
                        let params = crate::cmd::CmdParams::new_default(
                            crate::cmd::CmdOutput::quiet(),
                            crate::cmd::CmdOutput::quiet(),
                        );
                        match worker.shell(
                            rendered.as_str(),
                            &params,
                            env.default_check,
                            feed,
                        )? {
                            Ok(_) => {},
                            Err(_) => {
                                return Ok(
                                    TaskResult::from_value(
                                        crate::task_type::inherited_result(&context),
                                    ),
                                );
                            }
                        }
                    }
                }
            }
            None => {},
        }
        match name {
            Some(n) => {
                let rendered_name = feed.render(n.clone(), &context)?;
                let mut text = "Run task `".to_owned();
                text.append(rendered_name.as_str());
                text.push('`');
                if matches!(self.items_table, Some(_)) {
                    text.append(" (item=");
                    text.append(item);
                    text.push(')');
                }
                text.append(" on worker `");
                let wname = worker.display_name();
                text.append(wname.as_str());
                text.push('`');
                feed.log(crate::cmd::LogLevel::Info, text)?;
            }
            None => {},
        }
        let mut res = self.task_type.run(&context, env, worker, feed, (depth - 1) as u64);
        match &self.try_ {
            Some(policy) => {
                let mut attempt: u32 = 1;
                loop
                    invariant
                        attempt >= 1,
                        depth >= 1,
                    decreases policy.attempts - attempt,
                {
                    if attempt >= policy.attempts {
                        break;
                    }
                    let failed = match &res {
                        Ok(_) => false,
                        Err(Stop::Suspend(_)) => {
                            break;
                        }
                        Err(Stop::Fail(_)) => true,
                    };
                    if !failed {
                        break;
                    }
                    feed.sleep(policy.sleep_ms)?;
                    match &policy.cleanup {
                        Some(cleanup) => {
                            match cleanup.task.run(&context, env, worker, feed, (depth - 1) as u64) {
                                Ok(_) => {},
                                Err(Stop::Suspend(req)) => {
                                    return Err(Stop::Suspend(req));
                                }
                                Err(Stop::Fail(_)) => {
                                    feed.log(
                                        crate::cmd::LogLevel::Warn,
                                        "Cleanup command failed".to_owned(),
                                    )?;
                                }
                            }
                        }
                        None => {},
                    }
                    res = self.task_type.run(&context, env, worker, feed, (depth - 1) as u64);
                    attempt = attempt + 1;
                }
            }
            None => {},
        }
        let mut result = match res {
            Ok(r) => r,
            Err(stop) => {
                return Err(stop);
            }
        };
        match name {
            Some(n) => {
                let rendered_name = feed.render(n.clone(), &context)?;
                let mut text = "Task `".to_owned();
                text.append(rendered_name.as_str());
                text.push('`');
                if matches!(self.items_table, Some(_)) {
                    text.append(" (item=");
                    text.append(item);
                    text.push(')');
                }
                text.append(" on worker `");
                let wname = worker.display_name();
                text.append(wname.as_str());
                text.append("` finished");
                feed.log(crate::cmd::LogLevel::Info, text)?;
            }
            None => {},
        }
        // only the named exports ride back on the result
        let mut exported: Vec<(String, Val)> = Vec::new();
        let mut e: usize = 0;
        while e < self.export_vars.len()
            decreases self.export_vars@.len() - e,
        {
            match vars_context.get(self.export_vars[e].as_str()) {
                Some(v) => {
                    exported.push((self.export_vars[e].clone(), v.dup()));
                }
                None => {},
            }
            e += 1;
        }
        result.add_vars(Val::Obj(exported));
        Ok(result)
    }
}
} // verus!
