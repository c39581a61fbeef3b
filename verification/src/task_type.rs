use vstd::prelude::*;

verus! {

use crate::error::Error;
use crate::value::{Val, Vm, val_of, get_path};
use crate::vars::{Var, types_accept};
use crate::cmd::{CmdParams, CmdParamsResult, CmdOutput, CmdOut, LogLevel, CmdStream, Failure};
use crate::matches::Matches;
use crate::context::Context;
use crate::strings::split_sep;

use crate::task_result::{TaskResult, Exception, BreakFlow, break_decision};
use crate::effects::{Stop, fail};
use crate::taskline::Taskline;
use vstd::string::StringExecFns;
use vstd::string::StrSliceExecFns;

/// Break out of a taskline, optionally a named enclosing one, with an
/// optional result.
pub struct BreakType {
    pub taskline: Option<String>,
    pub result: Option<Val>,
}

/// A message logged at debug level, with an optional result.
pub struct DebugType {
    pub msg: String,
    pub result: Option<Val>,
}

/// No work; an optional result, else the inherited one.
pub struct DummyType {
    pub result: Option<Val>,
}

/// Asserts that variables are present in the context and well-typed.
pub struct EnsureType {
    pub vars: Vec<Var>,
}

/// A user-signalled failure: its message, the exit code for the process,
/// and whether a trace is printed.
pub struct ErrorType {
    pub msg: String,
    pub code: i32,
    pub trace: bool,
}

/// Where a file task's content comes from: a source path or inline text.
pub enum FileTypeSource {
    Src(String),
    Content(String),
}

/// Puts a file onto the worker, optionally re-owned and re-moded.
pub struct FileType {
    pub dst: String,
    pub source: FileTypeSource,
    pub chown: Option<String>,
    pub chmod: Option<String>,
}

/// Fetches a file from the worker.
pub struct GetType {
    pub src: String,
    pub dst: Option<String>,
}

/// A message logged at info level, with an optional result.
pub struct InfoType {
    pub msg: String,
    pub result: Option<Val>,
}

/// Runs an argument vector on the worker.
pub struct ExecType {
    pub args: Vec<String>,
    pub params: CmdParams,
}

/// Runs a named taskline, optionally from another manifest.
pub struct RunTasklineType {
    pub taskline: String,
    pub module: String,
}

/// Which workers a nested taskset borrows.
pub enum RunTasksetTypeWorker {
    All,
    Maps(Vec<(String, String)>),
    Names(Vec<String>),
}

/// Runs another manifest's whole taskset.
pub struct RunTasksetType {
    pub module: String,
    pub worker: RunTasksetTypeWorker,
}

/// Runs a shell command line on the worker.
pub struct ShellType {
    pub command: String,
    pub params: CmdParams,
}

/// The special operations a backend may support.
pub enum SpecialTypeType {
    Restart,
}

/// A backend-special operation.
pub struct SpecialType {
    pub ignore_unsupported: bool,
    pub type_: SpecialTypeType,
}

/// One command of a test task, in any of its spellings.
pub enum TestTypeCommand {
    Exec(ExecType),
    ExecArgs(Vec<String>),
    Shell(ShellType),
    ShellCommand(String),
}

/// Runs commands and ands their successes.
pub struct TestType {
    pub commands: Vec<TestTypeCommand>,
    pub check: bool,
}

/// A message logged at trace level, with an optional result.
pub struct TraceType {
    pub msg: String,
    pub result: Option<Val>,
}

/// A message logged at warn level, with an optional result.
pub struct WarnType {
    pub msg: String,
    pub result: Option<Val>,
}

/// The primitive task kinds.
pub enum TaskType {
    Break(BreakType),
    Debug(DebugType),
    Dummy(DummyType),
    Ensure(EnsureType),
    Error(ErrorType),
    Exec(ExecType),
    File(FileType),
    Get(GetType),
    Info(InfoType),
    Run(String),
    RunTaskline(RunTasklineType),
    RunTaskset(RunTasksetType),
    Shell(ShellType),
    Special(SpecialType),
    Test(TestType),
    Trace(TraceType),
    Warn(WarnType),
}

impl EnsureType {
    /// Every named variable is present under its dotted path and matches
    /// a declared type; succeeds exactly when all do, the error naming
    /// the absent ones, or the first ill-typed one.
    pub fn ensure_vars(&self, context: &Context) -> (r: Result<(), Error>)
        ensures
            r is Ok <==> forall|i: int|
                0 <= i < self.vars@.len() ==> {
                    let got = get_path(
                        Vm::Obj(context.view_obj()),
                        split_sep(#[trigger] self.vars@[i].name@, '.'),
                    );
                    got matches Some(v) && types_accept(self.vars@[i].types@, v)
                },
            // an absent variable is reported as such; a present ill-typed
            // one as a type error
            r matches Err(e) ==> (e is EnsureAbsentVars || e is WrongVarType),
            (exists|i: int|
                0 <= i < self.vars@.len() && get_path(
                    Vm::Obj(context.view_obj()),
                    split_sep(#[trigger] self.vars@[i].name@, '.'),
                ) is None) ==> (r matches Err(e) && e is EnsureAbsentVars),
    {
        let mut absent: Vec<String> = Vec::new();
        let mut bad: Option<Error> = None;
        let mut i: usize = 0;
        while i < self.vars.len()
            invariant
                i <= self.vars@.len(),
                (absent@.len() == 0 && bad is None) <==> forall|j: int|
                    0 <= j < i ==> {
                        let got = get_path(
                            Vm::Obj(context.view_obj()),
                            split_sep(#[trigger] self.vars@[j].name@, '.'),
                        );
                        got matches Some(v) && types_accept(self.vars@[j].types@, v)
                    },
                absent@.len() > 0 <==> exists|j: int|
                    0 <= j < i && get_path(
                        Vm::Obj(context.view_obj()),
                        split_sep(#[trigger] self.vars@[j].name@, '.'),
                    ) is None,
                bad matches Some(e) ==> e is WrongVarType,
            decreases self.vars@.len() - i,
        {
            let var = &self.vars[i];
            match context.get_dotted(var.name.as_str()) {
                Some(value) => {
                    match var.check_type(&value) {
                        Ok(()) => {},
                        Err(e) => {
                            if bad.is_none() {
                                bad = Some(e);
                            }
                        }
                    }
                }
                None => {
                    absent.push(var.to_text());
                }
            }
            i += 1;
        }
        if absent.len() > 0 {
            let joined = join_comma(&absent);
            let taskline = match context.get("taskline") {
                Some(Val::Str(t)) => t.clone(),
                _ => String::new(),
            };
            return Err(Error::EnsureAbsentVars(joined, taskline));
        }
        match bad {
            Some(e) => Err(e),
            None => Ok(()),
        }
    }

    /// The Ensure task: true on success.
    pub fn ensure(&self, context: &Context) -> (r: Result<Val, Error>)
        ensures
            r is Ok <==> forall|i: int|
                0 <= i < self.vars@.len() ==> {
                    let got = get_path(
                        Vm::Obj(context.view_obj()),
                        split_sep(#[trigger] self.vars@[i].name@, '.'),
                    );
                    got matches Some(v) && types_accept(self.vars@[i].types@, v)
                },
            r matches Ok(v) ==> v.deep_view() == Vm::Bool(true),
            r matches Err(e) ==> (e is EnsureAbsentVars || e is WrongVarType),
            (exists|i: int|
                0 <= i < self.vars@.len() && get_path(
                    Vm::Obj(context.view_obj()),
                    split_sep(#[trigger] self.vars@[i].name@, '.'),
                ) is None) ==> (r matches Err(e) && e is EnsureAbsentVars),
    {
        self.ensure_vars(context)?;
        Ok(Val::Bool(true))
    }
}

fn join_comma(items: &Vec<String>) -> (r: String) {
    let mut out = String::new();
    let mut i: usize = 0;
    while i < items.len()
        decreases items@.len() - i,
    {
        if i > 0 {
            out.append(", ");
        }
        out.append(items[i].as_str());
        i += 1;
    }
    out
}

// --- plumbing copies -------------------------------------------------------

pub fn dup_matches_plain(m: &Matches) -> (r: Matches)
    decreases *m,
{
    match m {
        Matches::And(ms) => {
            proof {
                assert(decreases_to!(*m => *ms));
                assert(decreases_to!(*ms => ms@));
            }
            Matches::And(dup_matches_vec(ms))
        }
        Matches::Or(ms) => {
            proof {
                assert(decreases_to!(*m => *ms));
                assert(decreases_to!(*ms => ms@));
            }
            Matches::Or(dup_matches_vec(ms))
        }
        Matches::AnyRe(s) => Matches::AnyRe(s.clone()),
        Matches::ErrRe(s) => Matches::ErrRe(s.clone()),
        Matches::OutRe(s) => Matches::OutRe(s.clone()),
    }
}

fn dup_matches_vec(ms: &Vec<Matches>) -> (r: Vec<Matches>)
    decreases ms@,
{
    let mut out: Vec<Matches> = Vec::new();
    let mut i: usize = 0;
    while i < ms.len()
        decreases ms@.len() - i,
    {
        proof {
            assert(decreases_to!(ms@ => ms@[i as int]));
        }
        let e = dup_matches_plain(&ms[i]);
        out.push(e);
        i += 1;
    }
    out
}

pub fn dup_log_level(l: &LogLevel) -> (r: LogLevel)
    ensures
        r == *l,
{
    match l {
        LogLevel::Off => LogLevel::Off,
        LogLevel::Error => LogLevel::Error,
        LogLevel::Warn => LogLevel::Warn,
        LogLevel::Info => LogLevel::Info,
        LogLevel::Debug => LogLevel::Debug,
        LogLevel::Trace => LogLevel::Trace,
    }
}

pub fn dup_cmd_params(p: &CmdParams) -> (r: CmdParams)
    ensures
        r.check == p.check,
        r.result == p.result,
        r.success_codes@ == p.success_codes@,
{
    CmdParams {
        check: p.check,
        result: CmdParamsResult {
            lines: p.result.lines,
            matched: p.result.matched,
            return_code: p.result.return_code,
            stream: match p.result.stream {
                CmdStream::Stdout => CmdStream::Stdout,
                CmdStream::Stderr => CmdStream::Stderr,
            },
            strip: p.result.strip,
        },
        stdin: match &p.stdin {
            Some(s) => Some(s.clone()),
            None => None,
        },
        stdout: CmdOutput { log: dup_log_level(&p.stdout.log), print: p.stdout.print },
        stderr: CmdOutput { log: dup_log_level(&p.stderr.log), print: p.stderr.print },
        success_codes: dup_codes(&p.success_codes),
        success_matches: match &p.success_matches {
            Some(m) => Some(dup_matches_plain(m)),
            None => None,
        },
        failure_matches: match &p.failure_matches {
            Some(m) => Some(dup_matches_plain(m)),
            None => None,
        },
    }
}

fn dup_codes(codes: &Vec<i32>) -> (r: Vec<i32>)
    ensures
        r@ == codes@,
{
    let mut out: Vec<i32> = Vec::new();
    let mut i: usize = 0;
    while i < codes.len()
        invariant
            i <= codes@.len(),
            out@ =~= codes@.take(i as int),
        decreases codes@.len() - i,
    {
        out.push(codes[i]);
        proof {
            assert(out@ =~= codes@.take(i + 1));
        }
        i += 1;
    }
    proof {
        assert(out@ =~= codes@);
    }
    out
}

pub fn dup_strings(ss: &Vec<String>) -> (r: Vec<String>)
    ensures
        crate::tsort::vviews(r@) == crate::tsort::vviews(ss@),
{
    let mut out: Vec<String> = Vec::new();
    let mut i: usize = 0;
    while i < ss.len()
        invariant
            i <= ss@.len(),
            out@.len() == i,
            forall|j: int| 0 <= j < i ==> out@[j]@ == #[trigger] ss@[j]@,
        decreases ss@.len() - i,
    {
        out.push(ss[i].clone());
        i += 1;
    }
    proof {
        assert(crate::tsort::vviews(out@) =~= crate::tsort::vviews(ss@));
    }
    out
}

pub fn dup_task_type(t: &TaskType) -> (r: TaskType) {
    match t {
        TaskType::Break(b) => TaskType::Break(
            BreakType {
                taskline: match &b.taskline {
                    Some(s) => Some(s.clone()),
                    None => None,
                },
                result: match &b.result {
                    Some(v) => Some(v.dup()),
                    None => None,
                },
            },
        ),
        TaskType::Debug(d) => TaskType::Debug(
            DebugType { msg: d.msg.clone(), result: dup_opt_value(&d.result) },
        ),
        TaskType::Dummy(d) => TaskType::Dummy(DummyType { result: dup_opt_value(&d.result) }),
        TaskType::Ensure(e) => TaskType::Ensure(EnsureType { vars: dup_vars_list(&e.vars) }),
        TaskType::Error(e) => TaskType::Error(
            ErrorType { msg: e.msg.clone(), code: e.code, trace: e.trace },
        ),
        TaskType::Exec(e) => TaskType::Exec(
            ExecType { args: dup_strings(&e.args), params: dup_cmd_params(&e.params) },
        ),
        TaskType::File(f) => TaskType::File(
            FileType {
                dst: f.dst.clone(),
                source: match &f.source {
                    FileTypeSource::Src(s) => FileTypeSource::Src(s.clone()),
                    FileTypeSource::Content(s) => FileTypeSource::Content(s.clone()),
                },
                chown: match &f.chown {
                    Some(s) => Some(s.clone()),
                    None => None,
                },
                chmod: match &f.chmod {
                    Some(s) => Some(s.clone()),
                    None => None,
                },
            },
        ),
        TaskType::Get(g) => TaskType::Get(
            GetType {
                src: g.src.clone(),
                dst: match &g.dst {
                    Some(s) => Some(s.clone()),
                    None => None,
                },
            },
        ),
        TaskType::Info(i) => TaskType::Info(
            InfoType { msg: i.msg.clone(), result: dup_opt_value(&i.result) },
        ),
        TaskType::Run(name) => TaskType::Run(name.clone()),
        TaskType::RunTaskline(rt) => TaskType::RunTaskline(
            RunTasklineType { taskline: rt.taskline.clone(), module: rt.module.clone() },
        ),
        TaskType::RunTaskset(rt) => TaskType::RunTaskset(
            RunTasksetType {
                module: rt.module.clone(),
                worker: match &rt.worker {
                    RunTasksetTypeWorker::All => RunTasksetTypeWorker::All,
                    RunTasksetTypeWorker::Maps(ms) => {
                        let mut out: Vec<(String, String)> = Vec::new();
                        let mut i: usize = 0;
                        while i < ms.len()
                            decreases ms@.len() - i,
                        {
                            out.push((ms[i].0.clone(), ms[i].1.clone()));
                            i += 1;
                        }
                        RunTasksetTypeWorker::Maps(out)
                    }
                    RunTasksetTypeWorker::Names(ns) => RunTasksetTypeWorker::Names(
                        dup_strings(ns),
                    ),
                },
            },
        ),
        TaskType::Shell(s) => TaskType::Shell(
            ShellType { command: s.command.clone(), params: dup_cmd_params(&s.params) },
        ),
        TaskType::Special(s) => TaskType::Special(
            SpecialType {
                ignore_unsupported: s.ignore_unsupported,
                type_: match s.type_ {
                    SpecialTypeType::Restart => SpecialTypeType::Restart,
                },
            },
        ),
        TaskType::Test(t) => TaskType::Test(
            TestType { commands: dup_test_commands(&t.commands), check: t.check },
        ),
        TaskType::Trace(t) => TaskType::Trace(
            TraceType { msg: t.msg.clone(), result: dup_opt_value(&t.result) },
        ),
        TaskType::Warn(w) => TaskType::Warn(
            WarnType { msg: w.msg.clone(), result: dup_opt_value(&w.result) },
        ),
    }
}

fn dup_opt_value(v: &Option<Val>) -> (r: Option<Val>) {
    match v {
        Some(v) => Some(v.dup()),
        None => None,
    }
}

fn dup_vars_list(vs: &Vec<Var>) -> (r: Vec<Var>) {
    let mut out: Vec<Var> = Vec::new();
    let mut i: usize = 0;
    while i < vs.len()
        decreases vs@.len() - i,
    {
        out.push(crate::vars::dup_var(&vs[i]));
        i += 1;
    }
    out
}

fn dup_test_commands(cs: &Vec<TestTypeCommand>) -> (r: Vec<TestTypeCommand>) {
    let mut out: Vec<TestTypeCommand> = Vec::new();
    let mut i: usize = 0;
    while i < cs.len()
        decreases cs@.len() - i,
    {
        let c = match &cs[i] {
            TestTypeCommand::Exec(e) => TestTypeCommand::Exec(
                ExecType { args: dup_strings(&e.args), params: dup_cmd_params(&e.params) },
            ),
            TestTypeCommand::ExecArgs(args) => TestTypeCommand::ExecArgs(dup_strings(args)),
            TestTypeCommand::Shell(s) => TestTypeCommand::Shell(
                ShellType { command: s.command.clone(), params: dup_cmd_params(&s.params) },
            ),
            TestTypeCommand::ShellCommand(s) => TestTypeCommand::ShellCommand(s.clone()),
        };
        out.push(c);
        i += 1;
    }
    out
}


// --- running a task body -----------------------------------------------

/// The model of the context's inherited `result`: the bound value, or
/// null when none is bound.
pub open spec fn inherited_spec(ctx: Seq<(Seq<char>, Vm)>) -> Vm {
    match crate::value::obj_get(ctx, "result"@) {
        Some(v) => v,
        None => Vm::Null,
    }
}

/// The context's inherited `result`, or null.
pub fn inherited_result(context: &Context) -> (r: Val)
    ensures
        val_of(r) == inherited_spec(context.view_obj()),
{
    match context.get("result") {
        Some(v) => v.dup(),
        None => Val::Null,
    }
}

fn render_opt_string(
    s: &Option<String>,
    context: &Context,
    feed: &mut crate::effects::Feed,
) -> (r: Result<Option<String>, crate::effects::Stop>) {
    match s {
        Some(s) => {
            let rendered = feed.render(s.clone(), context)?;
            Ok(Some(rendered))
        }
        None => Ok(None),
    }
}

fn render_matches(
    m: &Matches,
    context: &Context,
    feed: &mut crate::effects::Feed,
) -> (r: Result<Matches, crate::effects::Stop>)
    decreases *m,
{
    match m {
        Matches::And(ms) => {
            proof {
                assert(decreases_to!(*m => *ms));
                assert(decreases_to!(*ms => ms@));
            }
            let out = render_matches_vec(ms, context, feed)?;
            Ok(Matches::And(out))
        }
        Matches::Or(ms) => {
            proof {
                assert(decreases_to!(*m => *ms));
                assert(decreases_to!(*ms => ms@));
            }
            let out = render_matches_vec(ms, context, feed)?;
            Ok(Matches::Or(out))
        }
        Matches::AnyRe(s) => {
            let rendered = feed.render(s.clone(), context)?;
            Ok(Matches::AnyRe(rendered))
        }
        Matches::ErrRe(s) => {
            let rendered = feed.render(s.clone(), context)?;
            Ok(Matches::ErrRe(rendered))
        }
        Matches::OutRe(s) => {
            let rendered = feed.render(s.clone(), context)?;
            Ok(Matches::OutRe(rendered))
        }
    }
}

fn render_matches_vec(
    ms: &Vec<Matches>,
    context: &Context,
    feed: &mut crate::effects::Feed,
) -> (r: Result<Vec<Matches>, crate::effects::Stop>)
    decreases ms@,
{
    let mut out: Vec<Matches> = Vec::new();
    let mut i: usize = 0;
    while i < ms.len()
        invariant
            i <= ms@.len(),
        decreases ms@.len() - i,
    {
        proof {
            assert(decreases_to!(ms@ => ms@[i as int]));
        }
        let m = render_matches(&ms[i], context, feed)?;
        out.push(m);
        i += 1;
    }
    Ok(out)
}

/// Renders the command parameters: the standard input and the two match
/// predicates go through the template engine, the rest is kept.
pub fn render_cmd_params(
    p: &CmdParams,
    context: &Context,
    feed: &mut crate::effects::Feed,
) -> (r: Result<CmdParams, crate::effects::Stop>)
    ensures
        r matches Ok(q) ==> q.check == p.check && q.result == p.result && q.success_codes@
            == p.success_codes@,
{
    let mut out = dup_cmd_params(p);
    out.stdin = render_opt_string(&p.stdin, context, feed)?;
    out.success_matches = match &p.success_matches {
        Some(m) => Some(render_matches(m, context, feed)?),
        None => None,
    };
    out.failure_matches = match &p.failure_matches {
        Some(m) => Some(render_matches(m, context, feed)?),
        None => None,
    };
    Ok(out)
}

/// Runs a shell task's command, with `arg_check` standing in when the
/// parameters leave `check` unset.
pub fn shell_run_out(
    st: &ShellType,
    context: &Context,
    worker: &crate::worker::Worker,
    arg_check: bool,
    default_check: bool,
    feed: &mut crate::effects::Feed,
) -> (r: Result<Result<CmdOut, Failure>, crate::effects::Stop>)
    ensures
        r matches Ok(rr) ==> (rr matches Ok(out) ==> out.success_codes@
            == st.params.success_codes@),
{
    let mut params = render_cmd_params(&st.params, context, feed)?;
    params.check = Some(
        match st.params.check {
            Some(b) => b,
            None => arg_check,
        },
    );
    let command = feed.render(st.command.clone(), context)?;
    worker.shell(command.as_str(), &params, default_check, feed)
}

/// Runs an exec task's argument vector, with `arg_check` standing in when
/// the parameters leave `check` unset.
pub fn exec_run_out(
    et: &ExecType,
    context: &Context,
    worker: &crate::worker::Worker,
    arg_check: bool,
    default_check: bool,
    feed: &mut crate::effects::Feed,
) -> (r: Result<Result<CmdOut, Failure>, crate::effects::Stop>)
    ensures
        r matches Ok(rr) ==> (rr matches Ok(out) ==> out.success_codes@
            == et.params.success_codes@),
{
    let mut params = render_cmd_params(&et.params, context, feed)?;
    params.check = Some(
        match et.params.check {
            Some(b) => b,
            None => arg_check,
        },
    );
    let mut args: Vec<String> = Vec::new();
    let mut i: usize = 0;
    while i < et.args.len()
        decreases et.args@.len() - i,
    {
        let a = feed.render(et.args[i].clone(), context)?;
        args.push(a);
        i += 1;
    }
    worker.exec(&args, &params, default_check, feed)
}

impl TestTypeCommand {
    /// Runs one test command in any of its spellings.
    pub fn run(
        &self,
        context: &Context,
        worker: &crate::worker::Worker,
        check: bool,
        default_check: bool,
        feed: &mut crate::effects::Feed,
    ) -> (r: Result<Result<CmdOut, Failure>, crate::effects::Stop>) {
        match self {
            TestTypeCommand::Exec(e) => exec_run_out(e, context, worker, check, default_check, feed),
            TestTypeCommand::ExecArgs(args) => {
                let e = ExecType {
                    args: dup_strings(args),
                    params: CmdParams::new_default(CmdOutput::quiet(), CmdOutput::quiet()),
                };
                exec_run_out(&e, context, worker, check, default_check, feed)
            }
            TestTypeCommand::Shell(s) => shell_run_out(
                s,
                context,
                worker,
                check,
                default_check,
                feed,
            ),
            TestTypeCommand::ShellCommand(c) => {
                let s = ShellType {
                    command: c.clone(),
                    params: CmdParams::new_default(CmdOutput::quiet(), CmdOutput::quiet()),
                };
                shell_run_out(&s, context, worker, check, default_check, feed)
            }
        }
    }
}

fn fail_with(f: Failure) -> (r: crate::effects::Stop) {
    crate::effects::Stop::Fail(f)
}

impl TaskType {
    /// Runs one primitive task body on the worker under the given
    /// context, driving outside work through the feed. `depth` bounds
    /// taskline nesting; an exhausted budget fails rather than recurse
    /// without end.
    pub fn run(
        &self,
        context: &Context,
        env: &crate::task::Env,
        worker: &crate::worker::Worker,
        feed: &mut crate::effects::Feed,
        depth: u64,
    ) -> (r: Result<crate::task_result::TaskResult, crate::effects::Stop>)
        ensures
            // an ensure task succeeds exactly when every named variable is
            // present under its dotted path and matches a declared type,
            // and then yields true
            self matches TaskType::Ensure(e) ==> depth > 0 ==> ((r matches Ok(_) <==> forall|
                i: int,
            |
                0 <= i < e.vars@.len() ==> {
                    let got = get_path(
                        Vm::Obj(context.view_obj()),
                        split_sep(#[trigger] e.vars@[i].name@, '.'),
                    );
                    got matches Some(v) && crate::vars::types_accept(e.vars@[i].types@, v)
                }) && (r matches Ok(tr) ==> tr.deep_view() == (crate::task_result::TrV::Value {
                value: Vm::Bool(true),
                vars: None,
            }))),
            // a break task that finishes yields an exception, never a value
            self is Break ==> (r matches Ok(tr) ==> tr.deep_view() is Exception),
            // a bare dummy task hands the inherited result through
            self matches TaskType::Dummy(d) ==> d.result is None ==> (r matches Ok(tr)
                ==> tr.deep_view() == (crate::task_result::TrV::Value {
                value: inherited_spec(context.view_obj()),
                vars: None,
            })),
            // an exhausted nesting budget fails rather than recurse without
            // end
            depth == 0 ==> (r matches Err(s) && (s matches Stop::Fail(f) && f.error is TooDeep)),
            // a shell or exec task's value is the declared shaping of the
            // judged command outcome, which kept the declared success codes
            self matches TaskType::Shell(st) ==> (r matches Ok(tr) ==> exists|out: CmdOut|
                tr.deep_view() == (crate::task_result::TrV::Value {
                    value: crate::cmd::result_spec(st.params.result, out),
                    vars: None,
                }) && (#[trigger] out.success_codes)@ == st.params.success_codes@),
            self matches TaskType::Exec(et) ==> (r matches Ok(tr) ==> exists|out: CmdOut|
                tr.deep_view() == (crate::task_result::TrV::Value {
                    value: crate::cmd::result_spec(et.params.result, out),
                    vars: None,
                }) && (#[trigger] out.success_codes)@ == et.params.success_codes@),
            // an error task never yields a value, and when its own failure
            // comes back it carries the declared code and trace flag
            self matches TaskType::Error(et) ==> !(r is Ok) && (match r {
                Err(Stop::Fail(f)) => match f.error {
                    Error::User(_, code, trace) => code == et.code && trace == et.trace,
                    _ => true,
                },
                _ => true,
            }),
            // file and get tasks yield the destination path
            self is File ==> (r matches Ok(tr) ==> tr.deep_view() matches
                crate::task_result::TrV::Value { value: Vm::Str(_), vars: None }),
            self is Get ==> (r matches Ok(tr) ==> tr.deep_view() matches
                crate::task_result::TrV::Value { value: Vm::Str(_), vars: None }),
            // a test task yields the conjunction of its commands' successes
            self is Test ==> (r matches Ok(tr) ==> tr.deep_view() matches
                crate::task_result::TrV::Value { value: Vm::Bool(_), vars: None }),
            // special and nested-taskset tasks yield null
            self is Special || self is RunTaskset ==> (r matches Ok(tr) ==> tr.deep_view()
                == (crate::task_result::TrV::Value { value: Vm::Null, vars: None })),
        decreases depth,
    {
        if depth == 0 {
            return Err(fail(Error::TooDeep));
        }
        match self {
            TaskType::Break(b) => {
                let result = match &b.result {
                    Some(v) => crate::vars::render_value(v, context, feed)?,
                    None => inherited_result(context),
                };
                let taskline = render_opt_string(&b.taskline, context, feed)?;
                Ok(TaskResult::Exception(Exception::BreakTaskline { taskline, result }))
            }
            TaskType::Debug(d) => {
                let msg = feed.render(d.msg.clone(), context)?;
                feed.log(LogLevel::Debug, msg)?;
                let result = match &d.result {
                    Some(v) => crate::vars::render_value(v, context, feed)?,
                    None => inherited_result(context),
                };
                Ok(TaskResult::from_value(result))
            }
            TaskType::Info(d) => {
                let msg = feed.render(d.msg.clone(), context)?;
                feed.log(LogLevel::Info, msg)?;
                let result = match &d.result {
                    Some(v) => crate::vars::render_value(v, context, feed)?,
                    None => inherited_result(context),
                };
                Ok(TaskResult::from_value(result))
            }
            TaskType::Trace(d) => {
                let msg = feed.render(d.msg.clone(), context)?;
                feed.log(LogLevel::Trace, msg)?;
                let result = match &d.result {
                    Some(v) => crate::vars::render_value(v, context, feed)?,
                    None => inherited_result(context),
                };
                Ok(TaskResult::from_value(result))
            }
            TaskType::Warn(d) => {
                let msg = feed.render(d.msg.clone(), context)?;
                feed.log(LogLevel::Warn, msg)?;
                let result = match &d.result {
                    Some(v) => crate::vars::render_value(v, context, feed)?,
                    None => inherited_result(context),
                };
                Ok(TaskResult::from_value(result))
            }
            TaskType::Dummy(d) => {
                let result = match &d.result {
                    Some(v) => crate::vars::render_value(v, context, feed)?,
                    None => inherited_result(context),
                };
                Ok(TaskResult::from_value(result))
            }
            TaskType::Ensure(e) => {
                match e.ensure(context) {
                    Ok(v) => Ok(TaskResult::from_value(v)),
                    Err(err) => Err(fail(err)),
                }
            }
            TaskType::Error(e) => {
                let msg = feed.render(e.msg.clone(), context)?;
                Err(fail(Error::User(msg, e.code, e.trace)))
            }
            TaskType::Shell(st) => {
                match shell_run_out(st, context, worker, env.default_check, env.default_check, feed)? {
                    Ok(out) => Ok(TaskResult::from_value(st.params.result.get(&out))),
                    Err(f) => Err(fail_with(f)),
                }
            }
            TaskType::Exec(et) => {
                match exec_run_out(et, context, worker, env.default_check, env.default_check, feed)? {
                    Ok(out) => Ok(TaskResult::from_value(et.params.result.get(&out))),
                    Err(f) => Err(fail_with(f)),
                }
            }
            TaskType::Test(t) => {
                let mut success = true;
                let mut i: usize = 0;
                while i < t.commands.len()
                    invariant
                        self is Test,
                        depth >= 1,
                    decreases t.commands@.len() - i,
                {
                    match t.commands[i].run(context, worker, t.check, env.default_check, feed)? {
                        Ok(out) => {
                            success = success && out.success();
                        }
                        Err(f) => {
                            return Err(fail_with(f));
                        }
                    }
                    i += 1;
                }
                Ok(TaskResult::from_value(Val::Bool(success)))
            }
            TaskType::Special(sp) => {
                match sp.type_ {
                    SpecialTypeType::Restart => {
                        worker.special(sp.ignore_unsupported, feed)?;
                    }
                }
                Ok(TaskResult::from_value(Val::Null))
            }
            TaskType::File(f) => {
                let dst = feed.render(f.dst.clone(), context)?;
                match &f.source {
                    FileTypeSource::Src(src) => {
                        let src = feed.render(src.clone(), context)?;
                        match worker.copy(src.as_str(), dst.as_str(), feed)? {
                            Ok(()) => {},
                            Err(fe) => {
                                return Err(fail_with(fe));
                            }
                        }
                    }
                    FileTypeSource::Content(content) => {
                        let content = feed.render(content.clone(), context)?;
                        let quoted = crate::quote::quote(dst.as_str());
                        let mut command = "cat > ".to_owned();
                        command.append(quoted.as_str());
                        let mut params = CmdParams::quiet();
                        params.stdin = Some(content);
                        match worker.shell(command.as_str(), &params, env.default_check, feed)? {
                            Ok(_) => {},
                            Err(fe) => {
                                return Err(fail_with(fe));
                            }
                        }
                    }
                }
                match &f.chown {
                    Some(chown) => {
                        let mut args: Vec<String> = Vec::new();
                        args.push("chown".to_owned());
                        args.push("-R".to_owned());
                        args.push(chown.clone());
                        args.push(dst.clone());
                        match worker.exec(&args, &CmdParams::quiet(), env.default_check, feed)? {
                            Ok(_) => {},
                            Err(fe) => {
                                return Err(fail_with(fe));
                            }
                        }
                    }
                    None => {},
                }
                match &f.chmod {
                    Some(chmod) => {
                        let mut args: Vec<String> = Vec::new();
                        args.push("chmod".to_owned());
                        args.push("-R".to_owned());
                        args.push(chmod.clone());
                        args.push(dst.clone());
                        match worker.exec(&args, &CmdParams::quiet(), env.default_check, feed)? {
                            Ok(_) => {},
                            Err(fe) => {
                                return Err(fail_with(fe));
                            }
                        }
                    }
                    None => {},
                }
                Ok(TaskResult::from_value(Val::Str(dst)))
            }
            TaskType::Get(g) => {
                let src = feed.render(g.src.clone(), context)?;
                let dst = match &g.dst {
                    Some(d) => feed.render(d.clone(), context)?,
                    None => {
                        match crate::filters::path_basename(src.as_str()) {
                            Some(name) => crate::module::join_dir(env.dir.as_str(), name.as_str()),
                            None => {
                                return Err(fail(Error::GetSrcFilename(src)));
                            }
                        }
                    }
                };
                match worker.get(src.as_str(), dst.as_str(), feed)? {
                    Ok(()) => Ok(TaskResult::from_value(Val::Str(dst))),
                    Err(fe) => Err(fail_with(fe)),
                }
            }
            TaskType::Run(name) => {
                let rt = RunTasklineType { taskline: name.clone(), module: String::new() };
                run_taskline_type(&rt, context, env, worker, feed, depth)
            }
            TaskType::RunTaskline(rt) => run_taskline_type(rt, context, env, worker, feed, depth),
            TaskType::RunTaskset(rt) => {
                let module = feed.render(rt.module.clone(), context)?;
                let file = crate::module::resolve(
                    module.as_str(),
                    env.dir.as_str(),
                    env.config_dir.as_str(),
                );
                let selected: Vec<String> = match &rt.worker {
                    RunTasksetTypeWorker::All => {
                        let mut names: Vec<String> = Vec::new();
                        let mut i: usize = 0;
                        while i < env.workers.len()
                            invariant
                                self is RunTaskset,
                                depth >= 1,
                            decreases env.workers@.len() - i,
                        {
                            names.push(env.workers[i].display_name());
                            i += 1;
                        }
                        names
                    }
                    RunTasksetTypeWorker::Maps(maps) => {
                        let mut names: Vec<String> = Vec::new();
                        let mut i: usize = 0;
                        while i < env.workers.len()
                            invariant
                                self is RunTaskset,
                                depth >= 1,
                            decreases env.workers@.len() - i,
                        {
                            let wname = env.workers[i].display_name();
                            let mut j: usize = 0;
                            while j < maps.len()
                                invariant
                                    self is RunTaskset,
                                    depth >= 1,
                                decreases maps@.len() - j,
                            {
                                let from = feed.render(maps[j].0.clone(), context)?;
                                let to = feed.render(maps[j].1.clone(), context)?;
                                if crate::strings::str_eq(from.as_str(), wname.as_str()) {
                                    let mut pair = wname.clone();
                                    pair.push('=');
                                    pair.append(to.as_str());
                                    names.push(pair);
                                }
                                j += 1;
                            }
                            i += 1;
                        }
                        names
                    }
                    RunTasksetTypeWorker::Names(ns) => {
                        let mut names: Vec<String> = Vec::new();
                        let mut i: usize = 0;
                        while i < env.workers.len()
                            invariant
                                self is RunTaskset,
                                depth >= 1,
                            decreases env.workers@.len() - i,
                        {
                            let wname = env.workers[i].display_name();
                            let mut j: usize = 0;
                            while j < ns.len()
                                invariant
                                    self is RunTaskset,
                                    depth >= 1,
                                decreases ns@.len() - j,
                            {
                                let want = feed.render(ns[j].clone(), context)?;
                                if crate::strings::str_eq(want.as_str(), wname.as_str()) {
                                    names.push(wname.clone());
                                }
                                j += 1;
                            }
                            i += 1;
                        }
                        names
                    }
                };
                match feed.run_taskset_file(file, selected, context)? {
                    Ok(()) => Ok(TaskResult::from_value(Val::Null)),
                    Err(msg) => Err(fail(Error::Spawn(msg))),
                }
            }
        }
    }
}

/// The taskline interpreter: resolves a reference until it is an inline
/// sequence, then runs its tasks in order, threading each value into the
/// context's `result` and merging exported variables; a break exception
/// targeting this taskline ends it with the break's result, any other
/// exception passes through unchanged.
fn run_taskline_type(
    rt: &RunTasklineType,
    context: &Context,
    env: &crate::task::Env,
    worker: &crate::worker::Worker,
    feed: &mut crate::effects::Feed,
    depth: u64,
) -> (r: Result<crate::task_result::TaskResult, crate::effects::Stop>)
    requires
        depth >= 1,
    decreases depth, 0int,
{
    let module = feed.render(rt.module.clone(), context)?;
    let taskline_name = feed.render(rt.taskline.clone(), context)?;
    let mut context = context.dup();
    let mut dir = env.dir.clone();
    let mut tasklines: Vec<(String, Taskline)> = Vec::new();
    let mut taskline_file = String::new();
    let mut cur: Taskline;
    if module.as_str().unicode_len() == 0 {
        match crate::task::lookup_taskline(&env.tasklines, taskline_name.as_str()) {
            Some(t) => {
                cur = crate::taskline::dup_taskline(t);
            }
            None => {
                return Err(fail(Error::BadTaskline(taskline_name, String::new())));
            }
        }
        let mut i: usize = 0;
        while i < env.tasklines.len()
            decreases env.tasklines@.len() - i,
        {
            tasklines.push(
                (
                    env.tasklines[i].0.clone(),
                    crate::taskline::dup_taskline(&env.tasklines[i].1),
                ),
            );
            i += 1;
        }
    } else {
        let file = crate::module::resolve(
            module.as_str(),
            env.dir.as_str(),
            env.config_dir.as_str(),
        );
        taskline_file = file.clone();
        cur = Taskline::File { file, name: taskline_name.clone() };
    }
    // resolve references until an inline sequence stands, each load
    // consuming recursion budget
    let mut budget = depth;
    loop
        invariant
            budget >= 0,
        decreases budget,
    {
        let next = match &cur {
            Taskline::Line(_) => None,
            Taskline::File { file, name } => Some((file.clone(), name.clone())),
        };
        match next {
            None => {
                break;
            }
            Some((file, name)) => {
                if budget == 0 {
                    return Err(fail(Error::TooDeep));
                }
                budget = budget - 1;
                let m = feed.load_module(file.clone())?;
                dir = m.dir;
                tasklines = m.tasklines;
                // the module's variables stand under the caller's
                let mut new_context = Context { entries: m.vars };
                new_context.extend_from(&context);
                context = new_context;
                match crate::task::lookup_taskline(&tasklines, name.as_str()) {
                    Some(t) => {
                        cur = crate::taskline::dup_taskline(t);
                    }
                    None => {
                        return Err(fail(Error::BadTaskline(name, file)));
                    }
                }
            }
        }
    }
    let taskline_str: String = if taskline_file.as_str().unicode_len() == 0 {
        taskline_name.clone()
    } else if taskline_name.as_str().unicode_len() == 0 {
        taskline_file.clone()
    } else {
        let mut s = taskline_file.clone();
        s.push(':');
        s.append(taskline_name.as_str());
        s
    };
    context.insert("taskline".to_owned(), Val::Str(taskline_str.clone()));
    let elems = match cur {
        Taskline::Line(elems) => elems,
        Taskline::File { .. } => {
            return Err(fail(Error::BadTaskline(taskline_name, taskline_file)));
        }
    };
    let inner_env = crate::task::Env {
        dir,
        config_dir: env.config_dir.clone(),
        tasklines,
        workers: crate::worker::dup_workers(&env.workers),
        default_check: env.default_check,
    };
    let mut value = Val::Null;
    let mut i: usize = 0;
    while i < elems.len()
        invariant
            depth >= 1,
        decreases elems@.len() - i,
    {
        let step = elems[i].task.run(&elems[i].name, &context, &inner_env, worker, feed, (depth
            - 1) as u64);
        let result = match step {
            Ok(r) => r,
            Err(Stop::Suspend(req)) => {
                return Err(Stop::Suspend(req));
            }
            Err(Stop::Fail(mut f)) => {
                f.context.push(("taskline".to_owned(), taskline_str.clone()));
                f.context.push(("number".to_owned(), crate::strings::usize_string(i)));
                return Err(Stop::Fail(f));
            }
        };
        match &result {
            TaskResult::Value { value: v, .. } => {
                match result.as_context() {
                    Some(vars_ctx) => {
                        context.extend_from(&vars_ctx);
                    }
                    None => {},
                }
                value = v.dup();
                context.insert("result".to_owned(), value.dup());
            }
            TaskResult::Exception(e) => {
                match break_decision(taskline_str.as_str(), e) {
                    BreakFlow::CatchHere(v) => {
                        return Ok(TaskResult::from_value(v));
                    }
                    BreakFlow::PassOn => {
                        return Ok(result);
                    }
                }
            }
        }
        i += 1;
    }
    Ok(TaskResult::from_value(value))
}
} // verus!
