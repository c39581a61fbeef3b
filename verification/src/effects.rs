use vstd::prelude::*;

verus! {

use crate::cmd::{Failure, LogLevel};
use crate::error::Error;
use crate::value::Val;
use crate::taskline::Taskline;

/// One piece of outside work the engine asks its driver to do: rendering
/// through the template engine, starting a sub-process, sleeping, touching
/// filesystem variables, loading another manifest, or running a whole
/// taskset from another file.
pub enum Request {
    Render { template: String, context: Val },
    RunCmd { argv: Vec<String>, stdin: Option<String> },
    Sleep { ms: u64 },
    Print { text: String },
    Log { level: LogLevel, text: String },
    WriteFsVar { name: String, value: Val },
    ReadFsVar { name: String },
    LoadModule { file: String },
    RunTasksetFile { file: String, worker_names: Vec<String>, context: Val },
}

/// A raw finished sub-process, before judgement.
pub struct RawOut {
    pub stdout: String,
    pub stderr: String,
    pub code: Option<i32>,
}

/// Another manifest, already loaded and cooked by the driver: where it
/// lives, its tasklines, and its variables rendered into context entries.
pub struct LoadedModule {
    pub dir: String,
    pub tasklines: Vec<(String, Taskline)>,
    pub vars: Vec<(String, Val)>,
}

/// The driver's answer to one request.
pub enum Reply {
    Rendered(Result<String, String>),
    Ran(Result<RawOut, String>),
    Unit(Result<(), String>),
    FsValue(Option<Val>),
    Module(Result<LoadedModule, String>),
}

/// The recorded answers so far. The engine is a function of this feed: it
/// consumes answers in order and, at the first request with no answer yet,
/// hands the request back to the driver, which performs it, appends the
/// answer, and runs the engine again from the start.
pub struct Feed {
    pub replies: Vec<Reply>,
    pub cursor: usize,
}

/// Why a run of the engine stopped short of a result: a failure to
/// report, or a request the driver has not answered yet.
pub enum Stop {
    Fail(Failure),
    Suspend(Request),
}

/// A failure without context entries.
pub fn fail(error: Error) -> (r: Stop)
    ensures
        r matches Stop::Fail(f) && f.error == error && f.context@.len() == 0,
{
    Stop::Fail(Failure { error, context: Vec::new() })
}

impl Feed {
    pub fn new() -> (r: Feed)
        ensures
            r.cursor == 0,
    {
        Feed { replies: Vec::new(), cursor: 0 }
    }

    /// Takes the next recorded answer, or suspends on `req`.
    pub fn next(&mut self, req: Request) -> (r: Result<Reply, Stop>)
        ensures
            match r {
                Ok(_) => final(self).cursor == old(self).cursor + 1 && final(self).replies
                    == old(self).replies,
                Err(s) => s is Suspend && *final(self) == *old(self),
            },
    {
        if self.cursor < self.replies.len() {
            let reply = dup_reply(&self.replies[self.cursor]);
            self.cursor += 1;
            Ok(reply)
        } else {
            Err(Stop::Suspend(req))
        }
    }

    /// Renders a template against a context through the driver.
    pub fn render(&mut self, template: String, context: &crate::context::Context) -> (r: Result<
        String,
        Stop,
    >)
        ensures
            r matches Err(s) ==> s is Suspend || (s matches Stop::Fail(f) && (f.error is Render
                || f.error is BadReply)),
    {
        let snapshot = context.to_value();
        let reply = self.next(Request::Render { template, context: snapshot })?;
        match reply {
            Reply::Rendered(Ok(s)) => Ok(s),
            Reply::Rendered(Err(msg)) => Err(fail(Error::Render(msg))),
            _ => Err(fail(Error::BadReply(crate::strings::usize_string(self.cursor)))),
        }
    }

    /// Runs an argument vector through the driver, capturing its outputs.
    pub fn run_argv(&mut self, argv: Vec<String>, stdin: Option<String>) -> (r: Result<
        RawOut,
        Stop,
    >)
        ensures
            r matches Err(s) ==> s is Suspend || (s matches Stop::Fail(f) && (f.error is Spawn
                || f.error is BadReply)),
    {
        let reply = self.next(Request::RunCmd { argv, stdin })?;
        match reply {
            Reply::Ran(Ok(out)) => Ok(out),
            Reply::Ran(Err(msg)) => Err(fail(Error::Spawn(msg))),
            _ => Err(fail(Error::BadReply(crate::strings::usize_string(self.cursor)))),
        }
    }

    /// Sleeps through the driver.
    pub fn sleep(&mut self, ms: u64) -> (r: Result<(), Stop>) {
        let reply = self.next(Request::Sleep { ms })?;
        match reply {
            Reply::Unit(_) => Ok(()),
            _ => Err(fail(Error::BadReply(crate::strings::usize_string(self.cursor)))),
        }
    }

    /// Emits a log line through the driver.
    pub fn log(&mut self, level: LogLevel, text: String) -> (r: Result<(), Stop>) {
        let reply = self.next(Request::Log { level, text })?;
        match reply {
            Reply::Unit(_) => Ok(()),
            _ => Err(fail(Error::BadReply(crate::strings::usize_string(self.cursor)))),
        }
    }

    /// Prints verbatim through the driver.
    pub fn print(&mut self, text: String) -> (r: Result<(), Stop>) {
        let reply = self.next(Request::Print { text })?;
        match reply {
            Reply::Unit(_) => Ok(()),
            _ => Err(fail(Error::BadReply(crate::strings::usize_string(self.cursor)))),
        }
    }

    /// Persists a filesystem variable through the driver.
    pub fn write_fs_var(&mut self, name: String, value: Val) -> (r: Result<(), Stop>) {
        let reply = self.next(Request::WriteFsVar { name, value })?;
        match reply {
            Reply::Unit(Ok(())) => Ok(()),
            Reply::Unit(Err(msg)) => Err(fail(Error::Spawn(msg))),
            _ => Err(fail(Error::BadReply(crate::strings::usize_string(self.cursor)))),
        }
    }

    /// Reads a filesystem variable through the driver.
    pub fn read_fs_var(&mut self, name: String) -> (r: Result<Option<Val>, Stop>) {
        let reply = self.next(Request::ReadFsVar { name })?;
        match reply {
            Reply::FsValue(v) => Ok(v),
            _ => Err(fail(Error::BadReply(crate::strings::usize_string(self.cursor)))),
        }
    }

    /// Loads another manifest through the driver.
    pub fn load_module(&mut self, file: String) -> (r: Result<LoadedModule, Stop>) {
        let reply = self.next(Request::LoadModule { file })?;
        match reply {
            Reply::Module(Ok(m)) => Ok(m),
            Reply::Module(Err(msg)) => Err(fail(Error::BadManifest(msg))),
            _ => Err(fail(Error::BadReply(crate::strings::usize_string(self.cursor)))),
        }
    }

    /// Runs another file's taskset through the driver.
    pub fn run_taskset_file(
        &mut self,
        file: String,
        worker_names: Vec<String>,
        context: &crate::context::Context,
    ) -> (r: Result<Result<(), String>, Stop>) {
        let snapshot = context.to_value();
        let reply = self.next(
            Request::RunTasksetFile { file, worker_names, context: snapshot },
        )?;
        match reply {
            Reply::Unit(u) => Ok(u),
            _ => Err(fail(Error::BadReply(crate::strings::usize_string(self.cursor)))),
        }
    }
}

fn dup_raw(out: &RawOut) -> (r: RawOut) {
    RawOut { stdout: out.stdout.clone(), stderr: out.stderr.clone(), code: out.code }
}

fn dup_reply(reply: &Reply) -> (r: Reply) {
    match reply {
        Reply::Rendered(Ok(s)) => Reply::Rendered(Ok(s.clone())),
        Reply::Rendered(Err(s)) => Reply::Rendered(Err(s.clone())),
        Reply::Ran(Ok(out)) => Reply::Ran(Ok(dup_raw(out))),
        Reply::Ran(Err(s)) => Reply::Ran(Err(s.clone())),
        Reply::Unit(Ok(())) => Reply::Unit(Ok(())),
        Reply::Unit(Err(s)) => Reply::Unit(Err(s.clone())),
        Reply::FsValue(Some(v)) => Reply::FsValue(Some(v.dup())),
        Reply::FsValue(None) => Reply::FsValue(None),
        Reply::Module(Ok(m)) => Reply::Module(
            Ok(
                LoadedModule {
                    dir: m.dir.clone(),
                    tasklines: dup_tasklines(&m.tasklines),
                    vars: crate::value::dup_entries(&m.vars),
                },
            ),
        ),
        Reply::Module(Err(s)) => Reply::Module(Err(s.clone())),
    }
}

fn dup_tasklines(ts: &Vec<(String, Taskline)>) -> (r: Vec<(String, Taskline)>) {
    let mut out: Vec<(String, Taskline)> = Vec::new();
    let mut i: usize = 0;
    while i < ts.len()
        decreases ts@.len() - i,
    {
        let name = ts[i].0.clone();
        let line = crate::taskline::dup_taskline(&ts[i].1);
        out.push((name, line));
        i += 1;
    }
    out
}

} // verus!
