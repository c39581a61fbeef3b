use vstd::prelude::*;

verus! {

use crate::engine::{Engine, ExistsAction, dup_engine};
use crate::effects::{Feed, Stop, fail, RawOut};
use crate::error::Error;
use crate::cmd::{CmdParams, CmdOut, run_decision, LogLevel, CmdOutput};
use vstd::string::StringExecFns;

/// A named execution target bound to one backend. `name` keys the
/// backend's resource; `name_outer` is the identity callers see and may be
/// rewritten when a nested taskset borrows the worker.
pub struct Worker {
    pub name: String,
    pub name_outer: String,
    pub workdir: String,
    pub engine: Engine,
    pub setup: bool,
}

pub fn dup_worker(w: &Worker) -> (r: Worker) {
    Worker {
        name: w.name.clone(),
        name_outer: w.name_outer.clone(),
        workdir: w.workdir.clone(),
        engine: dup_engine(&w.engine),
        setup: w.setup,
    }
}

pub fn dup_workers(ws: &Vec<Worker>) -> (r: Vec<Worker>) {
    let mut out: Vec<Worker> = Vec::new();
    let mut i: usize = 0;
    while i < ws.len()
        decreases ws@.len() - i,
    {
        out.push(dup_worker(&ws[i]));
        i += 1;
    }
    out
}

/// Reports a captured stream as its parameters ask: each line to the log,
/// and the text verbatim when printing is on.
fn show_output(out_params: &CmdOutput, text: &str, feed: &mut Feed) -> (r: Result<(), Stop>) {
    match out_params.log {
        LogLevel::Off => {},
        _ => {
            feed.log(crate::task_type::dup_log_level(&out_params.log), text.to_owned())?;
        }
    }
    if out_params.print {
        feed.print(text.to_owned())?;
    }
    Ok(())
}

impl Worker {
    /// The identity callers see.
    pub fn display_name(&self) -> (r: String)
        ensures
            r@ == self.name_outer@,
    {
        self.name_outer.clone()
    }

    /// Renames the outer identity, returning the old one.
    pub fn rename(&mut self, new_name: String) -> (r: String)
        ensures
            r@ == old(self).name_outer@,
            final(self).name_outer@ == new_name@,
            final(self).name == old(self).name,
            final(self).engine == old(self).engine,
            final(self).setup == old(self).setup,
            final(self).workdir == old(self).workdir,
    {
        let old_name = self.name_outer.clone();
        self.name_outer = new_name;
        old_name
    }

    /// Provisions the worker once: the backend's setup, then a probe for
    /// the worker-side scratch directory. Further calls do nothing.
    pub fn ensure_setup(&mut self, action: &Option<ExistsAction>, feed: &mut Feed) -> (r: Result<
        (),
        Stop,
    >)
        ensures
            r is Ok ==> final(self).setup,
            old(self).setup ==> (r is Ok && *final(self) == *old(self)),
    {
        if self.setup {
            return Ok(());
        }
        self.engine.setup(self.name.as_str(), action, feed)?;
        let probe = "echo ${TMPDIR:-${TMP:-/tmp}}/lineup";
        let argv = self.engine.shell_argv(self.name.as_str(), probe, feed)?;
        let out = feed.run_argv(argv, None)?;
        match out.code {
            Some(0) => {},
            _ => {
                return Err(fail(Error::WorkerSetupFailed(self.name.clone())));
            }
        }
        self.workdir = crate::cmd::strip_end_exec(out.stdout.as_str());
        self.setup = true;
        Ok(())
    }

    /// Tears the worker's resource down; afterwards it is not set up.
    pub fn ensure_remove(&mut self, feed: &mut Feed) -> (r: Result<(), Stop>)
        ensures
            r is Ok ==> !final(self).setup,
    {
        self.engine.remove(self.name.as_str(), feed)?;
        self.setup = false;
        Ok(())
    }

    /// Runs a shell command line on the worker and judges the outcome;
    /// a passing outcome carries the given success codes and captured
    /// outputs of the judged reply.
    pub fn shell(&self, command: &str, params: &CmdParams, default_check: bool, feed: &mut Feed)
        -> (r: Result<Result<CmdOut, crate::cmd::Failure>, Stop>)
        ensures
            r matches Ok(rr) ==> (rr matches Ok(out) ==> out.success_codes@
                == params.success_codes@),
    {
        let argv = self.engine.shell_argv(self.name.as_str(), command, feed)?;
        let stdin = match &params.stdin {
            Some(s) => Some(s.clone()),
            None => None,
        };
        let out = feed.run_argv(argv, stdin)?;
        show_output(&params.stdout, out.stdout.as_str(), feed)?;
        show_output(&params.stderr, out.stderr.as_str(), feed)?;
        Ok(run_decision(command, params, out, default_check))
    }

    /// Runs an argument vector on the worker and judges the outcome; the
    /// judged command text is the shell quoting of the arguments, and a
    /// passing outcome carries the given success codes.
    pub fn exec(
        &self,
        args: &Vec<String>,
        params: &CmdParams,
        default_check: bool,
        feed: &mut Feed,
    ) -> (r: Result<Result<CmdOut, crate::cmd::Failure>, Stop>)
        ensures
            r matches Ok(rr) ==> (rr matches Ok(out) ==> out.success_codes@
                == params.success_codes@),
    {
        let argv = self.engine.exec_argv(self.name.as_str(), args, feed)?;
        let stdin = match &params.stdin {
            Some(s) => Some(s.clone()),
            None => None,
        };
        let out = feed.run_argv(argv, stdin)?;
        show_output(&params.stdout, out.stdout.as_str(), feed)?;
        show_output(&params.stderr, out.stderr.as_str(), feed)?;
        let quoted = crate::quote::quote_args(args);
        Ok(run_decision(quoted.as_str(), params, out, default_check))
    }

    /// Copies a file or tree from the host onto the worker; a transfer
    /// that exits non-zero is an exit-code failure.
    pub fn copy(&self, src: &str, dst: &str, feed: &mut Feed) -> (r: Result<
        Result<(), crate::cmd::Failure>,
        Stop,
    >)
        ensures
            r matches Ok(rr) ==> (rr matches Err(f) ==> f.error is CommandFailedExitCode),
    {
        let argv: Vec<String> = match &self.engine {
            Engine::Host(_) => {
                let mut a: Vec<String> = Vec::new();
                a.push("cp".to_owned());
                a.push(src.to_owned());
                a.push(dst.to_owned());
                a
            }
            Engine::Dbg(_) => {
                let mut text = "Worker ".to_owned();
                text.append(self.name.as_str());
                text.append(": upload file from ");
                text.append(src);
                text.append(" to ");
                text.append(dst);
                feed.print(text)?;
                let mut a: Vec<String> = Vec::new();
                a.push("true".to_owned());
                a
            }
            Engine::Docker(e) => {
                let mut a: Vec<String> = Vec::new();
                a.push(e.docker_bin.clone());
                a.push("cp".to_owned());
                a.push(src.to_owned());
                let mut target = e.base.resource_name(self.name.as_str());
                target.push(':');
                target.append(dst);
                a.push(target);
                a
            }
            Engine::Podman(e) => {
                let mut a: Vec<String> = Vec::new();
                a.push(e.podman_bin.clone());
                a.push("cp".to_owned());
                a.push(src.to_owned());
                let mut target = e.base.resource_name(self.name.as_str());
                target.push(':');
                target.append(dst);
                a.push(target);
                a
            }
            Engine::Ssh(e) => {
                let mut a: Vec<String> = Vec::new();
                a.push("rsync".to_owned());
                a.push("-e".to_owned());
                a.push(crate::quote::quote_args(&e.ssh_argv()));
                a.push("-a".to_owned());
                a.push(src.to_owned());
                let mut target = e.full_host();
                target.push(':');
                target.append(dst);
                a.push(target);
                a
            }
            Engine::Incus(e) => {
                let mut a: Vec<String> = Vec::new();
                a.push(e.incus_bin.clone());
                a.push("file".to_owned());
                a.push("push".to_owned());
                a.push("-r".to_owned());
                a.push(src.to_owned());
                let mut target = e.base.resource_name(self.name.as_str());
                target.push('/');
                target.append(dst);
                a.push(target);
                a
            }
            Engine::Vml(e) => {
                let mut a = crate::task_type::dup_strings(&e.vml_cmd);
                a.push("rsync-to".to_owned());
                match &e.user {
                    Some(user) => {
                        a.push("--user".to_owned());
                        a.push(user.clone());
                    }
                    None => {},
                }
                a.push("-s".to_owned());
                a.push(src.to_owned());
                a.push("-d".to_owned());
                a.push(dst.to_owned());
                a.push("-n".to_owned());
                a.push(crate::engine::vml_name(e, self.name.as_str()));
                a
            }
        };
        let out = feed.run_argv(argv, None)?;
        Ok(transfer_result(out, src))
    }

    /// Fetches a file or tree from the worker onto the host; a transfer
    /// that exits non-zero is an exit-code failure.
    pub fn get(&self, src: &str, dst: &str, feed: &mut Feed) -> (r: Result<
        Result<(), crate::cmd::Failure>,
        Stop,
    >)
        ensures
            r matches Ok(rr) ==> (rr matches Err(f) ==> f.error is CommandFailedExitCode),
    {
        let argv: Vec<String> = match &self.engine {
            Engine::Host(_) => {
                let mut a: Vec<String> = Vec::new();
                a.push("cp".to_owned());
                a.push(src.to_owned());
                a.push(dst.to_owned());
                a
            }
            Engine::Dbg(_) => {
                let mut text = "Worker ".to_owned();
                text.append(self.name.as_str());
                text.append(": download file from ");
                text.append(src);
                text.append(" to ");
                text.append(dst);
                feed.print(text)?;
                let mut a: Vec<String> = Vec::new();
                a.push("true".to_owned());
                a
            }
            Engine::Docker(e) => {
                let mut a: Vec<String> = Vec::new();
                a.push(e.docker_bin.clone());
                a.push("cp".to_owned());
                let mut from = e.base.resource_name(self.name.as_str());
                from.push(':');
                from.append(src);
                a.push(from);
                a.push(dst.to_owned());
                a
            }
            Engine::Podman(e) => {
                let mut a: Vec<String> = Vec::new();
                a.push(e.podman_bin.clone());
                a.push("cp".to_owned());
                let mut from = e.base.resource_name(self.name.as_str());
                from.push(':');
                from.append(src);
                a.push(from);
                a.push(dst.to_owned());
                a
            }
            Engine::Ssh(e) => {
                let mut a: Vec<String> = Vec::new();
                a.push("rsync".to_owned());
                a.push("-e".to_owned());
                a.push(crate::quote::quote_args(&e.ssh_argv()));
                a.push("-a".to_owned());
                let mut from = e.full_host();
                from.push(':');
                from.append(src);
                a.push(from);
                a.push(dst.to_owned());
                a
            }
            Engine::Incus(e) => {
                let mut a: Vec<String> = Vec::new();
                a.push(e.incus_bin.clone());
                a.push("file".to_owned());
                a.push("pull".to_owned());
                a.push("-r".to_owned());
                let mut from = e.base.resource_name(self.name.as_str());
                from.push('/');
                from.append(src);
                a.push(from);
                a.push(dst.to_owned());
                a
            }
            Engine::Vml(e) => {
                let mut a = crate::task_type::dup_strings(&e.vml_cmd);
                a.push("rsync-from".to_owned());
                match &e.user {
                    Some(user) => {
                        a.push("--user".to_owned());
                        a.push(user.clone());
                    }
                    None => {},
                }
                a.push("-s".to_owned());
                a.push(src.to_owned());
                a.push("-d".to_owned());
                a.push(dst.to_owned());
                a.push("-n".to_owned());
                a.push(crate::engine::vml_name(e, self.name.as_str()));
                a
            }
        };
        let out = feed.run_argv(argv, None)?;
        Ok(transfer_result(out, src))
    }

    /// Runs a backend-special operation.
    pub fn special(&self, ignore_unsupported: bool, feed: &mut Feed) -> (r: Result<(), Stop>) {
        self.engine.restart(self.name.as_str(), ignore_unsupported, feed)
    }
}

fn transfer_result(out: RawOut, what: &str) -> (r: Result<(), crate::cmd::Failure>)
    ensures
        r is Ok <==> out.code == Some(0i32),
        r matches Err(f) ==> f.error is CommandFailedExitCode,
{
    match out.code {
        Some(0) => Ok(()),
        _ => Err(
            crate::cmd::Failure {
                error: Error::CommandFailedExitCode(what.to_owned()),
                context: Vec::new(),
            },
        ),
    }
}

} // verus!
