use vstd::prelude::*;

verus! {

use crate::effects::{Feed, Stop, fail, RawOut};
use crate::error::Error;
use crate::strings::str_eq;

/// What setup does when the worker's resource already exists: fail, reuse
/// it (starting it when stopped), or destroy and recreate it.
pub enum ExistsAction {
    Fail,
    Ignore,
    Replace,
}

pub fn dup_exists_action(a: &ExistsAction) -> (r: ExistsAction)
    ensures
        r == *a,
{
    match a {
        ExistsAction::Fail => ExistsAction::Fail,
        ExistsAction::Ignore => ExistsAction::Ignore,
        ExistsAction::Replace => ExistsAction::Replace,
    }
}

/// Fields common to all backends: an optional resource-name override and
/// whether setup provisions at all.
pub struct EngineBase {
    pub name: Option<String>,
    pub setup: bool,
}

impl EngineBase {
    /// The resource name: the override when set, else the worker's name.
    pub fn resource_name(&self, worker: &str) -> (r: String)
        ensures
            match self.name {
                Some(n) => r@ == n@,
                None => r@ == worker@,
            },
    {
        match &self.name {
            Some(n) => n.clone(),
            None => worker.to_owned(),
        }
    }

    pub fn dup(&self) -> (r: EngineBase) {
        EngineBase {
            name: match &self.name {
                Some(n) => Some(n.clone()),
                None => None,
            },
            setup: self.setup,
        }
    }
}

/// The invoking host itself.
pub struct EngineHost {
    pub base: EngineBase,
}

/// A scaffolding backend that only reports what it would do.
pub struct EngineDbg {
    pub base: EngineBase,
}

/// A Docker container.
pub struct EngineDocker {
    pub memory: Option<String>,
    pub image: String,
    pub load: Option<String>,
    pub user: Option<String>,
    pub exists: ExistsAction,
    pub base: EngineBase,
    pub docker_bin: String,
    pub dir: String,
}

/// A Podman container.
pub struct EnginePodman {
    pub memory: Option<String>,
    pub image: String,
    pub load: Option<String>,
    pub pod: Option<String>,
    pub user: Option<String>,
    pub exists: ExistsAction,
    pub base: EngineBase,
    pub podman_bin: String,
    pub dir: String,
}

/// A remote host over ssh.
pub struct EngineSsh {
    pub host: String,
    pub port: Option<String>,
    pub user: Option<String>,
    pub key: Option<String>,
    pub ssh_cmd: Vec<String>,
    pub base: EngineBase,
}

/// An Incus container's network device: which device, attached to which
/// network, with an optional fixed address.
pub struct EngineIncusNet {
    pub address: Option<String>,
    pub device: String,
    pub network: Option<String>,
}

/// An Incus disk device backed by a storage volume.
pub struct EngineIncusStorage {
    pub path: String,
    pub pool: String,
    pub readonly: bool,
}

/// An Incus container.
pub struct EngineIncus {
    pub memory: Option<String>,
    pub nproc: Option<String>,
    pub image: String,
    pub copy: Option<String>,
    pub net: Option<EngineIncusNet>,
    pub storages: Vec<(String, EngineIncusStorage)>,
    pub user: Option<String>,
    pub exists: ExistsAction,
    pub base: EngineBase,
    pub incus_bin: String,
}

/// A tap network for a vml machine.
pub struct EngineVmlNetTap {
    pub tap: String,
    pub address: Option<String>,
    pub gateway: Option<String>,
    pub nameservers: Option<Vec<String>>,
}

/// How a vml machine reaches the network: user-mode, or a tap device.
pub enum EngineVmlNet {
    User,
    Tap(EngineVmlNetTap),
}

/// A virtual machine driven by the vml runner.
pub struct EngineVml {
    pub memory: Option<String>,
    pub nproc: Option<String>,
    pub image: Option<String>,
    pub parent: Option<String>,
    pub user: Option<String>,
    pub net: Option<EngineVmlNet>,
    pub exists: ExistsAction,
    pub base: EngineBase,
    pub vml_cmd: Vec<String>,
}

/// The vml options a network declaration turns into.
pub fn vml_net_options(net: &EngineVmlNet) -> (r: Vec<String>) {
    let mut options: Vec<String> = Vec::new();
    match net {
        EngineVmlNet::User => {
            options.push("--net-user".to_owned());
        }
        EngineVmlNet::Tap(tap) => {
            options.push("--net-tap".to_owned());
            options.push(tap.tap.clone());
            match &tap.address {
                Some(address) => {
                    options.push("--net-address".to_owned());
                    options.push(address.clone());
                }
                None => {},
            }
            match &tap.gateway {
                Some(gateway) => {
                    options.push("--net-gateway".to_owned());
                    options.push(gateway.clone());
                }
                None => {},
            }
            match &tap.nameservers {
                Some(servers) => {
                    options.push("--net-nameservers".to_owned());
                    let mut i: usize = 0;
                    while i < servers.len()
                        decreases servers@.len() - i,
                    {
                        options.push(servers[i].clone());
                        i += 1;
                    }
                }
                None => {},
            }
        }
    }
    options
}

/// Where a command runs: the closed set of backends.
pub enum Engine {
    Dbg(EngineDbg),
    Docker(EngineDocker),
    Incus(EngineIncus),
    Host(EngineHost),
    Podman(EnginePodman),
    Ssh(EngineSsh),
    Vml(EngineVml),
}

fn push_all(argv: &mut Vec<String>, more: &Vec<String>) {
    let mut i: usize = 0;
    while i < more.len()
        decreases more@.len() - i,
    {
        argv.push(more[i].clone());
        i += 1;
    }
}

impl EngineSsh {
    /// The ssh command with identity and port options.
    pub fn ssh_argv(&self) -> (r: Vec<String>) {
        let mut argv: Vec<String> = Vec::new();
        push_all(&mut argv, &self.ssh_cmd);
        match &self.key {
            Some(key) => {
                argv.push("-o".to_owned());
                argv.push("IdentitiesOnly=yes".to_owned());
                argv.push("-i".to_owned());
                argv.push(key.clone());
            }
            None => {},
        }
        match &self.port {
            Some(port) => {
                argv.push("-p".to_owned());
                argv.push(port.clone());
            }
            None => {},
        }
        argv
    }

    /// `user@host`, or the host alone.
    pub fn full_host(&self) -> (r: String) {
        match &self.user {
            Some(user) => {
                let mut s = user.clone();
                s.push('@');
                s.append(self.host.as_str());
                s
            }
            None => self.host.clone(),
        }
    }
}

impl Engine {
    pub fn base<'a>(&'a self) -> (r: &'a EngineBase) {
        match self {
            Engine::Dbg(e) => &e.base,
            Engine::Docker(e) => &e.base,
            Engine::Incus(e) => &e.base,
            Engine::Host(e) => &e.base,
            Engine::Podman(e) => &e.base,
            Engine::Ssh(e) => &e.base,
            Engine::Vml(e) => &e.base,
        }
    }

    /// The argument vector that runs `command` through the backend's
    /// shell: `sh -c` on the host or inside the container, the command
    /// text as one ssh argument, or the vm runner's ssh mode. The
    /// scaffolding backend reports the command and runs `true`.
    pub fn shell_argv(&self, worker: &str, command: &str, feed: &mut Feed) -> (r: Result<
        Vec<String>,
        Stop,
    >)
        ensures
            self is Host ==> (r matches Ok(argv) && crate::tsort::vviews(argv@) == seq![
                "sh"@,
                "-c"@,
                command@,
            ]),
    {
        let mut argv: Vec<String> = Vec::new();
        match self {
            Engine::Host(_) => {
                argv.push("sh".to_owned());
                argv.push("-c".to_owned());
                argv.push(command.to_owned());
                proof {
                    assert(crate::tsort::vviews(argv@) =~= seq!["sh"@, "-c"@, command@]);
                }
            }
            Engine::Dbg(_) => {
                let mut text = "Worker ".to_owned();
                text.append(worker);
                text.append(": run shell command `");
                text.append(command);
                text.push('`');
                feed.print(text)?;
                argv.push("true".to_owned());
            }
            Engine::Docker(e) => {
                argv.push(e.docker_bin.clone());
                argv.push("exec".to_owned());
                argv.push("-i".to_owned());
                match &e.user {
                    Some(user) => {
                        argv.push("--user".to_owned());
                        argv.push(user.clone());
                    }
                    None => {},
                }
                argv.push(e.base.resource_name(worker));
                argv.push("sh".to_owned());
                argv.push("-c".to_owned());
                argv.push(command.to_owned());
            }
            Engine::Podman(e) => {
                argv.push(e.podman_bin.clone());
                argv.push("exec".to_owned());
                argv.push("-i".to_owned());
                match &e.user {
                    Some(user) => {
                        argv.push("--user".to_owned());
                        argv.push(user.clone());
                    }
                    None => {},
                }
                argv.push(e.base.resource_name(worker));
                argv.push("sh".to_owned());
                argv.push("-c".to_owned());
                argv.push(command.to_owned());
            }
            Engine::Ssh(e) => {
                argv = e.ssh_argv();
                argv.push(e.full_host());
                argv.push(command.to_owned());
            }
            Engine::Incus(e) => {
                argv.push(e.incus_bin.clone());
                argv.push("exec".to_owned());
                argv.push(e.base.resource_name(worker));
                incus_user_flags(e, worker, &mut argv, feed)?;
                argv.push("--".to_owned());
                argv.push("sh".to_owned());
                argv.push("-c".to_owned());
                argv.push(command.to_owned());
            }
            Engine::Vml(e) => {
                argv = crate::task_type::dup_strings(&e.vml_cmd);
                argv.push("ssh".to_owned());
                argv.push("--check".to_owned());
                match &e.user {
                    Some(user) => {
                        argv.push("--user".to_owned());
                        argv.push(user.clone());
                    }
                    None => {},
                }
                argv.push("-c".to_owned());
                argv.push(command.to_owned());
                argv.push("-n".to_owned());
                argv.push(vml_name(e, worker));
            }
        }
        Ok(argv)
    }

    /// The argument vector that runs `args` natively where the backend
    /// has a native exec form; other backends run the shell quoting of
    /// the arguments.
    pub fn exec_argv(&self, worker: &str, args: &Vec<String>, feed: &mut Feed) -> (r: Result<
        Vec<String>,
        Stop,
    >)
        ensures
            self is Host ==> (r matches Ok(argv) && crate::tsort::vviews(argv@)
                == crate::tsort::vviews(args@)),
    {
        match self {
            Engine::Host(_) => Ok(crate::task_type::dup_strings(args)),
            Engine::Dbg(e) => {
                let joined = crate::quote::quote_args(args);
                let mut text = "Worker ".to_owned();
                text.append(worker);
                text.append(": exec `");
                text.append(joined.as_str());
                text.push('`');
                feed.print(text)?;
                let mut argv: Vec<String> = Vec::new();
                argv.push("true".to_owned());
                Ok(argv)
            }
            Engine::Incus(e) => {
                let mut argv: Vec<String> = Vec::new();
                argv.push(e.incus_bin.clone());
                argv.push("exec".to_owned());
                argv.push(e.base.resource_name(worker));
                incus_user_flags(e, worker, &mut argv, feed)?;
                argv.push("--".to_owned());
                push_all(&mut argv, args);
                Ok(argv)
            }
            _ => {
                let quoted = crate::quote::quote_args(args);
                self.shell_argv(worker, quoted.as_str(), feed)
            }
        }
    }
}

/// The vml resource name, under its parent when one is set.
pub fn vml_name(e: &EngineVml, worker: &str) -> (r: String) {
    let name = e.base.resource_name(worker);
    match &e.parent {
        Some(parent) => {
            let mut s = parent.clone();
            s.push('/');
            s.append(name.as_str());
            s
        }
        None => name,
    }
}

/// Incus runs commands as a numeric uid and gid: the pair is looked up
/// inside the container when a user is configured.
fn incus_user_flags(e: &EngineIncus, worker: &str, argv: &mut Vec<String>, feed: &mut Feed) -> (r:
    Result<(), Stop>) {
    match &e.user {
        Some(user) => {
            let name = e.base.resource_name(worker);
            let mut id_cmd = "echo $(id -g ".to_owned();
            id_cmd.append(user.as_str());
            id_cmd.append("):$(id -u ");
            id_cmd.append(user.as_str());
            id_cmd.push(')');
            let mut probe: Vec<String> = Vec::new();
            probe.push(e.incus_bin.clone());
            probe.push("exec".to_owned());
            probe.push(name);
            probe.push("--user".to_owned());
            probe.push("65534".to_owned());
            probe.push("--".to_owned());
            probe.push("sh".to_owned());
            probe.push("-c".to_owned());
            probe.push(id_cmd);
            let out = feed.run_argv(probe, None)?;
            let stripped = crate::cmd::strip_end_exec(out.stdout.as_str());
            let pieces = crate::strings::split_sep_exec(stripped.as_str(), ':');
            if pieces.len() != 2 {
                return Err(fail(Error::WorkerSetupFailed(e.base.resource_name(worker))));
            }
            argv.push("--user".to_owned());
            argv.push(pieces[0].clone());
            argv.push("--group".to_owned());
            argv.push(pieces[1].clone());
            Ok(())
        }
        None => Ok(()),
    }
}

/// Runs one helper command through the driver and fails on a non-zero
/// exit.
fn run_checked(argv: Vec<String>, who: &str, feed: &mut Feed) -> (r: Result<RawOut, Stop>) {
    let out = feed.run_argv(argv, None)?;
    match out.code {
        Some(0) => Ok(out),
        _ => Err(fail(Error::WorkerSetupFailed(who.to_owned()))),
    }
}

/// Whether one helper command exits zero.
fn run_succeeds(argv: Vec<String>, feed: &mut Feed) -> (r: Result<bool, Stop>) {
    let out = feed.run_argv(argv, None)?;
    Ok(match out.code {
        Some(0) => true,
        _ => false,
    })
}

impl Engine {
    /// Provisions the worker's resource when the backend has one and its
    /// base asks for setup, honouring the exists action.
    pub fn setup(&self, worker: &str, action: &Option<ExistsAction>, feed: &mut Feed) -> (r:
        Result<(), Stop>) {
        if !self.base().setup {
            return Ok(());
        }
        match self {
            Engine::Dbg(_) => Ok(()),
            Engine::Host(_) => Ok(()),
            Engine::Ssh(_) => Ok(()),
            Engine::Docker(e) => docker_start(e, worker, action, feed),
            Engine::Podman(e) => podman_start(e, worker, action, feed),
            Engine::Incus(e) => incus_start(e, worker, action, feed),
            Engine::Vml(e) => vml_start(e, worker, action, feed),
        }
    }

    /// Tears the worker's resource down when the base asked for setup.
    pub fn remove(&self, worker: &str, feed: &mut Feed) -> (r: Result<(), Stop>) {
        if !self.base().setup {
            return Ok(());
        }
        match self {
            Engine::Dbg(_) => Ok(()),
            Engine::Host(_) => Ok(()),
            Engine::Ssh(_) => Ok(()),
            Engine::Docker(e) => {
                let name = e.base.resource_name(worker);
                let mut inspect: Vec<String> = Vec::new();
                inspect.push(e.docker_bin.clone());
                inspect.push("container".to_owned());
                inspect.push("inspect".to_owned());
                inspect.push("-f".to_owned());
                inspect.push("{{.Id}}".to_owned());
                inspect.push(name.clone());
                if run_succeeds(inspect, feed)? {
                    let mut rm: Vec<String> = Vec::new();
                    rm.push(e.docker_bin.clone());
                    rm.push("rm".to_owned());
                    rm.push("-f".to_owned());
                    rm.push(name.clone());
                    run_checked(rm, name.as_str(), feed)?;
                }
                Ok(())
            }
            Engine::Podman(e) => {
                let name = e.base.resource_name(worker);
                let mut inspect: Vec<String> = Vec::new();
                inspect.push(e.podman_bin.clone());
                inspect.push("container".to_owned());
                inspect.push("exists".to_owned());
                inspect.push(name.clone());
                if run_succeeds(inspect, feed)? {
                    let mut rm: Vec<String> = Vec::new();
                    rm.push(e.podman_bin.clone());
                    rm.push("rm".to_owned());
                    rm.push("-f".to_owned());
                    rm.push(name.clone());
                    run_checked(rm, name.as_str(), feed)?;
                }
                Ok(())
            }
            Engine::Incus(e) => {
                let name = e.base.resource_name(worker);
                let exists = incus_ls(e, "name=", name.as_str(), feed)?;
                if exists {
                    let mut rm: Vec<String> = Vec::new();
                    rm.push(e.incus_bin.clone());
                    rm.push("rm".to_owned());
                    rm.push("-qf".to_owned());
                    rm.push(name.clone());
                    run_checked(rm, name.as_str(), feed)?;
                }
                Ok(())
            }
            Engine::Vml(e) => {
                let name = vml_name(e, worker);
                let mut rm = crate::task_type::dup_strings(&e.vml_cmd);
                rm.push("rm".to_owned());
                rm.push("-f".to_owned());
                rm.push("-n".to_owned());
                rm.push(name.clone());
                run_checked(rm, name.as_str(), feed)?;
                Ok(())
            }
        }
    }

    /// Stops and starts the worker's resource; backends without a restart
    /// report the special task unsupported.
    pub fn restart(&self, worker: &str, ignore_unsupported: bool, feed: &mut Feed) -> (r: Result<
        (),
        Stop,
    >) {
        match self {
            Engine::Dbg(_) => {
                let mut text = "Worker ".to_owned();
                text.append(worker);
                text.append(": restart");
                feed.print(text)
            }
            Engine::Docker(e) => {
                let name = e.base.resource_name(worker);
                let mut stop: Vec<String> = Vec::new();
                stop.push(e.docker_bin.clone());
                stop.push("stop".to_owned());
                stop.push(name.clone());
                run_checked(stop, name.as_str(), feed)?;
                let mut start: Vec<String> = Vec::new();
                start.push(e.docker_bin.clone());
                start.push("start".to_owned());
                start.push(name.clone());
                run_checked(start, name.as_str(), feed)?;
                Ok(())
            }
            Engine::Podman(e) => {
                let name = e.base.resource_name(worker);
                let mut stop: Vec<String> = Vec::new();
                stop.push(e.podman_bin.clone());
                stop.push("stop".to_owned());
                stop.push(name.clone());
                run_checked(stop, name.as_str(), feed)?;
                let mut start: Vec<String> = Vec::new();
                start.push(e.podman_bin.clone());
                start.push("start".to_owned());
                start.push(name.clone());
                run_checked(start, name.as_str(), feed)?;
                Ok(())
            }
            Engine::Incus(e) => {
                let name = e.base.resource_name(worker);
                let mut stop: Vec<String> = Vec::new();
                stop.push(e.incus_bin.clone());
                stop.push("stop".to_owned());
                stop.push(name.clone());
                run_checked(stop, name.as_str(), feed)?;
                let mut start: Vec<String> = Vec::new();
                start.push(e.incus_bin.clone());
                start.push("start".to_owned());
                start.push(name.clone());
                run_checked(start, name.as_str(), feed)?;
                Ok(())
            }
            Engine::Vml(e) => {
                let name = vml_name(e, worker);
                let mut restart = crate::task_type::dup_strings(&e.vml_cmd);
                restart.push("restart".to_owned());
                restart.push("-n".to_owned());
                restart.push(name.clone());
                run_checked(restart, name.as_str(), feed)?;
                Ok(())
            }
            _ => {
                if ignore_unsupported {
                    Ok(())
                } else {
                    Err(fail(Error::UnsupportedSpecialTask("restart".to_owned())))
                }
            }
        }
    }
}

fn incus_ls(e: &EngineIncus, filter_key: &str, name: &str, feed: &mut Feed) -> (r: Result<
    bool,
    Stop,
>) {
    let mut ls: Vec<String> = Vec::new();
    ls.push(e.incus_bin.clone());
    ls.push("ls".to_owned());
    ls.push("-f".to_owned());
    ls.push("json".to_owned());
    let mut filter = filter_key.to_owned();
    filter.append(name);
    ls.push(filter);
    let out = run_checked(ls, name, feed)?;
    let stripped = crate::cmd::strip_end_exec(out.stdout.as_str());
    Ok(!str_eq(stripped.as_str(), "[]"))
}

fn docker_start(e: &EngineDocker, worker: &str, action: &Option<ExistsAction>, feed: &mut Feed)
    -> (r: Result<(), Stop>) {
    let name = e.base.resource_name(worker);
    match &e.load {
        Some(load) => {
            let path = crate::module::join_dir(e.dir.as_str(), load.as_str());
            let mut cmd: Vec<String> = Vec::new();
            cmd.push(e.docker_bin.clone());
            cmd.push("load".to_owned());
            cmd.push("-qi".to_owned());
            cmd.push(path);
            run_checked(cmd, name.as_str(), feed)?;
        }
        None => {},
    }
    let mut options: Vec<String> = Vec::new();
    options.push("-dt".to_owned());
    match &e.memory {
        Some(memory) => {
            options.push("--memory".to_owned());
            options.push(memory.clone());
        }
        None => {},
    }
    options.push("--name".to_owned());
    options.push(name.clone());
    let act = match action {
        Some(a) => dup_exists_action(a),
        None => dup_exists_action(&e.exists),
    };
    match act {
        ExistsAction::Fail => {},
        ExistsAction::Ignore => {
            let mut inspect: Vec<String> = Vec::new();
            inspect.push(e.docker_bin.clone());
            inspect.push("container".to_owned());
            inspect.push("inspect".to_owned());
            inspect.push("-f".to_owned());
            inspect.push("{{.Id}}".to_owned());
            inspect.push(name.clone());
            if run_succeeds(inspect, feed)? {
                let mut running: Vec<String> = Vec::new();
                running.push(e.docker_bin.clone());
                running.push("container".to_owned());
                running.push("inspect".to_owned());
                running.push("-f".to_owned());
                running.push("{{.State.Running}}".to_owned());
                running.push(name.clone());
                let out = run_checked(running, name.as_str(), feed)?;
                let state = crate::cmd::strip_end_exec(out.stdout.as_str());
                if str_eq(state.as_str(), "false") {
                    let mut start: Vec<String> = Vec::new();
                    start.push(e.docker_bin.clone());
                    start.push("start".to_owned());
                    start.push(name.clone());
                    run_checked(start, name.as_str(), feed)?;
                }
                return Ok(());
            }
        }
        ExistsAction::Replace => {
            let mut rm: Vec<String> = Vec::new();
            rm.push(e.docker_bin.clone());
            rm.push("rm".to_owned());
            rm.push("-f".to_owned());
            rm.push(name.clone());
            run_checked(rm, name.as_str(), feed)?;
        }
    }
    let mut run: Vec<String> = Vec::new();
    run.push(e.docker_bin.clone());
    run.push("run".to_owned());
    push_all(&mut run, &options);
    run.push(e.image.clone());
    run_checked(run, name.as_str(), feed)?;
    Ok(())
}

fn podman_start(e: &EnginePodman, worker: &str, action: &Option<ExistsAction>, feed: &mut Feed)
    -> (r: Result<(), Stop>) {
    let name = e.base.resource_name(worker);
    match &e.load {
        Some(load) => {
            let path = crate::module::join_dir(e.dir.as_str(), load.as_str());
            let mut cmd: Vec<String> = Vec::new();
            cmd.push(e.podman_bin.clone());
            cmd.push("load".to_owned());
            cmd.push("-qi".to_owned());
            cmd.push(path);
            run_checked(cmd, name.as_str(), feed)?;
        }
        None => {},
    }
    let mut options: Vec<String> = Vec::new();
    options.push("-dt".to_owned());
    match &e.memory {
        Some(memory) => {
            options.push("--memory".to_owned());
            options.push(memory.clone());
        }
        None => {},
    }
    options.push("--name".to_owned());
    options.push(name.clone());
    let act = match action {
        Some(a) => dup_exists_action(a),
        None => dup_exists_action(&e.exists),
    };
    match act {
        ExistsAction::Fail => {},
        ExistsAction::Ignore => {
            let mut ex: Vec<String> = Vec::new();
            ex.push(e.podman_bin.clone());
            ex.push("container".to_owned());
            ex.push("exists".to_owned());
            ex.push(name.clone());
            if run_succeeds(ex, feed)? {
                let mut running: Vec<String> = Vec::new();
                running.push(e.podman_bin.clone());
                running.push("inspect".to_owned());
                running.push("-f".to_owned());
                running.push("{{.State.Running}}".to_owned());
                running.push(name.clone());
                let out = run_checked(running, name.as_str(), feed)?;
                let state = crate::cmd::strip_end_exec(out.stdout.as_str());
                if str_eq(state.as_str(), "false") {
                    let mut start: Vec<String> = Vec::new();
                    start.push(e.podman_bin.clone());
                    start.push("start".to_owned());
                    start.push(name.clone());
                    run_checked(start, name.as_str(), feed)?;
                }
                return Ok(());
            }
        }
        ExistsAction::Replace => {
            options.push("--replace".to_owned());
        }
    }
    match &e.pod {
        Some(pod) => {
            options.push("--pod".to_owned());
            let mut ex: Vec<String> = Vec::new();
            ex.push(e.podman_bin.clone());
            ex.push("pod".to_owned());
            ex.push("exists".to_owned());
            ex.push(pod.clone());
            if run_succeeds(ex, feed)? {
                options.push(pod.clone());
            } else {
                let mut fresh = "new:".to_owned();
                fresh.append(pod.as_str());
                options.push(fresh);
            }
        }
        None => {},
    }
    let mut run: Vec<String> = Vec::new();
    run.push(e.podman_bin.clone());
    run.push("run".to_owned());
    push_all(&mut run, &options);
    run.push(e.image.clone());
    run_checked(run, name.as_str(), feed)?;
    Ok(())
}

fn incus_start(e: &EngineIncus, worker: &str, action: &Option<ExistsAction>, feed: &mut Feed)
    -> (r: Result<(), Stop>) {
    let name = e.base.resource_name(worker);
    let act = match action {
        Some(a) => dup_exists_action(a),
        None => dup_exists_action(&e.exists),
    };
    match act {
        ExistsAction::Fail => {},
        ExistsAction::Ignore => {
            if incus_ls(e, "name=", name.as_str(), feed)? {
                let mut ls: Vec<String> = Vec::new();
                ls.push(e.incus_bin.clone());
                ls.push("ls".to_owned());
                ls.push("-f".to_owned());
                ls.push("json".to_owned());
                ls.push("status=stopped".to_owned());
                let mut name_filter = "name=".to_owned();
                name_filter.append(name.as_str());
                ls.push(name_filter);
                let out = run_checked(ls, name.as_str(), feed)?;
                let stripped = crate::cmd::strip_end_exec(out.stdout.as_str());
                if !str_eq(stripped.as_str(), "[]") {
                    let mut start: Vec<String> = Vec::new();
                    start.push(e.incus_bin.clone());
                    start.push("start".to_owned());
                    start.push(name.clone());
                    run_checked(start, name.as_str(), feed)?;
                }
                return Ok(());
            }
        }
        ExistsAction::Replace => {
            if incus_ls(e, "name=", name.as_str(), feed)? {
                let mut rm: Vec<String> = Vec::new();
                rm.push(e.incus_bin.clone());
                rm.push("delete".to_owned());
                rm.push("-qf".to_owned());
                rm.push(name.clone());
                run_checked(rm, name.as_str(), feed)?;
            }
        }
    }
    let mut init: Vec<String> = Vec::new();
    init.push(e.incus_bin.clone());
    init.push("init".to_owned());
    init.push("-q".to_owned());
    let mut image = "images:".to_owned();
    image.append(e.image.as_str());
    init.push(image);
    init.push(name.clone());
    run_checked(init, name.as_str(), feed)?;
    match &e.memory {
        Some(memory) => {
            let mut opt = "limits.memory=".to_owned();
            opt.append(memory.as_str());
            incus_config_set(e, name.as_str(), opt, feed)?;
        }
        None => {},
    }
    match &e.nproc {
        Some(nproc) => {
            let mut opt = "limits.cpu=".to_owned();
            opt.append(nproc.as_str());
            incus_config_set(e, name.as_str(), opt, feed)?;
        }
        None => {},
    }
    match &e.net {
        Some(net) => {
            match &net.network {
                Some(network) => {
                    let mut attach: Vec<String> = Vec::new();
                    attach.push(e.incus_bin.clone());
                    attach.push("network".to_owned());
                    attach.push("attach".to_owned());
                    attach.push(network.clone());
                    attach.push(name.clone());
                    attach.push(net.device.clone());
                    attach.push(net.device.clone());
                    run_checked(attach, name.as_str(), feed)?;
                }
                None => {},
            }
            match &net.address {
                Some(address) => {
                    let mut set: Vec<String> = Vec::new();
                    set.push(e.incus_bin.clone());
                    set.push("config".to_owned());
                    set.push("device".to_owned());
                    set.push("set".to_owned());
                    set.push(name.clone());
                    set.push(net.device.clone());
                    let mut opt = "ipv4.address=".to_owned();
                    opt.append(address.as_str());
                    set.push(opt);
                    run_checked(set, name.as_str(), feed)?;
                }
                None => {},
            }
        }
        None => {},
    }
    let mut si: usize = 0;
    while si < e.storages.len()
        decreases e.storages@.len() - si,
    {
        let volume = e.storages[si].0.clone();
        let storage = &e.storages[si].1;
        let mut add: Vec<String> = Vec::new();
        add.push(e.incus_bin.clone());
        add.push("config".to_owned());
        add.push("device".to_owned());
        add.push("add".to_owned());
        add.push("-q".to_owned());
        add.push(name.clone());
        add.push(volume.clone());
        add.push("disk".to_owned());
        let mut path_opt = "path=".to_owned();
        path_opt.append(storage.path.as_str());
        add.push(path_opt);
        let mut pool_opt = "pool=".to_owned();
        pool_opt.append(storage.pool.as_str());
        add.push(pool_opt);
        let mut source_opt = "source=".to_owned();
        source_opt.append(volume.as_str());
        add.push(source_opt);
        if storage.readonly {
            add.push("readonly=true".to_owned());
        }
        run_checked(add, name.as_str(), feed)?;
        si += 1;
    }
    let mut start: Vec<String> = Vec::new();
    start.push(e.incus_bin.clone());
    start.push("start".to_owned());
    start.push(name.clone());
    run_checked(start, name.as_str(), feed)?;
    Ok(())
}

fn incus_config_set(e: &EngineIncus, name: &str, option: String, feed: &mut Feed) -> (r: Result<
    (),
    Stop,
>) {
    let mut set: Vec<String> = Vec::new();
    set.push(e.incus_bin.clone());
    set.push("config".to_owned());
    set.push("set".to_owned());
    set.push(name.to_owned());
    set.push(option);
    run_checked(set, name, feed)?;
    Ok(())
}

fn vml_start(e: &EngineVml, worker: &str, action: &Option<ExistsAction>, feed: &mut Feed) -> (r:
    Result<(), Stop>) {
    let name = vml_name(e, worker);
    let mut run = crate::task_type::dup_strings(&e.vml_cmd);
    run.push("run".to_owned());
    match &e.memory {
        Some(memory) => {
            run.push("--memory".to_owned());
            run.push(memory.clone());
        }
        None => {},
    }
    match &e.nproc {
        Some(nproc) => {
            run.push("--nproc".to_owned());
            run.push(nproc.clone());
        }
        None => {},
    }
    match &e.image {
        Some(image) => {
            run.push("--image".to_owned());
            run.push(image.clone());
        }
        None => {},
    }
    match &e.net {
        Some(net) => {
            let mut net_options = vml_net_options(net);
            push_all(&mut run, &net_options);
        }
        None => {},
    }
    let act = match action {
        Some(a) => dup_exists_action(a),
        None => dup_exists_action(&e.exists),
    };
    match act {
        ExistsAction::Fail => {
            run.push("--exists-fail".to_owned());
            run.push("--running-fail".to_owned());
        }
        ExistsAction::Ignore => {
            run.push("--exists-ignore".to_owned());
            run.push("--running-ignore".to_owned());
        }
        ExistsAction::Replace => {
            run.push("--exists-replace".to_owned());
            run.push("--running-restart".to_owned());
        }
    }
    run.push("--no-ssh".to_owned());
    run.push("-n".to_owned());
    run.push(name.clone());
    run_checked(run, name.as_str(), feed)?;
    Ok(())
}

pub fn dup_engine(e: &Engine) -> (r: Engine) {
    match e {
        Engine::Dbg(d) => Engine::Dbg(EngineDbg { base: d.base.dup() }),
        Engine::Host(h) => Engine::Host(EngineHost { base: h.base.dup() }),
        Engine::Docker(d) => Engine::Docker(
            EngineDocker {
                memory: dup_opt(&d.memory),
                image: d.image.clone(),
                load: dup_opt(&d.load),
                user: dup_opt(&d.user),
                exists: dup_exists_action(&d.exists),
                base: d.base.dup(),
                docker_bin: d.docker_bin.clone(),
                dir: d.dir.clone(),
            },
        ),
        Engine::Podman(p) => Engine::Podman(
            EnginePodman {
                memory: dup_opt(&p.memory),
                image: p.image.clone(),
                load: dup_opt(&p.load),
                pod: dup_opt(&p.pod),
                user: dup_opt(&p.user),
                exists: dup_exists_action(&p.exists),
                base: p.base.dup(),
                podman_bin: p.podman_bin.clone(),
                dir: p.dir.clone(),
            },
        ),
        Engine::Ssh(s) => Engine::Ssh(
            EngineSsh {
                host: s.host.clone(),
                port: dup_opt(&s.port),
                user: dup_opt(&s.user),
                key: dup_opt(&s.key),
                ssh_cmd: crate::task_type::dup_strings(&s.ssh_cmd),
                base: s.base.dup(),
            },
        ),
        Engine::Incus(i) => Engine::Incus(
            EngineIncus {
                memory: dup_opt(&i.memory),
                nproc: dup_opt(&i.nproc),
                image: i.image.clone(),
                copy: dup_opt(&i.copy),
                net: dup_incus_net(&i.net),
                storages: dup_incus_storages(&i.storages),
                user: dup_opt(&i.user),
                exists: dup_exists_action(&i.exists),
                base: i.base.dup(),
                incus_bin: i.incus_bin.clone(),
            },
        ),
        Engine::Vml(v) => Engine::Vml(
            EngineVml {
                memory: dup_opt(&v.memory),
                nproc: dup_opt(&v.nproc),
                image: dup_opt(&v.image),
                parent: dup_opt(&v.parent),
                user: dup_opt(&v.user),
                net: dup_vml_net(&v.net),
                exists: dup_exists_action(&v.exists),
                base: v.base.dup(),
                vml_cmd: crate::task_type::dup_strings(&v.vml_cmd),
            },
        ),
    }
}

fn dup_opt(o: &Option<String>) -> (r: Option<String>) {
    match o {
        Some(s) => Some(s.clone()),
        None => None,
    }
}

fn dup_incus_net(o: &Option<EngineIncusNet>) -> (r: Option<EngineIncusNet>) {
    match o {
        Some(n) => Some(
            EngineIncusNet {
                address: dup_opt(&n.address),
                device: n.device.clone(),
                network: dup_opt(&n.network),
            },
        ),
        None => None,
    }
}

fn dup_incus_storages(
    ss: &Vec<(String, EngineIncusStorage)>,
) -> (r: Vec<(String, EngineIncusStorage)>) {
    let mut out: Vec<(String, EngineIncusStorage)> = Vec::new();
    let mut i: usize = 0;
    while i < ss.len()
        decreases ss@.len() - i,
    {
        out.push(
            (
                ss[i].0.clone(),
                EngineIncusStorage {
                    path: ss[i].1.path.clone(),
                    pool: ss[i].1.pool.clone(),
                    readonly: ss[i].1.readonly,
                },
            ),
        );
        i += 1;
    }
    out
}

fn dup_vml_net(o: &Option<EngineVmlNet>) -> (r: Option<EngineVmlNet>) {
    match o {
        Some(EngineVmlNet::User) => Some(EngineVmlNet::User),
        Some(EngineVmlNet::Tap(t)) => Some(
            EngineVmlNet::Tap(
                EngineVmlNetTap {
                    tap: t.tap.clone(),
                    address: dup_opt(&t.address),
                    gateway: dup_opt(&t.gateway),
                    nameservers: match &t.nameservers {
                        Some(ns) => Some(crate::task_type::dup_strings(ns)),
                        None => None,
                    },
                },
            ),
        ),
        None => None,
    }
}


fn render_opt(
    s: &Option<String>,
    context: &crate::context::Context,
    feed: &mut Feed,
) -> (r: Result<Option<String>, Stop>) {
    match s {
        Some(s) => {
            let rendered = feed.render(s.clone(), context)?;
            Ok(Some(rendered))
        }
        None => Ok(None),
    }
}

fn render_base(
    base: &EngineBase,
    context: &crate::context::Context,
    feed: &mut Feed,
) -> (r: Result<EngineBase, Stop>)
    ensures
        r matches Ok(b) ==> b.setup == base.setup,
{
    let name = render_opt(&base.name, context, feed)?;
    Ok(EngineBase { name, setup: base.setup })
}

impl EngineDocker {
    /// Builds the backend from its manifest fields: the templated fields
    /// are rendered, the binary is fixed, and the manifest's directory is
    /// kept for relative image loads.
    pub fn from_manifest_engine(
        raw: &EngineDocker,
        context: &crate::context::Context,
        dir: &str,
        feed: &mut Feed,
    ) -> (r: Result<EngineDocker, Stop>)
        ensures
            r matches Ok(e) ==> e.dir@ == dir@ && e.exists == raw.exists && e.base.setup
                == raw.base.setup,
    {
        Ok(
            EngineDocker {
                memory: render_opt(&raw.memory, context, feed)?,
                image: feed.render(raw.image.clone(), context)?,
                load: render_opt(&raw.load, context, feed)?,
                user: render_opt(&raw.user, context, feed)?,
                exists: dup_exists_action(&raw.exists),
                base: render_base(&raw.base, context, feed)?,
                docker_bin: "docker".to_owned(),
                dir: dir.to_owned(),
            },
        )
    }
}

impl EnginePodman {
    /// Builds the backend from its manifest fields, as the Docker one.
    pub fn from_manifest_engine(
        raw: &EnginePodman,
        context: &crate::context::Context,
        dir: &str,
        feed: &mut Feed,
    ) -> (r: Result<EnginePodman, Stop>)
        ensures
            r matches Ok(e) ==> e.dir@ == dir@ && e.exists == raw.exists && e.base.setup
                == raw.base.setup,
    {
        Ok(
            EnginePodman {
                memory: render_opt(&raw.memory, context, feed)?,
                image: feed.render(raw.image.clone(), context)?,
                load: render_opt(&raw.load, context, feed)?,
                pod: render_opt(&raw.pod, context, feed)?,
                user: render_opt(&raw.user, context, feed)?,
                exists: dup_exists_action(&raw.exists),
                base: render_base(&raw.base, context, feed)?,
                podman_bin: "podman".to_owned(),
                dir: dir.to_owned(),
            },
        )
    }
}

impl EngineSsh {
    /// Builds the backend from its manifest fields: host, port, user and
    /// key are rendered, the ssh command is kept as given.
    pub fn from_manifest_engine(
        raw: &EngineSsh,
        context: &crate::context::Context,
        feed: &mut Feed,
    ) -> (r: Result<EngineSsh, Stop>)
        ensures
            r matches Ok(e) ==> e.base.setup == raw.base.setup,
    {
        Ok(
            EngineSsh {
                host: feed.render(raw.host.clone(), context)?,
                port: render_opt(&raw.port, context, feed)?,
                user: render_opt(&raw.user, context, feed)?,
                key: render_opt(&raw.key, context, feed)?,
                ssh_cmd: crate::task_type::dup_strings(&raw.ssh_cmd),
                base: render_base(&raw.base, context, feed)?,
            },
        )
    }
}

impl EngineIncus {
    /// Builds the backend from its manifest fields.
    pub fn from_manifest_engine(
        raw: &EngineIncus,
        context: &crate::context::Context,
        feed: &mut Feed,
    ) -> (r: Result<EngineIncus, Stop>)
        ensures
            r matches Ok(e) ==> e.exists == raw.exists && e.base.setup == raw.base.setup,
    {
        let net = match &raw.net {
            Some(n) => Some(
                EngineIncusNet {
                    address: render_opt(&n.address, context, feed)?,
                    device: feed.render(n.device.clone(), context)?,
                    network: render_opt(&n.network, context, feed)?,
                },
            ),
            None => None,
        };
        let mut storages: Vec<(String, EngineIncusStorage)> = Vec::new();
        let mut i: usize = 0;
        while i < raw.storages.len()
            decreases raw.storages@.len() - i,
        {
            let volume = raw.storages[i].0.clone();
            let st = EngineIncusStorage {
                path: feed.render(raw.storages[i].1.path.clone(), context)?,
                pool: feed.render(raw.storages[i].1.pool.clone(), context)?,
                readonly: raw.storages[i].1.readonly,
            };
            storages.push((volume, st));
            i += 1;
        }
        Ok(
            EngineIncus {
                memory: render_opt(&raw.memory, context, feed)?,
                nproc: render_opt(&raw.nproc, context, feed)?,
                image: feed.render(raw.image.clone(), context)?,
                copy: render_opt(&raw.copy, context, feed)?,
                net,
                storages,
                user: render_opt(&raw.user, context, feed)?,
                exists: dup_exists_action(&raw.exists),
                base: render_base(&raw.base, context, feed)?,
                incus_bin: "incus".to_owned(),
            },
        )
    }
}

impl EngineVml {
    /// Builds the backend from its manifest fields; the vm runner is
    /// invoked with its logging turned down.
    pub fn from_manifest_engine(
        raw: &EngineVml,
        context: &crate::context::Context,
        feed: &mut Feed,
    ) -> (r: Result<EngineVml, Stop>)
        ensures
            r matches Ok(e) ==> e.exists == raw.exists && e.base.setup == raw.base.setup,
    {
        let mut vml_cmd: Vec<String> = Vec::new();
        if raw.vml_cmd.len() == 0 {
            vml_cmd.push("vml".to_owned());
            vml_cmd.push("--log-level".to_owned());
            vml_cmd.push("error".to_owned());
        } else {
            vml_cmd = crate::task_type::dup_strings(&raw.vml_cmd);
        }
        let net = match &raw.net {
            Some(EngineVmlNet::User) => Some(EngineVmlNet::User),
            Some(EngineVmlNet::Tap(t)) => Some(
                EngineVmlNet::Tap(
                    EngineVmlNetTap {
                        tap: feed.render(t.tap.clone(), context)?,
                        address: render_opt(&t.address, context, feed)?,
                        gateway: render_opt(&t.gateway, context, feed)?,
                        nameservers: match &t.nameservers {
                            Some(ns) => {
                                let mut out: Vec<String> = Vec::new();
                                let mut i: usize = 0;
                                while i < ns.len()
                                    decreases ns@.len() - i,
                                {
                                    out.push(feed.render(ns[i].clone(), context)?);
                                    i += 1;
                                }
                                Some(out)
                            }
                            None => None,
                        },
                    },
                ),
            ),
            None => None,
        };
        Ok(
            EngineVml {
                memory: render_opt(&raw.memory, context, feed)?,
                nproc: render_opt(&raw.nproc, context, feed)?,
                image: render_opt(&raw.image, context, feed)?,
                parent: render_opt(&raw.parent, context, feed)?,
                user: render_opt(&raw.user, context, feed)?,
                net,
                exists: dup_exists_action(&raw.exists),
                base: render_base(&raw.base, context, feed)?,
                vml_cmd,
            },
        )
    }
}
} // verus!
