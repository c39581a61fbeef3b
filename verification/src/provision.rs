use vstd::prelude::*;

verus! {

use crate::effects::{Feed, Stop, fail};
use crate::error::Error;
use crate::strings::str_eq;
use vstd::string::StringExecFns;

// Networks and storage volumes a run provisions before any task starts,
// and tears down on clean.

/// An Incus-managed network: its address range, and whether traffic is
/// translated.
pub struct NetworkEngineIncus {
    pub address: String,
    pub nat: bool,
    pub incus_bin: String,
}

/// The closed set of network backends.
pub enum NetworkEngine {
    Incus(NetworkEngineIncus),
}

/// A named network bound to its backend.
pub struct Network {
    pub name: String,
    pub engine: NetworkEngine,
}

fn run_checked(argv: Vec<String>, who: &str, feed: &mut Feed) -> (r: Result<
    crate::effects::RawOut,
    Stop,
>) {
    let out = feed.run_argv(argv, None)?;
    match out.code {
        Some(0) => Ok(out),
        _ => Err(fail(Error::WorkerSetupFailed(who.to_owned()))),
    }
}

impl NetworkEngineIncus {
    /// Whether a network of that name is already listed: its name stands
    /// as a JSON string in the listing.
    fn network_listed(&self, name: &str, feed: &mut Feed) -> (r: Result<bool, Stop>) {
        let mut ls: Vec<String> = Vec::new();
        ls.push(self.incus_bin.clone());
        ls.push("network".to_owned());
        ls.push("ls".to_owned());
        ls.push("-f".to_owned());
        ls.push("json".to_owned());
        let out = run_checked(ls, name, feed)?;
        let listed = match crate::parse::parse_json(out.stdout.as_str()) {
            Some(crate::value::Val::Arr(entries)) => {
                let mut found = false;
                let mut i: usize = 0;
                while i < entries.len()
                    decreases entries@.len() - i,
                {
                    match &entries[i] {
                        crate::value::Val::Obj(fields) => {
                            match crate::value::entries_get(fields, "name") {
                                Some(crate::value::Val::Str(n)) => {
                                    if str_eq(n.as_str(), name) {
                                        found = true;
                                    }
                                }
                                _ => {},
                            }
                        }
                        _ => {},
                    }
                    i += 1;
                }
                found
            }
            _ => false,
        };
        Ok(listed)
    }

    /// Creates the network unless it already exists.
    pub(crate) fn setup(&self, name: &str, feed: &mut Feed) -> (r: Result<(), Stop>) {
        if self.network_listed(name, feed)? {
            return Ok(());
        }
        let mut create: Vec<String> = Vec::new();
        create.push(self.incus_bin.clone());
        create.push("network".to_owned());
        create.push("create".to_owned());
        create.push(name.to_owned());
        create.push("-q".to_owned());
        let mut addr = "ipv4.address=".to_owned();
        addr.append(self.address.as_str());
        create.push(addr);
        let mut nat_opt = "ipv4.nat=".to_owned();
        nat_opt.append(if self.nat { "true" } else { "false" });
        create.push(nat_opt);
        run_checked(create, name, feed)?;
        Ok(())
    }

    /// Deletes the network when it exists.
    pub(crate) fn remove(&self, name: &str, feed: &mut Feed) -> (r: Result<(), Stop>) {
        if !self.network_listed(name, feed)? {
            return Ok(());
        }
        let mut delete: Vec<String> = Vec::new();
        delete.push(self.incus_bin.clone());
        delete.push("network".to_owned());
        delete.push("delete".to_owned());
        delete.push(name.to_owned());
        delete.push("-q".to_owned());
        run_checked(delete, name, feed)?;
        Ok(())
    }
}

impl Network {
    pub(crate) fn setup(&self, feed: &mut Feed) -> (r: Result<(), Stop>) {
        match &self.engine {
            NetworkEngine::Incus(e) => e.setup(self.name.as_str(), feed),
        }
    }

    pub(crate) fn remove(&self, feed: &mut Feed) -> (r: Result<(), Stop>) {
        match &self.engine {
            NetworkEngine::Incus(e) => e.remove(self.name.as_str(), feed),
        }
    }
}

/// An Incus-managed storage volume: the pool it lives in, and an optional
/// volume it is copied from instead of being created empty.
pub struct StorageEngineIncus {
    pub pool: String,
    pub copy: Option<String>,
    pub incus_bin: String,
    pub is_setup: bool,
}

/// The closed set of storage backends.
pub enum StorageEngine {
    Incus(StorageEngineIncus),
}

/// A named volume bound to its backend.
pub struct Storage {
    pub volume: String,
    pub engine: StorageEngine,
}

impl StorageEngineIncus {
    /// Whether the volume is listed in its pool.
    fn volume_listed(&self, volume: &str, feed: &mut Feed) -> (r: Result<bool, Stop>) {
        let mut ls: Vec<String> = Vec::new();
        ls.push(self.incus_bin.clone());
        ls.push("storage".to_owned());
        ls.push("volume".to_owned());
        ls.push("ls".to_owned());
        ls.push(self.pool.clone());
        ls.push("-f".to_owned());
        ls.push("json".to_owned());
        let mut filter = "name=".to_owned();
        filter.append(volume);
        ls.push(filter);
        ls.push("type=custom".to_owned());
        let out = run_checked(ls, volume, feed)?;
        let stripped = crate::cmd::strip_end_exec(out.stdout.as_str());
        Ok(!str_eq(stripped.as_str(), "[]"))
    }

    /// Creates the volume, or copies it from its source, once; checks it
    /// is listed afterwards.
    pub(crate) fn setup(&mut self, volume: &str, feed: &mut Feed) -> (r: Result<(), Stop>)
        ensures
            final(self).is_setup,
    {
        if self.is_setup {
            return Ok(());
        }
        self.is_setup = true;
        match &self.copy {
            Some(from) => {
                let mut copy: Vec<String> = Vec::new();
                copy.push(self.incus_bin.clone());
                copy.push("storage".to_owned());
                copy.push("volume".to_owned());
                copy.push("copy".to_owned());
                let mut src = self.pool.clone();
                src.push('/');
                src.append(from.as_str());
                copy.push(src);
                let mut dst = self.pool.clone();
                dst.push('/');
                dst.append(volume);
                copy.push(dst);
                copy.push("-q".to_owned());
                run_checked(copy, volume, feed)?;
            }
            None => {
                let mut create: Vec<String> = Vec::new();
                create.push(self.incus_bin.clone());
                create.push("storage".to_owned());
                create.push("volume".to_owned());
                create.push("create".to_owned());
                create.push(self.pool.clone());
                create.push(volume.to_owned());
                create.push("-q".to_owned());
                run_checked(create, volume, feed)?;
            }
        }
        if self.volume_listed(volume, feed)? {
            Ok(())
        } else {
            Err(fail(Error::FailSetupIncusVolume(volume.to_owned())))
        }
    }

    /// Deletes the volume when it exists.
    pub(crate) fn remove(&self, volume: &str, feed: &mut Feed) -> (r: Result<(), Stop>) {
        if !self.volume_listed(volume, feed)? {
            return Ok(());
        }
        let mut delete: Vec<String> = Vec::new();
        delete.push(self.incus_bin.clone());
        delete.push("storage".to_owned());
        delete.push("volume".to_owned());
        delete.push("delete".to_owned());
        delete.push(self.pool.clone());
        delete.push(volume.to_owned());
        delete.push("-q".to_owned());
        run_checked(delete, volume, feed)?;
        Ok(())
    }
}

impl Storage {
    pub(crate) fn setup(&mut self, feed: &mut Feed) -> (r: Result<(), Stop>) {
        let volume = self.volume.clone();
        match &mut self.engine {
            StorageEngine::Incus(e) => e.setup(volume.as_str(), feed),
        }
    }

    pub(crate) fn remove(&self, feed: &mut Feed) -> (r: Result<(), Stop>) {
        match &self.engine {
            StorageEngine::Incus(e) => e.remove(self.volume.as_str(), feed),
        }
    }
}

pub fn dup_network(n: &Network) -> (r: Network) {
    Network {
        name: n.name.clone(),
        engine: match &n.engine {
            NetworkEngine::Incus(e) => NetworkEngine::Incus(
                NetworkEngineIncus {
                    address: e.address.clone(),
                    nat: e.nat,
                    incus_bin: e.incus_bin.clone(),
                },
            ),
        },
    }
}

pub fn dup_storage(s: &Storage) -> (r: Storage) {
    Storage {
        volume: s.volume.clone(),
        engine: match &s.engine {
            StorageEngine::Incus(e) => StorageEngine::Incus(
                StorageEngineIncus {
                    pool: e.pool.clone(),
                    copy: match &e.copy {
                        Some(c) => Some(c.clone()),
                        None => None,
                    },
                    incus_bin: e.incus_bin.clone(),
                    is_setup: e.is_setup,
                },
            ),
        },
    }
}

} // verus!
