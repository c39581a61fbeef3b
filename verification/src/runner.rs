use vstd::prelude::*;

verus! {

use crate::task::{Task, Env, dup_task};
use crate::taskline::{Taskline, dup_taskline};
use crate::worker::{Worker, dup_worker};
use crate::engine::ExistsAction;
use crate::context::Context;
use crate::effects::{Feed, Stop, fail};
use crate::error::Error;
use crate::value::Val;
use crate::tsort::{tsort, gkey, gdep, keys_distinct, has_cycle, same_graph, lemma_same_graph_cycle,
    lemma_same_graph_layering, lemma_cycle_no_layering, vviews};
use crate::re::{valid_re, re_match, regex_match};
use vstd::string::StringExecFns;

/// One node of the taskset: what it requires, which workers it runs on
/// (anchored regular expressions over worker names), which workers a
/// nested taskset may borrow, and the task itself.
pub struct TasksetElem {
    pub requires: Vec<String>,
    pub workers: Vec<String>,
    pub provide_workers: Vec<String>,
    pub task: Task,
}

/// The whole run: the taskset, tasklines, the pre-rendered variable
/// context, the workers, directories, and the configured defaults.
pub struct Runner {
    pub taskset: Vec<(String, TasksetElem)>,
    pub skip_tasks: Vec<String>,
    pub tasklines: Vec<(String, Taskline)>,
    pub vars_context: Context,
    pub networks: Vec<crate::provision::Network>,
    pub storages: Vec<crate::provision::Storage>,
    pub workers: Vec<Worker>,
    pub dir: String,
    pub config_dir: String,
    pub default_check: bool,
    pub worker_exists: Option<ExistsAction>,
}

/// A worker-name pattern anchored at both ends.
pub open spec fn anchored(p: Seq<char>) -> Seq<char> {
    seq!['^'] + p + seq!['$']
}

/// Whether any of the anchored patterns matches the name.
pub open spec fn name_matched(patterns: Seq<Seq<char>>, name: Seq<char>) -> bool {
    exists|i: int| 0 <= i < patterns.len() && re_match(anchored(#[trigger] patterns[i]), name)
}

fn anchor(p: &str) -> (r: String)
    ensures
        r@ == anchored(p@),
{
    let mut s = "^".to_owned();
    s.append(p);
    s.push('$');
    proof {
        reveal_strlit("^");
        assert(s@ =~= anchored(p@));
    }
    s
}

/// Whether any anchored pattern matches `name`; an error names a pattern
/// that does not compile.
pub fn worker_matched(patterns: &Vec<String>, name: &str) -> (r: Result<bool, Error>)
    ensures
        match r {
            Ok(b) => b == name_matched(vviews(patterns@), name@) && forall|i: int|
                0 <= i < patterns@.len() ==> valid_re(anchored(#[trigger] vviews(patterns@)[i])),
            Err(e) => e is BadRegex,
        },
{
    let mut found = false;
    let mut i: usize = 0;
    while i < patterns.len()
        invariant
            i <= patterns@.len(),
            found == (exists|j: int|
                0 <= j < i && re_match(anchored(#[trigger] vviews(patterns@)[j]), name@)),
            forall|j: int| 0 <= j < i ==> valid_re(anchored(#[trigger] vviews(patterns@)[j])),
        decreases patterns@.len() - i,
    {
        let pat = anchor(patterns[i].as_str());
        match regex_match(pat.as_str(), name) {
            Some(true) => {
                proof {
                    assert(re_match(anchored(vviews(patterns@)[i as int]), name@));
                }
                found = true;
            }
            Some(false) => {},
            None => {
                return Err(Error::BadRegex(pat));
            }
        }
        i += 1;
    }
    Ok(found)
}

/// The indexes of the workers a task runs on: exactly those whose outer
/// name one of the task's anchored patterns matches, in worker order. A
/// task matched by no pattern on a worker is not dispatched there.
pub fn match_workers(patterns: &Vec<String>, workers: &Vec<Worker>) -> (r: Result<
    Vec<usize>,
    Error,
>)
    ensures
        match r {
            Ok(sel) => {
                &&& forall|k: int|
                    0 <= k < sel@.len() ==> #[trigger] sel@[k] < workers@.len() && name_matched(
                        vviews(patterns@),
                        workers@[sel@[k] as int].name_outer@,
                    )
                &&& forall|j: int|
                    0 <= j < workers@.len() && name_matched(
                        vviews(patterns@),
                        #[trigger] workers@[j].name_outer@,
                    ) ==> sel@.contains(j as usize)
            },
            Err(e) => e is BadRegex,
        },
{
    let mut sel: Vec<usize> = Vec::new();
    let mut i: usize = 0;
    while i < workers.len()
        invariant
            i <= workers@.len(),
            forall|k: int|
                0 <= k < sel@.len() ==> #[trigger] sel@[k] < i && name_matched(
                    vviews(patterns@),
                    workers@[sel@[k] as int].name_outer@,
                ),
            forall|j: int|
                0 <= j < i && name_matched(vviews(patterns@), #[trigger] workers@[j].name_outer@)
                    ==> sel@.contains(j as usize),
        decreases workers@.len() - i,
    {
        let name = workers[i].display_name();
        match worker_matched(patterns, name.as_str()) {
            Ok(true) => {
                let ghost pre = sel@;
                sel.push(i);
                proof {
                    assert(sel@[pre.len() as int] == i);
                    assert forall|j: int|
                        0 <= j < i + 1 && name_matched(
                            vviews(patterns@),
                            #[trigger] workers@[j].name_outer@,
                        ) implies sel@.contains(j as usize) by {
                        if j < i {
                            let k = choose|k: int| 0 <= k < pre.len() && pre[k] == j as usize;
                            assert(sel@[k] == j as usize);
                        } else {
                            assert(sel@[pre.len() as int] == j as usize);
                        }
                    }
                }
            }
            Ok(false) => {
                proof {
                    assert forall|j: int|
                        0 <= j < i + 1 && name_matched(
                            vviews(patterns@),
                            #[trigger] workers@[j].name_outer@,
                        ) implies sel@.contains(j as usize) by {
                        if j < i {
                        }
                    }
                }
            }
            Err(e) => {
                return Err(e);
            }
        }
        i += 1;
    }
    Ok(sel)
}

/// Whether `name` stands in the list.
fn name_in(list: &Vec<String>, name: &str) -> (r: bool)
    ensures
        r == vviews(list@).contains(name@),
{
    let mut i: usize = 0;
    while i < list.len()
        invariant
            i <= list@.len(),
            forall|j: int| 0 <= j < i ==> vviews(list@)[j] != name@,
        decreases list@.len() - i,
    {
        if crate::strings::str_eq(list[i].as_str(), name) {
            proof {
                assert(vviews(list@)[i as int] == name@);
            }
            return true;
        }
        i += 1;
    }
    proof {
        if vviews(list@).contains(name@) {
            let j = choose|j: int| 0 <= j < vviews(list@).len() && vviews(list@)[j] == name@;
        }
    }
    false
}

/// The requirement graph the taskset spells, read at the model level:
/// node `i` is the taskset's `i`-th name with its requirement names.
pub open spec fn graph_of(ts: Seq<(String, TasksetElem)>) -> Seq<(String, Vec<String>)> {
    Seq::new(ts.len(), |i: int| (ts[i].0, ts[i].1.requires))
}

/// The taskset names with their requirement lists, in taskset order; the
/// result reads as the taskset's requirement graph.
pub fn taskset_graph(taskset: &Vec<(String, TasksetElem)>) -> (r: Vec<(String, Vec<String>)>)
    ensures
        r@.len() == taskset@.len(),
        same_graph(r@, graph_of(taskset@)),
{
    let ghost target = graph_of(taskset@);
    let mut graph: Vec<(String, Vec<String>)> = Vec::new();
    let mut i: usize = 0;
    while i < taskset.len()
        invariant
            i <= taskset@.len(),
            target == graph_of(taskset@),
            graph@.len() == i,
            forall|j: int| 0 <= j < i ==> gkey(graph@, j) == gkey(target, j),
            forall|j: int| 0 <= j < i ==> (#[trigger] graph@[j].1)@.len() == target[j].1@.len(),
            forall|j: int, k: int|
                0 <= j < i && 0 <= k < graph@[j].1@.len() ==> #[trigger] gdep(graph@, j, k)
                    == gdep(target, j, k),
        decreases taskset@.len() - i,
    {
        let name = taskset[i].0.clone();
        let reqs = crate::task_type::dup_strings(&taskset[i].1.requires);
        proof {
            assert(vviews(reqs@) == vviews(taskset@[i as int].1.requires@));
            assert forall|k: int| 0 <= k < reqs@.len() implies reqs@[k]@
                == target[i as int].1@[k]@ by {
                assert(vviews(reqs@)[k] == vviews(taskset@[i as int].1.requires@)[k]);
            }
        }
        let ghost gr = reqs@;
        let ghost pre = graph@;
        graph.push((name, reqs));
        proof {
            assert(graph@[i as int].1@ == gr);
            assert forall|j: int, k: int|
                0 <= j < i + 1 && 0 <= k < graph@[j].1@.len() implies #[trigger] gdep(
                graph@,
                j,
                k,
            ) == gdep(target, j, k) by {
                if j < i {
                    assert(graph@[j] == pre[j]);
                    assert(gdep(pre, j, k) == gdep(target, j, k));
                } else {
                    assert(gdep(graph@, j, k) == gr[k]@);
                }
            }
            assert(gkey(graph@, i as int) == gkey(target, i as int));
        }
        i += 1;
    }
    graph
}

fn lookup_elem<'a>(taskset: &'a Vec<(String, TasksetElem)>, name: &str) -> (r: Option<
    &'a TasksetElem,
>) {
    let mut i: usize = 0;
    while i < taskset.len()
        decreases taskset@.len() - i,
    {
        if crate::strings::str_eq(taskset[i].0.as_str(), name) {
            return Some(&taskset[i].1);
        }
        i += 1;
    }
    None
}

impl Runner {
    /// Runs the taskset: the requirement graph is stratified into layers;
    /// within each layer the matched workers of every task are set up
    /// first, one at a time, then each task runs on each of its matched
    /// workers. A task in `skip_tasks` still stands in the graph but does
    /// not run. A failure anywhere ends the run. Without workers nothing
    /// runs at all; a taskset whose requirement graph has a cycle fails
    /// as the sort says, before any provisioning or task body.
    pub fn run(&mut self, feed: &mut Feed, depth: u64) -> (r: Result<(), Stop>)
        ensures
            old(self).workers@.len() == 0 ==> (r matches Err(s) && (s matches Stop::Fail(f)
                && f.error is NoWorkers)),
            old(self).workers@.len() > 0 && !keys_distinct(graph_of(old(self).taskset@)) ==> (
            r matches Err(s) && (s matches Stop::Fail(f) && f.error is BadTaskInTaskset)),
            old(self).workers@.len() > 0 && keys_distinct(graph_of(old(self).taskset@))
                && has_cycle(graph_of(old(self).taskset@)) ==> (r matches Err(s) && (s matches
            Stop::Fail(f) && (f.error matches Error::TSort(p) && p@ == "taskset requires"@))),
    {
        let ghost gv = graph_of(old(self).taskset@);
        if self.workers.len() == 0 {
            return Err(fail(Error::NoWorkers));
        }
        let graph = taskset_graph(&self.taskset);
        if !graph_keys_distinct(&graph) {
            proof {
                lemma_same_graph_cycle(graph@, gv);
            }
            return Err(fail(Error::BadTaskInTaskset("taskset".to_owned())));
        }
        let layers = match tsort(&graph, "taskset requires") {
            Ok(layers) => layers,
            Err(e) => {
                return Err(fail(e));
            }
        };
        // the sort succeeded, so the taskset's graph cannot have a cycle
        proof {
            lemma_same_graph_cycle(graph@, gv);
            lemma_same_graph_layering(graph@, gv, crate::tsort::lviews(layers@));
            if has_cycle(gv) {
                lemma_cycle_no_layering(gv, crate::tsort::lviews(layers@));
            }
        }
        if depth == 0 {
            return Err(fail(Error::TooDeep));
        }
        let mut context = Context::new();
        context.insert("result".to_owned(), Val::Null);
        context.extend_from(&self.vars_context);
        context.insert("manifest_dir".to_owned(), Val::Str(self.dir.clone()));
        let mut ni: usize = 0;
        while ni < self.networks.len()
            invariant
                old(self).workers@.len() > 0,
                gv == graph_of(old(self).taskset@),
                keys_distinct(gv),
                !has_cycle(gv),
            decreases self.networks@.len() - ni,
        {
            self.networks[ni].setup(feed)?;
            ni += 1;
        }
        let mut sti: usize = 0;
        while sti < self.storages.len()
            invariant
                old(self).workers@.len() > 0,
                gv == graph_of(old(self).taskset@),
                keys_distinct(gv),
                !has_cycle(gv),
            decreases self.storages@.len() - sti,
        {
            let mut st = crate::provision::dup_storage(&self.storages[sti]);
            st.setup(feed)?;
            self.storages.set(sti, st);
            sti += 1;
        }
        let mut li: usize = 0;
        while li < layers.len()
            invariant
                depth >= 1,
                old(self).workers@.len() > 0,
                gv == graph_of(old(self).taskset@),
                keys_distinct(gv),
                !has_cycle(gv),
            decreases layers@.len() - li,
        {
            // the sequential pre-phase: set up every matched worker; no
            // two setups of the same worker run concurrently because none
            // run concurrently at all
            let mut matched_per_task: Vec<(String, Vec<usize>)> = Vec::new();
            let mut ti: usize = 0;
            while ti < layers[li].len()
                invariant
                    depth >= 1,
                    li < layers@.len(),
                    old(self).workers@.len() > 0,
                    gv == graph_of(old(self).taskset@),
                    keys_distinct(gv),
                    !has_cycle(gv),
                decreases layers@[li as int]@.len() - ti,
            {
                let name = layers[li][ti].clone();
                let elem = match lookup_elem(&self.taskset, name.as_str()) {
                    Some(e) => e,
                    None => {
                        return Err(fail(Error::BadTaskInTaskset(name)));
                    }
                };
                let sel = match match_workers(&elem.workers, &self.workers) {
                    Ok(sel) => sel,
                    Err(e) => {
                        return Err(fail(e));
                    }
                };
                if sel.len() == 0 {
                    return Err(fail(Error::NoWorkersForTask(name)));
                }
                let mut si: usize = 0;
                while si < sel.len()
                    invariant
                        depth >= 1,
                        old(self).workers@.len() > 0,
                        gv == graph_of(old(self).taskset@),
                        keys_distinct(gv),
                        !has_cycle(gv),
                    decreases sel@.len() - si,
                {
                    let idx = sel[si];
                    if idx < self.workers.len() {
                        let mut w = dup_worker(&self.workers[idx]);
                        w.ensure_setup(&self.worker_exists, feed)?;
                        self.workers.set(idx, w);
                    }
                    si += 1;
                }
                matched_per_task.push((name, sel));
                ti += 1;
            }
            // dispatch each task of the layer on its matched workers
            let mut di: usize = 0;
            while di < matched_per_task.len()
                invariant
                    depth >= 1,
                    old(self).workers@.len() > 0,
                    gv == graph_of(old(self).taskset@),
                    keys_distinct(gv),
                    !has_cycle(gv),
                decreases matched_per_task@.len() - di,
            {
                let name = matched_per_task[di].0.clone();
                if name_in(&self.skip_tasks, name.as_str()) {
                    di += 1;
                    continue;
                }
                let elem = match lookup_elem(&self.taskset, name.as_str()) {
                    Some(e) => e,
                    None => {
                        return Err(fail(Error::BadTaskInTaskset(name)));
                    }
                };
                // the workers offered to a nested taskset
                let mut provide: Vec<Worker> = Vec::new();
                let mut pi: usize = 0;
                while pi < self.workers.len()
                    invariant
                        depth >= 1,
                        di < matched_per_task@.len(),
                        old(self).workers@.len() > 0,
                        gv == graph_of(old(self).taskset@),
                        keys_distinct(gv),
                        !has_cycle(gv),
                    decreases self.workers@.len() - pi,
                {
                    let wname = self.workers[pi].display_name();
                    if name_in(&elem.provide_workers, wname.as_str()) {
                        provide.push(dup_worker(&self.workers[pi]));
                    }
                    pi += 1;
                }
                let env = Env {
                    dir: self.dir.clone(),
                    config_dir: self.config_dir.clone(),
                    tasklines: dup_tasklines_list(&self.tasklines),
                    workers: provide,
                    default_check: self.default_check,
                };
                let task = dup_task(&elem.task);
                let mut wi: usize = 0;
                let sel_len = matched_per_task[di].1.len();
                while wi < sel_len
                    invariant
                        depth >= 1,
                        di < matched_per_task@.len(),
                        sel_len == matched_per_task@[di as int].1@.len(),
                        old(self).workers@.len() > 0,
                        gv == graph_of(old(self).taskset@),
                        keys_distinct(gv),
                        !has_cycle(gv),
                    decreases sel_len - wi,
                {
                    let idx = matched_per_task[di].1[wi];
                    if idx < self.workers.len() {
                        let worker = dup_worker(&self.workers[idx]);
                        let mut ctx = context.dup();
                        ctx.insert("worker".to_owned(), Val::Str(worker.display_name()));
                        let step = task.run(
                            &Some(name.clone()),
                            &ctx,
                            &env,
                            &worker,
                            feed,
                            (depth - 1) as u64,
                        );
                        match step {
                            Ok(result) => {
                                match result.as_exception() {
                                    Some(_) => {
                                        let mut text = "Got exception from task `".to_owned();
                                        text.append(name.as_str());
                                        text.push('`');
                                        feed.log(crate::cmd::LogLevel::Warn, text)?;
                                    }
                                    None => {},
                                }
                            }
                            Err(Stop::Suspend(req)) => {
                                return Err(Stop::Suspend(req));
                            }
                            Err(Stop::Fail(mut f)) => {
                                f.context.push(("taskset task".to_owned(), name.clone()));
                                f.context.push(("worker".to_owned(), worker.display_name()));
                                return Err(Stop::Fail(f));
                            }
                        }
                    }
                    wi += 1;
                }
                di += 1;
            }
            li += 1;
        }
        Ok(())
    }

    /// Tears every worker, network and storage volume down; afterwards no
    /// worker counts as set up.
    pub fn clean(&mut self, feed: &mut Feed) -> (r: Result<(), Stop>)
        ensures
            r is Ok ==> final(self).workers@.len() == old(self).workers@.len() && (forall|i: int|
                0 <= i < final(self).workers@.len()
                    ==> !(#[trigger] final(self).workers@[i]).setup),
    {
        let mut i: usize = 0;
        while i < self.workers.len()
            invariant
                self.workers@.len() == old(self).workers@.len(),
                i <= self.workers@.len(),
                forall|k: int| 0 <= k < i ==> !(#[trigger] self.workers@[k]).setup,
            decreases self.workers@.len() - i,
        {
            let mut w = dup_worker(&self.workers[i]);
            w.ensure_remove(feed)?;
            self.workers.set(i, w);
            i += 1;
        }
        let mut ni: usize = 0;
        while ni < self.networks.len()
            decreases self.networks@.len() - ni,
        {
            self.networks[ni].remove(feed)?;
            ni += 1;
        }
        let mut sti: usize = 0;
        while sti < self.storages.len()
            decreases self.storages@.len() - sti,
        {
            self.storages[sti].remove(feed)?;
            sti += 1;
        }
        Ok(())
    }
}

fn dup_tasklines_list(ts: &Vec<(String, Taskline)>) -> (r: Vec<(String, Taskline)>) {
    let mut out: Vec<(String, Taskline)> = Vec::new();
    let mut i: usize = 0;
    while i < ts.len()
        decreases ts@.len() - i,
    {
        out.push((ts[i].0.clone(), dup_taskline(&ts[i].1)));
        i += 1;
    }
    out
}

/// Whether the graph's node names are pairwise distinct.
pub fn graph_keys_distinct(graph: &Vec<(String, Vec<String>)>) -> (r: bool)
    ensures
        r == keys_distinct(graph@),
{
    let mut i: usize = 0;
    while i < graph.len()
        invariant
            i <= graph@.len(),
            forall|a: int, b: int| 0 <= a < b < i ==> gkey(graph@, a) != gkey(graph@, b),
        decreases graph@.len() - i,
    {
        let mut j: usize = 0;
        while j < i
            invariant
                i < graph@.len(),
                j <= i,
                forall|a: int, b: int| 0 <= a < b < i ==> gkey(graph@, a) != gkey(graph@, b),
                forall|b: int| 0 <= b < j ==> gkey(graph@, b) != gkey(graph@, i as int),
            decreases i - j,
        {
            if crate::strings::str_eq(graph[j].0.as_str(), graph[i].0.as_str()) {
                proof {
                    assert(gkey(graph@, j as int) == gkey(graph@, i as int));
                }
                return false;
            }
            j += 1;
        }
        proof {
            assert forall|a: int, b: int| 0 <= a < b < i + 1 implies gkey(graph@, a) != gkey(
                graph@,
                b,
            ) by {
                if b == i as int {
                    assert(gkey(graph@, a) != gkey(graph@, i as int));
                }
            }
        }
        i += 1;
    }
    true
}

} // verus!
