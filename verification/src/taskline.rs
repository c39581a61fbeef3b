use vstd::prelude::*;

verus! {

use crate::task::{Task, dup_task};

/// A named sequence of tasks, either written inline or referring to one
/// in another manifest, resolved lazily on first run.
pub enum Taskline {
    File { file: String, name: String },
    Line(Vec<TasklineElem>),
}

/// One step of a taskline: an optional display name and the task.
pub struct TasklineElem {
    pub name: Option<String>,
    pub task: Task,
}

impl Taskline {
    /// The inline sequence, when this is one.
    pub fn as_line<'a>(&'a self) -> (r: Option<&'a Vec<TasklineElem>>)
        ensures
            r is Some <==> self is Line,
    {
        match self {
            Taskline::Line(line) => Some(line),
            Taskline::File { .. } => None,
        }
    }

    pub fn is_line(&self) -> (r: bool)
        ensures
            r == (self is Line),
    {
        match self {
            Taskline::Line(_) => true,
            Taskline::File { .. } => false,
        }
    }
}

pub fn dup_taskline(t: &Taskline) -> (r: Taskline) {
    match t {
        Taskline::File { file, name } => Taskline::File { file: file.clone(), name: name.clone() },
        Taskline::Line(elems) => Taskline::Line(dup_elems(elems)),
    }
}

fn dup_elems(elems: &Vec<TasklineElem>) -> (r: Vec<TasklineElem>) {
    let mut out: Vec<TasklineElem> = Vec::new();
    let mut i: usize = 0;
    while i < elems.len()
        decreases elems@.len() - i,
    {
        let name = match &elems[i].name {
            Some(n) => Some(n.clone()),
            None => None,
        };
        let task = dup_task(&elems[i].task);
        out.push(TasklineElem { name, task });
        i += 1;
    }
    out
}

} // verus!
