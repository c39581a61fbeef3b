use vstd::prelude::*;

verus! {

use crate::value::{Val, Vm, val_of, vals_of, kvals_of, lemma_vals_of, lemma_kvals_of, obj_get,
    obj_set, entries_get, entries_set, dup_entries};
use crate::context::Context;

/// A non-value outcome that a surrounding taskline may catch: breaking out
/// of a named (or the nearest) taskline with a result.
pub enum Exception {
    BreakTaskline { taskline: Option<String>, result: Val },
}

/// What one task produced: a value with an optional bag of exported
/// variables, or an exception.
pub enum TaskResult {
    Value { value: Val, vars: Option<Val> },
    Exception(Exception),
}

/// The model of a task result.
pub enum TrV {
    Value { value: Vm, vars: Option<Vm> },
    Exception { taskline: Option<Seq<char>>, result: Vm },
}

impl DeepView for TaskResult {
    type V = TrV;

    open spec fn deep_view(&self) -> TrV {
        match self {
            TaskResult::Value { value, vars } => TrV::Value {
                value: val_of(*value),
                vars: match vars {
                    Some(v) => Some(val_of(*v)),
                    None => None,
                },
            },
            TaskResult::Exception(Exception::BreakTaskline { taskline, result }) => TrV::Exception {
                taskline: match taskline {
                    Some(t) => Some(t@),
                    None => None,
                },
                result: val_of(*result),
            },
        }
    }
}

impl TaskResult {
    /// Wraps a plain value, with no exported variables.
    pub fn from_value(value: Val) -> (r: TaskResult)
        ensures
            r.deep_view() == (TrV::Value { value: val_of(value), vars: None }),
    {
        TaskResult::Value { value, vars: None }
    }

    pub fn dup(&self) -> (r: TaskResult)
        ensures
            r.deep_view() == self.deep_view(),
    {
        match self {
            TaskResult::Value { value, vars } => TaskResult::Value {
                value: value.dup(),
                vars: match vars {
                    Some(v) => Some(v.dup()),
                    None => None,
                },
            },
            TaskResult::Exception(Exception::BreakTaskline { taskline, result }) => {
                TaskResult::Exception(
                    Exception::BreakTaskline {
                        taskline: match taskline {
                            Some(t) => Some(t.clone()),
                            None => None,
                        },
                        result: result.dup(),
                    },
                )
            }
        }
    }

    /// The carried value, when there is one.
    pub fn as_value<'a>(&'a self) -> (r: Option<&'a Val>)
        ensures
            match r {
                Some(v) => self.deep_view() matches TrV::Value { value, .. } && val_of(*v)
                    == value,
                None => self.deep_view() is Exception,
            },
    {
        match self {
            TaskResult::Value { value, .. } => Some(value),
            TaskResult::Exception(_) => None,
        }
    }

    /// The carried exception, when there is one.
    pub fn as_exception<'a>(&'a self) -> (r: Option<&'a Exception>)
        ensures
            r is Some <==> self.deep_view() is Exception,
    {
        match self {
            TaskResult::Value { .. } => None,
            TaskResult::Exception(e) => Some(e),
        }
    }

    /// Attaches exported variables; an exception carries none and stays as
    /// it is.
    pub fn add_vars(&mut self, vars: Val)
        ensures
            match old(self).deep_view() {
                TrV::Value { value, .. } => final(self).deep_view() == (TrV::Value {
                    value,
                    vars: Some(val_of(vars)),
                }),
                TrV::Exception { .. } => final(self).deep_view() == old(self).deep_view(),
            },
    {
        match self {
            TaskResult::Value { value: _, vars: v } => {
                *v = Some(vars);
            }
            TaskResult::Exception(_) => {},
        }
    }

    /// The exported variables as a context, when they form an object.
    pub fn as_context(&self) -> (r: Option<Context>)
        ensures
            match r {
                Some(c) => self.deep_view() matches TrV::Value { vars: Some(vs), .. } && vs
                    == Vm::Obj(c.view_obj()),
                None => !(self.deep_view() matches TrV::Value { vars: Some(vs), .. } && vs
                    is Obj),
            },
    {
        match self {
            TaskResult::Value { vars: Some(Val::Obj(entries)), .. } => {
                Some(Context { entries: dup_entries(entries) })
            }
            _ => None,
        }
    }
}

// --- folding --------------------------------------------------------------

/// The first exception among the results, scanning in order.
pub open spec fn first_exception(rs: Seq<TrV>) -> Option<TrV>
    decreases rs.len(),
{
    if rs.len() == 0 {
        None
    } else if rs[0] is Exception {
        Some(rs[0])
    } else {
        first_exception(rs.drop_first())
    }
}

/// The carried values, in order, of results that carry one.
pub open spec fn values_of(rs: Seq<TrV>) -> Seq<Vm> {
    Seq::new(
        rs.len(),
        |i: int| match rs[i] {
            TrV::Value { value, .. } => value,
            TrV::Exception { result, .. } => result,
        },
    )
}

/// Appends `v` to the array stored under `k`, starting one when none is
/// there.
pub open spec fn arr_append(acc: Seq<(Seq<char>, Vm)>, k: Seq<char>, v: Vm) -> Seq<
    (Seq<char>, Vm),
> {
    match obj_get(acc, k) {
        Some(Vm::Arr(a)) => obj_set(acc, k, Vm::Arr(a.push(v))),
        _ => obj_set(acc, k, Vm::Arr(seq![v])),
    }
}

pub open spec fn merge_obj(acc: Seq<(Seq<char>, Vm)>, entries: Seq<(Seq<char>, Vm)>) -> Seq<
    (Seq<char>, Vm),
>
    decreases entries.len(),
{
    if entries.len() == 0 {
        acc
    } else {
        merge_obj(arr_append(acc, entries[0].0, entries[0].1), entries.drop_first())
    }
}

pub open spec fn merge_one(acc: Seq<(Seq<char>, Vm)>, r: TrV) -> Seq<(Seq<char>, Vm)> {
    match r {
        TrV::Value { vars: Some(Vm::Obj(entries)), .. } => merge_obj(acc, entries),
        _ => acc,
    }
}

/// Position-wise merge: every exported name maps to the list of its
/// values, in result order.
pub open spec fn merge_all(acc: Seq<(Seq<char>, Vm)>, rs: Seq<TrV>) -> Seq<(Seq<char>, Vm)>
    decreases rs.len(),
{
    if rs.len() == 0 {
        acc
    } else {
        merge_all(merge_one(acc, rs[0]), rs.drop_first())
    }
}

/// Folding a list of results: the first exception if any, else the list
/// of values with the exported variables merged position-wise.
pub open spec fn fold_vec_spec(rs: Seq<TrV>) -> TrV {
    match first_exception(rs) {
        Some(e) => e,
        None => TrV::Value {
            value: Vm::Arr(values_of(rs)),
            vars: Some(Vm::Obj(merge_all(Seq::empty(), rs))),
        },
    }
}

fn exec_arr_append(acc: &mut Vec<(String, Val)>, k: String, v: Val)
    ensures
        kvals_of(final(acc)@) == arr_append(kvals_of(old(acc)@), k@, val_of(v)),
{
    let found = match entries_get(acc, k.as_str()) {
        Some(Val::Arr(a)) => Some(crate::value::dup_vals(a)),
        _ => None,
    };
    match found {
        Some(mut a) => {
            let ghost olda = a@;
            a.push(v);
            proof {
                lemma_vals_of(a@);
                lemma_vals_of(olda);
                assert(vals_of(a@) =~= vals_of(olda).push(val_of(a@[olda.len() as int])));
            }
            entries_set(acc, k, Val::Arr(a));
        }
        None => {
            let mut a: Vec<Val> = Vec::new();
            a.push(v);
            proof {
                lemma_vals_of(a@);
                assert(vals_of(a@) =~= seq![val_of(a@[0])]);
            }
            entries_set(acc, k, Val::Arr(a));
        }
    }
}

/// Folds the results of one fan-out row by row.
pub fn fold_vec(results: &Vec<TaskResult>) -> (r: TaskResult)
    ensures
        r.deep_view() == fold_vec_spec(results.deep_view()),
{
    let ghost rs = results.deep_view();
    let mut i: usize = 0;
    proof {
        assert(rs =~= Seq::new(results@.len(), |i: int| results@[i].deep_view()));
        assert(rs.skip(0) =~= rs);
    }
    while i < results.len()
        invariant
            i <= results@.len(),
            rs == results.deep_view(),
            rs.len() == results@.len(),
            forall|j: int| 0 <= j < results@.len() ==> rs[j] == #[trigger] results@[j].deep_view(),
            first_exception(rs) == first_exception(rs.skip(i as int)),
            forall|j: int| 0 <= j < i ==> !(#[trigger] rs[j] is Exception),
        decreases results@.len() - i,
    {
        proof {
            assert(rs.skip(i as int)[0] == rs[i as int]);
            assert(rs.skip(i as int).drop_first() =~= rs.skip(i + 1));
        }
        match &results[i] {
            TaskResult::Exception(_) => {
                return results[i].dup();
            }
            TaskResult::Value { .. } => {},
        }
        i += 1;
    }
    proof {
        assert(rs.skip(rs.len() as int).len() == 0);
        assert(first_exception(rs) is None);
    }
    // no exception: gather the values and merge the exported variables
    let mut values: Vec<Val> = Vec::new();
    let mut k: usize = 0;
    while k < results.len()
        invariant
            k <= results@.len(),
            rs == results.deep_view(),
            rs.len() == results@.len(),
            forall|j: int| 0 <= j < results@.len() ==> rs[j] == #[trigger] results@[j].deep_view(),
            vals_of(values@) =~= values_of(rs.take(k as int)),
        decreases results@.len() - k,
    {
        let ghost pre = values@;
        match &results[k] {
            TaskResult::Value { value, .. } => {
                values.push(value.dup());
            }
            TaskResult::Exception(Exception::BreakTaskline { result, .. }) => {
                values.push(result.dup());
            }
        }
        proof {
            lemma_vals_of(values@);
            lemma_vals_of(pre);
            assert forall|j: int| 0 <= j < k + 1 implies vals_of(values@)[j] == values_of(
                rs.take(k + 1),
            )[j] by {
                if j < k {
                    assert(vals_of(pre)[j] == values_of(rs.take(k as int))[j]);
                }
            }
            assert(vals_of(values@) =~= values_of(rs.take(k + 1)));
        }
        k += 1;
    }
    proof {
        assert(rs.take(rs.len() as int) =~= rs);
        assert(vals_of(values@) =~= values_of(rs));
    }
    let mut merged: Vec<(String, Val)> = Vec::new();
    let mut m: usize = 0;
    proof {
        assert(kvals_of(merged@) =~= Seq::<(Seq<char>, Vm)>::empty());
    }
    while m < results.len()
        invariant
            m <= results@.len(),
            rs == results.deep_view(),
            rs.len() == results@.len(),
            forall|j: int| 0 <= j < results@.len() ==> rs[j] == #[trigger] results@[j].deep_view(),
            merge_all(Seq::empty(), rs) == merge_all(kvals_of(merged@), rs.skip(m as int)),
        decreases results@.len() - m,
    {
        proof {
            assert(rs.skip(m as int)[0] == rs[m as int]);
            assert(rs.skip(m as int).drop_first() =~= rs.skip(m + 1));
        }
        match &results[m] {
            TaskResult::Value { vars: Some(Val::Obj(entries)), .. } => {
                let mut e: usize = 0;
                let ghost ve = kvals_of(entries@);
                let ghost acc0 = kvals_of(merged@);
                proof {
                    lemma_kvals_of(entries@);
                    assert(ve.skip(0) =~= ve);
                }
                while e < entries.len()
                    invariant
                        e <= entries@.len(),
                        ve == kvals_of(entries@),
                        ve.len() == entries@.len(),
                        forall|j: int| 0 <= j < entries@.len() ==> #[trigger] ve[j] == (
                            entries@[j].0@,
                            val_of(entries@[j].1),
                        ),
                        merge_obj(acc0, ve) == merge_obj(kvals_of(merged@), ve.skip(e as int)),
                    decreases entries@.len() - e,
                {
                    proof {
                        assert(ve.skip(e as int)[0] == ve[e as int]);
                        assert(ve.skip(e as int).drop_first() =~= ve.skip(e + 1));
                    }
                    let name = entries[e].0.clone();
                    let v = entries[e].1.dup();
                    exec_arr_append(&mut merged, name, v);
                    e += 1;
                }
                proof {
                    assert(ve.skip(entries@.len() as int).len() == 0);
                }
            }
            _ => {},
        }
        m += 1;
    }
    proof {
        assert(rs.skip(rs.len() as int).len() == 0);
    }
    let mut r = TaskResult::Value { value: Val::Arr(values), vars: None };
    r.add_vars(Val::Obj(merged));
    r
}


// --- folding keyed by item -------------------------------------------------

/// The results alone, in order.
pub open spec fn seconds(rs: Seq<(Seq<char>, TrV)>) -> Seq<TrV> {
    Seq::new(rs.len(), |i: int| rs[i].1)
}

/// The values as an object keyed by item, later items overriding.
pub open spec fn items_values(acc: Seq<(Seq<char>, Vm)>, rs: Seq<(Seq<char>, TrV)>) -> Seq<
    (Seq<char>, Vm),
>
    decreases rs.len(),
{
    if rs.len() == 0 {
        acc
    } else {
        let v = match rs[0].1 {
            TrV::Value { value, .. } => value,
            TrV::Exception { result, .. } => result,
        };
        items_values(obj_set(acc, rs[0].0, v), rs.drop_first())
    }
}

/// Binds `v` under `item` inside the object stored under `name`.
pub open spec fn item_append(
    acc: Seq<(Seq<char>, Vm)>,
    name: Seq<char>,
    item: Seq<char>,
    v: Vm,
) -> Seq<(Seq<char>, Vm)> {
    match obj_get(acc, name) {
        Some(Vm::Obj(o)) => obj_set(acc, name, Vm::Obj(obj_set(o, item, v))),
        _ => obj_set(acc, name, Vm::Obj(seq![(item, v)])),
    }
}

pub open spec fn merge_items_obj(
    acc: Seq<(Seq<char>, Vm)>,
    item: Seq<char>,
    entries: Seq<(Seq<char>, Vm)>,
) -> Seq<(Seq<char>, Vm)>
    decreases entries.len(),
{
    if entries.len() == 0 {
        acc
    } else {
        merge_items_obj(
            item_append(acc, entries[0].0, item, entries[0].1),
            item,
            entries.drop_first(),
        )
    }
}

pub open spec fn merge_items_one(acc: Seq<(Seq<char>, Vm)>, item: Seq<char>, r: TrV) -> Seq<
    (Seq<char>, Vm),
> {
    match r {
        TrV::Value { vars: Some(Vm::Obj(entries)), .. } => merge_items_obj(acc, item, entries),
        _ => acc,
    }
}

/// Keyed merge: every exported name maps to an object from item to value.
pub open spec fn merge_items_all(
    acc: Seq<(Seq<char>, Vm)>,
    rs: Seq<(Seq<char>, TrV)>,
) -> Seq<(Seq<char>, Vm)>
    decreases rs.len(),
{
    if rs.len() == 0 {
        acc
    } else {
        merge_items_all(merge_items_one(acc, rs[0].0, rs[0].1), rs.drop_first())
    }
}

/// Folding itemed results: the first exception if any, else an object of
/// values keyed by item with the exported variables merged per item.
pub open spec fn fold_items_spec(rs: Seq<(Seq<char>, TrV)>) -> TrV {
    match first_exception(seconds(rs)) {
        Some(e) => e,
        None => TrV::Value {
            value: Vm::Obj(items_values(Seq::empty(), rs)),
            vars: Some(Vm::Obj(merge_items_all(Seq::empty(), rs))),
        },
    }
}

fn exec_item_append(acc: &mut Vec<(String, Val)>, name: String, item: String, v: Val)
    ensures
        kvals_of(final(acc)@) == item_append(kvals_of(old(acc)@), name@, item@, val_of(v)),
{
    let found = match entries_get(acc, name.as_str()) {
        Some(Val::Obj(o)) => Some(dup_entries(o)),
        _ => None,
    };
    match found {
        Some(mut o) => {
            entries_set(&mut o, item, v);
            entries_set(acc, name, Val::Obj(o));
        }
        None => {
            let mut o: Vec<(String, Val)> = Vec::new();
            o.push((item, v));
            proof {
                lemma_kvals_of(o@);
                assert(kvals_of(o@) =~= seq![(o@[0].0@, val_of(o@[0].1))]);
            }
            entries_set(acc, name, Val::Obj(o));
        }
    }
}

/// Folds the results of an item fan-out, keyed by item.
pub fn fold_items(results: &Vec<(String, TaskResult)>) -> (r: TaskResult)
    ensures
        r.deep_view() == fold_items_spec(results.deep_view()),
{
    let ghost rs = results.deep_view();
    let mut i: usize = 0;
    proof {
        assert(rs =~= Seq::new(results@.len(), |i: int| results@[i].deep_view()));
        assert(seconds(rs).skip(0) =~= seconds(rs));
    }
    while i < results.len()
        invariant
            i <= results@.len(),
            rs == results.deep_view(),
            rs.len() == results@.len(),
            forall|j: int| 0 <= j < results@.len() ==> rs[j] == #[trigger] results@[j].deep_view(),
            first_exception(seconds(rs)) == first_exception(seconds(rs).skip(i as int)),
            forall|j: int| 0 <= j < i ==> !(#[trigger] seconds(rs)[j] is Exception),
        decreases results@.len() - i,
    {
        proof {
            assert(seconds(rs).skip(i as int)[0] == seconds(rs)[i as int]);
            assert(seconds(rs).skip(i as int).drop_first() =~= seconds(rs).skip(i + 1));
        }
        match &results[i].1 {
            TaskResult::Exception(_) => {
                return results[i].1.dup();
            }
            TaskResult::Value { .. } => {},
        }
        i += 1;
    }
    proof {
        assert(seconds(rs).skip(rs.len() as int).len() == 0);
        assert(first_exception(seconds(rs)) is None);
    }
    let mut values: Vec<(String, Val)> = Vec::new();
    let mut k: usize = 0;
    proof {
        assert(rs.skip(0) =~= rs);
        assert(kvals_of(values@) =~= Seq::<(Seq<char>, Vm)>::empty());
    }
    while k < results.len()
        invariant
            k <= results@.len(),
            rs == results.deep_view(),
            rs.len() == results@.len(),
            forall|j: int| 0 <= j < results@.len() ==> rs[j] == #[trigger] results@[j].deep_view(),
            items_values(Seq::empty(), rs) == items_values(kvals_of(values@), rs.skip(k as int)),
        decreases results@.len() - k,
    {
        proof {
            assert(rs.skip(k as int)[0] == rs[k as int]);
            assert(rs.skip(k as int).drop_first() =~= rs.skip(k + 1));
        }
        let item = results[k].0.clone();
        let v = match &results[k].1 {
            TaskResult::Value { value, .. } => value.dup(),
            TaskResult::Exception(Exception::BreakTaskline { result, .. }) => result.dup(),
        };
        entries_set(&mut values, item, v);
        k += 1;
    }
    proof {
        assert(rs.skip(rs.len() as int).len() == 0);
    }
    let mut merged: Vec<(String, Val)> = Vec::new();
    let mut m: usize = 0;
    proof {
        assert(rs.skip(0) =~= rs);
        assert(kvals_of(merged@) =~= Seq::<(Seq<char>, Vm)>::empty());
    }
    while m < results.len()
        invariant
            m <= results@.len(),
            rs == results.deep_view(),
            rs.len() == results@.len(),
            forall|j: int| 0 <= j < results@.len() ==> rs[j] == #[trigger] results@[j].deep_view(),
            merge_items_all(Seq::empty(), rs) == merge_items_all(
                kvals_of(merged@),
                rs.skip(m as int),
            ),
        decreases results@.len() - m,
    {
        proof {
            assert(rs.skip(m as int)[0] == rs[m as int]);
            assert(rs.skip(m as int).drop_first() =~= rs.skip(m + 1));
        }
        match &results[m].1 {
            TaskResult::Value { vars: Some(Val::Obj(entries)), .. } => {
                let mut e: usize = 0;
                let ghost ve = kvals_of(entries@);
                let ghost acc0 = kvals_of(merged@);
                let ghost item = results@[m as int].0@;
                proof {
                    lemma_kvals_of(entries@);
                    assert(ve.skip(0) =~= ve);
                }
                while e < entries.len()
                    invariant
                        e <= entries@.len(),
                        ve == kvals_of(entries@),
                        ve.len() == entries@.len(),
                        item == results@[m as int].0@,
                        m < results@.len(),
                        forall|j: int| 0 <= j < entries@.len() ==> #[trigger] ve[j] == (
                            entries@[j].0@,
                            val_of(entries@[j].1),
                        ),
                        merge_items_obj(acc0, item, ve) == merge_items_obj(
                            kvals_of(merged@),
                            item,
                            ve.skip(e as int),
                        ),
                    decreases entries@.len() - e,
                {
                    proof {
                        assert(ve.skip(e as int)[0] == ve[e as int]);
                        assert(ve.skip(e as int).drop_first() =~= ve.skip(e + 1));
                    }
                    let name = entries[e].0.clone();
                    let v = entries[e].1.dup();
                    let item_s = results[m].0.clone();
                    exec_item_append(&mut merged, name, item_s, v);
                    e += 1;
                }
                proof {
                    assert(ve.skip(entries@.len() as int).len() == 0);
                }
            }
            _ => {},
        }
        m += 1;
    }
    proof {
        assert(rs.skip(rs.len() as int).len() == 0);
    }
    let mut r = TaskResult::Value { value: Val::Obj(values), vars: None };
    r.add_vars(Val::Obj(merged));
    r
}

/// Where a break exception lands relative to the current taskline.
pub enum BreakFlow {
    CatchHere(Val),
    PassOn,
}

/// The break rule: an exception without a target, or targeting the
/// current taskline's identifier, is caught here with its result; one
/// targeting another identifier passes through unchanged.
pub fn break_decision(current: &str, e: &Exception) -> (r: BreakFlow)
    ensures
        match e {
            Exception::BreakTaskline { taskline, result } => match r {
                BreakFlow::CatchHere(v) => (taskline is None || (taskline matches Some(t) && t@
                    == current@)) && val_of(v) == val_of(*result),
                BreakFlow::PassOn => taskline matches Some(t) && t@ != current@,
            },
        },
{
    match e {
        Exception::BreakTaskline { taskline, result } => {
            match taskline {
                None => BreakFlow::CatchHere(result.dup()),
                Some(t) => {
                    if crate::strings::str_eq(t.as_str(), current) {
                        BreakFlow::CatchHere(result.dup())
                    } else {
                        BreakFlow::PassOn
                    }
                }
            }
        }
    }
}

/// What the fold's first exception is, when there is one, is an exception.
pub proof fn lemma_first_exception_shape(rs: Seq<TrV>)
    ensures
        first_exception(rs) matches Some(e) ==> e is Exception,
    decreases rs.len(),
{
    if rs.len() > 0 && !(rs[0] is Exception) {
        lemma_first_exception_shape(rs.drop_first());
    }
}

/// Without an exception among them, the fold sees none.
pub proof fn lemma_first_exception_none(rs: Seq<TrV>)
    requires
        forall|i: int| 0 <= i < rs.len() ==> !((#[trigger] rs[i]) is Exception),
    ensures
        first_exception(rs) is None,
    decreases rs.len(),
{
    if rs.len() > 0 {
        assert forall|i: int| 0 <= i < rs.drop_first().len() implies !((
        #[trigger] rs.drop_first()[i]) is Exception) by {
            assert(rs.drop_first()[i] == rs[i + 1]);
        }
        lemma_first_exception_none(rs.drop_first());
    }
}
} // verus!
