use vstd::prelude::*;

verus! {

broadcast use vstd::std_specs::vec::group_vec_axioms;

/// Mathematical model of a manifest value: the shape of JSON data with
/// numbers split as the implementation stores them. A non-integral number
/// is carried as its decimal text, never computed with.
pub enum Vm {
    Null,
    Bool(bool),
    Int(i64),
    Uint(u64),
    Float(Seq<char>),
    Str(Seq<char>),
    Arr(Seq<Vm>),
    Obj(Seq<(Seq<char>, Vm)>),
}

/// A manifest value: variables, task results and template contexts all
/// hold these. Object entries keep insertion order; keys are unique.
pub enum Val {
    Null,
    Bool(bool),
    Int(i64),
    Uint(u64),
    Float(String),
    Str(String),
    Arr(Vec<Val>),
    Obj(Vec<(String, Val)>),
}

pub open spec fn val_of(v: Val) -> Vm
    decreases v,
    via val_of_dec
{
    match v {
        Val::Null => Vm::Null,
        Val::Bool(b) => Vm::Bool(b),
        Val::Int(i) => Vm::Int(i),
        Val::Uint(u) => Vm::Uint(u),
        Val::Float(s) => Vm::Float(s@),
        Val::Str(s) => Vm::Str(s@),
        Val::Arr(a) => Vm::Arr(vals_of(a@)),
        Val::Obj(o) => Vm::Obj(kvals_of(o@)),
    }
}

pub open spec fn vals_of(s: Seq<Val>) -> Seq<Vm>
    decreases s,
    via vals_of_dec
{
    if s.len() == 0 {
        Seq::empty()
    } else {
        seq![val_of(s[0])] + vals_of(s.drop_first())
    }
}

pub open spec fn kvals_of(s: Seq<(String, Val)>) -> Seq<(Seq<char>, Vm)>
    decreases s,
    via kvals_of_dec
{
    if s.len() == 0 {
        Seq::empty()
    } else {
        seq![(s[0].0@, val_of(s[0].1))] + kvals_of(s.drop_first())
    }
}

#[via_fn]
proof fn val_of_dec(v: Val) {
    match v {
        Val::Arr(a) => {
            assert(decreases_to!(v => a));
            assert(decreases_to!(a => a@));
        }
        Val::Obj(o) => {
            assert(decreases_to!(v => o));
            assert(decreases_to!(o => o@));
        }
        _ => {}
    }
}

#[via_fn]
proof fn vals_of_dec(s: Seq<Val>) {
    if s.len() > 0 {
        assert(decreases_to!(s => s[0]));
        assert(decreases_to!(s => s.drop_first()));
    }
}

#[via_fn]
proof fn kvals_of_dec(s: Seq<(String, Val)>) {
    if s.len() > 0 {
        assert(decreases_to!(s => s[0]));
        assert(decreases_to!(s[0] => s[0].1));
        assert(decreases_to!(s => s.drop_first()));
    }
}

pub proof fn lemma_vals_of(s: Seq<Val>)
    ensures
        vals_of(s).len() == s.len(),
        forall|i: int| 0 <= i < s.len() ==> vals_of(s)[i] == val_of(s[i]),
    decreases s.len(),
{
    if s.len() > 0 {
        lemma_vals_of(s.drop_first());
    }
}

pub proof fn lemma_kvals_of(s: Seq<(String, Val)>)
    ensures
        kvals_of(s).len() == s.len(),
        forall|i: int| 0 <= i < s.len() ==> kvals_of(s)[i] == (s[i].0@, val_of(s[i].1)),
    decreases s.len(),
{
    if s.len() > 0 {
        lemma_kvals_of(s.drop_first());
    }
}

impl DeepView for Val {
    type V = Vm;

    open spec fn deep_view(&self) -> Vm {
        val_of(*self)
    }
}

/// Deep copy of an array's elements; the model elements are unchanged.
pub fn dup_vals(a: &Vec<Val>) -> (r: Vec<Val>)
    ensures
        vals_of(r@) == vals_of(a@),
    decreases a@,
{
    let mut out: Vec<Val> = Vec::new();
    let mut i: usize = 0;
    while i < a.len()
        invariant
            i <= a@.len(),
            out@.len() == i,
            forall|j: int| 0 <= j < i ==> out@[j].deep_view() == a@[j].deep_view(),
        decreases a@.len() - i,
    {
        proof {
            assert(decreases_to!(a@ => a@[i as int]));
        }
        let e = a[i].dup();
        out.push(e);
        i += 1;
    }
    proof {
        lemma_vals_of(out@);
        lemma_vals_of(a@);
        assert(vals_of(out@) =~= vals_of(a@));
    }
    out
}

/// Deep copy of an object's entries; the model entries are unchanged.
pub fn dup_entries(o: &Vec<(String, Val)>) -> (r: Vec<(String, Val)>)
    ensures
        kvals_of(r@) == kvals_of(o@),
    decreases o@,
{
    let mut out: Vec<(String, Val)> = Vec::new();
    let mut i: usize = 0;
    while i < o.len()
        invariant
            i <= o@.len(),
            out@.len() == i,
            forall|j: int| 0 <= j < i ==> out@[j].0@ == o@[j].0@ && out@[j].1.deep_view()
                == o@[j].1.deep_view(),
        decreases o@.len() - i,
    {
        proof {
            assert(decreases_to!(o@ => o@[i as int]));
            assert(decreases_to!(o@[i as int] => o@[i as int].1));
        }
        let v = o[i].1.dup();
        let k = o[i].0.clone();
        out.push((k, v));
        i += 1;
    }
    proof {
        lemma_kvals_of(out@);
        lemma_kvals_of(o@);
        assert(kvals_of(out@) =~= kvals_of(o@));
    }
    out
}

impl Val {
    /// Deep copy; the model value is unchanged.
    pub fn dup(&self) -> (r: Val)
        ensures
            r.deep_view() == self.deep_view(),
        decreases *self,
    {
        match self {
            Val::Null => Val::Null,
            Val::Bool(b) => Val::Bool(*b),
            Val::Int(i) => Val::Int(*i),
            Val::Uint(u) => Val::Uint(*u),
            Val::Float(s) => Val::Float(s.clone()),
            Val::Str(s) => Val::Str(s.clone()),
            Val::Arr(a) => {
                proof {
                    assert(decreases_to!(*self => *a));
                    assert(decreases_to!(*a => a@));
                }
                Val::Arr(dup_vals(a))
            }
            Val::Obj(o) => {
                proof {
                    assert(decreases_to!(*self => *o));
                    assert(decreases_to!(*o => o@));
                }
                Val::Obj(dup_entries(o))
            }
        }
    }
}


// --- object operations -------------------------------------------------

/// The first value stored under `k`, scanning entries in order.
pub open spec fn obj_get(entries: Seq<(Seq<char>, Vm)>, k: Seq<char>) -> Option<Vm>
    decreases entries.len(),
{
    if entries.len() == 0 {
        None
    } else if entries[0].0 == k {
        Some(entries[0].1)
    } else {
        obj_get(entries.drop_first(), k)
    }
}

/// `entries` with `k` bound to `v`: replaced in place when present, else
/// appended.
pub open spec fn obj_set(entries: Seq<(Seq<char>, Vm)>, k: Seq<char>, v: Vm) -> Seq<
    (Seq<char>, Vm),
>
    decreases entries.len(),
{
    if entries.len() == 0 {
        seq![(k, v)]
    } else if entries[0].0 == k {
        seq![(k, v)] + entries.drop_first()
    } else {
        seq![entries[0]] + obj_set(entries.drop_first(), k, v)
    }
}

pub proof fn lemma_obj_set_get(entries: Seq<(Seq<char>, Vm)>, k: Seq<char>, v: Vm, k2: Seq<char>)
    ensures
        obj_get(obj_set(entries, k, v), k) == Some(v),
        k2 != k ==> obj_get(obj_set(entries, k, v), k2) == obj_get(entries, k2),
    decreases entries.len(),
{
    if entries.len() == 0 {
        let one = obj_set(entries, k, v);
        assert(one.drop_first() =~= Seq::<(Seq<char>, Vm)>::empty());
    } else if entries[0].0 == k {
        let r = obj_set(entries, k, v);
        assert(r[0] == (k, v));
        assert(r.drop_first() =~= entries.drop_first());
    } else {
        lemma_obj_set_get(entries.drop_first(), k, v, k2);
        let r = obj_set(entries, k, v);
        assert(r[0] == entries[0]);
        assert(r.drop_first() =~= obj_set(entries.drop_first(), k, v));
        assert(obj_get(r, k) == obj_get(r.drop_first(), k));
        if k2 != k {
            if entries[0].0 == k2 {
                assert(obj_get(r, k2) == Some(r[0].1));
                assert(obj_get(entries, k2) == Some(entries[0].1));
            } else {
                assert(obj_get(r, k2) == obj_get(r.drop_first(), k2));
                assert(obj_get(entries, k2) == obj_get(entries.drop_first(), k2));
            }
        }
    }
}

/// Looks a key up among the entries of an object.
pub fn entries_get<'a>(entries: &'a Vec<(String, Val)>, k: &str) -> (r: Option<&'a Val>)
    ensures
        match r {
            Some(v) => obj_get(kvals_of(entries@), k@) == Some(v.deep_view()),
            None => obj_get(kvals_of(entries@), k@) is None,
        },
{
    let mut i: usize = 0;
    proof {
        lemma_kvals_of(entries@);
        assert(kvals_of(entries@).skip(0) =~= kvals_of(entries@));
    }
    while i < entries.len()
        invariant
            i <= entries@.len(),
            obj_get(kvals_of(entries@), k@) == obj_get(kvals_of(entries@).skip(i as int), k@),
            kvals_of(entries@).len() == entries@.len(),
            forall|j: int| 0 <= j < entries@.len() ==> #[trigger] kvals_of(entries@)[j] == (
                entries@[j].0@,
                val_of(entries@[j].1),
            ),
        decreases entries@.len() - i,
    {
        proof {
            assert(kvals_of(entries@).skip(i as int)[0] == kvals_of(entries@)[i as int]);
            assert(kvals_of(entries@).skip(i as int).drop_first() =~= kvals_of(entries@).skip(
                i + 1,
            ));
        }
        if crate::strings::str_eq(entries[i].0.as_str(), k) {
            return Some(&entries[i].1);
        }
        i += 1;
    }
    None
}

/// Binds `k` to `v` among the entries of an object, replacing in place.
pub fn entries_set(entries: &mut Vec<(String, Val)>, k: String, v: Val)
    ensures
        kvals_of(final(entries)@) == obj_set(kvals_of(old(entries)@), k@, val_of(v)),
{
    let ghost orig = old(entries)@;
    let mut i: usize = 0;
    proof {
        lemma_kvals_of(entries@);
    }
    while i < entries.len()
        invariant
            i <= entries@.len(),
            entries@ == orig,
            old(entries)@ == orig,
            forall|j: int| 0 <= j < i ==> orig[j].0@ != k@,
        decreases entries@.len() - i,
    {
        if crate::strings::str_eq(entries[i].0.as_str(), k.as_str()) {
            let ghost gk = k@;
            let ghost gv = val_of(v);
            proof {
                lemma_kvals_of(orig);
                lemma_obj_set_prefix(kvals_of(orig), i as int, gk, gv);
            }
            entries.set(i, (k, v));
            proof {
                lemma_kvals_of(entries@);
                assert(entries@[i as int].0@ == gk && val_of(entries@[i as int].1) == gv);
                assert(kvals_of(entries@) =~= kvals_of(orig).update(i as int, (gk, gv)));
            }
            return;
        }
        i += 1;
    }
    let ghost gk = k@;
    let ghost gv = val_of(v);
    entries.push((k, v));
    proof {
        lemma_kvals_of(orig);
        lemma_kvals_of(entries@);
        lemma_obj_set_absent(kvals_of(orig), gk, gv);
        assert(kvals_of(entries@) =~= kvals_of(orig) + seq![(gk, gv)]);
    }
}

proof fn lemma_obj_set_prefix(entries: Seq<(Seq<char>, Vm)>, i: int, k: Seq<char>, v: Vm)
    requires
        0 <= i < entries.len(),
        entries[i].0 == k,
        forall|j: int| 0 <= j < i ==> entries[j].0 != k,
    ensures
        obj_set(entries, k, v) == entries.update(i, (k, v)),
    decreases entries.len(),
{
    if i == 0 {
        assert(obj_set(entries, k, v) =~= entries.update(0, (k, v)));
    } else {
        assert(entries.drop_first()[i - 1].0 == k);
        lemma_obj_set_prefix(entries.drop_first(), i - 1, k, v);
        assert(entries.drop_first().update(i - 1, (k, v)) =~= entries.update(
            i,
            (k, v),
        ).drop_first());
        assert(obj_set(entries, k, v) =~= entries.update(i, (k, v)));
    }
}

proof fn lemma_obj_set_absent(entries: Seq<(Seq<char>, Vm)>, k: Seq<char>, v: Vm)
    requires
        forall|j: int| 0 <= j < entries.len() ==> entries[j].0 != k,
    ensures
        obj_set(entries, k, v) == entries + seq![(k, v)],
    decreases entries.len(),
{
    if entries.len() == 0 {
        assert(obj_set(entries, k, v) =~= entries + seq![(k, v)]);
    } else {
        assert(entries.drop_first()[0].0 != k || entries.drop_first().len() == 0);
        lemma_obj_set_absent(entries.drop_first(), k, v);
        assert(obj_set(entries, k, v) =~= entries + seq![(k, v)]);
    }
}

/// A dotted lookup: each part selects a key of the object at hand.
pub open spec fn get_path(v: Vm, parts: Seq<Seq<char>>) -> Option<Vm>
    decreases parts.len(),
{
    if parts.len() == 0 {
        Some(v)
    } else {
        match v {
            Vm::Obj(entries) => match obj_get(entries, parts[0]) {
                Some(inner) => get_path(inner, parts.drop_first()),
                None => None,
            },
            _ => None,
        }
    }
}

// --- rendering values as text ------------------------------------------

/// A value as the text of one item: strings and number/boolean text;
/// nothing for null; arrays and objects have no item text.
pub open spec fn item_text(v: Vm) -> Option<Seq<char>> {
    match v {
        Vm::Null => Some(Seq::empty()),
        Vm::Bool(b) => Some(if b { "true"@ } else { "false"@ }),
        Vm::Int(i) => Some(crate::strings::int_str(i as int)),
        Vm::Uint(u) => Some(crate::strings::dec_str(u as nat)),
        Vm::Float(s) => Some(s),
        Vm::Str(s) => Some(s),
        Vm::Arr(_) => None,
        Vm::Obj(_) => None,
    }
}

impl Val {
    /// Renders the value as one item's text, when it has one.
    pub fn to_item_text(&self) -> (r: Option<String>)
        ensures
            match r {
                Some(s) => item_text(self.deep_view()) == Some(s@),
                None => item_text(self.deep_view()) is None,
            },
    {
        match self {
            Val::Null => Some(String::new()),
            Val::Bool(b) => {
                let r = if *b {
                    <String as vstd::string::StringExecFns>::from_str("true")
                } else {
                    <String as vstd::string::StringExecFns>::from_str("false")
                };
                Some(r)
            }
            Val::Int(i) => Some(crate::strings::i64_string(*i)),
            Val::Uint(u) => Some(crate::strings::u64_string(*u)),
            Val::Float(s) => Some(s.clone()),
            Val::Str(s) => Some(s.clone()),
            Val::Arr(_) => None,
            Val::Obj(_) => None,
        }
    }
}

} // verus!
