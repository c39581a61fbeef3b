use vstd::prelude::*;

verus! {

use crate::value::{Val, Vm, val_of, kvals_of, obj_get, obj_set, get_path, entries_get,
    entries_set, lemma_kvals_of};
use crate::strings::{split_sep, split_sep_exec};
use crate::tsort::vviews;

/// The template substitution environment: an insertion-ordered object of
/// named values, cloned per task so that mutations never escape upward.
pub struct Context {
    pub entries: Vec<(String, Val)>,
}

impl Context {
    /// The entries as a model object.
    pub open spec fn view_obj(&self) -> Seq<(Seq<char>, Vm)> {
        kvals_of(self.entries@)
    }

    pub fn new() -> (r: Context)
        ensures
            r.view_obj() =~= Seq::<(Seq<char>, Vm)>::empty(),
    {
        Context { entries: Vec::new() }
    }

    /// Binds `k` to `v`, replacing any earlier binding in place.
    pub fn insert(&mut self, k: String, v: Val)
        ensures
            final(self).view_obj() == obj_set(old(self).view_obj(), k@, val_of(v)),
    {
        entries_set(&mut self.entries, k, v);
    }

    /// The value bound to `k`.
    pub fn get<'a>(&'a self, k: &str) -> (r: Option<&'a Val>)
        ensures
            match r {
                Some(v) => obj_get(self.view_obj(), k@) == Some(v.deep_view()),
                None => obj_get(self.view_obj(), k@) is None,
            },
    {
        entries_get(&self.entries, k)
    }

    /// A deep copy.
    pub fn dup(&self) -> (r: Context)
        ensures
            r.view_obj() == self.view_obj(),
    {
        let v = Val::Obj(crate::value::dup_entries(&self.entries));
        match v {
            Val::Obj(entries) => Context { entries },
            _ => Context { entries: Vec::new() },
        }
    }

    /// Binds every entry of `other`, in order, over this context.
    pub fn extend_from(&mut self, other: &Context)
        ensures
            final(self).view_obj() == ctx_extend(old(self).view_obj(), other.view_obj()),
    {
        let ghost target = ctx_extend(old(self).view_obj(), other.view_obj());
        let mut i: usize = 0;
        proof {
            lemma_kvals_of(other.entries@);
            assert(other.view_obj().take(0) =~= Seq::<(Seq<char>, Vm)>::empty());
        }
        while i < other.entries.len()
            invariant
                i <= other.entries@.len(),
                other.view_obj().len() == other.entries@.len(),
                forall|j: int| 0 <= j < other.entries@.len() ==> #[trigger] other.view_obj()[j]
                    == (other.entries@[j].0@, val_of(other.entries@[j].1)),
                self.view_obj() == ctx_extend(
                    old(self).view_obj(),
                    other.view_obj().take(i as int),
                ),
            decreases other.entries@.len() - i,
        {
            let k = other.entries[i].0.clone();
            let v = other.entries[i].1.dup();
            let ghost gk = k@;
            let ghost gv = val_of(v);
            let ghost pre = self.view_obj();
            self.insert(k, v);
            proof {
                let pfx = other.view_obj().take(i + 1);
                assert(pfx.drop_last() =~= other.view_obj().take(i as int));
                assert(pfx.last() == (gk, gv));
                lemma_ctx_extend_snoc(old(self).view_obj(), other.view_obj().take(i as int), gk, gv);
            }
            i += 1;
        }
        proof {
            assert(other.view_obj().take(other.view_obj().len() as int) =~= other.view_obj());
        }
    }

    /// The whole context as one object value.
    pub fn to_value(&self) -> (r: Val)
        ensures
            r.deep_view() == Vm::Obj(self.view_obj()),
    {
        Val::Obj(crate::value::dup_entries(&self.entries))
    }

    /// A dotted lookup: `a.b.c` descends through nested objects.
    pub fn get_dotted(&self, name: &str) -> (r: Option<Val>)
        ensures
            match r {
                Some(v) => get_path(Vm::Obj(self.view_obj()), split_sep(name@, '.')) == Some(
                    v.deep_view(),
                ),
                None => get_path(Vm::Obj(self.view_obj()), split_sep(name@, '.')) is None,
            },
    {
        let parts = split_sep_exec(name, '.');
        let whole = self.to_value();
        let mut cur: &Val = &whole;
        let mut i: usize = 0;
        proof {
            assert(split_sep(name@, '.').skip(0) =~= split_sep(name@, '.'));
        }
        while i < parts.len()
            invariant
                i <= parts@.len(),
                vviews(parts@) == split_sep(name@, '.'),
                get_path(Vm::Obj(self.view_obj()), split_sep(name@, '.')) == get_path(
                    cur.deep_view(),
                    split_sep(name@, '.').skip(i as int),
                ),
            decreases parts@.len() - i,
        {
            proof {
                assert(split_sep(name@, '.').skip(i as int)[0] == vviews(parts@)[i as int]);
                assert(split_sep(name@, '.').skip(i as int).drop_first() =~= split_sep(
                    name@,
                    '.',
                ).skip(i + 1));
            }
            match cur {
                Val::Obj(entries) => {
                    match entries_get(entries, parts[i].as_str()) {
                        Some(inner) => {
                            cur = inner;
                        }
                        None => {
                            return None;
                        }
                    }
                }
                _ => {
                    return None;
                }
            }
            i += 1;
        }
        proof {
            assert(split_sep(name@, '.').skip(parts@.len() as int).len() == 0);
        }
        Some(cur.dup())
    }
}

/// `base` with every entry of `exts` bound over it, in order.
pub open spec fn ctx_extend(
    base: Seq<(Seq<char>, Vm)>,
    exts: Seq<(Seq<char>, Vm)>,
) -> Seq<(Seq<char>, Vm)>
    decreases exts.len(),
{
    if exts.len() == 0 {
        base
    } else {
        obj_set(ctx_extend(base, exts.drop_last()), exts.last().0, exts.last().1)
    }
}

proof fn lemma_ctx_extend_snoc(
    base: Seq<(Seq<char>, Vm)>,
    exts: Seq<(Seq<char>, Vm)>,
    k: Seq<char>,
    v: Vm,
)
    ensures
        ctx_extend(base, exts.push((k, v))) == obj_set(ctx_extend(base, exts), k, v),
{
    let e2 = exts.push((k, v));
    assert(e2.drop_last() =~= exts);
    assert(e2.last() == (k, v));
}

} // verus!
