use vstd::prelude::*;

verus! {

use crate::value::{Val, Vm, val_of, kvals_of, obj_get, obj_set, lemma_obj_set_get,
    entries_get, entries_set};

/// Whether `name` may name a filesystem-backed variable: one or more
/// ASCII letters, digits or underscores.
pub open spec fn fs_name_ok(s: Seq<char>) -> bool {
    &&& s.len() > 0
    &&& forall|i: int| 0 <= i < s.len() ==> is_fs_name_char(#[trigger] s[i])
}

pub open spec fn is_fs_name_char(c: char) -> bool {
    ||| 'a' <= c && c <= 'z'
    ||| 'A' <= c && c <= 'Z'
    ||| '0' <= c && c <= '9'
    ||| c == '_'
}

/// Checks a filesystem-variable name.
pub fn check_fs_name(s: &str) -> (r: bool)
    ensures
        r == fs_name_ok(s@),
{
    let cs = crate::strings::str_chars(s);
    if cs.len() == 0 {
        return false;
    }
    let mut i: usize = 0;
    while i < cs.len()
        invariant
            i <= cs@.len(),
            cs@ == s@,
            forall|j: int| 0 <= j < i ==> is_fs_name_char(#[trigger] cs@[j]),
        decreases cs@.len() - i,
    {
        let c = cs[i];
        if !(('a' <= c && c <= 'z') || ('A' <= c && c <= 'Z') || ('0' <= c && c <= '9') || c
            == '_') {
            return false;
        }
        i += 1;
    }
    true
}

/// The store of filesystem-backed variables, modelled as a map from names
/// to values; the files on disk mirror it.
pub struct FsStore {
    pub entries: Vec<(String, Val)>,
}

impl FsStore {
    pub open spec fn view_obj(&self) -> Seq<(Seq<char>, Vm)> {
        kvals_of(self.entries@)
    }

    pub fn new() -> (r: FsStore)
        ensures
            r.view_obj() =~= Seq::<(Seq<char>, Vm)>::empty(),
    {
        FsStore { entries: Vec::new() }
    }

    /// Binds `name` to `value`.
    pub fn write(&mut self, name: String, value: Val)
        ensures
            final(self).view_obj() == obj_set(old(self).view_obj(), name@, val_of(value)),
    {
        entries_set(&mut self.entries, name, value);
    }

    /// The value bound to `name`.
    pub fn read<'a>(&'a self, name: &str) -> (r: Option<&'a Val>)
        ensures
            match r {
                Some(v) => obj_get(self.view_obj(), name@) == Some(v.deep_view()),
                None => obj_get(self.view_obj(), name@) is None,
            },
    {
        entries_get(&self.entries, name)
    }

    /// Whether `name` is bound.
    pub fn has(&self, name: &str) -> (r: bool)
        ensures
            r == (obj_get(self.view_obj(), name@) is Some),
    {
        match self.read(name) {
            Some(_) => true,
            None => false,
        }
    }
}

/// The round trip: writing a variable and reading it back yields the
/// written value, and no other variable moves.
pub proof fn lemma_fs_round_trip(store: FsStore, name: String, value: Val, other: Seq<char>)
    ensures
        obj_get(obj_set(store.view_obj(), name@, val_of(value)), name@) == Some(val_of(value)),
        other != name@ ==> obj_get(obj_set(store.view_obj(), name@, val_of(value)), other)
            == obj_get(store.view_obj(), other),
{
    lemma_obj_set_get(store.view_obj(), name@, val_of(value), other);
}


/// A handle to one filesystem-backed variable; only well-formed names can
/// be made into one.
pub struct FsVar {
    pub name: String,
}

impl FsVar {
    /// Accepts exactly the well-formed names.
    pub fn new(name: String) -> (r: Result<FsVar, crate::error::Error>)
        ensures
            r matches Ok(v) ==> fs_name_ok(name@) && v.name@ == name@,
            r is Err <==> !fs_name_ok(name@),
            r matches Err(e) ==> (e matches crate::error::Error::BadFsVar(n) && n@ == name@),
    {
        if check_fs_name(name.as_str()) {
            Ok(FsVar { name })
        } else {
            Err(crate::error::Error::BadFsVar(name))
        }
    }

    /// Whether the variable is bound in the store.
    pub fn is_bound(&self, store: &FsStore) -> (r: bool)
        ensures
            r == (obj_get(store.view_obj(), self.name@) is Some),
    {
        store.has(self.name.as_str())
    }
}
} // verus!
