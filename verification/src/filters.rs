use vstd::prelude::*;

verus! {

use crate::error::Error;
use crate::value::{Val, Vm, val_of, vals_of, lemma_vals_of, item_text};
use crate::strings::{str_chars, chars_string};
use crate::cmd::split_lines;
use crate::quote::quote_spec;
use crate::re::{valid_re, re_match, re_replacen, re_escaped, regex_match, regex_replacen,
    regex_escape};
use vstd::string::StrSliceExecFns;
use vstd::string::StringExecFns;

// --- path filters --------------------------------------------------------
//
// Paths are treated POSIX-style, as plain text: trailing slashes are
// ignored, the base name is what follows the last slash, the directory
// name is what precedes it.

pub open spec fn rstrip_slashes(s: Seq<char>) -> Seq<char>
    decreases s.len(),
{
    if s.len() > 0 && s.last() == '/' {
        rstrip_slashes(s.drop_last())
    } else {
        s
    }
}

/// Index after the last slash, or zero.
pub open spec fn after_last_slash(s: Seq<char>) -> int
    decreases s.len(),
{
    if s.len() == 0 {
        0
    } else if s.last() == '/' {
        s.len() as int
    } else {
        after_last_slash(s.drop_last())
    }
}

/// The base name of a path: the part after the last slash once trailing
/// slashes are dropped; nothing for an empty or all-slash path or one
/// ending in a parent reference.
pub open spec fn base_name(s: Seq<char>) -> Option<Seq<char>> {
    let t = rstrip_slashes(s);
    if t.len() == 0 {
        None
    } else {
        let comp = t.skip(after_last_slash(t));
        if comp =~= ".."@ {
            None
        } else {
            Some(comp)
        }
    }
}

/// The directory part of a path: what stands before the base name, with
/// its own trailing slashes dropped; the root stays the root.
pub open spec fn dir_name(s: Seq<char>) -> Option<Seq<char>> {
    let t = rstrip_slashes(s);
    if t.len() == 0 {
        None
    } else {
        let cut = after_last_slash(t);
        if cut == 0 {
            Some(Seq::empty())
        } else {
            let d = rstrip_slashes(t.take(cut));
            if d.len() == 0 {
                Some(seq!['/'])
            } else {
                Some(d)
            }
        }
    }
}

proof fn lemma_rstrip_bounds(s: Seq<char>)
    ensures
        rstrip_slashes(s).len() <= s.len(),
        rstrip_slashes(s) == s.take(rstrip_slashes(s).len() as int),
    decreases s.len(),
{
    if s.len() > 0 && s.last() == '/' {
        lemma_rstrip_bounds(s.drop_last());
        assert(s.drop_last() =~= s.take(s.len() - 1));
        assert(rstrip_slashes(s) =~= s.take(rstrip_slashes(s).len() as int));
    } else {
        assert(s.take(s.len() as int) =~= s);
    }
}

proof fn lemma_after_last_slash(s: Seq<char>)
    ensures
        0 <= after_last_slash(s) <= s.len(),
        forall|i: int| after_last_slash(s) <= i < s.len() ==> s[i] != '/',
        after_last_slash(s) > 0 ==> s[after_last_slash(s) - 1] == '/',
    decreases s.len(),
{
    if s.len() > 0 && s.last() != '/' {
        lemma_after_last_slash(s.drop_last());
        assert forall|i: int| after_last_slash(s) <= i < s.len() implies s[i] != '\u{2f}' by {
            if i < s.len() - 1 {
                assert(s.drop_last()[i] != '/');
            }
        }
    }
}

fn exec_rstrip_slashes(cs: &Vec<char>) -> (e: usize)
    ensures
        e <= cs@.len(),
        cs@.take(e as int) == rstrip_slashes(cs@),
{
    let mut e: usize = cs.len();
    proof {
        assert(cs@.take(cs@.len() as int) =~= cs@);
    }
    loop
        invariant
            e <= cs@.len(),
            rstrip_slashes(cs@) == rstrip_slashes(cs@.take(e as int)),
        decreases e,
    {
        if e == 0 {
            proof {
                assert(cs@.take(0) =~= Seq::<char>::empty());
            }
            return 0;
        }
        if cs[e - 1] != '/' {
            proof {
                assert(cs@.take(e as int).last() == cs@[e - 1]);
                assert(rstrip_slashes(cs@.take(e as int)) == cs@.take(e as int));
            }
            return e;
        }
        proof {
            assert(cs@.take(e as int).last() == '/');
            assert(cs@.take(e as int).drop_last() =~= cs@.take(e - 1));
        }
        e -= 1;
    }
}

fn exec_after_last_slash(cs: &Vec<char>, e: usize) -> (r: usize)
    requires
        e <= cs@.len(),
    ensures
        r == after_last_slash(cs@.take(e as int)),
        r <= e,
{
    let ghost t = cs@.take(e as int);
    let mut i: usize = e;
    proof {
        assert(t.take(e as int) =~= t);
        assert(after_last_slash(t) == after_last_slash(t.take(e as int)));
    }
    loop
        invariant
            i <= e <= cs@.len(),
            t == cs@.take(e as int),
            after_last_slash(t) == after_last_slash(t.take(i as int)) || (i < e && t[i as int]
                == '/'),
            i < e ==> (t[i as int] == '/' ==> after_last_slash(t) == i + 1),
            forall|j: int| i <= j < e ==> t[j] != '/',
        decreases i,
    {
        if i == 0 {
            proof {
                assert(t.take(0).len() == 0);
            }
            return 0;
        }
        if cs[i - 1] == '/' {
            proof {
                lemma_after_last_slash(t);
                assert(t[i - 1] == '/');
                if after_last_slash(t) < i {
                    assert(t[i - 1] != '/');
                }
                if after_last_slash(t) > i {
                    assert(t[after_last_slash(t) - 1] == '/');
                }
            }
            return i;
        }
        proof {
            assert(t.take(i as int).last() == t[i - 1]);
            assert(t.take(i as int).drop_last() =~= t.take(i - 1));
        }
        i -= 1;
    }
}

/// The `basename` filter: the final path component of a string, or the
/// string itself when it has none.
pub fn basename_filter(v: &Val) -> (r: Result<Val, Error>)
    ensures
        match r {
            Ok(out) => v.deep_view() matches Vm::Str(s) && out.deep_view() == Vm::Str(
                match base_name(s) {
                    Some(b) => b,
                    None => s,
                },
            ),
            Err(e) => !(v.deep_view() is Str) && e matches Error::WrongValueType,
        },
{
    let s = match v {
        Val::Str(s) => s,
        _ => {
            return Err(Error::WrongValueType);
        }
    };
    let cs = str_chars(s.as_str());
    let e = exec_rstrip_slashes(&cs);
    proof {
        lemma_rstrip_bounds(cs@);
    }
    if e == 0 {
        return Ok(Val::Str(s.clone()));
    }
    let cut = exec_after_last_slash(&cs, e);
    let comp = crate::vars::copy_range(&cs, cut, e);
    proof {
        assert(comp@ =~= rstrip_slashes(cs@).skip(after_last_slash(rstrip_slashes(cs@))));
    }
    let clen = comp.as_str().unicode_len();
    let mut is_dotdot = false;
    if clen == 2 {
        let c0 = comp.as_str().get_char(0);
        let c1 = comp.as_str().get_char(1);
        is_dotdot = c0 == '.' && c1 == '.';
    }
    proof {
        reveal_strlit("..");
        assert(".."@.len() == 2);
        if comp@.len() == 2 && comp@[0] == '.' && comp@[1] == '.' {
            assert(comp@ =~= ".."@);
        }
        if comp@ =~= ".."@ {
            assert(comp@.len() == 2 && comp@[0] == '.' && comp@[1] == '.');
        }
    }
    if is_dotdot {
        return Ok(Val::Str(s.clone()));
    }
    Ok(Val::Str(comp))
}

/// The `dirname` filter: the directory part of a string path, or the
/// string itself when it has none.
pub fn dirname_filter(v: &Val) -> (r: Result<Val, Error>)
    ensures
        match r {
            Ok(out) => v.deep_view() matches Vm::Str(s) && out.deep_view() == Vm::Str(
                match dir_name(s) {
                    Some(d) => d,
                    None => s,
                },
            ),
            Err(e) => !(v.deep_view() is Str) && e matches Error::WrongValueType,
        },
{
    let s = match v {
        Val::Str(s) => s,
        _ => {
            return Err(Error::WrongValueType);
        }
    };
    let cs = str_chars(s.as_str());
    let e = exec_rstrip_slashes(&cs);
    proof {
        lemma_rstrip_bounds(cs@);
    }
    if e == 0 {
        return Ok(Val::Str(s.clone()));
    }
    let cut = exec_after_last_slash(&cs, e);
    if cut == 0 {
        return Ok(Val::Str(String::new()));
    }
    let head = crate::vars::copy_range(&cs, 0, cut);
    let hcs = str_chars(head.as_str());
    proof {
        assert(hcs@ =~= rstrip_slashes(cs@).take(after_last_slash(rstrip_slashes(cs@))));
    }
    let e2 = exec_rstrip_slashes(&hcs);
    proof {
        lemma_rstrip_bounds(hcs@);
    }
    if e2 == 0 {
        let mut root: Vec<char> = Vec::new();
        root.push('/');
        proof {
            assert(root@ =~= seq!['/']);
        }
        return Ok(Val::Str(chars_string(&root)));
    }
    let d = crate::vars::copy_range(&hcs, 0, e2);
    Ok(Val::Str(d))
}

// --- plain filters -------------------------------------------------------

/// The `cond` filter: a boolean selects the `if` or `else` argument, the
/// empty string standing in for a missing one.
pub fn cond_filter(v: &Val, if_arg: Option<&Val>, else_arg: Option<&Val>) -> (r: Result<
    Val,
    Error,
>)
    ensures
        match r {
            Ok(out) => v.deep_view() matches Vm::Bool(b) && out.deep_view() == (if b {
                match if_arg {
                    Some(a) => a.deep_view(),
                    None => Vm::Str(Seq::empty()),
                }
            } else {
                match else_arg {
                    Some(a) => a.deep_view(),
                    None => Vm::Str(Seq::empty()),
                }
            }),
            Err(e) => !(v.deep_view() is Bool) && e matches Error::WrongValueType,
        },
{
    let b = match v {
        Val::Bool(b) => *b,
        _ => {
            return Err(Error::WrongValueType);
        }
    };
    let chosen = if b {
        if_arg
    } else {
        else_arg
    };
    match chosen {
        Some(a) => Ok(a.dup()),
        None => Ok(Val::Str(String::new())),
    }
}

/// The `is_empty` filter: whether an array, object or string has no
/// members.
pub fn is_empty_filter(v: &Val) -> (r: Result<Val, Error>)
    ensures
        match r {
            Ok(out) => match v.deep_view() {
                Vm::Arr(a) => out.deep_view() == Vm::Bool(a.len() == 0),
                Vm::Obj(o) => out.deep_view() == Vm::Bool(o.len() == 0),
                Vm::Str(s) => out.deep_view() == Vm::Bool(s.len() == 0),
                _ => false,
            },
            Err(e) => (!(v.deep_view() is Arr) && !(v.deep_view() is Obj) && !(v.deep_view()
                is Str)) && e matches Error::WrongValueType,
        },
{
    match v {
        Val::Arr(a) => {
            proof {
                lemma_vals_of(a@);
            }
            Ok(Val::Bool(a.len() == 0))
        }
        Val::Obj(o) => {
            proof {
                crate::value::lemma_kvals_of(o@);
            }
            Ok(Val::Bool(o.len() == 0))
        }
        Val::Str(s) => Ok(Val::Bool(s.as_str().unicode_len() == 0)),
        _ => Err(Error::WrongValueType),
    }
}

/// The `lines` filter: a string split into an array of its lines.
pub fn lines_filter(v: &Val) -> (r: Result<Val, Error>)
    ensures
        match r {
            Ok(out) => v.deep_view() matches Vm::Str(s) && out.deep_view() == Vm::Arr(
                Seq::new(split_lines(s).len(), |i: int| Vm::Str(split_lines(s)[i])),
            ),
            Err(e) => !(v.deep_view() is Str) && e matches Error::WrongValueType,
        },
{
    let s = match v {
        Val::Str(s) => s,
        _ => {
            return Err(Error::WrongValueType);
        }
    };
    let pieces = crate::cmd::lines_of(s.as_str());
    let mut arr: Vec<Val> = Vec::new();
    let mut i: usize = 0;
    while i < pieces.len()
        invariant
            i <= pieces@.len(),
            arr@.len() == i,
            forall|j: int| 0 <= j < i ==> arr@[j].deep_view() == Vm::Str(pieces@[j]@),
        decreases pieces@.len() - i,
    {
        let piece = str_chars(pieces[i].as_str());
        arr.push(Val::Str(chars_string(&piece)));
        i += 1;
    }
    let r = Val::Arr(arr);
    proof {
        lemma_vals_of(arr@);
        let target = split_lines(s@);
        assert(crate::tsort::vviews(pieces@) == target);
        assert forall|j: int| 0 <= j < target.len() implies vals_of(arr@)[j] == Vm::Str(
            target[j],
        ) by {
            assert(crate::tsort::vviews(pieces@)[j] == pieces@[j]@);
        }
        assert(vals_of(arr@) =~= Seq::new(target.len(), |i: int| Vm::Str(target[i])));
    }
    Ok(r)
}

/// The text a scalar is quoted from: its item text; arrays and objects
/// and null have none here.
pub open spec fn scalar_text(v: Vm) -> Option<Seq<char>> {
    match v {
        Vm::Bool(_) | Vm::Int(_) | Vm::Uint(_) | Vm::Float(_) | Vm::Str(_) => item_text(v),
        _ => None,
    }
}

fn quote_scalar(v: &Val) -> (r: Result<String, Error>)
    ensures
        match r {
            Ok(s) => scalar_text(v.deep_view()) matches Some(t) && s@ == quote_spec(t),
            Err(e) => scalar_text(v.deep_view()) is None && e matches Error::WrongValueType,
        },
{
    match v {
        Val::Bool(_) | Val::Int(_) | Val::Uint(_) | Val::Float(_) | Val::Str(_) => {
            let text = v.to_item_text().unwrap();
            Ok(crate::quote::quote(text.as_str()))
        }
        _ => Err(Error::WrongValueType),
    }
}

/// The quoted elements of `a` joined by `sep`.
pub open spec fn quote_join(a: Seq<Vm>, sep: Seq<char>) -> Seq<char>
    decreases a.len(),
{
    if a.len() == 0 {
        Seq::empty()
    } else if a.len() == 1 {
        quote_spec(scalar_text(a[0]).unwrap())
    } else {
        quote_join(a.drop_last(), sep) + sep + quote_spec(scalar_text(a.last()).unwrap())
    }
}

/// The `quote` filter: shell-quotes a scalar, or each element of an array
/// of scalars joined by the separator.
pub fn quote_filter(v: &Val, sep: &str) -> (r: Result<Val, Error>)
    ensures
        r is Ok <==> (match v.deep_view() {
            Vm::Arr(a) => forall|i: int| 0 <= i < a.len() ==> scalar_text(#[trigger] a[i])
                is Some,
            other => scalar_text(other) is Some,
        }),
        match r {
            Ok(out) => match v.deep_view() {
                Vm::Arr(a) => (forall|i: int| 0 <= i < a.len() ==> scalar_text(#[trigger] a[i])
                    is Some) && out.deep_view() == Vm::Str(quote_join(a, sep@)),
                other => scalar_text(other) matches Some(t) && out.deep_view() == Vm::Str(
                    quote_spec(t),
                ),
            },
            Err(e) => e matches Error::WrongValueType,
        },
{
    match v {
        Val::Arr(a) => {
            proof {
                lemma_vals_of(a@);
            }
            let mut out = String::new();
            let mut i: usize = 0;
            while i < a.len()
                invariant
                    i <= a@.len(),
                    v.deep_view() == Vm::Arr(vals_of(a@)),
                    vals_of(a@).len() == a@.len(),
                    forall|j: int| 0 <= j < a@.len() ==> #[trigger] vals_of(a@)[j] == val_of(
                        a@[j],
                    ),
                    forall|j: int| 0 <= j < i ==> scalar_text(#[trigger] vals_of(a@)[j]) is Some,
                    out@ == quote_join(vals_of(a@).take(i as int), sep@),
                decreases a@.len() - i,
            {
                let q = match quote_scalar(&a[i]) {
                    Ok(q) => q,
                    Err(e) => {
                        proof {
                            assert(scalar_text(vals_of(a@)[i as int]) is None);
                        }
                        return Err(e);
                    }
                };
                if i > 0 {
                    out.append(sep);
                }
                out.append(q.as_str());
                proof {
                    let pfx = vals_of(a@).take(i + 1);
                    assert(pfx.drop_last() =~= vals_of(a@).take(i as int));
                    assert(pfx.last() == vals_of(a@)[i as int]);
                    if i > 0 {
                        assert(out@ =~= quote_join(pfx.drop_last(), sep@) + sep@ + quote_spec(
                            scalar_text(pfx.last()).unwrap(),
                        ));
                    }
                }
                i += 1;
            }
            proof {
                assert(vals_of(a@).take(a@.len() as int) =~= vals_of(a@));
            }
            Ok(Val::Str(out))
        }
        _ => {
            let q = quote_scalar(v)?;
            Ok(Val::Str(q))
        }
    }
}

// --- regular-expression filters -------------------------------------------

/// The pattern a regex filter uses: escaped literally under `fix`.
pub open spec fn effective_re(re: Seq<char>, fix: bool) -> Seq<char> {
    if fix {
        re_escaped(re)
    } else {
        re
    }
}

fn scalar_text_of(v: &Val) -> (r: Option<String>)
    ensures
        match r {
            Some(s) => scalar_text(v.deep_view()) == Some(s@),
            None => scalar_text(v.deep_view()) is None,
        },
{
    match v {
        Val::Bool(_) | Val::Int(_) | Val::Uint(_) | Val::Float(_) | Val::Str(_) => {
            v.to_item_text()
        }
        _ => None,
    }
}

/// Builds the effective pattern and checks that it compiles.
fn build_pattern(re: &str, fix: bool) -> (r: Result<String, Error>)
    ensures
        match r {
            Ok(p) => p@ == effective_re(re@, fix) && valid_re(p@),
            Err(e) => !valid_re(effective_re(re@, fix)) && e matches Error::BadRegex(_),
        },
{
    let pattern = if fix {
        regex_escape(re)
    } else {
        let cs = str_chars(re);
        chars_string(&cs)
    };
    match regex_match(pattern.as_str(), "") {
        Some(_) => Ok(pattern),
        None => Err(Error::BadRegex(pattern)),
    }
}

/// The `re_match` filter on a scalar: whether the pattern matches its
/// text.
pub fn re_match_scalar(v: &Val, re: &str, fix: bool) -> (r: Result<Val, Error>)
    ensures
        r is Ok <==> (valid_re(effective_re(re@, fix)) && scalar_text(v.deep_view()) is Some),
        match r {
            Ok(out) => scalar_text(v.deep_view()) matches Some(t) && valid_re(
                effective_re(re@, fix),
            ) && out.deep_view() == Vm::Bool(re_match(effective_re(re@, fix), t)),
            Err(e) => (e is BadRegex ==> !valid_re(effective_re(re@, fix))) && (e
                is WrongValueType ==> scalar_text(v.deep_view()) is None) && (e is BadRegex || e
                is WrongValueType),
        },
{
    let pattern = build_pattern(re, fix)?;
    let text = match scalar_text_of(v) {
        Some(t) => t,
        None => {
            return Err(Error::WrongValueType);
        }
    };
    match regex_match(pattern.as_str(), text.as_str()) {
        Some(b) => Ok(Val::Bool(b)),
        None => Err(Error::BadRegex(pattern)),
    }
}

/// The elements of `a` whose text the pattern matches, kept in order.
pub open spec fn re_kept(a: Seq<Vm>, p: Seq<char>) -> Seq<Vm>
    decreases a.len(),
{
    if a.len() == 0 {
        Seq::empty()
    } else {
        re_kept(a.drop_last(), p) + if scalar_text(a.last()) matches Some(t) && re_match(p, t) {
            seq![a.last()]
        } else {
            Seq::empty()
        }
    }
}

/// The `re_match` filter on an array: keeps the elements whose text the
/// pattern matches.
pub fn re_match_array(a: &Vec<Val>, re: &str, fix: bool) -> (r: Result<Val, Error>)
    ensures
        r is Ok <==> (valid_re(effective_re(re@, fix)) && forall|i: int|
            0 <= i < a@.len() ==> scalar_text(#[trigger] vals_of(a@)[i]) is Some),
        match r {
            Ok(out) => valid_re(effective_re(re@, fix)) && (forall|i: int|
                0 <= i < a@.len() ==> scalar_text(#[trigger] vals_of(a@)[i]) is Some)
                && out.deep_view() == Vm::Arr(re_kept(vals_of(a@), effective_re(re@, fix))),
            Err(e) => (e is BadRegex ==> !valid_re(effective_re(re@, fix))) && (e
                is WrongValueType ==> exists|i: int|
                0 <= i < a@.len() && scalar_text(#[trigger] vals_of(a@)[i]) is None) && (e
                is BadRegex || e is WrongValueType),
        },
{
    let pattern = build_pattern(re, fix)?;
    let ghost p = effective_re(re@, fix);
    let mut out: Vec<Val> = Vec::new();
    let mut i: usize = 0;
    proof {
        lemma_vals_of(a@);
    }
    while i < a.len()
        invariant
            i <= a@.len(),
            vals_of(a@).len() == a@.len(),
            forall|j: int| 0 <= j < a@.len() ==> #[trigger] vals_of(a@)[j] == val_of(a@[j]),
            forall|j: int| 0 <= j < i ==> scalar_text(#[trigger] vals_of(a@)[j]) is Some,
            vals_of(out@) =~= re_kept(vals_of(a@).take(i as int), p),
            pattern@ == p,
            valid_re(p),
        decreases a@.len() - i,
    {
        let text = match scalar_text_of(&a[i]) {
            Some(t) => t,
            None => {
                proof {
                    assert(scalar_text(vals_of(a@)[i as int]) is None);
                }
                return Err(Error::WrongValueType);
            }
        };
        let matched = match regex_match(pattern.as_str(), text.as_str()) {
            Some(b) => b,
            None => {
                return Err(Error::BadRegex(pattern));
            }
        };
        let ghost pre = out@;
        if matched {
            let e = a[i].dup();
            out.push(e);
        }
        proof {
            let pfx = vals_of(a@).take(i + 1);
            assert(pfx.drop_last() =~= vals_of(a@).take(i as int));
            assert(pfx.last() == vals_of(a@)[i as int]);
            lemma_vals_of(out@);
            lemma_vals_of(pre);
            if matched {
                assert(vals_of(out@) =~= vals_of(pre).push(val_of(a@[i as int])));
            }
        }
        i += 1;
    }
    proof {
        assert(vals_of(a@).take(a@.len() as int) =~= vals_of(a@));
    }
    Ok(Val::Arr(out))
}

/// The `re_sub` substitution of one scalar's text.
pub fn re_sub_scalar(v: &Val, re: &str, rep: &str, n: usize, fix: bool) -> (r: Result<
    Val,
    Error,
>)
    ensures
        r is Ok <==> (valid_re(effective_re(re@, fix)) && scalar_text(v.deep_view()) is Some),
        match r {
            Ok(out) => scalar_text(v.deep_view()) matches Some(t) && valid_re(
                effective_re(re@, fix),
            ) && out.deep_view() == Vm::Str(
                re_replacen(effective_re(re@, fix), t, n as nat, rep@),
            ),
            Err(e) => (e is BadRegex ==> !valid_re(effective_re(re@, fix))) && (e
                is WrongValueType ==> scalar_text(v.deep_view()) is None) && (e is BadRegex || e
                is WrongValueType),
        },
{
    let pattern = build_pattern(re, fix)?;
    let text = match scalar_text_of(v) {
        Some(t) => t,
        None => {
            return Err(Error::WrongValueType);
        }
    };
    match regex_replacen(pattern.as_str(), text.as_str(), n, rep) {
        Some(s) => Ok(Val::Str(s)),
        None => Err(Error::BadRegex(pattern)),
    }
}

/// Each element's text substituted; under `matches_only`, elements the
/// pattern does not match are dropped.
pub open spec fn re_subbed(
    a: Seq<Vm>,
    p: Seq<char>,
    n: nat,
    rep: Seq<char>,
    matches_only: bool,
) -> Seq<Vm>
    decreases a.len(),
{
    if a.len() == 0 {
        Seq::empty()
    } else {
        re_subbed(a.drop_last(), p, n, rep, matches_only) + {
            let t = scalar_text(a.last()).unwrap();
            if !matches_only || re_match(p, t) {
                seq![Vm::Str(re_replacen(p, t, n, rep))]
            } else {
                Seq::empty()
            }
        }
    }
}

/// The `re_sub` filter on an array.
pub fn re_sub_array(
    a: &Vec<Val>,
    re: &str,
    rep: &str,
    n: usize,
    fix: bool,
    matches_only: bool,
) -> (r: Result<Val, Error>)
    ensures
        r is Ok <==> (valid_re(effective_re(re@, fix)) && forall|i: int|
            0 <= i < a@.len() ==> scalar_text(#[trigger] vals_of(a@)[i]) is Some),
        match r {
            Ok(out) => valid_re(effective_re(re@, fix)) && (forall|i: int|
                0 <= i < a@.len() ==> scalar_text(#[trigger] vals_of(a@)[i]) is Some)
                && out.deep_view() == Vm::Arr(
                re_subbed(vals_of(a@), effective_re(re@, fix), n as nat, rep@, matches_only),
            ),
            Err(e) => (e is BadRegex ==> !valid_re(effective_re(re@, fix))) && (e
                is WrongValueType ==> exists|i: int|
                0 <= i < a@.len() && scalar_text(#[trigger] vals_of(a@)[i]) is None) && (e
                is BadRegex || e is WrongValueType),
        },
{
    let pattern = build_pattern(re, fix)?;
    let ghost p = effective_re(re@, fix);
    let mut out: Vec<Val> = Vec::new();
    let mut i: usize = 0;
    proof {
        lemma_vals_of(a@);
    }
    while i < a.len()
        invariant
            i <= a@.len(),
            vals_of(a@).len() == a@.len(),
            forall|j: int| 0 <= j < a@.len() ==> #[trigger] vals_of(a@)[j] == val_of(a@[j]),
            forall|j: int| 0 <= j < i ==> scalar_text(#[trigger] vals_of(a@)[j]) is Some,
            vals_of(out@) =~= re_subbed(vals_of(a@).take(i as int), p, n as nat, rep@,
                matches_only),
            pattern@ == p,
            valid_re(p),
        decreases a@.len() - i,
    {
        let text = match scalar_text_of(&a[i]) {
            Some(t) => t,
            None => {
                proof {
                    assert(scalar_text(vals_of(a@)[i as int]) is None);
                }
                return Err(Error::WrongValueType);
            }
        };
        let replaced = match regex_replacen(pattern.as_str(), text.as_str(), n, rep) {
            Some(s) => s,
            None => {
                return Err(Error::BadRegex(pattern));
            }
        };
        let keep = if matches_only {
            match regex_match(pattern.as_str(), text.as_str()) {
                Some(b) => b,
                None => {
                    return Err(Error::BadRegex(pattern));
                }
            }
        } else {
            true
        };
        let ghost pre = out@;
        if keep {
            out.push(Val::Str(replaced));
        }
        proof {
            let pfx = vals_of(a@).take(i + 1);
            assert(pfx.drop_last() =~= vals_of(a@).take(i as int));
            assert(pfx.last() == vals_of(a@)[i as int]);
            lemma_vals_of(out@);
            lemma_vals_of(pre);
            if keep {
                assert(vals_of(out@) =~= vals_of(pre).push(
                    Vm::Str(re_replacen(p, scalar_text(pfx.last()).unwrap(), n as nat, rep@)),
                ));
            }
        }
        i += 1;
    }
    proof {
        assert(vals_of(a@).take(a@.len() as int) =~= vals_of(a@));
    }
    Ok(Val::Arr(out))
}


/// The base name of a path, when it has one.
pub fn path_basename(s: &str) -> (r: Option<String>)
    ensures
        match r {
            Some(b) => base_name(s@) == Some(b@),
            None => base_name(s@) is None,
        },
{
    let cs = str_chars(s);
    let e = exec_rstrip_slashes(&cs);
    proof {
        lemma_rstrip_bounds(cs@);
    }
    if e == 0 {
        return None;
    }
    let cut = exec_after_last_slash(&cs, e);
    let comp = crate::vars::copy_range(&cs, cut, e);
    proof {
        assert(comp@ =~= rstrip_slashes(cs@).skip(after_last_slash(rstrip_slashes(cs@))));
    }
    let clen = comp.as_str().unicode_len();
    let mut is_dotdot = false;
    if clen == 2 {
        let c0 = comp.as_str().get_char(0);
        let c1 = comp.as_str().get_char(1);
        is_dotdot = c0 == '.' && c1 == '.';
    }
    proof {
        reveal_strlit("..");
        assert(".."@.len() == 2);
        if comp@.len() == 2 && comp@[0] == '.' && comp@[1] == '.' {
            assert(comp@ =~= ".."@);
        }
        if comp@ =~= ".."@ {
            assert(comp@.len() == 2 && comp@[0] == '.' && comp@[1] == '.');
        }
    }
    if is_dotdot {
        return None;
    }
    Some(comp)
}

// --- the host_cmd template function ---------------------------------------

/// The argument vector a `host_cmd` call runs: a string is handed to the
/// shell, an array of strings is the vector itself; anything else is no
/// command.
pub open spec fn host_cmd_argv_spec(cmd: Vm) -> Option<Seq<Seq<char>>> {
    match cmd {
        Vm::Str(s) => Some(seq!["sh"@, "-c"@, s]),
        Vm::Arr(a) => if forall|i: int| 0 <= i < a.len() ==> (#[trigger] a[i]) is Str {
            Some(Seq::new(a.len(), |i: int| a[i]->Str_0))
        } else {
            None
        },
        _ => None,
    }
}

/// Builds the argument vector of a `host_cmd` call.
pub fn host_cmd_argv(cmd: &Val) -> (r: Result<Vec<String>, Error>)
    ensures
        match r {
            Ok(argv) => host_cmd_argv_spec(cmd.deep_view()) == Some(
                crate::tsort::vviews(argv@),
            ),
            Err(e) => host_cmd_argv_spec(cmd.deep_view()) is None && e matches
                Error::WrongArgumentType(_),
        },
{
    match cmd {
        Val::Str(s) => {
            let mut argv: Vec<String> = Vec::new();
            argv.push("sh".to_owned());
            argv.push("-c".to_owned());
            argv.push(s.clone());
            proof {
                reveal_strlit("sh");
                reveal_strlit("-c");
                assert(crate::tsort::vviews(argv@) =~= seq!["sh"@, "-c"@, s@]);
            }
            Ok(argv)
        }
        Val::Arr(a) => {
            let mut argv: Vec<String> = Vec::new();
            let mut i: usize = 0;
            proof {
                lemma_vals_of(a@);
            }
            while i < a.len()
                invariant
                    i <= a@.len(),
                    cmd.deep_view() == Vm::Arr(vals_of(a@)),
                    vals_of(a@).len() == a@.len(),
                    forall|j: int| 0 <= j < a@.len() ==> #[trigger] vals_of(a@)[j] == val_of(
                        a@[j],
                    ),
                    argv@.len() == i,
                    forall|j: int| 0 <= j < i ==> (#[trigger] vals_of(a@)[j]) is Str
                        && argv@[j]@ == vals_of(a@)[j]->Str_0,
                decreases a@.len() - i,
            {
                match &a[i] {
                    Val::Str(s) => {
                        argv.push(s.clone());
                    }
                    _ => {
                        proof {
                            assert(!((vals_of(a@)[i as int]) is Str));
                        }
                        return Err(Error::WrongArgumentType("cmd".to_owned()));
                    }
                }
                i += 1;
            }
            proof {
                assert(crate::tsort::vviews(argv@) =~= Seq::new(
                    vals_of(a@).len(),
                    |i: int| vals_of(a@)[i]->Str_0,
                ));
            }
            Ok(argv)
        }
        _ => Err(Error::WrongArgumentType("cmd".to_owned())),
    }
}

/// Shapes a finished `host_cmd`: under `check` a non-zero exit fails,
/// else the chosen captured stream is returned with its trailing
/// whitespace stripped.
pub fn host_cmd_capture(
    out: &crate::effects::RawOut,
    capture_stdout: bool,
    check: bool,
) -> (r: Result<String, Error>)
    ensures
        match r {
            Ok(text) => (!check || out.code == Some(0i32)) && text@ == crate::cmd::strip_end(
                if capture_stdout {
                    out.stdout@
                } else {
                    out.stderr@
                },
            ),
            Err(_) => check && out.code != Some(0i32),
        },
{
    if check {
        match out.code {
            Some(0) => {},
            _ => {
                return Err(Error::CommandFailedExitCode("host_cmd".to_owned()));
            }
        }
    }
    let text = if capture_stdout {
        crate::cmd::strip_end_exec(out.stdout.as_str())
    } else {
        crate::cmd::strip_end_exec(out.stderr.as_str())
    };
    Ok(text)
}
} // verus!
