use vstd::prelude::*;

verus! {

use vstd::string::StrSliceExecFns;
use vstd::string::StringExecFns;

/// Whether `s` starts with the characters of `p`.
pub open spec fn starts_with(s: Seq<char>, p: Seq<char>) -> bool {
    s.len() >= p.len() && s.take(p.len() as int) == p
}

fn exec_starts_with(s: &str, p: &str) -> (r: bool)
    ensures
        r == starts_with(s@, p@),
{
    let n = p.unicode_len();
    if s.unicode_len() < n {
        return false;
    }
    let mut i: usize = 0;
    while i < n
        invariant
            n == p@.len(),
            n <= s@.len(),
            i <= n,
            forall|j: int| 0 <= j < i ==> s@[j] == p@[j],
        decreases n - i,
    {
        if s.get_char(i) != p.get_char(i) {
            proof {
                assert(s@.take(p@.len() as int)[i as int] != p@[i as int]);
            }
            return false;
        }
        i += 1;
    }
    proof {
        assert(s@.take(p@.len() as int) =~= p@);
    }
    true
}

/// `dir` and `rest` joined by one slash.
pub fn join_dir(dir: &str, rest: &str) -> (r: String)
    ensures
        r@ == dir@ + seq!['/'] + rest@,
{
    let mut out = dir.to_owned();
    out.push('/');
    out.append(rest);
    proof {
        assert(out@ =~= dir@ + seq!['/'] + rest@);
    }
    out
}

/// Where a module reference resolves: an absolute path stands as it is, a
/// reference into the current or parent directory is taken from the
/// caller's directory, and anything else names a module under the
/// configuration directory with the manifest extension added.
pub open spec fn resolve_spec(module: Seq<char>, dir: Seq<char>, config_dir: Seq<char>) -> Seq<
    char,
> {
    if starts_with(module, seq!['/']) {
        module
    } else if starts_with(module, "./"@) || starts_with(module, "../"@) || module == "."@ || module
        == ".."@ {
        dir + seq!['/'] + module
    } else {
        config_dir + "/modules/"@ + module + ".toml"@
    }
}

/// Resolves a module reference as `resolve_spec` says.
pub fn resolve(module: &str, dir: &str, config_dir: &str) -> (r: String)
    ensures
        r@ == resolve_spec(module@, dir@, config_dir@),
{
    proof {
        reveal_strlit("/");
        reveal_strlit("./");
        reveal_strlit("../");
        reveal_strlit(".");
        reveal_strlit("..");
        reveal_strlit("/modules/");
        reveal_strlit("modules");
        reveal_strlit(".toml");
    }
    if exec_starts_with(module, "/") {
        proof {
            assert("/"@ =~= seq!['/']);
        }
        return module.to_owned();
    }
    proof {
        if starts_with(module@, seq!['/']) {
            assert(module@.take(1) =~= "/"@);
        }
    }
    if exec_starts_with(module, "./") || exec_starts_with(module, "../") || str_is(module, ".")
        || str_is(module, "..") {
        let r = join_dir(dir, module);
        proof {
            assert(r@ =~= dir@ + seq!['/'] + module@);
        }
        return r;
    }
    let mut out = config_dir.to_owned();
    out.push('/');
    out.append("modules");
    out.push('/');
    out.append(module);
    out.append(".toml");
    proof {
        assert(out@ =~= config_dir@ + "/modules/"@ + module@ + ".toml"@);
    }
    out
}

fn str_is(s: &str, t: &str) -> (r: bool)
    ensures
        r == (s@ == t@),
{
    crate::strings::str_eq(s, t)
}


/// The wanted names that the available ones do not cover, in wanted
/// order: what a use-unit asked for but the module does not define.
pub fn missing_items(wanted: &Vec<String>, available: &Vec<String>) -> (r: Vec<String>)
    ensures
        crate::tsort::vviews(r@) == missing_spec(
            crate::tsort::vviews(wanted@),
            crate::tsort::vviews(available@),
        ),
{
    let mut out: Vec<String> = Vec::new();
    let mut i: usize = 0;
    proof {
        assert(crate::tsort::vviews(wanted@).take(0) =~= Seq::<Seq<char>>::empty());
        assert(missing_spec(
            crate::tsort::vviews(wanted@).take(0),
            crate::tsort::vviews(available@),
        ) =~= Seq::<Seq<char>>::empty());
        assert(crate::tsort::vviews(out@) =~= Seq::<Seq<char>>::empty());
    }
    while i < wanted.len()
        invariant
            i <= wanted@.len(),
            crate::tsort::vviews(out@) =~= missing_spec(
                crate::tsort::vviews(wanted@).take(i as int),
                crate::tsort::vviews(available@),
            ),
        decreases wanted@.len() - i,
    {
        let mut found = false;
        let mut j: usize = 0;
        while j < available.len()
            invariant
                i < wanted@.len(),
                j <= available@.len(),
                found == (exists|k: int|
                    0 <= k < j && crate::tsort::vviews(available@)[k] == crate::tsort::vviews(
                        wanted@,
                    )[i as int]),
            decreases available@.len() - j,
        {
            if crate::strings::str_eq(available[j].as_str(), wanted[i].as_str()) {
                proof {
                    assert(crate::tsort::vviews(available@)[j as int] == crate::tsort::vviews(
                        wanted@,
                    )[i as int]);
                }
                found = true;
            }
            j += 1;
        }
        let ghost pre = out@;
        if !found {
            out.push(wanted[i].clone());
        }
        proof {
            let wv = crate::tsort::vviews(wanted@);
            let av = crate::tsort::vviews(available@);
            assert(wv.take(i + 1).drop_last() =~= wv.take(i as int));
            assert(wv.take(i + 1).last() == wv[i as int]);
            if found {
                assert(av.contains(wv[i as int]));
            } else {
                if av.contains(wv[i as int]) {
                    let k = choose|k: int| 0 <= k < av.len() && av[k] == wv[i as int];
                }
                assert(!av.contains(wv[i as int]));
                assert(crate::tsort::vviews(out@) =~= crate::tsort::vviews(pre).push(
                    wv[i as int],
                ));
            }
        }
        i += 1;
    }
    proof {
        assert(crate::tsort::vviews(wanted@).take(wanted@.len() as int) =~= crate::tsort::vviews(
            wanted@,
        ));
    }
    out
}

/// The wanted names not among the available ones, kept in order.
pub open spec fn missing_spec(wanted: Seq<Seq<char>>, available: Seq<Seq<char>>) -> Seq<Seq<char>>
    decreases wanted.len(),
{
    if wanted.len() == 0 {
        Seq::empty()
    } else {
        missing_spec(wanted.drop_last(), available) + if available.contains(wanted.last()) {
            Seq::empty()
        } else {
            seq![wanted.last()]
        }
    }
}
} // verus!
