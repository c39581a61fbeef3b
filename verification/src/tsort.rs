use vstd::prelude::*;

verus! {

use crate::error::Error;
use crate::strings::str_eq;

// A task graph is a map from node names to the names the node requires,
// given as a list of (name, requires) pairs with pairwise-distinct names.

/// The name of node `i`.
pub open spec fn gkey(g: Seq<(String, Vec<String>)>, i: int) -> Seq<char> {
    g[i].0@
}

/// Requirement `j` of node `i`.
pub open spec fn gdep(g: Seq<(String, Vec<String>)>, i: int, j: int) -> Seq<char> {
    g[i].1@[j]@
}

/// All node names, in graph order.
pub open spec fn gkeys(g: Seq<(String, Vec<String>)>) -> Seq<Seq<char>> {
    Seq::new(g.len(), |i: int| gkey(g, i))
}

/// The names are pairwise distinct: the list is a map.
pub open spec fn keys_distinct(g: Seq<(String, Vec<String>)>) -> bool {
    forall|i: int, j: int| 0 <= i < j < g.len() ==> gkey(g, i) != gkey(g, j)
}

/// Node `i` can be emitted once `done` is emitted: it is not yet done and
/// everything it requires is.
pub open spec fn is_ready(g: Seq<(String, Vec<String>)>, i: int, done: Set<Seq<char>>) -> bool {
    &&& !done.contains(gkey(g, i))
    &&& forall|j: int| 0 <= j < g[i].1@.len() ==> done.contains(gdep(g, i, j))
}

/// The ready nodes among the first `n`, in graph order.
pub open spec fn ready_upto(
    g: Seq<(String, Vec<String>)>,
    done: Set<Seq<char>>,
    n: int,
) -> Seq<Seq<char>>
    decreases n,
{
    if n <= 0 {
        Seq::empty()
    } else {
        ready_upto(g, done, n - 1) + if is_ready(g, n - 1, done) {
            seq![gkey(g, n - 1)]
        } else {
            Seq::empty()
        }
    }
}

/// The layer emitted after `done`: all ready nodes, in graph order.
pub open spec fn ready_layer(g: Seq<(String, Vec<String>)>, done: Set<Seq<char>>) -> Seq<
    Seq<char>,
> {
    ready_upto(g, done, g.len() as int)
}

/// The set of names in `s`.
pub open spec fn sset(s: Seq<Seq<char>>) -> Set<Seq<char>> {
    Set::new(|k: Seq<char>| s.contains(k))
}

/// The names emitted by the first `k` layers.
pub open spec fn done_after(layers: Seq<Seq<Seq<char>>>, k: int) -> Set<Seq<char>>
    decreases k,
{
    if k <= 0 {
        Set::empty()
    } else {
        done_after(layers, k - 1).union(sset(layers[k - 1]))
    }
}

proof fn lemma_done_after_prefix(l1: Seq<Seq<Seq<char>>>, l2: Seq<Seq<Seq<char>>>, k: int)
    requires
        0 <= k <= l1.len(),
        k <= l2.len(),
        forall|m: int| 0 <= m < k ==> l1[m] == l2[m],
    ensures
        done_after(l1, k) == done_after(l2, k),
    decreases k,
{
    if k > 0 {
        lemma_done_after_prefix(l1, l2, k - 1);
    }
}

/// Every layer is nonempty and holds exactly the nodes that became ready
/// once the layers before it were emitted, in graph order.
pub open spec fn layers_match(g: Seq<(String, Vec<String>)>, layers: Seq<Seq<Seq<char>>>) -> bool {
    forall|k: int|
        0 <= k < layers.len() ==> #[trigger] layers[k] == ready_layer(g, done_after(layers, k))
            && layers[k].len() > 0
}

/// A full layering: layers match and together emit every node.
pub open spec fn layering_of(g: Seq<(String, Vec<String>)>, layers: Seq<Seq<Seq<char>>>) -> bool {
    &&& layers_match(g, layers)
    &&& done_after(layers, layers.len() as int) == sset(gkeys(g))
}

/// The names whose flag is set, under the graph's naming.
pub open spec fn flag_set(g: Seq<(String, Vec<String>)>, flags: Seq<bool>) -> Set<Seq<char>> {
    Set::new(
        |k: Seq<char>| exists|i: int| 0 <= i < g.len() && #[trigger] flags[i] && gkey(g, i) == k,
    )
}

/// How many flags are still clear.
pub open spec fn count_false(s: Seq<bool>) -> nat
    decreases s.len(),
{
    if s.len() == 0 {
        0
    } else {
        count_false(s.drop_last()) + if s.last() {
            0nat
        } else {
            1nat
        }
    }
}

proof fn lemma_count_false_update(s: Seq<bool>, i: int)
    requires
        0 <= i < s.len(),
        !s[i],
    ensures
        count_false(s.update(i, true)) == count_false(s) - 1,
    decreases s.len(),
{
    let s2 = s.update(i, true);
    if i == s.len() - 1 {
        assert(s2.drop_last() =~= s.drop_last());
    } else {
        assert(s2.drop_last() =~= s.drop_last().update(i, true));
        lemma_count_false_update(s.drop_last(), i);
    }
}

proof fn lemma_count_false_zero(s: Seq<bool>)
    requires
        count_false(s) == 0,
    ensures
        forall|i: int| 0 <= i < s.len() ==> s[i],
    decreases s.len(),
{
    if s.len() > 0 {
        lemma_count_false_zero(s.drop_last());
        assert forall|i: int| 0 <= i < s.len() implies s[i] by {
            if i < s.len() - 1 {
                assert(s.drop_last()[i]);
            }
        }
    }
}

proof fn lemma_count_false_pos(s: Seq<bool>)
    requires
        count_false(s) > 0,
    ensures
        exists|i: int| 0 <= i < s.len() && !s[i],
    decreases s.len(),
{
    if s.last() {
        lemma_count_false_pos(s.drop_last());
        let i = choose|i: int| 0 <= i < s.drop_last().len() && !s.drop_last()[i];
        assert(!s[i]);
    } else {
        assert(!s[s.len() - 1]);
    }
}

/// The names of a list of strings, in order.
pub open spec fn vviews(v: Seq<String>) -> Seq<Seq<char>> {
    Seq::new(v.len(), |i: int| v[i]@)
}

/// The layering's names, layer by layer.
pub open spec fn lviews(l: Seq<Vec<String>>) -> Seq<Seq<Seq<char>>> {
    Seq::new(l.len(), |k: int| vviews(l[k]@))
}

/// Whether the flagged-done set makes requirement `dep` satisfied.
fn dep_done(g: &Vec<(String, Vec<String>)>, emitted: &Vec<bool>, dep: &String) -> (r: bool)
    requires
        emitted@.len() == g@.len(),
    ensures
        r == flag_set(g@, emitted@).contains(dep@),
{
    let mut j: usize = 0;
    while j < g.len()
        invariant
            emitted@.len() == g@.len(),
            j <= g@.len(),
            forall|t: int| 0 <= t < j ==> !(emitted@[t] && gkey(g@, t) == dep@),
        decreases g@.len() - j,
    {
        if emitted[j] && str_eq(g[j].0.as_str(), dep.as_str()) {
            return true;
        }
        j += 1;
    }
    false
}

/// Whether node `i` is ready under the flagged-done set.
fn node_ready(g: &Vec<(String, Vec<String>)>, emitted: &Vec<bool>, i: usize) -> (r: bool)
    requires
        emitted@.len() == g@.len(),
        i < g@.len(),
        keys_distinct(g@),
    ensures
        r == is_ready(g@, i as int, flag_set(g@, emitted@)),
{
    let ghost done = flag_set(g@, emitted@);
    if emitted[i] {
        proof {
            assert(done.contains(gkey(g@, i as int)));
        }
        return false;
    }
    proof {
        if done.contains(gkey(g@, i as int)) {
            let i2 = choose|i2: int|
                0 <= i2 < g@.len() && #[trigger] emitted@[i2] && gkey(g@, i2) == gkey(g@, i as int);
            assert(i2 == i as int);
        }
    }
    let deps = &g[i].1;
    let mut j: usize = 0;
    while j < deps.len()
        invariant
            emitted@.len() == g@.len(),
            i < g@.len(),
            deps == &g@[i as int].1,
            j <= deps@.len(),
            done == flag_set(g@, emitted@),
            forall|t: int| 0 <= t < j ==> done.contains(gdep(g@, i as int, t)),
        decreases deps@.len() - j,
    {
        if !dep_done(g, emitted, &deps[j]) {
            proof {
                assert(gdep(g@, i as int, j as int) == deps@[j as int]@);
                assert(!is_ready(g@, i as int, done));
            }
            return false;
        }
        j += 1;
    }
    true
}

/// Layered topological sort of the task graph: repeatedly emit, as one
/// layer, every node whose requirements have all been emitted. Returns
/// the layers, or `TSort` naming `place` when the graph cannot be fully
/// emitted (a requirement cycle, or a requirement that is not a node).
pub fn tsort(graph: &Vec<(String, Vec<String>)>, place: &str) -> (r: Result<
    Vec<Vec<String>>,
    Error,
>)
    requires
        keys_distinct(graph@),
    ensures
        match r {
            Ok(layers) => layering_of(graph@, lviews(layers@)),
            Err(e) => {
                &&& e matches Error::TSort(p) && p@ == place@
                &&& exists|ls: Seq<Seq<Seq<char>>>|
                    {
                        &&& #[trigger] layers_match(graph@, ls)
                        &&& ready_layer(graph@, done_after(ls, ls.len() as int)).len() == 0
                        &&& done_after(ls, ls.len() as int) != sset(gkeys(graph@))
                    }
            },
        },
{
    let n = graph.len();
    let mut emitted: Vec<bool> = Vec::new();
    let mut f: usize = 0;
    while f < n
        invariant
            emitted@.len() == f,
            f <= n,
            forall|i: int| 0 <= i < f ==> !emitted@[i],
            count_false(emitted@) == f,
        decreases n - f,
    {
        proof {
            assert(emitted@.push(false).drop_last() =~= emitted@);
        }
        emitted.push(false);
        f += 1;
    }
    let mut remaining: usize = n;
    let mut layers: Vec<Vec<String>> = Vec::new();
    proof {
        assert(flag_set(graph@, emitted@) =~= done_after(lviews(layers@), layers@.len() as int));
    }
    while remaining > 0
        invariant
            keys_distinct(graph@),
            n == graph@.len(),
            emitted@.len() == n,
            remaining == count_false(emitted@),
            layers_match(graph@, lviews(layers@)),
            flag_set(graph@, emitted@) == done_after(lviews(layers@), layers@.len() as int),
        decreases remaining,
    {
        let ghost done = flag_set(graph@, emitted@);
        let ghost ls0 = lviews(layers@);
        let mut layer_keys: Vec<String> = Vec::new();
        let mut layer_idx: Vec<usize> = Vec::new();
        let mut i: usize = 0;
        while i < n
            invariant
                keys_distinct(graph@),
                n == graph@.len(),
                emitted@.len() == n,
                i <= n,
                done == flag_set(graph@, emitted@),
                layer_idx@.len() == layer_keys@.len(),
                vviews(layer_keys@) =~= ready_upto(graph@, done, i as int),
                forall|t: int|
                    0 <= t < layer_idx@.len() ==> #[trigger] layer_idx@[t] < i
                        && !emitted@[layer_idx@[t] as int] && gkey(graph@, layer_idx@[t] as int)
                        == layer_keys@[t]@,
                forall|t1: int, t2: int|
                    0 <= t1 < t2 < layer_idx@.len() ==> layer_idx@[t1] < layer_idx@[t2],
            decreases n - i,
        {
            if node_ready(graph, &emitted, i) {
                let k = graph[i].0.clone();
                layer_keys.push(k);
                layer_idx.push(i);
            }
            proof {
                assert(vviews(layer_keys@) =~= ready_upto(graph@, done, i + 1));
            }
            i += 1;
        }
        if layer_keys.len() == 0 {
            proof {
                let ghost ls = lviews(layers@);
                assert(ready_layer(graph@, done_after(ls, ls.len() as int)).len() == 0);
                lemma_count_false_pos(emitted@);
                let w = choose|w: int| 0 <= w < n && !emitted@[w];
                let wk = gkey(graph@, w);
                if done.contains(wk) {
                    let i2 = choose|i2: int|
                        0 <= i2 < graph@.len() && #[trigger] emitted@[i2] && gkey(graph@, i2) == wk;
                    assert(i2 == w);
                }
                assert(gkeys(graph@)[w] == wk);
                assert(gkeys(graph@).contains(wk));
                assert(done_after(ls, ls.len() as int) != sset(gkeys(graph@)));
            }
            return Err(Error::TSort(place.to_owned()));
        }
        // Mark the layer as emitted.
        let ghost em0 = emitted@;
        let mut t: usize = 0;
        while t < layer_idx.len()
            invariant
                n == graph@.len(),
                emitted@.len() == n,
                t <= layer_idx@.len(),
                layer_idx@.len() == layer_keys@.len(),
                remaining == count_false(emitted@) + t,
                forall|tt: int|
                    0 <= tt < layer_idx@.len() ==> #[trigger] layer_idx@[tt] < n
                        && !em0[layer_idx@[tt] as int] && gkey(graph@, layer_idx@[tt] as int)
                        == layer_keys@[tt]@,
                forall|t1: int, t2: int|
                    0 <= t1 < t2 < layer_idx@.len() ==> layer_idx@[t1] < layer_idx@[t2],
                forall|tt: int| 0 <= tt < t ==> emitted@[layer_idx@[tt] as int],
                forall|w: int|
                    0 <= w < n && (forall|tt: int| 0 <= tt < t ==> layer_idx@[tt] != w)
                        ==> emitted@[w] == em0[w],
                remaining >= t,
            decreases layer_idx@.len() - t,
        {
            let idx = layer_idx[t];
            proof {
                assert(forall|tt: int| 0 <= tt < t ==> layer_idx@[tt] != idx);
                assert(!emitted@[idx as int]);
                lemma_count_false_update(emitted@, idx as int);
            }
            emitted.set(idx, true);
            // every marked node was unmarked, so the count stays ahead
            proof {
                assert(count_false(emitted@) == remaining - t - 1);
            }
            t += 1;
        }
        remaining = remaining - layer_keys.len();
        proof {
            let lk = vviews(layer_keys@);
            // the new flag set is the old one plus this layer
            assert forall|k: Seq<char>| flag_set(graph@, emitted@).contains(k) implies done.union(
                sset(lk),
            ).contains(k) by {
                let i2 = choose|i2: int|
                    0 <= i2 < graph@.len() && #[trigger] emitted@[i2] && gkey(graph@, i2) == k;
                if em0[i2] {
                    assert(done.contains(k));
                } else {
                    let tt = choose|tt: int|
                        0 <= tt < layer_idx@.len() && layer_idx@[tt] == i2 as usize;
                    assert(lk[tt] == k);
                    assert(lk.contains(k));
                }
            }
            assert forall|k: Seq<char>| done.union(sset(lk)).contains(k) implies flag_set(
                graph@,
                emitted@,
            ).contains(k) by {
                if done.contains(k) {
                    let i2 = choose|i2: int|
                        0 <= i2 < graph@.len() && #[trigger] em0[i2] && gkey(graph@, i2) == k;
                    assert(emitted@[i2]);
                } else {
                    assert(lk.contains(k));
                    let tt = choose|tt: int| 0 <= tt < lk.len() && lk[tt] == k;
                    let i2 = layer_idx@[tt] as int;
                    assert(emitted@[i2] && gkey(graph@, i2) == k);
                }
            }
            assert(flag_set(graph@, emitted@) =~= done.union(sset(lk)));
        }
        layers.push(layer_keys);
        proof {
            let ls1 = lviews(layers@);
            assert(ls1.len() == ls0.len() + 1);
            assert(forall|m: int| 0 <= m < ls0.len() ==> ls1[m] == ls0[m]);
            lemma_done_after_prefix(ls1, ls0, ls0.len() as int);
            assert forall|k: int| 0 <= k < ls1.len() implies #[trigger] ls1[k] == ready_layer(
                graph@,
                done_after(ls1, k),
            ) && ls1[k].len() > 0 by {
                lemma_done_after_prefix(ls1, ls0, k);
                if k < ls0.len() {
                    assert(ls0[k] == ready_layer(graph@, done_after(ls0, k)));
                } else {
                    assert(ls1[k] =~= ready_layer(graph@, done));
                }
            }
        }
    }
    proof {
        lemma_count_false_zero(emitted@);
        assert forall|k: Seq<char>| sset(gkeys(graph@)).contains(k) implies flag_set(
            graph@,
            emitted@,
        ).contains(k) by {
            let i = choose|i: int| 0 <= i < gkeys(graph@).len() && gkeys(graph@)[i] == k;
            assert(emitted@[i] && gkey(graph@, i) == k);
        }
        assert forall|k: Seq<char>| flag_set(graph@, emitted@).contains(k) implies sset(
            gkeys(graph@),
        ).contains(k) by {
            let i = choose|i: int|
                0 <= i < graph@.len() && #[trigger] emitted@[i] && gkey(graph@, i) == k;
            assert(gkeys(graph@)[i] == k);
            assert(gkeys(graph@).contains(k));
        }
        assert(flag_set(graph@, emitted@) =~= sset(gkeys(graph@)));
    }
    Ok(layers)
}


/// Whether node `i` requires the name `k`.
pub open spec fn dep_of(g: Seq<(String, Vec<String>)>, i: int, k: Seq<char>) -> bool {
    exists|j: int| 0 <= j < g[i].1@.len() && gdep(g, i, j) == k
}

/// A requirement cycle: a nonempty ring of nodes, each requiring the next.
pub open spec fn is_cycle(g: Seq<(String, Vec<String>)>, c: Seq<int>) -> bool {
    &&& c.len() > 0
    &&& forall|m: int| 0 <= m < c.len() ==> 0 <= #[trigger] c[m] < g.len()
    &&& forall|m: int|
        0 <= m < c.len() ==> dep_of(g, #[trigger] c[m], gkey(g, c[(m + 1) % (c.len() as int)]))
}

pub open spec fn has_cycle(g: Seq<(String, Vec<String>)>) -> bool {
    exists|c: Seq<int>| is_cycle(g, c)
}

proof fn lemma_concat_contains(a: Seq<Seq<char>>, b: Seq<Seq<char>>, k: Seq<char>)
    ensures
        (a + b).contains(k) <==> a.contains(k) || b.contains(k),
{
    if (a + b).contains(k) {
        let i = choose|i: int| 0 <= i < (a + b).len() && (a + b)[i] == k;
        if i < a.len() {
            assert(a[i] == k);
        } else {
            assert(b[i - a.len()] == k);
        }
    }
    if a.contains(k) {
        let i = choose|i: int| 0 <= i < a.len() && a[i] == k;
        assert((a + b)[i] == k);
    }
    if b.contains(k) {
        let i = choose|i: int| 0 <= i < b.len() && b[i] == k;
        assert((a + b)[a.len() + i] == k);
    }
}

proof fn lemma_ready_upto_mem(g: Seq<(String, Vec<String>)>, done: Set<Seq<char>>, n: int, k: Seq<char>)
    requires
        n <= g.len(),
    ensures
        ready_upto(g, done, n).contains(k) <==> exists|i: int|
            0 <= i < n && is_ready(g, i, done) && gkey(g, i) == k,
    decreases n,
{
    if n > 0 {
        lemma_ready_upto_mem(g, done, n - 1, k);
        let tail = if is_ready(g, n - 1, done) { seq![gkey(g, n - 1)] } else { Seq::<Seq<char>>::empty() };
        lemma_concat_contains(ready_upto(g, done, n - 1), tail, k);
        if exists|i: int| 0 <= i < n && is_ready(g, i, done) && gkey(g, i) == k {
            let i = choose|i: int| 0 <= i < n && is_ready(g, i, done) && gkey(g, i) == k;
            if i == n - 1 {
                assert(tail[0] == k);
            }
        }
        if tail.contains(k) {
            assert(is_ready(g, n - 1, done) && gkey(g, n - 1) == k);
        }
    }
}

proof fn lemma_done_after_mem(layers: Seq<Seq<Seq<char>>>, m: int, k: Seq<char>)
    requires
        m <= layers.len(),
    ensures
        done_after(layers, m).contains(k) <==> exists|k2: int|
            0 <= k2 < m && #[trigger] layers[k2].contains(k),
    decreases m,
{
    if m > 0 {
        lemma_done_after_mem(layers, m - 1, k);
        if done_after(layers, m).contains(k) {
            if done_after(layers, m - 1).contains(k) {
                let k2 = choose|k2: int| 0 <= k2 < m - 1 && #[trigger] layers[k2].contains(k);
                assert(layers[k2].contains(k));
            } else {
                assert(layers[m - 1].contains(k));
            }
        }
        if exists|k2: int| 0 <= k2 < m && #[trigger] layers[k2].contains(k) {
            let k2 = choose|k2: int| 0 <= k2 < m && #[trigger] layers[k2].contains(k);
            if k2 < m - 1 {
                assert(done_after(layers, m - 1).contains(k));
            } else {
                assert(sset(layers[m - 1]).contains(k));
            }
        }
    }
}

proof fn lemma_layer_unique(
    g: Seq<(String, Vec<String>)>,
    layers: Seq<Seq<Seq<char>>>,
    k: Seq<char>,
    k1: int,
    k2: int,
)
    requires
        layers_match(g, layers),
        0 <= k1 < layers.len(),
        0 <= k2 < layers.len(),
        layers[k1].contains(k),
        layers[k2].contains(k),
    ensures
        k1 == k2,
{
    // Were the layers distinct, the name would be done before the later
    // layer, where it must still be ready: the two cannot both hold.
    if k1 != k2 {
        let a = if k1 < k2 { k1 } else { k2 };
        let b = if k1 < k2 { k2 } else { k1 };
        assert(layers[b] == ready_layer(g, done_after(layers, b)));
        lemma_ready_upto_mem(g, done_after(layers, b), g.len() as int, k);
        let i = choose|i: int|
            0 <= i < g.len() && is_ready(g, i, done_after(layers, b)) && gkey(g, i) == k;
        lemma_done_after_mem(layers, b, k);
        assert(layers[a].contains(k) && 0 <= a < b);
        assert(done_after(layers, b).contains(k));
    }
}

proof fn lemma_seq_min_idx(s: Seq<int>) -> (m: int)
    requires
        s.len() > 0,
    ensures
        0 <= m < s.len(),
        forall|m2: int| 0 <= m2 < s.len() ==> s[m] <= s[m2],
    decreases s.len(),
{
    if s.len() == 1 {
        0
    } else {
        let m0 = lemma_seq_min_idx(s.drop_last());
        if s.last() < s[m0] {
            assert forall|m2: int| 0 <= m2 < s.len() implies s[s.len() - 1] <= #[trigger] s[m2] by {
                if m2 < s.len() - 1 {
                    assert(s.drop_last()[m2] == s[m2]);
                }
            }
            s.len() - 1
        } else {
            assert forall|m2: int| 0 <= m2 < s.len() implies s[m0] <= #[trigger] s[m2] by {
                if m2 < s.len() - 1 {
                    assert(s.drop_last()[m2] == s[m2]);
                }
            }
            m0
        }
    }
}

/// The layer that emits the name `k`.
pub open spec fn layer_of(layers: Seq<Seq<Seq<char>>>, k: Seq<char>) -> int {
    choose|k2: int| 0 <= k2 < layers.len() && #[trigger] layers[k2].contains(k)
}

proof fn lemma_in_some_layer(
    g: Seq<(String, Vec<String>)>,
    layers: Seq<Seq<Seq<char>>>,
    k: Seq<char>,
)
    requires
        layering_of(g, layers),
        sset(gkeys(g)).contains(k),
    ensures
        0 <= layer_of(layers, k) < layers.len(),
        layers[layer_of(layers, k)].contains(k),
{
    lemma_done_after_mem(layers, layers.len() as int, k);
    let k2 = choose|k2: int| 0 <= k2 < layers.len() && #[trigger] layers[k2].contains(k);
    assert(layers[layer_of(layers, k)].contains(k));
}

/// No graph with a requirement cycle has a complete layering: every node
/// on the cycle would have to stand strictly later than the next one.
pub proof fn lemma_cycle_no_layering(
    g: Seq<(String, Vec<String>)>,
    layers: Seq<Seq<Seq<char>>>,
)
    requires
        keys_distinct(g),
        has_cycle(g),
    ensures
        !layering_of(g, layers),
{
    if layering_of(g, layers) {
        let c = choose|c: Seq<int>| is_cycle(g, c);
        let n = c.len() as int;
        let lidx = Seq::new(n as nat, |m: int| layer_of(layers, gkey(g, c[m])));
        let m = lemma_seq_min_idx(lidx);
        let i = c[m];
        let k = gkey(g, i);
        assert(gkeys(g)[i] == k);
        assert(gkeys(g).contains(k));
        lemma_in_some_layer(g, layers, k);
        let lm = layer_of(layers, k);
        // the node is ready at its layer, and by key distinctness the ready
        // witness is the node itself
        assert(layers[lm] == ready_layer(g, done_after(layers, lm)));
        lemma_ready_upto_mem(g, done_after(layers, lm), g.len() as int, k);
        let i2 = choose|i2: int|
            0 <= i2 < g.len() && is_ready(g, i2, done_after(layers, lm)) && gkey(g, i2) == k;
        assert(i2 == i);
        // its requirement along the cycle is done before that layer
        let mn = (m + 1) % n;
        let kn = gkey(g, c[mn]);
        assert(dep_of(g, i, kn));
        let j = choose|j: int| 0 <= j < g[i].1@.len() && gdep(g, i, j) == kn;
        assert(done_after(layers, lm).contains(kn));
        lemma_done_after_mem(layers, lm, kn);
        let ln = choose|k2: int| 0 <= k2 < lm && #[trigger] layers[k2].contains(kn);
        assert(gkeys(g)[c[mn]] == kn);
        assert(gkeys(g).contains(kn));
        lemma_in_some_layer(g, layers, kn);
        lemma_layer_unique(g, layers, kn, ln, layer_of(layers, kn));
        // so the next node's layer is strictly earlier: the minimum was not
        // minimal
        assert(lidx[mn] == ln);
        assert(lidx[m] == lm);
        assert(lidx[mn] < lidx[m]);
    }
}

/// In a graph without requirements, everything is ready at once: the only
/// complete layering of a nonempty graph is one layer holding every node
/// in graph order, and the empty graph has the empty layering.
pub proof fn lemma_edgeless_layering(
    g: Seq<(String, Vec<String>)>,
    layers: Seq<Seq<Seq<char>>>,
)
    requires
        keys_distinct(g),
        forall|i: int| 0 <= i < g.len() ==> #[trigger] g[i].1@.len() == 0,
        layering_of(g, layers),
    ensures
        g.len() == 0 ==> layers =~= Seq::<Seq<Seq<char>>>::empty(),
        g.len() > 0 ==> layers =~= seq![gkeys(g)],
{
    if g.len() == 0 {
        if layers.len() > 0 {
            assert(layers[0] == ready_layer(g, done_after(layers, 0)));
            assert(layers[0].len() > 0);
        }
    } else {
        if layers.len() == 0 {
            assert(gkeys(g)[0] == gkey(g, 0));
            assert(gkeys(g).contains(gkey(g, 0)));
            assert(sset(gkeys(g)).contains(gkey(g, 0)));
            assert(done_after(layers, 0).contains(gkey(g, 0)));
        }
        lemma_ready_upto_empty_done(g, g.len() as int);
        assert(layers[0] == ready_layer(g, done_after(layers, 0)));
        assert(done_after(layers, 0) =~= Set::<Seq<char>>::empty());
        assert(layers[0] =~= gkeys(g));
        if layers.len() > 1 {
            assert(layers[1] == ready_layer(g, done_after(layers, 1)));
            assert(layers[1].len() > 0);
            lemma_ready_upto_mem(g, done_after(layers, 1), g.len() as int, layers[1][0]);
            assert(ready_layer(g, done_after(layers, 1)).contains(layers[1][0]));
            let i = choose|i: int|
                0 <= i < g.len() && is_ready(g, i, done_after(layers, 1)) && gkey(g, i)
                    == layers[1][0];
            assert(gkeys(g)[i] == gkey(g, i));
            assert(gkeys(g).contains(gkey(g, i)));
            assert(layers[0].contains(gkey(g, i)));
            assert(sset(layers[0]).contains(gkey(g, i)));
            assert(done_after(layers, 1).contains(gkey(g, i)));
        }
    }
}

proof fn lemma_ready_upto_empty_done(g: Seq<(String, Vec<String>)>, n: int)
    requires
        0 <= n <= g.len(),
        forall|i: int| 0 <= i < g.len() ==> #[trigger] g[i].1@.len() == 0,
    ensures
        ready_upto(g, Set::empty(), n) =~= gkeys(g).take(n),
    decreases n,
{
    if n > 0 {
        lemma_ready_upto_empty_done(g, n - 1);
        assert(is_ready(g, n - 1, Set::empty()));
        assert(ready_upto(g, Set::empty(), n) =~= ready_upto(g, Set::empty(), n - 1) + seq![
            gkey(g, n - 1),
        ]);
        assert(gkeys(g).take(n) =~= gkeys(g).take(n - 1) + seq![gkey(g, n - 1)]);
    }
}

/// A graph without requirements never stalls: a matching prefix whose next
/// layer is empty has already emitted every node.
pub proof fn lemma_edgeless_no_stall(
    g: Seq<(String, Vec<String>)>,
    layers: Seq<Seq<Seq<char>>>,
)
    requires
        keys_distinct(g),
        forall|i: int| 0 <= i < g.len() ==> #[trigger] g[i].1@.len() == 0,
        layers_match(g, layers),
        ready_layer(g, done_after(layers, layers.len() as int)).len() == 0,
    ensures
        done_after(layers, layers.len() as int) == sset(gkeys(g)),
{
    let done = done_after(layers, layers.len() as int);
    assert forall|k: Seq<char>| done.contains(k) implies sset(gkeys(g)).contains(k) by {
        lemma_done_after_mem(layers, layers.len() as int, k);
        let k2 = choose|k2: int| 0 <= k2 < layers.len() && #[trigger] layers[k2].contains(k);
        assert(layers[k2] == ready_layer(g, done_after(layers, k2)));
        lemma_ready_upto_mem(g, done_after(layers, k2), g.len() as int, k);
        let i = choose|i: int|
            0 <= i < g.len() && is_ready(g, i, done_after(layers, k2)) && gkey(g, i) == k;
        assert(gkeys(g)[i] == k);
        assert(gkeys(g).contains(k));
    }
    assert forall|k: Seq<char>| sset(gkeys(g)).contains(k) implies done.contains(k) by {
        let i = choose|i: int| 0 <= i < gkeys(g).len() && gkeys(g)[i] == k;
        if !done.contains(k) {
            assert(is_ready(g, i, done));
            lemma_ready_upto_mem(g, done, g.len() as int, k);
            assert(ready_layer(g, done).contains(k));
        }
    }
    assert(done =~= sset(gkeys(g)));
}


/// Two graphs that read the same: equal names and requirement names,
/// position for position. Every predicate here looks only at those
/// readings, so matching graphs are cycle-for-cycle alike.
pub open spec fn same_graph(g1: Seq<(String, Vec<String>)>, g2: Seq<(String, Vec<String>)>) -> bool {
    &&& g1.len() == g2.len()
    &&& forall|i: int| 0 <= i < g1.len() ==> gkey(g1, i) == gkey(g2, i)
    &&& forall|i: int| 0 <= i < g1.len() ==> (#[trigger] g1[i].1)@.len() == g2[i].1@.len()
    &&& forall|i: int, j: int|
        0 <= i < g1.len() && 0 <= j < g1[i].1@.len() ==> #[trigger] gdep(g1, i, j) == gdep(g2, i, j)
}

pub proof fn lemma_same_graph_cycle(g1: Seq<(String, Vec<String>)>, g2: Seq<(String, Vec<String>)>)
    requires
        same_graph(g1, g2),
    ensures
        has_cycle(g1) <==> has_cycle(g2),
        keys_distinct(g1) <==> keys_distinct(g2),
{
    assert forall|c: Seq<int>| is_cycle(g1, c) implies is_cycle(g2, c) by {
        lemma_same_graph_cycle_one(g1, g2, c);
    }
    assert forall|c: Seq<int>| is_cycle(g2, c) implies is_cycle(g1, c) by {
        lemma_same_graph_cycle_one(g2, g1, c);
    }
}

proof fn lemma_same_graph_cycle_one(
    g1: Seq<(String, Vec<String>)>,
    g2: Seq<(String, Vec<String>)>,
    c: Seq<int>,
)
    requires
        same_graph(g1, g2) || same_graph(g2, g1),
        is_cycle(g1, c),
    ensures
        is_cycle(g2, c),
{
    assert forall|m: int| 0 <= m < c.len() implies dep_of(
        g2,
        #[trigger] c[m],
        gkey(g2, c[(m + 1) % (c.len() as int)]),
    ) by {
        let target = c[(m + 1) % (c.len() as int)];
        assert(dep_of(g1, c[m], gkey(g1, target)));
        let j = choose|j: int| 0 <= j < g1[c[m]].1@.len() && gdep(g1, c[m], j) == gkey(g1, target);
        assert(gdep(g2, c[m], j) == gkey(g2, target));
    }
}

pub proof fn lemma_same_graph_layering(
    g1: Seq<(String, Vec<String>)>,
    g2: Seq<(String, Vec<String>)>,
    layers: Seq<Seq<Seq<char>>>,
)
    requires
        same_graph(g1, g2),
        layering_of(g1, layers),
    ensures
        layering_of(g2, layers),
{
    assert forall|k: int| 0 <= k < layers.len() implies #[trigger] layers[k] == ready_layer(
        g2,
        done_after(layers, k),
    ) && layers[k].len() > 0 by {
        lemma_same_graph_ready(g1, g2, done_after(layers, k), g1.len() as int);
    }
    assert(gkeys(g1) =~= gkeys(g2));
}

proof fn lemma_same_graph_ready(
    g1: Seq<(String, Vec<String>)>,
    g2: Seq<(String, Vec<String>)>,
    done: Set<Seq<char>>,
    n: int,
)
    requires
        same_graph(g1, g2),
        n <= g1.len(),
    ensures
        ready_upto(g1, done, n) == ready_upto(g2, done, n),
    decreases n,
{
    if n > 0 {
        lemma_same_graph_ready(g1, g2, done, n - 1);
        assert(is_ready(g1, n - 1, done) <==> is_ready(g2, n - 1, done)) by {
            if is_ready(g1, n - 1, done) {
                assert forall|j: int| 0 <= j < g2[n - 1].1@.len() implies done.contains(
                    #[trigger] gdep(g2, n - 1, j),
                ) by {
                    assert(done.contains(gdep(g1, n - 1, j)));
                }
            }
            if is_ready(g2, n - 1, done) {
                assert forall|j: int| 0 <= j < g1[n - 1].1@.len() implies done.contains(
                    #[trigger] gdep(g1, n - 1, j),
                ) by {
                    assert(done.contains(gdep(g2, n - 1, j)));
                }
            }
        }
    }
}
} // verus!
