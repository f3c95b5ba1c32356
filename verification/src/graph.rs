//! Build order of a dependency graph.
//!
//! Nodes are numbered from zero in the order in which packages became known:
//! the packages the user asked for first, then their dependencies as they
//! were discovered. Node `i` lists the nodes it depends on. The build order
//! puts every node behind its dependencies, and among the nodes that could
//! come next it always takes the one with the smallest number.

use vstd::prelude::*;
use vstd::set_lib::*;

verus! {

/// The graph as a sequence of dependency lists.
pub open spec fn model(graph: Seq<Vec<usize>>) -> Seq<Seq<usize>> {
    Seq::new(graph.len(), |i: int| graph[i]@)
}

/// Every dependency names a node of the graph.
pub open spec fn well_formed(g: Seq<Seq<usize>>) -> bool {
    forall|i: int, k: int|
        0 <= i < g.len() && 0 <= k < g[i].len() ==> (#[trigger] g[i][k]) < g.len()
}

/// Node `i` can be built once the nodes of `done` are built: it is not
/// among them and all its dependencies are.
pub open spec fn ready(g: Seq<Seq<usize>>, done: Seq<usize>, i: int) -> bool {
    &&& 0 <= i < g.len()
    &&& !done.contains(i as usize)
    &&& forall|k: int| 0 <= k < g[i].len() ==> done.contains(#[trigger] g[i][k])
}

/// `order` is the build order of `g`: it holds every node, and each position
/// holds the smallest node that is ready after the positions before it.
pub open spec fn is_build_order(g: Seq<Seq<usize>>, order: Seq<usize>) -> bool {
    &&& order.len() == g.len()
    &&& forall|p: int|
        0 <= p < order.len() ==> {
            &&& ready(g, order.take(p), #[trigger] order[p] as int)
            &&& forall|j: int| 0 <= j < order[p] ==> !ready(g, order.take(p), j)
        }
}

/// The node that follows position `k` on the cycle `c`.
pub open spec fn successor(c: Seq<usize>, k: int) -> usize {
    if k + 1 == c.len() {
        c[0]
    } else {
        c[k + 1]
    }
}

/// `c` is a dependency cycle of `g`: each node depends on the one after it,
/// and the last on the first.
pub open spec fn is_cycle(g: Seq<Seq<usize>>, c: Seq<usize>) -> bool {
    &&& c.len() > 0
    &&& forall|k: int|
        0 <= k < c.len() ==> (#[trigger] c[k]) < g.len() && g[c[k] as int].contains(successor(c, k))
}

/// Whether some nodes of `g` depend on each other in a circle.
pub open spec fn has_cycle(g: Seq<Seq<usize>>) -> bool {
    exists|c: Seq<usize>| is_cycle(g, c)
}

/// Distinct numbers below `n` are at most `n` many.
proof fn lemma_distinct_below(s: Seq<usize>, n: nat)
    requires
        s.no_duplicates(),
        forall|i: int| 0 <= i < s.len() ==> s[i] < n,
    ensures
        s.len() <= n,
{
    let t = Seq::new(s.len(), |i: int| s[i] as int);
    assert(t.no_duplicates());
    t.unique_seq_to_set();
    lemma_int_range(0, n as int);
    assert(t.to_set().subset_of(set_int_range(0, n as int))) by {
        assert forall|x: int| t.to_set().contains(x) implies set_int_range(0, n as int).contains(
            x,
        ) by {
            let i = choose|i: int| 0 <= i < t.len() && t[i] == x;
            assert(s[i] < n);
        }
    }
    lemma_len_subset(t.to_set(), set_int_range(0, n as int));
}

/// `n` distinct numbers below `n` are all the numbers below `n`.
proof fn lemma_distinct_covers(s: Seq<usize>, x: usize)
    requires
        s.no_duplicates(),
        forall|i: int| 0 <= i < s.len() ==> s[i] < s.len(),
        x < s.len(),
    ensures
        s.contains(x),
{
    let n = s.len();
    let t = Seq::new(n, |i: int| s[i] as int);
    assert(t.no_duplicates());
    t.unique_seq_to_set();
    lemma_int_range(0, n as int);
    assert(t.to_set().subset_of(set_int_range(0, n as int))) by {
        assert forall|y: int| t.to_set().contains(y) implies set_int_range(0, n as int).contains(
            y,
        ) by {
            let i = choose|i: int| 0 <= i < t.len() && t[i] == y;
            assert(s[i] < n);
        }
    }
    vstd::seq_lib::seq_to_set_is_finite(t);
    lemma_subset_equality(t.to_set(), set_int_range(0, n as int));
    assert(set_int_range(0, n as int).contains(x as int));
    assert(t.to_set().contains(x as int));
    let i = choose|i: int| 0 <= i < t.len() && t[i] == x as int;
    assert(s[i] == x);
}

/// A list that holds every number below `n` has at least `n` entries.
proof fn lemma_covering_is_long(s: Seq<usize>, n: nat)
    requires
        n <= usize::MAX,
        forall|x: usize| x < n ==> s.contains(x),
    ensures
        s.len() >= n,
{
    let t = Seq::new(s.len(), |i: int| s[i] as int);
    lemma_int_range(0, n as int);
    vstd::seq_lib::seq_to_set_is_finite(t);
    assert(set_int_range(0, n as int).subset_of(t.to_set())) by {
        assert forall|y: int| set_int_range(0, n as int).contains(y) implies t.to_set().contains(
            y,
        ) by {
            assert(s.contains(y as usize));
            let i = choose|i: int| 0 <= i < s.len() && s[i] == y as usize;
            assert(t[i] == y);
        }
    }
    lemma_len_subset(set_int_range(0, n as int), t.to_set());
    t.lemma_cardinality_of_set();
}

/// A build order holds every node exactly once.
pub proof fn lemma_build_order_is_permutation(g: Seq<Seq<usize>>, order: Seq<usize>)
    requires
        is_build_order(g, order),
    ensures
        order.no_duplicates(),
        forall|p: int| 0 <= p < order.len() ==> (#[trigger] order[p]) < g.len(),
        forall|x: usize| x < g.len() ==> order.contains(x),
{
    assert forall|p: int, q: int| 0 <= p < q < order.len() implies order[p] != order[q] by {
        assert(ready(g, order.take(q), order[q] as int));
        assert(order.take(q)[p] == order[p]);
    }
    assert forall|p: int| 0 <= p < order.len() implies (#[trigger] order[p]) < g.len() by {
        assert(ready(g, order.take(p), order[p] as int));
    }
    assert forall|x: usize| x < g.len() implies order.contains(x) by {
        lemma_distinct_covers(order, x);
    }
}

/// In a build order every node stands behind each node it depends on.
pub proof fn lemma_build_order_is_topological(
    g: Seq<Seq<usize>>,
    order: Seq<usize>,
    p: int,
    k: int,
)
    requires
        is_build_order(g, order),
        0 <= p < order.len(),
        0 <= k < g[order[p] as int].len(),
    ensures
        exists|q: int| 0 <= q < p && order[q] == g[order[p] as int][k],
{
    let i = order[p] as int;
    assert(ready(g, order.take(p), i));
    let d = g[i][k];
    assert(order.take(p).contains(d));
    let q = choose|q: int| 0 <= q < order.take(p).len() && order.take(p)[q] == d;
    assert(order[q] == d);
}

/// A graph has at most one build order.
pub proof fn lemma_build_order_is_unique(g: Seq<Seq<usize>>, a: Seq<usize>, b: Seq<usize>)
    requires
        is_build_order(g, a),
        is_build_order(g, b),
    ensures
        a == b,
{
    assert forall|p: int| 0 <= p <= a.len() implies #[trigger] a.take(p) == b.take(p) by {
        lemma_same_prefix(g, a, b, p);
    }
    assert(a.take(a.len() as int) == a);
    assert(b.take(b.len() as int) == b);
}

proof fn lemma_same_prefix(g: Seq<Seq<usize>>, a: Seq<usize>, b: Seq<usize>, p: int)
    requires
        is_build_order(g, a),
        is_build_order(g, b),
        0 <= p <= a.len(),
    ensures
        a.take(p) == b.take(p),
    decreases p,
{
    if p == 0 {
        assert(a.take(0) =~= b.take(0));
    } else {
        lemma_same_prefix(g, a, b, p - 1);
        let q = p - 1;
        assert(ready(g, a.take(q), a[q] as int));
        assert(ready(g, b.take(q), b[q] as int));
        if a[q] < b[q] {
            assert(!ready(g, b.take(q), a[q] as int));
        } else if b[q] < a[q] {
            assert(!ready(g, a.take(q), b[q] as int));
        }
        assert(a.take(p) =~= a.take(q).push(a[q]));
        assert(b.take(p) =~= b.take(q).push(b[q]));
    }
}

/// A graph with a build order has no cycle.
pub proof fn lemma_build_order_excludes_cycle(
    g: Seq<Seq<usize>>,
    order: Seq<usize>,
    c: Seq<usize>,
)
    requires
        is_build_order(g, order),
    ensures
        !is_cycle(g, c),
{
    if is_cycle(g, c) {
        lemma_build_order_is_permutation(g, order);
        assert(c[0] < g.len());
        let p0 = order.index_of(c[0]);
        lemma_cycle_descends(g, order, c, c.len() - 1);
        let last = c.len() - 1;
        let pl = order.index_of(c[last]);
        assert(successor(c, last) == c[0]);
        assert(g[c[last] as int].contains(c[0]));
        let k = choose|k: int| 0 <= k < g[c[last] as int].len() && g[c[last] as int][k] == c[0];
        lemma_build_order_is_topological(g, order, pl, k);
        let q = choose|q: int| 0 <= q < pl && order[q] == c[0];
        assert(q == p0);
    }
}

/// Along a cycle the positions in a build order fall by at least one a step.
proof fn lemma_cycle_descends(g: Seq<Seq<usize>>, order: Seq<usize>, c: Seq<usize>, k: int)
    requires
        is_build_order(g, order),
        is_cycle(g, c),
        order.no_duplicates(),
        forall|x: usize| x < g.len() ==> order.contains(x),
        0 <= k < c.len(),
    ensures
        order.contains(c[k]),
        order.contains(c[0]),
        order.index_of(c[k]) + k <= order.index_of(c[0]),
    decreases k,
{
    assert(c[0] < g.len());
    assert(c[k] < g.len());
    if k > 0 {
        lemma_cycle_descends(g, order, c, k - 1);
        let prev = c[k - 1];
        let pp = order.index_of(prev);
        assert(successor(c, k - 1) == c[k]);
        assert(g[prev as int].contains(c[k]));
        let e = choose|e: int| 0 <= e < g[prev as int].len() && g[prev as int][e] == c[k];
        lemma_build_order_is_topological(g, order, pp, e);
        let q = choose|q: int| 0 <= q < pp && order[q] == c[k];
        assert(order.index_of(c[k]) == q);
    }
}

/// What the marks say of readiness: a node is ready when it has no mark and
/// all its dependencies have one.
spec fn ready_by_marks(g: Seq<Seq<usize>>, placed: Seq<bool>, i: int) -> bool {
    &&& 0 <= i < g.len()
    &&& !placed[i]
    &&& forall|k: int| 0 <= k < g[i].len() ==> placed[(#[trigger] g[i][k]) as int]
}

spec fn marks_agree(g: Seq<Seq<usize>>, placed: Seq<bool>, done: Seq<usize>) -> bool {
    &&& placed.len() == g.len()
    &&& forall|i: int| 0 <= i < g.len() ==> (#[trigger] placed[i] <==> done.contains(i as usize))
}

proof fn lemma_marks_ready(g: Seq<Seq<usize>>, placed: Seq<bool>, done: Seq<usize>, i: int)
    requires
        well_formed(g),
        marks_agree(g, placed, done),
        0 <= i < g.len(),
    ensures
        ready_by_marks(g, placed, i) <==> ready(g, done, i),
{
    if ready_by_marks(g, placed, i) {
        assert forall|k: int| 0 <= k < g[i].len() implies done.contains(#[trigger] g[i][k]) by {
            assert(placed[g[i][k] as int]);
        }
    }
    if ready(g, done, i) {
        assert forall|k: int| 0 <= k < g[i].len() implies placed[(#[trigger] g[i][k]) as int] by {
            assert(done.contains(g[i][k]));
        }
    }
}

/// The first dependency of node `i` that has no mark yet.
fn first_unplaced(graph: &Vec<Vec<usize>>, i: usize, placed: &Vec<bool>) -> (found: Option<usize>)
    requires
        well_formed(model(graph@)),
        i < graph.len(),
        placed.len() == graph.len(),
    ensures
        found matches Some(d) ==> d < graph.len() && !placed[d as int] && model(graph@)[i as int].contains(d),
        found is None ==> forall|k: int|
            0 <= k < model(graph@)[i as int].len() ==> placed[(#[trigger] model(
                graph@,
            )[i as int][k]) as int],
{
    let deps = &graph[i];
    let mut k: usize = 0;
    while k < deps.len()
        invariant
            well_formed(model(graph@)),
            i < graph.len(),
            placed.len() == graph.len(),
            deps@ == model(graph@)[i as int],
            k <= deps.len(),
            forall|j: int| 0 <= j < k ==> placed[(#[trigger] deps@[j]) as int],
        decreases deps.len() - k,
    {
        let d = deps[k];
        assert(d == model(graph@)[i as int][k as int]);
        if !placed[d] {
            return Some(d);
        }
        k += 1;
    }
    None
}

/// The smallest node without a mark whose dependencies all have one.
fn first_ready(graph: &Vec<Vec<usize>>, placed: &Vec<bool>) -> (found: Option<usize>)
    requires
        well_formed(model(graph@)),
        placed.len() == graph.len(),
    ensures
        found matches Some(i) ==> ready_by_marks(model(graph@), placed@, i as int) && forall|j: int|
            0 <= j < i ==> !ready_by_marks(model(graph@), placed@, j),
        found is None ==> forall|j: int|
            0 <= j < graph.len() ==> !ready_by_marks(model(graph@), placed@, j),
{
    let mut i: usize = 0;
    while i < graph.len()
        invariant
            well_formed(model(graph@)),
            placed.len() == graph.len(),
            i <= graph.len(),
            forall|j: int| 0 <= j < i ==> !ready_by_marks(model(graph@), placed@, j),
        decreases graph.len() - i,
    {
        if !placed[i] {
            match first_unplaced(graph, i, placed) {
                None => {
                    return Some(i);
                },
                Some(d) => {
                    let ghost k = choose|k: int|
                        0 <= k < model(graph@)[i as int].len() && model(graph@)[i as int][k] == d;
                    assert(!placed@[model(graph@)[i as int][k] as int]);
                },
            }
        }
        i += 1;
    }
    None
}

/// A list of `n` marks, none of them set.
fn no_marks(n: usize) -> (marks: Vec<bool>)
    ensures
        marks.len() == n,
        forall|i: int| 0 <= i < n ==> !marks[i],
{
    let mut marks: Vec<bool> = Vec::new();
    while marks.len() < n
        invariant
            marks.len() <= n,
            forall|i: int| 0 <= i < marks.len() ==> !marks[i],
        decreases n - marks.len(),
    {
        marks.push(false);
    }
    marks
}

/// Finds a cycle among the nodes without a mark, given that none of them is
/// ready and that there is at least one.
fn find_cycle(graph: &Vec<Vec<usize>>, placed: &Vec<bool>, start: usize) -> (cycle: Vec<usize>)
    requires
        well_formed(model(graph@)),
        placed.len() == graph.len(),
        start < graph.len(),
        !placed[start as int],
        forall|j: int| 0 <= j < graph.len() ==> !ready_by_marks(model(graph@), placed@, j),
    ensures
        is_cycle(model(graph@), cycle@),
{
    let n = graph.len();
    let ghost g = model(graph@);
    let mut seen = no_marks(n);
    let mut walk: Vec<usize> = Vec::new();
    let mut cur = start;
    while !seen[cur]
        invariant
            n == graph.len(),
            g == model(graph@),
            well_formed(g),
            placed.len() == n,
            seen.len() == n,
            cur < n,
            !placed[cur as int],
            forall|j: int| 0 <= j < n ==> !ready_by_marks(g, placed@, j),
            walk@.no_duplicates(),
            forall|k: int| 0 <= k < walk.len() ==> (#[trigger] walk[k]) < n,
            forall|i: int| 0 <= i < n ==> (#[trigger] seen[i] <==> walk@.contains(i as usize)),
            forall|k: int| 0 <= k < walk.len() - 1 ==> g[(#[trigger] walk[k]) as int].contains(walk[k + 1]),
            walk.len() > 0 ==> g[walk[walk.len() - 1] as int].contains(cur),
        decreases n - walk.len(),
    {
        proof {
            assert(!walk@.contains(cur));
            let longer = walk@.push(cur);
            assert(longer.no_duplicates());
            lemma_distinct_below(longer, n as nat);
        }
        let ghost before = walk@;
        seen.set(cur, true);
        walk.push(cur);
        let next = first_unplaced(graph, cur, placed);
        proof {
            assert forall|i: int| 0 <= i < n implies (#[trigger] seen[i] <==> walk@.contains(
                i as usize,
            )) by {
                if i == cur {
                    assert(walk@[before.len() as int] == cur);
                } else {
                    if before.contains(i as usize) {
                        let k = choose|k: int| 0 <= k < before.len() && before[k] == i as usize;
                        assert(walk@[k] == i as usize);
                    }
                    if walk@.contains(i as usize) {
                        let k = choose|k: int| 0 <= k < walk@.len() && walk@[k] == i as usize;
                        assert(before[k] == i as usize);
                    }
                }
            }
            assert forall|k: int| 0 <= k < walk.len() - 1 implies g[(#[trigger] walk[k]) as int].contains(
                walk[k + 1],
            ) by {
                if k < before.len() - 1 {
                    assert(g[before[k] as int].contains(before[k + 1]));
                }
            }
        }
        proof {
            if next is None {
                assert(ready_by_marks(g, placed@, cur as int));
            }
        }
        cur = next.unwrap();
    }
    // `cur` was met before; the cycle starts where it first stands.
    let mut p: usize = 0;
    while walk[p] != cur
        invariant
            p < walk.len(),
            walk@.contains(cur),
            forall|k: int| 0 <= k < p ==> walk[k] != cur,
        decreases walk.len() - p,
    {
        proof {
            let k = choose|k: int| 0 <= k < walk.len() && walk[k] == cur;
            assert(k > p);
        }
        p += 1;
    }
    let mut cycle: Vec<usize> = Vec::new();
    let mut k: usize = p;
    while k < walk.len()
        invariant
            p <= k <= walk.len(),
            cycle.len() == k - p,
            forall|j: int| 0 <= j < cycle.len() ==> cycle[j] == walk[p + j],
        decreases walk.len() - k,
    {
        cycle.push(walk[k]);
        k += 1;
    }
    proof {
        let c = cycle@;
        assert forall|j: int| 0 <= j < c.len() implies (#[trigger] c[j]) < g.len() && g[c[j] as int].contains(
            successor(c, j),
        ) by {
            assert(c[j] == walk[p + j]);
            if j + 1 == c.len() {
                assert(successor(c, j) == cur);
            } else {
                assert(c[j + 1] == walk[p + j + 1]);
            }
        }
    }
    cycle
}

/// Computes the build order of a dependency graph, or finds a cycle in it.
///
/// `graph[i]` lists the nodes that node `i` depends on. The result is the
/// build order exactly when the graph has no cycle; otherwise it is one of
/// its cycles.
pub fn build_order(graph: &Vec<Vec<usize>>) -> (result: Result<Vec<usize>, Vec<usize>>)
    requires
        well_formed(model(graph@)),
    ensures
        result matches Ok(order) ==> is_build_order(model(graph@), order@),
        result matches Err(cycle) ==> is_cycle(model(graph@), cycle@),
        result is Err <==> has_cycle(model(graph@)),
{
    let n = graph.len();
    let ghost g = model(graph@);
    let mut placed = no_marks(n);
    let mut order: Vec<usize> = Vec::new();
    while order.len() < n
        invariant
            n == graph.len(),
            g == model(graph@),
            well_formed(g),
            order.len() <= n,
            marks_agree(g, placed@, order@),
            forall|p: int|
                0 <= p < order.len() ==> {
                    &&& ready(g, order@.take(p), #[trigger] order[p] as int)
                    &&& forall|j: int| 0 <= j < order[p] ==> !ready(g, order@.take(p), j)
                },
        decreases n - order.len(),
    {
        match first_ready(graph, &placed) {
            Some(i) => {
                let ghost before = order@;
                let ghost marks = placed@;
                proof {
                    lemma_marks_ready(g, marks, before, i as int);
                    assert forall|j: int| 0 <= j < i implies !ready(g, before, j) by {
                        lemma_marks_ready(g, marks, before, j);
                    }
                }
                placed.set(i, true);
                order.push(i);
                proof {
                    assert(order@.take(before.len() as int) =~= before);
                    assert forall|p: int| 0 <= p < before.len() implies order@.take(p)
                        == before.take(p) by {
                        assert(order@.take(p) =~= before.take(p));
                    }
                    assert forall|x: int| 0 <= x < g.len() implies (#[trigger] placed@[x]
                        <==> order@.contains(x as usize)) by {
                        if x == i {
                            assert(order@[before.len() as int] == i);
                        } else {
                            if before.contains(x as usize) {
                                let k = choose|k: int|
                                    0 <= k < before.len() && before[k] == x as usize;
                                assert(order@[k] == x as usize);
                            }
                            if order@.contains(x as usize) {
                                let k = choose|k: int|
                                    0 <= k < order@.len() && order@[k] == x as usize;
                                assert(before[k] == x as usize);
                            }
                        }
                    }
                }
            },
            None => {
                proof {
                    if forall|x: usize| x < n ==> order@.contains(x) {
                        lemma_covering_is_long(order@, n as nat);
                    }
                }
                let ghost missing = choose|x: usize| x < n && !order@.contains(x);
                let mut start: usize = 0;
                while placed[start]
                    invariant
                        n == graph.len(),
                        g == model(graph@),
                        marks_agree(g, placed@, order@),
                        missing < n,
                        !order@.contains(missing),
                        start <= missing,
                    decreases n - start,
                {
                    start += 1;
                }
                let cycle = find_cycle(graph, &placed, start);
                return Err(cycle);
            },
        }
    }
    proof {
        assert(is_build_order(g, order@));
        assert forall|c: Seq<usize>| !is_cycle(g, c) by {
            lemma_build_order_excludes_cycle(g, order@, c);
        }
    }
    Ok(order)
}

} // verus!
