//! Reachability in a directed graph whose nodes are numbered from zero and
//! whose edges are given by the list of the successors of each node.

use vstd::prelude::*;

verus! {

/// There is an edge from `f` to `g`.
pub open spec fn edge(adj: Seq<Seq<u32>>, f: int, g: int) -> bool {
    &&& 0 <= f < adj.len()
    &&& 0 <= g < adj.len()
    &&& exists|k: int| 0 <= k < adj[f].len() && #[trigger] adj[f][k] == g
}

/// `p` is a walk: it has a node, its nodes are nodes of the graph, and an
/// edge leads from each of them to the next.
pub open spec fn is_path(adj: Seq<Seq<u32>>, p: Seq<int>) -> bool {
    &&& p.len() >= 1
    &&& 0 <= p[0] < adj.len()
    &&& forall|i: int| 0 <= i < p.len() - 1 ==> edge(adj, #[trigger] p[i], p[i + 1])
}

/// A walk leads from `f` to a node of `seeds`.
pub open spec fn reaches_seed(adj: Seq<Seq<u32>>, seeds: Seq<bool>, f: int) -> bool {
    exists|p: Seq<int>| is_path(adj, p) && p[0] == f && #[trigger] seeds[p.last()]
}

/// A walk with at least one edge leads from `f` back to `f`.
pub open spec fn on_cycle(adj: Seq<Seq<u32>>, f: int) -> bool {
    exists|p: Seq<int>| #[trigger] is_path(adj, p) && p.len() >= 2 && p[0] == f && p.last() == f
}

/// The number of marked nodes.
pub open spec fn count_true(s: Seq<bool>) -> nat
    decreases s.len(),
{
    if s.len() == 0 {
        0
    } else {
        count_true(s.drop_last()) + if s.last() {
            1nat
        } else {
            0nat
        }
    }
}

proof fn lemma_count_bound(s: Seq<bool>)
    ensures
        count_true(s) <= s.len(),
    decreases s.len(),
{
    if s.len() > 0 {
        lemma_count_bound(s.drop_last());
    }
}

proof fn lemma_count_mark(s: Seq<bool>, i: int)
    requires
        0 <= i < s.len(),
        !s[i],
    ensures
        count_true(s.update(i, true)) == count_true(s) + 1,
    decreases s.len(),
{
    let t = s.update(i, true);
    if i == s.len() - 1 {
        assert(t.drop_last() =~= s.drop_last());
    } else {
        lemma_count_mark(s.drop_last(), i);
        assert(t.drop_last() =~= s.drop_last().update(i, true));
    }
}

/// A walk that begins with an edge into a walk is a walk.
proof fn lemma_prepend(adj: Seq<Seq<u32>>, f: int, p: Seq<int>)
    requires
        is_path(adj, p),
        edge(adj, f, p[0]),
    ensures
        is_path(adj, seq![f] + p),
        (seq![f] + p)[0] == f,
        (seq![f] + p).last() == p.last(),
        (seq![f] + p).len() == p.len() + 1,
{
    let q = seq![f] + p;
    assert forall|i: int| 0 <= i < q.len() - 1 implies edge(adj, #[trigger] q[i], q[i + 1]) by {
        if i == 0 {
            assert(q[1] == p[0]);
        } else {
            assert(q[i] == p[i - 1]);
            assert(q[i + 1] == p[i]);
            assert(edge(adj, p[i - 1], p[i - 1 + 1]));
        }
    }
}

/// What is left of a walk with an edge when its first node is taken away
/// is a walk.
proof fn lemma_tail(adj: Seq<Seq<u32>>, p: Seq<int>)
    requires
        is_path(adj, p),
        p.len() >= 2,
    ensures
        is_path(adj, p.subrange(1, p.len() as int)),
        p.subrange(1, p.len() as int)[0] == p[1],
        p.subrange(1, p.len() as int).last() == p.last(),
        edge(adj, p[0], p[1]),
{
    let q = p.subrange(1, p.len() as int);
    assert(edge(adj, p[0int], p[0int + 1]));
    assert forall|i: int| 0 <= i < q.len() - 1 implies edge(adj, #[trigger] q[i], q[i + 1]) by {
        assert(q[i] == p[i + 1]);
        assert(edge(adj, p[i + 1], p[i + 1 + 1]));
    }
}

/// No edge leads from an unmarked node to a marked one, and every seed is
/// marked.
pub open spec fn stable(adj: Seq<Seq<u32>>, seeds: Seq<bool>, marks: Seq<bool>) -> bool {
    &&& marks.len() == adj.len()
    &&& seeds.len() == adj.len()
    &&& forall|f: int| 0 <= f < adj.len() && #[trigger] seeds[f] ==> marks[f]
    &&& forall|f: int, k: int|
        0 <= f < adj.len() && !marks[f] && 0 <= k < adj[f].len() && (#[trigger] adj[f][k])
            < adj.len() ==> !marks[adj[f][k] as int]
}

/// Under stable marks the first node of every walk to a seed is marked.
proof fn lemma_stable_complete(adj: Seq<Seq<u32>>, seeds: Seq<bool>, marks: Seq<bool>, p: Seq<int>)
    requires
        stable(adj, seeds, marks),
        is_path(adj, p),
        0 <= p.last() < adj.len(),
        seeds[p.last()],
    ensures
        marks[p[0]],
    decreases p.len(),
{
    if p.len() >= 2 {
        lemma_tail(adj, p);
        let q = p.subrange(1, p.len() as int);
        lemma_stable_complete(adj, seeds, marks, q);
        assert(edge(adj, p[0], p[1]));
        let k = choose|k: int| 0 <= k < adj[p[0]].len() && #[trigger] adj[p[0]][k] == p[1];
        if !marks[p[0]] {
            assert(adj[p[0]][k] < adj.len());
            assert(!marks[adj[p[0]][k] as int]);
        }
    }
}

/// The last node of a walk is a node of the graph.
proof fn lemma_last_in_range(adj: Seq<Seq<u32>>, p: Seq<int>)
    requires
        is_path(adj, p),
    ensures
        0 <= p.last() < adj.len(),
{
    if p.len() >= 2 {
        assert(edge(adj, p[p.len() - 2], p[p.len() - 2 + 1]));
    }
}

/// Marks every node from which a walk leads to a seed.
pub fn reach_closure(adj: &Vec<Vec<u32>>, seeds: &Vec<bool>) -> (marks: Vec<bool>)
    requires
        seeds@.len() == adj@.len(),
    ensures
        marks@.len() == adj@.len(),
        forall|f: int|
            0 <= f < adj@.len() ==> (#[trigger] marks@[f] <==> reaches_seed(
                adj@.map_values(|v: Vec<u32>| v@),
                seeds@,
                f,
            )),
{
    let ghost g = adj@.map_values(|v: Vec<u32>| v@);
    let n = adj.len();
    let mut marks: Vec<bool> = Vec::new();
    let mut i: usize = 0;
    while i < n
        invariant
            i <= n,
            n == adj@.len(),
            seeds@.len() == n,
            g == adj@.map_values(|v: Vec<u32>| v@),
            marks@.len() == i,
            forall|f: int| 0 <= f < i ==> marks@[f] == seeds@[f],
        decreases n - i,
    {
        marks.push(seeds[i]);
        i += 1;
    }
    proof {
        assert forall|f: int| 0 <= f < n && #[trigger] marks@[f] implies reaches_seed(
            g,
            seeds@,
            f,
        ) by {
            let p = seq![f];
            assert(is_path(g, p) && p[0] == f && seeds@[p.last()]);
        }
    }
    let mut changed = true;
    while changed
        invariant
            n == adj@.len(),
            seeds@.len() == n,
            marks@.len() == n,
            g == adj@.map_values(|v: Vec<u32>| v@),
            forall|f: int| 0 <= f < n && #[trigger] seeds@[f] ==> marks@[f],
            forall|f: int| 0 <= f < n && #[trigger] marks@[f] ==> reaches_seed(g, seeds@, f),
            !changed ==> stable(g, seeds@, marks@),
        decreases
            n - count_true(marks@) + (if changed {
                1int
            } else {
                0int
            }),
    {
        let ghost before = marks@;
        proof {
            lemma_count_bound(marks@);
        }
        changed = false;
        let mut f: usize = 0;
        while f < n
            invariant
                f <= n,
                n == adj@.len(),
                seeds@.len() == n,
                marks@.len() == n,
                before.len() == n,
                g == adj@.map_values(|v: Vec<u32>| v@),
                forall|h: int| 0 <= h < n && #[trigger] seeds@[h] ==> marks@[h],
                forall|h: int| 0 <= h < n && #[trigger] marks@[h] ==> reaches_seed(g, seeds@, h),
                count_true(marks@) >= count_true(before),
                changed ==> count_true(marks@) > count_true(before),
                !changed ==> marks@ == before,
                !changed ==> forall|h: int, k: int|
                    0 <= h < f && !marks@[h] && 0 <= k < g[h].len() && (#[trigger] g[h][k]) < n
                        ==> !marks@[g[h][k] as int],
            decreases n - f,
        {
            if !marks[f] {
                let callees = &adj[f];
                let m = callees.len();
                let mut k: usize = 0;
                let mut found = false;
                while k < m
                    invariant
                        k <= m,
                        f < n,
                        n == adj@.len(),
                        marks@.len() == n,
                        m == callees@.len(),
                        callees@ == g[f as int],
                        g == adj@.map_values(|v: Vec<u32>| v@),
                        !found ==> forall|j: int|
                            0 <= j < k && (#[trigger] callees@[j]) < n ==> !marks@[callees@[j] as int],
                        found ==> exists|j: int|
                            0 <= j < m && (#[trigger] callees@[j]) < n && marks@[callees@[j] as int],
                    decreases m - k,
                {
                    let c = callees[k] as usize;
                    if c < n && marks[c] {
                        found = true;
                    }
                    k += 1;
                }
                if found {
                    proof {
                        let j = choose|j: int|
                            0 <= j < m && (#[trigger] callees@[j]) < n && marks@[callees@[j] as int];
                        let c = callees@[j] as int;
                        assert(reaches_seed(g, seeds@, c));
                        let p = choose|p: Seq<int>|
                            is_path(g, p) && p[0] == c && #[trigger] seeds@[p.last()];
                        assert(g[f as int][j] == c);
                        assert(edge(g, f as int, c));
                        lemma_prepend(g, f as int, p);
                        let q = seq![f as int] + p;
                        assert(is_path(g, q) && q[0] == f && seeds@[q.last()]);
                        lemma_count_mark(marks@, f as int);
                    }
                    marks.set(f, true);
                    changed = true;
                }
            }
            f += 1;
        }
        proof {
            lemma_count_bound(marks@);
        }
    }
    proof {
        assert forall|f: int| 0 <= f < n && reaches_seed(g, seeds@, f) implies #[trigger] marks@[f] by {
            let p = choose|p: Seq<int>| is_path(g, p) && p[0] == f && #[trigger] seeds@[p.last()];
            lemma_last_in_range(g, p);
            lemma_stable_complete(g, seeds@, marks@, p);
        }
    }
    marks
}

/// Tells of every node whether it lies on a cycle: whether a walk leads
/// back to it from one of its successors.
pub fn find_cycles(adj: &Vec<Vec<u32>>) -> (cycle: Vec<bool>)
    ensures
        cycle@.len() == adj@.len(),
        forall|f: int|
            0 <= f < adj@.len() ==> (#[trigger] cycle@[f] <==> on_cycle(
                adj@.map_values(|v: Vec<u32>| v@),
                f,
            )),
{
    let ghost g = adj@.map_values(|v: Vec<u32>| v@);
    let n = adj.len();
    let mut cycle: Vec<bool> = Vec::new();
    let mut f: usize = 0;
    while f < n
        invariant
            f <= n,
            n == adj@.len(),
            g == adj@.map_values(|v: Vec<u32>| v@),
            cycle@.len() == f,
            forall|h: int| 0 <= h < f ==> (#[trigger] cycle@[h] <==> on_cycle(g, h)),
        decreases n - f,
    {
        let mut seeds: Vec<bool> = Vec::new();
        let mut i: usize = 0;
        while i < n
            invariant
                i <= n,
                f < n,
                seeds@.len() == i,
                forall|h: int| 0 <= h < i ==> seeds@[h] == (h == f),
            decreases n - i,
        {
            seeds.push(i == f);
            i += 1;
        }
        let marks = reach_closure(adj, &seeds);
        let callees = &adj[f];
        let m = callees.len();
        let mut k: usize = 0;
        let mut found = false;
        while k < m
            invariant
                k <= m,
                f < n,
                n == adj@.len(),
                marks@.len() == n,
                m == callees@.len(),
                callees@ == g[f as int],
                !found ==> forall|j: int|
                    0 <= j < k && (#[trigger] callees@[j]) < n ==> !marks@[callees@[j] as int],
                found ==> exists|j: int|
                    0 <= j < m && (#[trigger] callees@[j]) < n && marks@[callees@[j] as int],
            decreases m - k,
        {
            let c = callees[k] as usize;
            if c < n && marks[c] {
                found = true;
            }
            k += 1;
        }
        proof {
            if found {
                let j = choose|j: int|
                    0 <= j < m && (#[trigger] callees@[j]) < n && marks@[callees@[j] as int];
                let c = callees@[j] as int;
                assert(reaches_seed(g, seeds@, c));
                let p = choose|p: Seq<int>|
                    is_path(g, p) && p[0] == c && #[trigger] seeds@[p.last()];
                lemma_last_in_range(g, p);
                assert(p.last() == f);
                assert(g[f as int][j] == c);
                assert(edge(g, f as int, c));
                lemma_prepend(g, f as int, p);
                let q = seq![f as int] + p;
                assert(is_path(g, q) && q.len() >= 2 && q[0] == f && q.last() == f);
            }
            if on_cycle(g, f as int) {
                let p = choose|p: Seq<int>|
                    #[trigger] is_path(g, p) && p.len() >= 2 && p[0] == f && p.last() == f;
                lemma_tail(g, p);
                let q = p.subrange(1, p.len() as int);
                assert(is_path(g, q) && q[0] == p[1] && seeds@[q.last()]);
                assert(reaches_seed(g, seeds@, p[1]));
                assert(edge(g, f as int, p[1]));
                let j = choose|j: int|
                    0 <= j < g[f as int].len() && #[trigger] g[f as int][j] == p[1];
                assert(callees@[j] < n && marks@[callees@[j] as int]);
                assert(found);
            }
        }
        cycle.push(found);
        f += 1;
    }
    cycle
}

} // verus!
