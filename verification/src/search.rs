//! Depth-first search for circular imports over a graph whose nodes are
//! numbered: `edges[a]` lists the nodes that node `a` imports.

use vstd::prelude::*;

verus! {

/// The edge lists as sequences.
pub open spec fn adjacency(lists: Seq<Vec<usize>>) -> Seq<Seq<usize>> {
    Seq::new(lists.len(), |a: int| lists[a]@)
}

/// Every edge leads to a node of the graph.
pub open spec fn targets_in_range(edges: Seq<Seq<usize>>) -> bool {
    forall|a: int, j: int|
        0 <= a < edges.len() && 0 <= j < edges[a].len() ==> (#[trigger] edges[a][j])
            < edges.len()
}

/// Node `a` imports node `b`.
pub open spec fn has_edge(edges: Seq<Seq<usize>>, a: usize, b: usize) -> bool {
    a < edges.len() && edges[a as int].contains(b)
}

/// Each node of `walk` imports the next.
pub open spec fn is_walk(edges: Seq<Seq<usize>>, walk: Seq<usize>) -> bool {
    forall|k: int| 0 <= k < walk.len() - 1 ==> has_edge(edges, #[trigger] walk[k], walk[k + 1])
}

/// A walk of at least one edge that ends where it starts.
pub open spec fn is_closed_walk(edges: Seq<Seq<usize>>, walk: Seq<usize>) -> bool {
    walk.len() >= 2 && walk[0] == walk[walk.len() - 1] && is_walk(edges, walk)
}

/// A closed walk that passes through no node twice, but for the node that
/// it starts from and ends at.
pub open spec fn is_simple_cycle(edges: Seq<Seq<usize>>, walk: Seq<usize>) -> bool {
    is_closed_walk(edges, walk) && walk.drop_last().no_duplicates()
}

/// The graph holds a circular import.
pub open spec fn has_cycle(edges: Seq<Seq<usize>>) -> bool {
    exists|walk: Seq<usize>| is_closed_walk(edges, walk)
}

/// The state of a search: the nodes visited so far, the nodes of the branch
/// under exploration, that branch from its root, and the cycles recorded.
pub struct SearchState {
    pub visited: Seq<bool>,
    pub on_stack: Seq<bool>,
    pub path: Seq<usize>,
    pub cycles: Seq<Seq<usize>>,
}

/// The state before the search of a graph of `n` nodes.
pub open spec fn initial_state(n: nat) -> SearchState {
    SearchState {
        visited: Seq::new(n, |x: int| false),
        on_stack: Seq::new(n, |x: int| false),
        path: Seq::empty(),
        cycles: Seq::empty(),
    }
}

/// The cycle that an edge from the end of `path` back to `neighbor` closes:
/// the path from `neighbor` on, and `neighbor` once more.
pub open spec fn closing_walk(path: Seq<usize>, neighbor: usize) -> Seq<usize> {
    path.subrange(path.index_of(neighbor), path.len() as int).push(neighbor)
}

/// The state after the exploration of `node`, which has not been visited:
/// the node is marked and put on the branch, its edges are followed in
/// order, and the node is taken off the branch again. `depth` bounds the
/// length of the branches that are followed; the number of nodes not yet
/// visited is enough.
pub open spec fn explore(edges: Seq<Seq<usize>>, st: SearchState, node: usize, depth: nat) -> SearchState
    decreases depth, 0nat, 0nat,
{
    if depth == 0 {
        st
    } else {
        let entered = SearchState {
            visited: st.visited.update(node as int, true),
            on_stack: st.on_stack.update(node as int, true),
            path: st.path.push(node),
            cycles: st.cycles,
        };
        let done = explore_edges(edges, entered, node, 0, (depth - 1) as nat);
        SearchState {
            visited: done.visited,
            on_stack: done.on_stack.update(node as int, false),
            path: done.path.drop_last(),
            cycles: done.cycles,
        }
    }
}

/// The state after the edges of `node` from position `k` on have been
/// followed: an edge to a node not yet visited is explored; an edge to a
/// node of the branch under exploration records the cycle that it closes;
/// any other edge changes nothing.
pub open spec fn explore_edges(
    edges: Seq<Seq<usize>>,
    st: SearchState,
    node: usize,
    k: int,
    depth: nat,
) -> SearchState
    decreases depth, 1nat, edges[node as int].len() - k,
{
    if k < 0 || k >= edges[node as int].len() {
        st
    } else {
        explore_edges(edges, follow_edge(edges, st, edges[node as int][k], depth), node, k + 1, depth)
    }
}

/// The state after one edge to `neighbor` has been followed.
pub open spec fn follow_edge(
    edges: Seq<Seq<usize>>,
    st: SearchState,
    neighbor: usize,
    depth: nat,
) -> SearchState
    decreases depth, 0nat, 1nat,
{
    if !st.visited[neighbor as int] {
        explore(edges, st, neighbor, depth)
    } else if st.on_stack[neighbor as int] {
        SearchState {
            visited: st.visited,
            on_stack: st.on_stack,
            path: st.path,
            cycles: st.cycles.push(closing_walk(st.path, neighbor)),
        }
    } else {
        st
    }
}

/// The state after an exploration has been started from each node at or
/// after `root`, in order, that was not visited before.
pub open spec fn search_from(edges: Seq<Seq<usize>>, st: SearchState, root: int) -> SearchState
    decreases edges.len() - root,
{
    if root < 0 || root >= edges.len() {
        st
    } else if !st.visited[root] {
        search_from(edges, explore(edges, st, root as usize, edges.len()), root + 1)
    } else {
        search_from(edges, st, root + 1)
    }
}

/// The cycles that the search of a graph records, in the order in which it
/// finds them.
pub open spec fn found_cycles(edges: Seq<Seq<usize>>) -> Seq<Seq<usize>> {
    search_from(edges, initial_state(edges.len()), 0).cycles
}

/// The state that the variables of the search stand for.
pub open spec fn state_of(
    visited: Seq<bool>,
    on_stack: Seq<bool>,
    path: Seq<usize>,
    cycles: Seq<Vec<usize>>,
) -> SearchState {
    SearchState { visited, on_stack, path, cycles: adjacency(cycles) }
}

/// The number of nodes not yet visited.
pub open spec fn unvisited(visited: Seq<bool>) -> nat
    decreases visited.len(),
{
    if visited.len() == 0 {
        0
    } else {
        unvisited(visited.drop_last()) + if visited.last() {
            0nat
        } else {
            1nat
        }
    }
}

proof fn unvisited_after_visit(visited: Seq<bool>, x: int)
    requires
        0 <= x < visited.len(),
        !visited[x],
    ensures
        unvisited(visited.update(x, true)) + 1 == unvisited(visited),
    decreases visited.len(),
{
    let after = visited.update(x, true);
    if x == visited.len() - 1 {
        assert(after.drop_last() =~= visited.drop_last());
    } else {
        unvisited_after_visit(visited.drop_last(), x);
        assert(after.drop_last() =~= visited.drop_last().update(x, true));
    }
}

proof fn unvisited_is_bounded(visited: Seq<bool>)
    ensures
        unvisited(visited) <= visited.len(),
    decreases visited.len(),
{
    if visited.len() > 0 {
        unvisited_is_bounded(visited.drop_last());
    }
}

proof fn unvisited_never_grows(before: Seq<bool>, after: Seq<bool>)
    requires
        before.len() == after.len(),
        forall|x: int| 0 <= x < before.len() && before[x] ==> after[x],
    ensures
        unvisited(after) <= unvisited(before),
    decreases before.len(),
{
    if before.len() > 0 {
        unvisited_never_grows(before.drop_last(), after.drop_last());
    }
}

/// What holds of the search between two steps. `path` is the branch under
/// exploration, `on_stack` marks its nodes, and every recorded cycle is a
/// simple cycle. `rank` numbers the finished nodes in the order in which they
/// were finished; as long as no cycle was recorded, every edge of a
/// finished node leads to a node finished before it.
pub closed spec fn search_inv(
    edges: Seq<Seq<usize>>,
    visited: Seq<bool>,
    on_stack: Seq<bool>,
    path: Seq<usize>,
    cycles: Seq<Vec<usize>>,
    rank: Seq<int>,
    clock: int,
) -> bool {
    let n = edges.len();
    &&& visited.len() == n
    &&& on_stack.len() == n
    &&& rank.len() == n
    &&& clock >= 0
    &&& forall|k: int| 0 <= k < path.len() ==> (#[trigger] path[k]) < n && on_stack[path[k] as int]
    &&& forall|x: int| 0 <= x < n && #[trigger] on_stack[x] ==> visited[x] && path.contains(x as usize)
    &&& is_walk(edges, path)
    &&& path.no_duplicates()
    &&& forall|c: int| 0 <= c < cycles.len() ==> is_simple_cycle(edges, (#[trigger] cycles[c])@)
    &&& forall|x: int|
        0 <= x < n ==> (#[trigger] rank[x]) < clock && ((visited[x] && !on_stack[x]) <==> rank[x]
            >= 0)
    &&& cycles.len() == 0 ==> forall|a: int, j: int|
        0 <= a < n && 0 <= j < edges[a].len() && rank[a] >= 0 ==> 0 <= rank[(
        #[trigger] edges[a][j]) as int] < rank[a]
}

proof fn walk_descends(edges: Seq<Seq<usize>>, rank: Seq<int>, walk: Seq<usize>, k: int)
    requires
        targets_in_range(edges),
        rank.len() == edges.len(),
        forall|a: int, j: int|
            0 <= a < edges.len() && 0 <= j < edges[a].len() ==> rank[(#[trigger] edges[a][j]) as int]
                < rank[a],
        is_walk(edges, walk),
        0 <= k < walk.len(),
        walk.len() >= 2,
    ensures
        walk[k] < edges.len(),
        rank[walk[k] as int] + k <= rank[walk[0] as int],
    decreases k,
{
    if k == 0 {
        assert(has_edge(edges, walk[0], walk[1]));
    } else {
        walk_descends(edges, rank, walk, k - 1);
        assert(has_edge(edges, walk[k - 1], walk[k]));
        let a = walk[k - 1] as int;
        let j = choose|j: int| 0 <= j < edges[a].len() && edges[a][j] == walk[k];
        assert(edges[a][j] == walk[k]);
    }
}

/// A graph whose nodes can be numbered so that every edge leads to a smaller
/// number holds no circular import.
pub proof fn ranked_graph_has_no_cycle(edges: Seq<Seq<usize>>, rank: Seq<int>)
    requires
        targets_in_range(edges),
        rank.len() == edges.len(),
        forall|a: int, j: int|
            0 <= a < edges.len() && 0 <= j < edges[a].len() ==> rank[(#[trigger] edges[a][j]) as int]
                < rank[a],
    ensures
        !has_cycle(edges),
{
    if has_cycle(edges) {
        let walk = choose|walk: Seq<usize>| is_closed_walk(edges, walk);
        walk_descends(edges, rank, walk, walk.len() - 1);
    }
}

/// Cuts out of the current branch the cycle that an edge from its end back
/// to `neighbor` closes: the branch from the first occurrence of `neighbor`
/// on, and `neighbor` once more.
fn close_cycle(path: &Vec<usize>, neighbor: usize, Ghost(edges): Ghost<Seq<Seq<usize>>>) -> (cycle:
    Vec<usize>)
    requires
        path@.contains(neighbor),
        path@.no_duplicates(),
        is_walk(edges, path@),
        has_edge(edges, path@[path@.len() - 1], neighbor),
    ensures
        is_simple_cycle(edges, cycle@),
        cycle@ == closing_walk(path@, neighbor),
{
    let mut start: usize = 0;
    while start < path.len() && path[start] != neighbor
        invariant
            start <= path.len(),
            path@.contains(neighbor),
            forall|k: int| 0 <= k < start ==> path@[k] != neighbor,
        decreases path.len() - start,
    {
        start += 1;
    }
    assert(start < path.len()) by {
        let w = choose|w: int| 0 <= w < path@.len() && path@[w] == neighbor;
        assert(path@[w] == neighbor);
    }
    assert(path@.index_of(neighbor) == start) by {
        let w = path@.index_of(neighbor);
        assert(path@[start as int] == neighbor);
        assert(0 <= w < path@.len() && path@[w] == neighbor);
    }
    let mut cycle: Vec<usize> = Vec::new();
    let mut k: usize = start;
    while k < path.len()
        invariant
            start <= k <= path.len(),
            cycle@ == path@.subrange(start as int, k as int),
        decreases path.len() - k,
    {
        cycle.push(path[k]);
        assert(cycle@ =~= path@.subrange(start as int, k + 1));
        k += 1;
    }
    cycle.push(neighbor);
    assert(cycle@ =~= closing_walk(path@, neighbor));
    assert(cycle@.drop_last() =~= path@.subrange(start as int, path@.len() as int));
    assert forall|i: int| 0 <= i < cycle@.len() - 1 implies has_edge(
        edges,
        #[trigger] cycle@[i],
        cycle@[i + 1],
    ) by {
        if i + 1 < cycle@.len() - 1 {
            assert(has_edge(edges, path@[start + i], path@[start + i + 1]));
        }
    }
    cycle
}

/// Explores the graph from `node`, which has not been visited. Every edge
/// that leads back into the branch under exploration adds a cycle to
/// `cycles`.
fn dfs_detect_cycles(
    edges: &Vec<Vec<usize>>,
    node: usize,
    visited: &mut Vec<bool>,
    rec_stack: &mut Vec<bool>,
    path: &mut Vec<usize>,
    cycles: &mut Vec<Vec<usize>>,
    Ghost(rank): Ghost<Seq<int>>,
    Ghost(clock): Ghost<int>,
    Ghost(depth): Ghost<nat>,
) -> (finished: Ghost<(Seq<int>, int)>)
    requires
        targets_in_range(adjacency(edges@)),
        node < edges@.len(),
        !old(visited)@[node as int],
        depth >= unvisited(old(visited)@),
        search_inv(
            adjacency(edges@),
            old(visited)@,
            old(rec_stack)@,
            old(path)@,
            old(cycles)@,
            rank,
            clock,
        ),
        old(path)@.len() > 0 ==> has_edge(
            adjacency(edges@),
            old(path)@[old(path)@.len() - 1],
            node,
        ),
    ensures
        search_inv(
            adjacency(edges@),
            final(visited)@,
            final(rec_stack)@,
            final(path)@,
            final(cycles)@,
            finished@.0,
            finished@.1,
        ),
        final(path)@ == old(path)@,
        final(rec_stack)@ == old(rec_stack)@,
        final(visited)@[node as int],
        forall|x: int| 0 <= x < old(visited)@.len() && old(visited)@[x] ==> final(visited)@[x],
        forall|x: int| 0 <= x < rank.len() && rank[x] >= 0 ==> finished@.0[x] == rank[x],
        old(cycles)@.len() <= final(cycles)@.len(),
        state_of(final(visited)@, final(rec_stack)@, final(path)@, final(cycles)@) == explore(
            adjacency(edges@),
            state_of(old(visited)@, old(rec_stack)@, old(path)@, old(cycles)@),
            node,
            depth,
        ),
    decreases unvisited(old(visited)@),
{
    let ghost g = adjacency(edges@);
    let ghost before_all = state_of(old(visited)@, old(rec_stack)@, old(path)@, old(cycles)@);
    visited.set(node, true);
    rec_stack.set(node, true);
    path.push(node);
    let ghost mut rank_now = rank;
    let ghost mut clock_now = clock;
    proof {
        unvisited_after_visit(old(visited)@, node as int);
        assert forall|x: int| 0 <= x < g.len() && #[trigger] rec_stack@[x] implies visited@[x]
            && path@.contains(x as usize) by {
            if x == node {
                assert(path@[path@.len() - 1] == node);
            } else {
                let w = choose|w: int| 0 <= w < old(path)@.len() && old(path)@[w] == x as usize;
                assert(path@[w] == x as usize);
            }
        }
        assert forall|k: int| 0 <= k < path@.len() - 1 implies has_edge(
            g,
            #[trigger] path@[k],
            path@[k + 1],
        ) by {
            if k + 1 < path@.len() - 1 {
                assert(has_edge(g, old(path)@[k], old(path)@[k + 1]));
            }
        }
    }
    let neighbors = &edges[node];
    let ghost entered = state_of(visited@, rec_stack@, path@, cycles@);
    let ghost below = (depth - 1) as nat;
    let mut k: usize = 0;
    while k < neighbors.len()
        invariant
            depth >= 1,
            below == depth - 1,
            below >= unvisited(visited@),
            explore_edges(g, state_of(visited@, rec_stack@, path@, cycles@), node, k as int, below)
                == explore_edges(g, entered, node, 0, below),
            g == adjacency(edges@),
            targets_in_range(g),
            node < edges@.len(),
            neighbors@ == g[node as int],
            k <= neighbors.len(),
            search_inv(g, visited@, rec_stack@, path@, cycles@, rank_now, clock_now),
            path@ == old(path)@.push(node),
            rec_stack@ == old(rec_stack)@.update(node as int, true),
            old(visited)@.len() == g.len(),
            rank.len() == g.len(),
            visited@[node as int],
            forall|x: int| 0 <= x < old(visited)@.len() && old(visited)@[x] ==> visited@[x],
            forall|x: int| 0 <= x < rank.len() && rank[x] >= 0 ==> rank_now[x] == rank[x],
            unvisited(visited@) < unvisited(old(visited)@),
            old(cycles)@.len() <= cycles@.len(),
            cycles@.len() == 0 ==> forall|j: int|
                0 <= j < k ==> rank_now[(#[trigger] neighbors@[j]) as int] >= 0,
        decreases neighbors.len() - k,
    {
        let neighbor = neighbors[k];
        assert(g[node as int][k as int] < g.len());
        assert(has_edge(g, node, neighbor)) by {
            assert(g[node as int][k as int] == neighbor);
        }
        let ghost here = state_of(visited@, rec_stack@, path@, cycles@);
        if !visited[neighbor] {
            let ghost before = visited@;
            let finished = dfs_detect_cycles(
                edges,
                neighbor,
                visited,
                rec_stack,
                path,
                cycles,
                Ghost(rank_now),
                Ghost(clock_now),
                Ghost(below),
            );
            proof {
                unvisited_never_grows(before, visited@);
                rank_now = finished@.0;
                clock_now = finished@.1;
            }
        } else if rec_stack[neighbor] {
            let cycle = close_cycle(path, neighbor, Ghost(g));
            cycles.push(cycle);
            assert(adjacency(cycles@) =~= here.cycles.push(cycle@));
        }
        assert(state_of(visited@, rec_stack@, path@, cycles@) == follow_edge(
            g,
            here,
            neighbor,
            below,
        ));
        k += 1;
    }
    let ghost done = state_of(visited@, rec_stack@, path@, cycles@);
    path.pop();
    rec_stack.set(node, false);
    proof {
        assert(done == explore_edges(g, entered, node, 0, below));
        assert(path@ =~= done.path.drop_last());
        assert(entered.visited =~= before_all.visited.update(node as int, true));
        assert(entered == (SearchState {
            visited: before_all.visited.update(node as int, true),
            on_stack: before_all.on_stack.update(node as int, true),
            path: before_all.path.push(node),
            cycles: before_all.cycles,
        }));
        assert(path@ =~= old(path)@);
        assert(rec_stack@ =~= old(rec_stack)@);
        assert(rank_now[node as int] < 0);
        let ghost rank_before = rank_now;
        rank_now = rank_now.update(node as int, clock_now);
        clock_now = clock_now + 1;
        assert(cycles@.len() == 0 ==> forall|a: int, j: int|
            0 <= a < g.len() && 0 <= j < g[a].len() && rank_now[a] >= 0 ==> 0 <= rank_now[(
            #[trigger] g[a][j]) as int] < rank_now[a]) by {
            if cycles@.len() == 0 {
                assert forall|a: int, j: int|
                    0 <= a < g.len() && 0 <= j < g[a].len() && rank_now[a] >= 0 implies 0
                    <= rank_now[(#[trigger] g[a][j]) as int] < rank_now[a] by {
                    let e = g[a][j];
                    if a == node {
                        assert(neighbors@[j] == e);
                        assert(rank_before[e as int] >= 0);
                    } else {
                        assert(0 <= rank_before[e as int] < rank_before[a]);
                    }
                }
            }
        }
    }
    Ghost((rank_now, clock_now))
}

/// Finds the circular imports of a graph. Each result is a simple cycle of
/// the graph, and there is a result exactly when the graph holds a cycle.
pub fn find_cycles(edges: &Vec<Vec<usize>>) -> (cycles: Vec<Vec<usize>>)
    requires
        targets_in_range(adjacency(edges@)),
    ensures
        adjacency(cycles@) == found_cycles(adjacency(edges@)),
        forall|c: int|
            0 <= c < cycles@.len() ==> is_simple_cycle(adjacency(edges@), (#[trigger] cycles@[c])@),
        (cycles@.len() == 0) <==> !has_cycle(adjacency(edges@)),
{
    let ghost g = adjacency(edges@);
    let n = edges.len();
    let mut visited: Vec<bool> = vec![false; n];
    let mut rec_stack: Vec<bool> = vec![false; n];
    let mut path: Vec<usize> = Vec::new();
    let mut cycles: Vec<Vec<usize>> = Vec::new();
    let ghost mut rank: Seq<int> = Seq::new(n as nat, |x: int| -1int);
    let ghost mut clock: int = 0;
    let mut root: usize = 0;
    proof {
        assert(visited@ =~= initial_state(n as nat).visited);
        assert(rec_stack@ =~= initial_state(n as nat).on_stack);
        assert(path@ =~= initial_state(n as nat).path);
        assert(adjacency(cycles@) =~= initial_state(n as nat).cycles);
    }
    while root < n
        invariant
            g == adjacency(edges@),
            targets_in_range(g),
            n == edges@.len(),
            root <= n,
            path@.len() == 0,
            search_from(g, state_of(visited@, rec_stack@, path@, cycles@), root as int)
                == search_from(g, initial_state(n as nat), 0),
            search_inv(g, visited@, rec_stack@, path@, cycles@, rank, clock),
            forall|x: int| 0 <= x < root ==> visited@[x],
        decreases n - root,
    {
        if !visited[root] {
            proof {
                unvisited_is_bounded(visited@);
            }
            let finished = dfs_detect_cycles(
                edges,
                root,
                &mut visited,
                &mut rec_stack,
                &mut path,
                &mut cycles,
                Ghost(rank),
                Ghost(clock),
                Ghost(n as nat),
            );
            proof {
                rank = finished@.0;
                clock = finished@.1;
            }
        }
        root += 1;
    }
    proof {
        if cycles@.len() == 0 {
            assert forall|x: int| 0 <= x < n implies !rec_stack@[x] by {
                if rec_stack@[x] {
                    assert(path@.contains(x as usize));
                }
            }
            assert forall|a: int, j: int| 0 <= a < g.len() && 0 <= j < g[a].len() implies rank[(
            #[trigger] g[a][j]) as int] < rank[a] by {
                assert(rank[a] >= 0);
            }
            ranked_graph_has_no_cycle(g, rank);
        } else {
            assert(is_simple_cycle(g, cycles@[0]@));
        }
    }
    cycles
}

} // verus!
