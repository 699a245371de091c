//! The mathematical model of the dependency graph, and how a set of files
//! with their imports determines it.

use crate::resolve::{is_internal_key, normalized_path, resolved_import};
use crate::search::{
    found_cycles, has_cycle, is_closed_walk, is_simple_cycle, targets_in_range,
};
use vstd::prelude::*;

verus! {

/// One file handed to the graph builder: its path and the specifiers of its
/// imports in source order, or `None` where they could not be extracted.
#[derive(Debug)]
pub struct FileImports {
    pub path: String,
    pub imports: Option<Vec<String>>,
}

/// A directed graph of files. `keys[i]` is the key of node `i`, and
/// `edges[i]` lists the nodes that node `i` imports, one entry per import
/// statement, in source order.
pub struct Graph {
    pub keys: Seq<Seq<char>>,
    pub edges: Seq<Seq<usize>>,
}

impl Graph {
    /// The graph without nodes.
    pub open spec fn empty() -> Graph {
        Graph { keys: Seq::empty(), edges: Seq::empty() }
    }

    /// No key stands twice, every node has its edge list, and every edge
    /// leads to a node.
    pub open spec fn wf(self) -> bool {
        &&& self.keys.len() == self.edges.len()
        &&& self.keys.no_duplicates()
        &&& targets_in_range(self.edges)
    }

    /// The graph with a node for `key`: unchanged where it has one, else
    /// with a new last node without edges.
    pub open spec fn with_node(self, key: Seq<char>) -> Graph {
        if self.keys.contains(key) {
            self
        } else {
            Graph { keys: self.keys.push(key), edges: self.edges.push(Seq::empty()) }
        }
    }

    /// The graph with one more edge from the node of `from` to the node of
    /// `to`, appended to the edges of `from`; both nodes are added where
    /// they are missing.
    pub open spec fn with_edge(self, from: Seq<char>, to: Seq<char>) -> Graph {
        let g = self.with_node(from).with_node(to);
        let a = g.keys.index_of(from);
        let b = g.keys.index_of(to);
        Graph { keys: g.keys, edges: g.edges.update(a, g.edges[a].push(b as usize)) }
    }

    /// A walk of at least one import that ends at the node it starts from.
    pub open spec fn is_closed_walk(self, walk: Seq<usize>) -> bool {
        is_closed_walk(self.edges, walk)
    }

    /// A closed walk that passes through no file twice, but for the file
    /// that it starts from and ends at.
    pub open spec fn is_simple_cycle(self, walk: Seq<usize>) -> bool {
        is_simple_cycle(self.edges, walk)
    }

    /// The graph holds a circular import.
    pub open spec fn has_cycle(self) -> bool {
        has_cycle(self.edges)
    }

    /// The cycles that the search of the graph finds, in the order in which
    /// it finds them, each as the keys of its files.
    pub open spec fn cycles(self) -> Seq<Seq<Seq<char>>> {
        let found = found_cycles(self.edges);
        Seq::new(found.len(), |c: int| self.labels(found[c]))
    }

    /// The keys of the nodes of a walk.
    pub open spec fn labels(self, walk: Seq<usize>) -> Seq<Seq<char>> {
        Seq::new(walk.len(), |k: int| self.keys[walk[k] as int])
    }
}

/// The graph after the imports of `file` from position `from` on have been
/// added to `g`. An import adds an edge where it resolves to an existing
/// file whose key is internal.
pub open spec fn with_imports(
    g: Graph,
    root: Seq<char>,
    file: Seq<char>,
    imports: Seq<String>,
    existing: Seq<String>,
    from: int,
) -> Graph
    decreases imports.len() - from,
{
    if from < 0 || from >= imports.len() {
        g
    } else {
        with_imports(
            with_import(g, root, file, imports[from]@, existing),
            root,
            file,
            imports,
            existing,
            from + 1,
        )
    }
}

/// The graph after one import of `file` has been added to `g`.
pub open spec fn with_import(
    g: Graph,
    root: Seq<char>,
    file: Seq<char>,
    import: Seq<char>,
    existing: Seq<String>,
) -> Graph {
    match resolved_import(file, import, existing) {
        Some(target) => {
            let key = normalized_path(root, target);
            if is_internal_key(key) {
                g.with_edge(normalized_path(root, file), key)
            } else {
                g
            }
        },
        None => g,
    }
}

/// The graph after one file has been added to `g`: its node, then its
/// imports in order. A file whose imports could not be extracted adds its
/// node alone.
pub open spec fn with_file(g: Graph, root: Seq<char>, file: FileImports, existing: Seq<String>) -> Graph {
    let with_node = g.with_node(normalized_path(root, file.path@));
    match file.imports {
        None => with_node,
        Some(imports) => with_imports(with_node, root, file.path@, imports@, existing, 0),
    }
}

/// The graph after the files from position `from` on have been added to `g`,
/// in order.
pub open spec fn with_files(
    g: Graph,
    root: Seq<char>,
    files: Seq<FileImports>,
    existing: Seq<String>,
    from: int,
) -> Graph
    decreases files.len() - from,
{
    if from < 0 || from >= files.len() {
        g
    } else {
        with_files(with_file(g, root, files[from], existing), root, files, existing, from + 1)
    }
}

/// The number of files at or after `from` whose imports could not be
/// extracted.
pub open spec fn skipped_files(files: Seq<FileImports>, from: int) -> nat
    decreases files.len() - from,
{
    if from < 0 || from >= files.len() {
        0
    } else if files[from].imports is None {
        1 + skipped_files(files, from + 1)
    } else {
        skipped_files(files, from + 1)
    }
}

/// In a well-formed graph a key has one position.
pub proof fn key_position_is_unique(g: Graph, key: Seq<char>, a: int)
    requires
        g.wf(),
        0 <= a < g.keys.len(),
        g.keys[a] == key,
    ensures
        g.keys.index_of(key) == a,
{
    let i = g.keys.index_of(key);
    assert(0 <= i < g.keys.len() && g.keys[i] == key);
}

/// The graph of a set of files depends on nothing but the project root, the
/// files with their imports, and the files that exist: two builds from the
/// same three have the same nodes, in the same order, and the same edges.
pub proof fn build_is_repeatable(
    root: Seq<char>,
    files: Seq<FileImports>,
    existing: Seq<String>,
    first: Graph,
    second: Graph,
)
    requires
        first == with_files(Graph::empty(), root, files, existing, 0),
        second == with_files(Graph::empty(), root, files, existing, 0),
    ensures
        first.keys == second.keys,
        first.edges == second.edges,
        first.keys.to_set() == second.keys.to_set(),
        forall|a: int|
            0 <= a < first.edges.len() ==> (#[trigger] first.edges[a]).to_multiset()
                == second.edges[a].to_multiset(),
{
}

/// A graph with a node added is well formed, and holds that node.
pub proof fn with_node_is_well_formed(g: Graph, key: Seq<char>)
    requires
        g.wf(),
    ensures
        g.with_node(key).wf(),
        g.with_node(key).keys.contains(key),
{
    let after = g.with_node(key);
    if !g.keys.contains(key) {
        assert(after.keys[g.keys.len() as int] == key);
        assert forall|i: int, j: int|
            0 <= i < after.keys.len() && 0 <= j < after.keys.len() && i != j implies after.keys[i]
            != after.keys[j] by {
            if i < g.keys.len() {
                assert(g.keys.contains(g.keys[i]));
            }
            if j < g.keys.len() {
                assert(g.keys.contains(g.keys[j]));
            }
        }
    }
}

/// Two files whose paths have one key stand for one node: where the first
/// is in the graph, adding the second changes nothing. So it is with paths
/// that differ by letter case or by the style of their separators alone.
pub proof fn files_with_one_key_share_a_node(
    g: Graph,
    root: Seq<char>,
    first: Seq<char>,
    second: Seq<char>,
)
    requires
        g.wf(),
        normalized_path(root, first) == normalized_path(root, second),
    ensures
        g.with_node(normalized_path(root, first)).with_node(normalized_path(root, second))
            == g.with_node(normalized_path(root, first)),
{
    with_node_is_well_formed(g, normalized_path(root, first));
}

/// Every node of a closed walk of a graph is a node of that graph.
pub proof fn closed_walk_stays_in_graph(g: Graph, walk: Seq<usize>)
    requires
        g.wf(),
        g.is_closed_walk(walk),
    ensures
        forall|k: int| 0 <= k < walk.len() ==> (#[trigger] walk[k]) < g.keys.len(),
{
    assert forall|k: int| 0 <= k < walk.len() implies (#[trigger] walk[k]) < g.keys.len() by {
        if k < walk.len() - 1 {
            assert(crate::search::has_edge(g.edges, walk[k], walk[k + 1]));
        } else {
            assert(crate::search::has_edge(g.edges, walk[0], walk[1]));
        }
    }
}

/// The texts of a list of strings.
pub open spec fn texts(list: Seq<String>) -> Seq<Seq<char>> {
    Seq::new(list.len(), |i: int| list[i]@)
}

/// The lines of a cycle's description from position `from` on: one line for
/// each import, from the importing file to the imported one.
pub open spec fn hops_text(cycle: Seq<Seq<char>>, from: int) -> Seq<char>
    decreases cycle.len() - from,
{
    if from < 0 || from + 1 >= cycle.len() {
        Seq::empty()
    } else {
        "  "@ + cycle[from] + " → "@ + cycle[from + 1] + "\n"@ + hops_text(cycle, from + 1)
    }
}

/// The description of a cycle: a heading, a line for each import, and a
/// closing remark.
pub open spec fn cycle_description(cycle: Seq<Seq<char>>) -> Seq<char> {
    if cycle.len() == 0 {
        "Ciclo vacío"@
    } else {
        "Dependencia cíclica detectada:\n"@ + hops_text(cycle, 0)
            + "\n  ⚠️  Esto rompe la jerarquía de capas y crea acoplamiento circular."@
    }
}

} // verus!
