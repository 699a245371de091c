//! The project-wide dependency graph and the search for circular imports.

use crate::graph::{
    closed_walk_stays_in_graph, cycle_description, hops_text, key_position_is_unique,
    skipped_files, texts, with_file, with_files, with_import, with_imports, FileImports, Graph,
};
use crate::resolve::{
    is_internal, is_internal_key, normalize, normalized_path, resolve_import, resolved_import,
};
use crate::search::{adjacency, find_cycles};
use crate::text::same_text;
use vstd::prelude::*;
use vstd::string::*;

verus! {

/// A circular import that was found.
#[derive(Debug)]
pub struct CircularDependency {
    /// The keys of the files of the cycle; the first stands again at the end.
    pub cycle: Vec<String>,
    /// The cycle in words, one line per import.
    pub description: String,
}

/// `found` reports a circular import of the graph `g`: its keys are those of
/// a simple cycle of `g`, and its description is that of those keys.
pub open spec fn reports_cycle(g: Graph, found: CircularDependency) -> bool {
    &&& exists|walk: Seq<usize>| #[trigger]
        g.is_simple_cycle(walk) && g.labels(walk) == texts(found.cycle@)
    &&& found.description@ == cycle_description(texts(found.cycle@))
}

/// `reports` is what the search of the graph `g` gives: one report for each
/// cycle that the search finds, in the order in which it finds them, with
/// the keys of the cycle's files and their description.
pub open spec fn is_report_of(g: Graph, reports: Seq<CircularDependency>) -> bool {
    &&& reports.len() == g.cycles().len()
    &&& forall|c: int|
        0 <= c < reports.len() ==> texts((#[trigger] reports[c]).cycle@) == g.cycles()[c]
            && reports[c].description@ == cycle_description(g.cycles()[c])
}

/// Builds the dependency graph of a project and finds its circular imports.
pub struct CircularDependencyAnalyzer {
    nodes: Vec<String>,
    edges: Vec<Vec<usize>>,
    project_root: String,
}

impl CircularDependencyAnalyzer {
    /// The graph built so far.
    pub closed spec fn graph(&self) -> Graph {
        Graph {
            keys: Seq::new(self.nodes@.len(), |i: int| self.nodes@[i]@),
            edges: Seq::new(self.edges@.len(), |i: int| self.edges@[i]@),
        }
    }

    /// The project root that file paths are taken relative to.
    pub closed spec fn root(&self) -> Seq<char> {
        self.project_root@
    }

    /// The graph is well formed.
    pub open spec fn wf(&self) -> bool {
        self.graph().wf()
    }

    /// An analyzer with an empty graph.
    pub fn new(project_root: &str) -> (r: Self)
        ensures
            r.wf(),
            r.root() == project_root@,
            r.graph() == Graph::empty(),
    {
        let r = CircularDependencyAnalyzer {
            nodes: Vec::new(),
            edges: Vec::new(),
            project_root: project_root.to_owned(),
        };
        assert(r.graph().keys =~= Seq::empty());
        assert(r.graph().edges =~= Seq::empty());
        r
    }

    /// The position of the node with the given key.
    pub fn find_node(&self, key: &str) -> (r: Option<usize>)
        ensures
            match r {
                Some(i) => i < self.graph().keys.len() && self.graph().keys[i as int] == key@,
                None => !self.graph().keys.contains(key@),
            },
    {
        let mut i: usize = 0;
        while i < self.nodes.len()
            invariant
                i <= self.nodes.len(),
                forall|j: int| 0 <= j < i ==> (#[trigger] self.nodes@[j])@ != key@,
            decreases self.nodes.len() - i,
        {
            if same_text(self.nodes[i].as_str(), key) {
                return Some(i);
            }
            i += 1;
        }
        assert forall|j: int| 0 <= j < self.graph().keys.len() implies self.graph().keys[j]
            != key@ by {
            assert(self.nodes@[j]@ != key@);
        }
        None
    }

    /// Makes sure that the graph has a node for `key` and gives its position.
    pub fn ensure_node(&mut self, key: String) -> (r: usize)
        requires
            old(self).wf(),
        ensures
            final(self).wf(),
            final(self).root() == old(self).root(),
            final(self).graph() == old(self).graph().with_node(key@),
            r < final(self).graph().keys.len(),
            final(self).graph().keys[r as int] == key@,
    {
        match self.find_node(key.as_str()) {
            Some(i) => {
                assert(old(self).graph().keys.contains(key@));
                i
            },
            None => {
                let i = self.nodes.len();
                self.nodes.push(key);
                self.edges.push(Vec::new());
                assert(self.graph().keys =~= old(self).graph().keys.push(key@));
                assert(self.graph().edges =~= old(self).graph().edges.push(Seq::empty()));
                i
            },
        }
    }

    /// Adds one import of the file with key `from` of the file with key `to`.
    pub fn add_edge(&mut self, from: String, to: String)
        requires
            old(self).wf(),
        ensures
            final(self).wf(),
            final(self).root() == old(self).root(),
            final(self).graph() == old(self).graph().with_edge(from@, to@),
    {
        let a = self.ensure_node(from);
        let b = self.ensure_node(to);
        let ghost g = self.graph();
        proof {
            key_position_is_unique(g, from@, a as int);
            key_position_is_unique(g, to@, b as int);
        }
        self.edges[a].push(b);
        assert(self.graph().keys =~= g.keys);
        assert(self.graph().edges =~= g.edges.update(a as int, g.edges[a as int].push(b)));
    }
    /// The graph key of a file.
    pub fn normalize_file_path(&self, path: &str) -> (r: String)
        ensures
            r@ == normalized_path(self.root(), path@),
    {
        normalize(self.project_root.as_str(), path)
    }

    /// Whether a key is the project's own, and not that of a vendored
    /// dependency.
    pub fn is_internal_dependency(&self, path: &str) -> (r: bool)
        ensures
            r == is_internal_key(path@),
    {
        is_internal(path)
    }

    /// The file that an import of `current_file` names, among the files in
    /// `existing`.
    pub fn resolve_import_path(
        &self,
        current_file: &str,
        import_path: &str,
        existing: &Vec<String>,
    ) -> (r: Option<String>)
        ensures
            match r {
                Some(p) => resolved_import(current_file@, import_path@, existing@) == Some(p@),
                None => resolved_import(current_file@, import_path@, existing@) is None,
            },
    {
        resolve_import(current_file, import_path, existing)
    }

    /// Adds one import of `file` to the graph.
    fn add_import(&mut self, file: &str, import: &str, existing: &Vec<String>)
        requires
            old(self).wf(),
        ensures
            final(self).wf(),
            final(self).root() == old(self).root(),
            final(self).graph() == with_import(
                old(self).graph(),
                old(self).root(),
                file@,
                import@,
                existing@,
            ),
    {
        match self.resolve_import_path(file, import, existing) {
            Some(target) => {
                let key = self.normalize_file_path(target.as_str());
                if self.is_internal_dependency(key.as_str()) {
                    let current = self.normalize_file_path(file);
                    self.add_edge(current, key);
                }
            },
            None => {},
        }
    }

    /// Adds one file to the graph: its node, then an edge for each of its
    /// imports that resolves to an internal file.
    fn add_file(&mut self, file: &FileImports, existing: &Vec<String>) -> (skipped: bool)
        requires
            old(self).wf(),
        ensures
            final(self).wf(),
            final(self).root() == old(self).root(),
            final(self).graph() == with_file(
                old(self).graph(),
                old(self).root(),
                *file,
                existing@,
            ),
            skipped == (file.imports is None),
    {
        let key = self.normalize_file_path(file.path.as_str());
        let _ = self.ensure_node(key);
        match &file.imports {
            None => true,
            Some(imports) => {
                let ghost start = self.graph();
                let mut i: usize = 0;
                while i < imports.len()
                    invariant
                        i <= imports.len(),
                        self.wf(),
                        self.root() == old(self).root(),
                        with_imports(
                            start,
                            self.root(),
                            file.path@,
                            imports@,
                            existing@,
                            0,
                        ) == with_imports(
                            self.graph(),
                            self.root(),
                            file.path@,
                            imports@,
                            existing@,
                            i as int,
                        ),
                    decreases imports.len() - i,
                {
                    self.add_import(file.path.as_str(), imports[i].as_str(), existing);
                    i += 1;
                }
                false
            },
        }
    }

    /// Adds the given files to the graph, in order. `existing` lists the
    /// files that imports may resolve to. A file whose imports could not be
    /// extracted gets its node and no edges; the result counts those files.
    pub fn build_graph(&mut self, files: &Vec<FileImports>, existing: &Vec<String>) -> (skipped:
        usize)
        requires
            old(self).wf(),
        ensures
            final(self).wf(),
            final(self).root() == old(self).root(),
            final(self).graph() == with_files(
                old(self).graph(),
                old(self).root(),
                files@,
                existing@,
                0,
            ),
            skipped == skipped_files(files@, 0),
    {
        let mut skipped: usize = 0;
        let mut i: usize = 0;
        while i < files.len()
            invariant
                i <= files.len(),
                self.wf(),
                self.root() == old(self).root(),
                with_files(old(self).graph(), self.root(), files@, existing@, 0) == with_files(
                    self.graph(),
                    self.root(),
                    files@,
                    existing@,
                    i as int,
                ),
                skipped <= i,
                skipped_files(files@, 0) == skipped + skipped_files(files@, i as int),
            decreases files.len() - i,
        {
            if self.add_file(&files[i], existing) {
                skipped += 1;
            }
            i += 1;
        }
        skipped
    }
    /// The number of nodes of the graph.
    pub fn node_count(&self) -> (r: usize)
        ensures
            r == self.graph().keys.len(),
    {
        self.nodes.len()
    }

    /// The key of node `i`.
    pub fn node_key(&self, i: usize) -> (r: &String)
        requires
            i < self.graph().keys.len(),
        ensures
            r@ == self.graph().keys[i as int],
    {
        &self.nodes[i]
    }

    /// The nodes that node `i` imports, one entry per import.
    pub fn edges_of(&self, i: usize) -> (r: &Vec<usize>)
        requires
            self.wf(),
            i < self.graph().keys.len(),
        ensures
            r@ == self.graph().edges[i as int],
    {
        &self.edges[i]
    }

    /// Describes a cycle in words.
    pub fn format_cycle_description(&self, cycle: &Vec<String>) -> (r: String)
        ensures
            r@ == cycle_description(texts(cycle@)),
    {
        if cycle.len() == 0 {
            return "Ciclo vacío".to_owned();
        }
        let ghost names = texts(cycle@);
        let mut desc = "Dependencia cíclica detectada:\n".to_owned();
        let mut i: usize = 0;
        while i < cycle.len() - 1
            invariant
                cycle@.len() > 0,
                names == texts(cycle@),
                i <= cycle@.len() - 1,
                desc@ + hops_text(names, i as int) == "Dependencia cíclica detectada:\n"@
                    + hops_text(names, 0),
            decreases cycle.len() - i,
        {
            let ghost before = desc@;
            desc.append("  ");
            desc.append(cycle[i].as_str());
            desc.append(" → ");
            desc.append(cycle[i + 1].as_str());
            desc.append("\n");
            assert(desc@ + hops_text(names, i + 1) =~= before + hops_text(names, i as int));
            i += 1;
        }
        assert(desc@ =~= desc@ + hops_text(names, i as int));
        desc.append("\n  ⚠️  Esto rompe la jerarquía de capas y crea acoplamiento circular.");
        desc
    }

    /// The keys of the nodes of a walk.
    fn names_of(&self, walk: &Vec<usize>) -> (r: Vec<String>)
        requires
            forall|k: int| 0 <= k < walk@.len() ==> (#[trigger] walk@[k]) < self.graph().keys.len(),
        ensures
            texts(r@) == self.graph().labels(walk@),
    {
        let mut names: Vec<String> = Vec::new();
        let mut k: usize = 0;
        while k < walk.len()
            invariant
                k <= walk.len(),
                names@.len() == k,
                forall|i: int|
                    0 <= i < walk@.len() ==> (#[trigger] walk@[i]) < self.graph().keys.len(),
                forall|i: int| 0 <= i < k ==> (#[trigger] names@[i])@ == self.nodes@[walk@[i] as int]@,
            decreases walk.len() - k,
        {
            assert(walk@[k as int] < self.graph().keys.len());
            names.push(self.nodes[walk[k]].clone());
            k += 1;
        }
        assert(texts(names@) =~= self.graph().labels(walk@));
        names
    }

    /// Searches the graph for circular imports, depth first, from each node
    /// in turn that an earlier search has not reached. Every result reports
    /// a simple cycle of the graph, and the list is empty exactly when the
    /// graph holds no cycle.
    pub fn detect_cycles(&self) -> (r: Vec<CircularDependency>)
        requires
            self.wf(),
        ensures
            is_report_of(self.graph(), r@),
            forall|c: int| 0 <= c < r@.len() ==> reports_cycle(self.graph(), #[trigger] r@[c]),
            (r@.len() == 0) <==> !self.graph().has_cycle(),
    {
        assert(adjacency(self.edges@) =~= self.graph().edges);
        let walks = find_cycles(&self.edges);
        let mut out: Vec<CircularDependency> = Vec::new();
        let mut c: usize = 0;
        while c < walks.len()
            invariant
                self.wf(),
                c <= walks.len(),
                out@.len() == c,
                forall|i: int|
                    0 <= i < walks@.len() ==> self.graph().is_simple_cycle((#[trigger] walks@[i])@),
                forall|i: int| 0 <= i < c ==> reports_cycle(self.graph(), #[trigger] out@[i]),
                forall|i: int|
                    0 <= i < c ==> texts((#[trigger] out@[i]).cycle@) == self.graph().labels(
                        walks@[i]@,
                    ) && out@[i].description@ == cycle_description(texts(out@[i].cycle@)),
            decreases walks.len() - c,
        {
            proof {
                closed_walk_stays_in_graph(self.graph(), walks@[c as int]@);
            }
            let names = self.names_of(&walks[c]);
            let description = self.format_cycle_description(&names);
            let found = CircularDependency { cycle: names, description };
            assert(self.graph().is_simple_cycle(walks@[c as int]@));
            assert(reports_cycle(self.graph(), found));
            out.push(found);
            c += 1;
        }
        assert(self.graph().cycles().len() == walks@.len());
        assert forall|i: int| 0 <= i < out@.len() implies texts((#[trigger] out@[i]).cycle@)
            == self.graph().cycles()[i] by {
            assert(adjacency(walks@)[i] == walks@[i]@);
        }
        out
    }
}

/// Finds the circular imports of a project: builds the graph of the given
/// files from nothing and searches it once. The second result counts the
/// files whose imports could not be extracted.
pub fn analyze_circular_dependencies(
    files: &Vec<FileImports>,
    project_root: &str,
    existing: &Vec<String>,
) -> (r: (Vec<CircularDependency>, usize))
    ensures
        ({
            let g = with_files(Graph::empty(), project_root@, files@, existing@, 0);
            &&& is_report_of(g, r.0@)
            &&& forall|c: int| 0 <= c < r.0@.len() ==> reports_cycle(g, #[trigger] r.0@[c])
            &&& (r.0@.len() == 0) <==> !g.has_cycle()
            &&& r.1 == skipped_files(files@, 0)
        }),
{
    let mut analyzer = CircularDependencyAnalyzer::new(project_root);
    let skipped = analyzer.build_graph(files, existing);
    (analyzer.detect_cycles(), skipped)
}

} // verus!
