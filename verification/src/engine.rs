//! The run over a whole project: the rule check of every file, the search
//! for circular imports, and the verdict.

use crate::analyzer::{analyze_file, first_violation, SourceItem, Violation};
use crate::circular::{
    analyze_circular_dependencies, is_report_of, reports_cycle, CircularDependency,
};
use crate::config::LinterContext;
use crate::graph::{skipped_files, with_files, FileImports, Graph};
use vstd::prelude::*;

verus! {

/// One file handed to the rule checker: its path and its top-level items in
/// source order, or `None` where the file could not be parsed.
#[derive(Debug)]
pub struct ExtractedFile {
    pub path: String,
    pub items: Option<Vec<SourceItem>>,
}

impl ExtractedFile {
    /// Every item of the file is well formed.
    pub open spec fn wf(self) -> bool {
        match self.items {
            Some(items) => forall|i: int| 0 <= i < items@.len() ==> (#[trigger] items@[i]).wf(),
            None => true,
        }
    }
}

/// What the rule check of one file came to.
#[derive(Debug)]
pub enum FileOutcome {
    /// The file breaks no rule.
    Clean,
    /// The file could not be parsed. It counts as a violation.
    ParseFailure,
    /// The first rule that the file breaks.
    Violation(Violation),
}

/// The outcome of one file under the given rules.
pub open spec fn file_outcome(file: ExtractedFile, ctx: LinterContext) -> FileOutcome {
    match file.items {
        None => FileOutcome::ParseFailure,
        Some(items) => match first_violation(file.path@, items@, ctx) {
            Some(v) => FileOutcome::Violation(v),
            None => FileOutcome::Clean,
        },
    }
}

/// The number of files at or after `from` that are not clean.
pub open spec fn violations_from(files: Seq<ExtractedFile>, ctx: LinterContext, from: int) -> nat
    decreases files.len() - from,
{
    if from < 0 || from >= files.len() {
        0
    } else if file_outcome(files[from], ctx) is Clean {
        violations_from(files, ctx, from + 1)
    } else {
        1 + violations_from(files, ctx, from + 1)
    }
}

/// The exit status of a run: 0 where no file is in violation and no cycle
/// was found, 1 otherwise.
pub open spec fn status_of(violation_count: nat, cycle_count: nat) -> int {
    if violation_count == 0 && cycle_count == 0 {
        0
    } else {
        1
    }
}

/// Checks one file against the rules.
pub fn check_file(file: &ExtractedFile, ctx: &LinterContext) -> (r: FileOutcome)
    requires
        file.wf(),
    ensures
        r == file_outcome(*file, *ctx),
{
    match &file.items {
        None => FileOutcome::ParseFailure,
        Some(items) => match analyze_file(file.path.as_str(), items, ctx) {
            Ok(_) => FileOutcome::Clean,
            Err(v) => FileOutcome::Violation(v),
        },
    }
}

/// Counts the files that are in violation, a file that could not be parsed
/// among them.
pub fn count_violations(files: &Vec<ExtractedFile>, ctx: &LinterContext) -> (count: usize)
    requires
        forall|i: int| 0 <= i < files@.len() ==> (#[trigger] files@[i]).wf(),
    ensures
        count == violations_from(files@, *ctx, 0),
{
    let mut count: usize = 0;
    let mut i: usize = 0;
    while i < files.len()
        invariant
            i <= files.len(),
            count <= i,
            forall|j: int| 0 <= j < files@.len() ==> (#[trigger] files@[j]).wf(),
            violations_from(files@, *ctx, 0) == count + violations_from(files@, *ctx, i as int),
        decreases files.len() - i,
    {
        assert(files@[i as int].wf());
        match check_file(&files[i], ctx) {
            FileOutcome::Clean => {},
            _ => {
                count += 1;
            },
        }
        i += 1;
    }
    count
}

/// The exit status of a run with the given counts.
pub fn exit_code(violation_count: usize, cycle_count: usize) -> (code: i32)
    ensures
        code == status_of(violation_count as nat, cycle_count as nat),
{
    if violation_count == 0 && cycle_count == 0 {
        0
    } else {
        1
    }
}

/// What a run found.
#[derive(Debug)]
pub struct RunReport {
    /// The number of files in violation.
    pub violation_count: usize,
    /// The circular imports of the project.
    pub cycles: Vec<CircularDependency>,
    /// The number of files whose imports could not be extracted for the
    /// graph. They are warnings, not violations.
    pub skipped_files: usize,
}

impl RunReport {
    /// The exit status that the report calls for.
    pub fn exit_code(&self) -> (code: i32)
        ensures
            code == status_of(self.violation_count as nat, self.cycles@.len()),
    {
        exit_code(self.violation_count, self.cycles.len())
    }
}

/// Runs the whole check: every file of `sources` against the rules, then the
/// search for circular imports over `imports`.
pub fn run(
    sources: &Vec<ExtractedFile>,
    imports: &Vec<FileImports>,
    ctx: &LinterContext,
    project_root: &str,
    existing: &Vec<String>,
) -> (report: RunReport)
    requires
        forall|i: int| 0 <= i < sources@.len() ==> (#[trigger] sources@[i]).wf(),
    ensures
        report.violation_count == violations_from(sources@, *ctx, 0),
        report.skipped_files == skipped_files(imports@, 0),
        ({
            let g = with_files(Graph::empty(), project_root@, imports@, existing@, 0);
            &&& is_report_of(g, report.cycles@)
            &&& forall|c: int|
                0 <= c < report.cycles@.len() ==> reports_cycle(g, #[trigger] report.cycles@[c])
            &&& (report.cycles@.len() == 0) <==> !g.has_cycle()
        }),
{
    let violation_count = count_violations(sources, ctx);
    let (cycles, skipped) = analyze_circular_dependencies(imports, project_root, existing);
    RunReport { violation_count, cycles, skipped_files: skipped }
}

} // verus!
