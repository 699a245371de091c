//! The per-file rule checker: forbidden imports and over-long methods.
//!
//! A file is handed over as the ordered list of its top-level items. The
//! checker walks that list once and stops at the first violation.

use crate::config::{ForbiddenRule, LinterContext};
use crate::text::{contains_text, decimal, lowercase, str_contains, to_decimal, to_lowercase};
use vstd::prelude::*;
use vstd::string::*;

verus! {

/// A range of byte offsets into the file that an item stands in.
#[derive(Debug, Clone, Copy, PartialEq, Eq, Structural)]
pub struct Span {
    pub lo: usize,
    pub hi: usize,
}

/// One `import` statement: the module specifier as written, and where the
/// statement stands.
#[derive(Debug)]
pub struct ImportDeclaration {
    pub source: String,
    pub span: Span,
}

/// One method of a class body, with the lines on which it starts and ends.
#[derive(Debug)]
pub struct MethodSpan {
    pub class_name: String,
    pub method_name: String,
    pub start_line: usize,
    pub end_line: usize,
    pub span: Span,
}

impl MethodSpan {
    /// A method does not end before it starts.
    pub open spec fn wf(self) -> bool {
        self.start_line <= self.end_line
    }

    /// The number of lines that the method is charged with.
    pub open spec fn line_count(self) -> int {
        self.end_line - self.start_line
    }
}

/// A top-level item of a file, in source order.
#[derive(Debug)]
pub enum SourceItem {
    Import(ImportDeclaration),
    Class(Vec<MethodSpan>),
}

impl SourceItem {
    pub open spec fn wf(self) -> bool {
        match self {
            SourceItem::Import(_) => true,
            SourceItem::Class(methods) => forall|m: int|
                0 <= m < methods@.len() ==> (#[trigger] methods@[m]).wf(),
        }
    }
}

/// What the checker found wrong with a file.
#[derive(Debug)]
pub enum Violation {
    /// An import that a rule forbids. `rule` is the configured rule that
    /// matched, or `None` for the built-in layering rule.
    ForbiddenImport { rule: Option<ForbiddenRule>, span: Span },
    /// A method longer than the limit.
    MethodTooLong {
        method_name: String,
        class_name: String,
        line_count: usize,
        max_lines: usize,
        span: Span,
    },
}

/// The message that tells the user of a violation.
pub open spec fn violation_message(v: Violation) -> Seq<char> {
    match v {
        Violation::ForbiddenImport { rule: Some(rule), .. } => "Restricción: Archivos en '"@
            + rule.from@ + "' no pueden importar de '"@ + rule.to@ + "'."@,
        Violation::ForbiddenImport { rule: None, .. } =>
            "MVC: Prohibido importar Repositorios en Controladores."@,
        Violation::MethodTooLong { line_count, max_lines, .. } => "Método demasiado largo ("@
            + decimal(line_count as nat) + " líneas). Máximo: "@ + decimal(max_lines as nat)
            + "."@,
    }
}

impl Violation {
    /// Where in the file the violation stands.
    pub fn span(&self) -> (r: Span)
        ensures
            r == (match *self {
                Violation::ForbiddenImport { span, .. } => span,
                Violation::MethodTooLong { span, .. } => span,
            }),
    {
        match self {
            Violation::ForbiddenImport { span, .. } => *span,
            Violation::MethodTooLong { span, .. } => *span,
        }
    }

    /// The message that tells the user of the violation.
    pub fn message(&self) -> (r: String)
        ensures
            r@ == violation_message(*self),
    {
        match self {
            Violation::ForbiddenImport { rule: Some(rule), .. } => {
                let mut text = "Restricción: Archivos en '".to_owned();
                text.append(rule.from.as_str());
                text.append("' no pueden importar de '");
                text.append(rule.to.as_str());
                text.append("'.");
                text
            },
            Violation::ForbiddenImport { rule: None, .. } => {
                "MVC: Prohibido importar Repositorios en Controladores.".to_owned()
            },
            Violation::MethodTooLong { line_count, max_lines, .. } => {
                let mut text = "Método demasiado largo (".to_owned();
                text.append(to_decimal(*line_count).as_str());
                text.append(" líneas). Máximo: ");
                text.append(to_decimal(*max_lines).as_str());
                text.append(".");
                text
            },
        }
    }
}

/// A configured rule forbids the import: the file's path contains the rule's
/// `from` and the specifier contains its `to`, all in lower case.
pub open spec fn rule_applies(
    path_lower: Seq<char>,
    source_lower: Seq<char>,
    rule: ForbiddenRule,
) -> bool {
    contains_text(path_lower, lowercase(rule.from@)) && contains_text(
        source_lower,
        lowercase(rule.to@),
    )
}

/// The built-in layering rule: a controller may not import a repository.
pub open spec fn builtin_rule_applies(path_lower: Seq<char>, source_lower: Seq<char>) -> bool {
    contains_text(path_lower, "controller"@) && contains_text(source_lower, ".repository"@)
}

/// The position of the first rule at or after `from` that forbids the import.
pub open spec fn first_applicable_rule(
    path_lower: Seq<char>,
    source_lower: Seq<char>,
    rules: Seq<ForbiddenRule>,
    from: int,
) -> Option<int>
    decreases rules.len() - from,
{
    if from < 0 || from >= rules.len() {
        None
    } else if rule_applies(path_lower, source_lower, rules[from]) {
        Some(from)
    } else {
        first_applicable_rule(path_lower, source_lower, rules, from + 1)
    }
}

/// The violation that one import gives rise to: the first configured rule
/// that forbids it, else the built-in rule, else none.
pub open spec fn import_violation(
    path_lower: Seq<char>,
    import: ImportDeclaration,
    rules: Seq<ForbiddenRule>,
) -> Option<Violation> {
    let source_lower = lowercase(import.source@);
    match first_applicable_rule(path_lower, source_lower, rules, 0) {
        Some(k) => Some(Violation::ForbiddenImport { rule: Some(rules[k]), span: import.span }),
        None => if builtin_rule_applies(path_lower, source_lower) {
            Some(Violation::ForbiddenImport { rule: None, span: import.span })
        } else {
            None
        },
    }
}

/// The position of the first method at or after `from` that is longer than
/// `max_lines`.
pub open spec fn first_long_method(methods: Seq<MethodSpan>, max_lines: usize, from: int) -> Option<
    int,
>
    decreases methods.len() - from,
{
    if from < 0 || from >= methods.len() {
        None
    } else if methods[from].line_count() > max_lines {
        Some(from)
    } else {
        first_long_method(methods, max_lines, from + 1)
    }
}

/// The violation that an over-long method gives rise to.
pub open spec fn too_long(method: MethodSpan, max_lines: usize) -> Violation {
    Violation::MethodTooLong {
        method_name: method.method_name,
        class_name: method.class_name,
        line_count: (method.end_line - method.start_line) as usize,
        max_lines,
        span: method.span,
    }
}

/// The violation that one class gives rise to: its first over-long method.
pub open spec fn class_violation(methods: Seq<MethodSpan>, max_lines: usize) -> Option<Violation> {
    match first_long_method(methods, max_lines, 0) {
        Some(m) => Some(too_long(methods[m], max_lines)),
        None => None,
    }
}

/// The violation that one item gives rise to, if any.
pub open spec fn item_violation(path_lower: Seq<char>, item: SourceItem, ctx: LinterContext) -> Option<
    Violation,
> {
    match item {
        SourceItem::Import(import) => import_violation(path_lower, import, ctx.forbidden_imports@),
        SourceItem::Class(methods) => class_violation(methods@, ctx.max_lines),
    }
}

/// The violation of the first item at or after `from` that has one.
pub open spec fn first_violation_from(
    path_lower: Seq<char>,
    items: Seq<SourceItem>,
    ctx: LinterContext,
    from: int,
) -> Option<Violation>
    decreases items.len() - from,
{
    if from < 0 || from >= items.len() {
        None
    } else {
        match item_violation(path_lower, items[from], ctx) {
            Some(v) => Some(v),
            None => first_violation_from(path_lower, items, ctx, from + 1),
        }
    }
}

/// What the checker reports for a file: the violation of its first
/// violating item, in source order.
pub open spec fn first_violation(path: Seq<char>, items: Seq<SourceItem>, ctx: LinterContext) -> Option<
    Violation,
> {
    first_violation_from(lowercase(path), items, ctx, 0)
}

/// Finds the first configured rule that forbids an import. Both texts are
/// expected in lower case; each rule's patterns are lowered here.
pub fn applicable_rule(path_lower: &str, source_lower: &str, rules: &Vec<ForbiddenRule>) -> (r:
    Option<usize>)
    ensures
        match r {
            Some(k) => k < rules@.len() && first_applicable_rule(
                path_lower@,
                source_lower@,
                rules@,
                0,
            ) == Some(k as int),
            None => first_applicable_rule(path_lower@, source_lower@, rules@, 0) is None,
        },
{
    let mut k: usize = 0;
    while k < rules.len()
        invariant
            k <= rules.len(),
            first_applicable_rule(path_lower@, source_lower@, rules@, 0) == first_applicable_rule(
                path_lower@,
                source_lower@,
                rules@,
                k as int,
            ),
        decreases rules.len() - k,
    {
        let from_lower = to_lowercase(rules[k].from.as_str());
        let to_lower = to_lowercase(rules[k].to.as_str());
        if str_contains(path_lower, from_lower.as_str()) && str_contains(
            source_lower,
            to_lower.as_str(),
        ) {
            return Some(k);
        }
        k += 1;
    }
    None
}

/// Checks one import against the configured rules, in their order, and then
/// against the built-in rule.
pub fn check_import(path_lower: &str, import: &ImportDeclaration, rules: &Vec<ForbiddenRule>) -> (r:
    Option<Violation>)
    ensures
        r == import_violation(path_lower@, *import, rules@),
{
    let source_lower = to_lowercase(import.source.as_str());
    match applicable_rule(path_lower, source_lower.as_str(), rules) {
        Some(k) => Some(
            Violation::ForbiddenImport { rule: Some(rules[k].clone()), span: import.span },
        ),
        None => {
            if str_contains(path_lower, "controller") && str_contains(
                source_lower.as_str(),
                ".repository",
            ) {
                Some(Violation::ForbiddenImport { rule: None, span: import.span })
            } else {
                None
            }
        },
    }
}

/// Checks the methods of one class, in declaration order.
pub fn check_class(methods: &Vec<MethodSpan>, max_lines: usize) -> (r: Option<Violation>)
    requires
        forall|m: int| 0 <= m < methods@.len() ==> (#[trigger] methods@[m]).wf(),
    ensures
        r == class_violation(methods@, max_lines),
{
    let mut m: usize = 0;
    while m < methods.len()
        invariant
            m <= methods.len(),
            forall|j: int| 0 <= j < methods@.len() ==> (#[trigger] methods@[j]).wf(),
            first_long_method(methods@, max_lines, 0) == first_long_method(
                methods@,
                max_lines,
                m as int,
            ),
        decreases methods.len() - m,
    {
        let method = &methods[m];
        assert(method.wf());
        let lines: usize = method.end_line - method.start_line;
        if lines > max_lines {
            return Some(
                Violation::MethodTooLong {
                    method_name: method.method_name.clone(),
                    class_name: method.class_name.clone(),
                    line_count: lines,
                    max_lines,
                    span: method.span,
                },
            );
        }
        m += 1;
    }
    None
}

/// Checks one file. `items` are the file's imports and classes in source
/// order. The first violation ends the check; a file without one passes.
pub fn analyze_file(path: &str, items: &Vec<SourceItem>, ctx: &LinterContext) -> (r: Result<
    (),
    Violation,
>)
    requires
        forall|i: int| 0 <= i < items@.len() ==> (#[trigger] items@[i]).wf(),
    ensures
        match r {
            Ok(_) => first_violation(path@, items@, *ctx) is None,
            Err(v) => first_violation(path@, items@, *ctx) == Some(v),
        },
{
    let path_lower = to_lowercase(path);
    let mut i: usize = 0;
    while i < items.len()
        invariant
            i <= items.len(),
            path_lower@ == lowercase(path@),
            forall|j: int| 0 <= j < items@.len() ==> (#[trigger] items@[j]).wf(),
            first_violation(path@, items@, *ctx) == first_violation_from(
                path_lower@,
                items@,
                *ctx,
                i as int,
            ),
        decreases items.len() - i,
    {
        assert(items@[i as int].wf());
        let found = match &items[i] {
            SourceItem::Import(import) => check_import(
                path_lower.as_str(),
                import,
                &ctx.forbidden_imports,
            ),
            SourceItem::Class(methods) => check_class(methods, ctx.max_lines),
        };
        match found {
            Some(v) => {
                return Err(v);
            },
            None => {},
        }
        i += 1;
    }
    Ok(())
}

/// The item is a class all of whose methods stay within `max_lines`.
pub open spec fn is_short_class(item: SourceItem, max_lines: usize) -> bool {
    match item {
        SourceItem::Import(_) => false,
        SourceItem::Class(methods) => forall|m: int|
            0 <= m < methods@.len() ==> (#[trigger] methods@[m]).line_count() <= max_lines,
    }
}

/// The report is a forbidden import.
pub open spec fn is_forbidden_import(report: Option<Violation>) -> bool {
    match report {
        Some(Violation::ForbiddenImport { .. }) => true,
        _ => false,
    }
}

proof fn no_long_method_from(methods: Seq<MethodSpan>, max_lines: usize, from: int)
    requires
        forall|m: int| 0 <= m < methods.len() ==> (#[trigger] methods[m]).line_count() <= max_lines,
    ensures
        first_long_method(methods, max_lines, from) is None,
    decreases methods.len() - from,
{
    if 0 <= from < methods.len() {
        no_long_method_from(methods, max_lines, from + 1);
    }
}

proof fn short_classes_pass_from(
    path_lower: Seq<char>,
    items: Seq<SourceItem>,
    ctx: LinterContext,
    from: int,
)
    requires
        forall|i: int| 0 <= i < items.len() ==> is_short_class(#[trigger] items[i], ctx.max_lines),
    ensures
        first_violation_from(path_lower, items, ctx, from) is None,
    decreases items.len() - from,
{
    if 0 <= from < items.len() {
        assert(is_short_class(items[from], ctx.max_lines));
        match items[from] {
            SourceItem::Import(_) => {},
            SourceItem::Class(methods) => {
                no_long_method_from(methods@, ctx.max_lines, 0);
            },
        }
        short_classes_pass_from(path_lower, items, ctx, from + 1);
    }
}

/// A file that holds no import, and no method longer than the limit, passes
/// the check, whatever its path and whatever rules are configured.
pub proof fn file_without_imports_and_long_methods_passes(
    path: Seq<char>,
    items: Seq<SourceItem>,
    ctx: LinterContext,
)
    requires
        forall|i: int| 0 <= i < items.len() ==> is_short_class(#[trigger] items[i], ctx.max_lines),
    ensures
        first_violation(path, items, ctx) is None,
{
    short_classes_pass_from(lowercase(path), items, ctx, 0);
}

proof fn repository_import_found_from(
    path_lower: Seq<char>,
    items: Seq<SourceItem>,
    ctx: LinterContext,
    i: int,
    from: int,
)
    requires
        0 <= from <= i < items.len(),
        match items[i] {
            SourceItem::Import(import) => builtin_rule_applies(
                path_lower,
                lowercase(import.source@),
            ),
            SourceItem::Class(_) => false,
        },
        forall|j: int|
            0 <= j < i ==> match #[trigger] items[j] {
                SourceItem::Import(_) => true,
                SourceItem::Class(methods) => class_violation(methods@, ctx.max_lines) is None,
            },
    ensures
        is_forbidden_import(first_violation_from(path_lower, items, ctx, from)),
    decreases i - from,
{
    if from < i {
        repository_import_found_from(path_lower, items, ctx, i, from + 1);
    }
}

/// A controller that imports a repository is reported for a forbidden
/// import, with any set of configured rules, the empty one too. Here the
/// file's path holds "controller" and the specifier of the import at
/// position `i` holds ".repository", both in lower case, and no class before
/// that import has an over-long method (such a method would be reported
/// first).
pub proof fn controller_importing_repository_is_forbidden(
    path: Seq<char>,
    items: Seq<SourceItem>,
    ctx: LinterContext,
    i: int,
)
    requires
        0 <= i < items.len(),
        match items[i] {
            SourceItem::Import(import) => builtin_rule_applies(
                lowercase(path),
                lowercase(import.source@),
            ),
            SourceItem::Class(_) => false,
        },
        forall|j: int|
            0 <= j < i ==> match #[trigger] items[j] {
                SourceItem::Import(_) => true,
                SourceItem::Class(methods) => class_violation(methods@, ctx.max_lines) is None,
            },
    ensures
        is_forbidden_import(first_violation(path, items, ctx)),
{
    repository_import_found_from(lowercase(path), items, ctx, i, 0);
}

/// How much of a file is reported.
#[derive(Debug, Clone, Copy, PartialEq, Eq, Structural)]
pub enum ReportPolicy {
    /// The first violation only: the check of a file stops there. This is
    /// what `analyze_file` does.
    FirstOnly,
    /// Every forbidden import and every over-long method of the file.
    Exhaustive,
}

/// The violations of the methods of a class at or after `from`, in order.
pub open spec fn long_methods(methods: Seq<MethodSpan>, max_lines: usize, from: int) -> Seq<
    Violation,
>
    decreases methods.len() - from,
{
    if from < 0 || from >= methods.len() {
        Seq::empty()
    } else if methods[from].line_count() > max_lines {
        seq![too_long(methods[from], max_lines)] + long_methods(methods, max_lines, from + 1)
    } else {
        long_methods(methods, max_lines, from + 1)
    }
}

/// Every violation that one item gives rise to: that of an import, if it is
/// forbidden, and one for each over-long method of a class.
pub open spec fn item_violations(path_lower: Seq<char>, item: SourceItem, ctx: LinterContext) -> Seq<
    Violation,
> {
    match item {
        SourceItem::Import(import) => match import_violation(
            path_lower,
            import,
            ctx.forbidden_imports@,
        ) {
            Some(v) => seq![v],
            None => Seq::empty(),
        },
        SourceItem::Class(methods) => long_methods(methods@, ctx.max_lines, 0),
    }
}

/// Every violation of the items at or after `from`, in source order.
pub open spec fn all_violations_from(
    path_lower: Seq<char>,
    items: Seq<SourceItem>,
    ctx: LinterContext,
    from: int,
) -> Seq<Violation>
    decreases items.len() - from,
{
    if from < 0 || from >= items.len() {
        Seq::empty()
    } else {
        item_violations(path_lower, items[from], ctx) + all_violations_from(
            path_lower,
            items,
            ctx,
            from + 1,
        )
    }
}

/// Every violation of a file, in source order.
pub open spec fn all_violations(path: Seq<char>, items: Seq<SourceItem>, ctx: LinterContext) -> Seq<
    Violation,
> {
    all_violations_from(lowercase(path), items, ctx, 0)
}

/// What is reported for a file under a policy.
pub open spec fn violations_under(
    policy: ReportPolicy,
    path: Seq<char>,
    items: Seq<SourceItem>,
    ctx: LinterContext,
) -> Seq<Violation> {
    match policy {
        ReportPolicy::FirstOnly => match first_violation(path, items, ctx) {
            Some(v) => seq![v],
            None => Seq::empty(),
        },
        ReportPolicy::Exhaustive => all_violations(path, items, ctx),
    }
}

/// Adds the violation of every over-long method of a class to `found`.
fn collect_long_methods(methods: &Vec<MethodSpan>, max_lines: usize, found: &mut Vec<Violation>)
    requires
        forall|m: int| 0 <= m < methods@.len() ==> (#[trigger] methods@[m]).wf(),
    ensures
        final(found)@ == old(found)@ + long_methods(methods@, max_lines, 0),
{
    let mut m: usize = 0;
    assert(found@ + Seq::<Violation>::empty() =~= found@);
    while m < methods.len()
        invariant
            m <= methods.len(),
            forall|j: int| 0 <= j < methods@.len() ==> (#[trigger] methods@[j]).wf(),
            found@ + long_methods(methods@, max_lines, m as int) == old(found)@ + long_methods(
                methods@,
                max_lines,
                0,
            ),
        decreases methods.len() - m,
    {
        let ghost before = found@;
        let method = &methods[m];
        assert(method.wf());
        let lines: usize = method.end_line - method.start_line;
        if lines > max_lines {
            found.push(
                Violation::MethodTooLong {
                    method_name: method.method_name.clone(),
                    class_name: method.class_name.clone(),
                    line_count: lines,
                    max_lines,
                    span: method.span,
                },
            );
            assert(found@ + long_methods(methods@, max_lines, m + 1) =~= before + long_methods(
                methods@,
                max_lines,
                m as int,
            ));
        }
        m += 1;
    }
    assert(found@ + long_methods(methods@, max_lines, m as int) =~= found@);
}

/// Checks one file and reports as much as the policy asks for: the first
/// violation alone, or every violation in source order.
pub fn analyze_file_with(
    path: &str,
    items: &Vec<SourceItem>,
    ctx: &LinterContext,
    policy: ReportPolicy,
) -> (r: Vec<Violation>)
    requires
        forall|i: int| 0 <= i < items@.len() ==> (#[trigger] items@[i]).wf(),
    ensures
        r@ == violations_under(policy, path@, items@, *ctx),
{
    let mut found: Vec<Violation> = Vec::new();
    match policy {
        ReportPolicy::FirstOnly => {
            match analyze_file(path, items, ctx) {
                Ok(_) => {},
                Err(v) => {
                    found.push(v);
                    assert(found@ =~= seq![v]);
                },
            }
            found
        },
        ReportPolicy::Exhaustive => {
            let path_lower = to_lowercase(path);
            let mut i: usize = 0;
            assert(found@ + all_violations(path@, items@, *ctx) =~= all_violations(
                path@,
                items@,
                *ctx,
            ));
            while i < items.len()
                invariant
                    i <= items.len(),
                    path_lower@ == lowercase(path@),
                    forall|j: int| 0 <= j < items@.len() ==> (#[trigger] items@[j]).wf(),
                    found@ + all_violations_from(path_lower@, items@, *ctx, i as int)
                        == all_violations(path@, items@, *ctx),
                decreases items.len() - i,
            {
                let ghost before = found@;
                assert(items@[i as int].wf());
                match &items[i] {
                    SourceItem::Import(import) => {
                        match check_import(path_lower.as_str(), import, &ctx.forbidden_imports) {
                            Some(v) => {
                                found.push(v);
                                assert(found@ =~= before + seq![v]);
                            },
                            None => {
                                assert(found@ =~= before + Seq::<Violation>::empty());
                            },
                        }
                    },
                    SourceItem::Class(methods) => {
                        collect_long_methods(methods, ctx.max_lines, &mut found);
                    },
                }
                assert(found@ + all_violations_from(path_lower@, items@, *ctx, i + 1) =~= before
                    + all_violations_from(path_lower@, items@, *ctx, i as int));
                i += 1;
            }
            assert(found@ + all_violations_from(path_lower@, items@, *ctx, i as int) =~= found@);
            found
        },
    }
}

proof fn first_long_method_heads_the_list(methods: Seq<MethodSpan>, max_lines: usize, from: int)
    ensures
        match first_long_method(methods, max_lines, from) {
            Some(m) => long_methods(methods, max_lines, from).len() > 0 && long_methods(
                methods,
                max_lines,
                from,
            )[0] == too_long(methods[m], max_lines),
            None => long_methods(methods, max_lines, from).len() == 0,
        },
    decreases methods.len() - from,
{
    if 0 <= from < methods.len() {
        first_long_method_heads_the_list(methods, max_lines, from + 1);
    }
}

proof fn first_violation_heads_the_list(
    path_lower: Seq<char>,
    items: Seq<SourceItem>,
    ctx: LinterContext,
    from: int,
)
    ensures
        match first_violation_from(path_lower, items, ctx, from) {
            Some(v) => all_violations_from(path_lower, items, ctx, from).len() > 0
                && all_violations_from(path_lower, items, ctx, from)[0] == v,
            None => all_violations_from(path_lower, items, ctx, from).len() == 0,
        },
    decreases items.len() - from,
{
    if 0 <= from < items.len() {
        first_violation_heads_the_list(path_lower, items, ctx, from + 1);
        match items[from] {
            SourceItem::Import(_) => {},
            SourceItem::Class(methods) => {
                first_long_method_heads_the_list(methods@, ctx.max_lines, 0);
            },
        }
    }
}

/// The two policies agree on where a file first goes wrong: the violation
/// that the fail-fast check reports is the first of the exhaustive list, and
/// a file passes the one exactly when the other finds nothing.
pub proof fn first_violation_is_first_of_all(
    path: Seq<char>,
    items: Seq<SourceItem>,
    ctx: LinterContext,
)
    ensures
        match first_violation(path, items, ctx) {
            Some(v) => all_violations(path, items, ctx).len() > 0 && all_violations(
                path,
                items,
                ctx,
            )[0] == v,
            None => all_violations(path, items, ctx).len() == 0,
        },
{
    first_violation_heads_the_list(lowercase(path), items, ctx, 0);
}

} // verus!
