use architect_linter::analyzer::{
    analyze_file, analyze_file_with, applicable_rule, check_class, check_import,
    ImportDeclaration, MethodSpan, ReportPolicy, SourceItem, Span, Violation,
};
use architect_linter::config::{ArchPattern, ForbiddenRule, Framework, LinterContext};

fn context(max_lines: usize, rules: Vec<(&str, &str)>) -> LinterContext {
    LinterContext {
        max_lines,
        framework: Framework::NestJS,
        pattern: ArchPattern::MVC,
        forbidden_imports: rules
            .into_iter()
            .map(|(from, to)| ForbiddenRule { from: from.to_string(), to: to.to_string() })
            .collect(),
    }
}

fn import(source: &str, lo: usize, hi: usize) -> SourceItem {
    SourceItem::Import(ImportDeclaration { source: source.to_string(), span: Span { lo, hi } })
}

fn method(name: &str, start_line: usize, end_line: usize) -> MethodSpan {
    MethodSpan {
        class_name: "UserService".to_string(),
        method_name: name.to_string(),
        start_line,
        end_line,
        span: Span { lo: start_line * 10, hi: end_line * 10 },
    }
}

#[test]
fn file_without_imports_and_long_methods_passes() {
    let ctx = context(60, vec![("presentation", "infrastructure")]);
    let items = vec![
        SourceItem::Class(vec![method("a", 1, 6), method("b", 10, 70)]),
        SourceItem::Class(vec![]),
    ];
    assert!(analyze_file("src/users/user.controller.ts", &items, &ctx).is_ok());
}

#[test]
fn empty_file_passes() {
    let ctx = context(0, vec![]);
    assert!(analyze_file("src/a.ts", &vec![], &ctx).is_ok());
}

#[test]
fn controller_importing_repository_is_forbidden_without_rules() {
    let ctx = context(60, vec![]);
    let items = vec![import("./user.repository", 3, 40)];
    match analyze_file("src/users/user.controller.ts", &items, &ctx) {
        Err(Violation::ForbiddenImport { rule, span }) => {
            assert!(rule.is_none());
            assert_eq!(span, Span { lo: 3, hi: 40 });
        }
        other => panic!("{:?}", other),
    }
}

#[test]
fn builtin_rule_ignores_letter_case() {
    let ctx = context(60, vec![]);
    let items = vec![import("./User.Repository", 0, 1)];
    assert!(matches!(
        analyze_file("SRC/Users/UserController.ts", &items, &ctx),
        Err(Violation::ForbiddenImport { rule: None, .. })
    ));
}

#[test]
fn builtin_rule_needs_both_parts() {
    let ctx = context(60, vec![]);
    assert!(analyze_file("src/user.service.ts", &vec![import("./user.repository", 0, 1)], &ctx)
        .is_ok());
    assert!(analyze_file("src/user.controller.ts", &vec![import("./user.service", 0, 1)], &ctx)
        .is_ok());
}

#[test]
fn configured_rule_forbids_matching_import() {
    let ctx = context(60, vec![("presentation", "infrastructure")]);
    let items = vec![import("../infrastructure/y", 7, 30)];
    match analyze_file("src/presentation/x.ts", &items, &ctx) {
        Err(Violation::ForbiddenImport { rule: Some(rule), span }) => {
            assert_eq!(rule.from, "presentation");
            assert_eq!(rule.to, "infrastructure");
            assert_eq!(span, Span { lo: 7, hi: 30 });
        }
        other => panic!("{:?}", other),
    }
}

#[test]
fn configured_rule_allows_other_import() {
    let ctx = context(60, vec![("presentation", "infrastructure")]);
    let items = vec![import("../domain/y", 7, 30)];
    assert!(analyze_file("src/presentation/x.ts", &items, &ctx).is_ok());
}

#[test]
fn configured_rule_ignores_letter_case() {
    let ctx = context(60, vec![("Presentation", "INFRASTRUCTURE")]);
    let items = vec![import("../Infrastructure/Y", 0, 1)];
    assert!(matches!(
        analyze_file("src/PRESENTATION/x.ts", &items, &ctx),
        Err(Violation::ForbiddenImport { rule: Some(_), .. })
    ));
}

#[test]
fn configured_rule_does_not_apply_outside_its_folder() {
    let ctx = context(60, vec![("presentation", "infrastructure")]);
    let items = vec![import("../infrastructure/y", 0, 1)];
    assert!(analyze_file("src/domain/x.ts", &items, &ctx).is_ok());
}

#[test]
fn first_matching_rule_wins() {
    let ctx = context(60, vec![("domain", "infra"), ("src", "infra"), ("src", "db")]);
    let items = vec![import("../infra/db", 0, 1)];
    match analyze_file("src/app/x.ts", &items, &ctx) {
        Err(Violation::ForbiddenImport { rule: Some(rule), .. }) => {
            assert_eq!(rule.from, "src");
            assert_eq!(rule.to, "infra");
        }
        other => panic!("{:?}", other),
    }
    assert_eq!(applicable_rule("src/app/x.ts", "../infra/db", &ctx.forbidden_imports), Some(1));
    assert_eq!(applicable_rule("src/app/x.ts", "../other", &ctx.forbidden_imports), None);
}

#[test]
fn configured_rule_comes_before_the_builtin_rule() {
    let ctx = context(60, vec![("controller", "repository")]);
    let import_decl =
        ImportDeclaration { source: "./a.repository".to_string(), span: Span { lo: 1, hi: 2 } };
    match check_import("src/a.controller.ts", &import_decl, &ctx.forbidden_imports) {
        Some(Violation::ForbiddenImport { rule: Some(rule), .. }) => {
            assert_eq!(rule.from, "controller");
        }
        other => panic!("{:?}", other),
    }
}

#[test]
fn only_the_long_method_is_reported() {
    let ctx = context(60, vec![]);
    let items = vec![SourceItem::Class(vec![
        method("short", 1, 6),
        method("medium", 10, 22),
        method("long", 30, 230),
    ])];
    match analyze_file("src/user.service.ts", &items, &ctx) {
        Err(Violation::MethodTooLong { method_name, class_name, line_count, max_lines, span }) => {
            assert_eq!(method_name, "long");
            assert_eq!(class_name, "UserService");
            assert_eq!(line_count, 200);
            assert_eq!(max_lines, 60);
            assert_eq!(span, Span { lo: 300, hi: 2300 });
        }
        other => panic!("{:?}", other),
    }
}

#[test]
fn method_at_the_limit_passes() {
    let ctx = context(60, vec![]);
    assert!(check_class(&vec![method("edge", 10, 70)], ctx.max_lines).is_none());
    assert!(matches!(
        check_class(&vec![method("over", 10, 71)], ctx.max_lines),
        Some(Violation::MethodTooLong { line_count: 61, .. })
    ));
}

#[test]
fn first_of_two_long_methods_is_reported() {
    let items = vec![
        SourceItem::Class(vec![method("ok", 1, 2)]),
        SourceItem::Class(vec![method("first", 1, 100), method("second", 200, 400)]),
    ];
    match analyze_file("src/a.ts", &items, &context(10, vec![])) {
        Err(Violation::MethodTooLong { method_name, line_count, .. }) => {
            assert_eq!(method_name, "first");
            assert_eq!(line_count, 99);
        }
        other => panic!("{:?}", other),
    }
}

#[test]
fn check_stops_at_the_first_violating_item() {
    let ctx = context(10, vec![("src", "forbidden")]);
    let long_first = vec![
        SourceItem::Class(vec![method("long", 1, 100)]),
        import("./forbidden", 0, 1),
    ];
    assert!(matches!(
        analyze_file("src/a.ts", &long_first, &ctx),
        Err(Violation::MethodTooLong { .. })
    ));
    let import_first = vec![
        import("./fine", 0, 1),
        import("./forbidden", 5, 9),
        SourceItem::Class(vec![method("long", 1, 100)]),
    ];
    match analyze_file("src/a.ts", &import_first, &ctx) {
        Err(v) => {
            assert!(matches!(v, Violation::ForbiddenImport { .. }));
            assert_eq!(v.span(), Span { lo: 5, hi: 9 });
        }
        other => panic!("{:?}", other),
    }
}

#[test]
fn violation_messages() {
    let configured = Violation::ForbiddenImport {
        rule: Some(ForbiddenRule { from: "presentation".to_string(), to: "infra".to_string() }),
        span: Span { lo: 0, hi: 1 },
    };
    assert_eq!(
        configured.message(),
        "Restricción: Archivos en 'presentation' no pueden importar de 'infra'."
    );
    let builtin = Violation::ForbiddenImport { rule: None, span: Span { lo: 0, hi: 1 } };
    assert_eq!(builtin.message(), "MVC: Prohibido importar Repositorios en Controladores.");
    let long = Violation::MethodTooLong {
        method_name: "m".to_string(),
        class_name: "C".to_string(),
        line_count: 200,
        max_lines: 60,
        span: Span { lo: 0, hi: 1 },
    };
    assert_eq!(long.message(), "Método demasiado largo (200 líneas). Máximo: 60.");
}

#[test]
fn exhaustive_policy_reports_every_violation() {
    let ctx = context(10, vec![("src", "forbidden")]);
    let items = vec![
        import("./fine", 0, 1),
        import("./forbidden/a", 2, 3),
        SourceItem::Class(vec![method("long1", 1, 100), method("ok", 1, 5), method("long2", 1, 12)]),
        import("./b.repository", 4, 5),
        import("./forbidden/c", 6, 7),
    ];
    let all = analyze_file_with("src/a.controller.ts", &items, &ctx, ReportPolicy::Exhaustive);
    assert_eq!(all.len(), 5);
    assert!(matches!(&all[0], Violation::ForbiddenImport { rule: Some(_), span } if span.lo == 2));
    assert!(matches!(&all[1], Violation::MethodTooLong { line_count: 99, .. }));
    assert!(matches!(&all[2], Violation::MethodTooLong { line_count: 11, .. }));
    assert!(matches!(&all[3], Violation::ForbiddenImport { rule: None, span } if span.lo == 4));
    assert!(matches!(&all[4], Violation::ForbiddenImport { rule: Some(_), span } if span.lo == 6));
}

#[test]
fn first_only_policy_reports_the_first_violation() {
    let ctx = context(10, vec![("src", "forbidden")]);
    let items = vec![
        import("./fine", 0, 1),
        SourceItem::Class(vec![method("long1", 1, 100), method("long2", 1, 12)]),
        import("./forbidden/a", 2, 3),
    ];
    let first = analyze_file_with("src/a.ts", &items, &ctx, ReportPolicy::FirstOnly);
    assert_eq!(first.len(), 1);
    assert!(matches!(&first[0], Violation::MethodTooLong { line_count: 99, .. }));
    let all = analyze_file_with("src/a.ts", &items, &ctx, ReportPolicy::Exhaustive);
    assert_eq!(all.len(), 3);
    assert_eq!(all[0].message(), first[0].message());
}

#[test]
fn both_policies_pass_a_clean_file() {
    let ctx = context(10, vec![("src", "forbidden")]);
    let items = vec![import("./fine", 0, 1), SourceItem::Class(vec![method("ok", 1, 11)])];
    assert!(analyze_file_with("src/a.ts", &items, &ctx, ReportPolicy::FirstOnly).is_empty());
    assert!(analyze_file_with("src/a.ts", &items, &ctx, ReportPolicy::Exhaustive).is_empty());
}
