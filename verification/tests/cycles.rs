use architect_linter::circular::{
    analyze_circular_dependencies, CircularDependency, CircularDependencyAnalyzer,
};
use architect_linter::graph::FileImports;
use architect_linter::report::circular_dependency_report;
use architect_linter::search::find_cycles;

fn file(path: &str, imports: &[&str]) -> FileImports {
    FileImports {
        path: path.to_string(),
        imports: Some(imports.iter().map(|s| s.to_string()).collect()),
    }
}

fn strings(items: &[&str]) -> Vec<String> {
    items.iter().map(|s| s.to_string()).collect()
}

fn edge_set(found: &CircularDependency) -> Vec<(String, String)> {
    let mut edges: Vec<(String, String)> =
        found.cycle.windows(2).map(|w| (w[0].clone(), w[1].clone())).collect();
    edges.sort();
    edges.dedup();
    edges
}

fn project() -> (Vec<String>, Vec<FileImports>) {
    let existing = strings(&["/proj/./a.ts", "/proj/./b.ts", "/proj/./c.ts"]);
    let files = vec![
        file("/proj/a.ts", &["./b"]),
        file("/proj/b.ts", &["./c"]),
        file("/proj/c.ts", &["./a"]),
    ];
    (existing, files)
}

#[test]
fn three_file_cycle_is_reported() {
    let (existing, files) = project();
    let (cycles, skipped) = analyze_circular_dependencies(&files, "/proj", &existing);
    assert_eq!(skipped, 0);
    assert!(!cycles.is_empty());
    let expected = vec![
        ("a.ts".to_string(), "b.ts".to_string()),
        ("b.ts".to_string(), "c.ts".to_string()),
        ("c.ts".to_string(), "a.ts".to_string()),
    ];
    assert!(cycles.iter().any(|c| edge_set(c) == expected));
    assert_eq!(cycles.len(), 1);
    assert_eq!(cycles[0].cycle, strings(&["a.ts", "b.ts", "c.ts", "a.ts"]));
    assert_eq!(
        cycles[0].description,
        "Dependencia cíclica detectada:\n  a.ts → b.ts\n  b.ts → c.ts\n  c.ts → a.ts\n\n  ⚠️  Esto rompe la jerarquía de capas y crea acoplamiento circular."
    );
}

#[test]
fn chain_without_the_closing_import_has_no_cycle() {
    let (existing, mut files) = project();
    files[2] = file("/proj/c.ts", &[]);
    let (cycles, _) = analyze_circular_dependencies(&files, "/proj", &existing);
    assert!(cycles.is_empty());
}

#[test]
fn cycle_is_found_whatever_the_order_of_the_files() {
    let (existing, mut files) = project();
    files.reverse();
    let (cycles, _) = analyze_circular_dependencies(&files, "/proj", &existing);
    let expected = vec![
        ("a.ts".to_string(), "b.ts".to_string()),
        ("b.ts".to_string(), "c.ts".to_string()),
        ("c.ts".to_string(), "a.ts".to_string()),
    ];
    assert!(cycles.iter().any(|c| edge_set(c) == expected));
    for found in &cycles {
        assert_eq!(found.cycle.first(), found.cycle.last());
    }
}

#[test]
fn self_import_is_a_cycle_of_one_hop() {
    let files = vec![file("/proj/a.ts", &["./a"])];
    let existing = strings(&["/proj/./a.ts"]);
    let mut analyzer = CircularDependencyAnalyzer::new("/proj");
    analyzer.build_graph(&files, &existing);
    let cycles = analyzer.detect_cycles();
    assert_eq!(cycles.len(), 1);
    assert_eq!(cycles[0].cycle, strings(&["a.ts", "a.ts"]));
}

#[test]
fn each_back_edge_gives_its_own_report() {
    assert_eq!(find_cycles(&vec![vec![1], vec![0, 0]]), vec![vec![0, 1, 0], vec![0, 1, 0]]);
    assert_eq!(
        find_cycles(&vec![vec![1], vec![2], vec![0, 1]]),
        vec![vec![0, 1, 2, 0], vec![1, 2, 1]]
    );
}

#[test]
fn search_over_numbered_graphs() {
    assert!(find_cycles(&vec![]).is_empty());
    assert!(find_cycles(&vec![vec![]]).is_empty());
    assert!(find_cycles(&vec![vec![1, 2], vec![2], vec![]]).is_empty());
    assert!(find_cycles(&vec![vec![1, 2], vec![3], vec![3], vec![]]).is_empty());
    assert_eq!(find_cycles(&vec![vec![0]]), vec![vec![0, 0]]);
    assert_eq!(find_cycles(&vec![vec![], vec![2], vec![1]]), vec![vec![1, 2, 1]]);
    assert_eq!(find_cycles(&vec![vec![1], vec![2], vec![3], vec![1]]), vec![vec![1, 2, 3, 1]]);
}

#[test]
fn cycle_behind_a_finished_branch_is_found() {
    let cycles = find_cycles(&vec![vec![1], vec![], vec![0, 3], vec![2]]);
    assert_eq!(cycles, vec![vec![2, 3, 2]]);
}

#[test]
fn cycle_description_lists_each_hop() {
    let analyzer = CircularDependencyAnalyzer::new("/proj");
    assert_eq!(analyzer.format_cycle_description(&vec![]), "Ciclo vacío");
    assert_eq!(
        analyzer.format_cycle_description(&strings(&["x", "y", "x"])),
        "Dependencia cíclica detectada:\n  x → y\n  y → x\n\n  ⚠️  Esto rompe la jerarquía de capas y crea acoplamiento circular."
    );
    assert_eq!(
        analyzer.format_cycle_description(&strings(&["x"])),
        "Dependencia cíclica detectada:\n\n  ⚠️  Esto rompe la jerarquía de capas y crea acoplamiento circular."
    );
}

#[test]
fn report_without_cycles() {
    assert_eq!(circular_dependency_report(&vec![]), "✅ No se detectaron dependencias cíclicas.\n");
}

#[test]
fn report_lists_every_cycle() {
    let cycles = vec![
        CircularDependency { cycle: strings(&["a", "b", "a"]), description: "first".to_string() },
        CircularDependency { cycle: strings(&["c", "c"]), description: "second".to_string() },
    ];
    let bar = "━━━━━━━━━━━━━━━━━━━━━━━━━━━━━━━━━━";
    let expected = format!(
        "\n🔴 DEPENDENCIAS CÍCLICAS DETECTADAS\n\nSe encontraron 2 ciclo(s) de dependencias:\n\n{bar}\nCiclo #1\n{bar}\n📂 Rutas del ciclo:\n  a →\n  b →\n  a ↑ (cierra el ciclo)\n\nfirst\n\n{bar}\nCiclo #2\n{bar}\n📂 Rutas del ciclo:\n  c →\n  c ↑ (cierra el ciclo)\n\nsecond\n\n💡 Soluciones sugeridas:\n  1. Aplicar Inyección de Dependencias para romper el ciclo\n  2. Extraer la lógica compartida a un tercer módulo\n  3. Usar eventos/observadores en lugar de llamadas directas\n  4. Aplicar el principio de inversión de dependencias (DIP)\n"
    );
    assert_eq!(circular_dependency_report(&cycles), expected);
}
