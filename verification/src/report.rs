//! The report of the circular imports of a project, as the text that is
//! shown to the user.

use crate::circular::CircularDependency;
use crate::graph::texts;
use crate::text::{decimal, to_decimal};
use vstd::prelude::*;
use vstd::string::*;

verus! {

/// The lines that list the files of a cycle from position `from` on: an
/// arrow behind each file but the last, which closes the cycle.
pub open spec fn path_lines(cycle: Seq<Seq<char>>, from: int) -> Seq<char>
    decreases cycle.len() - from,
{
    if from < 0 || from >= cycle.len() {
        Seq::empty()
    } else if from < cycle.len() - 1 {
        "  "@ + cycle[from] + " →\n"@ + path_lines(cycle, from + 1)
    } else {
        "  "@ + cycle[from] + " ↑ (cierra el ciclo)\n"@ + path_lines(cycle, from + 1)
    }
}

/// The part of the report on one cycle, which is the `number`-th.
pub open spec fn cycle_block(number: nat, found: CircularDependency) -> Seq<char> {
    "━━━━━━━━━━━━━━━━━━━━━━━━━━━━━━━━━━\nCiclo #"@ + decimal(number)
        + "\n━━━━━━━━━━━━━━━━━━━━━━━━━━━━━━━━━━\n📂 Rutas del ciclo:\n"@ + path_lines(
        texts(found.cycle@),
        0,
    ) + "\n"@ + found.description@ + "\n\n"@
}

/// The parts of the report on the cycles from position `from` on.
pub open spec fn cycle_blocks(cycles: Seq<CircularDependency>, from: int) -> Seq<char>
    decreases cycles.len() - from,
{
    if from < 0 || from >= cycles.len() {
        Seq::empty()
    } else {
        cycle_block((from + 1) as nat, cycles[from]) + cycle_blocks(cycles, from + 1)
    }
}

/// The whole report: one line where there is no cycle; else a heading with
/// the number of cycles, a part for each cycle, and advice.
pub open spec fn report_text(cycles: Seq<CircularDependency>) -> Seq<char> {
    if cycles.len() == 0 {
        "✅ No se detectaron dependencias cíclicas.\n"@
    } else {
        "\n🔴 DEPENDENCIAS CÍCLICAS DETECTADAS\n\nSe encontraron "@ + decimal(cycles.len())
            + " ciclo(s) de dependencias:\n\n"@ + cycle_blocks(cycles, 0)
            + "💡 Soluciones sugeridas:\n  1. Aplicar Inyección de Dependencias para romper el ciclo\n  2. Extraer la lógica compartida a un tercer módulo\n  3. Usar eventos/observadores en lugar de llamadas directas\n  4. Aplicar el principio de inversión de dependencias (DIP)\n"@
    }
}

/// Adds the lines that list the files of a cycle.
fn append_path_lines(out: &mut String, cycle: &Vec<String>)
    ensures
        final(out)@ == old(out)@ + path_lines(texts(cycle@), 0),
{
    let ghost names = texts(cycle@);
    let mut j: usize = 0;
    assert(out@ + Seq::<char>::empty() =~= out@);
    while j < cycle.len()
        invariant
            j <= cycle@.len(),
            names == texts(cycle@),
            out@ + path_lines(names, j as int) == old(out)@ + path_lines(names, 0),
        decreases cycle.len() - j,
    {
        let ghost before = out@;
        out.append("  ");
        out.append(cycle[j].as_str());
        if j < cycle.len() - 1 {
            out.append(" →\n");
        } else {
            out.append(" ↑ (cierra el ciclo)\n");
        }
        assert(out@ + path_lines(names, j + 1) =~= before + path_lines(names, j as int));
        j += 1;
    }
    assert(out@ + path_lines(names, j as int) =~= out@);
}

/// Writes the report of the circular imports that were found.
pub fn circular_dependency_report(cycles: &Vec<CircularDependency>) -> (r: String)
    ensures
        r@ == report_text(cycles@),
{
    if cycles.len() == 0 {
        return "✅ No se detectaron dependencias cíclicas.\n".to_owned();
    }
    let mut out = "\n🔴 DEPENDENCIAS CÍCLICAS DETECTADAS\n\nSe encontraron ".to_owned();
    out.append(to_decimal(cycles.len()).as_str());
    out.append(" ciclo(s) de dependencias:\n\n");
    let ghost heading = out@;
    let mut i: usize = 0;
    assert(out@ + Seq::<char>::empty() =~= out@);
    while i < cycles.len()
        invariant
            i <= cycles@.len(),
            out@ + cycle_blocks(cycles@, i as int) == heading + cycle_blocks(cycles@, 0),
        decreases cycles.len() - i,
    {
        let ghost before = out@;
        out.append("━━━━━━━━━━━━━━━━━━━━━━━━━━━━━━━━━━\nCiclo #");
        out.append(to_decimal(i + 1).as_str());
        out.append("\n━━━━━━━━━━━━━━━━━━━━━━━━━━━━━━━━━━\n📂 Rutas del ciclo:\n");
        append_path_lines(&mut out, &cycles[i].cycle);
        out.append("\n");
        out.append(cycles[i].description.as_str());
        out.append("\n\n");
        assert(out@ =~= before + cycle_block((i + 1) as nat, cycles@[i as int]));
        assert(out@ + cycle_blocks(cycles@, i + 1) =~= before + cycle_blocks(cycles@, i as int));
        i += 1;
    }
    assert(out@ + cycle_blocks(cycles@, i as int) =~= out@);
    out.append(
        "💡 Soluciones sugeridas:\n  1. Aplicar Inyección de Dependencias para romper el ciclo\n  2. Extraer la lógica compartida a un tercer módulo\n  3. Usar eventos/observadores en lugar de llamadas directas\n  4. Aplicar el principio de inversión de dependencias (DIP)\n",
    );
    out
}

} // verus!
