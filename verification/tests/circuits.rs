use dualrail::addr::{Loc, ModOp, RailBinding, Resolution};
use dualrail::gate::{DataOp, DataOpCode};
use dualrail::instr::Instr;
use dualrail::signal::{Data, Node, Phase, PhasedBool};

fn driven(a: bool, b: bool) -> Data {
    Data { a: Some(a), b: Some(b) }
}

#[test]
fn half_adder_reports_sum_and_carry() {
    let adder = Instr::Simple(DataOp { code: DataOpCode::Add, la: 0, lb: 0 });
    let one_plus_zero = adder.eval(driven(true, false));
    assert_eq!(one_plus_zero, driven(true, false)); // sum 1, carry 0
    let one_plus_one = adder.eval(driven(true, true));
    assert_eq!(one_plus_one, driven(false, true)); // sum 0, carry 1
}

#[test]
fn simple_instruction_needs_no_resolution() {
    let i = Instr::Simple(DataOp { code: DataOpCode::Nop, la: 0, lb: 0 });
    assert_eq!(i.resolve_from(Loc { lat: 0, lon: 0 }), None);
}

#[test]
fn modded_instruction_resolves_then_evaluates() {
    // an Xor whose rails are sourced two rows up from the current location
    let i = Instr::Modded(ModOp::JumperLat(-2), DataOp { code: DataOpCode::Xor, la: 0, lb: 1 });
    let here = Loc { lat: 5, lon: 1 };
    let res = i.resolve_from(here);
    let target = Loc { lat: 3, lon: 1 };
    assert_eq!(
        res,
        Some(Resolution {
            loc: target,
            rail_a: RailBinding::Grid(target),
            rail_b: RailBinding::Grid(target),
        })
    );

    // the node there was written during the Even phase; an Odd-phase sweep
    // reads it and feeds the Xor
    let node = Node {
        ia: PhasedBool { val: true, phase: Phase::Even },
        ib: PhasedBool { val: false, phase: Phase::Even },
    };
    let rails = node.read(Phase::Odd);
    assert_eq!(rails, driven(true, false));
    assert_eq!(i.eval(rails), driven(true, true));
}

#[test]
fn unwritten_source_propagates_floating_through_a_pass_gate() {
    // the addressed node was last written by the reading phase itself, so
    // its rails read floating; try_eval then reports the bad rail state
    let node = Node {
        ia: PhasedBool { val: true, phase: Phase::Odd },
        ib: PhasedBool { val: true, phase: Phase::Odd },
    };
    let rails = node.read(Phase::Odd);
    assert_eq!(rails, Data { a: None, b: None });
    let i = Instr::Simple(DataOp { code: DataOpCode::Pg, la: 0, lb: 0 });
    let r = i.try_eval(rails);
    assert!(r.is_err());
    let e = r.unwrap_err();
    assert_eq!(e.code, DataOpCode::Pg);
    assert_eq!(e.input, rails);
}

#[test]
fn instruction_exposes_its_gate() {
    let d = DataOp { code: DataOpCode::Nand, la: 1, lb: 0 };
    assert_eq!(Instr::Simple(d).op(), d);
    assert_eq!(Instr::Modded(ModOp::PortIn(3), d).op(), d);
}
