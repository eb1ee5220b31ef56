use dualrail::signal::{Data, Node, Phase, PhasedBool};

fn node_written_in(phase: Phase, a: bool, b: bool) -> Node {
    Node {
        ia: PhasedBool { val: a, phase },
        ib: PhasedBool { val: b, phase },
    }
}

#[test]
fn flip_alternates() {
    assert_eq!(Phase::Even.flip(), Phase::Odd);
    assert_eq!(Phase::Odd.flip(), Phase::Even);
}

#[test]
fn even_write_is_visible_only_to_odd_reads() {
    let mut n = node_written_in(Phase::Odd, false, false);
    n.write(Phase::Even, true, false);
    assert_eq!(n.read(Phase::Odd), Data { a: Some(true), b: Some(false) });
    assert_eq!(n.read(Phase::Even), Data { a: None, b: None });
}

#[test]
fn odd_write_is_never_seen_by_an_odd_read() {
    let mut n = node_written_in(Phase::Even, true, true);
    n.write(Phase::Odd, false, true);
    assert_eq!(n.read(Phase::Odd), Data { a: None, b: None });
    assert_eq!(n.read(Phase::Even), Data { a: Some(false), b: Some(true) });
}

#[test]
fn a_slot_not_written_in_the_required_phase_reads_floating() {
    // both slots carry Even tags, so an Even reader sees no signal at all
    let n = node_written_in(Phase::Even, true, true);
    assert_eq!(n.read(Phase::Even), Data { a: None, b: None });
}

#[test]
fn rail_slots_read_independently() {
    let n = Node {
        ia: PhasedBool { val: true, phase: Phase::Even },
        ib: PhasedBool { val: false, phase: Phase::Odd },
    };
    assert_eq!(n.read(Phase::Odd), Data { a: Some(true), b: None });
    assert_eq!(n.read(Phase::Even), Data { a: None, b: Some(false) });
}
