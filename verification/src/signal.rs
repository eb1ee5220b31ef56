//! The dual-rail tri-state signal model and the two-phase storage scheme.

use vstd::prelude::*;

verus! {

/// A dual-rail signal: each rail is `Some(level)` when driven and `None`
/// when floating. The two rails are always produced together by one gate
/// evaluation and never mutated independently afterward.
#[derive(Clone, Copy, Debug, PartialEq, Eq)]
pub struct Data {
    pub a: Option<bool>,
    pub b: Option<bool>,
}

impl Data {
    /// The signal with both rails floating.
    pub open spec fn floating() -> Data {
        Data { a: None, b: None }
    }

    /// Both rails driven to the same level.
    pub open spec fn both(v: bool) -> Data {
        Data { a: Some(v), b: Some(v) }
    }

    pub open spec fn is_floating(self) -> bool {
        self.a is None && self.b is None
    }

    pub open spec fn both_driven(self) -> bool {
        self.a is Some && self.b is Some
    }

    /// Exactly one of the two rails is driven.
    pub open spec fn one_driven(self) -> bool {
        (self.a is Some) != (self.b is Some)
    }

    /// The level of the single driven rail (meaningful when exactly one
    /// rail is driven).
    pub open spec fn lone_level(self) -> bool
        recommends
            self.one_driven(),
    {
        if self.a is Some {
            self.a->0
        } else {
            self.b->0
        }
    }
}

/// One of the two alternating evaluation half-cycles.
#[derive(Clone, Copy, Debug, PartialEq, Eq, Structural)]
pub enum Phase {
    Even,
    Odd,
}

impl Phase {
    /// The opposite half-cycle.
    pub open spec fn spec_flip(self) -> Phase {
        match self {
            Phase::Even => Phase::Odd,
            Phase::Odd => Phase::Even,
        }
    }

    pub fn flip(self) -> (r: Phase)
        ensures
            r == self.spec_flip(),
    {
        match self {
            Phase::Even => Phase::Odd,
            Phase::Odd => Phase::Even,
        }
    }
}

/// A boolean level tagged with the phase that last wrote it. It is a valid
/// input only during the opposite phase, which is what keeps the two
/// interleaved phases race-free.
#[derive(Clone, Copy, Debug, PartialEq, Eq, Structural)]
pub struct PhasedBool {
    pub val: bool,
    pub phase: Phase,
}

impl PhasedBool {
    /// What a reader running in `reader` sees: the stored level if it was
    /// written during the other phase, floating otherwise.
    pub open spec fn spec_read(self, reader: Phase) -> Option<bool> {
        if self.phase == reader {
            None
        } else {
            Some(self.val)
        }
    }

    pub fn read(&self, reader: Phase) -> (r: Option<bool>)
        ensures
            r == self.spec_read(reader),
    {
        if self.phase == reader {
            None
        } else {
            Some(self.val)
        }
    }
}

/// The state resident at one grid position: one phased slot per rail.
#[derive(Clone, Copy, Debug, PartialEq, Eq, Structural)]
pub struct Node {
    pub ia: PhasedBool,
    pub ib: PhasedBool,
}

impl Node {
    /// The node after both slots are overwritten by the phase `writer`.
    pub open spec fn spec_write(self, writer: Phase, a: bool, b: bool) -> Node {
        Node {
            ia: PhasedBool { val: a, phase: writer },
            ib: PhasedBool { val: b, phase: writer },
        }
    }

    /// Overwrite both slots with the output of one gate evaluation,
    /// tagging them with the writing phase.
    pub fn write(&mut self, writer: Phase, a: bool, b: bool)
        ensures
            *final(self) == old(self).spec_write(writer, a, b),
    {
        self.ia = PhasedBool { val: a, phase: writer };
        self.ib = PhasedBool { val: b, phase: writer };
    }

    /// What a reader running in `reader` sees at this node: each rail is
    /// the stored level if the other phase wrote it, floating otherwise.
    /// A slot never written in the required phase thus reads as floating
    /// rather than faulting.
    pub open spec fn spec_read(self, reader: Phase) -> Data {
        Data { a: self.ia.spec_read(reader), b: self.ib.spec_read(reader) }
    }

    pub fn read(&self, reader: Phase) -> (d: Data)
        ensures
            d == self.spec_read(reader),
    {
        Data { a: self.ia.read(reader), b: self.ib.read(reader) }
    }
}

/// Phase alternation: a node written in phase `p` is visible, with both
/// rails driven to the written levels, to reads in the opposite phase, and
/// never to a read in `p` itself — there is no same-phase
/// read-after-write.
pub proof fn lemma_phase_alternation(n: Node, p: Phase, a: bool, b: bool)
    ensures
        n.spec_write(p, a, b).spec_read(p.spec_flip()) == (Data { a: Some(a), b: Some(b) }),
        n.spec_write(p, a, b).spec_read(p) == Data::floating(),
{
}

} // verus!
