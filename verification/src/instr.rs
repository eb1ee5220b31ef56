//! Instructions: the static program of a circuit. An instruction is a bare
//! gate, evaluated against caller-supplied rails, or a gate paired with an
//! addressing directive that is resolved first to find the rails.

use vstd::prelude::*;
use crate::addr::{Loc, ModOp, Resolution};
use crate::gate::{precondition, eval_spec, DataOp, EvalError};
use crate::signal::Data;

verus! {

/// One instruction of a circuit. Instructions are immutable once built;
/// only node contents change during evaluation.
#[derive(Clone, Copy, Debug, PartialEq, Eq)]
pub enum Instr {
    /// A bare gate, fed rails supplied by the caller.
    Simple(DataOp),
    /// A gate whose rails are found by resolving the directive first.
    Modded(ModOp, DataOp),
}

impl Instr {
    /// This instruction's gate.
    pub open spec fn spec_op(self) -> DataOp {
        match self {
            Instr::Simple(d) => d,
            Instr::Modded(_, d) => d,
        }
    }

    pub fn op(&self) -> (d: DataOp)
        ensures
            d == self.spec_op(),
    {
        match self {
            Instr::Simple(d) => *d,
            Instr::Modded(_, d) => *d,
        }
    }

    /// The addressing step of this instruction: a bare gate needs none,
    /// a modified gate resolves its directive against the current
    /// reference location.
    pub fn resolve_from(&self, cur: Loc) -> (r: Option<Resolution>)
        requires
            (*self) matches Instr::Modded(m, _) ==> m.fits(cur),
        ensures
            (*self) matches Instr::Simple(_) ==> r is None,
            (*self) matches Instr::Modded(m, _) ==> r matches Some(res) && res.loc.lat
                == m.target_lat(cur) && res.loc.lon == m.target_lon(cur),
    {
        match self {
            Instr::Simple(_) => None,
            Instr::Modded(m, _) => Some(m.resolve(cur)),
        }
    }

    /// Apply this instruction's gate to the rails that reached it — the
    /// caller's rails for a bare gate, the rails fetched from the resolved
    /// bindings for a modified one.
    pub fn eval(&self, i: Data) -> (o: Data)
        requires
            precondition(self.spec_op().code, i),
        ensures
            o == eval_spec(self.spec_op().code, i),
    {
        let d = self.op();
        d.eval(i)
    }

    /// As `eval`, with the domain check made explicit.
    pub fn try_eval(&self, i: Data) -> (r: Result<Data, EvalError>)
        ensures
            precondition(self.spec_op().code, i) ==> r == Ok::<Data, EvalError>(
                eval_spec(self.spec_op().code, i),
            ),
            !precondition(self.spec_op().code, i) ==> r == Err::<Data, EvalError>(
                EvalError { code: self.spec_op().code, input: i },
            ),
    {
        let d = self.op();
        d.try_eval(i)
    }
}

} // verus!
