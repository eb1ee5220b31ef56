//! Gate evaluation: a pure, tri-state truth table for sixteen opcodes,
//! each with its own precondition on which input rails may be floating.

use vstd::prelude::*;
use crate::signal::Data;

verus! {

/// The sixteen gate opcodes.
#[derive(Clone, Copy, Debug, PartialEq, Eq, Structural)]
pub enum DataOpCode {
    Nt,
    And,
    Nop,
    Ot,
    Add,
    In,
    Pg,
    Xor,
    Or,
    Nor,
    Nxor,
    Out,
    Sub,
    Not,
    Nand,
    Tt,
}

/// The domain of each opcode: the inputs on which its output rule is
/// defined. Feeding an opcode an input outside its domain is a
/// circuit-construction defect, never a recoverable runtime condition.
///
/// - `Nop` accepts anything.
/// - `In` needs rail A driven.
/// - `Ot` and `Not` need exactly one rail driven.
/// - `Nt` and `Tt` (the constants) need both rails floating.
/// - The two-rail combinational ops need both rails driven.
/// - `Pg` and `Out` (pass-gates) need the control rail B driven, and the
///   data rail A driven whenever the control is true.
pub open spec fn precondition(code: DataOpCode, i: Data) -> bool {
    match code {
        DataOpCode::Nop => true,
        DataOpCode::In => i.a is Some,
        DataOpCode::Ot | DataOpCode::Not => i.one_driven(),
        DataOpCode::Nt | DataOpCode::Tt => i.is_floating(),
        DataOpCode::Pg | DataOpCode::Out => i.b is Some && (i.b->0 ==> i.a is Some),
        DataOpCode::And
        | DataOpCode::Or
        | DataOpCode::Nor
        | DataOpCode::Xor
        | DataOpCode::Nxor
        | DataOpCode::Nand
        | DataOpCode::Add
        | DataOpCode::Sub => i.both_driven(),
    }
}

/// The output rule of each opcode, on inputs in its domain.
pub open spec fn eval_spec(code: DataOpCode, i: Data) -> Data
    recommends
        precondition(code, i),
{
    match code {
        DataOpCode::Nt => Data::both(false),
        DataOpCode::Tt => Data::both(true),
        DataOpCode::Nop => Data::floating(),
        DataOpCode::In => Data::both(i.a->0),
        DataOpCode::Ot => Data::both(i.lone_level()),
        DataOpCode::Not => Data::both(!i.lone_level()),
        DataOpCode::Pg | DataOpCode::Out => if i.b->0 {
            Data::both(i.a->0)
        } else {
            Data::floating()
        },
        DataOpCode::And => Data::both(i.a->0 && i.b->0),
        DataOpCode::Or => Data::both(i.a->0 || i.b->0),
        DataOpCode::Nor => Data::both(!(i.a->0 || i.b->0)),
        DataOpCode::Xor => Data::both(i.a->0 != i.b->0),
        DataOpCode::Nxor => Data::both(i.a->0 == i.b->0),
        DataOpCode::Nand => Data::both(!(i.a->0 && i.b->0)),
        DataOpCode::Add => Data { a: Some(i.a->0 != i.b->0), b: Some(i.a->0 && i.b->0) },
        DataOpCode::Sub => Data { a: Some(i.a->0 != i.b->0), b: Some(!(i.a->0 || !i.b->0)) },
    }
}

/// A gate: an opcode plus the two lane selectors that, in the addressed
/// form, say which of a resolved pair of sources feeds rail A and rail B.
#[derive(Clone, Copy, Debug, PartialEq, Eq)]
pub struct DataOp {
    pub code: DataOpCode,
    pub la: u8,
    pub lb: u8,
}

/// A precondition violation, surfacing the opcode and the offending rail
/// state. It marks a circuit that was built incorrectly.
#[derive(Clone, Copy, Debug, PartialEq, Eq)]
pub struct EvalError {
    pub code: DataOpCode,
    pub input: Data,
}

/// Whether `i` is in the domain of `code`.
pub fn admits(code: DataOpCode, i: Data) -> (r: bool)
    ensures
        r == precondition(code, i),
{
    match code {
        DataOpCode::Nop => true,
        DataOpCode::In => i.a.is_some(),
        DataOpCode::Ot | DataOpCode::Not => i.a.is_some() != i.b.is_some(),
        DataOpCode::Nt | DataOpCode::Tt => i.a.is_none() && i.b.is_none(),
        DataOpCode::Pg | DataOpCode::Out => match i.b {
            None => false,
            Some(false) => true,
            Some(true) => i.a.is_some(),
        },
        DataOpCode::And
        | DataOpCode::Or
        | DataOpCode::Nor
        | DataOpCode::Xor
        | DataOpCode::Nxor
        | DataOpCode::Nand
        | DataOpCode::Add
        | DataOpCode::Sub => i.a.is_some() && i.b.is_some(),
    }
}

impl DataOp {
    /// Apply this gate's output rule to an input in its domain.
    pub fn eval(&self, i: Data) -> (o: Data)
        requires
            precondition(self.code, i),
        ensures
            o == eval_spec(self.code, i),
    {
        let ia = i.a;
        let ib = i.b;
        match self.code {
            DataOpCode::Nt => Data { a: Some(false), b: Some(false) },
            DataOpCode::Tt => Data { a: Some(true), b: Some(true) },
            DataOpCode::Nop => Data { a: None, b: None },
            DataOpCode::In => Data { a: Some(ia.unwrap()), b: Some(ia.unwrap()) },
            DataOpCode::Ot => {
                let o: bool = if let Some(v) = ia {
                    v
                } else {
                    ib.unwrap()
                };
                Data { a: Some(o), b: Some(o) }
            },
            DataOpCode::Not => {
                let o: bool = if let Some(v) = ia {
                    !v
                } else {
                    !ib.unwrap()
                };
                Data { a: Some(o), b: Some(o) }
            },
            DataOpCode::Pg | DataOpCode::Out => {
                let o: Option<bool> = match ib.unwrap() {
                    false => None,
                    true => Some(ia.unwrap()),
                };
                Data { a: o, b: o }
            },
            DataOpCode::And => {
                let o = ia.unwrap() && ib.unwrap();
                Data { a: Some(o), b: Some(o) }
            },
            DataOpCode::Or => {
                let o = ia.unwrap() || ib.unwrap();
                Data { a: Some(o), b: Some(o) }
            },
            DataOpCode::Nor => {
                let o = !(ia.unwrap() || ib.unwrap());
                Data { a: Some(o), b: Some(o) }
            },
            DataOpCode::Xor => {
                let o = ia.unwrap() != ib.unwrap();
                Data { a: Some(o), b: Some(o) }
            },
            DataOpCode::Nxor => {
                let o = !(ia.unwrap() != ib.unwrap());
                Data { a: Some(o), b: Some(o) }
            },
            DataOpCode::Nand => {
                let o = !(ia.unwrap() && ib.unwrap());
                Data { a: Some(o), b: Some(o) }
            },
            DataOpCode::Add => {
                let oa = ia.unwrap() != ib.unwrap();
                let ob = ia.unwrap() && ib.unwrap();
                Data { a: Some(oa), b: Some(ob) }
            },
            DataOpCode::Sub => {
                let oa = ia.unwrap() != ib.unwrap();
                let ob = !(ia.unwrap() || !ib.unwrap());
                Data { a: Some(oa), b: Some(ob) }
            },
        }
    }

    /// Evaluate with the domain check made explicit: inputs outside the
    /// opcode's domain are rejected with the opcode and the offending rail
    /// state, instead of being ruled out by contract.
    pub fn try_eval(&self, i: Data) -> (r: Result<Data, EvalError>)
        ensures
            precondition(self.code, i) ==> r == Ok::<Data, EvalError>(eval_spec(self.code, i)),
            !precondition(self.code, i) ==> r == Err::<Data, EvalError>(
                EvalError { code: self.code, input: i },
            ),
    {
        if admits(self.code, i) {
            Ok(self.eval(i))
        } else {
            Err(EvalError { code: self.code, input: i })
        }
    }
}

/// The constants `Nt` and `Tt` accept only the both-floating input: any
/// input with a driven rail is outside their domain.
pub proof fn lemma_const_ops_reject_driven(code: DataOpCode, i: Data)
    requires
        code is Nt || code is Tt,
        i.a is Some || i.b is Some,
    ensures
        !precondition(code, i),
{
}

/// Every two-rail combinational op rejects the both-floating input.
pub proof fn lemma_two_rail_reject_floating(code: DataOpCode, i: Data)
    requires
        code is And || code is Or || code is Nor || code is Xor || code is Nxor
            || code is Nand || code is Add || code is Sub,
        i.is_floating(),
    ensures
        !precondition(code, i),
{
}

/// The one-rail ops `Ot` and `Not` reject any input that does not drive
/// exactly one rail: both-floating and both-driven are outside their
/// domain.
pub proof fn lemma_one_rail_reject(code: DataOpCode, i: Data)
    requires
        code is Ot || code is Not,
        !i.one_driven(),
    ensures
        !precondition(code, i),
{
}

/// A pass-gate (`Pg`, `Out`) with control rail B false yields both rails
/// floating whatever the data rail holds; with control true it duplicates
/// the data rail onto both outputs.
pub proof fn lemma_pass_gate(code: DataOpCode, d: Option<bool>, v: bool)
    requires
        code is Pg || code is Out,
    ensures
        eval_spec(code, Data { a: d, b: Some(false) }) == Data::floating(),
        eval_spec(code, Data { a: Some(v), b: Some(true) }) == Data::both(v),
{
}

/// `Nop` never depends on its input and always yields both rails floating.
pub proof fn lemma_nop_constant(i: Data, j: Data)
    ensures
        eval_spec(DataOpCode::Nop, i) == Data::floating(),
        eval_spec(DataOpCode::Nop, i) == eval_spec(DataOpCode::Nop, j),
{
}

} // verus!
