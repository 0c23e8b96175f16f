//! Operands of the assembly: memory cells named relative to a register,
//! immediates, and the few forms an instruction's right-hand side can take.
//!
//! A cell relative to the allocation pointer is written against the pointer's
//! value at some moment; once the pointer has advanced by `n` words the same
//! cell is `n` words further below it.

use crate::bigint::bigint_clone;
use crate::bigint::bigint_value;
use num_bigint::BigInt;
use vstd::prelude::*;

verus! {

/// The two registers that a memory cell can be named against.
#[derive(Clone, Copy, Debug, PartialEq, Eq, Hash, Structural)]
pub enum Register {
    /// The allocation pointer; it only ever grows.
    AP,
    /// The frame pointer; it is fixed while a function runs.
    FP,
}

/// The memory cell at `register + offset`.
#[derive(Clone, Copy, Debug, PartialEq, Eq, Hash, Structural)]
pub struct CellRef {
    pub register: Register,
    pub offset: i16,
}

/// An arithmetic operation between a cell and a second operand.
#[derive(Clone, Copy, Debug, PartialEq, Eq, Hash, Structural)]
pub enum Operation {
    Add,
    Mul,
}

/// Either the value of a cell or a constant.
#[derive(Debug, PartialEq, Eq)]
pub enum DerefOrImmediate {
    Deref(CellRef),
    Immediate(BigInt),
}

/// `a op b`.
#[derive(Debug, PartialEq, Eq)]
pub struct BinOpOperand {
    pub op: Operation,
    pub a: CellRef,
    pub b: DerefOrImmediate,
}

/// The right-hand side of an instruction.
#[derive(Debug, PartialEq, Eq)]
pub enum ResOperand {
    /// The value of a cell.
    Deref(CellRef),
    /// The value of the cell whose address is the value of a cell plus an offset.
    DoubleDeref(CellRef, i16),
    /// A constant.
    Immediate(BigInt),
    /// The result of an operation.
    BinOp(BinOpOperand),
}

/// What a `DerefOrImmediate` stands for, with the constant as an integer.
pub enum DerefOrImmediateView {
    Deref(CellRef),
    Immediate(int),
}

/// What a `BinOpOperand` stands for.
pub struct BinOpOperandView {
    pub op: Operation,
    pub a: CellRef,
    pub b: DerefOrImmediateView,
}

/// What a `ResOperand` stands for, with constants as integers.
pub enum ResOperandView {
    Deref(CellRef),
    DoubleDeref(CellRef, i16),
    Immediate(int),
    BinOp(BinOpOperandView),
}

impl CellRef {
    /// Whether the cell can still be named once the allocation pointer has
    /// advanced by `ap_change` words: the new offset must fit.
    pub open spec fn can_apply_ap_change(self, ap_change: int) -> bool {
        self.register is AP ==> ap_change <= i16::MAX && self.offset - ap_change >= i16::MIN
    }

    /// The same cell, named against an allocation pointer that has advanced
    /// by `ap_change` words.
    pub open spec fn applied_ap_change(self, ap_change: int) -> CellRef {
        match self.register {
            Register::AP => CellRef {
                register: Register::AP,
                offset: (self.offset - ap_change) as i16,
            },
            Register::FP => self,
        }
    }

    /// Renames the cell after the allocation pointer advanced by `ap_change`
    /// words, or gives `None` where the new offset does not fit.
    pub fn apply_known_ap_change(self, ap_change: usize) -> (r: Option<CellRef>)
        ensures
            r == if self.can_apply_ap_change(ap_change as int) {
                Some(self.applied_ap_change(ap_change as int))
            } else {
                None
            },
    {
        match self.register {
            Register::FP => Some(self),
            Register::AP => {
                if ap_change > 0x7fff {
                    return None;
                }
                let delta: i32 = ap_change as i32;
                let moved: i32 = self.offset as i32 - delta;
                if moved < -0x8000 {
                    None
                } else {
                    Some(CellRef { register: Register::AP, offset: moved as i16 })
                }
            },
        }
    }

    /// Renames the cell after the allocation pointer advanced by `ap_change`
    /// words, for a cell that can be so renamed.
    pub fn unchecked_apply_known_ap_change(self, ap_change: usize) -> (r: CellRef)
        requires
            self.can_apply_ap_change(ap_change as int),
        ensures
            r == self.applied_ap_change(ap_change as int),
    {
        match self.apply_known_ap_change(ap_change) {
            Some(cell) => cell,
            None => unreached(),
        }
    }
}

impl View for DerefOrImmediate {
    type V = DerefOrImmediateView;

    open spec fn view(&self) -> DerefOrImmediateView {
        match *self {
            DerefOrImmediate::Deref(cell) => DerefOrImmediateView::Deref(cell),
            DerefOrImmediate::Immediate(imm) => DerefOrImmediateView::Immediate(bigint_value(imm)),
        }
    }
}

impl View for BinOpOperand {
    type V = BinOpOperandView;

    open spec fn view(&self) -> BinOpOperandView {
        BinOpOperandView { op: self.op, a: self.a, b: self.b@ }
    }
}

impl View for ResOperand {
    type V = ResOperandView;

    open spec fn view(&self) -> ResOperandView {
        match *self {
            ResOperand::Deref(cell) => ResOperandView::Deref(cell),
            ResOperand::DoubleDeref(cell, offset) => ResOperandView::DoubleDeref(cell, offset),
            ResOperand::Immediate(imm) => ResOperandView::Immediate(bigint_value(imm)),
            ResOperand::BinOp(op) => ResOperandView::BinOp(op@),
        }
    }
}

impl DerefOrImmediateView {
    pub open spec fn can_apply_ap_change(self, ap_change: int) -> bool {
        match self {
            DerefOrImmediateView::Deref(cell) => cell.can_apply_ap_change(ap_change),
            DerefOrImmediateView::Immediate(_) => true,
        }
    }

    pub open spec fn applied_ap_change(self, ap_change: int) -> DerefOrImmediateView {
        match self {
            DerefOrImmediateView::Deref(cell) => DerefOrImmediateView::Deref(
                cell.applied_ap_change(ap_change),
            ),
            DerefOrImmediateView::Immediate(imm) => DerefOrImmediateView::Immediate(imm),
        }
    }
}

impl ResOperandView {
    /// Whether every cell that the operand names can still be named once the
    /// allocation pointer has advanced by `ap_change` words.
    pub open spec fn can_apply_ap_change(self, ap_change: int) -> bool {
        match self {
            ResOperandView::Deref(cell) => cell.can_apply_ap_change(ap_change),
            ResOperandView::DoubleDeref(cell, _) => cell.can_apply_ap_change(ap_change),
            ResOperandView::Immediate(_) => true,
            ResOperandView::BinOp(op) => op.a.can_apply_ap_change(ap_change)
                && op.b.can_apply_ap_change(ap_change),
        }
    }

    /// The same operand, with each cell named against an allocation pointer
    /// that has advanced by `ap_change` words. Constants and the offset of a
    /// double dereference do not move.
    pub open spec fn applied_ap_change(self, ap_change: int) -> ResOperandView {
        match self {
            ResOperandView::Deref(cell) => ResOperandView::Deref(cell.applied_ap_change(ap_change)),
            ResOperandView::DoubleDeref(cell, offset) => ResOperandView::DoubleDeref(
                cell.applied_ap_change(ap_change),
                offset,
            ),
            ResOperandView::Immediate(imm) => ResOperandView::Immediate(imm),
            ResOperandView::BinOp(op) => ResOperandView::BinOp(
                BinOpOperandView {
                    op: op.op,
                    a: op.a.applied_ap_change(ap_change),
                    b: op.b.applied_ap_change(ap_change),
                },
            ),
        }
    }
}

impl Clone for DerefOrImmediate {
    fn clone(&self) -> (r: Self)
        ensures
            r@ == self@,
    {
        match self {
            DerefOrImmediate::Deref(cell) => DerefOrImmediate::Deref(*cell),
            DerefOrImmediate::Immediate(imm) => DerefOrImmediate::Immediate(bigint_clone(imm)),
        }
    }
}

impl Clone for BinOpOperand {
    fn clone(&self) -> (r: Self)
        ensures
            r@ == self@,
    {
        BinOpOperand { op: self.op, a: self.a, b: self.b.clone() }
    }
}

impl Clone for ResOperand {
    fn clone(&self) -> (r: Self)
        ensures
            r@ == self@,
    {
        match self {
            ResOperand::Deref(cell) => ResOperand::Deref(*cell),
            ResOperand::DoubleDeref(cell, offset) => ResOperand::DoubleDeref(*cell, *offset),
            ResOperand::Immediate(imm) => ResOperand::Immediate(bigint_clone(imm)),
            ResOperand::BinOp(op) => ResOperand::BinOp(op.clone()),
        }
    }
}

impl DerefOrImmediate {
    /// Renames the cell, if there is one, after the allocation pointer
    /// advanced by `ap_change` words; `None` where the new offset does not fit.
    pub fn apply_known_ap_change(&self, ap_change: usize) -> (r: Option<DerefOrImmediate>)
        ensures
            self@.can_apply_ap_change(ap_change as int) ==> r.is_some() && r.unwrap()@
                == self@.applied_ap_change(ap_change as int),
            !self@.can_apply_ap_change(ap_change as int) ==> r.is_none(),
    {
        match self {
            DerefOrImmediate::Deref(cell) => match cell.apply_known_ap_change(ap_change) {
                Some(moved) => Some(DerefOrImmediate::Deref(moved)),
                None => None,
            },
            DerefOrImmediate::Immediate(imm) => Some(
                DerefOrImmediate::Immediate(bigint_clone(imm)),
            ),
        }
    }
}

impl ResOperand {
    /// Renames the operand's cells after the allocation pointer advanced by
    /// `ap_change` words; `None` where a new offset does not fit.
    pub fn apply_known_ap_change(&self, ap_change: usize) -> (r: Option<ResOperand>)
        ensures
            self@.can_apply_ap_change(ap_change as int) ==> r.is_some() && r.unwrap()@
                == self@.applied_ap_change(ap_change as int),
            !self@.can_apply_ap_change(ap_change as int) ==> r.is_none(),
    {
        match self {
            ResOperand::Deref(cell) => match cell.apply_known_ap_change(ap_change) {
                Some(moved) => Some(ResOperand::Deref(moved)),
                None => None,
            },
            ResOperand::DoubleDeref(cell, offset) => match cell.apply_known_ap_change(ap_change) {
                Some(moved) => Some(ResOperand::DoubleDeref(moved, *offset)),
                None => None,
            },
            ResOperand::Immediate(imm) => Some(ResOperand::Immediate(bigint_clone(imm))),
            ResOperand::BinOp(op) => {
                match op.a.apply_known_ap_change(ap_change) {
                    Some(a) => match op.b.apply_known_ap_change(ap_change) {
                        Some(b) => Some(ResOperand::BinOp(BinOpOperand { op: op.op, a, b })),
                        None => None,
                    },
                    None => None,
                }
            },
        }
    }

    /// Renames the operand's cells after the allocation pointer advanced by
    /// `ap_change` words, for an operand whose cells can be so renamed.
    pub fn unchecked_apply_known_ap_change(&self, ap_change: usize) -> (r: ResOperand)
        requires
            self@.can_apply_ap_change(ap_change as int),
        ensures
            r@ == self@.applied_ap_change(ap_change as int),
    {
        match self.apply_known_ap_change(ap_change) {
            Some(moved) => moved,
            None => unreached(),
        }
    }
}

} // verus!
