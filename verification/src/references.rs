//! Where a value lives while an invocation is compiled: one cell expression
//! for each word of the value. A reference speaks of the place, not of the
//! value itself.

use crate::bigint::bigint_clone;
use crate::bigint::bigint_to_i16;
use crate::bigint::bigint_value;
use crate::invocations::InvocationError;
use crate::operand::BinOpOperand;
use crate::operand::CellRef;
use crate::operand::DerefOrImmediate;
use crate::operand::DerefOrImmediateView;
use crate::operand::Operation;
use crate::operand::ResOperand;
use crate::operand::ResOperandView;
use num_bigint::BigInt;
use vstd::prelude::*;

verus! {

/// Why a reference could not be read as the shape that was asked for.
#[derive(Clone, Copy, Debug, PartialEq, Eq, Structural)]
pub enum ReferencesError {
    /// The value has not the number of cells that the shape has.
    UnexpectedNumberOfCells,
    /// A cell is not of the form that the shape has in its place.
    InvalidReferenceTypeForArgument,
}

/// An operation on field elements.
#[derive(Clone, Copy, Debug, PartialEq, Eq, Structural)]
pub enum FeltOperator {
    Add,
    Sub,
    Mul,
    Div,
}

/// `a op b`, over field elements.
#[derive(Debug, PartialEq, Eq)]
pub struct BinOpExpression {
    pub op: FeltOperator,
    pub a: CellRef,
    pub b: DerefOrImmediate,
}

pub struct BinOpExpressionView {
    pub op: FeltOperator,
    pub a: CellRef,
    pub b: DerefOrImmediateView,
}

/// Where one word of a value lives.
#[derive(Debug, PartialEq, Eq)]
pub enum CellExpression {
    /// In a cell.
    Deref(CellRef),
    /// In the cell whose address is the value of a cell plus an offset.
    DoubleDeref(CellRef, i16),
    /// Nowhere: the word is a constant.
    Immediate(BigInt),
    /// Nowhere yet: the word is the result of an operation.
    BinOp(BinOpExpression),
}

pub enum CellExpressionView {
    Deref(CellRef),
    DoubleDeref(CellRef, i16),
    Immediate(int),
    BinOp(BinOpExpressionView),
}

impl View for BinOpExpression {
    type V = BinOpExpressionView;

    open spec fn view(&self) -> BinOpExpressionView {
        BinOpExpressionView { op: self.op, a: self.a, b: self.b@ }
    }
}

impl View for CellExpression {
    type V = CellExpressionView;

    open spec fn view(&self) -> CellExpressionView {
        match *self {
            CellExpression::Deref(cell) => CellExpressionView::Deref(cell),
            CellExpression::DoubleDeref(cell, offset) => CellExpressionView::DoubleDeref(
                cell,
                offset,
            ),
            CellExpression::Immediate(imm) => CellExpressionView::Immediate(bigint_value(imm)),
            CellExpression::BinOp(op) => CellExpressionView::BinOp(op@),
        }
    }
}

impl Clone for CellExpression {
    fn clone(&self) -> (r: Self)
        ensures
            r@ == self@,
    {
        match self {
            CellExpression::Deref(cell) => CellExpression::Deref(*cell),
            CellExpression::DoubleDeref(cell, offset) => CellExpression::DoubleDeref(
                *cell,
                *offset,
            ),
            CellExpression::Immediate(imm) => CellExpression::Immediate(bigint_clone(imm)),
            CellExpression::BinOp(op) => CellExpression::BinOp(
                BinOpExpression { op: op.op, a: op.a, b: op.b.clone() },
            ),
        }
    }
}

impl CellExpressionView {
    /// The place that an operand names.
    pub open spec fn from_res_operand(operand: ResOperandView) -> CellExpressionView {
        match operand {
            ResOperandView::Deref(cell) => CellExpressionView::Deref(cell),
            ResOperandView::DoubleDeref(cell, offset) => CellExpressionView::DoubleDeref(
                cell,
                offset,
            ),
            ResOperandView::Immediate(imm) => CellExpressionView::Immediate(imm),
            ResOperandView::BinOp(op) => CellExpressionView::BinOp(
                BinOpExpressionView {
                    op: match op.op {
                        Operation::Add => FeltOperator::Add,
                        Operation::Mul => FeltOperator::Mul,
                    },
                    a: op.a,
                    b: op.b,
                },
            ),
        }
    }

    /// Whether the place is the start of a buffer in which `required_slack`
    /// more words can be addressed: a cell, or a cell plus a constant that
    /// fits an offset and stays one when `required_slack` is added.
    pub open spec fn is_buffer(self, required_slack: int) -> bool {
        match self {
            CellExpressionView::Deref(_) => required_slack <= i16::MAX,
            CellExpressionView::BinOp(op) => op.op is Add && op.b is Immediate && i16::MIN
                <= op.b->Immediate_0 <= i16::MAX && op.b->Immediate_0 + required_slack
                <= i16::MAX,
            _ => false,
        }
    }

    /// The cursor at the start of the buffer.
    pub open spec fn buffer(self) -> ResOperandView {
        match self {
            CellExpressionView::BinOp(op) => ResOperandView::BinOp(
                crate::operand::BinOpOperandView { op: Operation::Add, a: op.a, b: op.b },
            ),
            CellExpressionView::Deref(cell) => ResOperandView::Deref(cell),
            _ => arbitrary(),
        }
    }
}

impl CellExpression {
    /// The place that an operand names.
    pub fn from_res_operand(operand: ResOperand) -> (r: CellExpression)
        ensures
            r@ == CellExpressionView::from_res_operand(operand@),
    {
        match operand {
            ResOperand::Deref(cell) => CellExpression::Deref(cell),
            ResOperand::DoubleDeref(cell, offset) => CellExpression::DoubleDeref(cell, offset),
            ResOperand::Immediate(imm) => CellExpression::Immediate(imm),
            ResOperand::BinOp(op) => CellExpression::BinOp(
                BinOpExpression {
                    op: match op.op {
                        Operation::Add => FeltOperator::Add,
                        Operation::Mul => FeltOperator::Mul,
                    },
                    a: op.a,
                    b: op.b,
                },
            ),
        }
    }

    /// The cell, for a word that lives in one.
    pub fn to_deref(&self) -> (r: Result<CellRef, InvocationError>)
        ensures
            r == match self@ {
                CellExpressionView::Deref(cell) => Ok::<CellRef, InvocationError>(cell),
                _ => Err::<CellRef, InvocationError>(
                    InvocationError::InvalidReferenceExpressionForArgument,
                ),
            },
    {
        match self {
            CellExpression::Deref(cell) => Ok(*cell),
            _ => Err(InvocationError::InvalidReferenceExpressionForArgument),
        }
    }

    /// The cursor at the start of a buffer, for a word that holds the
    /// address of one in which `required_slack` more words can be addressed.
    pub fn to_buffer(&self, required_slack: i16) -> (r: Result<ResOperand, InvocationError>)
        ensures
            match r {
                Ok(cursor) => self@.is_buffer(required_slack as int) && cursor@ == self@.buffer(),
                Err(e) => !self@.is_buffer(required_slack as int) && e
                    == InvocationError::InvalidReferenceExpressionForArgument,
            },
    {
        match self {
            CellExpression::Deref(cell) => Ok(ResOperand::Deref(*cell)),
            CellExpression::BinOp(op) => match (&op.op, &op.b) {
                (FeltOperator::Add, DerefOrImmediate::Immediate(imm)) => match bigint_to_i16(imm) {
                    Some(offset) => {
                        if offset as i32 + required_slack as i32 > 0x7fff {
                            Err(InvocationError::InvalidReferenceExpressionForArgument)
                        } else {
                            Ok(
                                ResOperand::BinOp(
                                    BinOpOperand {
                                        op: Operation::Add,
                                        a: op.a,
                                        b: DerefOrImmediate::Immediate(bigint_clone(imm)),
                                    },
                                ),
                            )
                        }
                    },
                    None => Err(InvocationError::InvalidReferenceExpressionForArgument),
                },
                _ => Err(InvocationError::InvalidReferenceExpressionForArgument),
            },
            _ => Err(InvocationError::InvalidReferenceExpressionForArgument),
        }
    }
}

/// Where a value lives: one cell expression for each of its words.
#[derive(Debug, PartialEq, Eq)]
pub struct ReferenceExpression {
    pub cells: Vec<CellExpression>,
}

impl View for ReferenceExpression {
    type V = Seq<CellExpressionView>;

    open spec fn view(&self) -> Seq<CellExpressionView> {
        self.cells@.map_values(|c: CellExpression| c@)
    }
}

impl Clone for ReferenceExpression {
    fn clone(&self) -> (r: Self)
        ensures
            r@ == self@,
    {
        let mut cells: Vec<CellExpression> = Vec::new();
        let mut i: usize = 0;
        while i < self.cells.len()
            invariant
                i <= self.cells.len(),
                cells@.len() == i,
                forall|j: int| 0 <= j < i ==> (#[trigger] cells@[j])@ == self.cells@[j]@,
            decreases self.cells.len() - i,
        {
            cells.push(self.cells[i].clone());
            i += 1;
        }
        let r = ReferenceExpression { cells };
        assert(r@ =~= self@);
        r
    }
}

impl ReferenceExpression {
    /// The reference of a value of one word.
    pub fn from_cell(cell_expr: CellExpression) -> (r: ReferenceExpression)
        ensures
            r@ == seq![cell_expr@],
    {
        let r = ReferenceExpression { cells: vec![cell_expr] };
        assert(r@ =~= seq![cell_expr@]);
        r
    }

    /// The one cell expression of a value of one word.
    pub fn try_unpack_single(&self) -> (r: Result<&CellExpression, ReferencesError>)
        ensures
            match r {
                Ok(cell_expr) => self@.len() == 1 && cell_expr@ == self@[0],
                Err(e) => self@.len() != 1 && e == ReferencesError::UnexpectedNumberOfCells,
            },
    {
        if self.cells.len() == 1 {
            Ok(&self.cells[0])
        } else {
            Err(ReferencesError::UnexpectedNumberOfCells)
        }
    }
}

} // verus!
