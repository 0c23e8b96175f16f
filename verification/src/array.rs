//! The view of a reference as an array: a start cursor and an end cursor.

use crate::bigint::bigint_to_u16;
use crate::lib_func::ConcreteType;
use crate::operand::CellRef;
use crate::operand::DerefOrImmediate;
use crate::references::CellExpression;
use crate::references::CellExpressionView;
use crate::references::FeltOperator;
use crate::references::ReferenceExpression;
use crate::references::ReferencesError;
use vstd::prelude::*;

verus! {

/// What an invocation compiler may ask about the program it works in.
#[derive(Debug, PartialEq, Eq)]
pub struct ProgramInfo {
    /// The size in words of each type that the program declares, by the
    /// order of declaration.
    pub type_sizes: Vec<i16>,
}

/// An array in memory: the cell that holds the address of its first word,
/// and the cell that holds an address `end_offset` words before its end.
/// While `end_offset` is not zero the end has moved on without the cell
/// being written anew.
#[derive(Clone, Copy, Debug, PartialEq, Eq, Structural)]
pub struct ArrayView {
    pub start: CellRef,
    pub end: CellRef,
    pub end_offset: u16,
}

impl ArrayView {
    /// Whether a reference has the shape of an array: two words, the first
    /// in a cell, the second in a cell or a cell plus a constant that a
    /// `u16` holds.
    pub open spec fn is_array(expr: Seq<CellExpressionView>) -> bool {
        &&& expr.len() == 2
        &&& expr[0] is Deref
        &&& match expr[1] {
            CellExpressionView::Deref(_) => true,
            CellExpressionView::BinOp(op) => op.op is Add && op.b is Immediate && 0
                <= op.b->Immediate_0 <= u16::MAX,
            _ => false,
        }
    }

    /// The array that a reference of that shape stands for.
    pub open spec fn of(expr: Seq<CellExpressionView>) -> ArrayView {
        ArrayView {
            start: expr[0]->Deref_0,
            end: match expr[1] {
                CellExpressionView::BinOp(op) => op.a,
                _ => expr[1]->Deref_0,
            },
            end_offset: match expr[1] {
                CellExpressionView::BinOp(op) => op.b->Immediate_0 as u16,
                _ => 0,
            },
        }
    }

    /// Reads a reference as an array whose elements are of type
    /// `_element_type`.
    pub fn try_get_view(
        expr: &ReferenceExpression,
        _program_info: &ProgramInfo,
        _element_type: &ConcreteType,
    ) -> (r: Result<ArrayView, ReferencesError>)
        ensures
            r == if ArrayView::is_array(expr@) {
                Ok::<ArrayView, ReferencesError>(ArrayView::of(expr@))
            } else {
                Err::<ArrayView, ReferencesError>(ReferencesError::InvalidReferenceTypeForArgument)
            },
    {
        if expr.cells.len() != 2 {
            return Err(ReferencesError::InvalidReferenceTypeForArgument);
        }
        let start = match &expr.cells[0] {
            CellExpression::Deref(cell) => *cell,
            _ => {
                return Err(ReferencesError::InvalidReferenceTypeForArgument);
            },
        };
        match &expr.cells[1] {
            CellExpression::Deref(end) => Ok(ArrayView { start, end: *end, end_offset: 0 }),
            CellExpression::BinOp(op) => match (&op.op, &op.b) {
                (FeltOperator::Add, DerefOrImmediate::Immediate(imm)) => match bigint_to_u16(imm) {
                    Some(end_offset) => Ok(ArrayView { start, end: op.a, end_offset }),
                    None => Err(ReferencesError::InvalidReferenceTypeForArgument),
                },
                _ => Err(ReferencesError::InvalidReferenceTypeForArgument),
            },
            _ => Err(ReferencesError::InvalidReferenceTypeForArgument),
        }
    }
}

} // verus!
