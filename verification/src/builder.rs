//! The instruction builder: a small assembler over symbolic variables.
//!
//! A session binds variables to operands, emits instructions that speak of
//! them, and keeps count of two things: how many temporaries it has handed
//! out (`allocated`) and by how many words the emitted instructions have
//! advanced the allocation pointer (`ap_change`). Variables keep the operand
//! they were bound with, written against the pointer's value when the
//! session began; an operand is re-expressed against the current pointer
//! whenever an instruction uses it. A conditional jump records the state in
//! which its target is reached, under the target's name.

use crate::bigint::bigint_from_i64;
use crate::bigint::bigint_to_i16;
use crate::instructions::hints_view;
use crate::instructions::instructions_view;
use crate::instructions::jump_indices;
use crate::instructions::Hint;
use crate::instructions::HintView;
use crate::instructions::Instruction;
use crate::instructions::InstructionBody;
use crate::instructions::InstructionBodyView;
use crate::instructions::InstructionView;
use crate::operand::BinOpOperand;
use crate::operand::BinOpOperandView;
use crate::operand::CellRef;
use crate::operand::DerefOrImmediate;
use crate::operand::DerefOrImmediateView;
use crate::operand::Operation;
use crate::operand::Register;
use crate::operand::ResOperand;
use crate::operand::ResOperandView;
use vstd::prelude::*;

verus! {

/// A symbolic variable of a builder session: the position at which it was bound.
#[derive(Clone, Copy, Debug, PartialEq, Eq, Hash, Structural)]
pub struct Var(pub usize);

/// The operands of a list, each as what it stands for.
pub open spec fn operands_view(operands: Seq<ResOperand>) -> Seq<ResOperandView> {
    operands.map_values(|o: ResOperand| o@)
}

/// The bindings and counters of a session at one point of the code.
#[derive(Debug, PartialEq, Eq)]
pub struct State {
    vars: Vec<ResOperand>,
    allocated: i16,
    ap_change: usize,
}

/// What a `State` stands for.
pub struct StateView {
    /// The operand of each variable, written against the allocation pointer
    /// at the start of the session.
    pub vars: Seq<ResOperandView>,
    /// How many temporaries were handed out.
    pub allocated: int,
    /// By how many words the allocation pointer has advanced.
    pub ap_change: int,
}

impl StateView {
    /// No more words were claimed by instructions than temporaries were
    /// handed out, the temporaries' offsets fit, and the variables can be
    /// counted.
    pub open spec fn wf(self) -> bool {
        0 <= self.ap_change <= self.allocated <= i16::MAX && self.vars.len() <= usize::MAX
    }

    pub open spec fn has_var(self, var: Var) -> bool {
        var.0 < self.vars.len()
    }

    /// The operand that `var` was bound with.
    pub open spec fn value(self, var: Var) -> ResOperandView {
        self.vars[var.0 as int]
    }

    /// Whether `var` is bound and its operand can be written against the
    /// current allocation pointer.
    pub open spec fn can_adjust(self, var: Var) -> bool {
        self.has_var(var) && self.value(var).can_apply_ap_change(self.ap_change)
    }

    /// The operand of `var`, written against the current allocation pointer.
    pub open spec fn adjusted(self, var: Var) -> ResOperandView {
        self.value(var).applied_ap_change(self.ap_change)
    }

    /// Whether `var` can be used where a plain cell is wanted.
    pub open spec fn is_cell(self, var: Var) -> bool {
        self.can_adjust(var) && self.value(var) is Deref
    }

    /// The cell of `var`, written against the current allocation pointer.
    pub open spec fn adjusted_cell(self, var: Var) -> CellRef {
        self.adjusted(var)->Deref_0
    }

    /// Whether `var` is a cursor into a buffer whose current word can be
    /// addressed: a cell, or a cell plus a constant that fits an offset.
    pub open spec fn is_buffer(self, var: Var) -> bool {
        self.has_var(var) && match self.value(var) {
            ResOperandView::Deref(_) => true,
            ResOperandView::BinOp(op) => op.op is Add && op.b is Immediate && i16::MIN
                <= op.b->Immediate_0 <= i16::MAX,
            _ => false,
        }
    }

    /// The cell that holds the buffer's base address.
    pub open spec fn buffer_cell(self, var: Var) -> CellRef {
        match self.value(var) {
            ResOperandView::Deref(cell) => cell,
            ResOperandView::BinOp(op) => op.a,
            _ => arbitrary(),
        }
    }

    /// How many words past the base the cursor stands.
    pub open spec fn buffer_offset(self, var: Var) -> int {
        match self.value(var) {
            ResOperandView::BinOp(op) => op.b->Immediate_0,
            _ => 0,
        }
    }

    /// The state in which `var` is bound anew, as the last variable.
    pub open spec fn add_var(self, value: ResOperandView) -> StateView {
        StateView { vars: self.vars.push(value), ..self }
    }

    /// The variable that the next binding creates.
    pub open spec fn next_var(self) -> Var {
        Var(self.vars.len() as usize)
    }
}

impl View for State {
    type V = StateView;

    closed spec fn view(&self) -> StateView {
        StateView {
            vars: operands_view(self.vars@),
            allocated: self.allocated as int,
            ap_change: self.ap_change as int,
        }
    }
}

impl Clone for State {
    fn clone(&self) -> (r: Self)
        ensures
            r@ == self@,
    {
        let mut vars: Vec<ResOperand> = Vec::new();
        let mut i: usize = 0;
        while i < self.vars.len()
            invariant
                i <= self.vars.len(),
                vars@.len() == i,
                forall|j: int| 0 <= j < i ==> (#[trigger] vars@[j])@ == self.vars@[j]@,
            decreases self.vars.len() - i,
        {
            vars.push(self.vars[i].clone());
            i += 1;
        }
        assert(operands_view(vars@) =~= operands_view(self.vars@));
        State { vars, allocated: self.allocated, ap_change: self.ap_change }
    }
}

impl State {
    /// The state of a session that has not begun.
    pub fn new() -> (r: State)
        ensures
            r@ == (StateView { vars: Seq::empty(), allocated: 0, ap_change: 0 }),
    {
        let r = State { vars: Vec::new(), allocated: 0, ap_change: 0 };
        assert(operands_view(r.vars@) =~= Seq::empty());
        r
    }

    /// By how many words the allocation pointer has advanced.
    pub fn ap_change(&self) -> (r: usize)
        ensures
            r == self@.ap_change,
    {
        self.ap_change
    }

    /// How many variables are bound.
    pub fn var_count(&self) -> (r: usize)
        ensures
            r == self@.vars.len(),
    {
        self.vars.len()
    }

    /// The operand that `var` was bound with, written against the allocation
    /// pointer at the start of the session.
    pub fn get_value(&self, var: Var) -> (r: ResOperand)
        requires
            self@.has_var(var),
        ensures
            r@ == self@.value(var),
    {
        self.vars[var.0].clone()
    }

    /// Whether `get_adjusted` can be asked for `var`.
    pub fn can_adjust(&self, var: Var) -> (r: bool)
        ensures
            r == self@.can_adjust(var),
    {
        var.0 < self.vars.len() && self.vars[var.0].apply_known_ap_change(self.ap_change).is_some()
    }

    /// Whether `var` can be used where a plain cell is wanted.
    pub fn is_cell(&self, var: Var) -> (r: bool)
        ensures
            r == self@.is_cell(var),
    {
        var.0 < self.vars.len() && match &self.vars[var.0] {
            ResOperand::Deref(cell) => cell.apply_known_ap_change(self.ap_change).is_some(),
            _ => false,
        }
    }

    /// Whether `var` is a cursor whose current word can be addressed.
    pub fn is_buffer(&self, var: Var) -> (r: bool)
        ensures
            r == self@.is_buffer(var),
    {
        var.0 < self.vars.len() && match &self.vars[var.0] {
            ResOperand::Deref(_) => true,
            ResOperand::BinOp(op) => match (&op.op, &op.b) {
                (Operation::Add, DerefOrImmediate::Immediate(imm)) => bigint_to_i16(imm).is_some(),
                _ => false,
            },
            _ => false,
        }
    }

    /// The operand of `var`, written against the current allocation pointer.
    pub fn get_adjusted(&self, var: Var) -> (r: ResOperand)
        requires
            self@.can_adjust(var),
        ensures
            r@ == self@.adjusted(var),
    {
        self.vars[var.0].unchecked_apply_known_ap_change(self.ap_change)
    }

    /// The cell of `var`, written against the current allocation pointer,
    /// for a variable that is bound to a plain cell.
    pub fn get_adjusted_as_cell_ref(&self, var: Var) -> (r: CellRef)
        requires
            self@.is_cell(var),
        ensures
            r == self@.adjusted_cell(var),
    {
        match &self.vars[var.0] {
            ResOperand::Deref(cell) => cell.unchecked_apply_known_ap_change(self.ap_change),
            _ => unreached(),
        }
    }
}

/// A state recorded under a target's name.
#[derive(Debug, PartialEq, Eq)]
pub struct LabelEntry {
    name: String,
    state: State,
}

/// The states recorded for jump targets, by name. A name recorded twice
/// keeps the later state.
#[derive(Debug, PartialEq, Eq)]
pub struct LabelStates {
    entries: Vec<LabelEntry>,
}

/// The map that a list of recordings amounts to: later ones win.
pub closed spec fn entries_map(entries: Seq<LabelEntry>) -> Map<Seq<char>, StateView>
    decreases entries.len(),
{
    if entries.len() == 0 {
        Map::empty()
    } else {
        entries_map(entries.drop_last()).insert(entries.last().name@, entries.last().state@)
    }
}

impl View for LabelStates {
    type V = Map<Seq<char>, StateView>;

    closed spec fn view(&self) -> Map<Seq<char>, StateView> {
        entries_map(self.entries@)
    }
}

impl LabelStates {
    pub fn new() -> (r: LabelStates)
        ensures
            r@ == Map::<Seq<char>, StateView>::empty(),
    {
        LabelStates { entries: Vec::new() }
    }

    /// Records `state` under `name`, in place of what was recorded there.
    pub fn insert(&mut self, name: String, state: State)
        ensures
            final(self)@ == old(self)@.insert(name@, state@),
    {
        let ghost before = self.entries@;
        self.entries.push(LabelEntry { name, state });
        assert(self.entries@.drop_last() =~= before);
    }

    /// The state recorded under `name`, if there is one.
    pub fn get(&self, name: &String) -> (r: Option<&State>)
        ensures
            self@.contains_key(name@) ==> r.is_some() && r.unwrap()@ == self@[name@],
            !self@.contains_key(name@) ==> r.is_none(),
    {
        let mut i: usize = self.entries.len();
        assert(self.entries@.take(i as int) =~= self.entries@);
        while i > 0
            invariant
                i <= self.entries.len(),
                self@.contains_key(name@) == entries_map(self.entries@.take(i as int)).contains_key(
                    name@,
                ),
                self@.contains_key(name@) ==> self@[name@] == entries_map(
                    self.entries@.take(i as int),
                )[name@],
            decreases i,
        {
            i -= 1;
            assert(self.entries@.take(i + 1).drop_last() =~= self.entries@.take(i as int));
            if self.entries[i].name == *name {
                return Some(&self.entries[i].state);
            }
        }
        None
    }

    /// The state recorded under `name`, for a name under which one was recorded.
    pub fn index(&self, name: &String) -> (r: &State)
        requires
            self@.contains_key(name@),
        ensures
            r@ == self@[name@],
    {
        match self.get(name) {
            Some(state) => state,
            None => unreached(),
        }
    }
}

/// What a finished session hands over.
pub struct CasmBuildResult {
    /// The instructions, in the order in which they were emitted.
    pub instructions: Vec<Instruction>,
    /// The positions of the jumps whose targets are still to be filled in.
    pub awaiting_relocations: Vec<usize>,
    /// The state in which each jump target is reached, by the target's name.
    pub label_state: LabelStates,
    /// The state in which execution runs off the end of the code.
    pub fallthrough_state: State,
    /// The target of each jump, in the order of `awaiting_relocations`.
    pub jump_targets: Ghost<Seq<Seq<char>>>,
}

/// A builder session.
pub struct CasmBuilder {
    instructions: Vec<Instruction>,
    awaiting_relocations: Vec<usize>,
    label_state: LabelStates,
    main_state: State,
    current_hints: Vec<Hint>,
    jump_targets: Ghost<Seq<Seq<char>>>,
}

/// The positions of a list, as integers.
pub open spec fn positions_view(positions: Seq<usize>) -> Seq<int> {
    positions.map_values(|p: usize| p as int)
}

/// What a builder session stands for.
pub struct CasmBuilderView {
    /// The instructions emitted so far.
    pub instructions: Seq<InstructionView>,
    /// The positions of the jumps emitted so far.
    pub awaiting_relocations: Seq<int>,
    /// The target of each of these jumps.
    pub jump_targets: Seq<Seq<char>>,
    /// The state recorded for each target.
    pub label_state: Map<Seq<char>, StateView>,
    /// The state after the last instruction.
    pub main_state: StateView,
    /// The hints that the next instruction will carry.
    pub current_hints: Seq<HintView>,
}

impl CasmBuilderView {
    /// The session that has not begun.
    pub open spec fn empty() -> CasmBuilderView {
        CasmBuilderView {
            instructions: Seq::empty(),
            awaiting_relocations: Seq::empty(),
            jump_targets: Seq::empty(),
            label_state: Map::empty(),
            main_state: StateView { vars: Seq::empty(), allocated: 0, ap_change: 0 },
            current_hints: Seq::empty(),
        }
    }

    /// What holds of every session: the counters are in order, the jumps
    /// awaiting a target are exactly the jumps emitted, one target was named
    /// for each, and a state was recorded for every target named.
    pub open spec fn wf(self) -> bool {
        &&& self.main_state.wf()
        &&& self.awaiting_relocations == jump_indices(self.instructions)
        &&& self.jump_targets.len() == self.awaiting_relocations.len()
        &&& forall|k: int|
            0 <= k < self.jump_targets.len() ==> self.label_state.contains_key(
                #[trigger] self.jump_targets[k],
            )
    }

    /// Binds a new variable to `value`.
    pub open spec fn add_var(self, value: ResOperandView) -> CasmBuilderView {
        CasmBuilderView { main_state: self.main_state.add_var(value), ..self }
    }

    /// Hands out the next temporary: the cell at the allocation pointer's
    /// starting value plus the number of temporaries handed out before.
    pub open spec fn alloc_var(self) -> CasmBuilderView {
        let cell = CellRef { register: Register::AP, offset: self.main_state.allocated as i16 };
        CasmBuilderView {
            main_state: StateView {
                allocated: self.main_state.allocated + 1,
                ..self.main_state.add_var(ResOperandView::Deref(cell))
            },
            ..self
        }
    }

    /// Queues a hint for the next instruction.
    pub open spec fn add_hint(self, hint: HintView) -> CasmBuilderView {
        CasmBuilderView { current_hints: self.current_hints.push(hint), ..self }
    }

    /// Whether the next instruction advances the allocation pointer: it does
    /// while temporaries were handed out that no instruction has claimed.
    pub open spec fn next_inc_ap(self) -> bool {
        self.main_state.allocated > self.main_state.ap_change
    }

    /// Emits an instruction with the queued hints.
    pub open spec fn emit(self, body: InstructionBodyView) -> CasmBuilderView {
        let inc_ap = self.next_inc_ap();
        CasmBuilderView {
            instructions: self.instructions.push(
                InstructionView { body, inc_ap, hints: self.current_hints },
            ),
            current_hints: Seq::empty(),
            main_state: StateView {
                ap_change: self.main_state.ap_change + if inc_ap {
                    1int
                } else {
                    0int
                },
                ..self.main_state
            },
            ..self
        }
    }

    /// Whether `dst = res` can be asserted: `dst` is a plain cell, and both
    /// can be written against the current allocation pointer.
    pub open spec fn can_assert_vars_eq(self, dst: Var, res: Var) -> bool {
        self.main_state.is_cell(dst) && self.main_state.can_adjust(res)
    }

    /// Emits the assertion `dst = res`.
    pub open spec fn assert_vars_eq(self, dst: Var, res: Var) -> CasmBuilderView {
        self.emit(
            InstructionBodyView::AssertEq {
                a: self.main_state.adjusted_cell(dst),
                b: self.main_state.adjusted(res),
            },
        )
    }

    /// Moves the cursor `buffer` one word on.
    pub open spec fn buffer_inc(self, buffer: Var) -> CasmBuilderView {
        let moved = ResOperandView::BinOp(
            BinOpOperandView {
                op: Operation::Add,
                a: self.main_state.buffer_cell(buffer),
                b: DerefOrImmediateView::Immediate(self.main_state.buffer_offset(buffer) + 1),
            },
        );
        CasmBuilderView {
            main_state: StateView {
                vars: self.main_state.vars.update(buffer.0 as int, moved),
                ..self.main_state
            },
            ..self
        }
    }

    /// The word under the cursor `buffer`.
    pub open spec fn buffer_word(self, buffer: Var) -> ResOperandView {
        ResOperandView::DoubleDeref(
            self.main_state.buffer_cell(buffer),
            self.main_state.buffer_offset(buffer) as i16,
        )
    }

    /// Binds a new variable to the word under the cursor and moves the
    /// cursor one word on.
    pub open spec fn get_ref_and_inc(self, buffer: Var) -> CasmBuilderView {
        self.buffer_inc(buffer).add_var(self.buffer_word(buffer))
    }

    /// Whether `value` can be written through the cursor `buffer`: the
    /// cursor's current word can be addressed, and `value` is a plain cell
    /// other than the cursor itself.
    pub open spec fn can_buffer_write(self, buffer: Var, value: Var) -> bool {
        &&& buffer != value
        &&& self.main_state.is_buffer(buffer)
        &&& self.main_state.buffer_cell(buffer).can_apply_ap_change(self.main_state.ap_change)
        &&& self.main_state.is_cell(value)
    }

    /// Emits the assertion that the word under the cursor equals `value`,
    /// and moves the cursor one word on.
    pub open spec fn buffer_write_and_inc(self, buffer: Var, value: Var) -> CasmBuilderView {
        self.get_ref_and_inc(buffer).assert_vars_eq(value, self.main_state.next_var())
    }

    /// Emits a jump to `label` taken when `condition` is not zero, and
    /// records under `label` the state in which the target is reached.
    pub open spec fn jump_nz(self, condition: Var, label: Seq<char>) -> CasmBuilderView {
        let jumped = self.emit(
            InstructionBodyView::Jnz {
                jump_offset: DerefOrImmediateView::Immediate(0),
                condition: self.main_state.adjusted_cell(condition),
            },
        );
        CasmBuilderView {
            awaiting_relocations: self.awaiting_relocations.push(self.instructions.len() as int),
            jump_targets: self.jump_targets.push(label),
            label_state: self.label_state.insert(label, jumped.main_state),
            ..jumped
        }
    }
}

impl View for CasmBuilder {
    type V = CasmBuilderView;

    closed spec fn view(&self) -> CasmBuilderView {
        CasmBuilderView {
            instructions: instructions_view(self.instructions@),
            awaiting_relocations: positions_view(self.awaiting_relocations@),
            jump_targets: self.jump_targets@,
            label_state: self.label_state@,
            main_state: self.main_state@,
            current_hints: hints_view(self.current_hints@),
        }
    }
}

impl Default for CasmBuilder {
    fn default() -> (r: CasmBuilder)
        ensures
            r@ == CasmBuilderView::empty(),
            r@.wf(),
    {
        let r = CasmBuilder {
            instructions: Vec::new(),
            awaiting_relocations: Vec::new(),
            label_state: LabelStates::new(),
            main_state: State::new(),
            current_hints: Vec::new(),
            jump_targets: Ghost(Seq::empty()),
        };
        assert(instructions_view(r.instructions@) =~= Seq::empty());
        assert(positions_view(r.awaiting_relocations@) =~= Seq::empty());
        assert(hints_view(r.current_hints@) =~= Seq::empty());
        r
    }
}

impl CasmBuilder {
    /// The state after the last instruction.
    pub fn main_state(&self) -> (r: &State)
        ensures
            r@ == self@.main_state,
    {
        &self.main_state
    }

    /// Binds a new variable to `value`.
    pub fn add_var(&mut self, value: ResOperand) -> (var: Var)
        ensures
            final(self)@ == old(self)@.add_var(value@),
            var == old(self)@.main_state.next_var(),
            old(self)@.wf() ==> final(self)@.wf(),
    {
        let var = Var(self.main_state.vars.len());
        self.main_state.vars.push(value);
        // Asking for the length shows that the variables can still be counted.
        let _ = self.main_state.vars.len();
        assert(operands_view(self.main_state.vars@) =~= operands_view(old(self).main_state.vars@).push(
            value@,
        ));
        var
    }

    /// Whether another temporary can be handed out.
    pub fn can_alloc_var(&self) -> (r: bool)
        ensures
            r == (self@.main_state.allocated < i16::MAX),
    {
        self.main_state.allocated < i16::MAX
    }

    /// Hands out the next temporary and binds a new variable to it.
    pub fn alloc_var(&mut self) -> (var: Var)
        requires
            old(self)@.wf(),
            old(self)@.main_state.allocated < i16::MAX,
        ensures
            final(self)@ == old(self)@.alloc_var(),
            var == old(self)@.main_state.next_var(),
            final(self)@.wf(),
    {
        let cell = CellRef { register: Register::AP, offset: self.main_state.allocated };
        let var = self.add_var(ResOperand::Deref(cell));
        self.main_state.allocated = self.main_state.allocated + 1;
        var
    }

    /// Binds a new variable to the operand of `var`.
    pub fn duplicate_var(&mut self, var: Var) -> (copy: Var)
        requires
            old(self)@.main_state.has_var(var),
        ensures
            final(self)@ == old(self)@.add_var(old(self)@.main_state.value(var)),
            copy == old(self)@.main_state.next_var(),
            old(self)@.wf() ==> final(self)@.wf(),
    {
        let value = self.main_state.get_value(var);
        self.add_var(value)
    }

    /// The operand of `var`: as it was bound, or, with `adjust_ap`, written
    /// against the current allocation pointer.
    pub fn get_value(&self, var: Var, adjust_ap: bool) -> (r: ResOperand)
        requires
            self@.main_state.has_var(var),
            adjust_ap ==> self@.main_state.can_adjust(var),
        ensures
            r@ == if adjust_ap {
                self@.main_state.adjusted(var)
            } else {
                self@.main_state.value(var)
            },
    {
        if adjust_ap {
            self.main_state.get_adjusted(var)
        } else {
            self.main_state.get_value(var)
        }
    }

    /// Queues a hint for the next instruction.
    pub fn add_hint(&mut self, hint: Hint)
        ensures
            final(self)@ == old(self)@.add_hint(hint@),
            old(self)@.wf() ==> final(self)@.wf(),
    {
        self.current_hints.push(hint);
        assert(hints_view(self.current_hints@) =~= hints_view(old(self).current_hints@).push(
            hint@,
        ));
    }

    /// Emits an instruction with the queued hints; it advances the
    /// allocation pointer if a temporary is waiting to be claimed.
    fn emit(&mut self, body: InstructionBody)
        requires
            old(self)@.main_state.wf(),
        ensures
            final(self)@ == old(self)@.emit(body@),
            final(self).awaiting_relocations == old(self).awaiting_relocations,
            final(self).instructions@.len() == old(self).instructions@.len() + 1,
    {
        let inc_ap = self.main_state.allocated as usize > self.main_state.ap_change;
        let mut hints: Vec<Hint> = Vec::new();
        std::mem::swap(&mut hints, &mut self.current_hints);
        if inc_ap {
            self.main_state.ap_change = self.main_state.ap_change + 1;
        }
        let instruction = Instruction { body, inc_ap, hints };
        self.instructions.push(instruction);
        assert(instructions_view(self.instructions@) =~= instructions_view(
            old(self).instructions@,
        ).push(instruction@));
        assert(hints_view(self.current_hints@) =~= Seq::empty());
    }

    /// Emits the assertion `dst = res`.
    pub fn assert_vars_eq(&mut self, dst: Var, res: Var)
        requires
            old(self)@.wf(),
            old(self)@.can_assert_vars_eq(dst, res),
        ensures
            final(self)@ == old(self)@.assert_vars_eq(dst, res),
            final(self)@.wf(),
    {
        let a = self.main_state.get_adjusted_as_cell_ref(dst);
        let b = self.main_state.get_adjusted(res);
        proof {
            assert(old(self)@.instructions.push(
                InstructionView {
                    body: InstructionBodyView::AssertEq { a, b: b@ },
                    inc_ap: old(self)@.next_inc_ap(),
                    hints: old(self)@.current_hints,
                },
            ).drop_last() =~= old(self)@.instructions);
        }
        self.emit(InstructionBody::AssertEq { a, b });
    }

    /// Reads where the cursor `buffer` stands and moves it one word on.
    fn buffer_get_and_inc(&mut self, buffer: Var) -> (r: (CellRef, i16))
        requires
            old(self)@.main_state.is_buffer(buffer),
        ensures
            final(self)@ == old(self)@.buffer_inc(buffer),
            r.0 == old(self)@.main_state.buffer_cell(buffer),
            r.1 == old(self)@.main_state.buffer_offset(buffer),
            old(self)@.wf() ==> final(self)@.wf(),
    {
        let (cell, offset) = match &self.main_state.vars[buffer.0] {
            ResOperand::Deref(cell) => (*cell, 0i16),
            ResOperand::BinOp(op) => match &op.b {
                DerefOrImmediate::Immediate(imm) => match bigint_to_i16(imm) {
                    Some(offset) => (op.a, offset),
                    None => unreached(),
                },
                DerefOrImmediate::Deref(_) => unreached(),
            },
            _ => unreached(),
        };
        let moved = ResOperand::BinOp(
            BinOpOperand {
                op: Operation::Add,
                a: cell,
                b: DerefOrImmediate::Immediate(bigint_from_i64(offset as i64 + 1)),
            },
        );
        self.main_state.vars.set(buffer.0, moved);
        assert(operands_view(self.main_state.vars@) =~= operands_view(
            old(self).main_state.vars@,
        ).update(buffer.0 as int, moved@));
        (cell, offset)
    }

    /// Binds a new variable to the word under the cursor `buffer` and moves
    /// the cursor one word on.
    pub fn get_ref_and_inc(&mut self, buffer: Var) -> (var: Var)
        requires
            old(self)@.main_state.is_buffer(buffer),
        ensures
            final(self)@ == old(self)@.get_ref_and_inc(buffer),
            var == old(self)@.main_state.next_var(),
            old(self)@.wf() ==> final(self)@.wf(),
    {
        let (cell, offset) = self.buffer_get_and_inc(buffer);
        self.add_var(ResOperand::DoubleDeref(cell, offset))
    }

    /// Emits the assertion that the word under the cursor `buffer` equals
    /// `value`, and moves the cursor one word on.
    pub fn buffer_write_and_inc(&mut self, buffer: Var, value: Var)
        requires
            old(self)@.wf(),
            old(self)@.can_buffer_write(buffer, value),
        ensures
            final(self)@ == old(self)@.buffer_write_and_inc(buffer, value),
            final(self)@.wf(),
    {
        let location = self.get_ref_and_inc(buffer);
        proof {
            let before = old(self)@.main_state;
            let now = self@.main_state;
            assert(buffer.0 != value.0);
            assert(now.vars.len() == before.vars.len() + 1);
            assert(now.value(value) == before.value(value));
            assert(now.value(location) == old(self)@.buffer_word(buffer));
            assert(now.ap_change == before.ap_change);
        }
        self.assert_vars_eq(value, location);
    }

    /// Emits a jump to `label` taken when `condition` is not zero, and
    /// records under `label` the state in which the target is reached.
    pub fn jump_nz(&mut self, condition: Var, label: String)
        requires
            old(self)@.wf(),
            old(self)@.main_state.is_cell(condition),
        ensures
            final(self)@ == old(self)@.jump_nz(condition, label@),
            final(self)@.wf(),
    {
        let cell = self.main_state.get_adjusted_as_cell_ref(condition);
        let at = self.instructions.len();
        let body = InstructionBody::Jnz {
            jump_offset: DerefOrImmediate::Immediate(bigint_from_i64(0)),
            condition: cell,
        };
        proof {
            assert(old(self)@.instructions.push(
                InstructionView {
                    body: body@,
                    inc_ap: old(self)@.next_inc_ap(),
                    hints: old(self)@.current_hints,
                },
            ).drop_last() =~= old(self)@.instructions);
        }
        self.emit(body);
        self.awaiting_relocations.push(at);
        assert(positions_view(self.awaiting_relocations@) =~= positions_view(
            old(self).awaiting_relocations@,
        ).push(at as int));
        proof {
            self.jump_targets@ = self.jump_targets@.push(label@);
        }
        let snapshot = self.main_state.clone();
        self.label_state.insert(label, snapshot);
    }

    /// Whether the session can be finished: no hint waits for an instruction.
    pub fn can_build(&self) -> (r: bool)
        ensures
            r == (self@.current_hints.len() == 0),
    {
        self.current_hints.len() == 0
    }

    /// Finishes the session and hands over what it built.
    pub fn build(self) -> (r: CasmBuildResult)
        requires
            self@.wf(),
            self@.current_hints.len() == 0,
        ensures
            instructions_view(r.instructions@) == self@.instructions,
            positions_view(r.awaiting_relocations@) == self@.awaiting_relocations,
            r.jump_targets@ == self@.jump_targets,
            r.label_state@ == self@.label_state,
            r.fallthrough_state@ == self@.main_state,
            positions_view(r.awaiting_relocations@) == jump_indices(
                instructions_view(r.instructions@),
            ),
            r.jump_targets@.len() == r.awaiting_relocations@.len(),
            forall|k: int|
                0 <= k < r.jump_targets@.len() ==> r.label_state@.contains_key(
                    #[trigger] r.jump_targets@[k],
                ),
    {
        CasmBuildResult {
            instructions: self.instructions,
            awaiting_relocations: self.awaiting_relocations,
            label_state: self.label_state,
            fallthrough_state: self.main_state,
            jump_targets: self.jump_targets,
        }
    }
}

/// Every jump that a session has emitted awaits its target exactly once:
/// there are as many awaiting positions as targets were named, each
/// position is that of a jump, no position stands twice, and the position
/// of every jump is among them.
pub proof fn lemma_relocations_complete(session: CasmBuilderView)
    requires
        session.wf(),
    ensures
        session.awaiting_relocations.len() == session.jump_targets.len(),
        forall|k: int|
            0 <= k < session.awaiting_relocations.len() ==> {
                let at = #[trigger] session.awaiting_relocations[k];
                0 <= at < session.instructions.len() && session.instructions[at].body is Jnz
            },
        forall|k: int, l: int|
            0 <= k < l < session.awaiting_relocations.len() ==> session.awaiting_relocations[k]
                < session.awaiting_relocations[l],
        forall|at: int|
            0 <= at < session.instructions.len() && (#[trigger] session.instructions[at]).body is Jnz
                ==> session.awaiting_relocations.contains(at),
        forall|k: int|
            0 <= k < session.jump_targets.len() ==> session.label_state.contains_key(
                #[trigger] session.jump_targets[k],
            ),
{
    crate::instructions::lemma_jump_indices(session.instructions);
}

/// The state recorded for a jump target is not touched by what the session
/// does afterwards: no operation but a jump changes a recorded state, and a
/// jump changes only the state recorded under its own target. What follows
/// a jump on the path that falls through therefore never reaches the
/// state in which the target is entered.
pub proof fn lemma_label_states_kept(
    session: CasmBuilderView,
    value: ResOperandView,
    hint: HintView,
    body: InstructionBodyView,
    a: Var,
    b: Var,
    label: Seq<char>,
)
    ensures
        session.add_var(value).label_state == session.label_state,
        session.alloc_var().label_state == session.label_state,
        session.add_hint(hint).label_state == session.label_state,
        session.emit(body).label_state == session.label_state,
        session.assert_vars_eq(a, b).label_state == session.label_state,
        session.get_ref_and_inc(a).label_state == session.label_state,
        session.buffer_write_and_inc(a, b).label_state == session.label_state,
        forall|other: Seq<char>|
            other != label && session.label_state.contains_key(other) ==> session.jump_nz(
                a,
                label,
            ).label_state.contains_key(other) && #[trigger] session.jump_nz(
                a,
                label,
            ).label_state[other] == session.label_state[other],
{
}

/// The state recorded by a jump is the state right after the jump:
/// whatever is emitted later leaves it as it was.
pub proof fn lemma_jump_records_state(session: CasmBuilderView, condition: Var, label: Seq<char>)
    ensures
        session.jump_nz(condition, label).label_state[label] == session.jump_nz(
            condition,
            label,
        ).main_state,
        session.jump_nz(condition, label).instructions.len() == session.instructions.len() + 1,
        session.jump_nz(condition, label).instructions.last().body is Jnz,
{
}

/// Reading or writing through a cursor moves it on by exactly one word
/// and leaves the base of its buffer alone; the word that was read or
/// written is the one that stood under the cursor before.
pub proof fn lemma_cursor_advances_one_word(session: CasmBuilderView, buffer: Var, value: Var)
    requires
        session.main_state.wf(),
        session.main_state.is_buffer(buffer),
    ensures
        ({
            let read = session.get_ref_and_inc(buffer);
            &&& read.main_state.buffer_cell(buffer) == session.main_state.buffer_cell(buffer)
            &&& read.main_state.buffer_offset(buffer) == session.main_state.buffer_offset(buffer)
                + 1
            &&& read.main_state.value(session.main_state.next_var()) == session.buffer_word(
                buffer,
            )
            &&& read.instructions == session.instructions
        }),
        ({
            let written = session.buffer_write_and_inc(buffer, value);
            &&& written.main_state.buffer_cell(buffer) == session.main_state.buffer_cell(buffer)
            &&& written.main_state.buffer_offset(buffer) == session.main_state.buffer_offset(
                buffer,
            ) + 1
            &&& written.instructions.len() == session.instructions.len() + 1
        }),
{
}

} // verus!
