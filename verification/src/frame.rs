//! The per-invocation execution context: a bounded operand stack, a
//! fixed-size local-slot array, a program counter, and the method's code with
//! its offset-indexed decoding. The operand stack never grows past the
//! declared `max_stack`: a push that would exceed it fails with
//! `OperandStackOverflow` and changes nothing, never truncating or wrapping.

use vstd::prelude::*;

use crate::attribute_info::CodeAttribute;
use crate::constant_pool::{CpEntry, CpEntryView};
use crate::decoder::{decoder, spec_decode, spec_instr_len_of, Decode};
use crate::error::VmError;
use crate::instruction::Instruction;
use crate::slot::{EmptySlot, IntSlot, null_slot, Slot, SlotTag};

verus! {

/// What executing one instruction asks of the surrounding machinery: fall
/// through to the next instruction, return from the method, or invoke the
/// method named by a two-byte methodref index (`true` for the virtual form).
#[derive(Debug, Clone, Copy, PartialEq, Eq, Structural)]
pub enum ExecEffect {
    Continue,
    Return,
    Invoke(u16, bool),
}

/// One method invocation's execution context.
#[derive(Debug, Clone, PartialEq)]
#[verifier::ext_equal]
pub struct Frame {
    /// The loader-registry index of the class whose constant pool governs
    /// this frame's code: the frame's back-reference into shared state.
    pub klass_index: usize,
    /// Whether this frame's method descriptor declares a non-void return.
    pub returns_value: bool,
    pub max_stack: u16,
    pub max_locals: u16,
    /// The raw bytecode of the method body.
    pub code: Vec<u8>,
    /// The offset-indexed decoding of `code`, computed once at creation.
    pub decoded: Vec<Decode>,
    /// The offset of the next instruction to execute.
    pub pc: usize,
    pub operand_stack: Vec<Slot>,
    pub locals: Vec<Slot>,
}

impl Frame {
    /// The frame's structural invariant: the operand stack respects its
    /// bound, the locals array has its declared size, and `decoded` is the
    /// decoding of `code`.
    pub open spec fn wf(&self) -> bool {
        &&& self.operand_stack@.len() <= self.max_stack
        &&& self.locals@.len() == self.max_locals
        &&& spec_decode(self.code@) matches Ok(s) && self.decoded@.map_values(
            |d: Decode| d.ins,
        ) == s && self.decoded@.len() == self.code@.len()
    }

    /// Everything but the operand stack is the same in `post` as in `pre`.
    pub open spec fn same_but_stack(pre: Frame, post: Frame) -> bool {
        &&& post.klass_index == pre.klass_index
        &&& post.returns_value == pre.returns_value
        &&& post.max_stack == pre.max_stack
        &&& post.max_locals == pre.max_locals
        &&& post.code@ == pre.code@
        &&& post.decoded@ == pre.decoded@
        &&& post.pc == pre.pc
        &&& post.locals@ == pre.locals@
    }

    /// Builds the frame for one invocation of a method body: operand stack
    /// empty, every local uninitialized, program counter at the first
    /// offset, the code decoded once. Fails only when the bytecode's last
    /// instruction runs past the declared code length.
    pub fn new(klass_index: usize, code_attr: &CodeAttribute, returns_value: bool) -> (r: Result<
        Frame,
        VmError,
    >)
        ensures
            match spec_decode(code_attr.code@) {
                Ok(_) => r matches Ok(f) && {
                    &&& f.wf()
                    &&& f.klass_index == klass_index
                    &&& f.returns_value == returns_value
                    &&& f.max_stack == code_attr.max_stack
                    &&& f.max_locals == code_attr.max_locals
                    &&& f.code@ == code_attr.code@
                    &&& f.pc == 0
                    &&& f.operand_stack@.len() == 0
                    &&& forall|i: int|
                        0 <= i < f.locals@.len() ==> (#[trigger] f.locals@[i]).tag
                            is Uninitialized
                },
                Err(er) => r matches Err(e2) && e2 == er,
            },
    {
        let code = crate::attribute_info::copy_bytes(&code_attr.code);
        let decoded = decoder(code)?;
        let code = crate::attribute_info::copy_bytes(&code_attr.code);
        let mut locals: Vec<Slot> = Vec::new();
        let n = code_attr.max_locals as usize;
        let mut i: usize = 0;
        while i < n
            invariant
                i <= n,
                locals@.len() == i,
                forall|k: int| 0 <= k < i ==> (#[trigger] locals@[k]).tag is Uninitialized,
            decreases n - i,
        {
            locals.push(EmptySlot::new());
            i = i + 1;
        }
        Ok(
            Frame {
                klass_index,
                returns_value,
                max_stack: code_attr.max_stack,
                max_locals: code_attr.max_locals,
                code,
                decoded,
                pc: 0,
                operand_stack: Vec::new(),
                locals,
            },
        )
    }

    /// Pushes one slot. A push onto a full stack fails with
    /// `OperandStackOverflow` and leaves the frame unchanged: the stack never
    /// exceeds `max_stack`.
    pub fn push(&mut self, slot: Slot) -> (r: Result<(), VmError>)
        requires
            old(self).operand_stack@.len() <= old(self).max_stack,
        ensures
            Frame::same_but_stack(*old(self), *final(self)),
            final(self).operand_stack@.len() <= final(self).max_stack,
            old(self).operand_stack@.len() == old(self).max_stack ==> {
                &&& r matches Err(e) && e == VmError::OperandStackOverflow
                &&& final(self).operand_stack@ == old(self).operand_stack@
            },
            old(self).operand_stack@.len() < old(self).max_stack ==> {
                &&& r is Ok
                &&& final(self).operand_stack@ == old(self).operand_stack@.push(slot)
            },
    {
        if self.operand_stack.len() < self.max_stack as usize {
            self.operand_stack.push(slot);
            Ok(())
        } else {
            Err(VmError::OperandStackOverflow)
        }
    }

    /// Pops one slot. A pop from an empty stack fails with
    /// `OperandStackUnderflow` and leaves the frame unchanged.
    pub fn pop(&mut self) -> (r: Result<Slot, VmError>)
        ensures
            Frame::same_but_stack(*old(self), *final(self)),
            old(self).operand_stack@.len() == 0 ==> {
                &&& r matches Err(e) && e == VmError::OperandStackUnderflow
                &&& final(self).operand_stack@ == old(self).operand_stack@
            },
            old(self).operand_stack@.len() > 0 ==> {
                &&& r matches Ok(s) && s == old(self).operand_stack@.last()
                &&& final(self).operand_stack@ == old(self).operand_stack@.drop_last()
            },
    {
        match self.operand_stack.pop() {
            Some(s) => Ok(s),
            None => Err(VmError::OperandStackUnderflow),
        }
    }
}

/// A push onto a stack bounded by `max_stack`.
pub open spec fn spec_push(stack: Seq<Slot>, max_stack: int, s: Slot) -> Result<
    Seq<Slot>,
    VmError,
> {
    if stack.len() >= max_stack {
        Err(VmError::OperandStackOverflow)
    } else {
        Ok(stack.push(s))
    }
}

/// The slot a loadable constant-pool entry turns into: an integer constant
/// becomes an `Int` slot carrying its signed 32-bit value; a string or class
/// constant becomes an opaque object handle carrying the pool index. Any
/// other kind fails with `UnresolvedConstantPoolEntry`.
pub open spec fn spec_ldc_slot(cp: Seq<CpEntryView>, idx: u8) -> Result<Slot, VmError> {
    if 0 <= idx < cp.len() {
        match cp[idx as int] {
            CpEntryView::Integer(bits) => Ok(
                Slot {
                    tag: SlotTag::Int,
                    num: (if bits >= 0x8000_0000 {
                        bits - 0x1_0000_0000
                    } else {
                        bits as int
                    }) as i64,
                },
            ),
            CpEntryView::Str(_) => Ok(Slot { tag: SlotTag::ObjectRef, num: idx as i64 }),
            CpEntryView::Class(_) => Ok(Slot { tag: SlotTag::ObjectRef, num: idx as i64 }),
            _ => Err(VmError::UnresolvedConstantPoolEntry(idx as u16)),
        }
    } else {
        Err(VmError::UnresolvedConstantPoolEntry(idx as u16))
    }
}

/// The frame-local effect of one instruction on the operand stack: what it
/// pushes or checks, and what it asks of the surrounding machinery.
/// Executing the unrecognized marker is the fatal `UnsupportedOpcode`
/// condition.
pub open spec fn spec_execute_local(
    ins: Instruction,
    stack: Seq<Slot>,
    locals: Seq<Slot>,
    max_stack: int,
    cp: Seq<CpEntryView>,
) -> Result<(Seq<Slot>, ExecEffect), VmError> {
    match ins {
        Instruction::OpNop => Ok((stack, ExecEffect::Continue)),
        Instruction::OpAConstNull => match spec_push(
            stack,
            max_stack,
            Slot { tag: SlotTag::ObjectRef, num: 0 },
        ) {
            Err(e) => Err(e),
            Ok(st) => Ok((st, ExecEffect::Continue)),
        },
        Instruction::OpIConstM1 => match spec_push(
            stack,
            max_stack,
            Slot { tag: SlotTag::Int, num: -1i64 },
        ) {
            Err(e) => Err(e),
            Ok(st) => Ok((st, ExecEffect::Continue)),
        },
        Instruction::OpIConst0 => match spec_push(
            stack,
            max_stack,
            Slot { tag: SlotTag::Int, num: 0i64 },
        ) {
            Err(e) => Err(e),
            Ok(st) => Ok((st, ExecEffect::Continue)),
        },
        Instruction::OpIConst1 => match spec_push(
            stack,
            max_stack,
            Slot { tag: SlotTag::Int, num: 1i64 },
        ) {
            Err(e) => Err(e),
            Ok(st) => Ok((st, ExecEffect::Continue)),
        },
        Instruction::OpLDC(idx) => match spec_ldc_slot(cp, idx) {
            Err(e) => Err(e),
            Ok(s) => match spec_push(stack, max_stack, s) {
                Err(e) => Err(e),
                Ok(st) => Ok((st, ExecEffect::Continue)),
            },
        },
        Instruction::OpALoad0 => if locals.len() == 0 {
            Err(VmError::InvalidLocalSlot)
        } else {
            match spec_push(stack, max_stack, locals[0]) {
                Err(e) => Err(e),
                Ok(st) => Ok((st, ExecEffect::Continue)),
            }
        },
        Instruction::OpGetStatic(idx) => if 0 <= idx < cp.len() && cp[idx as int] is Fieldref {
            match spec_push(stack, max_stack, Slot { tag: SlotTag::ObjectRef, num: idx as i64 }) {
                Err(e) => Err(e),
                Ok(st) => Ok((st, ExecEffect::Continue)),
            }
        } else {
            Err(VmError::UnresolvedConstantPoolEntry(idx))
        },
        Instruction::OpReturn => Ok((stack, ExecEffect::Return)),
        Instruction::OpInvokeSpecial(i) => Ok((stack, ExecEffect::Invoke(i, false))),
        Instruction::OpInvokeVirtual(i) => Ok((stack, ExecEffect::Invoke(i, true))),
        Instruction::OpUnrecognized(op) => Err(VmError::UnsupportedOpcode(op)),
    }
}

/// Performs one instruction's frame-local effect against the frame's operand
/// stack. On failure the stack is unchanged; in every outcome the stack
/// respects its bound and everything else in the frame is untouched.
pub fn execute_instruction(ins: &Instruction, frame: &mut Frame, cp: &Vec<CpEntry>) -> (r: Result<
    ExecEffect,
    VmError,
>)
    requires
        old(frame).wf(),
    ensures
        final(frame).wf(),
        Frame::same_but_stack(*old(frame), *final(frame)),
        match spec_execute_local(
            *ins,
            old(frame).operand_stack@,
            old(frame).locals@,
            old(frame).max_stack as int,
            cp.deep_view(),
        ) {
            Ok((st, eff)) => r matches Ok(e) && e == eff && final(frame).operand_stack@ == st,
            Err(er) => r matches Err(e2) && e2 == er && final(frame).operand_stack@ == old(
                frame,
            ).operand_stack@,
        },
{
    match ins {
        Instruction::OpNop => Ok(ExecEffect::Continue),
        Instruction::OpAConstNull => {
            frame.push(null_slot())?;
            Ok(ExecEffect::Continue)
        },
        Instruction::OpIConstM1 => {
            frame.push(IntSlot::new(-1))?;
            Ok(ExecEffect::Continue)
        },
        Instruction::OpIConst0 => {
            frame.push(IntSlot::new(0))?;
            Ok(ExecEffect::Continue)
        },
        Instruction::OpIConst1 => {
            frame.push(IntSlot::new(1))?;
            Ok(ExecEffect::Continue)
        },
        Instruction::OpLDC(idx) => {
            proof {
                if (*idx as int) < cp.deep_view().len() {
                    assert(cp.deep_view()[*idx as int] == cp@[*idx as int]@);
                }
            }
            if (*idx as usize) < cp.len() {
                match &cp[*idx as usize] {
                    CpEntry::Integer(bits) => {
                        let num: i64 = if *bits >= 0x8000_0000 {
                            (*bits as i64) - 0x1_0000_0000i64
                        } else {
                            *bits as i64
                        };
                        frame.push(Slot { tag: SlotTag::Int, num })?;
                        Ok(ExecEffect::Continue)
                    },
                    CpEntry::Str(_) => {
                        frame.push(Slot { tag: SlotTag::ObjectRef, num: *idx as i64 })?;
                        Ok(ExecEffect::Continue)
                    },
                    CpEntry::Class(_) => {
                        frame.push(Slot { tag: SlotTag::ObjectRef, num: *idx as i64 })?;
                        Ok(ExecEffect::Continue)
                    },
                    _ => Err(VmError::UnresolvedConstantPoolEntry(*idx as u16)),
                }
            } else {
                Err(VmError::UnresolvedConstantPoolEntry(*idx as u16))
            }
        },
        Instruction::OpALoad0 => {
            if frame.locals.len() == 0 {
                Err(VmError::InvalidLocalSlot)
            } else {
                let s = frame.locals[0];
                frame.push(s)?;
                Ok(ExecEffect::Continue)
            }
        },
        Instruction::OpGetStatic(idx) => {
            proof {
                if (*idx as int) < cp.deep_view().len() {
                    assert(cp.deep_view()[*idx as int] == cp@[*idx as int]@);
                }
            }
            if (*idx as usize) < cp.len() && matches!(&cp[*idx as usize], CpEntry::Fieldref(_, _)) {
                frame.push(Slot { tag: SlotTag::ObjectRef, num: *idx as i64 })?;
                Ok(ExecEffect::Continue)
            } else {
                Err(VmError::UnresolvedConstantPoolEntry(*idx))
            }
        },
        Instruction::OpReturn => Ok(ExecEffect::Return),
        Instruction::OpInvokeSpecial(i) => Ok(ExecEffect::Invoke(*i, false)),
        Instruction::OpInvokeVirtual(i) => Ok(ExecEffect::Invoke(*i, true)),
        Instruction::OpUnrecognized(op) => Err(VmError::UnsupportedOpcode(*op)),
    }
}

/// Straight-line execution of a decoded body from offset `pc`: the operand
/// stack after running each instruction's frame-local effect in ascending
/// offset order, stopping at a return, at an invocation, or at the end of the
/// code. A program counter landing under an operand byte fails with
/// `PcOutOfRange`.
pub open spec fn spec_run_from(
    d: Seq<Option<Instruction>>,
    pc: int,
    stack: Seq<Slot>,
    locals: Seq<Slot>,
    max_stack: int,
    cp: Seq<CpEntryView>,
) -> Result<Seq<Slot>, VmError>
    decreases d.len() - pc,
{
    if pc < 0 || pc >= d.len() {
        Ok(stack)
    } else {
        match d[pc] {
            None => Err(VmError::PcOutOfRange),
            Some(ins) => match spec_execute_local(ins, stack, locals, max_stack, cp) {
                Err(e) => Err(e),
                Ok((st, eff)) => if !(eff is Continue) {
                    Ok(st)
                } else if pc + spec_instr_len_of(ins) >= d.len() {
                    Ok(st)
                } else {
                    spec_run_from(d, pc + spec_instr_len_of(ins), st, locals, max_stack, cp)
                },
            },
        }
    }
}

} // verus!
