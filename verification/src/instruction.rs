//! The closed instruction set: each opcode byte maps to a typed variant that
//! owns its decoded operand values. The table is total: an opcode outside the
//! recognized set maps to a distinct unrecognized marker, never to a silent
//! no-op, and executing that marker is a fatal `UnsupportedOpcode` condition.

use vstd::prelude::*;

use crate::error::VmError;
use crate::stream::{spec_be16, ClassFileStream};

verus! {

pub const OP_NOP: u8 = 0x00;
pub const OP_ACONST_NULL: u8 = 0x01;
pub const OP_ICONST_M1: u8 = 0x02;
pub const OP_ICONST_0: u8 = 0x03;
pub const OP_ICONST_1: u8 = 0x04;
pub const OP_LDC: u8 = 0x12;
pub const OP_ALOAD_0: u8 = 0x2a;
pub const OP_RETURN: u8 = 0xb1;
pub const OP_GET_STATIC: u8 = 0xb2;
pub const OP_INVOKE_VIRTUAL: u8 = 0xb6;
pub const OP_INVOKE_SPECIAL: u8 = 0xb7;

/// One decoded instruction, owning its operand values: a one-byte
/// constant-pool index for the compact load-constant form, a two-byte
/// constant-pool index for the reference forms.
#[derive(Debug, Clone, Copy, PartialEq, Eq, Structural)]
pub enum Instruction {
    OpNop,
    /// Pushes the null reference.
    OpAConstNull,
    OpIConstM1,
    OpIConst0,
    OpIConst1,
    /// Loads a constant from the pool; carries a one-byte pool index.
    OpLDC(u8),
    /// Loads the local reference at slot 0.
    OpALoad0,
    /// Carries a two-byte methodref index.
    OpInvokeSpecial(u16),
    /// Carries a two-byte methodref index.
    OpInvokeVirtual(u16),
    /// Carries a two-byte fieldref index.
    OpGetStatic(u16),
    OpReturn,
    /// An opcode outside the recognized set, distinguishable from a true
    /// no-op; carries the opcode byte.
    OpUnrecognized(u8),
}

/// The total opcode table, before operands are fetched: operand-carrying
/// variants start with operand value zero.
pub open spec fn spec_get_instruction(op: u8) -> Instruction {
    if op == OP_NOP {
        Instruction::OpNop
    } else if op == OP_ACONST_NULL {
        Instruction::OpAConstNull
    } else if op == OP_ICONST_M1 {
        Instruction::OpIConstM1
    } else if op == OP_ICONST_0 {
        Instruction::OpIConst0
    } else if op == OP_ICONST_1 {
        Instruction::OpIConst1
    } else if op == OP_LDC {
        Instruction::OpLDC(0)
    } else if op == OP_ALOAD_0 {
        Instruction::OpALoad0
    } else if op == OP_INVOKE_SPECIAL {
        Instruction::OpInvokeSpecial(0)
    } else if op == OP_INVOKE_VIRTUAL {
        Instruction::OpInvokeVirtual(0)
    } else if op == OP_GET_STATIC {
        Instruction::OpGetStatic(0)
    } else if op == OP_RETURN {
        Instruction::OpReturn
    } else {
        Instruction::OpUnrecognized(op)
    }
}

/// The whole length of the instruction starting with opcode `op`: the opcode
/// byte plus the operand bytes that opcode defines.
pub open spec fn spec_instr_len(op: u8) -> int {
    if op == OP_LDC {
        2
    } else if op == OP_INVOKE_SPECIAL || op == OP_INVOKE_VIRTUAL || op == OP_GET_STATIC {
        3
    } else {
        1
    }
}

/// Maps one opcode byte to its instruction variant, operands not yet
/// fetched. The table is exhaustive: every byte outside the recognized set
/// yields the distinct unrecognized marker.
pub fn get_instruction(ins: u8) -> (r: Instruction)
    ensures
        r == spec_get_instruction(ins),
{
    match ins {
        OP_NOP => Instruction::OpNop,
        OP_ACONST_NULL => Instruction::OpAConstNull,
        OP_ICONST_M1 => Instruction::OpIConstM1,
        OP_ICONST_0 => Instruction::OpIConst0,
        OP_ICONST_1 => Instruction::OpIConst1,
        OP_LDC => Instruction::OpLDC(0),
        OP_ALOAD_0 => Instruction::OpALoad0,
        OP_INVOKE_SPECIAL => Instruction::OpInvokeSpecial(0),
        OP_INVOKE_VIRTUAL => Instruction::OpInvokeVirtual(0),
        OP_GET_STATIC => Instruction::OpGetStatic(0),
        OP_RETURN => Instruction::OpReturn,
        _ => Instruction::OpUnrecognized(ins),
    }
}

/// The whole encoded length of the instruction whose opcode is `op`.
pub fn instruction_len(op: u8) -> (r: usize)
    ensures
        r == spec_instr_len(op),
{
    match op {
        OP_LDC => 2,
        OP_INVOKE_SPECIAL => 3,
        OP_INVOKE_VIRTUAL => 3,
        OP_GET_STATIC => 3,
        _ => 1,
    }
}

/// What fetching operands at offset `i` turns `ins` into, and the offset just
/// past them. Only the operand-carrying variants consume bytes.
pub open spec fn spec_fetch_operands(ins: Instruction, b: Seq<u8>, i: int) -> Result<
    (Instruction, int),
    VmError,
> {
    match ins {
        Instruction::OpLDC(_) => if b.len() < i + 1 {
            Err(VmError::TruncatedInput)
        } else {
            Ok((Instruction::OpLDC(b[i]), i + 1))
        },
        Instruction::OpInvokeSpecial(_) => if b.len() < i + 2 {
            Err(VmError::TruncatedInput)
        } else {
            Ok((Instruction::OpInvokeSpecial(spec_be16(b, i) as u16), i + 2))
        },
        Instruction::OpInvokeVirtual(_) => if b.len() < i + 2 {
            Err(VmError::TruncatedInput)
        } else {
            Ok((Instruction::OpInvokeVirtual(spec_be16(b, i) as u16), i + 2))
        },
        Instruction::OpGetStatic(_) => if b.len() < i + 2 {
            Err(VmError::TruncatedInput)
        } else {
            Ok((Instruction::OpGetStatic(spec_be16(b, i) as u16), i + 2))
        },
        _ => Ok((ins, i)),
    }
}

impl Instruction {
    /// Consumes exactly the operand bytes this opcode defines, advancing the
    /// shared cursor, and returns the variant with its operands filled.
    pub fn fetch_operands(self, stream: &mut ClassFileStream) -> (r: Result<Instruction, VmError>)
        requires
            old(stream).wf(),
        ensures
            final(stream).wf(),
            final(stream).buffer@ == old(stream).buffer@,
            match spec_fetch_operands(self, old(stream).buffer@, old(stream).current as int) {
                Ok((ins, end)) => r matches Ok(v) && v == ins && final(stream).current == end,
                Err(er) => r matches Err(e2) && e2 == er,
            },
    {
        match self {
            Instruction::OpLDC(_) => {
                let v = stream.read_u1()?;
                Ok(Instruction::OpLDC(v))
            },
            Instruction::OpInvokeSpecial(_) => {
                let v = stream.read_u2()?;
                Ok(Instruction::OpInvokeSpecial(v))
            },
            Instruction::OpInvokeVirtual(_) => {
                let v = stream.read_u2()?;
                Ok(Instruction::OpInvokeVirtual(v))
            },
            Instruction::OpGetStatic(_) => {
                let v = stream.read_u2()?;
                Ok(Instruction::OpGetStatic(v))
            },
            _ => Ok(self),
        }
    }
}

/// A marker for the instruction forms that carry no operands.
pub struct NoOperandsInstruction {}

impl NoOperandsInstruction {
    pub fn new() -> NoOperandsInstruction {
        NoOperandsInstruction {  }
    }
}

/// The invoke-virtual form held as a struct: its two-byte methodref index.
pub struct InvokeVirtual {
    pub index: u16,
}

impl InvokeVirtual {
    pub fn new() -> (r: InvokeVirtual)
        ensures
            r.index == 0,
    {
        InvokeVirtual { index: 0 }
    }

    /// Reads the two-byte methodref index from the cursor.
    pub fn fetch_operands(&mut self, reader: &mut ClassFileStream) -> (r: Result<(), VmError>)
        requires
            old(reader).wf(),
        ensures
            final(reader).wf(),
            final(reader).buffer@ == old(reader).buffer@,
            old(reader).current + 2 <= old(reader).buffer@.len() ==> {
                &&& r is Ok
                &&& final(self).index == spec_be16(old(reader).buffer@, old(reader).current as int)
                &&& final(reader).current == old(reader).current + 2
            },
            old(reader).current + 2 > old(reader).buffer@.len() ==> {
                &&& r matches Err(e) && e == VmError::TruncatedInput
                &&& final(self).index == old(self).index
            },
    {
        let v = reader.read_u2()?;
        self.index = v;
        Ok(())
    }
}

} // verus!
