//! The bytecode decoder: it turns a method body into an ordered sequence of
//! decoded instructions, indexed by starting byte offset. Each slot of the
//! result corresponds to one byte of code; the slot at an instruction's start
//! offset holds the instruction, and the slots under its operand bytes hold
//! nothing, since operand bytes are never independently decoded.

use vstd::prelude::*;

use crate::error::VmError;
use crate::instruction::{
    get_instruction, instruction_len, spec_fetch_operands, spec_get_instruction, spec_instr_len,
    Instruction,
};
use crate::stream::ClassFileStream;

verus! {

/// One offset slot of a decoded method body: the instruction that starts
/// there, or nothing under an operand byte of the preceding instruction.
#[derive(Debug, Clone, Copy, PartialEq, Eq)]
pub struct Decode {
    pub ins: Option<Instruction>,
}

/// The instruction starting at offset `i`, with its operands fetched.
/// Meaningful only when the instruction lies whole within the code.
pub open spec fn spec_decode_one(b: Seq<u8>, i: int) -> Instruction {
    match spec_fetch_operands(spec_get_instruction(b[i]), b, i + 1) {
        Ok((ins, _end)) => ins,
        Err(_) => spec_get_instruction(b[i]),
    }
}

/// The offset-indexed decoding of `b` from offset `i` to the end: repeatedly
/// read one opcode, fetch exactly its operand bytes, and record the
/// instruction at its starting offset. Fails with `TruncatedInput` when the
/// last instruction's operands would run past the end; decoding never over-
/// or under-consumes relative to the code length.
pub open spec fn spec_decode_from(b: Seq<u8>, i: int) -> Result<Seq<Option<Instruction>>, VmError>
    decreases b.len() - i,
{
    if i >= b.len() {
        Ok(Seq::empty())
    } else {
        let l = spec_instr_len(b[i]);
        if b.len() < i + l {
            Err(VmError::TruncatedInput)
        } else {
            match spec_decode_from(b, i + l) {
                Err(e) => Err(e),
                Ok(rest) => Ok(
                    seq![Some(spec_decode_one(b, i))] + Seq::new(
                        (l - 1) as nat,
                        |k: int| None::<Instruction>,
                    ) + rest,
                ),
            }
        }
    }
}

/// The offset-indexed decoding of a whole method body.
pub open spec fn spec_decode(code: Seq<u8>) -> Result<Seq<Option<Instruction>>, VmError> {
    spec_decode_from(code, 0)
}

/// A successful decoding has exactly one slot per code byte.
pub proof fn lemma_decode_len(b: Seq<u8>, i: int)
    requires
        0 <= i <= b.len(),
    ensures
        spec_decode_from(b, i) matches Ok(s) ==> s.len() == b.len() - i,
    decreases b.len() - i,
{
    if i < b.len() {
        let l = spec_instr_len(b[i]);
        if b.len() >= i + l {
            lemma_decode_len(b, i + l);
        }
    }
}

/// Decoding is deterministic: identical byte sequences decode to structurally
/// equal instruction sequences, with the same offsets, variants and operand
/// values. Together with `decoder`'s contract, which pins its result to this
/// very function of the bytes, two runs of `decoder` on equal inputs return
/// structurally equal results.
pub proof fn lemma_decode_deterministic(c1: Seq<u8>, c2: Seq<u8>)
    requires
        c1 == c2,
    ensures
        spec_decode(c1) == spec_decode(c2),
{
}

/// Reads one instruction at the cursor: one opcode byte, then exactly the
/// operand bytes that opcode defines.
pub fn decode_instruction(reader: &mut ClassFileStream) -> (r: Result<Instruction, VmError>)
    requires
        old(reader).wf(),
    ensures
        final(reader).wf(),
        final(reader).buffer@ == old(reader).buffer@,
        old(reader).current < old(reader).buffer@.len() && old(reader).current + spec_instr_len(
            old(reader).buffer@[old(reader).current as int],
        ) <= old(reader).buffer@.len() ==> {
            &&& r matches Ok(v) && v == spec_decode_one(
                old(reader).buffer@,
                old(reader).current as int,
            )
            &&& final(reader).current == old(reader).current + spec_instr_len(
                old(reader).buffer@[old(reader).current as int],
            )
        },
        !(old(reader).current < old(reader).buffer@.len() && old(reader).current + spec_instr_len(
            old(reader).buffer@[old(reader).current as int],
        ) <= old(reader).buffer@.len()) ==> (r matches Err(e) && e == VmError::TruncatedInput),
{
    let op = reader.read_u1()?;
    let ins = get_instruction(op);
    ins.fetch_operands(reader)
}

/// Decodes a whole method body into its offset-indexed instruction sequence:
/// one slot per code byte, the instruction at each start offset and nothing
/// under operand bytes. The result is a function of the bytes alone (see
/// `spec_decode`), so decoding identical code twice yields structurally equal
/// sequences.
pub fn decoder(code: Vec<u8>) -> (r: Result<Vec<Decode>, VmError>)
    ensures
        match spec_decode(code@) {
            Ok(s) => r matches Ok(v) && v@.map_values(|d: Decode| d.ins) == s && v@.len()
                == code@.len(),
            Err(er) => r matches Err(e2) && e2 == er,
        },
{
    let mut reader = ClassFileStream::new(code);
    let r = decode_rest(&mut reader);
    proof {
        if spec_decode(reader.buffer@) is Ok {
            lemma_decode_len(reader.buffer@, 0);
        }
    }
    r
}

/// Decodes from the cursor's position to the end of its buffer.
fn decode_rest(reader: &mut ClassFileStream) -> (r: Result<Vec<Decode>, VmError>)
    requires
        old(reader).wf(),
    ensures
        final(reader).wf(),
        final(reader).buffer@ == old(reader).buffer@,
        match spec_decode_from(old(reader).buffer@, old(reader).current as int) {
            Ok(s) => r matches Ok(v) && v@.map_values(|d: Decode| d.ins) == s,
            Err(er) => r matches Err(e2) && e2 == er,
        },
    decreases old(reader).buffer@.len() - old(reader).current,
{
    if reader.at_end() {
        let v: Vec<Decode> = Vec::new();
        assert(v@.map_values(|d: Decode| d.ins) =~= Seq::<Option<Instruction>>::empty());
        return Ok(v);
    }
    let ghost b = reader.buffer@;
    let ghost i = reader.current as int;
    let ins = decode_instruction(reader)?;
    let ghost l = spec_instr_len(b[i]);
    let rest = decode_rest(reader)?;
    let ghost rest_map = rest@.map_values(|d: Decode| d.ins);
    let mut v = rest;
    proof {
        assert(1 <= l <= 3);
    }
    if instruction_length_of(&ins) >= 3 {
        v.insert(0, Decode { ins: None });
    }
    if instruction_length_of(&ins) >= 2 {
        v.insert(0, Decode { ins: None });
    }
    v.insert(0, Decode { ins: Some(ins) });
    proof {
        assert(v@.map_values(|d: Decode| d.ins) =~= seq![Some(spec_decode_one(b, i))] + Seq::new(
            (l - 1) as nat,
            |k: int| None::<Instruction>,
        ) + rest_map);
    }
    Ok(v)
}

/// The whole encoded length of a decoded instruction: one opcode byte plus
/// its operand bytes.
pub fn instruction_length_of(ins: &Instruction) -> (r: usize)
    ensures
        r == spec_instr_len_of(*ins),
{
    match ins {
        Instruction::OpLDC(_) => 2,
        Instruction::OpInvokeSpecial(_) => 3,
        Instruction::OpInvokeVirtual(_) => 3,
        Instruction::OpGetStatic(_) => 3,
        _ => 1,
    }
}

/// The encoded length of an already decoded instruction.
pub open spec fn spec_instr_len_of(ins: Instruction) -> int {
    match ins {
        Instruction::OpLDC(_) => 2,
        Instruction::OpInvokeSpecial(_) => 3,
        Instruction::OpInvokeVirtual(_) => 3,
        Instruction::OpGetStatic(_) => 3,
        _ => 1,
    }
}

} // verus!
