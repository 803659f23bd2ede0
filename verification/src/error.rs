use vstd::prelude::*;

verus! {

/// The failure taxonomy of the interpreter core.
///
/// Format failures (`InvalidMagic`, `TruncatedInput`, `UnsupportedConstantKind`,
/// `InvalidUtf8`) abort the parse of the one class in progress. Resolution
/// failures (`UnresolvedConstantPoolEntry`, `UnknownClass`, `UnknownMethod`,
/// `ClassNotFound`) abort the resolution step. Execution failures
/// (`OperandStackOverflow`, `OperandStackUnderflow`, `InvalidLocalSlot`,
/// `UnsupportedOpcode`, `PcOutOfRange`) are fatal to the current invocation
/// chain. None of these is retried: malformed input does not change on
/// re-attempt.
#[derive(Clone, Copy, Debug, PartialEq, Eq, Structural)]
pub enum VmError {
    /// The leading four bytes are not the class-file magic constant.
    InvalidMagic,
    /// A read needed more bytes than the buffer still holds.
    TruncatedInput,
    /// A constant-pool tag outside the supported set; carries the tag.
    UnsupportedConstantKind(u8),
    /// A two-slot constant (`Long` or `Double`) declared where only the last
    /// table slot remains, so its reserved shadow slot cannot be placed.
    ConstantPoolOverflow,
    /// A text constant whose bytes are not well-formed UTF-8.
    InvalidUtf8,
    /// A constant-pool index that is absent or names the wrong kind of entry;
    /// carries the index.
    UnresolvedConstantPoolEntry(u16),
    /// An invocation target class that is not registered with the loader.
    UnknownClass,
    /// An invocation target method absent from its class, or a method whose
    /// body is absent where one is required.
    UnknownMethod,
    /// A class name for which the class path holds no bytes.
    ClassNotFound,
    /// A push beyond the frame's declared operand-stack bound.
    OperandStackOverflow,
    /// A pop from an empty operand stack.
    OperandStackUnderflow,
    /// A local-variable access at or beyond the frame's declared local count.
    InvalidLocalSlot,
    /// Execution of an instruction outside the recognized set; carries the
    /// opcode byte.
    UnsupportedOpcode(u8),
    /// A program counter that is not the start offset of an instruction, or
    /// that ran past the end of the code without a return.
    PcOutOfRange,
}

} // verus!
