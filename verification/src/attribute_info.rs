//! Attribute parsing. Each attribute is a name index, a four-byte declared
//! length, and a payload. The `Code` attribute is parsed structurally
//! (bounds, bytecode, exception table, nested attributes); `SourceFile` is
//! resolved to its constant-pool index; every other name is retained as an
//! opaque named blob by skipping exactly the declared length, never failing
//! the class over an attribute this core does not interpret.

use vstd::prelude::*;

use crate::constant_pool::{CpEntry, CpEntryView};
use crate::error::VmError;
use crate::stream::{spec_be16, spec_be32, ClassFileStream};

verus! {

/// An attribute retained as an opaque blob: its resolved name and its raw
/// payload bytes, never dropped.
#[derive(Debug, Clone, PartialEq, Eq)]
pub struct RawAttribute {
    pub name: Vec<u8>,
    pub info: Vec<u8>,
}

pub struct RawAttributeView {
    pub name: Seq<u8>,
    pub info: Seq<u8>,
}

impl View for RawAttribute {
    type V = RawAttributeView;

    open spec fn view(&self) -> RawAttributeView {
        RawAttributeView { name: self.name@, info: self.info@ }
    }
}

impl DeepView for RawAttribute {
    type V = RawAttributeView;

    open spec fn deep_view(&self) -> RawAttributeView {
        self.view()
    }
}

/// One exception-table record of a `Code` attribute: parsed, not yet consumed
/// by execution.
#[derive(Debug, Clone, Copy, PartialEq, Eq, Structural)]
pub struct ExceptionEntry {
    pub start_pc: u16,
    pub end_pc: u16,
    pub handler_pc: u16,
    pub catch_type: u16,
}

impl View for ExceptionEntry {
    type V = ExceptionEntry;

    open spec fn view(&self) -> ExceptionEntry {
        *self
    }
}

impl DeepView for ExceptionEntry {
    type V = ExceptionEntry;

    open spec fn deep_view(&self) -> ExceptionEntry {
        *self
    }
}

/// A method body: the operand-stack bound, the local-slot count, the raw
/// bytecode, the exception table, and nested attributes retained as blobs.
#[derive(Debug, Clone, PartialEq, Eq)]
pub struct CodeAttribute {
    pub max_stack: u16,
    pub max_locals: u16,
    pub code: Vec<u8>,
    pub exception_table: Vec<ExceptionEntry>,
    pub attributes: Vec<RawAttribute>,
}

pub struct CodeAttributeView {
    pub max_stack: u16,
    pub max_locals: u16,
    pub code: Seq<u8>,
    pub exception_table: Seq<ExceptionEntry>,
    pub attributes: Seq<RawAttributeView>,
}

impl View for CodeAttribute {
    type V = CodeAttributeView;

    open spec fn view(&self) -> CodeAttributeView {
        CodeAttributeView {
            max_stack: self.max_stack,
            max_locals: self.max_locals,
            code: self.code@,
            exception_table: self.exception_table.deep_view(),
            attributes: self.attributes.deep_view(),
        }
    }
}

impl DeepView for CodeAttribute {
    type V = CodeAttributeView;

    open spec fn deep_view(&self) -> CodeAttributeView {
        self.view()
    }
}

/// A parsed attribute: a recognized `Code` or `SourceFile`, or any other name
/// retained as an opaque blob.
#[derive(Debug, Clone, PartialEq, Eq)]
pub enum AttributeInfo {
    Code(CodeAttribute),
    /// The constant-pool index of the source file's name.
    SourceFile(u16),
    Raw(RawAttribute),
}

pub enum AttributeInfoView {
    Code(CodeAttributeView),
    SourceFile(u16),
    Raw(RawAttributeView),
}

impl View for AttributeInfo {
    type V = AttributeInfoView;

    open spec fn view(&self) -> AttributeInfoView {
        match self {
            AttributeInfo::Code(c) => AttributeInfoView::Code(c@),
            AttributeInfo::SourceFile(i) => AttributeInfoView::SourceFile(*i),
            AttributeInfo::Raw(r) => AttributeInfoView::Raw(r@),
        }
    }
}

impl DeepView for AttributeInfo {
    type V = AttributeInfoView;

    open spec fn deep_view(&self) -> AttributeInfoView {
        self.view()
    }
}

/// The Utf8 bytes stored at 1-based index `idx` of the constant pool, when
/// that index lands on a Utf8 entry.
pub open spec fn spec_cp_utf8(cp: Seq<CpEntryView>, idx: int) -> Option<Seq<u8>> {
    if 0 <= idx < cp.len() {
        match cp[idx] {
            CpEntryView::Utf8(s) => Some(s),
            _ => None,
        }
    } else {
        None
    }
}

/// The bytes of the attribute name `Code`.
pub open spec fn spec_code_name() -> Seq<u8> {
    seq![67u8, 111u8, 100u8, 101u8]
}

/// The bytes of the attribute name `SourceFile`.
pub open spec fn spec_source_file_name() -> Seq<u8> {
    seq![83u8, 111u8, 117u8, 114u8, 99u8, 101u8, 70u8, 105u8, 108u8, 101u8]
}

/// An attribute at offset `i` retained as an opaque blob: name index, declared
/// length, then exactly that many payload bytes, trusted and never re-derived
/// from content.
pub open spec fn spec_raw_attribute(b: Seq<u8>, i: int, cp: Seq<CpEntryView>) -> Result<
    (RawAttributeView, int),
    VmError,
> {
    if b.len() < i + 6 {
        Err(VmError::TruncatedInput)
    } else {
        let idx = spec_be16(b, i);
        let len = spec_be32(b, i + 2);
        match spec_cp_utf8(cp, idx) {
            None => Err(VmError::UnresolvedConstantPoolEntry(idx as u16)),
            Some(name) => if b.len() < i + 6 + len {
                Err(VmError::TruncatedInput)
            } else {
                Ok((RawAttributeView { name, info: b.subrange(i + 6, i + 6 + len) }, i + 6 + len))
            },
        }
    }
}

/// `n` consecutive opaque attributes starting at offset `i`.
pub open spec fn spec_raw_attributes(b: Seq<u8>, i: int, n: nat, cp: Seq<CpEntryView>) -> Result<
    (Seq<RawAttributeView>, int),
    VmError,
>
    decreases n,
{
    if n == 0 {
        Ok((Seq::empty(), i))
    } else {
        match spec_raw_attribute(b, i, cp) {
            Err(e) => Err(e),
            Ok((a, j)) => match spec_raw_attributes(b, j, (n - 1) as nat, cp) {
                Err(e) => Err(e),
                Ok((rest, end)) => Ok((seq![a] + rest, end)),
            },
        }
    }
}

/// One exception-table record: four big-endian 16-bit fields.
pub open spec fn spec_exception_entry(b: Seq<u8>, i: int) -> Result<(ExceptionEntry, int), VmError> {
    if b.len() < i + 8 {
        Err(VmError::TruncatedInput)
    } else {
        Ok(
            (
                ExceptionEntry {
                    start_pc: spec_be16(b, i) as u16,
                    end_pc: spec_be16(b, i + 2) as u16,
                    handler_pc: spec_be16(b, i + 4) as u16,
                    catch_type: spec_be16(b, i + 6) as u16,
                },
                i + 8,
            ),
        )
    }
}

/// `n` consecutive exception-table records starting at offset `i`.
pub open spec fn spec_exception_table(b: Seq<u8>, i: int, n: nat) -> Result<
    (Seq<ExceptionEntry>, int),
    VmError,
>
    decreases n,
{
    if n == 0 {
        Ok((Seq::empty(), i))
    } else {
        match spec_exception_entry(b, i) {
            Err(e) => Err(e),
            Ok((a, j)) => match spec_exception_table(b, j, (n - 1) as nat) {
                Err(e) => Err(e),
                Ok((rest, end)) => Ok((seq![a] + rest, end)),
            },
        }
    }
}

/// The payload of a `Code` attribute at offset `i`: bounds, bytecode of the
/// declared length, exception table, and nested attributes, which are parsed
/// for length accounting and retained as blobs.
pub open spec fn spec_code_attribute(b: Seq<u8>, i: int, cp: Seq<CpEntryView>) -> Result<
    (CodeAttributeView, int),
    VmError,
> {
    if b.len() < i + 8 {
        Err(VmError::TruncatedInput)
    } else {
        let code_len = spec_be32(b, i + 4);
        if b.len() < i + 8 + code_len {
            Err(VmError::TruncatedInput)
        } else {
            let p = i + 8 + code_len;
            if b.len() < p + 2 {
                Err(VmError::TruncatedInput)
            } else {
                match spec_exception_table(b, p + 2, spec_be16(b, p) as nat) {
                    Err(e) => Err(e),
                    Ok((exc, q)) => if b.len() < q + 2 {
                        Err(VmError::TruncatedInput)
                    } else {
                        match spec_raw_attributes(b, q + 2, spec_be16(b, q) as nat, cp) {
                            Err(e) => Err(e),
                            Ok((attrs, end)) => Ok(
                                (
                                    CodeAttributeView {
                                        max_stack: spec_be16(b, i) as u16,
                                        max_locals: spec_be16(b, i + 2) as u16,
                                        code: b.subrange(i + 8, i + 8 + code_len),
                                        exception_table: exc,
                                        attributes: attrs,
                                    },
                                    end,
                                ),
                            ),
                        }
                    },
                }
            }
        }
    }
}

/// One attribute at offset `i`: its name index resolved through the constant
/// pool, then dispatched on the name. `Code` is parsed structurally; a
/// `SourceFile` of the mandated two-byte length is resolved to its index; any
/// other attribute is retained as an opaque blob of exactly the declared
/// length.
pub open spec fn spec_attribute(b: Seq<u8>, i: int, cp: Seq<CpEntryView>) -> Result<
    (AttributeInfoView, int),
    VmError,
> {
    if b.len() < i + 6 {
        Err(VmError::TruncatedInput)
    } else {
        let idx = spec_be16(b, i);
        let len = spec_be32(b, i + 2);
        match spec_cp_utf8(cp, idx) {
            None => Err(VmError::UnresolvedConstantPoolEntry(idx as u16)),
            Some(name) => if name == spec_code_name() {
                match spec_code_attribute(b, i + 6, cp) {
                    Err(e) => Err(e),
                    Ok((c, end)) => Ok((AttributeInfoView::Code(c), end)),
                }
            } else if name == spec_source_file_name() && len == 2 {
                if b.len() < i + 8 {
                    Err(VmError::TruncatedInput)
                } else {
                    Ok((AttributeInfoView::SourceFile(spec_be16(b, i + 6) as u16), i + 8))
                }
            } else {
                if b.len() < i + 6 + len {
                    Err(VmError::TruncatedInput)
                } else {
                    Ok(
                        (
                            AttributeInfoView::Raw(
                                RawAttributeView { name, info: b.subrange(i + 6, i + 6 + len) },
                            ),
                            i + 6 + len,
                        ),
                    )
                }
            },
        }
    }
}

/// `n` consecutive attributes starting at offset `i`.
pub open spec fn spec_attributes(b: Seq<u8>, i: int, n: nat, cp: Seq<CpEntryView>) -> Result<
    (Seq<AttributeInfoView>, int),
    VmError,
>
    decreases n,
{
    if n == 0 {
        Ok((Seq::empty(), i))
    } else {
        match spec_attribute(b, i, cp) {
            Err(e) => Err(e),
            Ok((a, j)) => match spec_attributes(b, j, (n - 1) as nat, cp) {
                Err(e) => Err(e),
                Ok((rest, end)) => Ok((seq![a] + rest, end)),
            },
        }
    }
}

/// Copies a byte buffer. Used where a constant-pool entry's bytes are handed
/// out without giving the entry up.
pub fn copy_bytes(v: &Vec<u8>) -> (r: Vec<u8>)
    ensures
        r@ == v@,
{
    let mut out: Vec<u8> = Vec::new();
    let mut i: usize = 0;
    while i < v.len()
        invariant
            i <= v@.len(),
            out@ =~= v@.subrange(0, i as int),
        decreases v@.len() - i,
    {
        out.push(v[i]);
        i = i + 1;
    }
    assert(out@ =~= v@);
    out
}

/// Resolves 1-based index `idx` to the bytes of a Utf8 entry, failing with
/// `UnresolvedConstantPoolEntry` when the index is out of range or lands on
/// another kind of entry.
pub fn cp_utf8_bytes(cp: &Vec<CpEntry>, idx: u16) -> (r: Result<Vec<u8>, VmError>)
    ensures
        match spec_cp_utf8(cp.deep_view(), idx as int) {
            Some(s) => r matches Ok(v) && v@ == s,
            None => r matches Err(e) && e == VmError::UnresolvedConstantPoolEntry(idx),
        },
{
    proof {
        if (idx as int) < cp.deep_view().len() {
            assert(cp.deep_view()[idx as int] == cp@[idx as int]@);
        }
    }
    if (idx as usize) < cp.len() {
        match &cp[idx as usize] {
            CpEntry::Utf8(v) => Ok(copy_bytes(v)),
            _ => Err(VmError::UnresolvedConstantPoolEntry(idx)),
        }
    } else {
        Err(VmError::UnresolvedConstantPoolEntry(idx))
    }
}

/// Whether `name` spells the attribute name `Code`.
fn bytes_eq_code(name: &Vec<u8>) -> (r: bool)
    ensures
        r <==> name@ == spec_code_name(),
{
    if name.len() == 4 && name[0] == 67 && name[1] == 111 && name[2] == 100 && name[3] == 101 {
        assert(name@ =~= spec_code_name());
        true
    } else {
        false
    }
}

/// Whether `name` spells the attribute name `SourceFile`.
fn bytes_eq_source_file(name: &Vec<u8>) -> (r: bool)
    ensures
        r <==> name@ == spec_source_file_name(),
{
    if name.len() == 10 && name[0] == 83 && name[1] == 111 && name[2] == 117 && name[3] == 114
        && name[4] == 99 && name[5] == 101 && name[6] == 70 && name[7] == 105 && name[8] == 108
        && name[9] == 101 {
        assert(name@ =~= spec_source_file_name());
        true
    } else {
        false
    }
}

/// Parses one attribute into an opaque blob, trusting the declared length.
fn parse_raw_attribute(stream: &mut ClassFileStream, cp: &Vec<CpEntry>) -> (r: Result<
    RawAttribute,
    VmError,
>)
    requires
        old(stream).wf(),
    ensures
        final(stream).wf(),
        final(stream).buffer@ == old(stream).buffer@,
        match spec_raw_attribute(
            old(stream).buffer@,
            old(stream).current as int,
            cp.deep_view(),
        ) {
            Ok((a, j)) => r matches Ok(v) && v@ == a && final(stream).current == j,
            Err(er) => r matches Err(e2) && e2 == er,
        },
{
    let idx = stream.read_u2()?;
    let len = stream.read_u4()?;
    let name = cp_utf8_bytes(cp, idx)?;
    let info = stream.read_bytes(len as usize)?;
    Ok(RawAttribute { name, info })
}

/// Parses `n` consecutive opaque attributes.
fn parse_raw_attributes(stream: &mut ClassFileStream, n: u16, cp: &Vec<CpEntry>) -> (r: Result<
    Vec<RawAttribute>,
    VmError,
>)
    requires
        old(stream).wf(),
    ensures
        final(stream).wf(),
        final(stream).buffer@ == old(stream).buffer@,
        match spec_raw_attributes(
            old(stream).buffer@,
            old(stream).current as int,
            n as nat,
            cp.deep_view(),
        ) {
            Ok((es, end)) => r matches Ok(v) && v.deep_view() == es && final(stream).current
                == end,
            Err(er) => r matches Err(e2) && e2 == er,
        },
    decreases n,
{
    if n == 0 {
        let v: Vec<RawAttribute> = Vec::new();
        assert(v.deep_view() =~= Seq::<RawAttributeView>::empty());
        return Ok(v);
    }
    let a = parse_raw_attribute(stream, cp)?;
    let rest = parse_raw_attributes(stream, n - 1, cp)?;
    let ghost rest_view = rest.deep_view();
    let mut v = rest;
    v.insert(0, a);
    proof {
        assert(v.deep_view() =~= seq![v@[0]@] + rest_view);
    }
    Ok(v)
}

/// Parses one exception-table record.
fn parse_exception_entry(stream: &mut ClassFileStream) -> (r: Result<ExceptionEntry, VmError>)
    requires
        old(stream).wf(),
    ensures
        final(stream).wf(),
        final(stream).buffer@ == old(stream).buffer@,
        match spec_exception_entry(old(stream).buffer@, old(stream).current as int) {
            Ok((a, j)) => r matches Ok(v) && v == a && final(stream).current == j,
            Err(er) => r matches Err(e2) && e2 == er,
        },
{
    let start_pc = stream.read_u2()?;
    let end_pc = stream.read_u2()?;
    let handler_pc = stream.read_u2()?;
    let catch_type = stream.read_u2()?;
    Ok(ExceptionEntry { start_pc, end_pc, handler_pc, catch_type })
}

/// Parses `n` consecutive exception-table records.
fn parse_exception_table(stream: &mut ClassFileStream, n: u16) -> (r: Result<
    Vec<ExceptionEntry>,
    VmError,
>)
    requires
        old(stream).wf(),
    ensures
        final(stream).wf(),
        final(stream).buffer@ == old(stream).buffer@,
        match spec_exception_table(
            old(stream).buffer@,
            old(stream).current as int,
            n as nat,
        ) {
            Ok((es, end)) => r matches Ok(v) && v.deep_view() == es && final(stream).current
                == end,
            Err(er) => r matches Err(e2) && e2 == er,
        },
    decreases n,
{
    if n == 0 {
        let v: Vec<ExceptionEntry> = Vec::new();
        assert(v.deep_view() =~= Seq::<ExceptionEntry>::empty());
        return Ok(v);
    }
    let a = parse_exception_entry(stream)?;
    let rest = parse_exception_table(stream, n - 1)?;
    let ghost rest_view = rest.deep_view();
    let mut v = rest;
    v.insert(0, a);
    proof {
        assert(v.deep_view() =~= seq![v@[0]@] + rest_view);
    }
    Ok(v)
}

/// Parses the payload of a `Code` attribute.
fn parse_code_attribute(stream: &mut ClassFileStream, cp: &Vec<CpEntry>) -> (r: Result<
    CodeAttribute,
    VmError,
>)
    requires
        old(stream).wf(),
    ensures
        final(stream).wf(),
        final(stream).buffer@ == old(stream).buffer@,
        match spec_code_attribute(
            old(stream).buffer@,
            old(stream).current as int,
            cp.deep_view(),
        ) {
            Ok((c, end)) => r matches Ok(v) && v@ == c && final(stream).current == end,
            Err(er) => r matches Err(e2) && e2 == er,
        },
{
    let max_stack = stream.read_u2()?;
    let max_locals = stream.read_u2()?;
    let code_len = stream.read_u4()?;
    let code = stream.read_bytes(code_len as usize)?;
    let exc_n = stream.read_u2()?;
    let exception_table = parse_exception_table(stream, exc_n)?;
    let attr_n = stream.read_u2()?;
    let attributes = parse_raw_attributes(stream, attr_n, cp)?;
    Ok(CodeAttribute { max_stack, max_locals, code, exception_table, attributes })
}

/// Parses one attribute, dispatching on its resolved name.
pub fn parse_attribute(stream: &mut ClassFileStream, cp: &Vec<CpEntry>) -> (r: Result<
    AttributeInfo,
    VmError,
>)
    requires
        old(stream).wf(),
    ensures
        final(stream).wf(),
        final(stream).buffer@ == old(stream).buffer@,
        match spec_attribute(old(stream).buffer@, old(stream).current as int, cp.deep_view()) {
            Ok((a, end)) => r matches Ok(v) && v@ == a && final(stream).current == end,
            Err(er) => r matches Err(e2) && e2 == er,
        },
{
    let idx = stream.read_u2()?;
    let len = stream.read_u4()?;
    let name = cp_utf8_bytes(cp, idx)?;
    if bytes_eq_code(&name) {
        let c = parse_code_attribute(stream, cp)?;
        Ok(AttributeInfo::Code(c))
    } else if bytes_eq_source_file(&name) && len == 2 {
        let sf = stream.read_u2()?;
        Ok(AttributeInfo::SourceFile(sf))
    } else {
        let info = stream.read_bytes(len as usize)?;
        Ok(AttributeInfo::Raw(RawAttribute { name, info }))
    }
}

/// Parses `n` consecutive attributes.
pub fn parse_attributes(stream: &mut ClassFileStream, n: u16, cp: &Vec<CpEntry>) -> (r: Result<
    Vec<AttributeInfo>,
    VmError,
>)
    requires
        old(stream).wf(),
    ensures
        final(stream).wf(),
        final(stream).buffer@ == old(stream).buffer@,
        match spec_attributes(
            old(stream).buffer@,
            old(stream).current as int,
            n as nat,
            cp.deep_view(),
        ) {
            Ok((es, end)) => r matches Ok(v) && v.deep_view() == es && final(stream).current
                == end,
            Err(er) => r matches Err(e2) && e2 == er,
        },
    decreases n,
{
    if n == 0 {
        let v: Vec<AttributeInfo> = Vec::new();
        assert(v.deep_view() =~= Seq::<AttributeInfoView>::empty());
        return Ok(v);
    }
    let a = parse_attribute(stream, cp)?;
    let rest = parse_attributes(stream, n - 1, cp)?;
    let ghost rest_view = rest.deep_view();
    let mut v = rest;
    v.insert(0, a);
    proof {
        assert(v.deep_view() =~= seq![v@[0]@] + rest_view);
    }
    Ok(v)
}

} // verus!
