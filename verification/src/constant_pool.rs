//! The constant pool: the class file's indexed table of shared literal and
//! symbolic-reference values. Entries are parsed from a tag-prefixed binary
//! layout into a typed table. Indexing is 1-based; index 0 is reserved, and a
//! `Long` or `Double` entry occupies two consecutive indices, the second of
//! which is an unused placeholder.

use vstd::prelude::*;

use crate::error::VmError;
use crate::stream::{spec_be16, spec_be32, ClassFileStream};

verus! {

/// One constant-pool entry. Numeric constants hold the big-endian bit pattern
/// of the constant exactly as it stands in the class file; interpreting the
/// bits of a `Float` or `Double` is the embedder's concern, since this core
/// computes with none of them. Reference entries hold 1-based indices into the
/// same pool.
#[derive(Debug, Clone, PartialEq, Eq)]
pub enum CpEntry {
    /// Index 0, and the shadow slot after a `Long` or `Double`.
    Unused,
    Utf8(Vec<u8>),
    Integer(u32),
    Float(u32),
    Long(u64),
    Double(u64),
    Class(u16),
    Str(u16),
    Fieldref(u16, u16),
    Methodref(u16, u16),
    InterfaceMethodref(u16, u16),
    NameAndType(u16, u16),
}

/// The mathematical model of a `CpEntry`: the same shape over `Seq<u8>`.
pub enum CpEntryView {
    Unused,
    Utf8(Seq<u8>),
    Integer(u32),
    Float(u32),
    Long(u64),
    Double(u64),
    Class(u16),
    Str(u16),
    Fieldref(u16, u16),
    Methodref(u16, u16),
    InterfaceMethodref(u16, u16),
    NameAndType(u16, u16),
}

impl View for CpEntry {
    type V = CpEntryView;

    open spec fn view(&self) -> CpEntryView {
        match self {
            CpEntry::Unused => CpEntryView::Unused,
            CpEntry::Utf8(v) => CpEntryView::Utf8(v@),
            CpEntry::Integer(v) => CpEntryView::Integer(*v),
            CpEntry::Float(v) => CpEntryView::Float(*v),
            CpEntry::Long(v) => CpEntryView::Long(*v),
            CpEntry::Double(v) => CpEntryView::Double(*v),
            CpEntry::Class(i) => CpEntryView::Class(*i),
            CpEntry::Str(i) => CpEntryView::Str(*i),
            CpEntry::Fieldref(c, nt) => CpEntryView::Fieldref(*c, *nt),
            CpEntry::Methodref(c, nt) => CpEntryView::Methodref(*c, *nt),
            CpEntry::InterfaceMethodref(c, nt) => CpEntryView::InterfaceMethodref(*c, *nt),
            CpEntry::NameAndType(n, d) => CpEntryView::NameAndType(*n, *d),
        }
    }
}

impl DeepView for CpEntry {
    type V = CpEntryView;

    open spec fn deep_view(&self) -> CpEntryView {
        self.view()
    }
}

/// What one tag-prefixed entry at offset `i` of `b` parses to, and the offset
/// just past it. A tag outside the supported set fails with
/// `UnsupportedConstantKind`; an entry whose layout runs past the end of the
/// buffer fails with `TruncatedInput`.
pub open spec fn spec_cp_entry(b: Seq<u8>, i: int) -> Result<(CpEntryView, int), VmError> {
    if b.len() < i + 1 {
        Err(VmError::TruncatedInput)
    } else {
        let tag = b[i];
        if tag == 1 {
            if b.len() < i + 3 {
                Err(VmError::TruncatedInput)
            } else {
                let n = spec_be16(b, i + 1);
                if b.len() < i + 3 + n {
                    Err(VmError::TruncatedInput)
                } else {
                    Ok((CpEntryView::Utf8(b.subrange(i + 3, i + 3 + n)), i + 3 + n))
                }
            }
        } else if tag == 3 {
            if b.len() < i + 5 {
                Err(VmError::TruncatedInput)
            } else {
                Ok((CpEntryView::Integer(spec_be32(b, i + 1) as u32), i + 5))
            }
        } else if tag == 4 {
            if b.len() < i + 5 {
                Err(VmError::TruncatedInput)
            } else {
                Ok((CpEntryView::Float(spec_be32(b, i + 1) as u32), i + 5))
            }
        } else if tag == 5 {
            if b.len() < i + 9 {
                Err(VmError::TruncatedInput)
            } else {
                Ok(
                    (
                        CpEntryView::Long(
                            (spec_be32(b, i + 1) * 0x1_0000_0000 + spec_be32(b, i + 5)) as u64,
                        ),
                        i + 9,
                    ),
                )
            }
        } else if tag == 6 {
            if b.len() < i + 9 {
                Err(VmError::TruncatedInput)
            } else {
                Ok(
                    (
                        CpEntryView::Double(
                            (spec_be32(b, i + 1) * 0x1_0000_0000 + spec_be32(b, i + 5)) as u64,
                        ),
                        i + 9,
                    ),
                )
            }
        } else if tag == 7 {
            if b.len() < i + 3 {
                Err(VmError::TruncatedInput)
            } else {
                Ok((CpEntryView::Class(spec_be16(b, i + 1) as u16), i + 3))
            }
        } else if tag == 8 {
            if b.len() < i + 3 {
                Err(VmError::TruncatedInput)
            } else {
                Ok((CpEntryView::Str(spec_be16(b, i + 1) as u16), i + 3))
            }
        } else if tag == 9 {
            if b.len() < i + 5 {
                Err(VmError::TruncatedInput)
            } else {
                Ok(
                    (
                        CpEntryView::Fieldref(
                            spec_be16(b, i + 1) as u16,
                            spec_be16(b, i + 3) as u16,
                        ),
                        i + 5,
                    ),
                )
            }
        } else if tag == 10 {
            if b.len() < i + 5 {
                Err(VmError::TruncatedInput)
            } else {
                Ok(
                    (
                        CpEntryView::Methodref(
                            spec_be16(b, i + 1) as u16,
                            spec_be16(b, i + 3) as u16,
                        ),
                        i + 5,
                    ),
                )
            }
        } else if tag == 11 {
            if b.len() < i + 5 {
                Err(VmError::TruncatedInput)
            } else {
                Ok(
                    (
                        CpEntryView::InterfaceMethodref(
                            spec_be16(b, i + 1) as u16,
                            spec_be16(b, i + 3) as u16,
                        ),
                        i + 5,
                    ),
                )
            }
        } else if tag == 12 {
            if b.len() < i + 5 {
                Err(VmError::TruncatedInput)
            } else {
                Ok(
                    (
                        CpEntryView::NameAndType(
                            spec_be16(b, i + 1) as u16,
                            spec_be16(b, i + 3) as u16,
                        ),
                        i + 5,
                    ),
                )
            }
        } else {
            Err(VmError::UnsupportedConstantKind(tag))
        }
    }
}

/// The table slots filled by reading entries at offset `i` of `b` until
/// `slots` 1-based indices are occupied, and the offset just past the last
/// entry read. A `Long` or `Double` fills two slots, its own and one `Unused`
/// shadow; one standing where only a single slot is left cannot place its
/// shadow and fails with `ConstantPoolOverflow` — `UnsupportedConstantKind`
/// is kept for tags outside the supported set alone.
pub open spec fn spec_cp_rest(b: Seq<u8>, i: int, slots: nat) -> Result<
    (Seq<CpEntryView>, int),
    VmError,
>
    decreases slots,
{
    if slots == 0 {
        Ok((Seq::empty(), i))
    } else {
        match spec_cp_entry(b, i) {
            Err(e) => Err(e),
            Ok((e, j)) => if e is Long || e is Double {
                if slots < 2 {
                    Err(VmError::ConstantPoolOverflow)
                } else {
                    match spec_cp_rest(b, j, (slots - 2) as nat) {
                        Err(er) => Err(er),
                        Ok((rest, end)) => Ok((seq![e, CpEntryView::Unused] + rest, end)),
                    }
                }
            } else {
                match spec_cp_rest(b, j, (slots - 1) as nat) {
                    Err(er) => Err(er),
                    Ok((rest, end)) => Ok((seq![e] + rest, end)),
                }
            },
        }
    }
}

/// The whole constant-pool table declared with `constant_pool_count` equal to
/// `count`: one reserved `Unused` slot at index 0, then entries for the
/// remaining `count - 1` indices. The table's length is exactly `count`.
pub open spec fn spec_parse_constant_pool(b: Seq<u8>, i: int, count: u16) -> Result<
    (Seq<CpEntryView>, int),
    VmError,
> {
    if count == 0 {
        Ok((Seq::empty(), i))
    } else {
        match spec_cp_rest(b, i, (count - 1) as nat) {
            Err(e) => Err(e),
            Ok((rest, end)) => Ok((seq![CpEntryView::Unused] + rest, end)),
        }
    }
}

/// A successfully parsed run of entries fills exactly the requested number of
/// slots and ends at or before the end of the buffer.
pub proof fn lemma_cp_rest_len(b: Seq<u8>, i: int, slots: nat)
    requires
        0 <= i <= b.len(),
    ensures
        spec_cp_rest(b, i, slots) matches Ok((es, end)) ==> es.len() == slots && i <= end
            <= b.len(),
    decreases slots,
{
    if slots > 0 {
        match spec_cp_entry(b, i) {
            Err(_) => {},
            Ok((e, j)) => {
                if e is Long || e is Double {
                    if slots >= 2 {
                        lemma_cp_rest_len(b, j, (slots - 2) as nat);
                    }
                } else {
                    lemma_cp_rest_len(b, j, (slots - 1) as nat);
                }
            },
        }
    }
}

/// A parsed constant-pool table has exactly `count` slots, and slot 0 is the
/// reserved `Unused` entry: the parsed entries proper number `count - 1`.
pub proof fn lemma_constant_pool_len(b: Seq<u8>, i: int, count: u16)
    requires
        0 <= i <= b.len(),
    ensures
        spec_parse_constant_pool(b, i, count) matches Ok((es, end)) ==> {
            &&& es.len() == count
            &&& count > 0 ==> es[0] is Unused
            &&& i <= end <= b.len()
        },
{
    if count > 0 {
        lemma_cp_rest_len(b, i, (count - 1) as nat);
    }
}

/// Parses one tag-prefixed constant-pool entry at the stream's position.
fn parse_cp_entry(stream: &mut ClassFileStream) -> (r: Result<CpEntry, VmError>)
    requires
        old(stream).wf(),
    ensures
        final(stream).wf(),
        final(stream).buffer@ == old(stream).buffer@,
        match spec_cp_entry(old(stream).buffer@, old(stream).current as int) {
            Ok((e, j)) => r matches Ok(v) && v@ == e && final(stream).current == j,
            Err(er) => r matches Err(e2) && e2 == er,
        },
{
    let tag = stream.read_u1()?;
    match tag {
        1 => {
            let n = stream.read_u2()?;
            let bytes = stream.read_bytes(n as usize)?;
            Ok(CpEntry::Utf8(bytes))
        },
        3 => {
            let v = stream.read_u4()?;
            Ok(CpEntry::Integer(v))
        },
        4 => {
            let v = stream.read_u4()?;
            Ok(CpEntry::Float(v))
        },
        5 => {
            let hi = stream.read_u4()?;
            let lo = stream.read_u4()?;
            Ok(CpEntry::Long((hi as u64) * 0x1_0000_0000 + (lo as u64)))
        },
        6 => {
            let hi = stream.read_u4()?;
            let lo = stream.read_u4()?;
            Ok(CpEntry::Double((hi as u64) * 0x1_0000_0000 + (lo as u64)))
        },
        7 => {
            let i = stream.read_u2()?;
            Ok(CpEntry::Class(i))
        },
        8 => {
            let i = stream.read_u2()?;
            Ok(CpEntry::Str(i))
        },
        9 => {
            let c = stream.read_u2()?;
            let nt = stream.read_u2()?;
            Ok(CpEntry::Fieldref(c, nt))
        },
        10 => {
            let c = stream.read_u2()?;
            let nt = stream.read_u2()?;
            Ok(CpEntry::Methodref(c, nt))
        },
        11 => {
            let c = stream.read_u2()?;
            let nt = stream.read_u2()?;
            Ok(CpEntry::InterfaceMethodref(c, nt))
        },
        12 => {
            let c = stream.read_u2()?;
            let nt = stream.read_u2()?;
            Ok(CpEntry::NameAndType(c, nt))
        },
        _ => Err(VmError::UnsupportedConstantKind(tag)),
    }
}

/// Parses entries until `slots` table indices are occupied, placing an
/// `Unused` shadow slot after each `Long` or `Double`.
fn parse_cp_rest(stream: &mut ClassFileStream, slots: u16) -> (r: Result<Vec<CpEntry>, VmError>)
    requires
        old(stream).wf(),
    ensures
        final(stream).wf(),
        final(stream).buffer@ == old(stream).buffer@,
        match spec_cp_rest(old(stream).buffer@, old(stream).current as int, slots as nat) {
            Ok((es, end)) => r matches Ok(v) && v.deep_view() == es && final(stream).current
                == end,
            Err(er) => r matches Err(e2) && e2 == er,
        },
    decreases slots,
{
    if slots == 0 {
        let v: Vec<CpEntry> = Vec::new();
        assert(v.deep_view() =~= Seq::<CpEntryView>::empty());
        return Ok(v);
    }
    let e = parse_cp_entry(stream)?;
    let two_slots = matches!(e, CpEntry::Long(_) | CpEntry::Double(_));
    if two_slots {
        if slots < 2 {
            return Err(VmError::ConstantPoolOverflow);
        }
        let rest = parse_cp_rest(stream, slots - 2)?;
        let ghost rest_view = rest.deep_view();
        let mut v = rest;
        v.insert(0, CpEntry::Unused);
        v.insert(0, e);
        proof {
            assert(v.deep_view() =~= seq![v@[0]@, CpEntryView::Unused] + rest_view);
        }
        Ok(v)
    } else {
        let rest = parse_cp_rest(stream, slots - 1)?;
        let ghost rest_view = rest.deep_view();
        let mut v = rest;
        v.insert(0, e);
        proof {
            assert(v.deep_view() =~= seq![v@[0]@] + rest_view);
        }
        Ok(v)
    }
}

/// Parses the constant-pool table declared to have `count` slots: `count - 1`
/// tag-prefixed entries starting at index 1, with index 0 reserved. The
/// returned table has exactly `count` entries, so every 1-based index below
/// `count` lands on its own slot.
pub fn parse_constant_pool(stream: &mut ClassFileStream, count: u16) -> (r: Result<
    Vec<CpEntry>,
    VmError,
>)
    requires
        old(stream).wf(),
    ensures
        final(stream).wf(),
        final(stream).buffer@ == old(stream).buffer@,
        match spec_parse_constant_pool(
            old(stream).buffer@,
            old(stream).current as int,
            count,
        ) {
            Ok((es, end)) => r matches Ok(v) && v.deep_view() == es && final(stream).current
                == end && v@.len() == count,
            Err(er) => r matches Err(e2) && e2 == er,
        },
{
    if count == 0 {
        let v: Vec<CpEntry> = Vec::new();
        assert(v.deep_view() =~= Seq::<CpEntryView>::empty());
        return Ok(v);
    }
    let rest = parse_cp_rest(stream, count - 1)?;
    let ghost rest_view = rest.deep_view();
    proof {
        lemma_cp_rest_len(
            old(stream).buffer@,
            old(stream).current as int,
            (count - 1) as nat,
        );
    }
    let mut v = rest;
    v.insert(0, CpEntry::Unused);
    proof {
        assert(v.deep_view() =~= seq![CpEntryView::Unused] + rest_view);
    }
    Ok(v)
}

} // verus!
