//! Field and method records: access flags, name and descriptor indices into
//! the constant pool, and an attribute table. A method's body, when it has
//! one, is the `Code` attribute in its table.

use vstd::prelude::*;

use crate::attribute_info::{
    parse_attributes, spec_attributes, AttributeInfo, AttributeInfoView, CodeAttribute,
    CodeAttributeView,
};
use crate::constant_pool::{CpEntry, CpEntryView};
use crate::error::VmError;
use crate::stream::{spec_be16, ClassFileStream};

verus! {

/// One field or method record. Unrecognized attribute kinds are retained in
/// `attribute_table` as opaque named blobs, never dropped.
#[derive(Debug, Clone, PartialEq, Eq)]
pub struct MemberInfo {
    pub access_flags: u16,
    pub name_index: u16,
    pub descriptor_index: u16,
    pub attribute_table: Vec<AttributeInfo>,
}

pub struct MemberInfoView {
    pub access_flags: u16,
    pub name_index: u16,
    pub descriptor_index: u16,
    pub attribute_table: Seq<AttributeInfoView>,
}

impl View for MemberInfo {
    type V = MemberInfoView;

    open spec fn view(&self) -> MemberInfoView {
        MemberInfoView {
            access_flags: self.access_flags,
            name_index: self.name_index,
            descriptor_index: self.descriptor_index,
            attribute_table: self.attribute_table.deep_view(),
        }
    }
}

impl DeepView for MemberInfo {
    type V = MemberInfoView;

    open spec fn deep_view(&self) -> MemberInfoView {
        self.view()
    }
}

/// One member record at offset `i`: three big-endian 16-bit fields, then an
/// attribute count and that many attributes.
pub open spec fn spec_member(b: Seq<u8>, i: int, cp: Seq<CpEntryView>) -> Result<
    (MemberInfoView, int),
    VmError,
> {
    if b.len() < i + 8 {
        Err(VmError::TruncatedInput)
    } else {
        match spec_attributes(b, i + 8, spec_be16(b, i + 6) as nat, cp) {
            Err(e) => Err(e),
            Ok((attrs, end)) => Ok(
                (
                    MemberInfoView {
                        access_flags: spec_be16(b, i) as u16,
                        name_index: spec_be16(b, i + 2) as u16,
                        descriptor_index: spec_be16(b, i + 4) as u16,
                        attribute_table: attrs,
                    },
                    end,
                ),
            ),
        }
    }
}

/// `n` consecutive member records starting at offset `i`.
pub open spec fn spec_members(b: Seq<u8>, i: int, n: nat, cp: Seq<CpEntryView>) -> Result<
    (Seq<MemberInfoView>, int),
    VmError,
>
    decreases n,
{
    if n == 0 {
        Ok((Seq::empty(), i))
    } else {
        match spec_member(b, i, cp) {
            Err(e) => Err(e),
            Ok((m, j)) => match spec_members(b, j, (n - 1) as nat, cp) {
                Err(e) => Err(e),
                Ok((rest, end)) => Ok((seq![m] + rest, end)),
            },
        }
    }
}

/// The first `Code` attribute of an attribute table, when one is there: the
/// method's body.
pub open spec fn spec_code_of(attrs: Seq<AttributeInfoView>) -> Option<CodeAttributeView>
    decreases attrs.len(),
{
    if attrs.len() == 0 {
        None
    } else {
        match attrs[0] {
            AttributeInfoView::Code(c) => Some(c),
            _ => spec_code_of(attrs.drop_first()),
        }
    }
}

impl MemberInfo {
    /// The member's body: its first `Code` attribute, when one is there.
    pub fn code_attribute(&self) -> (r: Option<&CodeAttribute>)
        ensures
            match spec_code_of(self.attribute_table.deep_view()) {
                Some(c) => r matches Some(v) && v@ == c,
                None => r is None,
            },
    {
        let ghost full = self.attribute_table.deep_view();
        let n = self.attribute_table.len();
        let mut i: usize = 0;
        proof {
            assert(full.skip(0) =~= full);
        }
        while i < n
            invariant
                n == self.attribute_table@.len(),
                i <= n,
                full == self.attribute_table.deep_view(),
                spec_code_of(full) == spec_code_of(full.skip(i as int)),
            decreases n - i,
        {
            proof {
                assert(full.skip(i as int)[0] == full[i as int]);
            }
            match &self.attribute_table[i] {
                AttributeInfo::Code(c) => {
                    return Some(c);
                },
                _ => {},
            }
            proof {
                assert(full.skip(i as int).drop_first() =~= full.skip(i as int + 1));
            }
            i = i + 1;
        }
        proof {
            assert(full.skip(n as int) =~= Seq::<AttributeInfoView>::empty());
        }
        None
    }
}

/// Parses one member record.
pub fn parse_member(stream: &mut ClassFileStream, cp: &Vec<CpEntry>) -> (r: Result<
    MemberInfo,
    VmError,
>)
    requires
        old(stream).wf(),
    ensures
        final(stream).wf(),
        final(stream).buffer@ == old(stream).buffer@,
        match spec_member(old(stream).buffer@, old(stream).current as int, cp.deep_view()) {
            Ok((m, end)) => r matches Ok(v) && v@ == m && final(stream).current == end,
            Err(er) => r matches Err(e2) && e2 == er,
        },
{
    let access_flags = stream.read_u2()?;
    let name_index = stream.read_u2()?;
    let descriptor_index = stream.read_u2()?;
    let attr_n = stream.read_u2()?;
    let attribute_table = parse_attributes(stream, attr_n, cp)?;
    Ok(MemberInfo { access_flags, name_index, descriptor_index, attribute_table })
}

/// Parses `n` consecutive member records.
pub fn parse_members(stream: &mut ClassFileStream, n: u16, cp: &Vec<CpEntry>) -> (r: Result<
    Vec<MemberInfo>,
    VmError,
>)
    requires
        old(stream).wf(),
    ensures
        final(stream).wf(),
        final(stream).buffer@ == old(stream).buffer@,
        match spec_members(
            old(stream).buffer@,
            old(stream).current as int,
            n as nat,
            cp.deep_view(),
        ) {
            Ok((es, end)) => r matches Ok(v) && v.deep_view() == es && final(stream).current
                == end,
            Err(er) => r matches Err(e2) && e2 == er,
        },
    decreases n,
{
    if n == 0 {
        let v: Vec<MemberInfo> = Vec::new();
        assert(v.deep_view() =~= Seq::<MemberInfoView>::empty());
        return Ok(v);
    }
    let m = parse_member(stream, cp)?;
    let rest = parse_members(stream, n - 1, cp)?;
    let ghost rest_view = rest.deep_view();
    let mut v = rest;
    v.insert(0, m);
    proof {
        assert(v.deep_view() =~= seq![v@[0]@] + rest_view);
    }
    Ok(v)
}

} // verus!
