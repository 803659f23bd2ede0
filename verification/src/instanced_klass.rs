//! The parsed, resolved representation of one class: versions, the constant
//! pool, resolved class names, member records, and class-level attributes.
//! Immutable after construction; owned by whoever parsed it.

use vstd::prelude::*;

use crate::attribute_info::{spec_cp_utf8, AttributeInfo, AttributeInfoView, cp_utf8_bytes};
use crate::constant_pool::{CpEntry, CpEntryView};
use crate::error::VmError;
use crate::member_info::{MemberInfo, MemberInfoView};
use vstd::utf8::{decode_utf8, valid_utf8};

verus! {

/// A parsed class descriptor. `constant_pool_entries` keeps the whole table,
/// index 0 reserved, so `constant_pool_count` equals its length. Names are
/// resolved through the pool's `Class` and `Utf8` indirection at construction.
#[derive(Debug, Clone, PartialEq, Eq)]
pub struct InstanceKlass {
    pub minor_version: u16,
    pub major_version: u16,
    pub constant_pool_count: u16,
    pub constant_pool_entries: Vec<CpEntry>,
    pub access_flags: u16,
    pub klass_name: String,
    pub super_klass_name: String,
    pub interfaces: Vec<String>,
    pub fields: Vec<MemberInfo>,
    pub methods: Vec<MemberInfo>,
    pub attributes: Vec<AttributeInfo>,
    /// The resolved `SourceFile` attribute value, empty when the class
    /// declares none.
    pub source_file: String,
}

#[verifier::ext_equal]
pub struct InstanceKlassView {
    pub minor_version: u16,
    pub major_version: u16,
    pub constant_pool_count: u16,
    pub constant_pool_entries: Seq<CpEntryView>,
    pub access_flags: u16,
    pub klass_name: Seq<char>,
    pub super_klass_name: Seq<char>,
    pub interfaces: Seq<Seq<char>>,
    pub fields: Seq<MemberInfoView>,
    pub methods: Seq<MemberInfoView>,
    pub attributes: Seq<AttributeInfoView>,
    pub source_file: Seq<char>,
}

impl View for InstanceKlass {
    type V = InstanceKlassView;

    open spec fn view(&self) -> InstanceKlassView {
        InstanceKlassView {
            minor_version: self.minor_version,
            major_version: self.major_version,
            constant_pool_count: self.constant_pool_count,
            constant_pool_entries: self.constant_pool_entries.deep_view(),
            access_flags: self.access_flags,
            klass_name: self.klass_name@,
            super_klass_name: self.super_klass_name@,
            interfaces: self.interfaces.deep_view(),
            fields: self.fields.deep_view(),
            methods: self.methods.deep_view(),
            attributes: self.attributes.deep_view(),
            source_file: self.source_file@,
        }
    }
}

impl DeepView for InstanceKlass {
    type V = InstanceKlassView;

    open spec fn deep_view(&self) -> InstanceKlassView {
        self.view()
    }
}

/// Relies on std's `String::from_utf8`: it succeeds exactly on well-formed
/// UTF-8, and the returned string is the decoding of the input bytes.
#[verifier::external_body]
pub fn string_from_bytes(b: Vec<u8>) -> (r: Option<String>)
    ensures
        r is Some <==> valid_utf8(b@),
        r matches Some(s) ==> s@ == decode_utf8(b@),
{
    String::from_utf8(b).ok()
}

/// The Utf8 bytes a `Class` entry at 1-based index `idx` points to, when the
/// index lands on a `Class` entry whose name index lands on a `Utf8` entry.
pub open spec fn spec_resolve_class_name(cp: Seq<CpEntryView>, idx: int) -> Option<Seq<u8>> {
    if 0 <= idx < cp.len() {
        match cp[idx] {
            CpEntryView::Class(u) => spec_cp_utf8(cp, u as int),
            _ => None,
        }
    } else {
        None
    }
}

/// The class name at `Class` index `idx`, decoded to text: fails with
/// `UnresolvedConstantPoolEntry` when the indirection does not resolve and
/// with `InvalidUtf8` when the name bytes are not well-formed UTF-8.
pub open spec fn spec_resolve_class_string(cp: Seq<CpEntryView>, idx: u16) -> Result<
    Seq<char>,
    VmError,
> {
    match spec_resolve_class_name(cp, idx as int) {
        None => Err(VmError::UnresolvedConstantPoolEntry(idx)),
        Some(bytes) => if valid_utf8(bytes) {
            Ok(decode_utf8(bytes))
        } else {
            Err(VmError::InvalidUtf8)
        },
    }
}

/// Resolves a `Class` entry to its name as a `String`.
pub fn resolve_class_string(cp: &Vec<CpEntry>, idx: u16) -> (r: Result<String, VmError>)
    ensures
        match spec_resolve_class_string(cp.deep_view(), idx) {
            Ok(name) => r matches Ok(s) && s@ == name,
            Err(er) => r matches Err(e2) && e2 == er,
        },
{
    proof {
        if (idx as int) < cp.deep_view().len() {
            assert(cp.deep_view()[idx as int] == cp@[idx as int]@);
        }
    }
    if (idx as usize) < cp.len() {
        let name_idx: u16 = match &cp[idx as usize] {
            CpEntry::Class(u) => *u,
            _ => {
                return Err(VmError::UnresolvedConstantPoolEntry(idx));
            },
        };
        let bytes = match cp_utf8_bytes(cp, name_idx) {
            Ok(b) => b,
            Err(_) => {
                return Err(VmError::UnresolvedConstantPoolEntry(idx));
            },
        };
        match string_from_bytes(bytes) {
            Some(s) => Ok(s),
            None => Err(VmError::InvalidUtf8),
        }
    } else {
        Err(VmError::UnresolvedConstantPoolEntry(idx))
    }
}

/// The interface names at indices `idxs[from..]`, each resolved as a class
/// name; the first failure is the result.
pub open spec fn spec_resolve_interfaces(cp: Seq<CpEntryView>, idxs: Seq<u16>, from: int) -> Result<
    Seq<Seq<char>>,
    VmError,
>
    decreases idxs.len() - from,
{
    if from >= idxs.len() || from < 0 {
        Ok(Seq::empty())
    } else {
        match spec_resolve_class_string(cp, idxs[from]) {
            Err(e) => Err(e),
            Ok(name) => match spec_resolve_interfaces(cp, idxs, from + 1) {
                Err(e) => Err(e),
                Ok(rest) => Ok(seq![name] + rest),
            },
        }
    }
}

/// Resolves every interface index to its class name, in declared order.
pub fn resolve_interfaces(cp: &Vec<CpEntry>, idxs: &Vec<u16>) -> (r: Result<Vec<String>, VmError>)
    ensures
        match spec_resolve_interfaces(cp.deep_view(), idxs@, 0) {
            Ok(names) => r matches Ok(v) && v.deep_view() == names,
            Err(er) => r matches Err(e2) && e2 == er,
        },
{
    resolve_interfaces_from(cp, idxs, 0)
}

fn resolve_interfaces_from(cp: &Vec<CpEntry>, idxs: &Vec<u16>, from: usize) -> (r: Result<
    Vec<String>,
    VmError,
>)
    requires
        from <= idxs@.len(),
    ensures
        match spec_resolve_interfaces(cp.deep_view(), idxs@, from as int) {
            Ok(names) => r matches Ok(v) && v.deep_view() == names,
            Err(er) => r matches Err(e2) && e2 == er,
        },
    decreases idxs@.len() - from,
{
    if from == idxs.len() {
        let v: Vec<String> = Vec::new();
        assert(v.deep_view() =~= Seq::<Seq<char>>::empty());
        return Ok(v);
    }
    let name = resolve_class_string(cp, idxs[from])?;
    let rest = resolve_interfaces_from(cp, idxs, from + 1)?;
    let ghost rest_view = rest.deep_view();
    let mut v = rest;
    v.insert(0, name);
    proof {
        assert(v.deep_view() =~= seq![v@[0]@] + rest_view);
    }
    Ok(v)
}

/// The resolved value of the first `SourceFile` attribute, or empty text when
/// the table holds none.
pub open spec fn spec_source_file_of(attrs: Seq<AttributeInfoView>, cp: Seq<CpEntryView>) -> Result<
    Seq<char>,
    VmError,
>
    decreases attrs.len(),
{
    if attrs.len() == 0 {
        Ok(Seq::empty())
    } else {
        match attrs[0] {
            AttributeInfoView::SourceFile(i) => match spec_cp_utf8(cp, i as int) {
                None => Err(VmError::UnresolvedConstantPoolEntry(i)),
                Some(bytes) => if valid_utf8(bytes) {
                    Ok(decode_utf8(bytes))
                } else {
                    Err(VmError::InvalidUtf8)
                },
            },
            _ => spec_source_file_of(attrs.drop_first(), cp),
        }
    }
}

/// Resolves the class's `SourceFile` attribute to text, empty when none is
/// declared.
pub fn source_file_string(attrs: &Vec<AttributeInfo>, cp: &Vec<CpEntry>) -> (r: Result<
    String,
    VmError,
>)
    ensures
        match spec_source_file_of(attrs.deep_view(), cp.deep_view()) {
            Ok(name) => r matches Ok(s) && s@ == name,
            Err(er) => r matches Err(e2) && e2 == er,
        },
{
    let ghost full = attrs.deep_view();
    let n = attrs.len();
    let mut i: usize = 0;
    proof {
        assert(full.skip(0) =~= full);
    }
    while i < n
        invariant
            n == attrs@.len(),
            i <= n,
            full == attrs.deep_view(),
            spec_source_file_of(full, cp.deep_view()) == spec_source_file_of(
                full.skip(i as int),
                cp.deep_view(),
            ),
        decreases n - i,
    {
        proof {
            assert(full.skip(i as int)[0] == full[i as int]);
        }
        match &attrs[i] {
            AttributeInfo::SourceFile(sf_idx) => {
                let bytes = cp_utf8_bytes(cp, *sf_idx)?;
                return match string_from_bytes(bytes) {
                    Some(s) => Ok(s),
                    None => Err(VmError::InvalidUtf8),
                };
            },
            _ => {},
        }
        proof {
            assert(full.skip(i as int).drop_first() =~= full.skip(i as int + 1));
        }
        i = i + 1;
    }
    proof {
        assert(full.skip(n as int) =~= Seq::<AttributeInfoView>::empty());
    }
    Ok(String::new())
}

/// Whether two byte buffers hold the same bytes.
pub fn bytes_equal(a: &Vec<u8>, b: &Vec<u8>) -> (r: bool)
    ensures
        r <==> a@ == b@,
{
    if a.len() != b.len() {
        return false;
    }
    let n = a.len();
    let mut i: usize = 0;
    while i < n
        invariant
            n == a@.len() == b@.len(),
            i <= n,
            forall|k: int| 0 <= k < i ==> a@[k] == b@[k],
        decreases n - i,
    {
        if a[i] != b[i] {
            return false;
        }
        i = i + 1;
    }
    assert(a@ =~= b@);
    true
}

/// What a methodref entry resolves to: the target class name's bytes, the
/// method name's bytes, and the descriptor's bytes, following the
/// `Methodref` to `Class`/`NameAndType` to `Utf8` indirection. Each index
/// that is absent or lands on the wrong kind fails with
/// `UnresolvedConstantPoolEntry` of that index.
pub open spec fn spec_resolve_methodref(cp: Seq<CpEntryView>, idx: u16) -> Result<
    (Seq<u8>, Seq<u8>, Seq<u8>),
    VmError,
> {
    if 0 <= idx < cp.len() {
        match cp[idx as int] {
            CpEntryView::Methodref(c, nt) => match spec_resolve_class_name(cp, c as int) {
                None => Err(VmError::UnresolvedConstantPoolEntry(c)),
                Some(cls) => if 0 <= nt < cp.len() {
                    match cp[nt as int] {
                        CpEntryView::NameAndType(n, d) => match spec_cp_utf8(cp, n as int) {
                            None => Err(VmError::UnresolvedConstantPoolEntry(n)),
                            Some(mname) => match spec_cp_utf8(cp, d as int) {
                                None => Err(VmError::UnresolvedConstantPoolEntry(d)),
                                Some(desc) => Ok((cls, mname, desc)),
                            },
                        },
                        _ => Err(VmError::UnresolvedConstantPoolEntry(nt)),
                    }
                } else {
                    Err(VmError::UnresolvedConstantPoolEntry(nt))
                },
            },
            _ => Err(VmError::UnresolvedConstantPoolEntry(idx)),
        }
    } else {
        Err(VmError::UnresolvedConstantPoolEntry(idx))
    }
}

/// Resolves a methodref entry to the byte forms of its target class name,
/// method name and descriptor.
pub fn resolve_methodref(cp: &Vec<CpEntry>, idx: u16) -> (r: Result<
    (Vec<u8>, Vec<u8>, Vec<u8>),
    VmError,
>)
    ensures
        match spec_resolve_methodref(cp.deep_view(), idx) {
            Ok((cls, mname, desc)) => r matches Ok(t) && t.0@ == cls && t.1@ == mname && t.2@
                == desc,
            Err(er) => r matches Err(e2) && e2 == er,
        },
{
    proof {
        if (idx as int) < cp.deep_view().len() {
            assert(cp.deep_view()[idx as int] == cp@[idx as int]@);
        }
    }
    if (idx as usize) >= cp.len() {
        return Err(VmError::UnresolvedConstantPoolEntry(idx));
    }
    let (c, nt): (u16, u16) = match &cp[idx as usize] {
        CpEntry::Methodref(c, nt) => (*c, *nt),
        _ => {
            return Err(VmError::UnresolvedConstantPoolEntry(idx));
        },
    };
    proof {
        if (c as int) < cp.deep_view().len() {
            assert(cp.deep_view()[c as int] == cp@[c as int]@);
        }
        if (nt as int) < cp.deep_view().len() {
            assert(cp.deep_view()[nt as int] == cp@[nt as int]@);
        }
    }
    if (c as usize) >= cp.len() {
        return Err(VmError::UnresolvedConstantPoolEntry(c));
    }
    let name_idx: u16 = match &cp[c as usize] {
        CpEntry::Class(u) => *u,
        _ => {
            return Err(VmError::UnresolvedConstantPoolEntry(c));
        },
    };
    let cls = match cp_utf8_bytes(cp, name_idx) {
        Ok(b) => b,
        Err(_) => {
            return Err(VmError::UnresolvedConstantPoolEntry(c));
        },
    };
    if (nt as usize) >= cp.len() {
        return Err(VmError::UnresolvedConstantPoolEntry(nt));
    }
    let (n, d): (u16, u16) = match &cp[nt as usize] {
        CpEntry::NameAndType(n, d) => (*n, *d),
        _ => {
            return Err(VmError::UnresolvedConstantPoolEntry(nt));
        },
    };
    let mname = cp_utf8_bytes(cp, n)?;
    let desc = cp_utf8_bytes(cp, d)?;
    Ok((cls, mname, desc))
}

/// The index of the first method of `klass` whose name and descriptor
/// resolve, through the class's own constant pool, to exactly `mname` and
/// `desc`, searching from index `from`.
pub open spec fn spec_find_method_from(
    klass: InstanceKlassView,
    mname: Seq<u8>,
    desc: Seq<u8>,
    from: int,
) -> Option<int>
    decreases klass.methods.len() - from,
{
    if from < 0 || from >= klass.methods.len() {
        None
    } else {
        let m = klass.methods[from];
        if spec_cp_utf8(klass.constant_pool_entries, m.name_index as int) == Some(mname)
            && spec_cp_utf8(klass.constant_pool_entries, m.descriptor_index as int) == Some(
            desc,
        ) {
            Some(from)
        } else {
            spec_find_method_from(klass, mname, desc, from + 1)
        }
    }
}

/// The index of the first method of `klass` named `mname` with descriptor
/// `desc`.
pub open spec fn spec_find_method(
    klass: InstanceKlassView,
    mname: Seq<u8>,
    desc: Seq<u8>,
) -> Option<int> {
    spec_find_method_from(klass, mname, desc, 0)
}

/// Locates the method of `klass` with the given name and descriptor bytes.
pub fn find_method(klass: &InstanceKlass, mname: &Vec<u8>, desc: &Vec<u8>) -> (r: Option<usize>)
    ensures
        match spec_find_method(klass@, mname@, desc@) {
            Some(i) => r matches Some(v) && v == i,
            None => r is None,
        },
        r matches Some(v) ==> v < klass.methods@.len(),
{
    let n = klass.methods.len();
    let mut i: usize = 0;
    while i < n
        invariant
            n == klass.methods@.len(),
            i <= n,
            spec_find_method_from(klass@, mname@, desc@, 0) == spec_find_method_from(
                klass@,
                mname@,
                desc@,
                i as int,
            ),
        decreases n - i,
    {
        proof {
            assert(klass@.methods[i as int] == klass.methods@[i as int]@);
        }
        let m = &klass.methods[i];
        let name_match = match cp_utf8_bytes(&klass.constant_pool_entries, m.name_index) {
            Ok(b) => bytes_equal(&b, mname),
            Err(_) => false,
        };
        if name_match {
            let desc_match = match cp_utf8_bytes(
                &klass.constant_pool_entries,
                m.descriptor_index,
            ) {
                Ok(b) => bytes_equal(&b, desc),
                Err(_) => false,
            };
            if desc_match {
                return Some(i);
            }
        }
        i = i + 1;
    }
    None
}

} // verus!
