//! The class descriptor parser: drives header parsing, constant-pool parsing,
//! and structural parsing of interfaces, fields, methods and class-level
//! attributes, then resolves names into an immutable class descriptor.

use vstd::prelude::*;

use crate::attribute_info::{parse_attributes, spec_attributes, AttributeInfo, AttributeInfoView};
use crate::constant_pool::{
    lemma_constant_pool_len, parse_constant_pool, spec_parse_constant_pool, CpEntry, CpEntryView,
};
use crate::error::VmError;
use crate::instanced_klass::{
    resolve_class_string, resolve_interfaces, source_file_string, spec_resolve_class_string,
    spec_resolve_interfaces, spec_source_file_of, InstanceKlass, InstanceKlassView,
};
use crate::member_info::{parse_members, spec_members, MemberInfo, MemberInfoView};
use crate::stream::{spec_be16, spec_be32, ClassFileStream};

verus! {

/// The fixed leading magic constant of the binary class format, read as a
/// big-endian unsigned 32-bit value.
pub const KLASS_MAGIC: u32 = 0xCAFE_BABE;

/// Whether `magic` is the class-file magic constant.
pub fn is_klass_magic(magic: u32) -> (r: bool)
    ensures
        r <==> magic == KLASS_MAGIC,
{
    magic == KLASS_MAGIC
}

/// `n` consecutive big-endian 16-bit fields starting at offset `i`.
pub open spec fn spec_u16s(b: Seq<u8>, i: int, n: nat) -> Result<(Seq<u16>, int), VmError>
    decreases n,
{
    if n == 0 {
        Ok((Seq::empty(), i))
    } else if b.len() < i + 2 {
        Err(VmError::TruncatedInput)
    } else {
        match spec_u16s(b, i + 2, (n - 1) as nat) {
            Err(e) => Err(e),
            Ok((rest, end)) => Ok((seq![spec_be16(b, i) as u16] + rest, end)),
        }
    }
}

/// Reads `n` consecutive big-endian 16-bit fields.
fn parse_u16s(stream: &mut ClassFileStream, n: u16) -> (r: Result<Vec<u16>, VmError>)
    requires
        old(stream).wf(),
    ensures
        final(stream).wf(),
        final(stream).buffer@ == old(stream).buffer@,
        match spec_u16s(old(stream).buffer@, old(stream).current as int, n as nat) {
            Ok((es, end)) => r matches Ok(v) && v@ == es && final(stream).current == end,
            Err(er) => r matches Err(e2) && e2 == er,
        },
    decreases n,
{
    if n == 0 {
        let v: Vec<u16> = Vec::new();
        assert(v@ =~= Seq::<u16>::empty());
        return Ok(v);
    }
    let x = stream.read_u2()?;
    let rest = parse_u16s(stream, n - 1)?;
    let ghost rest_view = rest@;
    let mut v = rest;
    v.insert(0, x);
    proof {
        assert(v@ =~= seq![x] + rest_view);
    }
    Ok(v)
}

/// The structurally parsed contents of one class file, before name
/// resolution into a descriptor.
pub struct ClassFileParser {
    pub minor_version: u16,
    pub major_version: u16,
    pub constant_pool_count: u16,
    pub constant_pool_entries: Vec<CpEntry>,
    pub access_flags: u16,
    pub this_class_index: u16,
    pub super_class_index: u16,
    pub interfaces: Vec<u16>,
    pub fields: Vec<MemberInfo>,
    pub methods: Vec<MemberInfo>,
    pub attributes: Vec<AttributeInfo>,
}

#[verifier::ext_equal]
pub struct ClassFileParserView {
    pub minor_version: u16,
    pub major_version: u16,
    pub constant_pool_count: u16,
    pub constant_pool_entries: Seq<CpEntryView>,
    pub access_flags: u16,
    pub this_class_index: u16,
    pub super_class_index: u16,
    pub interfaces: Seq<u16>,
    pub fields: Seq<MemberInfoView>,
    pub methods: Seq<MemberInfoView>,
    pub attributes: Seq<AttributeInfoView>,
}

impl View for ClassFileParser {
    type V = ClassFileParserView;

    open spec fn view(&self) -> ClassFileParserView {
        ClassFileParserView {
            minor_version: self.minor_version,
            major_version: self.major_version,
            constant_pool_count: self.constant_pool_count,
            constant_pool_entries: self.constant_pool_entries.deep_view(),
            access_flags: self.access_flags,
            this_class_index: self.this_class_index,
            super_class_index: self.super_class_index,
            interfaces: self.interfaces@,
            fields: self.fields.deep_view(),
            methods: self.methods.deep_view(),
            attributes: self.attributes.deep_view(),
        }
    }
}

/// What a whole class file parses to. The sequence is the one the binary
/// format declares: magic, versions, constant pool, access flags, this and
/// super indices, interfaces, fields, methods, class-level attributes. Bytes
/// after the last attribute are ignored. Kept opaque so that callers which
/// treat a parse abstractly need not carry its whole definition.
#[verifier::opaque]
pub open spec fn spec_parse_class(b: Seq<u8>) -> Result<ClassFileParserView, VmError> {
    if b.len() < 4 {
        Err(VmError::TruncatedInput)
    } else if spec_be32(b, 0) != KLASS_MAGIC {
        Err(VmError::InvalidMagic)
    } else if b.len() < 10 {
        Err(VmError::TruncatedInput)
    } else {
        let count = spec_be16(b, 8) as u16;
        match spec_parse_constant_pool(b, 10, count) {
            Err(e) => Err(e),
            Ok((cp, p)) => if b.len() < p + 8 {
                Err(VmError::TruncatedInput)
            } else {
                match spec_u16s(b, p + 8, spec_be16(b, p + 6) as nat) {
                    Err(e) => Err(e),
                    Ok((itfs, q)) => if b.len() < q + 2 {
                        Err(VmError::TruncatedInput)
                    } else {
                        match spec_members(b, q + 2, spec_be16(b, q) as nat, cp) {
                            Err(e) => Err(e),
                            Ok((fields, t)) => if b.len() < t + 2 {
                                Err(VmError::TruncatedInput)
                            } else {
                                match spec_members(b, t + 2, spec_be16(b, t) as nat, cp) {
                                    Err(e) => Err(e),
                                    Ok((methods, u)) => if b.len() < u + 2 {
                                        Err(VmError::TruncatedInput)
                                    } else {
                                        match spec_attributes(
                                            b,
                                            u + 2,
                                            spec_be16(b, u) as nat,
                                            cp,
                                        ) {
                                            Err(e) => Err(e),
                                            Ok((attrs, _end)) => Ok(
                                                ClassFileParserView {
                                                    minor_version: spec_be16(b, 4) as u16,
                                                    major_version: spec_be16(b, 6) as u16,
                                                    constant_pool_count: count,
                                                    constant_pool_entries: cp,
                                                    access_flags: spec_be16(b, p) as u16,
                                                    this_class_index: spec_be16(b, p + 2) as u16,
                                                    super_class_index: spec_be16(b, p + 4) as u16,
                                                    interfaces: itfs,
                                                    fields,
                                                    methods,
                                                    attributes: attrs,
                                                },
                                            ),
                                        }
                                    },
                                }
                            },
                        }
                    },
                }
            },
        }
    }
}

/// For any well-formed class file, the parsed constant-pool table has exactly
/// `constant_pool_count` slots with index 0 reserved: the parsed entries
/// proper number `constant_pool_count - 1`.
pub proof fn lemma_constant_pool_entry_count(b: Seq<u8>)
    ensures
        spec_parse_class(b) matches Ok(p) ==> {
            &&& p.constant_pool_entries.len() == p.constant_pool_count
            &&& p.constant_pool_count > 0 ==> p.constant_pool_entries[0] is Unused
        },
{
    reveal(spec_parse_class);
    if spec_parse_class(b) is Ok {
        lemma_constant_pool_len(b, 10, spec_be16(b, 8) as u16);
    }
}

impl ClassFileParser {
    /// Parses one whole class file from the start of the stream: the
    /// big-endian magic is required to equal the fixed constant, then each
    /// structural section is read in declared order, every step checked.
    pub fn new(stream: ClassFileStream) -> (r: Result<ClassFileParser, VmError>)
        requires
            stream.wf(),
            stream.current == 0,
        ensures
            match spec_parse_class(stream.buffer@) {
                Ok(p) => r matches Ok(v) && v@ == p,
                Err(er) => r matches Err(e2) && e2 == er,
            },
            r matches Ok(v) ==> v.constant_pool_entries@.len() == v.constant_pool_count,
    {
        Self::parse_stream(stream)
    }

    /// Reads every structural section of the class file in declared order.
    fn parse_stream(stream: ClassFileStream) -> (r: Result<ClassFileParser, VmError>)
        requires
            stream.wf(),
            stream.current == 0,
        ensures
            match spec_parse_class(stream.buffer@) {
                Ok(p) => r matches Ok(v) && v@ == p,
                Err(er) => r matches Err(e2) && e2 == er,
            },
            r matches Ok(v) ==> v.constant_pool_entries@.len() == v.constant_pool_count,
    {
        proof {
            reveal(spec_parse_class);
        }
        let mut s = stream;
        let magic = s.read_u4()?;
        if !is_klass_magic(magic) {
            return Err(VmError::InvalidMagic);
        }
        let minor_version = s.read_u2()?;
        let major_version = s.read_u2()?;
        let constant_pool_count = s.read_u2()?;
        let constant_pool_entries = parse_constant_pool(&mut s, constant_pool_count)?;
        let access_flags = s.read_u2()?;
        let this_class_index = s.read_u2()?;
        let super_class_index = s.read_u2()?;
        let itf_n = s.read_u2()?;
        let interfaces = parse_u16s(&mut s, itf_n)?;
        let field_n = s.read_u2()?;
        let fields = parse_members(&mut s, field_n, &constant_pool_entries)?;
        let method_n = s.read_u2()?;
        let methods = parse_members(&mut s, method_n, &constant_pool_entries)?;
        let attr_n = s.read_u2()?;
        let attributes = parse_attributes(&mut s, attr_n, &constant_pool_entries)?;
        let parser = ClassFileParser {
            minor_version,
            major_version,
            constant_pool_count,
            constant_pool_entries,
            access_flags,
            this_class_index,
            super_class_index,
            interfaces,
            fields,
            methods,
            attributes,
        };
        proof {
            assert(spec_parse_class(stream.buffer@) matches Ok(p) && parser@ =~= p);
        }
        Ok(parser)
    }

    /// The descriptor a parsed class resolves to: this and super class names
    /// and each interface name follow the `Class` to `Utf8` indirection, the
    /// `SourceFile` attribute resolves to its text, and everything else is
    /// carried over unchanged.
    pub open spec fn spec_instance_klass(p: ClassFileParserView) -> Result<
        InstanceKlassView,
        VmError,
    > {
        match spec_resolve_class_string(p.constant_pool_entries, p.this_class_index) {
            Err(e) => Err(e),
            Ok(this_name) => match spec_resolve_class_string(
                p.constant_pool_entries,
                p.super_class_index,
            ) {
                Err(e) => Err(e),
                Ok(super_name) => match spec_resolve_interfaces(
                    p.constant_pool_entries,
                    p.interfaces,
                    0,
                ) {
                    Err(e) => Err(e),
                    Ok(itfs) => match spec_source_file_of(p.attributes, p.constant_pool_entries) {
                        Err(e) => Err(e),
                        Ok(sf) => Ok(
                            InstanceKlassView {
                                minor_version: p.minor_version,
                                major_version: p.major_version,
                                constant_pool_count: p.constant_pool_count,
                                constant_pool_entries: p.constant_pool_entries,
                                access_flags: p.access_flags,
                                klass_name: this_name,
                                super_klass_name: super_name,
                                interfaces: itfs,
                                fields: p.fields,
                                methods: p.methods,
                                attributes: p.attributes,
                                source_file: sf,
                            },
                        ),
                    },
                },
            },
        }
    }

    /// Resolves the parsed contents into an immutable class descriptor,
    /// consuming the parser.
    pub fn create_instance_klass(self) -> (r: Result<InstanceKlass, VmError>)
        ensures
            match Self::spec_instance_klass(self@) {
                Ok(kv) => r matches Ok(k) && k@ == kv,
                Err(er) => r matches Err(e2) && e2 == er,
            },
    {
        let ClassFileParser {
            minor_version,
            major_version,
            constant_pool_count,
            constant_pool_entries,
            access_flags,
            this_class_index,
            super_class_index,
            interfaces,
            fields,
            methods,
            attributes,
        } = self;
        let klass_name = resolve_class_string(&constant_pool_entries, this_class_index)?;
        let super_klass_name = resolve_class_string(&constant_pool_entries, super_class_index)?;
        let interface_names = resolve_interfaces(&constant_pool_entries, &interfaces)?;
        let source_file = source_file_string(&attributes, &constant_pool_entries)?;
        let klass = InstanceKlass {
            minor_version,
            major_version,
            constant_pool_count,
            constant_pool_entries,
            access_flags,
            klass_name,
            super_klass_name,
            interfaces: interface_names,
            fields,
            methods,
            attributes,
            source_file,
        };
        proof {
            assert(Self::spec_instance_klass(self@) matches Ok(kv) && klass@ =~= kv);
        }
        Ok(klass)
    }
}

} // verus!
