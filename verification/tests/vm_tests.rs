use std::sync::Arc;

use jvm::attribute_info::{AttributeInfo, CodeAttribute};
use jvm::class_file_parser::ClassFileParser;
use jvm::class_loader::{ClassLoader, ClassPathEntry};
use jvm::class_path::ClassPath;
use jvm::constant_pool::{parse_constant_pool, CpEntry};
use jvm::decoder::decoder;
use jvm::error::VmError;
use jvm::frame::Frame;
use jvm::instanced_klass::InstanceKlass;
use jvm::instruction::Instruction;
use jvm::runtime::Runtime;
use jvm::slot::SlotTag;
use jvm::stream::ClassFileStream;
use jvm::thread::{create_frame, execute_method, Thread};

fn push_u16(out: &mut Vec<u8>, v: u16) {
    out.push((v >> 8) as u8);
    out.push(v as u8);
}

fn push_u32(out: &mut Vec<u8>, v: u32) {
    out.push((v >> 24) as u8);
    out.push((v >> 16) as u8);
    out.push((v >> 8) as u8);
    out.push(v as u8);
}

fn push_utf8(out: &mut Vec<u8>, s: &str) {
    out.push(1);
    push_u16(out, s.len() as u16);
    out.extend_from_slice(s.as_bytes());
}

fn push_class(out: &mut Vec<u8>, name_index: u16) {
    out.push(7);
    push_u16(out, name_index);
}

fn push_methodref(out: &mut Vec<u8>, class_index: u16, nt_index: u16) {
    out.push(10);
    push_u16(out, class_index);
    push_u16(out, nt_index);
}

fn push_fieldref(out: &mut Vec<u8>, class_index: u16, nt_index: u16) {
    out.push(9);
    push_u16(out, class_index);
    push_u16(out, nt_index);
}

fn push_name_and_type(out: &mut Vec<u8>, name_index: u16, desc_index: u16) {
    out.push(12);
    push_u16(out, name_index);
    push_u16(out, desc_index);
}

fn push_string_const(out: &mut Vec<u8>, utf8_index: u16) {
    out.push(8);
    push_u16(out, utf8_index);
}

fn push_code_attribute(
    out: &mut Vec<u8>,
    name_index: u16,
    max_stack: u16,
    max_locals: u16,
    code: &[u8],
) {
    push_u16(out, name_index);
    push_u32(out, (2 + 2 + 4 + code.len() + 2 + 2) as u32);
    push_u16(out, max_stack);
    push_u16(out, max_locals);
    push_u32(out, code.len() as u32);
    out.extend_from_slice(code);
    push_u16(out, 0); // exception table
    push_u16(out, 0); // nested attributes
}

/// The reference fixture: a class `HelloWorld` extending `java/lang/Object`,
/// with a no-argument constructor and a static `main` that prints a string.
fn hello_world_bytes() -> Vec<u8> {
    let mut out: Vec<u8> = Vec::new();
    push_u32(&mut out, 0xCAFE_BABE);
    push_u16(&mut out, 0); // minor_version
    push_u16(&mut out, 52); // major_version
    push_u16(&mut out, 29); // constant_pool_count
    push_methodref(&mut out, 6, 16); // 1: Object.<init>:()V
    push_fieldref(&mut out, 17, 18); // 2: System.out
    push_string_const(&mut out, 13); // 3: "Hello, World"
    push_methodref(&mut out, 19, 20); // 4: PrintStream.println
    push_class(&mut out, 21); // 5: HelloWorld
    push_class(&mut out, 22); // 6: java/lang/Object
    push_utf8(&mut out, "<init>"); // 7
    push_utf8(&mut out, "()V"); // 8
    push_utf8(&mut out, "Code"); // 9
    push_utf8(&mut out, "SourceFile"); // 10
    push_utf8(&mut out, "HelloWorld.java"); // 11
    push_utf8(&mut out, "LineNumberTable"); // 12
    push_utf8(&mut out, "Hello, World"); // 13
    push_utf8(&mut out, "main"); // 14
    push_utf8(&mut out, "([Ljava/lang/String;)V"); // 15
    push_name_and_type(&mut out, 7, 8); // 16
    push_class(&mut out, 23); // 17: java/lang/System
    push_name_and_type(&mut out, 24, 25); // 18
    push_class(&mut out, 26); // 19: java/io/PrintStream
    push_name_and_type(&mut out, 27, 28); // 20
    push_utf8(&mut out, "HelloWorld"); // 21
    push_utf8(&mut out, "java/lang/Object"); // 22
    push_utf8(&mut out, "java/lang/System"); // 23
    push_utf8(&mut out, "out"); // 24
    push_utf8(&mut out, "Ljava/io/PrintStream;"); // 25
    push_utf8(&mut out, "java/io/PrintStream"); // 26
    push_utf8(&mut out, "println"); // 27
    push_utf8(&mut out, "(Ljava/lang/String;)V"); // 28
    push_u16(&mut out, 0x21); // access_flags
    push_u16(&mut out, 5); // this_class
    push_u16(&mut out, 6); // super_class
    push_u16(&mut out, 0); // interfaces_count
    push_u16(&mut out, 0); // fields_count
    push_u16(&mut out, 2); // methods_count
    // method 0: <init>
    push_u16(&mut out, 1);
    push_u16(&mut out, 7);
    push_u16(&mut out, 8);
    push_u16(&mut out, 1);
    push_code_attribute(&mut out, 9, 1, 1, &[0x2a, 0xb7, 0x00, 0x01, 0xb1]);
    // method 1: main
    push_u16(&mut out, 9);
    push_u16(&mut out, 14);
    push_u16(&mut out, 15);
    push_u16(&mut out, 1);
    push_code_attribute(&mut out, 9, 2, 1, &[0xb2, 0x00, 0x02, 0x12, 0x03, 0xb6, 0x00, 0x04, 0xb1]);
    push_u16(&mut out, 1); // class attributes
    push_u16(&mut out, 10); // SourceFile
    push_u32(&mut out, 2);
    push_u16(&mut out, 11); // "HelloWorld.java"
    out
}

/// A stand-in for `java/lang/Object`: one no-argument constructor whose body
/// is a bare return. Its super entry names itself, since this core resolves
/// every super index.
fn object_bytes() -> Vec<u8> {
    let mut out: Vec<u8> = Vec::new();
    push_u32(&mut out, 0xCAFE_BABE);
    push_u16(&mut out, 0);
    push_u16(&mut out, 52);
    push_u16(&mut out, 6);
    push_class(&mut out, 5); // 1
    push_utf8(&mut out, "<init>"); // 2
    push_utf8(&mut out, "()V"); // 3
    push_utf8(&mut out, "Code"); // 4
    push_utf8(&mut out, "java/lang/Object"); // 5
    push_u16(&mut out, 0x21);
    push_u16(&mut out, 1);
    push_u16(&mut out, 1);
    push_u16(&mut out, 0);
    push_u16(&mut out, 0);
    push_u16(&mut out, 1);
    push_u16(&mut out, 1);
    push_u16(&mut out, 2);
    push_u16(&mut out, 3);
    push_u16(&mut out, 1);
    push_code_attribute(&mut out, 4, 0, 1, &[0xb1]);
    push_u16(&mut out, 0);
    out
}

/// A stand-in for `java/io/PrintStream` with a `println` taking one string:
/// its body is a bare return, and its two locals receive the receiver and the
/// argument.
fn print_stream_bytes() -> Vec<u8> {
    let mut out: Vec<u8> = Vec::new();
    push_u32(&mut out, 0xCAFE_BABE);
    push_u16(&mut out, 0);
    push_u16(&mut out, 52);
    push_u16(&mut out, 6);
    push_class(&mut out, 5); // 1
    push_utf8(&mut out, "println"); // 2
    push_utf8(&mut out, "(Ljava/lang/String;)V"); // 3
    push_utf8(&mut out, "Code"); // 4
    push_utf8(&mut out, "java/io/PrintStream"); // 5
    push_u16(&mut out, 0x21);
    push_u16(&mut out, 1);
    push_u16(&mut out, 1);
    push_u16(&mut out, 0);
    push_u16(&mut out, 0);
    push_u16(&mut out, 1);
    push_u16(&mut out, 1);
    push_u16(&mut out, 2);
    push_u16(&mut out, 3);
    push_u16(&mut out, 1);
    push_code_attribute(&mut out, 4, 0, 2, &[0xb1]);
    push_u16(&mut out, 0);
    out
}

fn build_klass() -> InstanceKlass {
    let path = "testdata/java8/HelloWorld.Class";
    let mut class_loader = ClassLoader::new();
    class_loader
        .class_path
        .add_entry(ClassPathEntry::new(String::from(path), hello_world_bytes()));
    class_loader.build_user_class(String::from(path)).unwrap()
}

/// A runtime whose class path holds the fixture and its collaborators, with
/// all three loaded: HelloWorld at registry index 0.
fn loaded_thread() -> Thread {
    let mut cp = ClassPath::new();
    cp.add_entry(ClassPathEntry::new(String::from("HelloWorld"), hello_world_bytes()));
    cp.add_entry(ClassPathEntry::new(String::from("java/lang/Object"), object_bytes()));
    cp.add_entry(ClassPathEntry::new(String::from("java/io/PrintStream"), print_stream_bytes()));
    let mut runtime = Runtime::new(cp);
    runtime.boot_loader.init(String::from("HelloWorld")).unwrap();
    runtime.boot_loader.init(String::from("java/lang/Object")).unwrap();
    runtime.boot_loader.init(String::from("java/io/PrintStream")).unwrap();
    Thread::new(runtime)
}

#[test]
fn test_load_class() {
    let klass = build_klass();

    assert_eq!(0, klass.minor_version);
    assert_eq!(52, klass.major_version);
    assert_eq!(klass.constant_pool_count as usize, klass.constant_pool_entries.len());
    assert_eq!("HelloWorld", klass.klass_name);
    assert_eq!("java/lang/Object", klass.super_klass_name);
    assert_eq!(0, klass.interfaces.len());
    assert_eq!(2, klass.methods.len());
    let info = klass.methods[0].clone();
    assert_eq!(1, info.attribute_table.len());

    let method2 = klass.methods[1].clone();
    assert_eq!(1, method2.attribute_table.len());

    assert_eq!(1, klass.attributes.len());
}

#[test]
fn test_load_methods() {
    let klass = build_klass();
    assert_eq!(1, klass.methods[0].access_flags);
    assert_eq!(7, klass.methods[0].name_index);
    assert_eq!(8, klass.methods[0].descriptor_index);
    let attribute_info = klass.methods[0].attribute_table[0].clone();
    match attribute_info {
        AttributeInfo::Code(code) => {
            assert_eq!(1, code.max_stack);
            assert_eq!(1, code.max_locals);
            assert_eq!(0, code.exception_table.len());
            assert_eq!(5, code.code.len());
        },
        _ => {
            assert!(false)
        },
    }

    assert_eq!(9, klass.methods[1].access_flags);
    assert_eq!(14, klass.methods[1].name_index);
    assert_eq!(15, klass.methods[1].descriptor_index);
    let attribute_info = klass.methods[1].attribute_table[0].clone();
    match attribute_info {
        AttributeInfo::Code(code) => {
            assert_eq!(2, code.max_stack);
            assert_eq!(1, code.max_locals);
            assert_eq!(0, code.exception_table.len());
            assert_eq!(9, code.code.len());
        },
        _ => {
            assert!(false)
        },
    }
}

#[test]
fn test_load_attr() {
    let klass = build_klass();
    for attr in klass.attributes {
        match attr {
            AttributeInfo::SourceFile(_) => {
                assert!(true)
            },
            _ => {
                assert!(false)
            },
        }
    }
}

#[test]
fn test_load_source_file() {
    let klass = build_klass();
    assert_eq!("HelloWorld.java", klass.source_file);
}

#[test]
fn test_vec() {
    let v = Vec::from("Ljava/lang/Object;");
    let v = Arc::new(v);
    println!("{:?}", v);
}

#[test]
fn test_stack() {
    let mut cp = ClassPath::new();
    cp.add_entry(ClassPathEntry::new(
        String::from("testdata/java8/HelloWorld.Class"),
        hello_world_bytes(),
    ));
    let runtime = Runtime::new(cp);
    let source = String::from("testdata/java8/HelloWorld.Class");
    let mut class_loader = runtime.boot_loader;
    class_loader.init(source).unwrap();
    assert_eq!(1, class_loader.jl_object_class.len());
}

#[test]
fn test_frame() {
    let mut thread = loaded_thread();
    let klass = thread.runtime.boot_loader.class_at(0).clone();
    let first = klass.methods[0].clone();
    let second = klass.methods[1].clone();
    let cp = klass.constant_pool_entries.clone();

    create_frame(&first, 0, &mut thread).unwrap();

    let first_code = match &first.attribute_table[0] {
        AttributeInfo::Code(c) => c.code.clone(),
        _ => panic!(),
    };
    let mut frame1 = thread.new_frame(&first, 0).unwrap();
    let first_execs = execute_method(&mut frame1, first_code, &cp).unwrap();
    assert_eq!(5, first_execs.len());

    let second_code = match &second.attribute_table[0] {
        AttributeInfo::Code(c) => c.code.clone(),
        _ => panic!(),
    };
    let mut frame2 = thread.new_frame(&second, 0).unwrap();
    let execs = execute_method(&mut frame2, second_code, &cp).unwrap();
    assert_eq!(9, execs.len());
}

// The parsed constant-pool table has one slot per declared index: its length
// is the declared count, with index 0 reserved.
#[test]
fn constant_pool_entry_count_is_count_minus_one() {
    let klass = build_klass();
    assert_eq!(29, klass.constant_pool_count);
    assert_eq!(29, klass.constant_pool_entries.len());
    assert_eq!(CpEntry::Unused, klass.constant_pool_entries[0]);
    // 28 parsed entries stand at indices 1 through 28
    assert!(klass.constant_pool_entries[1..].iter().all(|e| *e != CpEntry::Unused));
}

// A Long or Double entry reserves two table slots: the one after it is unused.
#[test]
fn long_constant_occupies_two_slots() {
    let mut bytes: Vec<u8> = Vec::new();
    bytes.push(5); // Long tag
    push_u32(&mut bytes, 1);
    push_u32(&mut bytes, 2);
    let mut stream = ClassFileStream::new(bytes);
    let entries = parse_constant_pool(&mut stream, 3).unwrap();
    assert_eq!(3, entries.len());
    assert_eq!(CpEntry::Unused, entries[0]);
    assert_eq!(CpEntry::Long(0x1_0000_0002), entries[1]);
    assert_eq!(CpEntry::Unused, entries[2]);
}

// Method 0 decodes to exactly 5 offset slots, method 1 to exactly 9, with
// the expected variants and operand values at the start offsets.
#[test]
fn decode_counts_and_variants() {
    let init_code = vec![0x2a, 0xb7, 0x00, 0x01, 0xb1];
    let d = decoder(init_code).unwrap();
    assert_eq!(5, d.len());
    assert_eq!(Some(Instruction::OpALoad0), d[0].ins);
    assert_eq!(Some(Instruction::OpInvokeSpecial(1)), d[1].ins);
    assert_eq!(None, d[2].ins);
    assert_eq!(None, d[3].ins);
    assert_eq!(Some(Instruction::OpReturn), d[4].ins);

    let main_code = vec![0xb2, 0x00, 0x02, 0x12, 0x03, 0xb6, 0x00, 0x04, 0xb1];
    let d = decoder(main_code).unwrap();
    assert_eq!(9, d.len());
    assert_eq!(Some(Instruction::OpGetStatic(2)), d[0].ins);
    assert_eq!(Some(Instruction::OpLDC(3)), d[3].ins);
    assert_eq!(Some(Instruction::OpInvokeVirtual(4)), d[5].ins);
    assert_eq!(Some(Instruction::OpReturn), d[8].ins);
}

// Decoding identical byte sequences twice yields structurally equal results.
#[test]
fn decode_is_deterministic() {
    let code = vec![0x00, 0x01, 0x02, 0x12, 0x07, 0x2a, 0xb7, 0x00, 0x01, 0xb1];
    let once = decoder(code.clone()).unwrap();
    let twice = decoder(code).unwrap();
    assert_eq!(once, twice);
}

// An opcode outside the recognized set decodes to the distinct unrecognized
// marker, and executing it fails with UnsupportedOpcode.
#[test]
fn unrecognized_opcode_is_not_a_nop() {
    let d = decoder(vec![0xff]).unwrap();
    assert_eq!(Some(Instruction::OpUnrecognized(0xff)), d[0].ins);
    assert_ne!(Some(Instruction::OpNop), d[0].ins);

    let code = CodeAttribute {
        max_stack: 1,
        max_locals: 0,
        code: vec![0xff],
        exception_table: Vec::new(),
        attributes: Vec::new(),
    };
    let mut frame = Frame::new(0, &code, false).unwrap();
    let cp: Vec<CpEntry> = Vec::new();
    let r = execute_method(&mut frame, vec![0xff], &cp);
    assert_eq!(Err(VmError::UnsupportedOpcode(0xff)), r);
}

// A truncated instruction fails decoding with TruncatedInput.
#[test]
fn truncated_operands_fail_decode() {
    assert_eq!(Err(VmError::TruncatedInput), decoder(vec![0xb7, 0x00]));
}

// A push beyond max_stack raises OperandStackOverflow and never truncates:
// the stack still holds exactly what it held.
#[test]
fn operand_stack_overflow_is_raised() {
    let code = CodeAttribute {
        max_stack: 1,
        max_locals: 0,
        // two pushes against a bound of one
        code: vec![0x03, 0x04, 0xb1],
        exception_table: Vec::new(),
        attributes: Vec::new(),
    };
    let mut frame = Frame::new(0, &code, false).unwrap();
    let cp: Vec<CpEntry> = Vec::new();
    let r = execute_method(&mut frame, vec![0x03, 0x04, 0xb1], &cp);
    assert_eq!(Err(VmError::OperandStackOverflow), r);
    assert_eq!(1, frame.operand_stack.len());
    assert_eq!(SlotTag::Int, frame.operand_stack[0].tag);
    assert_eq!(0, frame.operand_stack[0].num);
}

// The compact integer forms push their literals; the stack grows one slot
// per push up to the bound.
#[test]
fn const_instructions_push_expected_values() {
    let code = CodeAttribute {
        max_stack: 3,
        max_locals: 0,
        code: vec![0x02, 0x03, 0x04],
        exception_table: Vec::new(),
        attributes: Vec::new(),
    };
    let mut frame = Frame::new(0, &code, false).unwrap();
    let cp: Vec<CpEntry> = Vec::new();
    execute_method(&mut frame, vec![0x02, 0x03, 0x04], &cp).unwrap();
    assert_eq!(3, frame.operand_stack.len());
    assert_eq!(-1, frame.operand_stack[0].num);
    assert_eq!(0, frame.operand_stack[1].num);
    assert_eq!(1, frame.operand_stack[2].num);
}

// Loading the reference class at local 0 with no locals declared fails with
// InvalidLocalSlot.
#[test]
fn aload_without_locals_fails() {
    let code = CodeAttribute {
        max_stack: 1,
        max_locals: 0,
        code: vec![0x2a, 0xb1],
        exception_table: Vec::new(),
        attributes: Vec::new(),
    };
    let mut frame = Frame::new(0, &code, false).unwrap();
    let cp: Vec<CpEntry> = Vec::new();
    let r = execute_method(&mut frame, vec![0x2a, 0xb1], &cp);
    assert_eq!(Err(VmError::InvalidLocalSlot), r);
}

// A wrong magic value is refused as InvalidMagic — including the byte
// reversal of the true constant, since the magic is read big-endian.
#[test]
fn wrong_magic_is_refused() {
    let mut bytes: Vec<u8> = Vec::new();
    push_u32(&mut bytes, 0xBEBA_FECA);
    push_u16(&mut bytes, 0);
    push_u16(&mut bytes, 52);
    push_u16(&mut bytes, 1);
    let r = ClassFileParser::new(ClassFileStream::new(bytes));
    assert!(matches!(r, Err(VmError::InvalidMagic)));
}

// A file that ends inside a field fails with TruncatedInput.
#[test]
fn truncated_file_is_refused() {
    let r = ClassFileParser::new(ClassFileStream::new(vec![0xCA, 0xFE]));
    assert!(matches!(r, Err(VmError::TruncatedInput)));

    let mut bytes: Vec<u8> = Vec::new();
    push_u32(&mut bytes, 0xCAFE_BABE);
    push_u16(&mut bytes, 0);
    let r = ClassFileParser::new(ClassFileStream::new(bytes));
    assert!(matches!(r, Err(VmError::TruncatedInput)));
}

// A constant-pool tag outside the supported set is refused, carrying the tag.
#[test]
fn unsupported_constant_tag_is_refused() {
    let mut bytes: Vec<u8> = Vec::new();
    push_u32(&mut bytes, 0xCAFE_BABE);
    push_u16(&mut bytes, 0);
    push_u16(&mut bytes, 52);
    push_u16(&mut bytes, 2);
    bytes.push(99);
    let r = ClassFileParser::new(ClassFileStream::new(bytes));
    assert!(matches!(r, Err(VmError::UnsupportedConstantKind(99))));
}

// Big-endian multi-byte fields: a version whose two bytes differ parses to
// hi * 256 + lo, and the header fields land where declared.
#[test]
fn header_fields_read_big_endian() {
    let mut bytes: Vec<u8> = Vec::new();
    push_u32(&mut bytes, 0xCAFE_BABE);
    push_u16(&mut bytes, 0x0102); // minor
    push_u16(&mut bytes, 0x0201); // major
    push_u16(&mut bytes, 1); // empty pool
    push_u16(&mut bytes, 0); // access
    push_u16(&mut bytes, 0); // this
    push_u16(&mut bytes, 0); // super
    push_u16(&mut bytes, 0);
    push_u16(&mut bytes, 0);
    push_u16(&mut bytes, 0);
    push_u16(&mut bytes, 0);
    let parser = ClassFileParser::new(ClassFileStream::new(bytes)).unwrap();
    assert_eq!(258, parser.minor_version);
    assert_eq!(513, parser.major_version);
    assert_eq!(1, parser.constant_pool_count);
    assert_eq!(1, parser.constant_pool_entries.len());
    // index 0 is reserved, so this_class = 0 cannot resolve to a name
    let r = parser.create_instance_klass();
    assert!(matches!(r, Err(VmError::UnresolvedConstantPoolEntry(0))));
}

// A text constant whose bytes are not well-formed UTF-8 is refused when a
// name resolves through it.
#[test]
fn invalid_utf8_name_is_refused() {
    let mut bytes: Vec<u8> = Vec::new();
    push_u32(&mut bytes, 0xCAFE_BABE);
    push_u16(&mut bytes, 0);
    push_u16(&mut bytes, 52);
    push_u16(&mut bytes, 3);
    push_class(&mut bytes, 2); // 1
    bytes.push(1); // 2: Utf8, two invalid bytes
    push_u16(&mut bytes, 2);
    bytes.push(0xff);
    bytes.push(0xfe);
    push_u16(&mut bytes, 0); // access
    push_u16(&mut bytes, 1); // this
    push_u16(&mut bytes, 1); // super
    push_u16(&mut bytes, 0);
    push_u16(&mut bytes, 0);
    push_u16(&mut bytes, 0);
    push_u16(&mut bytes, 0);
    let parser = ClassFileParser::new(ClassFileStream::new(bytes)).unwrap();
    let r = parser.create_instance_klass();
    assert!(matches!(r, Err(VmError::InvalidUtf8)));
}

// A name the class path does not hold fails with ClassNotFound, and the
// failed load performs no byte-provider read.
#[test]
fn missing_class_is_not_found() {
    let mut loader = ClassLoader::new();
    let r = loader.build_user_class(String::from("NoSuchClass"));
    assert!(matches!(r, Err(VmError::ClassNotFound)));
    assert_eq!(0, loader.provider_reads);
}

// Loader idempotence: two loads of one name return the same descriptor —
// identical constant pools — and the second performs no byte-provider read.
#[test]
fn load_twice_reads_once() {
    let mut loader = ClassLoader::new();
    loader
        .class_path
        .add_entry(ClassPathEntry::new(String::from("HelloWorld"), hello_world_bytes()));
    let first = loader.load(&String::from("HelloWorld")).unwrap();
    assert_eq!(1, loader.provider_reads);
    let second = loader.load(&String::from("HelloWorld")).unwrap();
    assert_eq!(first, second);
    assert_eq!(1, loader.provider_reads);
    assert_eq!(1, loader.jl_object_class.len());
    let pool_first = loader.jl_object_class[first].constant_pool_entries.clone();
    let pool_second = loader.jl_object_class[second].constant_pool_entries.clone();
    assert_eq!(pool_first, pool_second);
}

// Invocation argument passing: an invoke whose descriptor declares one
// argument moves exactly two slots — receiver and argument — from the
// caller's operand stack into callee locals 0 and 1, preserving order.
#[test]
fn invoke_copies_receiver_and_arguments_in_order() {
    let mut thread = loaded_thread();
    let klass = thread.runtime.boot_loader.class_at(0).clone();
    let main_method = klass.methods[1].clone();
    create_frame(&main_method, 0, &mut thread).unwrap();
    // getstatic #2 pushes the receiver, ldc #3 pushes the argument
    assert_eq!(Ok(false), thread.step());
    assert_eq!(Ok(false), thread.step());
    {
        let caller = thread.current_frame().unwrap();
        assert_eq!(2, caller.operand_stack.len());
    }
    // invokevirtual #4: both slots move into println's locals
    assert_eq!(Ok(false), thread.step());
    let callee = thread.current_frame().unwrap();
    assert_eq!(2, callee.klass_index); // java/io/PrintStream is the third class loaded
    assert_eq!(0, callee.operand_stack.len());
    assert_eq!(2, callee.locals.len());
    assert_eq!(SlotTag::ObjectRef, callee.locals[0].tag);
    assert_eq!(2, callee.locals[0].num); // the receiver, pushed first, lands in local 0
    assert_eq!(SlotTag::ObjectRef, callee.locals[1].tag);
    assert_eq!(3, callee.locals[1].num); // the argument lands in local 1
}

// A whole invocation chain runs to completion: the constructor and main both
// terminate the thread through the return transitions.
#[test]
fn execute_runs_both_methods_to_completion() {
    let mut thread = loaded_thread();
    assert_eq!(Ok(true), thread.execute(0, 0, 100));
    assert_eq!(0, thread.stack.len());
    assert_eq!(Ok(true), thread.execute(0, 1, 100));
    assert_eq!(0, thread.stack.len());
}

// Invoking against a registry that lacks the target class fails with
// UnknownClass; a target class without the named method fails with
// UnknownMethod.
#[test]
fn invoke_unknown_targets_fail() {
    // only HelloWorld loaded: Object is absent
    let mut cp = ClassPath::new();
    cp.add_entry(ClassPathEntry::new(String::from("HelloWorld"), hello_world_bytes()));
    let mut runtime = Runtime::new(cp);
    runtime.boot_loader.init(String::from("HelloWorld")).unwrap();
    let mut thread = Thread::new(runtime);
    let r = thread.execute(0, 0, 100);
    assert_eq!(Err(VmError::UnknownClass), r);

    let r = thread.execute(0, 5, 100);
    assert_eq!(Err(VmError::UnknownMethod), r);
}

// A non-void method whose body returns without pushing a value underflows at
// the return transition.
#[test]
fn value_return_from_empty_stack_underflows() {
    let mut bytes: Vec<u8> = Vec::new();
    push_u32(&mut bytes, 0xCAFE_BABE);
    push_u16(&mut bytes, 0);
    push_u16(&mut bytes, 52);
    push_u16(&mut bytes, 6);
    push_class(&mut bytes, 5); // 1
    push_utf8(&mut bytes, "get"); // 2
    push_utf8(&mut bytes, "()I"); // 3
    push_utf8(&mut bytes, "Code"); // 4
    push_utf8(&mut bytes, "Broken"); // 5
    push_u16(&mut bytes, 0x21);
    push_u16(&mut bytes, 1);
    push_u16(&mut bytes, 1);
    push_u16(&mut bytes, 0);
    push_u16(&mut bytes, 0);
    push_u16(&mut bytes, 1);
    push_u16(&mut bytes, 1);
    push_u16(&mut bytes, 2);
    push_u16(&mut bytes, 3);
    push_u16(&mut bytes, 1);
    push_code_attribute(&mut bytes, 4, 1, 1, &[0xb1]);
    push_u16(&mut bytes, 0);
    let mut cp = ClassPath::new();
    cp.add_entry(ClassPathEntry::new(String::from("Broken"), bytes));
    let mut runtime = Runtime::new(cp);
    runtime.boot_loader.init(String::from("Broken")).unwrap();
    let mut thread = Thread::new(runtime);
    assert_eq!(Err(VmError::OperandStackUnderflow), thread.execute(0, 0, 100));
}

// An unknown attribute name is retained as an opaque blob with its declared
// bytes, never failing the load.
#[test]
fn unknown_attribute_is_retained() {
    let klass = build_klass();
    // the fixture's methods carry only Code attributes; craft one with a
    // LineNumberTable-named blob alongside
    let mut bytes = hello_world_bytes();
    // rewrite the class-level attribute name index (10: SourceFile) to 12
    // (LineNumberTable) so the attribute is kept as a blob instead
    let len = bytes.len();
    bytes[len - 8] = 0;
    bytes[len - 7] = 12;
    let mut loader = ClassLoader::new();
    loader.class_path.add_entry(ClassPathEntry::new(String::from("X"), bytes));
    let blob_klass = loader.build_user_class(String::from("X")).unwrap();
    match &blob_klass.attributes[0] {
        AttributeInfo::Raw(raw) => {
            assert_eq!(b"LineNumberTable".to_vec(), raw.name);
            assert_eq!(vec![0, 11], raw.info);
        },
        _ => panic!(),
    }
    assert_eq!("", blob_klass.source_file);
    assert_eq!(klass.klass_name, blob_klass.klass_name);
}

// The thread-pool lock is vacuous in the single-threaded scope: sleeping and
// unlocking change nothing observable.
#[test]
fn lock_operations_change_nothing() {
    let mut thread = loaded_thread();
    thread.invoke_method_with_shim();
    assert_eq!(1, thread.stack.len());
    thread.sleep();
    thread.unlock();
    assert_eq!(1, thread.stack.len());
    // the shim frame is one bare return: stepping it terminates the thread
    assert_eq!(Ok(true), thread.step());
}

// The general load-constant form pushes an integer constant's signed value:
// the stored big-endian bit pattern 0xFFFFFFFB is the 32-bit integer -5.
#[test]
fn ldc_pushes_signed_integer_constant() {
    let code = CodeAttribute {
        max_stack: 1,
        max_locals: 0,
        code: vec![0x12, 0x01, 0xb1],
        exception_table: Vec::new(),
        attributes: Vec::new(),
    };
    let mut frame = Frame::new(0, &code, false).unwrap();
    let cp = vec![CpEntry::Unused, CpEntry::Integer(0xFFFF_FFFB)];
    execute_method(&mut frame, vec![0x12, 0x01, 0xb1], &cp).unwrap();
    assert_eq!(1, frame.operand_stack.len());
    assert_eq!(SlotTag::Int, frame.operand_stack[0].tag);
    assert_eq!(-5, frame.operand_stack[0].num);
}

// The exception table of a Code attribute is parsed field by field, though
// execution does not yet consume it.
#[test]
fn exception_table_is_parsed() {
    let mut bytes: Vec<u8> = Vec::new();
    push_u16(&mut bytes, 1); // attribute_name_index -> "Code"
    push_u32(&mut bytes, 2 + 2 + 4 + 1 + 2 + 8 + 2);
    push_u16(&mut bytes, 1); // max_stack
    push_u16(&mut bytes, 0); // max_locals
    push_u32(&mut bytes, 1); // code_length
    bytes.push(0xb1);
    push_u16(&mut bytes, 1); // exception_table_length
    push_u16(&mut bytes, 1);
    push_u16(&mut bytes, 2);
    push_u16(&mut bytes, 3);
    push_u16(&mut bytes, 4);
    push_u16(&mut bytes, 0); // nested attributes
    let cp = vec![CpEntry::Unused, CpEntry::Utf8(b"Code".to_vec())];
    let mut stream = ClassFileStream::new(bytes);
    match jvm::attribute_info::parse_attribute(&mut stream, &cp).unwrap() {
        AttributeInfo::Code(c) => {
            assert_eq!(1, c.exception_table.len());
            assert_eq!(1, c.exception_table[0].start_pc);
            assert_eq!(2, c.exception_table[0].end_pc);
            assert_eq!(3, c.exception_table[0].handler_pc);
            assert_eq!(4, c.exception_table[0].catch_type);
        },
        _ => panic!(),
    }
}

// Interface indices resolve to class names in declared order.
#[test]
fn interfaces_resolve_to_names() {
    let mut bytes: Vec<u8> = Vec::new();
    push_u32(&mut bytes, 0xCAFE_BABE);
    push_u16(&mut bytes, 0);
    push_u16(&mut bytes, 52);
    push_u16(&mut bytes, 5);
    push_class(&mut bytes, 3); // 1: A
    push_class(&mut bytes, 4); // 2: I
    push_utf8(&mut bytes, "A"); // 3
    push_utf8(&mut bytes, "I"); // 4
    push_u16(&mut bytes, 0x21);
    push_u16(&mut bytes, 1); // this
    push_u16(&mut bytes, 1); // super
    push_u16(&mut bytes, 1); // interfaces_count
    push_u16(&mut bytes, 2);
    push_u16(&mut bytes, 0);
    push_u16(&mut bytes, 0);
    push_u16(&mut bytes, 0);
    let klass = ClassFileParser::new(ClassFileStream::new(bytes))
        .unwrap()
        .create_instance_klass()
        .unwrap();
    assert_eq!("A", klass.klass_name);
    assert_eq!(vec![String::from("I")], klass.interfaces);
}

// A Long declared where only the last table slot remains cannot place its
// reserved shadow slot: a distinct failure, since the tag itself is
// supported.
#[test]
fn long_in_last_slot_overflows_the_pool() {
    let mut bytes: Vec<u8> = Vec::new();
    bytes.push(5); // Long tag
    push_u32(&mut bytes, 0);
    push_u32(&mut bytes, 7);
    let mut stream = ClassFileStream::new(bytes);
    let r = parse_constant_pool(&mut stream, 2);
    assert_eq!(Err(VmError::ConstantPoolOverflow), r);
}

// Loader idempotence holds for the requested name itself: a class loaded
// under a path-style key that differs from its resolved name is answered from
// the cache on the second load — same index, identical constant pool, and no
// additional byte-provider read.
#[test]
fn load_twice_under_path_key_reads_once() {
    let path = String::from("testdata/java8/HelloWorld.Class");
    let mut loader = ClassLoader::new();
    loader
        .class_path
        .add_entry(ClassPathEntry::new(path.clone(), hello_world_bytes()));
    let first = loader.load(&path).unwrap();
    assert_eq!(1, loader.provider_reads);
    let second = loader.load(&path).unwrap();
    assert_eq!(first, second);
    assert_eq!(1, loader.provider_reads);
    assert_eq!(1, loader.jl_object_class.len());
    assert_eq!(
        loader.jl_object_class[first].constant_pool_entries,
        loader.jl_object_class[second].constant_pool_entries
    );
    // the resolved name differs from the key the class was loaded under
    assert_eq!("HelloWorld", loader.jl_object_class[first].klass_name);

    // init goes through the same cache: a third request changes nothing
    loader.init(path).unwrap();
    assert_eq!(1, loader.provider_reads);
    assert_eq!(1, loader.jl_object_class.len());
}
