//! A verified core of a small managed-code execution engine: it parses a
//! binary class description (constant pool, methods, attributes), decodes
//! method bytecode into a closed instruction set, and executes straight-line
//! method bodies against bounded per-invocation frames, with call and return
//! transitions handled by a thread's call stack.

pub mod error;
pub mod stream;
pub mod constant_pool;
pub mod attribute_info;
pub mod member_info;
pub mod instanced_klass;
pub mod class_file_parser;
pub mod instruction;
pub mod decoder;
pub mod slot;
pub mod descriptor;
pub mod frame;
pub mod class_path;
pub mod class_loader;
pub mod runtime;
pub mod thread;
