//! The runtime: one process-wide class loader shared by every thread, never
//! deep-copied per consumer.

use vstd::prelude::*;

use crate::class_loader::ClassLoader;
use crate::class_path::ClassPath;

verus! {

/// Process-wide interpreter state: the bootstrap class loader.
pub struct Runtime {
    pub boot_loader: Box<ClassLoader>,
}

impl Runtime {
    /// A fresh runtime over the given class path: its loader starts with an
    /// empty registry and has performed no byte-provider read.
    pub fn new(cp: ClassPath) -> (r: Runtime)
        ensures
            r.boot_loader.wf(),
            r.boot_loader.jl_object_class@.len() == 0,
            r.boot_loader.load_keys@.len() == 0,
            r.boot_loader.provider_reads == 0,
            r.boot_loader.class_path == cp,
    {
        let mut loader = ClassLoader::new();
        loader.class_path = cp;
        Runtime { boot_loader: Box::new(loader) }
    }
}

} // verus!
