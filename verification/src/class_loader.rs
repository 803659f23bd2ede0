//! The class loader: the process-wide registry mapping class names to parsed
//! class descriptors. A load resolves the name against the class path's byte
//! table, parses the bytes, and registers the descriptor; a later load of the
//! same name returns the registered descriptor without touching the byte
//! provider again.

use vstd::prelude::*;

use crate::class_file_parser::{spec_parse_class, ClassFileParser};
use crate::class_path::{spec_classpath_find, ClassPath};
use crate::error::VmError;
use crate::instanced_klass::{InstanceKlass, InstanceKlassView};
use crate::stream::ClassFileStream;

verus! {

/// One resolved byte source of the class path: a class name and the raw
/// bytes the byte provider returned for it.
pub struct ClassPathEntry {
    pub name: String,
    pub data: Vec<u8>,
}

#[verifier::ext_equal]
pub struct ClassPathEntryView {
    pub name: Seq<char>,
    pub data: Seq<u8>,
}

impl View for ClassPathEntry {
    type V = ClassPathEntryView;

    open spec fn view(&self) -> ClassPathEntryView {
        ClassPathEntryView { name: self.name@, data: self.data@ }
    }
}

impl DeepView for ClassPathEntry {
    type V = ClassPathEntryView;

    open spec fn deep_view(&self) -> ClassPathEntryView {
        self.view()
    }
}

impl ClassPathEntry {
    pub fn new(name: String, data: Vec<u8>) -> (r: ClassPathEntry)
        ensures
            r.name == name,
            r.data == data,
    {
        ClassPathEntry { name, data }
    }
}

/// The registered class with name `name`, searching from index `from`.
pub open spec fn spec_find_class_from(
    reg: Seq<InstanceKlassView>,
    name: Seq<char>,
    from: int,
) -> Option<int>
    decreases reg.len() - from,
{
    if from < 0 || from >= reg.len() {
        None
    } else if reg[from].klass_name == name {
        Some(from)
    } else {
        spec_find_class_from(reg, name, from + 1)
    }
}

/// The index of the first registered class with name `name`.
pub open spec fn spec_find_class(reg: Seq<InstanceKlassView>, name: Seq<char>) -> Option<int> {
    spec_find_class_from(reg, name, 0)
}

/// What building a class from the class path yields: the bytes held for the
/// name, parsed and resolved into a descriptor; `ClassNotFound` when the
/// class path holds none.
pub open spec fn spec_build_user_class(
    cpath: Seq<ClassPathEntryView>,
    name: Seq<char>,
) -> Result<InstanceKlassView, VmError> {
    match spec_classpath_find(cpath, name) {
        None => Err(VmError::ClassNotFound),
        Some(bytes) => match spec_parse_class(bytes) {
            Err(e) => Err(e),
            Ok(p) => ClassFileParser::spec_instance_klass(p),
        },
    }
}

/// How many byte-provider reads a build performs: one when the class path
/// holds bytes for the name, none when it does not.
pub open spec fn spec_reads_of_build(cpath: Seq<ClassPathEntryView>, name: Seq<char>) -> int {
    if spec_classpath_find(cpath, name) is Some {
        1
    } else {
        0
    }
}

/// The name each registered class was requested under, searching from index
/// `from`: the registry cache is keyed by the requested name, not by the
/// descriptor's resolved name, so a class loaded under a path-style name is
/// found again under that same name.
pub open spec fn spec_find_key_from(keys: Seq<Seq<char>>, name: Seq<char>, from: int) -> Option<
    int,
>
    decreases keys.len() - from,
{
    if from < 0 || from >= keys.len() {
        None
    } else if keys[from] == name {
        Some(from)
    } else {
        spec_find_key_from(keys, name, from + 1)
    }
}

/// The index of the first registry entry loaded under `name`.
pub open spec fn spec_find_key(keys: Seq<Seq<char>>, name: Seq<char>) -> Option<int> {
    spec_find_key_from(keys, name, 0)
}

/// The process-wide class registry and its byte source.
pub struct ClassLoader {
    /// The registry of loaded classes, in load order.
    pub jl_object_class: Vec<InstanceKlass>,
    /// The name each registry entry was requested under: `load_keys[i]` is
    /// the cache key of `jl_object_class[i]`.
    pub load_keys: Vec<String>,
    /// The byte table the external class-path collaborator filled.
    pub class_path: ClassPath,
    /// How many byte-provider reads this loader has performed.
    pub provider_reads: usize,
}

impl ClassLoader {
    /// Exactly one cache key per registered class.
    pub open spec fn wf(&self) -> bool {
        self.load_keys@.len() == self.jl_object_class@.len()
    }

    pub fn new() -> (r: ClassLoader)
        ensures
            r.wf(),
            r.jl_object_class@.len() == 0,
            r.load_keys@.len() == 0,
            r.class_path.entries@.len() == 0,
            r.provider_reads == 0,
    {
        ClassLoader {
            jl_object_class: Vec::new(),
            load_keys: Vec::new(),
            class_path: ClassPath::new(),
            provider_reads: 0,
        }
    }

    /// The registry index of the first class loaded under the requested
    /// name, as recorded at load time.
    pub fn find_loaded(&self, name: &String) -> (r: Option<usize>)
        ensures
            match spec_find_key(self.load_keys.deep_view(), name@) {
                Some(i) => r matches Some(v) && v == i,
                None => r is None,
            },
            r matches Some(v) ==> v < self.load_keys@.len(),
    {
        let ghost keys = self.load_keys.deep_view();
        let n = self.load_keys.len();
        let mut i: usize = 0;
        while i < n
            invariant
                n == self.load_keys@.len(),
                i <= n,
                keys == self.load_keys.deep_view(),
                spec_find_key_from(keys, name@, 0) == spec_find_key_from(keys, name@, i as int),
            decreases n - i,
        {
            proof {
                assert(keys[i as int] == self.load_keys@[i as int]@);
            }
            if self.load_keys[i].eq(name) {
                return Some(i);
            }
            i = i + 1;
        }
        None
    }

    /// Maps a class name to the identifier the byte table is keyed by; the
    /// two coincide in this core.
    pub fn file_name_for_class_name(&self, class_name: String) -> (r: String)
        ensures
            r == class_name,
    {
        class_name
    }

    /// The registry index of the first loaded class whose resolved name —
    /// the descriptor's own `this_class` — is `name`. Invocation resolution
    /// looks classes up this way; the load cache is keyed by the requested
    /// name instead (see `find_loaded`).
    pub fn find_class(&self, name: &String) -> (r: Option<usize>)
        ensures
            match spec_find_class(self.jl_object_class.deep_view(), name@) {
                Some(i) => r matches Some(v) && v == i,
                None => r is None,
            },
            r matches Some(v) ==> v < self.jl_object_class@.len(),
    {
        let ghost reg = self.jl_object_class.deep_view();
        let n = self.jl_object_class.len();
        let mut i: usize = 0;
        while i < n
            invariant
                n == self.jl_object_class@.len(),
                i <= n,
                reg == self.jl_object_class.deep_view(),
                spec_find_class_from(reg, name@, 0) == spec_find_class_from(reg, name@, i as int),
            decreases n - i,
        {
            proof {
                assert(reg[i as int] == self.jl_object_class@[i as int]@);
            }
            if self.jl_object_class[i].klass_name.eq(name) {
                return Some(i);
            }
            i = i + 1;
        }
        None
    }

    /// Asks the byte provider for the bytes of `class_name`: one counted
    /// read when the class path holds them, `ClassNotFound` otherwise.
    fn read_class_bytes(&mut self, class_name: &String) -> (r: Result<Vec<u8>, VmError>)
        requires
            old(self).provider_reads < usize::MAX,
        ensures
            final(self).jl_object_class == old(self).jl_object_class,
            final(self).load_keys == old(self).load_keys,
            final(self).class_path == old(self).class_path,
            final(self).provider_reads == old(self).provider_reads + spec_reads_of_build(
                old(self).class_path.entries.deep_view(),
                class_name@,
            ),
            match spec_classpath_find(old(self).class_path.entries.deep_view(), class_name@) {
                Some(data) => r matches Ok(v) && v@ == data,
                None => r matches Err(e) && e == VmError::ClassNotFound,
            },
    {
        match self.class_path.find(class_name) {
            Some(data) => {
                self.provider_reads = self.provider_reads + 1;
                Ok(data)
            },
            None => Err(VmError::ClassNotFound),
        }
    }

    /// Obtains the bytes for `class_name`, parses them, and resolves the
    /// descriptor, registering nothing: the parsed class is handed to the
    /// caller alone.
    pub fn build_user_class(&mut self, class_name: String) -> (r: Result<InstanceKlass, VmError>)
        requires
            old(self).provider_reads < usize::MAX,
        ensures
            final(self).jl_object_class == old(self).jl_object_class,
            final(self).load_keys == old(self).load_keys,
            final(self).class_path == old(self).class_path,
            final(self).provider_reads == old(self).provider_reads + spec_reads_of_build(
                old(self).class_path.entries.deep_view(),
                class_name@,
            ),
            match spec_build_user_class(
                old(self).class_path.entries.deep_view(),
                class_name@,
            ) {
                Ok(kv) => r matches Ok(k) && k@ == kv,
                Err(er) => r matches Err(e2) && e2 == er,
            },
    {
        let file_name = self.file_name_for_class_name(class_name);
        let bytes = self.read_class_bytes(&file_name)?;
        let stream = ClassFileStream::new(bytes);
        let parser = ClassFileParser::new(stream)?;
        parser.create_instance_klass()
    }

    /// Builds the class and registers it at the end of the registry, under
    /// the requested name as its cache key. Registers nothing on failure.
    fn add_user_class(&mut self, class_name: String) -> (r: Result<usize, VmError>)
        requires
            old(self).wf(),
            old(self).provider_reads < usize::MAX,
        ensures
            final(self).wf(),
            final(self).class_path == old(self).class_path,
            r matches Ok(v) ==> v < final(self).jl_object_class@.len(),
            final(self).provider_reads == old(self).provider_reads + spec_reads_of_build(
                old(self).class_path.entries.deep_view(),
                class_name@,
            ),
            match spec_build_user_class(
                old(self).class_path.entries.deep_view(),
                class_name@,
            ) {
                Ok(kv) => {
                    &&& r matches Ok(v) && v == old(self).jl_object_class@.len()
                    &&& final(self).jl_object_class.deep_view() == old(
                        self,
                    ).jl_object_class.deep_view().push(kv)
                    &&& final(self).load_keys.deep_view() == old(
                        self,
                    ).load_keys.deep_view().push(class_name@)
                },
                Err(er) => {
                    &&& r matches Err(e2) && e2 == er
                    &&& final(self).jl_object_class == old(self).jl_object_class
                    &&& final(self).load_keys == old(self).load_keys
                },
            },
    {
        let key = class_name.clone();
        let klass = self.build_user_class(class_name)?;
        let idx = self.jl_object_class.len();
        let ghost reg = self.jl_object_class.deep_view();
        let ghost keys = self.load_keys.deep_view();
        self.jl_object_class.push(klass);
        self.load_keys.push(key);
        proof {
            assert(self.jl_object_class.deep_view() =~= reg.push(
                self.jl_object_class@.last()@,
            ));
            assert(self.load_keys.deep_view() =~= keys.push(self.load_keys@.last()@));
        }
        Ok(idx)
    }

    /// Bootstraps the loader by loading the named class through the cache: a
    /// name already loaded leaves the loader exactly as it was, with no
    /// byte-provider read; a fresh name costs the build's reads and registers
    /// the class under that name.
    pub fn init(&mut self, class_name: String) -> (r: Result<(), VmError>)
        requires
            old(self).wf(),
            old(self).provider_reads < usize::MAX,
        ensures
            final(self).wf(),
            final(self).class_path == old(self).class_path,
            match spec_find_key(old(self).load_keys.deep_view(), class_name@) {
                Some(_) => r is Ok && *final(self) == *old(self),
                None => {
                    &&& final(self).provider_reads == old(self).provider_reads
                        + spec_reads_of_build(
                        old(self).class_path.entries.deep_view(),
                        class_name@,
                    )
                    &&& match spec_build_user_class(
                        old(self).class_path.entries.deep_view(),
                        class_name@,
                    ) {
                        Ok(kv) => {
                            &&& r is Ok
                            &&& final(self).jl_object_class.deep_view() == old(
                                self,
                            ).jl_object_class.deep_view().push(kv)
                            &&& final(self).load_keys.deep_view() == old(
                                self,
                            ).load_keys.deep_view().push(class_name@)
                        },
                        Err(er) => {
                            &&& r matches Err(e2) && e2 == er
                            &&& final(self).jl_object_class == old(self).jl_object_class
                            &&& final(self).load_keys == old(self).load_keys
                        },
                    }
                },
            },
    {
        match self.load(&class_name) {
            Ok(_) => Ok(()),
            Err(e) => Err(e),
        }
    }

    /// Loads `class_name` and returns its registry index. The cache is keyed
    /// by the requested name, recorded at registration: a name already loaded
    /// is answered from the registry and the loader is left exactly as it was
    /// — in particular `provider_reads` is unchanged, so the second of two
    /// loads of one name performs no byte-provider read and returns the very
    /// descriptor the first returned, whatever the descriptor's own resolved
    /// name is.
    pub fn load(&mut self, class_name: &String) -> (r: Result<usize, VmError>)
        requires
            old(self).wf(),
            old(self).provider_reads < usize::MAX,
        ensures
            final(self).wf(),
            final(self).class_path == old(self).class_path,
            r matches Ok(v) ==> v < final(self).jl_object_class@.len(),
            match spec_find_key(old(self).load_keys.deep_view(), class_name@) {
                Some(i) => {
                    &&& r matches Ok(v) && v == i
                    &&& *final(self) == *old(self)
                },
                None => {
                    &&& final(self).provider_reads == old(self).provider_reads
                        + spec_reads_of_build(
                        old(self).class_path.entries.deep_view(),
                        class_name@,
                    )
                    &&& match spec_build_user_class(
                        old(self).class_path.entries.deep_view(),
                        class_name@,
                    ) {
                        Ok(kv) => {
                            &&& r matches Ok(v) && v == old(self).jl_object_class@.len()
                            &&& final(self).jl_object_class.deep_view() == old(
                                self,
                            ).jl_object_class.deep_view().push(kv)
                            &&& final(self).load_keys.deep_view() == old(
                                self,
                            ).load_keys.deep_view().push(class_name@)
                        },
                        Err(er) => {
                            &&& r matches Err(e2) && e2 == er
                            &&& final(self).jl_object_class == old(self).jl_object_class
                            &&& final(self).load_keys == old(self).load_keys
                        },
                    }
                },
            },
    {
        match self.find_loaded(class_name) {
            Some(i) => Ok(i),
            None => self.add_user_class(class_name.clone()),
        }
    }

    /// The registered class at `index`.
    pub fn class_at(&self, index: usize) -> (r: &InstanceKlass)
        requires
            index < self.jl_object_class@.len(),
        ensures
            *r == self.jl_object_class@[index as int],
    {
        &self.jl_object_class[index]
    }
}

} // verus!
