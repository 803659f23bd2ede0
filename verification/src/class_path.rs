//! The class path: the table of class bytes the embedder hands the core.
//! Locating bytes on disk or inside an archive is the embedder's concern;
//! the core consumes one resolved byte buffer per load.

use vstd::prelude::*;

use crate::attribute_info::copy_bytes;
use crate::class_loader::{ClassPathEntry, ClassPathEntryView};

verus! {

/// An archive member reference, kept as the path that names it; reading the
/// archive itself is the embedder's concern.
pub struct ZipEntry {
    pub path: String,
}

impl ZipEntry {
    pub fn new(path: String) -> (r: ZipEntry)
        ensures
            r.path == path,
    {
        ZipEntry { path }
    }
}

/// The ordered table of resolved class-byte sources.
pub struct ClassPath {
    pub entries: Vec<ClassPathEntry>,
}

/// The bytes the class path holds for `name`: the data of the first entry
/// with that name.
pub open spec fn spec_classpath_find(entries: Seq<ClassPathEntryView>, name: Seq<char>) -> Option<
    Seq<u8>,
>
    decreases entries.len(),
{
    if entries.len() == 0 {
        None
    } else if entries[0].name == name {
        Some(entries[0].data)
    } else {
        spec_classpath_find(entries.drop_first(), name)
    }
}

impl ClassPath {
    pub fn new() -> (r: ClassPath)
        ensures
            r.entries@.len() == 0,
    {
        ClassPath { entries: Vec::new() }
    }

    /// Hands the class path one more resolved byte source.
    pub fn add_entry(&mut self, entry: ClassPathEntry)
        ensures
            final(self).entries@ == old(self).entries@.push(entry),
    {
        self.entries.push(entry);
    }

    /// A copy of the bytes held for `name`, when the table holds any.
    pub fn find(&self, name: &String) -> (r: Option<Vec<u8>>)
        ensures
            match spec_classpath_find(self.entries.deep_view(), name@) {
                Some(data) => r matches Some(v) && v@ == data,
                None => r is None,
            },
    {
        let ghost full = self.entries.deep_view();
        let n = self.entries.len();
        let mut i: usize = 0;
        proof {
            assert(full.skip(0) =~= full);
        }
        while i < n
            invariant
                n == self.entries@.len(),
                i <= n,
                full == self.entries.deep_view(),
                spec_classpath_find(full, name@) == spec_classpath_find(full.skip(i as int), name@),
            decreases n - i,
        {
            proof {
                assert(full.skip(i as int)[0] == full[i as int]);
            }
            if self.entries[i].name.eq(name) {
                return Some(copy_bytes(&self.entries[i].data));
            }
            proof {
                assert(full.skip(i as int).drop_first() =~= full.skip(i as int + 1));
            }
            i = i + 1;
        }
        proof {
            assert(full.skip(n as int) =~= Seq::<ClassPathEntryView>::empty());
        }
        None
    }
}

} // verus!
