use vstd::prelude::*;
use crate::status::LoadError;

verus! {

/// One regular file of the boot volume: its bytes and the size the
/// filesystem's metadata reports for it. The two may differ: a file whose
/// backing store delivers fewer bytes than its reported size is exactly
/// what a short read looks like to the loader.
pub struct FileData {
    /// The bytes a read of the file delivers.
    pub content: Vec<u8>,
    /// The byte size the file-information query reports.
    pub reported_size: usize,
}

/// One named entry of a directory.
pub struct DirEntry {
    pub name: String,
    pub node: Node,
}

/// A directory entry is either a regular file or a nested directory.
pub enum Node {
    File(FileData),
    Dir(Directory),
}

/// A directory of the boot volume, as the firmware filesystem exposes it.
pub struct Directory {
    pub entries: Vec<DirEntry>,
}

/// The node a name resolves to in a directory: the first entry carrying
/// that name, if any.
pub open spec fn lookup(entries: Seq<DirEntry>, name: Seq<char>) -> Option<Node>
    decreases entries.len(),
{
    if entries.len() == 0 {
        None
    } else if entries[0].name@ == name {
        Some(entries[0].node)
    } else {
        lookup(entries.drop_first(), name)
    }
}

/// Opens the named entry of `parent` read-only and requires it to be a
/// directory. Any other entry kind is an error, never a silent coercion;
/// a missing entry is reported apart from a present non-directory.
#[allow(non_snake_case)]
pub fn LdrOpenSubdirectory<'a>(parent: &'a Directory, name: &String) -> (r: Result<
    &'a Directory,
    LoadError,
>)
    ensures
        match lookup(parent.entries@, name@) {
            Option::None => r matches Err(LoadError::NotFound),
            Option::Some(Node::Dir(d)) => r matches Ok(sub) && *sub == d,
            Option::Some(Node::File(_)) => r matches Err(LoadError::NotADirectory),
        },
{
    let n = parent.entries.len();
    let mut i: usize = 0;
    proof {
        assert(parent.entries@.skip(0) =~= parent.entries@);
    }
    while i < n
        invariant
            i <= n,
            n == parent.entries.len(),
            lookup(parent.entries@, name@) == lookup(parent.entries@.skip(i as int), name@),
        decreases n - i,
    {
        let entry = &parent.entries[i];
        proof {
            assert(parent.entries@.skip(i as int)[0] == parent.entries@[i as int]);
        }
        if entry.name == *name {
            match &entry.node {
                Node::Dir(d) => {
                    return Ok(d);
                },
                Node::File(_) => {
                    return Err(LoadError::NotADirectory);
                },
            }
        }
        proof {
            assert(parent.entries@.skip(i as int).drop_first() =~= parent.entries@.skip(
                i as int + 1,
            ));
        }
        i += 1;
    }
    Err(LoadError::NotFound)
}

/// Opens the named entry of `parent` read-only and requires it to be a
/// regular file: a directory of that name cannot be loaded as an image.
pub fn open_file<'a>(parent: &'a Directory, name: &String) -> (r: Result<&'a FileData, LoadError>)
    ensures
        match lookup(parent.entries@, name@) {
            Option::None => r matches Err(LoadError::NotFound),
            Option::Some(Node::Dir(_)) => r matches Err(LoadError::NotAFile),
            Option::Some(Node::File(f)) => r matches Ok(file) && *file == f,
        },
{
    let n = parent.entries.len();
    let mut i: usize = 0;
    proof {
        assert(parent.entries@.skip(0) =~= parent.entries@);
    }
    while i < n
        invariant
            i <= n,
            n == parent.entries.len(),
            lookup(parent.entries@, name@) == lookup(parent.entries@.skip(i as int), name@),
        decreases n - i,
    {
        let entry = &parent.entries[i];
        proof {
            assert(parent.entries@.skip(i as int)[0] == parent.entries@[i as int]);
        }
        if entry.name == *name {
            match &entry.node {
                Node::File(f) => {
                    return Ok(f);
                },
                Node::Dir(_) => {
                    return Err(LoadError::NotAFile);
                },
            }
        }
        proof {
            assert(parent.entries@.skip(i as int).drop_first() =~= parent.entries@.skip(
                i as int + 1,
            ));
        }
        i += 1;
    }
    Err(LoadError::NotFound)
}

} // verus!
