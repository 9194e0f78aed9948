use vstd::prelude::*;
use crate::firmware::FirmwareAllocator;
use crate::fs::{lookup, Directory, FileData, Node};
use crate::status::LoadError;

verus! {

/// Byte granularity of the firmware page allocator.
pub const PAGE_SIZE: usize = 4096;

/// Bytes of the page-granular buffer the loader allocates for a file of `n`
/// bytes: whole pages rounding `n` down, plus one page. This covers `n` with
/// up to one whole page of deliberate slack.
pub open spec fn page_buffer_bytes(n: nat) -> nat {
    (n / 4096 + 1) * 4096
}

/// The allocated buffer always covers the file it was sized for.
pub proof fn lemma_page_buffer_covers(n: nat)
    ensures
        page_buffer_bytes(n) >= n + 1,
        page_buffer_bytes(n) <= n + 4096,
{
    assert(page_buffer_bytes(n) >= n + 1 && page_buffer_bytes(n) <= n + 4096)
        by (nonlinear_arith);
}

/// Number of whole pages the loader requests for a file of `n` bytes.
pub fn pages_for(n: usize) -> (r: usize)
    requires
        n + 4096 <= usize::MAX,
    ensures
        r * 4096 == page_buffer_bytes(n as nat),
        n < r * 4096 <= n + 4096,
{
    let r: usize = n / 4096 + 1;
    proof {
        lemma_page_buffer_covers(n as nat);
        assert(r * 4096 == page_buffer_bytes(n as nat)) by (nonlinear_arith)
            requires
                r == n as nat / 4096 + 1,
        ;
    }
    r
}

/// The kernel image as loaded from disk: the page-granular buffer holding
/// it, the physical base the buffer was placed at, and the file's byte count
/// within the buffer.
pub struct LoadedImage {
    /// Physical base address of the buffer.
    pub base: u64,
    /// The whole page-granular buffer; the image is its prefix.
    pub data: Vec<u8>,
    /// Byte count of the file, as queried; the image is `data[..size]`.
    pub size: usize,
}

/// What loading `path` from `dir` must yield, given the allocator's state:
/// the resolved file, or the exact error owed.
pub open spec fn load_outcome(dir: Directory, path: Seq<char>, alloc: FirmwareAllocator) -> Result<
    FileData,
    LoadError,
> {
    match lookup(dir.entries@, path) {
        Option::None => Err(LoadError::NotFound),
        Option::Some(Node::Dir(_)) => Err(LoadError::NotAFile),
        Option::Some(Node::File(f)) => if f.reported_size as nat / 4096 + 1
            > alloc.pages_free as nat {
            Err(LoadError::AllocationFailed)
        } else if f.content@.len() < f.reported_size {
            Err(LoadError::ShortRead)
        } else {
            Ok(f)
        },
    }
}

/// Loads the named regular file from `dir`: opens it read-only, queries its
/// exact byte size, allocates a page-granular buffer covering that size with
/// one page of slack, issues one full read, and requires the count read to
/// equal the queried size exactly. A short read is an error, never a
/// partially valid buffer; allocation failure is reported apart from it.
pub fn load(dir: &Directory, path: &String, alloc: &mut FirmwareAllocator) -> (r: Result<
    LoadedImage,
    LoadError,
>)
    requires
        old(alloc).wf(),
        lookup(dir.entries@, path@) matches Some(Node::File(f)) ==> f.reported_size + 4096
            <= usize::MAX,
    ensures
        final(alloc).wf(),
        final(alloc).pool_free == old(alloc).pool_free,
        match load_outcome(*dir, path@, *old(alloc)) {
            Ok(f) => r matches Ok(img)
                && img.size == f.reported_size
                && img.base == old(alloc).next_base
                && img.data@.len() == page_buffer_bytes(f.reported_size as nat)
                && img.data@.subrange(0, f.reported_size as int) == f.content@.subrange(
                0,
                f.reported_size as int,
            )
                && (forall|k: int|
                    f.reported_size <= k < img.data@.len() ==> img.data@[k] == 0)
                && final(alloc).pages_free + (f.reported_size / 4096 + 1) == old(
                alloc,
            ).pages_free,
            Err(e) => r matches Err(e2) && e2 == e,
        },
        (load_outcome(*dir, path@, *old(alloc)) matches Err(e) && (e == LoadError::NotFound || e
            == LoadError::NotAFile || e == LoadError::AllocationFailed)) ==> *final(alloc) == *old(
            alloc,
        ),
{
    let file = match crate::fs::open_file(dir, path) {
        Ok(f) => f,
        Err(e) => {
            return Err(e);
        },
    };
    let file_size = file.reported_size;
    let count = pages_for(file_size);
    let mut region = match alloc.allocate_pages(count) {
        Some(reg) => reg,
        None => {
            return Err(LoadError::AllocationFailed);
        },
    };
    // One full read of the file into the buffer: the filesystem delivers
    // min(content, requested) bytes, and anything short of the queried size
    // fails the load.
    let available = file.content.len();
    let to_read = if available < file_size {
        available
    } else {
        file_size
    };
    let mut j: usize = 0;
    while j < to_read
        invariant
            j <= to_read,
            to_read <= file.content@.len(),
            to_read <= region.data@.len(),
            region.data@.len() == page_buffer_bytes(file_size as nat),
            region.base == old(alloc).next_base,
            forall|k: int| 0 <= k < j ==> region.data@[k] == file.content@[k],
            forall|k: int| j <= k < region.data@.len() ==> region.data@[k] == 0,
        decreases to_read - j,
    {
        let b = file.content[j];
        region.data.set(j, b);
        j += 1;
    }
    if to_read < file_size {
        return Err(LoadError::ShortRead);
    }
    Ok(LoadedImage { base: region.base, data: region.data, size: file_size })
}

} // verus!
