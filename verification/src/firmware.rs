use vstd::prelude::*;
use crate::boot_info::PixelFormat;
use crate::fs::Directory;
use crate::status::LoadError;

verus! {

/// All zero: the content of a freshly allocated buffer.
pub open spec fn zero_bytes(n: nat) -> Seq<u8> {
    Seq::new(n, |i: int| 0u8)
}

/// One region of firmware-managed memory handed to the loader: its physical
/// base address and its bytes. The address is a plain value describing where
/// the region lives, not an owning handle.
pub struct Region {
    pub base: u64,
    pub data: Vec<u8>,
}

/// The firmware pool and page allocators, reduced to what the loader can
/// observe of them: how much each can still provide, and the address at
/// which the next region will be placed.
pub struct FirmwareAllocator {
    /// Whole 4096-byte pages the page allocator can still provide.
    pub pages_free: usize,
    /// Bytes the pool allocator can still provide.
    pub pool_free: usize,
    /// Physical address of the next region handed out.
    pub next_base: u64,
}

impl FirmwareAllocator {
    /// Bounds under which allocation arithmetic cannot overflow: everything
    /// the allocators can still hand out fits in the address space.
    pub open spec fn wf(&self) -> bool {
        &&& self.pages_free * 4096 + self.pool_free <= usize::MAX
        &&& self.next_base + self.pages_free * 4096 + self.pool_free <= u64::MAX
    }

    /// Allocates `count` whole pages of zeroed memory, or reports exhaustion
    /// and leaves the allocator unchanged.
    pub fn allocate_pages(&mut self, count: usize) -> (r: Option<Region>)
        requires
            old(self).wf(),
        ensures
            final(self).wf(),
            final(self).pool_free == old(self).pool_free,
            count <= old(self).pages_free ==> (r matches Some(reg)
                && reg.base == old(self).next_base
                && reg.data@ == zero_bytes((count * 4096) as nat)
                && final(self).pages_free == old(self).pages_free - count
                && final(self).next_base == old(self).next_base + count * 4096),
            count > old(self).pages_free ==> r is None && *final(self) == *old(self),
    {
        if count > self.pages_free {
            return None;
        }
        proof {
            vstd::arithmetic::mul::lemma_mul_inequality(
                count as int,
                self.pages_free as int,
                4096,
            );
        }
        let bytes: usize = count * 4096;
        let mut data: Vec<u8> = Vec::new();
        let mut j: usize = 0;
        while j < bytes
            invariant
                j <= bytes,
                data@ =~= zero_bytes(j as nat),
            decreases bytes - j,
        {
            data.push(0u8);
            j += 1;
        }
        let base = self.next_base;
        self.next_base = self.next_base + bytes as u64;
        self.pages_free = self.pages_free - count;
        Some(Region { base, data })
    }

    /// Allocates `bytes` bytes of zeroed pool memory, or reports exhaustion
    /// and leaves the allocator unchanged.
    pub fn allocate_pool(&mut self, bytes: usize) -> (r: Option<Region>)
        requires
            old(self).wf(),
        ensures
            final(self).wf(),
            final(self).pages_free == old(self).pages_free,
            bytes <= old(self).pool_free ==> (r matches Some(reg)
                && reg.base == old(self).next_base
                && reg.data@ == zero_bytes(bytes as nat)
                && final(self).pool_free == old(self).pool_free - bytes
                && final(self).next_base == old(self).next_base + bytes),
            bytes > old(self).pool_free ==> r is None && *final(self) == *old(self),
    {
        if bytes > self.pool_free {
            return None;
        }
        let mut data: Vec<u8> = Vec::new();
        let mut j: usize = 0;
        while j < bytes
            invariant
                j <= bytes,
                data@ =~= zero_bytes(j as nat),
            decreases bytes - j,
        {
            data.push(0u8);
            j += 1;
        }
        let base = self.next_base;
        self.next_base = self.next_base + bytes as u64;
        self.pool_free = self.pool_free - bytes;
        Some(Region { base, data })
    }
}

/// The memory-map side of the firmware: the byte size its size query
/// reports, the descriptor stride, and the bytes a snapshot taken now would
/// deliver. The delivered map may outgrow the reported size, since
/// allocations made after the query can add descriptors.
pub struct MemoryMapSource {
    /// Map byte size as the size query reports it.
    pub reported_size: usize,
    /// Byte stride of one descriptor record.
    pub entry_size: usize,
    /// The bytes a snapshot taken now delivers.
    pub delivered: Vec<u8>,
}

impl MemoryMapSource {
    /// The size query: required map byte size and descriptor stride.
    pub fn memory_map_size(&self) -> (r: (usize, usize))
        ensures
            r.0 == self.reported_size,
            r.1 == self.entry_size,
    {
        (self.reported_size, self.entry_size)
    }

    /// Snapshots the memory map into `buf`: either the whole current map is
    /// written at the start of `buf` and its length returned, or the buffer
    /// is too small and stays untouched. Nothing is ever truncated.
    pub fn memory_map(&self, buf: &mut Region) -> (r: Option<usize>)
        ensures
            final(buf).base == old(buf).base,
            final(buf).data@.len() == old(buf).data@.len(),
            self.delivered@.len() <= old(buf).data@.len() ==> (r matches Some(n)
                && n == self.delivered@.len()
                && final(buf).data@ =~= self.delivered@
                    + old(buf).data@.skip(self.delivered@.len() as int)),
            self.delivered@.len() > old(buf).data@.len() ==> (r is None
                && final(buf).data@ == old(buf).data@),
    {
        let n = self.delivered.len();
        if n > buf.data.len() {
            return None;
        }
        let mut j: usize = 0;
        while j < n
            invariant
                j <= n,
                n == self.delivered@.len(),
                n <= buf.data@.len(),
                buf.data@.len() == old(buf).data@.len(),
                buf.base == old(buf).base,
                forall|k: int| 0 <= k < j ==> buf.data@[k] == self.delivered@[k],
                forall|k: int| j <= k < buf.data@.len() ==> buf.data@[k] == old(buf).data@[k],
            decreases n - j,
        {
            let b = self.delivered[j];
            buf.data.set(j, b);
            j += 1;
        }
        Some(n)
    }
}

/// The active graphics-output mode as the exclusively opened protocol
/// reports it. `fb_base` is a physical address: a non-owning value.
#[derive(Clone, Copy, Debug, PartialEq, Eq, Structural)]
pub struct GopMode {
    pub width: usize,
    pub height: usize,
    pub pixel_fmt: PixelFormat,
    pub stride: usize,
    pub fb_base: u64,
    pub fb_size: usize,
}

impl GopMode {
    /// The framebuffer covers every scanline of the mode.
    pub open spec fn wf(&self) -> bool {
        self.fb_size >= self.stride * self.height * crate::boot_info::spec_bytes_per_pixel(
            self.pixel_fmt,
        )
    }
}

/// The firmware boot services, as an explicit context value threaded through
/// every component of the pipeline. Each field is one service the loader
/// consumes; a scripted instance of this record is a complete mock firmware.
pub struct BootServices {
    /// The filesystem backing the boot image, if the firmware can resolve one.
    pub volume: Option<Directory>,
    /// Pool and page allocation.
    pub alloc: FirmwareAllocator,
    /// Memory-map size query and snapshot.
    pub map: MemoryMapSource,
    /// The graphics-output protocol instance, if one is present.
    pub gop: Option<GopMode>,
}

impl BootServices {
    /// Validity of the context: allocator arithmetic stays in bounds, the
    /// map buffer sized from the query (with its fixed slack) fits in an
    /// allocation request, and any reported display mode is self-consistent.
    pub open spec fn wf(&self) -> bool {
        &&& self.alloc.wf()
        &&& self.map.reported_size + 4096 <= usize::MAX
        &&& (self.gop matches Some(g) ==> g.wf())
    }
}

/// Resolves the filesystem backing the image that was booted and opens its
/// root directory. The firmware either exposes such a volume or the attempt
/// fails with a firmware error.
#[allow(non_snake_case)]
pub fn LdrOpenBootVolume(bs: &BootServices) -> (r: Result<&Directory, LoadError>)
    ensures
        match bs.volume {
            Option::Some(d) => r matches Ok(v) && *v == d,
            Option::None => r matches Err(LoadError::Firmware),
        },
{
    match &bs.volume {
        Option::Some(d) => Ok(d),
        Option::None => Err(LoadError::Firmware),
    }
}

} // verus!
