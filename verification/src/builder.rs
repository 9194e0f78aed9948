use vstd::prelude::*;
use crate::boot_info::{BootInfo, GraphicsInfo};
use crate::firmware::{BootServices, GopMode, Region};
use crate::status::BuildError;

verus! {

/// Fixed byte slack added to the memory-map buffer beyond the queried size,
/// absorbing map growth caused by the allocation call itself.
pub const MAP_SLACK: usize = 0x1000;

/// Format tag of the boot-info record produced by this loader revision.
pub const BOOT_INFO_VERSION: u8 = 1;

/// Locates the active graphics-output protocol instance and opens it
/// exclusively, so no other consumer can reconfigure the display mode while
/// it is being queried.
pub fn initialize_gop(bs: &BootServices) -> (r: Result<&GopMode, BuildError>)
    ensures
        match bs.gop {
            Option::Some(g) => r matches Ok(m) && *m == g,
            Option::None => r matches Err(BuildError::GraphicsUnavailable),
        },
{
    match &bs.gop {
        Option::Some(g) => Ok(g),
        Option::None => Err(BuildError::GraphicsUnavailable),
    }
}

/// What assembling the boot info from this context must yield: built, or the
/// exact error owed. Failures come in pipeline order: the pool allocation,
/// then the snapshot fit, then the graphics query.
pub open spec fn construct_outcome(bs: BootServices) -> Result<GopMode, BuildError> {
    if bs.map.reported_size + MAP_SLACK > bs.alloc.pool_free {
        Err(BuildError::AllocationFailed)
    } else if bs.map.delivered@.len() > bs.map.reported_size + MAP_SLACK {
        Err(BuildError::MapBufferTooSmall)
    } else if bs.gop is None {
        Err(BuildError::GraphicsUnavailable)
    } else {
        Ok(bs.gop->Some_0)
    }
}

/// Assembles the boot-info record: queries the memory-map size and stride,
/// allocates a pool buffer of the queried size plus a fixed slack, snapshots
/// the map into it (failing rather than truncating if the map outgrew the
/// buffer), reads the active display mode, and fills the record with a fixed
/// version tag. Returns the record together with the snapshot region it
/// references.
#[allow(non_snake_case)]
pub fn LdrConstructBootInfo(bs: &mut BootServices) -> (r: Result<(BootInfo, Region), BuildError>)
    requires
        old(bs).wf(),
    ensures
        final(bs).wf(),
        final(bs).volume == old(bs).volume,
        final(bs).map == old(bs).map,
        final(bs).gop == old(bs).gop,
        final(bs).alloc.pages_free == old(bs).alloc.pages_free,
        match construct_outcome(*old(bs)) {
            Ok(mode) => r matches Ok((info, region))
                && info.antboot_version == BOOT_INFO_VERSION
                && info.memmap == region.base
                && region.base == old(bs).alloc.next_base
                && info.memdesc_size == old(bs).map.entry_size
                && info.memmap_size == old(bs).map.delivered@.len()
                && region.data@.len() == old(bs).map.reported_size + MAP_SLACK
                && region.data@.subrange(0, info.memmap_size as int) == old(bs).map.delivered@
                && (forall|k: int|
                    info.memmap_size <= k < region.data@.len() ==> region.data@[k] == 0)
                && info.graphics == (GraphicsInfo {
                    ty: 1,
                    width: mode.width,
                    height: mode.height,
                    pixel_fmt: mode.pixel_fmt,
                    pixels_per_scanline: mode.stride,
                    fb_base: mode.fb_base,
                    fb_size: mode.fb_size,
                })
                && info.graphics.wf(),
            Err(e) => r matches Err(e2) && e2 == e,
        },
        construct_outcome(*old(bs)) matches Err(BuildError::AllocationFailed) ==> final(bs).alloc
            == old(bs).alloc,
{
    let (memmap_size, memdesc_size) = bs.map.memory_map_size();
    let buffer_size = memmap_size + MAP_SLACK;
    let mut region = match bs.alloc.allocate_pool(buffer_size) {
        Some(reg) => reg,
        None => {
            return Err(BuildError::AllocationFailed);
        },
    };
    let written = match bs.map.memory_map(&mut region) {
        Some(n) => n,
        None => {
            return Err(BuildError::MapBufferTooSmall);
        },
    };
    let gop = match initialize_gop(bs) {
        Ok(g) => g,
        Err(e) => {
            return Err(e);
        },
    };
    let info = BootInfo {
        antboot_version: BOOT_INFO_VERSION,
        memmap: region.base,
        memdesc_size,
        memmap_size: written,
        graphics: GraphicsInfo {
            ty: 1,
            width: gop.width,
            height: gop.height,
            pixel_fmt: gop.pixel_fmt,
            pixels_per_scanline: gop.stride,
            fb_base: gop.fb_base,
            fb_size: gop.fb_size,
        },
    };
    Ok((info, region))
}

} // verus!
