use antboot::boot_info::PixelFormat;
use antboot::builder::{initialize_gop, LdrConstructBootInfo, BOOT_INFO_VERSION, MAP_SLACK};
use antboot::firmware::{BootServices, FirmwareAllocator, GopMode, MemoryMapSource};
use antboot::memmap::{count_descriptors, descriptor_offset, read_descriptor};
use antboot::status::{BuildError, Status};

fn gop() -> GopMode {
    GopMode {
        width: 1024,
        height: 768,
        pixel_fmt: PixelFormat::Bgr,
        stride: 1280,
        fb_base: 0xc000_0000,
        fb_size: 1280 * 768 * 4,
    }
}

/// One descriptor record of `stride` bytes with little-endian fields.
fn descriptor_bytes(stride: usize, ty: u32, phys: u64, virt: u64, pages: u64, attr: u64) -> Vec<u8> {
    let mut d = vec![0u8; stride];
    d[0..4].copy_from_slice(&ty.to_le_bytes());
    d[8..16].copy_from_slice(&phys.to_le_bytes());
    d[16..24].copy_from_slice(&virt.to_le_bytes());
    d[24..32].copy_from_slice(&pages.to_le_bytes());
    d[32..40].copy_from_slice(&attr.to_le_bytes());
    d
}

fn services(map: MemoryMapSource, gop: Option<GopMode>, pool_free: usize) -> BootServices {
    BootServices {
        volume: None,
        alloc: FirmwareAllocator { pages_free: 8, pool_free, next_base: 0x20_0000 },
        map,
        gop,
    }
}

#[test]
fn construct_assembles_record_and_snapshot() {
    let stride = 48usize;
    let mut delivered = descriptor_bytes(stride, 7, 0x1000, 0, 16, 0xf);
    delivered.extend(descriptor_bytes(stride, 2, 0x2_0000, 0, 4, 0x1));
    let map = MemoryMapSource { reported_size: delivered.len(), entry_size: stride, delivered };
    let mut bs = services(map, Some(gop()), 1 << 20);
    let (info, region) = LdrConstructBootInfo(&mut bs).unwrap();
    assert_eq!(info.antboot_version, BOOT_INFO_VERSION);
    assert_eq!(info.memmap, 0x20_0000);
    assert_eq!(info.memmap, region.base);
    assert_eq!(info.memdesc_size, stride);
    assert_eq!(info.memmap_size, 96);
    assert_eq!(region.data.len(), 96 + MAP_SLACK);
    assert_eq!(info.graphics.ty, 1);
    assert_eq!(info.graphics.width, 1024);
    assert_eq!(info.graphics.height, 768);
    assert_eq!(info.graphics.pixel_fmt, PixelFormat::Bgr);
    assert_eq!(info.graphics.pixels_per_scanline, 1280);
    assert_eq!(info.graphics.fb_base, 0xc000_0000);
    assert_eq!(info.graphics.fb_size, 1280 * 768 * 4);

    // Walk the snapshot by the reported stride, stopping by byte offset.
    let n = count_descriptors(info.memmap_size, info.memdesc_size);
    assert_eq!(n, 2);
    let o0 = descriptor_offset(info.memmap_size, info.memdesc_size, 0).unwrap();
    let d0 = read_descriptor(&region.data, o0);
    assert_eq!(d0.ty, 7);
    assert_eq!(d0.phys_start, 0x1000);
    assert_eq!(d0.page_count, 16);
    assert_eq!(d0.attribute, 0xf);
    let o1 = descriptor_offset(info.memmap_size, info.memdesc_size, 1).unwrap();
    let d1 = read_descriptor(&region.data, o1);
    assert_eq!(d1.ty, 2);
    assert_eq!(d1.phys_start, 0x2_0000);
    assert_eq!(d1.page_count, 4);
    assert_eq!(d1.attribute, 0x1);
    assert_eq!(descriptor_offset(info.memmap_size, info.memdesc_size, 2), None);
}

#[test]
fn map_outgrowing_buffer_is_too_small_never_truncated() {
    // The snapshot grew past the queried size plus the fixed slack.
    let delivered = vec![0u8; 4096 + MAP_SLACK + 1];
    let map = MemoryMapSource { reported_size: 4096, entry_size: 48, delivered };
    let mut bs = services(map, Some(gop()), 1 << 20);
    let r = LdrConstructBootInfo(&mut bs);
    assert_eq!(r.err().unwrap(), BuildError::MapBufferTooSmall);
    assert_eq!(BuildError::MapBufferTooSmall.status(), Status::BufferTooSmall);
}

#[test]
fn pool_exhaustion_is_allocation_failure() {
    let map = MemoryMapSource { reported_size: 4096, entry_size: 48, delivered: vec![] };
    let mut bs = services(map, Some(gop()), 100);
    let next_base = bs.alloc.next_base;
    let r = LdrConstructBootInfo(&mut bs);
    assert_eq!(r.err().unwrap(), BuildError::AllocationFailed);
    assert_eq!(BuildError::AllocationFailed.status(), Status::OutOfResources);
    assert_eq!(bs.alloc.next_base, next_base);
}

#[test]
fn missing_graphics_protocol_fails_the_build() {
    let map = MemoryMapSource { reported_size: 64, entry_size: 48, delivered: vec![0u8; 64] };
    let mut bs = services(map, None, 1 << 20);
    let r = LdrConstructBootInfo(&mut bs);
    assert_eq!(r.err().unwrap(), BuildError::GraphicsUnavailable);
    assert_eq!(BuildError::GraphicsUnavailable.status(), Status::DeviceError);
}

#[test]
fn initialize_gop_reports_the_active_mode() {
    let map = MemoryMapSource { reported_size: 0, entry_size: 48, delivered: vec![] };
    let bs = services(map, Some(gop()), 4096);
    let m = initialize_gop(&bs).unwrap();
    assert_eq!(*m, gop());
    let bs2 = services(
        MemoryMapSource { reported_size: 0, entry_size: 48, delivered: vec![] },
        None,
        4096,
    );
    assert_eq!(initialize_gop(&bs2).err().unwrap(), BuildError::GraphicsUnavailable);
}

#[test]
fn descriptor_count_stops_by_byte_offset() {
    // 100 bytes at stride 48 hold two whole records; the padding tail is
    // never entered.
    assert_eq!(count_descriptors(100, 48), 2);
    assert_eq!(count_descriptors(96, 48), 2);
    assert_eq!(count_descriptors(47, 48), 0);
    assert_eq!(count_descriptors(100, 0), 0);
    assert_eq!(descriptor_offset(100, 48, 1), Some(48));
    assert_eq!(descriptor_offset(100, 48, 2), None);
}
