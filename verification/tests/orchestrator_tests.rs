use antboot::boot_info::PixelFormat;
use antboot::firmware::{BootServices, FirmwareAllocator, GopMode, MemoryMapSource};
use antboot::fs::{DirEntry, Directory, FileData, Node};
use antboot::orchestrator::{boot, Stage};
use antboot::status::Status;

fn file_entry(name: &str, bytes: Vec<u8>) -> DirEntry {
    let reported_size = bytes.len();
    DirEntry { name: name.to_string(), node: Node::File(FileData { content: bytes, reported_size }) }
}

fn dir_entry(name: &str, entries: Vec<DirEntry>) -> DirEntry {
    DirEntry { name: name.to_string(), node: Node::Dir(Directory { entries }) }
}

/// A minimal well-formed 64-bit little-endian executable header.
fn minimal_elf64() -> Vec<u8> {
    let mut h = vec![0u8; 64];
    h[0] = 0x7f;
    h[1] = 0x45;
    h[2] = 0x4c;
    h[3] = 0x46;
    h[4] = 2;
    h[5] = 1;
    h[6] = 1;
    h[16] = 2;
    h[18] = 0x3e;
    h[20] = 1;
    h[25] = 0x10;
    h[52] = 64;
    h
}

fn services_with_volume(volume: Option<Directory>) -> BootServices {
    BootServices {
        volume,
        alloc: FirmwareAllocator { pages_free: 64, pool_free: 1 << 20, next_base: 0x10_0000 },
        map: MemoryMapSource { reported_size: 96, entry_size: 48, delivered: vec![0u8; 96] },
        gop: Some(GopMode {
            width: 800,
            height: 600,
            pixel_fmt: PixelFormat::Rgb,
            stride: 800,
            fb_base: 0x8000_0000,
            fb_size: 800 * 600 * 4,
        }),
    }
}

fn good_volume(kernel: Vec<u8>) -> Directory {
    Directory {
        entries: vec![
            dir_entry("System", vec![file_entry("AntKrnl.exe", kernel)]),
            dir_entry("Drivers", vec![]),
        ],
    }
}

#[test]
fn full_pipeline_succeeds_and_hands_artifacts_on() {
    let kernel = minimal_elf64();
    let mut bs = services_with_volume(Some(good_volume(kernel.clone())));
    let a = boot(&mut bs).ok().unwrap();
    assert_eq!(a.kernel.size, 64);
    assert_eq!(&a.kernel.data[..64], &kernel[..]);
    assert_eq!(a.info.antboot_version, 1);
    assert_eq!(a.info.memdesc_size, 48);
    assert_eq!(a.info.memmap_size, 96);
    assert_eq!(a.info.memmap, a.map_region.base);
    assert_eq!(a.info.graphics.ty, 1);
    assert_eq!(a.info.graphics.width, 800);
    assert_eq!(a.descriptor.class, 2);
    assert_eq!(a.descriptor.machine, 0x3e);
}

#[test]
fn missing_volume_fails_at_volume_stage() {
    let mut bs = services_with_volume(None);
    let f = boot(&mut bs).err().unwrap();
    assert_eq!(f.stage, Stage::VolumeOpened);
    assert_eq!(f.status, Status::DeviceError);
}

#[test]
fn missing_system_dir_fails_at_system_stage() {
    let volume = Directory { entries: vec![dir_entry("Drivers", vec![])] };
    let mut bs = services_with_volume(Some(volume));
    let f = boot(&mut bs).err().unwrap();
    assert_eq!(f.stage, Stage::SystemDirOpened);
    assert_eq!(f.status, Status::NotFound);
}

#[test]
fn drivers_failure_reports_drivers_stage_and_loads_nothing() {
    // `Drivers` resolves to a regular file: invalid parameter, and the
    // kernel-load stage is never entered — the allocator stays untouched.
    let volume = Directory {
        entries: vec![
            dir_entry("System", vec![file_entry("AntKrnl.exe", minimal_elf64())]),
            file_entry("Drivers", vec![1u8]),
        ],
    };
    let mut bs = services_with_volume(Some(volume));
    let pages_before = bs.alloc.pages_free;
    let base_before = bs.alloc.next_base;
    let f = boot(&mut bs).err().unwrap();
    assert_eq!(f.stage, Stage::DriversDirOpened);
    assert_eq!(f.status, Status::InvalidParameter);
    assert_eq!(bs.alloc.pages_free, pages_before);
    assert_eq!(bs.alloc.next_base, base_before);
}

#[test]
fn absent_drivers_dir_reports_drivers_stage_not_found() {
    let volume = Directory {
        entries: vec![dir_entry("System", vec![file_entry("AntKrnl.exe", minimal_elf64())])],
    };
    let mut bs = services_with_volume(Some(volume));
    let pages_before = bs.alloc.pages_free;
    let f = boot(&mut bs).err().unwrap();
    assert_eq!(f.stage, Stage::DriversDirOpened);
    assert_eq!(f.status, Status::NotFound);
    assert_eq!(bs.alloc.pages_free, pages_before);
}

#[test]
fn bad_magic_never_reaches_a_validated_state() {
    let mut kernel = minimal_elf64();
    kernel[0] = 0x00;
    let mut bs = services_with_volume(Some(good_volume(kernel)));
    let f = boot(&mut bs).err().unwrap();
    assert_eq!(f.stage, Stage::KernelValidated);
    assert_eq!(f.status, Status::LoadError);
}

#[test]
fn short_kernel_read_fails_the_load_stage() {
    let volume = Directory {
        entries: vec![
            dir_entry(
                "System",
                vec![DirEntry {
                    name: "AntKrnl.exe".to_string(),
                    node: Node::File(FileData { content: vec![0x7f, 0x45], reported_size: 64 }),
                }],
            ),
            dir_entry("Drivers", vec![]),
        ],
    };
    let mut bs = services_with_volume(Some(volume));
    let f = boot(&mut bs).err().unwrap();
    assert_eq!(f.stage, Stage::KernelLoaded);
    assert_eq!(f.status, Status::LoadError);
}

#[test]
fn map_growth_past_slack_fails_the_build_stage() {
    let mut bs = services_with_volume(Some(good_volume(minimal_elf64())));
    bs.map = MemoryMapSource {
        reported_size: 96,
        entry_size: 48,
        delivered: vec![0u8; 96 + 0x1000 + 1],
    };
    let f = boot(&mut bs).err().unwrap();
    assert_eq!(f.stage, Stage::BootInfoBuilt);
    assert_eq!(f.status, Status::BufferTooSmall);
}
