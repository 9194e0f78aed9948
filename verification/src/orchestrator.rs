use vstd::prelude::*;
use crate::boot_info::{BootInfo, GraphicsInfo};
use crate::builder::{construct_outcome, LdrConstructBootInfo};
use crate::firmware::{BootServices, Region};
use crate::fs::{lookup, Directory, FileData, LdrOpenSubdirectory, Node};
use crate::loader::{load, load_outcome, LoadedImage};
use crate::status::{LoadError, Status};
use crate::validator::{
    elf_header_complete, elf_ident_ok, elf_magic_ok, elf_tables_absent, parse_header,
    ExecutableDescriptor,
};

verus! {

/// The strictly sequential states of a boot attempt. Each is reached only
/// on success of the corresponding component call; the first failure is
/// final for the attempt.
#[derive(Clone, Copy, Debug, PartialEq, Eq, Structural)]
pub enum Stage {
    Init,
    VolumeOpened,
    SystemDirOpened,
    DriversDirOpened,
    KernelLoaded,
    BootInfoBuilt,
    KernelValidated,
}

/// A failed attempt: the stage that could not be reached, and the status
/// code returned to the firmware boot manager.
#[derive(Clone, Copy, Debug, PartialEq, Eq, Structural)]
pub struct BootFailure {
    pub stage: Stage,
    pub status: Status,
}

/// Everything a successful attempt hands onward: the loaded kernel image,
/// the assembled boot info, the memory-map snapshot region it references,
/// and the validated header facts.
pub struct BootArtifacts {
    pub kernel: LoadedImage,
    pub info: BootInfo,
    pub map_region: Region,
    pub descriptor: ExecutableDescriptor,
}

/// Name of the directory holding the kernel on the boot volume.
pub fn system_dir_name() -> (r: String)
    ensures
        r@ == "System"@,
{
    "System".to_owned()
}

/// Name of the driver-module directory on the boot volume.
pub fn drivers_dir_name() -> (r: String)
    ensures
        r@ == "Drivers"@,
{
    "Drivers".to_owned()
}

/// Fixed name of the kernel executable inside the system directory.
pub fn kernel_file_name() -> (r: String)
    ensures
        r@ == "AntKrnl.exe"@,
{
    "AntKrnl.exe".to_owned()
}

/// The directory a name must resolve to in `root`, or the error owed:
/// a present regular file is an invalid parameter, never a coercion.
pub open spec fn spec_subdir(root: Directory, name: Seq<char>) -> Result<Directory, LoadError> {
    match lookup(root.entries@, name) {
        Option::None => Err(LoadError::NotFound),
        Option::Some(Node::Dir(d)) => Ok(d),
        Option::Some(Node::File(_)) => Err(LoadError::NotADirectory),
    }
}

/// The kernel file the context resolves to, if volume, system directory and
/// file are all present and of the right kind.
pub open spec fn spec_kernel_file(bs: BootServices) -> Option<FileData> {
    match bs.volume {
        Option::Some(root) => match lookup(root.entries@, "System"@) {
            Option::Some(Node::Dir(sys)) => match lookup(sys.entries@, "AntKrnl.exe"@) {
                Option::Some(Node::File(f)) => Some(f),
                _ => None,
            },
            _ => None,
        },
        Option::None => None,
    }
}

/// Machine bound under which the kernel buffer size cannot overflow.
pub open spec fn kernel_fits(bs: BootServices) -> bool {
    spec_kernel_file(bs) matches Some(f) ==> f.reported_size + 4096 <= usize::MAX
}

/// The first n bytes of the loaded kernel image: the file content up to its
/// reported size.
pub open spec fn spec_kernel_image(f: FileData) -> Seq<u8> {
    f.content@.subrange(0, f.reported_size as int)
}

/// The stage at which a boot attempt from this context fails before
/// validation, with the status owed, or nothing if every stage up to
/// boot-info assembly succeeds. Validation is decided by the executable
/// parser, not by the context alone, so it is not settled here.
pub open spec fn pre_validation_failure(bs: BootServices) -> Option<BootFailure> {
    match bs.volume {
        Option::None => Some(
            BootFailure { stage: Stage::VolumeOpened, status: LoadError::Firmware.spec_status() },
        ),
        Option::Some(root) => match spec_subdir(root, "System"@) {
            Err(e) => Some(BootFailure { stage: Stage::SystemDirOpened, status: e.spec_status() }),
            Ok(sys) => match spec_subdir(root, "Drivers"@) {
                Err(e) => Some(
                    BootFailure { stage: Stage::DriversDirOpened, status: e.spec_status() },
                ),
                Ok(_) => match load_outcome(sys, "AntKrnl.exe"@, bs.alloc) {
                    Err(e) => Some(
                        BootFailure { stage: Stage::KernelLoaded, status: e.spec_status() },
                    ),
                    Ok(_) => match construct_outcome(bs) {
                        Err(e) => Some(
                            BootFailure { stage: Stage::BootInfoBuilt, status: e.spec_status() },
                        ),
                        Ok(_) => None,
                    },
                },
            },
        },
    }
}

/// Fail-fast ordering: when the drivers directory cannot be opened while
/// everything before it succeeded, the attempt fails at exactly the
/// drivers stage — loading the kernel and every later stage is never
/// reached, whatever the rest of the context holds.
pub proof fn lemma_fail_fast_drivers(bs: BootServices)
    requires
        bs.volume is Some,
        spec_subdir(bs.volume->Some_0, "System"@) is Ok,
        spec_subdir(bs.volume->Some_0, "Drivers"@) is Err,
    ensures
        pre_validation_failure(bs) matches Some(f) && f.stage == Stage::DriversDirOpened
            && f.status == spec_subdir(bs.volume->Some_0, "Drivers"@)->Err_0.spec_status(),
{
}

/// Runs one boot attempt to completion or first failure: opens the boot
/// volume, the system and drivers directories, loads the kernel image,
/// assembles the boot info, and validates the kernel's executable header.
/// The first failing stage ends the attempt; no later stage is entered, and
/// a failure before the kernel load leaves the allocator untouched.
pub fn boot(bs: &mut BootServices) -> (r: Result<BootArtifacts, BootFailure>)
    requires
        old(bs).wf(),
        kernel_fits(*old(bs)),
    ensures
        final(bs).wf(),
        final(bs).volume == old(bs).volume,
        final(bs).map == old(bs).map,
        final(bs).gop == old(bs).gop,
        match pre_validation_failure(*old(bs)) {
            Some(f) => r matches Err(f2) && f2 == f && ((f.stage == Stage::VolumeOpened || f.stage
                == Stage::SystemDirOpened || f.stage == Stage::DriversDirOpened) ==> final(bs).alloc
                == old(bs).alloc),
            None => {
                let file = spec_kernel_file(*old(bs))->Some_0;
                let image = spec_kernel_image(file);
                let mode = old(bs).gop->Some_0;
                &&& (r matches Err(f) ==> f == BootFailure {
                    stage: Stage::KernelValidated,
                    status: Status::LoadError,
                })
                &&& (!elf_magic_ok(image) ==> r is Err)
                &&& (elf_ident_ok(image) && elf_header_complete(image) && elf_tables_absent(image)
                    ==> r is Ok)
                &&& (r matches Ok(a) ==> {
                    &&& elf_ident_ok(image)
                    &&& a.kernel.size == file.reported_size
                    &&& a.kernel.data@.subrange(0, a.kernel.size as int) == image
                    &&& a.kernel.data@.len() == crate::loader::page_buffer_bytes(
                        file.reported_size as nat,
                    )
                    &&& a.info.antboot_version == crate::builder::BOOT_INFO_VERSION
                    &&& a.info.memmap == a.map_region.base
                    &&& a.info.memdesc_size == old(bs).map.entry_size
                    &&& a.info.memmap_size == old(bs).map.delivered@.len()
                    &&& a.map_region.data@.subrange(0, a.info.memmap_size as int) == old(
                        bs,
                    ).map.delivered@
                    &&& a.info.graphics == (GraphicsInfo {
                        ty: 1,
                        width: mode.width,
                        height: mode.height,
                        pixel_fmt: mode.pixel_fmt,
                        pixels_per_scanline: mode.stride,
                        fb_base: mode.fb_base,
                        fb_size: mode.fb_size,
                    })
                    &&& a.info.graphics.wf()
                    &&& a.descriptor.class == image[4]
                    &&& a.descriptor.endianness == image[5]
                })
            },
        },
{
    // Stage: open the boot volume backing the image that was booted.
    let root = match &bs.volume {
        Option::Some(d) => d,
        Option::None => {
            return Err(
                BootFailure { stage: Stage::VolumeOpened, status: LoadError::Firmware.status() },
            );
        },
    };
    // Stage: open the `System` directory.
    let sys_name = system_dir_name();
    let sys_dir = match LdrOpenSubdirectory(root, &sys_name) {
        Ok(d) => d,
        Err(e) => {
            return Err(BootFailure { stage: Stage::SystemDirOpened, status: e.status() });
        },
    };
    // Stage: open the `Drivers` directory (opened but not yet consumed).
    let drv_name = drivers_dir_name();
    let _drv_dir = match LdrOpenSubdirectory(root, &drv_name) {
        Ok(d) => d,
        Err(e) => {
            return Err(BootFailure { stage: Stage::DriversDirOpened, status: e.status() });
        },
    };
    // Stage: load the kernel image from the system directory.
    let kernel_name = kernel_file_name();
    let kernel = match load(sys_dir, &kernel_name, &mut bs.alloc) {
        Ok(img) => img,
        Err(e) => {
            return Err(BootFailure { stage: Stage::KernelLoaded, status: e.status() });
        },
    };
    // Stage: assemble the boot info.
    let (info, map_region) = match LdrConstructBootInfo(bs) {
        Ok(pair) => pair,
        Err(e) => {
            return Err(BootFailure { stage: Stage::BootInfoBuilt, status: e.status() });
        },
    };
    // Stage: validate the kernel's executable header.
    let image = vstd::slice::slice_subrange(kernel.data.as_slice(), 0, kernel.size);
    let descriptor = match parse_header(image) {
        Ok(d) => d,
        Err(e) => {
            return Err(BootFailure { stage: Stage::KernelValidated, status: e.status() });
        },
    };
    Ok(BootArtifacts { kernel, info, map_region, descriptor })
}

} // verus!
