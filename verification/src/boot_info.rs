use vstd::prelude::*;

verus! {

/// Pixel layouts the firmware graphics-output protocol reports for the
/// active mode.
#[derive(Clone, Copy, Debug, PartialEq, Eq, Structural)]
pub enum PixelFormat {
    Rgb,
    Bgr,
    Bitmask,
    BltOnly,
}

/// Bytes of framebuffer memory one pixel occupies. A block-transfer-only
/// mode exposes no linear framebuffer, so a pixel occupies no bytes there.
pub open spec fn spec_bytes_per_pixel(f: PixelFormat) -> nat {
    match f {
        PixelFormat::BltOnly => 0,
        _ => 4,
    }
}

/// Bytes of framebuffer memory one pixel occupies.
pub fn bytes_per_pixel(f: PixelFormat) -> (r: usize)
    ensures
        r == spec_bytes_per_pixel(f),
{
    match f {
        PixelFormat::BltOnly => 0,
        _ => 4,
    }
}

/// The display-mode record embedded in the boot info. `fb_base` is the
/// physical address of firmware-managed framebuffer memory: a non-owning
/// value, valid only while boot services remain active.
#[derive(Clone, Copy, Debug, PartialEq, Eq, Structural)]
pub struct GraphicsInfo {
    /// Discriminator of the display discovery used; always 1 (graphics output).
    pub ty: u8,
    /// Active mode width in pixels.
    pub width: usize,
    /// Active mode height in pixels.
    pub height: usize,
    /// Pixel layout of the framebuffer.
    pub pixel_fmt: PixelFormat,
    /// Pixels per scanline; may exceed `width` by framebuffer padding.
    pub pixels_per_scanline: usize,
    /// Physical address of the start of framebuffer memory (non-owning).
    pub fb_base: u64,
    /// Byte length of the framebuffer region.
    pub fb_size: usize,
}

impl GraphicsInfo {
    /// The framebuffer covers every scanline of the mode.
    pub open spec fn wf(&self) -> bool {
        self.fb_size >= self.pixels_per_scanline * self.height * spec_bytes_per_pixel(
            self.pixel_fmt,
        )
    }
}

/// The boot-info record handed to the kernel stage. Field set and order are
/// the ABI contract with the consumer: version tag; memory-map reference,
/// descriptor stride, map byte length; then the graphics record. `memmap` is
/// the physical address of the snapshot region: non-owning, firmware-managed,
/// valid only while boot services remain active. Descriptors must be walked
/// by `memdesc_size` strides bounded by `memmap_size`, never by a hardcoded
/// record size.
#[derive(Clone, Copy, Debug, PartialEq, Eq, Structural)]
pub struct BootInfo {
    /// Format tag of this record, fixed per loader revision.
    pub antboot_version: u8,
    /// Physical address of the memory-map snapshot (non-owning).
    pub memmap: u64,
    /// Byte stride of one memory descriptor, as the firmware reports it.
    pub memdesc_size: usize,
    /// Total byte length of the map snapshot; not necessarily a whole
    /// multiple of `memdesc_size`.
    pub memmap_size: usize,
    /// The active display mode.
    pub graphics: GraphicsInfo,
}

} // verus!
