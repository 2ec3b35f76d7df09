//! The framebuffer the bootloader set up.

use vstd::prelude::*;
use crate::region::BootRegion;
use crate::v2::tag::StivaleTagHeader;
use crate::v2::tag::{framebuffer_size, lemma_framebuffer_size_bound};

verus! {

/// Identifier of the tag.
pub const FRAMEBUFFER_TAG_ID: u64 = 0x506461d2950408fa;

/// Size in bytes of the tag.
pub const FRAMEBUFFER_TAG_SIZE: u64 = 32;

/// The framebuffer info passed by the bootloader
/// and based on the configuration in the stivale2 header
#[derive(Clone, Copy)]
pub struct FramebufferTag {
    pub header: StivaleTagHeader,
    /// Address of the framebuffer.
    pub address: u64,
    /// Width in pixels.
    pub width: u16,
    /// Height in pixels.
    pub height: u16,
    /// Bytes per line.
    pub pitch: u16,
    /// Bits per pixel.
    pub bpp: u16,
}

impl FramebufferTag {
    /// This tag is the one stored at `addr`.
    pub open spec fn decodes(&self, region: BootRegion, addr: u64) -> bool {
        &&& self.header.decodes(region, addr)
        &&& self.address == region.u64_at(addr + 16)
        &&& self.width == region.u16_at(addr + 24)
        &&& self.height == region.u16_at(addr + 26)
        &&& self.pitch == region.u16_at(addr + 28)
        &&& self.bpp == region.u16_at(addr + 30)
    }

    /// Decodes the tag at `addr`.
    pub fn read(region: &BootRegion, addr: u64) -> (r: FramebufferTag)
        requires
            region.holds(addr as int, FRAMEBUFFER_TAG_SIZE as int),
        ensures
            r.decodes(*region, addr),
    {
        FramebufferTag {
            header: StivaleTagHeader::read(region, addr),
            address: region.read_u64(addr + 16),
            width: region.read_u16(addr + 24),
            height: region.read_u16(addr + 26),
            pitch: region.read_u16(addr + 28),
            bpp: region.read_u16(addr + 30),
        }
    }

    /// The address of the framebuffer.
    pub fn start_address(&self) -> (r: usize)
        requires
            self.address <= usize::MAX,
        ensures
            r == self.address,
    {
        self.address as usize
    }

    /// The address just past the framebuffer: its start address plus its size.
    pub fn end_address(&self) -> (r: usize)
        requires
            self.address + framebuffer_size(self.pitch, self.height, self.bpp) <= usize::MAX,
        ensures
            r == self.address + framebuffer_size(self.pitch, self.height, self.bpp),
    {
        proof {
            lemma_framebuffer_size_bound(self.pitch, self.height, self.bpp);
        }
        self.address as usize + self.size()
    }

    /// The size of the framebuffer in bytes: `pitch * height * (bpp / 8)`.
    pub fn size(&self) -> (r: usize)
        requires
            framebuffer_size(self.pitch, self.height, self.bpp) <= usize::MAX,
        ensures
            r == framebuffer_size(self.pitch, self.height, self.bpp),
    {
        proof {
            lemma_framebuffer_size_bound(self.pitch, self.height, self.bpp);
        }
        let p = self.pitch as u64;
        let h = self.height as u64;
        let b = self.bpp as u64 / 8;
        assert(p * h <= 65535 * 65535) by (nonlinear_arith)
            requires
                p <= 65535,
                h <= 65535,
        ;
        assert(p * h * b <= 65535 * 65535 * 8191) by (nonlinear_arith)
            requires
                p * h <= 65535 * 65535,
                b <= 8191,
        ;
        (p * h * b) as usize
    }

    /// The width of the framebuffer in pixels
    pub fn width(&self) -> (r: u16)
        ensures
            r == self.width,
    {
        self.width
    }

    /// The height of the framebuffer in pixels
    pub fn height(&self) -> (r: u16)
        ensures
            r == self.height,
    {
        self.height
    }

    /// The bytes per line of the framebuffer
    pub fn pitch(&self) -> (r: u16)
        ensures
            r == self.pitch,
    {
        self.pitch
    }

    /// The bits per pixel of the framebuffer
    pub fn bpp(&self) -> (r: u16)
        ensures
            r == self.bpp,
    {
        self.bpp
    }
}

} // verus!
