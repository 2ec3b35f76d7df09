//! The header tag that asks for a framebuffer.

use vstd::prelude::*;

verus! {

/// Identifier of the framebuffer header tag.
pub const HEADER_FRAMEBUFFER_TAG_ID: u64 = 0x3ecc1bc43d0f7971;

/// A stivale2 header framebuffer tag
#[derive(Clone, Copy)]
pub struct HeaderFramebufferTag {
    identifier: u64,
    next: u64,
    width: u16,
    height: u16,
    bpp: u16,
}

impl HeaderFramebufferTag {
    /// The stored identifier.
    pub closed spec fn identifier_of(&self) -> u64 {
        self.identifier
    }

    /// The stored address of the next header tag.
    pub closed spec fn next_of(&self) -> u64 {
        self.next
    }

    /// The stored requested width.
    pub closed spec fn width_of(&self) -> u16 {
        self.width
    }

    /// The stored requested height.
    pub closed spec fn height_of(&self) -> u16 {
        self.height
    }

    /// The stored requested bits per pixel.
    pub closed spec fn bpp_of(&self) -> u16 {
        self.bpp
    }

    /// Create a new header framebuffer tag that will have the bootloader determine the best
    /// resolution and bpp values
    pub fn new() -> (r: Self)
        ensures
            r.identifier_of() == HEADER_FRAMEBUFFER_TAG_ID,
            r.next_of() == 0,
            r.width_of() == 0,
            r.height_of() == 0,
            r.bpp_of() == 0,
    {
        HeaderFramebufferTag {
            identifier: HEADER_FRAMEBUFFER_TAG_ID,
            next: 0,
            width: 0,
            height: 0,
            bpp: 0,
        }
    }

    /// Set the requested framebuffer resolution
    ///
    /// Either width or height can be set to 0 to let the bootloader pick the best resolution
    pub fn resolution(self, width: u16, height: u16) -> (r: Self)
        ensures
            r.identifier_of() == self.identifier_of(),
            r.next_of() == self.next_of(),
            r.width_of() == width,
            r.height_of() == height,
            r.bpp_of() == self.bpp_of(),
    {
        HeaderFramebufferTag { width, height, ..self }
    }

    /// Set the requested framebuffer bits per pixel
    pub fn bpp(self, bpp: u16) -> (r: Self)
        ensures
            r.identifier_of() == self.identifier_of(),
            r.next_of() == self.next_of(),
            r.width_of() == self.width_of(),
            r.height_of() == self.height_of(),
            r.bpp_of() == bpp,
    {
        HeaderFramebufferTag { bpp, ..self }
    }

    /// Chains the header tag at address `tag` after this one.
    pub fn next(self, tag: u64) -> (r: Self)
        ensures
            r.identifier_of() == self.identifier_of(),
            r.next_of() == tag,
            r.width_of() == self.width_of(),
            r.height_of() == self.height_of(),
            r.bpp_of() == self.bpp_of(),
    {
        HeaderFramebufferTag { next: tag, ..self }
    }
}

} // verus!
