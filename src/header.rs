//! The stivale2 header a kernel places for the bootloader to find, and the header
//! tags it can chain to it.

use vstd::prelude::*;

pub mod framebuffer;
pub mod paging;

pub use framebuffer::HeaderFramebufferTag;
pub use paging::Header5LevelPagingTag;

verus! {

/// Flags of the stivale2 header.
#[derive(Clone, Copy, PartialEq, Eq, Structural, Debug)]
pub struct StivaleHeaderFlags {
    pub bits: u64,
}

impl StivaleHeaderFlags {
    /// Set if the bootloader should apply kernel address space layout randomization
    pub const KASLR: u64 = 0x1;

    /// No flag set.
    pub fn empty() -> (r: StivaleHeaderFlags)
        ensures
            r.bits == 0,
    {
        StivaleHeaderFlags { bits: 0 }
    }

    /// The flags whose bits are `bits`.
    pub fn from_bits(bits: u64) -> (r: StivaleHeaderFlags)
        ensures
            r.bits == bits,
    {
        StivaleHeaderFlags { bits }
    }
}

/// A stivale2 header for the bootloader.
///
/// Every address in it (entry point, stack, first header tag) is a plain 64-bit
/// address, zero standing for "none".
#[derive(Clone, Copy)]
pub struct StivaleHeader {
    entry_point: u64,
    stack: u64,
    flags: StivaleHeaderFlags,
    tags: u64,
}

impl StivaleHeader {
    /// The stored entry point address.
    pub closed spec fn entry_point_of(&self) -> u64 {
        self.entry_point
    }

    /// The stored stack address.
    pub closed spec fn stack_of(&self) -> u64 {
        self.stack
    }

    /// The stored flags.
    pub closed spec fn flags_of(&self) -> StivaleHeaderFlags {
        self.flags
    }

    /// The stored address of the first header tag.
    pub closed spec fn tags_of(&self) -> u64 {
        self.tags
    }

    /// Create a new stivale2 header with a stack, the ELF entry point, no flags and
    /// no header tags.
    pub fn new(stack: u64) -> (r: StivaleHeader)
        ensures
            r.entry_point_of() == 0,
            r.stack_of() == stack,
            r.flags_of().bits == 0,
            r.tags_of() == 0,
    {
        StivaleHeader { entry_point: 0, stack, flags: StivaleHeaderFlags::empty(), tags: 0 }
    }

    /// Set the address of the entry point that a stivale2 compliant bootloader will call.
    pub fn entry_point(self, entry_point: u64) -> (r: StivaleHeader)
        ensures
            r.entry_point_of() == entry_point,
            r.stack_of() == self.stack_of(),
            r.flags_of() == self.flags_of(),
            r.tags_of() == self.tags_of(),
    {
        StivaleHeader { entry_point, ..self }
    }

    /// Set the stivale2 header flags
    pub fn flags(self, flags: StivaleHeaderFlags) -> (r: StivaleHeader)
        ensures
            r.entry_point_of() == self.entry_point_of(),
            r.stack_of() == self.stack_of(),
            r.flags_of() == flags,
            r.tags_of() == self.tags_of(),
    {
        StivaleHeader { flags, ..self }
    }

    /// Set the address of the first stivale2 header tag
    pub fn tags(self, tag: u64) -> (r: StivaleHeader)
        ensures
            r.entry_point_of() == self.entry_point_of(),
            r.stack_of() == self.stack_of(),
            r.flags_of() == self.flags_of(),
            r.tags_of() == tag,
    {
        StivaleHeader { tags: tag, ..self }
    }
}

} // verus!
