//! The stivale2 header and the feature-request tags chained to it.

use vstd::prelude::*;
use crate::region::{le_bytes_u16, le_bytes_u64, push_le_u16, push_le_u64};

verus! {

pub const FRAMEBUFFER_HEADER_TAG_ID: u64 = 0x3ecc1bc43d0f7971;
pub const TERMINAL_HEADER_TAG_ID: u64 = 0xa85d499b1823be72;
pub const SMP_HEADER_TAG_ID: u64 = 0x1ab015085f3273df;
pub const MTRR_HEADER_TAG_ID: u64 = 0x4c7bb07731282e00;
pub const PAGING_5_LEVEL_HEADER_TAG_ID: u64 = 0x932f477032007e8f;
pub const UNMAP_NULL_HEADER_TAG_ID: u64 = 0x92919432b16fe7e7;
pub const ANY_VIDEO_HEADER_TAG_ID: u64 = 0xc75c9fa92a44c4db;

/// The stivale2 header: what the kernel asks of the bootloader.
///
/// Every address in it (entry point, stack, first header tag) is a plain 64-bit
/// address, zero standing for "none".
#[derive(Clone, Copy)]
pub struct StivaleHeader {
    entry_point: u64,
    stack: u64,
    flags: u64,
    tags: u64,
}

impl StivaleHeader {
    /// The stored entry point address.
    pub closed spec fn entry_point_of(&self) -> u64 {
        self.entry_point
    }

    /// The stored stack address.
    pub closed spec fn stack_of(&self) -> u64 {
        self.stack
    }

    /// The stored flags.
    pub closed spec fn flags_of(&self) -> u64 {
        self.flags
    }

    /// The stored address of the first header tag.
    pub closed spec fn tags_of(&self) -> u64 {
        self.tags
    }

    /// The header with every field zero.
    pub closed spec fn empty() -> StivaleHeader {
        StivaleHeader { entry_point: 0, stack: 0, flags: 0, tags: 0 }
    }

    /// This header with its entry point replaced.
    pub closed spec fn with_entry_point(self, entry_point: u64) -> StivaleHeader {
        StivaleHeader { entry_point, ..self }
    }

    /// This header with its stack replaced.
    pub closed spec fn with_stack(self, stack: u64) -> StivaleHeader {
        StivaleHeader { stack, ..self }
    }

    /// This header with its flags replaced.
    pub closed spec fn with_flags(self, flags: u64) -> StivaleHeader {
        StivaleHeader { flags, ..self }
    }

    /// This header with its first header tag replaced.
    pub closed spec fn with_tags(self, tags: u64) -> StivaleHeader {
        StivaleHeader { tags, ..self }
    }

    /// Creates a header with every field zero: the ELF entry point, no stack, no
    /// flags and no header tags.
    pub fn new() -> (r: StivaleHeader)
        ensures
            r == StivaleHeader::empty(),
            r.entry_point_of() == 0,
            r.stack_of() == 0,
            r.flags_of() == 0,
            r.tags_of() == 0,
    {
        StivaleHeader { entry_point: 0, stack: 0, flags: 0, tags: 0 }
    }

    /// Returns the stack pointer placed in this header.
    pub fn get_stack(&self) -> (r: u64)
        ensures
            r == self.stack_of(),
    {
        self.stack
    }

    /// Returns the flags stored in this header.
    pub fn get_flags(&self) -> (r: u64)
        ensures
            r == self.flags_of(),
    {
        self.flags
    }

    /// Sets the address of the entry point; when not zero the bootloader jumps there
    /// instead of to the ELF entry point. The routine receives the address of the
    /// stivale2 structure as its one argument and never returns.
    pub fn entry_point(self, func: u64) -> (r: StivaleHeader)
        ensures
            r == self.with_entry_point(func),
            r.entry_point_of() == func,
            r.stack_of() == self.stack_of(),
            r.flags_of() == self.flags_of(),
            r.tags_of() == self.tags_of(),
    {
        StivaleHeader { entry_point: func, ..self }
    }

    /// Sets the stack the kernel starts on.
    pub fn stack(self, stack: u64) -> (r: StivaleHeader)
        ensures
            r == self.with_stack(stack),
            r.entry_point_of() == self.entry_point_of(),
            r.stack_of() == stack,
            r.flags_of() == self.flags_of(),
            r.tags_of() == self.tags_of(),
    {
        StivaleHeader { stack, ..self }
    }

    /// Sets the header flags.
    pub fn flags(self, flags: u64) -> (r: StivaleHeader)
        ensures
            r == self.with_flags(flags),
            r.entry_point_of() == self.entry_point_of(),
            r.stack_of() == self.stack_of(),
            r.flags_of() == flags,
            r.tags_of() == self.tags_of(),
    {
        StivaleHeader { flags, ..self }
    }

    /// Sets the address of the first header tag.
    pub fn tags(self, tags: u64) -> (r: StivaleHeader)
        ensures
            r == self.with_tags(tags),
            r.entry_point_of() == self.entry_point_of(),
            r.stack_of() == self.stack_of(),
            r.flags_of() == self.flags_of(),
            r.tags_of() == tags,
    {
        StivaleHeader { tags, ..self }
    }
}

impl StivaleHeader {
    /// The header as the bootloader reads it: 32 bytes, the entry point, the stack,
    /// the flags and the first header tag, each a little-endian 64-bit word.
    pub fn to_bytes(&self) -> (r: Vec<u8>)
        ensures
            r@ == le_bytes_u64(self.entry_point_of()) + le_bytes_u64(self.stack_of())
                + le_bytes_u64(self.flags_of()) + le_bytes_u64(self.tags_of()),
    {
        let mut out: Vec<u8> = Vec::new();
        push_le_u64(&mut out, self.entry_point);
        push_le_u64(&mut out, self.stack);
        push_le_u64(&mut out, self.flags);
        push_le_u64(&mut out, self.tags);
        out
    }
}

/// Setting the stack and the flags of a header gives the same header in either
/// order, and the header then holds exactly that stack and those flags, every other
/// field unchanged.
pub proof fn lemma_stack_flags_commute(h: StivaleHeader, p: u64, f: u64)
    ensures
        h.with_stack(p).with_flags(f) == h.with_flags(f).with_stack(p),
        h.with_stack(p).with_flags(f).stack_of() == p,
        h.with_stack(p).with_flags(f).flags_of() == f,
        h.with_stack(p).with_flags(f).entry_point_of() == h.entry_point_of(),
        h.with_stack(p).with_flags(f).tags_of() == h.tags_of(),
{
}

/// Bitfield representing the SMP header flags passed to the bootloader.
#[derive(Clone, Copy, PartialEq, Eq, Structural, Debug)]
pub struct StivaleSmpHeaderTagFlags {
    pub bits: u64,
}

impl StivaleSmpHeaderTagFlags {
    /// Instruct the bootloader to use XAPIC (no bit set).
    pub const XAPIC: u64 = 0;
    /// Instruct the bootloader to use X2APIC, if available.
    pub const X2APIC: u64 = 1;

    /// Whether every bit of `flag` is set.
    pub fn contains(&self, flag: u64) -> (r: bool)
        ensures
            r == (self.bits & flag == flag),
    {
        self.bits & flag == flag
    }
}

/// If this tag is present the bootloader is instructed to initialise a graphical
/// framebuffer video mode. Omitting this tag will make the bootloader default to a
/// CGA-compatible text mode, if supported.
#[derive(Clone, Copy)]
pub struct StivaleFramebufferHeaderTag {
    identifier: u64,
    next: u64,
    framebuffer_width: u16,
    framebuffer_height: u16,
    framebuffer_bpp: u16,
}

impl StivaleFramebufferHeaderTag {
    /// The stored identifier.
    pub closed spec fn identifier_of(&self) -> u64 {
        self.identifier
    }

    /// The stored address of the next header tag.
    pub closed spec fn next_of(&self) -> u64 {
        self.next
    }

    /// The stored `framebuffer_width`.
    pub closed spec fn framebuffer_width_of(&self) -> u16 {
        self.framebuffer_width
    }

    /// The stored `framebuffer_height`.
    pub closed spec fn framebuffer_height_of(&self) -> u16 {
        self.framebuffer_height
    }

    /// The stored `framebuffer_bpp`.
    pub closed spec fn framebuffer_bpp_of(&self) -> u16 {
        self.framebuffer_bpp
    }

    /// Creates the tag with its identifier, no next tag and every field at its default.
    pub fn new() -> (r: Self)
        ensures
            r.identifier_of() == FRAMEBUFFER_HEADER_TAG_ID,
            r.next_of() == 0,
            r.framebuffer_width_of() == 0,
            r.framebuffer_height_of() == 0,
            r.framebuffer_bpp_of() == 0,
    {
        Self {
            identifier: FRAMEBUFFER_HEADER_TAG_ID,
            next: 0,
            framebuffer_width: 0,
            framebuffer_height: 0,
            framebuffer_bpp: 0,
        }
    }

    /// Chains the header tag at address `next` after this one.
    pub fn next(self, next: u64) -> (r: Self)
        ensures
            r.identifier_of() == self.identifier_of(),
            r.next_of() == next,
            r.framebuffer_width_of() == self.framebuffer_width_of(),
            r.framebuffer_height_of() == self.framebuffer_height_of(),
            r.framebuffer_bpp_of() == self.framebuffer_bpp_of(),
    {
        Self { next, ..self }
    }

    /// Sets the requested framebuffer width; zero lets the bootloader pick.
    pub fn framebuffer_width(self, value: u16) -> (r: Self)
        ensures
            r.identifier_of() == self.identifier_of(),
            r.next_of() == self.next_of(),
            r.framebuffer_width_of() == value,
            r.framebuffer_height_of() == self.framebuffer_height_of(),
            r.framebuffer_bpp_of() == self.framebuffer_bpp_of(),
    {
        Self { framebuffer_width: value, ..self }
    }

    /// Sets the requested framebuffer height; zero lets the bootloader pick.
    pub fn framebuffer_height(self, value: u16) -> (r: Self)
        ensures
            r.identifier_of() == self.identifier_of(),
            r.next_of() == self.next_of(),
            r.framebuffer_height_of() == value,
            r.framebuffer_width_of() == self.framebuffer_width_of(),
            r.framebuffer_bpp_of() == self.framebuffer_bpp_of(),
    {
        Self { framebuffer_height: value, ..self }
    }

    /// Sets the requested bits per pixel; zero lets the bootloader pick.
    pub fn framebuffer_bpp(self, value: u16) -> (r: Self)
        ensures
            r.identifier_of() == self.identifier_of(),
            r.next_of() == self.next_of(),
            r.framebuffer_bpp_of() == value,
            r.framebuffer_width_of() == self.framebuffer_width_of(),
            r.framebuffer_height_of() == self.framebuffer_height_of(),
    {
        Self { framebuffer_bpp: value, ..self }
    }
}

/// If this tag is present the bootloader is instructed to set up a terminal
/// for use by the kernel at runtime. The framebuffer header tag must be specified
/// when passing this header tag.
#[derive(Clone, Copy)]
pub struct StivaleTerminalHeaderTag {
    identifier: u64,
    next: u64,
    flags: u64,
}

impl StivaleTerminalHeaderTag {
    /// The stored identifier.
    pub closed spec fn identifier_of(&self) -> u64 {
        self.identifier
    }

    /// The stored address of the next header tag.
    pub closed spec fn next_of(&self) -> u64 {
        self.next
    }

    /// The stored `flags`.
    pub closed spec fn flags_of(&self) -> u64 {
        self.flags
    }

    /// Creates the tag with its identifier, no next tag and every field at its default.
    pub fn new() -> (r: Self)
        ensures
            r.identifier_of() == TERMINAL_HEADER_TAG_ID,
            r.next_of() == 0,
            r.flags_of() == 0,
    {
        Self {
            identifier: TERMINAL_HEADER_TAG_ID,
            next: 0,
            flags: 0,
        }
    }

    /// Chains the header tag at address `next` after this one.
    pub fn next(self, next: u64) -> (r: Self)
        ensures
            r.identifier_of() == self.identifier_of(),
            r.next_of() == next,
            r.flags_of() == self.flags_of(),
    {
        Self { next, ..self }
    }

    /// Sets the terminal flags.
    pub fn flags(self, value: u64) -> (r: Self)
        ensures
            r.identifier_of() == self.identifier_of(),
            r.next_of() == self.next_of(),
            r.flags_of() == value,
    {
        Self { flags: value, ..self }
    }
}

/// If this tag is present the bootloader is instructed to start up the other processors
/// and park them, ready to be woken through the SMP tag.
#[derive(Clone, Copy)]
pub struct StivaleSmpHeaderTag {
    identifier: u64,
    next: u64,
    flags: StivaleSmpHeaderTagFlags,
}

impl StivaleSmpHeaderTag {
    /// The stored identifier.
    pub closed spec fn identifier_of(&self) -> u64 {
        self.identifier
    }

    /// The stored address of the next header tag.
    pub closed spec fn next_of(&self) -> u64 {
        self.next
    }

    /// The stored `flags`.
    pub closed spec fn flags_of(&self) -> StivaleSmpHeaderTagFlags {
        self.flags
    }

    /// Creates the tag with its identifier, no next tag and every field at its default.
    pub fn new() -> (r: Self)
        ensures
            r.identifier_of() == SMP_HEADER_TAG_ID,
            r.next_of() == 0,
            r.flags_of().bits == StivaleSmpHeaderTagFlags::XAPIC,
    {
        Self {
            identifier: SMP_HEADER_TAG_ID,
            next: 0,
            flags: StivaleSmpHeaderTagFlags { bits: StivaleSmpHeaderTagFlags::XAPIC },
        }
    }

    /// Chains the header tag at address `next` after this one.
    pub fn next(self, next: u64) -> (r: Self)
        ensures
            r.identifier_of() == self.identifier_of(),
            r.next_of() == next,
            r.flags_of() == self.flags_of(),
    {
        Self { next, ..self }
    }

    /// Sets the SMP flags.
    pub fn flags(self, value: StivaleSmpHeaderTagFlags) -> (r: Self)
        ensures
            r.identifier_of() == self.identifier_of(),
            r.next_of() == self.next_of(),
            r.flags_of() == value,
    {
        Self { flags: value, ..self }
    }
}

/// This tag asks the bootloader to make a requested framebuffer write-combining through
/// the MTRR registers. It is legacy: newer bootloaders may not support it.
#[derive(Clone, Copy)]
pub struct StivaleMtrrHeaderTag {
    identifier: u64,
    next: u64,
}

impl StivaleMtrrHeaderTag {
    /// The stored identifier.
    pub closed spec fn identifier_of(&self) -> u64 {
        self.identifier
    }

    /// The stored address of the next header tag.
    pub closed spec fn next_of(&self) -> u64 {
        self.next
    }

    /// Creates the tag with its identifier, no next tag and every field at its default.
    pub fn new() -> (r: Self)
        ensures
            r.identifier_of() == MTRR_HEADER_TAG_ID,
            r.next_of() == 0,
    {
        Self {
            identifier: MTRR_HEADER_TAG_ID,
            next: 0,
        }
    }

    /// Chains the header tag at address `next` after this one.
    pub fn next(self, next: u64) -> (r: Self)
        ensures
            r.identifier_of() == self.identifier_of(),
            r.next_of() == next,
    {
        Self { next, ..self }
    }
}

/// If this tag is present the bootloader is instructed to enable 5-level paging, if available.
#[derive(Clone, Copy)]
pub struct Stivale5LevelPagingHeaderTag {
    identifier: u64,
    next: u64,
}

impl Stivale5LevelPagingHeaderTag {
    /// The stored identifier.
    pub closed spec fn identifier_of(&self) -> u64 {
        self.identifier
    }

    /// The stored address of the next header tag.
    pub closed spec fn next_of(&self) -> u64 {
        self.next
    }

    /// Creates the tag with its identifier, no next tag and every field at its default.
    pub fn new() -> (r: Self)
        ensures
            r.identifier_of() == PAGING_5_LEVEL_HEADER_TAG_ID,
            r.next_of() == 0,
    {
        Self {
            identifier: PAGING_5_LEVEL_HEADER_TAG_ID,
            next: 0,
        }
    }

    /// Chains the header tag at address `next` after this one.
    pub fn next(self, next: u64) -> (r: Self)
        ensures
            r.identifier_of() == self.identifier_of(),
            r.next_of() == next,
    {
        Self { next, ..self }
    }
}

/// If this tag is present the bootloader is instructed to unmap the first page of the
/// virtual address space before passing control to the kernel.
#[derive(Clone, Copy)]
pub struct StivaleUnmapNullHeaderTag {
    identifier: u64,
    next: u64,
}

impl StivaleUnmapNullHeaderTag {
    /// The stored identifier.
    pub closed spec fn identifier_of(&self) -> u64 {
        self.identifier
    }

    /// The stored address of the next header tag.
    pub closed spec fn next_of(&self) -> u64 {
        self.next
    }

    /// Creates the tag with its identifier, no next tag and every field at its default.
    pub fn new() -> (r: Self)
        ensures
            r.identifier_of() == UNMAP_NULL_HEADER_TAG_ID,
            r.next_of() == 0,
    {
        Self {
            identifier: UNMAP_NULL_HEADER_TAG_ID,
            next: 0,
        }
    }

    /// Chains the header tag at address `next` after this one.
    pub fn next(self, next: u64) -> (r: Self)
        ensures
            r.identifier_of() == self.identifier_of(),
            r.next_of() == next,
    {
        Self { next, ..self }
    }
}

/// This tag tells the bootloader that the kernel has no requirement for a framebuffer
/// to be initialised.
#[derive(Clone, Copy)]
pub struct StivaleAnyVideoTag {
    identifier: u64,
    next: u64,
    preference: u64,
}

impl StivaleAnyVideoTag {
    /// The stored identifier.
    pub closed spec fn identifier_of(&self) -> u64 {
        self.identifier
    }

    /// The stored address of the next header tag.
    pub closed spec fn next_of(&self) -> u64 {
        self.next
    }

    /// The stored `preference`.
    pub closed spec fn preference_of(&self) -> u64 {
        self.preference
    }

    /// Creates the tag with its identifier, no next tag and every field at its default.
    pub fn new() -> (r: Self)
        ensures
            r.identifier_of() == ANY_VIDEO_HEADER_TAG_ID,
            r.next_of() == 0,
            r.preference_of() == 0,
    {
        Self {
            identifier: ANY_VIDEO_HEADER_TAG_ID,
            next: 0,
            preference: 0,
        }
    }

    /// Chains the header tag at address `next` after this one.
    pub fn next(self, next: u64) -> (r: Self)
        ensures
            r.identifier_of() == self.identifier_of(),
            r.next_of() == next,
            r.preference_of() == self.preference_of(),
    {
        Self { next, ..self }
    }

    /// Sets the preference: 0 prefers a linear framebuffer, 1 prefers none
    /// (CGA text mode if available); other values are undefined.
    pub fn preference(self, value: u64) -> (r: Self)
        ensures
            r.identifier_of() == self.identifier_of(),
            r.next_of() == self.next_of(),
            r.preference_of() == value,
    {
        Self { preference: value, ..self }
    }
}

impl StivaleFramebufferHeaderTag {
    /// The tag as the bootloader reads it: 24 bytes, each field little-endian in
    /// declaration order.
    pub fn to_bytes(&self) -> (r: Vec<u8>)
        ensures
            r@ == le_bytes_u64(self.identifier_of()) + le_bytes_u64(self.next_of()) + le_bytes_u16(self.framebuffer_width_of()) + le_bytes_u16(self.framebuffer_height_of()) + le_bytes_u16(self.framebuffer_bpp_of()) + le_bytes_u16(0),
    {
        let mut out: Vec<u8> = Vec::new();
        push_le_u64(&mut out, self.identifier);
        push_le_u64(&mut out, self.next);
        push_le_u16(&mut out, self.framebuffer_width);
        push_le_u16(&mut out, self.framebuffer_height);
        push_le_u16(&mut out, self.framebuffer_bpp);
        push_le_u16(&mut out, 0);
        out
    }
}

impl StivaleTerminalHeaderTag {
    /// The tag as the bootloader reads it: 24 bytes, each field little-endian in
    /// declaration order.
    pub fn to_bytes(&self) -> (r: Vec<u8>)
        ensures
            r@ == le_bytes_u64(self.identifier_of()) + le_bytes_u64(self.next_of()) + le_bytes_u64(self.flags_of()),
    {
        let mut out: Vec<u8> = Vec::new();
        push_le_u64(&mut out, self.identifier);
        push_le_u64(&mut out, self.next);
        push_le_u64(&mut out, self.flags);
        out
    }
}

impl StivaleSmpHeaderTag {
    /// The tag as the bootloader reads it: 24 bytes, each field little-endian in
    /// declaration order.
    pub fn to_bytes(&self) -> (r: Vec<u8>)
        ensures
            r@ == le_bytes_u64(self.identifier_of()) + le_bytes_u64(self.next_of()) + le_bytes_u64(self.flags_of().bits),
    {
        let mut out: Vec<u8> = Vec::new();
        push_le_u64(&mut out, self.identifier);
        push_le_u64(&mut out, self.next);
        push_le_u64(&mut out, self.flags.bits);
        out
    }
}

impl StivaleMtrrHeaderTag {
    /// The tag as the bootloader reads it: 16 bytes, each field little-endian in
    /// declaration order.
    pub fn to_bytes(&self) -> (r: Vec<u8>)
        ensures
            r@ == le_bytes_u64(self.identifier_of()) + le_bytes_u64(self.next_of()),
    {
        let mut out: Vec<u8> = Vec::new();
        push_le_u64(&mut out, self.identifier);
        push_le_u64(&mut out, self.next);
        out
    }
}

impl Stivale5LevelPagingHeaderTag {
    /// The tag as the bootloader reads it: 16 bytes, each field little-endian in
    /// declaration order.
    pub fn to_bytes(&self) -> (r: Vec<u8>)
        ensures
            r@ == le_bytes_u64(self.identifier_of()) + le_bytes_u64(self.next_of()),
    {
        let mut out: Vec<u8> = Vec::new();
        push_le_u64(&mut out, self.identifier);
        push_le_u64(&mut out, self.next);
        out
    }
}

impl StivaleUnmapNullHeaderTag {
    /// The tag as the bootloader reads it: 16 bytes, each field little-endian in
    /// declaration order.
    pub fn to_bytes(&self) -> (r: Vec<u8>)
        ensures
            r@ == le_bytes_u64(self.identifier_of()) + le_bytes_u64(self.next_of()),
    {
        let mut out: Vec<u8> = Vec::new();
        push_le_u64(&mut out, self.identifier);
        push_le_u64(&mut out, self.next);
        out
    }
}

impl StivaleAnyVideoTag {
    /// The tag as the bootloader reads it: 24 bytes, each field little-endian in
    /// declaration order.
    pub fn to_bytes(&self) -> (r: Vec<u8>)
        ensures
            r@ == le_bytes_u64(self.identifier_of()) + le_bytes_u64(self.next_of()) + le_bytes_u64(self.preference_of()),
    {
        let mut out: Vec<u8> = Vec::new();
        push_le_u64(&mut out, self.identifier);
        push_le_u64(&mut out, self.next);
        push_le_u64(&mut out, self.preference);
        out
    }
}

} // verus!
