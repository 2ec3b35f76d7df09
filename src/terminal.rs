//! The terminal a bootloader can set up for the kernel: the header tag that asks for
//! it and the tag that describes it.

use vstd::prelude::*;
use crate::region::BootRegion;
use crate::v2::tag::StivaleTagHeader;

verus! {

/// Identifier of the terminal header tag.
pub const HEADER_TERMINAL_TAG_ID: u64 = 0xa85d499b1823be72;

/// Identifier of the terminal tag.
pub const TERMINAL_TAG_ID: u64 = 0xc2b3f4c3233b0974;

/// Size in bytes of the terminal tag.
pub const TERMINAL_TAG_SIZE: u64 = 32;

/// The header terminal tag, which if present instructs the stivale bootloader to set up a terminal for
/// the kernel at run time. The framebuffer header tag must be specified when passing this header tag. See
/// the documentation of [TerminalTag] for more information.
#[derive(Clone, Copy)]
pub struct HeaderTerminalTag {
    identifier: u64,
    next: u64,
    flags: u32,
}

impl HeaderTerminalTag {
    /// The stored identifier.
    pub closed spec fn identifier_of(&self) -> u64 {
        self.identifier
    }

    /// The stored address of the next header tag.
    pub closed spec fn next_of(&self) -> u64 {
        self.next
    }

    /// The stored flags.
    pub closed spec fn flags_of(&self) -> u32 {
        self.flags
    }

    /// Creates a new header terminal tag, with no next tag and no flags.
    pub fn new() -> (r: Self)
        ensures
            r.identifier_of() == HEADER_TERMINAL_TAG_ID,
            r.next_of() == 0,
            r.flags_of() == 0,
    {
        HeaderTerminalTag { identifier: HEADER_TERMINAL_TAG_ID, next: 0, flags: 0 }
    }

    /// Chains the header tag at address `tag` after this one.
    pub fn next(self, tag: u64) -> (r: Self)
        ensures
            r.identifier_of() == self.identifier_of(),
            r.next_of() == tag,
            r.flags_of() == self.flags_of(),
    {
        HeaderTerminalTag { next: tag, ..self }
    }
}

/// If the terminal tag was requested through the terminal tag header and its supported by the stivale
/// bootloader, this tag is returned to the kernel. This tag provides an interface to the stivale terminal.
#[derive(Clone, Copy)]
pub struct TerminalTag {
    pub header: StivaleTagHeader,
    pub flags: u32,
    /// Columns of the terminal.
    pub cols: u16,
    /// Rows of the terminal.
    pub rows: u16,
    /// Address of the routine that writes to the terminal. It takes a pointer to the
    /// text and its length in bytes, and must not be called from two execution
    /// contexts at once.
    pub term_write: u64,
}

impl TerminalTag {
    /// This tag is the one stored at `addr`.
    pub open spec fn decodes(&self, region: BootRegion, addr: u64) -> bool {
        &&& self.header.decodes(region, addr)
        &&& self.flags == region.u32_at(addr + 16)
        &&& self.cols == region.u16_at(addr + 20)
        &&& self.rows == region.u16_at(addr + 22)
        &&& self.term_write == region.u64_at(addr + 24)
    }

    /// Decodes the terminal tag at `addr`.
    pub fn read(region: &BootRegion, addr: u64) -> (r: TerminalTag)
        requires
            region.holds(addr as int, TERMINAL_TAG_SIZE as int),
        ensures
            r.decodes(*region, addr),
    {
        TerminalTag {
            header: StivaleTagHeader::read(region, addr),
            flags: region.read_u32(addr + 16),
            cols: region.read_u16(addr + 20),
            rows: region.read_u16(addr + 22),
            term_write: region.read_u64(addr + 24),
        }
    }

    /// Returns the amount of rows in the stivale terminal setup by the stivale bootloader.
    pub fn rows(&self) -> (r: u16)
        ensures
            r == self.rows,
    {
        self.rows
    }

    /// Returns the amount of columns in the stivale terminal setup by the stivale bootloader.
    pub fn cols(&self) -> (r: u16)
        ensures
            r == self.cols,
    {
        self.cols
    }
}

} // verus!
