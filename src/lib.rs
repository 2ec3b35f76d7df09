//! Parsing of stivale2 boot information and construction of stivale2 headers.
//!
//! The boot information handed to a kernel is a region of memory holding a root
//! structure and a chain of tags. This crate sees that memory as a byte slice
//! mapped at a base address (`BootRegion`), and every read, every walk of the
//! tag chain and every decoded tag is stated over that view.
//!
//! Nothing at the root lets a kernel tell a stivale2 structure from other bytes:
//! the protocol has no magic number there. Loading one is a promise, by the caller,
//! that a conformant bootloader started the kernel.

use vstd::prelude::*;
use vstd::string::StringSliceAdditionalSpecFns;
use vstd::utf8::valid_utf8;
use crate::text::{string_from_u8, text_of};

pub mod region;
pub mod text;
pub mod v2;
pub mod epoch;
pub mod firmware;
pub mod framebuffer;
pub mod rsdp;
pub mod terminal;
pub mod header;
pub mod memory;
pub mod module;
pub mod v1;

pub use epoch::EpochTag;
pub use firmware::{FirmwareFlags, FirmwareTag};
pub use framebuffer::FramebufferTag;
pub use header::{Header5LevelPagingTag, HeaderFramebufferTag, StivaleHeader, StivaleHeaderFlags};
pub use memory::{MemoryMapEntry, MemoryMapEntryType, MemoryMapIter, MemoryMapTag};
pub use module::{Module, ModuleIter, ModuleTag};
pub use region::BootRegion;
pub use rsdp::RSDPTag;
pub use terminal::{HeaderTerminalTag, TerminalTag};

verus! {

/// Size in bytes of the root structure: the bootloader brand and version fields,
/// then the address of the first tag.
pub const ROOT_SIZE: u64 = 136;

/// Size in bytes of the bootloader brand and version fields.
pub const IDENTITY_FIELD_SIZE: u64 = 64;

/// The root structure of the boot information, as it lies in memory.
#[derive(Clone, Copy)]
pub struct StivaleStructureInner<'a> {
    /// The NUL-terminated bootloader brand (64 bytes).
    pub bootloader_brand: &'a [u8],
    /// The NUL-terminated bootloader version (64 bytes).
    pub bootloader_version: &'a [u8],
    /// Address of the first tag; zero when there is none.
    pub tags: u64,
}

impl<'a> StivaleStructureInner<'a> {
    /// This root structure is the one stored at `addr`.
    pub open spec fn decodes(&self, region: BootRegion, addr: u64) -> bool {
        &&& self.bootloader_brand@ == region.bytes_at(addr as int, IDENTITY_FIELD_SIZE as int)
        &&& self.bootloader_version@ == region.bytes_at(
            addr + IDENTITY_FIELD_SIZE,
            IDENTITY_FIELD_SIZE as int,
        )
        &&& self.tags == region.u64_at(addr + 2 * IDENTITY_FIELD_SIZE)
    }

    /// Decodes the root structure at `addr`; its fields stay in the region's memory.
    pub fn read(region: &BootRegion<'a>, addr: u64) -> (r: StivaleStructureInner<'a>)
        requires
            region.holds(addr as int, ROOT_SIZE as int),
        ensures
            r.decodes(*region, addr),
            r.bootloader_brand@.len() == IDENTITY_FIELD_SIZE,
            r.bootloader_version@.len() == IDENTITY_FIELD_SIZE,
    {
        StivaleStructureInner {
            bootloader_brand: region.slice_at(addr, IDENTITY_FIELD_SIZE),
            bootloader_version: region.slice_at(addr + IDENTITY_FIELD_SIZE, IDENTITY_FIELD_SIZE),
            tags: region.read_u64(addr + 2 * IDENTITY_FIELD_SIZE),
        }
    }
}

/// Load the stivale2 structure whose root lies at `address` of `region`.
///
/// The protocol gives no way to check that `address` holds a stivale2 structure:
/// the caller vouches for it (the kernel was started by a conformant bootloader),
/// and for a tag chain that ends within the region.
pub fn load<'a>(region: BootRegion<'a>, address: u64) -> (r: StivaleStructure<'a>)
    requires
        region.holds(address as int, ROOT_SIZE as int),
        region.chain_ends(region.u64_at(address + 2 * IDENTITY_FIELD_SIZE)),
    ensures
        r.region() == region,
        r.inner().decodes(region, address),
{
    let inner = StivaleStructureInner::read(&region, address);
    StivaleStructure { region, inner }
}

/// The stivale2 structure containing all the tags passed by the bootloader
pub struct StivaleStructure<'a> {
    region: BootRegion<'a>,
    inner: StivaleStructureInner<'a>,
}

impl<'a> StivaleStructure<'a> {
    #[verifier::type_invariant]
    spec fn well_formed(&self) -> bool {
        &&& self.inner.bootloader_brand@.len() == IDENTITY_FIELD_SIZE
        &&& self.inner.bootloader_version@.len() == IDENTITY_FIELD_SIZE
        &&& self.region.chain_ends(self.inner.tags)
    }

    /// The memory the structure and its tags lie in.
    pub closed spec fn region(&self) -> BootRegion<'a> {
        self.region
    }

    /// The root structure.
    pub closed spec fn inner(&self) -> StivaleStructureInner<'a> {
        self.inner
    }

    /// Address of the first tag.
    pub open spec fn first_tag(&self) -> u64 {
        self.inner().tags
    }

    /// Get the bootloader brand that booted the kernel: `None` when the field's first
    /// byte is zero (or its text is not UTF-8), else its text before the first zero
    /// byte.
    pub fn bootloader_brand(&self) -> (r: Option<&'a str>)
        ensures
            r is Some <==> self.inner().bootloader_brand@[0] != 0 && valid_utf8(
                text_of(self.inner().bootloader_brand@),
            ),
            r matches Some(s) ==> s.spec_bytes() == text_of(self.inner().bootloader_brand@),
    {
        proof {
            use_type_invariant(self);
        }
        string_from_u8(self.inner.bootloader_brand)
    }

    /// Get the bootloader version: `None` when the field's first byte is zero, else
    /// its text before the first zero byte; also `None` when that text is not UTF-8.
    pub fn bootloader_version(&self) -> (r: Option<&'a str>)
        ensures
            r is Some <==> self.inner().bootloader_version@[0] != 0 && valid_utf8(
                text_of(self.inner().bootloader_version@),
            ),
            r matches Some(s) ==> s.spec_bytes() == text_of(self.inner().bootloader_version@),
    {
        proof {
            use_type_invariant(self);
        }
        string_from_u8(self.inner.bootloader_version)
    }

    /// Get the video framebuffer info tag: `None` when the chain has none, or when the first one with its identifier
    /// does not lie whole in the region.
    pub fn framebuffer(&self) -> (r: Option<FramebufferTag>)
        ensures
            r is Some <==> self.region().has_tag(self.first_tag(), framebuffer::FRAMEBUFFER_TAG_ID, framebuffer::FRAMEBUFFER_TAG_SIZE),
            r matches Some(t) ==> t.decodes(
                self.region(),
                self.region().lookup(self.first_tag(), framebuffer::FRAMEBUFFER_TAG_ID)->0,
            ),
    {
        proof {
            use_type_invariant(self);
        }
        match self.region.find_sized_tag(self.inner.tags, framebuffer::FRAMEBUFFER_TAG_ID, framebuffer::FRAMEBUFFER_TAG_SIZE) {
            Some(addr) => Some(FramebufferTag::read(&self.region, addr)),
            None => None,
        }
    }

    /// Get the ACPI RSDP structure pointer: `None` when the chain has none, or when the first one with its identifier
    /// does not lie whole in the region.
    pub fn rsdp(&self) -> (r: Option<RSDPTag>)
        ensures
            r is Some <==> self.region().has_tag(self.first_tag(), rsdp::RSDP_TAG_ID, rsdp::RSDP_TAG_SIZE),
            r matches Some(t) ==> t.decodes(
                self.region(),
                self.region().lookup(self.first_tag(), rsdp::RSDP_TAG_ID)->0,
            ),
    {
        proof {
            use_type_invariant(self);
        }
        match self.region.find_sized_tag(self.inner.tags, rsdp::RSDP_TAG_ID, rsdp::RSDP_TAG_SIZE) {
            Some(addr) => Some(RSDPTag::read(&self.region, addr)),
            None => None,
        }
    }

    /// Get the current UNIX epoch during boot: `None` when the chain has none, or when the first one with its identifier
    /// does not lie whole in the region.
    pub fn epoch(&self) -> (r: Option<EpochTag>)
        ensures
            r is Some <==> self.region().has_tag(self.first_tag(), epoch::EPOCH_TAG_ID, epoch::EPOCH_TAG_SIZE),
            r matches Some(t) ==> t.decodes(
                self.region(),
                self.region().lookup(self.first_tag(), epoch::EPOCH_TAG_ID)->0,
            ),
    {
        proof {
            use_type_invariant(self);
        }
        match self.region.find_sized_tag(self.inner.tags, epoch::EPOCH_TAG_ID, epoch::EPOCH_TAG_SIZE) {
            Some(addr) => Some(EpochTag::read(&self.region, addr)),
            None => None,
        }
    }

    /// Get the firmware tag passed by the bootloader: `None` when the chain has none, or when the first one with its identifier
    /// does not lie whole in the region.
    pub fn firmware(&self) -> (r: Option<FirmwareTag>)
        ensures
            r is Some <==> self.region().has_tag(self.first_tag(), firmware::FIRMWARE_TAG_ID, firmware::FIRMWARE_TAG_SIZE),
            r matches Some(t) ==> t.decodes(
                self.region(),
                self.region().lookup(self.first_tag(), firmware::FIRMWARE_TAG_ID)->0,
            ),
    {
        proof {
            use_type_invariant(self);
        }
        match self.region.find_sized_tag(self.inner.tags, firmware::FIRMWARE_TAG_ID, firmware::FIRMWARE_TAG_SIZE) {
            Some(addr) => Some(FirmwareTag::read(&self.region, addr)),
            None => None,
        }
    }

    /// Get the memory map tag: `None` when the chain has none, or when the first one with its identifier
    /// does not lie whole in the region.
    pub fn memory_map(&self) -> (r: Option<MemoryMapTag<'a>>)
        ensures
            r is Some <==> self.region().has_array_tag(self.first_tag(), memory::MEMORY_MAP_TAG_ID, memory::MEMORY_MAP_TAG_PREFIX, 16, memory::MEMORY_MAP_ENTRY_SIZE),
            r matches Some(t) ==> t.decodes(
                self.region(),
                self.region().lookup(self.first_tag(), memory::MEMORY_MAP_TAG_ID)->0,
            ),
    {
        proof {
            use_type_invariant(self);
        }
        match self.region.find_array_tag(self.inner.tags, memory::MEMORY_MAP_TAG_ID, memory::MEMORY_MAP_TAG_PREFIX, 16, memory::MEMORY_MAP_ENTRY_SIZE) {
            Some(addr) => Some(MemoryMapTag::read(&self.region, addr)),
            None => None,
        }
    }

    /// Get the terminal tag: `None` when the chain has none, or when the first one with its identifier
    /// does not lie whole in the region.
    pub fn terminal(&self) -> (r: Option<TerminalTag>)
        ensures
            r is Some <==> self.region().has_tag(self.first_tag(), terminal::TERMINAL_TAG_ID, terminal::TERMINAL_TAG_SIZE),
            r matches Some(t) ==> t.decodes(
                self.region(),
                self.region().lookup(self.first_tag(), terminal::TERMINAL_TAG_ID)->0,
            ),
    {
        proof {
            use_type_invariant(self);
        }
        match self.region.find_sized_tag(self.inner.tags, terminal::TERMINAL_TAG_ID, terminal::TERMINAL_TAG_SIZE) {
            Some(addr) => Some(TerminalTag::read(&self.region, addr)),
            None => None,
        }
    }

    /// Get the module tag: `None` when the chain has none, or when the first one with its identifier
    /// does not lie whole in the region.
    pub fn module(&self) -> (r: Option<ModuleTag<'a>>)
        ensures
            r is Some <==> self.region().has_array_tag(self.first_tag(), module::MODULE_TAG_ID, module::MODULE_TAG_PREFIX, 16, module::MODULE_RECORD_SIZE),
            r matches Some(t) ==> t.decodes(
                self.region(),
                self.region().lookup(self.first_tag(), module::MODULE_TAG_ID)->0,
            ),
    {
        proof {
            use_type_invariant(self);
        }
        match self.region.find_array_tag(self.inner.tags, module::MODULE_TAG_ID, module::MODULE_TAG_PREFIX, 16, module::MODULE_RECORD_SIZE) {
            Some(addr) => Some(ModuleTag::read(&self.region, addr)),
            None => None,
        }
    }
}

} // verus!
