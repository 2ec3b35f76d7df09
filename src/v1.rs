//! The first stivale boot protocol, which stivale2 replaced: the header a kernel
//! offers, and the structure the bootloader hands back.

use vstd::prelude::*;
use crate::region::lemma_slice_len_fits;
pub use crate::v2::tag::{
    MEMORY_MAP_ENTRY_SIZE, MODULE_SIZE, MODULE_STRING_SIZE, StivaleMemoryMapEntry,
    StivaleMemoryMapEntryType, StivaleModule, memory_map_entry_at,
};
use crate::region::{read_le_u32, read_le_u64};

verus! {

/// Flags of the stivale header.
#[derive(Clone, Copy, PartialEq, Eq, Structural, Debug)]
pub struct StivaleHeaderFlags {
    pub bits: u16,
}

impl StivaleHeaderFlags {
    /// If set, the bootloader will be instructed to use graphics
    /// framebuffer mode. Else text mode will be selected.
    pub const FRAMEBUFFER_MODE: u16 = 1;
    /// If set, level 5 paging will be requested to the bootloader
    /// (only if available). Else standard level 4 paging will be used.
    pub const LEVEL_5_PAGING: u16 = 2;
    /// Reserved and unused; KASLR is now set in the bootloader configuration.
    pub const KASLR: u16 = 4;
    /// If set, all pointers, except otherwise noted, are offset to the higher half.
    pub const HIGHER_HALF: u16 = 8;

    /// No flag set.
    pub fn empty() -> (r: StivaleHeaderFlags)
        ensures
            r.bits == 0,
    {
        StivaleHeaderFlags { bits: 0 }
    }

    /// The flags whose bits are `bits`.
    pub fn from_bits(bits: u16) -> (r: StivaleHeaderFlags)
        ensures
            r.bits == bits,
    {
        StivaleHeaderFlags { bits }
    }
}

/// The stivale header: what the kernel asks of the bootloader.
#[derive(Clone, Copy)]
pub struct StivaleHeader {
    stack: u64,
    flags: StivaleHeaderFlags,
    framebuffer_width: u16,
    framebuffer_height: u16,
    framebuffer_bpp: u16,
    entry_point: u64,
}

impl StivaleHeader {
    /// The stored stack address.
    pub closed spec fn stack_of(&self) -> u64 {
        self.stack
    }

    /// The stored flags.
    pub closed spec fn flags_of(&self) -> StivaleHeaderFlags {
        self.flags
    }

    /// The stored framebuffer width.
    pub closed spec fn framebuffer_width_of(&self) -> u16 {
        self.framebuffer_width
    }

    /// The stored framebuffer height.
    pub closed spec fn framebuffer_height_of(&self) -> u16 {
        self.framebuffer_height
    }

    /// The stored framebuffer bits per pixel.
    pub closed spec fn framebuffer_bpp_of(&self) -> u16 {
        self.framebuffer_bpp
    }

    /// The stored entry point address.
    pub closed spec fn entry_point_of(&self) -> u64 {
        self.entry_point
    }

    /// Creates a header with every field zero.
    pub fn new() -> (r: Self)
        ensures
            r.stack_of() == 0,
            r.flags_of().bits == 0,
            r.framebuffer_width_of() == 0,
            r.framebuffer_height_of() == 0,
            r.framebuffer_bpp_of() == 0,
            r.entry_point_of() == 0,
    {
        StivaleHeader {
            stack: 0,
            flags: StivaleHeaderFlags::empty(),
            framebuffer_width: 0,
            framebuffer_height: 0,
            framebuffer_bpp: 0,
            entry_point: 0,
        }
    }

    /// Sets the requested framebuffer width. Only parsed if a graphics mode is requested. If
    /// set to zero, the bootloader would pick the best possible video mode automatically (recommended).
    pub fn framebuffer_width(self, framebuffer_width: u16) -> (r: Self)
        ensures
            r.stack_of() == self.stack_of(),
            r.flags_of() == self.flags_of(),
            r.framebuffer_width_of() == framebuffer_width,
            r.framebuffer_height_of() == self.framebuffer_height_of(),
            r.framebuffer_bpp_of() == self.framebuffer_bpp_of(),
            r.entry_point_of() == self.entry_point_of(),
    {
        StivaleHeader { framebuffer_width, ..self }
    }

    /// Sets the requested framebuffer height. Only parsed if a graphics mode is requested. If
    /// set to zero, the bootloader would pick the best possible video mode automatically (recommended).
    pub fn framebuffer_height(self, framebuffer_height: u16) -> (r: Self)
        ensures
            r.stack_of() == self.stack_of(),
            r.flags_of() == self.flags_of(),
            r.framebuffer_width_of() == self.framebuffer_width_of(),
            r.framebuffer_height_of() == framebuffer_height,
            r.framebuffer_bpp_of() == self.framebuffer_bpp_of(),
            r.entry_point_of() == self.entry_point_of(),
    {
        StivaleHeader { framebuffer_height, ..self }
    }

    /// Sets the requested framebuffer bpp. Only parsed if a graphics mode is requested. If
    /// set to zero, the bootloader would pick the best possible video mode automatically (recommended).
    pub fn framebuffer_bpp(self, framebuffer_bpp: u16) -> (r: Self)
        ensures
            r.stack_of() == self.stack_of(),
            r.flags_of() == self.flags_of(),
            r.framebuffer_width_of() == self.framebuffer_width_of(),
            r.framebuffer_height_of() == self.framebuffer_height_of(),
            r.framebuffer_bpp_of() == framebuffer_bpp,
            r.entry_point_of() == self.entry_point_of(),
    {
        StivaleHeader { framebuffer_bpp, ..self }
    }

    /// Sets the provided stivale header flags.
    pub fn flags(self, flags: StivaleHeaderFlags) -> (r: Self)
        ensures
            r.stack_of() == self.stack_of(),
            r.flags_of() == flags,
            r.framebuffer_width_of() == self.framebuffer_width_of(),
            r.framebuffer_height_of() == self.framebuffer_height_of(),
            r.framebuffer_bpp_of() == self.framebuffer_bpp_of(),
            r.entry_point_of() == self.entry_point_of(),
    {
        StivaleHeader { flags, ..self }
    }

    /// Sets the stack pointer which will be in ESP/RSP when the kernel is loaded.
    /// It can only be set to zero for 64-bit kernels; a valid stack holds at least
    /// 256 bytes and is 16-byte aligned.
    pub fn stack(self, stack: u64) -> (r: Self)
        ensures
            r.stack_of() == stack,
            r.flags_of() == self.flags_of(),
            r.framebuffer_width_of() == self.framebuffer_width_of(),
            r.framebuffer_height_of() == self.framebuffer_height_of(),
            r.framebuffer_bpp_of() == self.framebuffer_bpp_of(),
            r.entry_point_of() == self.entry_point_of(),
    {
        StivaleHeader { stack, ..self }
    }

    /// Sets the entry point address. If not zero, the bootloader jumps to it instead
    /// of to the entry point of the kernel ELF.
    pub fn entry_point(self, func: u64) -> (r: Self)
        ensures
            r.stack_of() == self.stack_of(),
            r.flags_of() == self.flags_of(),
            r.framebuffer_width_of() == self.framebuffer_width_of(),
            r.framebuffer_height_of() == self.framebuffer_height_of(),
            r.framebuffer_bpp_of() == self.framebuffer_bpp_of(),
            r.entry_point_of() == func,
    {
        StivaleHeader { entry_point: func, ..self }
    }
}

/// The stivale structure. Its memory map and its modules are arrays the bootloader
/// placed elsewhere in memory; here each is the slice of its bytes, with its count.
#[derive(Clone, Copy)]
pub struct StivaleStruct<'a> {
    /// Address of the null-terminated command line.
    pub command_line: u64,
    /// Number of memory map entries.
    pub memory_map_len: u64,
    /// The bytes of the memory map, `memory_map_len` records of 24 bytes.
    pub memory_map_array: &'a [u8],
    /// Address of the framebuffer if available, else zero.
    pub framebuffer_addr: u64,
    /// The framebuffer pitch in bytes.
    pub framebuffer_pitch: u16,
    /// Width of the framebuffer in pixels.
    pub framebuffer_width: u16,
    /// Height of the framebuffer in pixels.
    pub framebuffer_height: u16,
    /// The framebuffer bits per pixel.
    pub framebuffer_bpp: u16,
    /// Address of the RSDP ACPI structure.
    pub rsdp_address: u64,
    /// Number of modules the bootloader loaded.
    pub module_len: u64,
    /// The bytes of the modules, `module_len` records of 144 bytes.
    pub modules: &'a [u8],
    /// UNIX epoch at boot, read from the RTC.
    pub unix_epoch: u64,
    pub flags: u64,
    /// 32-bit SMBIOS entry point address, zero if unavailable.
    pub smbios_entry_32: u64,
    /// 64-bit SMBIOS entry point address, zero if unavailable.
    pub smbios_entry_64: u64,
}

impl<'a> StivaleStruct<'a> {
    /// Each array holds exactly as many records as its count says.
    pub open spec fn wf(&self) -> bool {
        &&& self.memory_map_array@.len() == self.memory_map_len * MEMORY_MAP_ENTRY_SIZE
        &&& self.modules@.len() == self.module_len * MODULE_SIZE
    }

    /// The memory map entry at index `i`.
    pub open spec fn memory_map_entry(&self, i: int) -> StivaleMemoryMapEntry {
        memory_map_entry_at(self.memory_map_array@, i)
    }

    /// `m` is the module at index `i`.
    pub open spec fn module_is(&self, i: int, m: StivaleModule) -> bool {
        m.decodes(self.modules@, i * MODULE_SIZE)
    }

    /// Returns the memory map entry at `index`.
    pub fn memory_map_entry_at(&self, index: u64) -> (r: StivaleMemoryMapEntry)
        requires
            self.wf(),
            index < self.memory_map_len,
        ensures
            r == self.memory_map_entry(index as int),
    {
        proof {
            lemma_slice_len_fits(self.memory_map_array);
            assert(index * MEMORY_MAP_ENTRY_SIZE + MEMORY_MAP_ENTRY_SIZE <= self.memory_map_len
                * MEMORY_MAP_ENTRY_SIZE);
        }
        let o = (index * MEMORY_MAP_ENTRY_SIZE) as usize;
        StivaleMemoryMapEntry {
            base: read_le_u64(self.memory_map_array, o),
            length: read_le_u64(self.memory_map_array, o + 8),
            entry_type: StivaleMemoryMapEntryType::from_code(
                read_le_u32(self.memory_map_array, o + 16),
            ),
        }
    }

    /// Returns the module at `index`.
    pub fn module_at(&self, index: u64) -> (r: StivaleModule<'a>)
        requires
            self.wf(),
            index < self.module_len,
        ensures
            self.module_is(index as int, r),
            r.string@.len() == MODULE_STRING_SIZE,
    {
        proof {
            lemma_slice_len_fits(self.modules);
            assert(index * MODULE_SIZE + MODULE_SIZE <= self.module_len * MODULE_SIZE);
        }
        let o = (index * MODULE_SIZE) as usize;
        StivaleModule {
            start: read_le_u64(self.modules, o),
            end: read_le_u64(self.modules, o + 8),
            string: &self.modules[o + 16..o + 144],
        }
    }

    /// Returns an iterator over all the modules that were loaded.
    pub fn modules_iter(&'a self) -> (r: StivaleModuleIter<'a>)
        ensures
            r.sref == self,
            r.current == 0,
    {
        StivaleModuleIter { sref: self, current: 0 }
    }

    /// Returns an iterator over all the memory regions.
    pub fn memory_map_iter(&'a self) -> (r: StivaleMemoryMapIter<'a>)
        ensures
            r.sref == self,
            r.current == 0,
    {
        StivaleMemoryMapIter { sref: self, current: 0 }
    }
}

/// Iterator over all the modules that were loaded.
#[derive(Clone, Copy)]
pub struct StivaleModuleIter<'a> {
    /// The stivale structure walked over.
    pub sref: &'a StivaleStruct<'a>,
    /// The index of the module that we are about to yield.
    pub current: u64,
}

impl<'a> StivaleModuleIter<'a> {
    /// Yields the next module, or `None` once every module has been yielded.
    pub fn next(&mut self) -> (r: Option<StivaleModule<'a>>)
        requires
            old(self).sref.wf(),
        ensures
            final(self).sref == old(self).sref,
            old(self).current < old(self).sref.module_len ==> (r matches Some(m)
                && old(self).sref.module_is(old(self).current as int, m)
                && m.string@.len() == MODULE_STRING_SIZE)
                && final(self).current == old(self).current + 1,
            old(self).current >= old(self).sref.module_len ==> r is None && final(self).current
                == old(self).current,
    {
        if self.current < self.sref.module_len {
            let module = self.sref.module_at(self.current);
            self.current += 1;
            Some(module)
        } else {
            None
        }
    }
}

/// Iterator over all the memory regions provided by the stivale bootloader.
#[derive(Clone, Copy)]
pub struct StivaleMemoryMapIter<'a> {
    /// The stivale structure walked over.
    pub sref: &'a StivaleStruct<'a>,
    /// The index of the memory map entry that we are about to yield.
    pub current: u64,
}

impl<'a> StivaleMemoryMapIter<'a> {
    /// Yields the next entry, or `None` once every entry has been yielded.
    pub fn next(&mut self) -> (r: Option<StivaleMemoryMapEntry>)
        requires
            old(self).sref.wf(),
        ensures
            final(self).sref == old(self).sref,
            old(self).current < old(self).sref.memory_map_len ==> r == Some(
                old(self).sref.memory_map_entry(old(self).current as int),
            ) && final(self).current == old(self).current + 1,
            old(self).current >= old(self).sref.memory_map_len ==> r is None
                && final(self).current == old(self).current,
    {
        if self.current < self.sref.memory_map_len {
            let entry = self.sref.memory_map_entry_at(self.current);
            self.current += 1;
            Some(entry)
        } else {
            None
        }
    }
}

} // verus!
