//! The stivale2 boot protocol: the header a kernel offers to the bootloader, and
//! the structure and tags the bootloader hands back.

use vstd::prelude::*;
use vstd::string::StringSliceAdditionalSpecFns;
use crate::region::BootRegion;
use vstd::utf8::valid_utf8;
use crate::text::{string_from_u8, text_of};
use crate::{StivaleStructureInner, ROOT_SIZE, IDENTITY_FIELD_SIZE};
use crate::v2::tag::{
    COMMAND_LINE_TAG_ID, COMMAND_LINE_TAG_SIZE, DEVICE_TREE_TAG_ID, DEVICE_TREE_TAG_SIZE,
    EDID_TAG_ID, EDID_TAG_PREFIX, EFI_SYSTEM_TABLE_TAG_ID, EFI_SYSTEM_TABLE_TAG_SIZE,
    EPOCH_TAG_ID, EPOCH_TAG_SIZE, FIRMWARE_TAG_ID, FIRMWARE_TAG_SIZE, FRAMEBUFFER_TAG_ID,
    FRAMEBUFFER_TAG_SIZE, KERNEL_FILE_TAG_ID, KERNEL_FILE_TAG_SIZE, KERNEL_SLIDE_TAG_ID,
    KERNEL_SLIDE_TAG_SIZE, MEMORY_MAP_ENTRY_SIZE, MEMORY_MAP_TAG_ID, MEMORY_MAP_TAG_PREFIX,
    MODULES_TAG_ID, MODULES_TAG_PREFIX, MODULE_SIZE, MTRR_TAG_ID, MTRR_TAG_SIZE, PXE_TAG_ID,
    PXE_TAG_SIZE, RSDP_TAG_ID, RSDP_TAG_SIZE, SMBIOS_TAG_ID, SMBIOS_TAG_SIZE, SMP_INFO_SIZE,
    SMP_TAG_ID, SMP_TAG_PREFIX, StivaleCommandLineTag, StivaleDeviceTreeTag, StivaleEdidInfoTag,
    StivaleEfiSystemTableTag, StivaleEpochTag, StivaleFirmwareTag, StivaleFramebufferTag,
    StivaleKernelFileTag, StivaleKernelSlideTag, StivaleMemoryMapTag, StivaleModuleTag,
    StivaleMtrrTag, StivalePxeInfoTag, StivaleRsdpTag, StivaleSmbiosTag, StivaleSmpTag,
    StivaleTerminalTag, StivaleUartTag, StivaleVMapTag, TERMINAL_TAG_ID, TERMINAL_TAG_SIZE,
    UART_TAG_ID, UART_TAG_SIZE, VMAP_TAG_ID, VMAP_TAG_SIZE,
};

pub mod header;
pub mod tag;

verus! {

/// The stivale2 structure: the root of the boot information, and the memory it and
/// its tags lie in.
pub struct StivaleStruct<'a> {
    region: BootRegion<'a>,
    inner: StivaleStructureInner<'a>,
}

impl<'a> StivaleStruct<'a> {
    #[verifier::type_invariant]
    spec fn well_formed(&self) -> bool {
        &&& self.inner.bootloader_brand@.len() == IDENTITY_FIELD_SIZE
        &&& self.inner.bootloader_version@.len() == IDENTITY_FIELD_SIZE
        &&& self.region.chain_ends(self.inner.tags)
    }

    /// The memory the structure and its tags lie in.
    pub closed spec fn region(&self) -> BootRegion<'a> {
        self.region
    }

    /// The root structure.
    pub closed spec fn root(&self) -> StivaleStructureInner<'a> {
        self.inner
    }

    /// Address of the first tag.
    pub open spec fn first_tag(&self) -> u64 {
        self.root().tags
    }

    /// Takes the root structure at `address` of `region`.
    ///
    /// The protocol gives no way to check that `address` holds a stivale2 structure:
    /// the caller vouches for it, and for a tag chain that ends within the region.
    pub fn load(region: BootRegion<'a>, address: u64) -> (r: StivaleStruct<'a>)
        requires
            region.holds(address as int, ROOT_SIZE as int),
            region.chain_ends(region.u64_at(address + 2 * IDENTITY_FIELD_SIZE)),
        ensures
            r.region() == region,
            r.root().decodes(region, address),
    {
        let inner = StivaleStructureInner::read(&region, address);
        StivaleStruct { region, inner }
    }

    /// Returns the bootloader brand: `None` when the field's first byte is zero (the
    /// bootloader gave none) or its text is not UTF-8, else the text before the first
    /// zero byte.
    pub fn bootloader_brand(&self) -> (r: Option<&'a str>)
        ensures
            r is Some <==> self.root().bootloader_brand@[0] != 0 && valid_utf8(
                text_of(self.root().bootloader_brand@),
            ),
            r matches Some(s) ==> s.spec_bytes() == text_of(self.root().bootloader_brand@),
    {
        proof {
            use_type_invariant(self);
        }
        string_from_u8(self.inner.bootloader_brand)
    }

    /// Returns the bootloader version: `None` when the field's first byte is zero (the
    /// bootloader gave none) or its text is not UTF-8, else the text before the first
    /// zero byte.
    pub fn bootloader_version(&self) -> (r: Option<&'a str>)
        ensures
            r is Some <==> self.root().bootloader_version@[0] != 0 && valid_utf8(
                text_of(self.root().bootloader_version@),
            ),
            r matches Some(s) ==> s.spec_bytes() == text_of(self.root().bootloader_version@),
    {
        proof {
            use_type_invariant(self);
        }
        string_from_u8(self.inner.bootloader_version)
    }

    /// Returns the address of the first tag of the chain whose identifier is
    /// `identifier`, or `None` when no tag has it.
    pub fn get_tag(&self, identifier: u64) -> (r: Option<u64>)
        ensures
            r == self.region().lookup(self.first_tag(), identifier),
    {
        proof {
            use_type_invariant(self);
        }
        self.region.find_tag(self.inner.tags, identifier)
    }

    /// Returns the command line tag: `None` when the chain has none, or when the first one with its
    /// identifier does not lie whole in the region.
    pub fn command_line(&self) -> (r: Option<StivaleCommandLineTag>)
        ensures
            r is Some <==> self.region().has_tag(self.first_tag(), COMMAND_LINE_TAG_ID, COMMAND_LINE_TAG_SIZE),
            r matches Some(t) ==> t.decodes(
                self.region(),
                self.region().lookup(self.first_tag(), COMMAND_LINE_TAG_ID)->0,
            ),
    {
        proof {
            use_type_invariant(self);
        }
        match self.region.find_sized_tag(self.inner.tags, COMMAND_LINE_TAG_ID, COMMAND_LINE_TAG_SIZE) {
            Some(addr) => Some(StivaleCommandLineTag::read(&self.region, addr)),
            None => None,
        }
    }

    /// Returns the memory map tag: `None` when the chain has none, or when the first one with its
    /// identifier does not lie whole in the region.
    pub fn memory_map(&self) -> (r: Option<StivaleMemoryMapTag<'a>>)
        ensures
            r is Some <==> self.region().has_array_tag(self.first_tag(), MEMORY_MAP_TAG_ID, MEMORY_MAP_TAG_PREFIX, 16, MEMORY_MAP_ENTRY_SIZE),
            r matches Some(t) ==> t.decodes(
                self.region(),
                self.region().lookup(self.first_tag(), MEMORY_MAP_TAG_ID)->0,
            ),
    {
        proof {
            use_type_invariant(self);
        }
        match self.region.find_array_tag(self.inner.tags, MEMORY_MAP_TAG_ID, MEMORY_MAP_TAG_PREFIX, 16, MEMORY_MAP_ENTRY_SIZE) {
            Some(addr) => Some(StivaleMemoryMapTag::read(&self.region, addr)),
            None => None,
        }
    }

    /// Returns the framebuffer tag: `None` when the chain has none, or when the first one with its
    /// identifier does not lie whole in the region.
    pub fn framebuffer(&self) -> (r: Option<StivaleFramebufferTag>)
        ensures
            r is Some <==> self.region().has_tag(self.first_tag(), FRAMEBUFFER_TAG_ID, FRAMEBUFFER_TAG_SIZE),
            r matches Some(t) ==> t.decodes(
                self.region(),
                self.region().lookup(self.first_tag(), FRAMEBUFFER_TAG_ID)->0,
            ),
    {
        proof {
            use_type_invariant(self);
        }
        match self.region.find_sized_tag(self.inner.tags, FRAMEBUFFER_TAG_ID, FRAMEBUFFER_TAG_SIZE) {
            Some(addr) => Some(StivaleFramebufferTag::read(&self.region, addr)),
            None => None,
        }
    }

    /// Returns the EDID tag: `None` when the chain has none, or when the first one with its
    /// identifier does not lie whole in the region.
    pub fn edid_info(&self) -> (r: Option<StivaleEdidInfoTag<'a>>)
        ensures
            r is Some <==> self.region().has_array_tag(self.first_tag(), EDID_TAG_ID, EDID_TAG_PREFIX, 16, 1),
            r matches Some(t) ==> t.decodes(
                self.region(),
                self.region().lookup(self.first_tag(), EDID_TAG_ID)->0,
            ),
    {
        proof {
            use_type_invariant(self);
        }
        match self.region.find_array_tag(self.inner.tags, EDID_TAG_ID, EDID_TAG_PREFIX, 16, 1) {
            Some(addr) => Some(StivaleEdidInfoTag::read(&self.region, addr)),
            None => None,
        }
    }

    /// Returns the legacy MTRR tag: `None` when the chain has none, or when the first one with its
    /// identifier does not lie whole in the region.
    pub fn mtrr(&self) -> (r: Option<StivaleMtrrTag>)
        ensures
            r is Some <==> self.region().has_tag(self.first_tag(), MTRR_TAG_ID, MTRR_TAG_SIZE),
            r matches Some(t) ==> t.decodes(
                self.region(),
                self.region().lookup(self.first_tag(), MTRR_TAG_ID)->0,
            ),
    {
        proof {
            use_type_invariant(self);
        }
        match self.region.find_sized_tag(self.inner.tags, MTRR_TAG_ID, MTRR_TAG_SIZE) {
            Some(addr) => Some(StivaleMtrrTag::read(&self.region, addr)),
            None => None,
        }
    }

    /// Returns the terminal tag: `None` when the chain has none, or when the first one with its
    /// identifier does not lie whole in the region.
    pub fn terminal(&self) -> (r: Option<StivaleTerminalTag>)
        ensures
            r is Some <==> self.region().has_tag(self.first_tag(), TERMINAL_TAG_ID, TERMINAL_TAG_SIZE),
            r matches Some(t) ==> t.decodes(
                self.region(),
                self.region().lookup(self.first_tag(), TERMINAL_TAG_ID)->0,
            ),
    {
        proof {
            use_type_invariant(self);
        }
        match self.region.find_sized_tag(self.inner.tags, TERMINAL_TAG_ID, TERMINAL_TAG_SIZE) {
            Some(addr) => Some(StivaleTerminalTag::read(&self.region, addr)),
            None => None,
        }
    }

    /// Returns the modules tag: `None` when the chain has none, or when the first one with its
    /// identifier does not lie whole in the region.
    pub fn modules(&self) -> (r: Option<StivaleModuleTag<'a>>)
        ensures
            r is Some <==> self.region().has_array_tag(self.first_tag(), MODULES_TAG_ID, MODULES_TAG_PREFIX, 16, MODULE_SIZE),
            r matches Some(t) ==> t.decodes(
                self.region(),
                self.region().lookup(self.first_tag(), MODULES_TAG_ID)->0,
            ),
    {
        proof {
            use_type_invariant(self);
        }
        match self.region.find_array_tag(self.inner.tags, MODULES_TAG_ID, MODULES_TAG_PREFIX, 16, MODULE_SIZE) {
            Some(addr) => Some(StivaleModuleTag::read(&self.region, addr)),
            None => None,
        }
    }

    /// Returns the ACPI RSDP tag: `None` when the chain has none, or when the first one with its
    /// identifier does not lie whole in the region.
    pub fn rsdp(&self) -> (r: Option<StivaleRsdpTag>)
        ensures
            r is Some <==> self.region().has_tag(self.first_tag(), RSDP_TAG_ID, RSDP_TAG_SIZE),
            r matches Some(t) ==> t.decodes(
                self.region(),
                self.region().lookup(self.first_tag(), RSDP_TAG_ID)->0,
            ),
    {
        proof {
            use_type_invariant(self);
        }
        match self.region.find_sized_tag(self.inner.tags, RSDP_TAG_ID, RSDP_TAG_SIZE) {
            Some(addr) => Some(StivaleRsdpTag::read(&self.region, addr)),
            None => None,
        }
    }

    /// Returns the SMBIOS tag: `None` when the chain has none, or when the first one with its
    /// identifier does not lie whole in the region.
    pub fn smbios(&self) -> (r: Option<StivaleSmbiosTag>)
        ensures
            r is Some <==> self.region().has_tag(self.first_tag(), SMBIOS_TAG_ID, SMBIOS_TAG_SIZE),
            r matches Some(t) ==> t.decodes(
                self.region(),
                self.region().lookup(self.first_tag(), SMBIOS_TAG_ID)->0,
            ),
    {
        proof {
            use_type_invariant(self);
        }
        match self.region.find_sized_tag(self.inner.tags, SMBIOS_TAG_ID, SMBIOS_TAG_SIZE) {
            Some(addr) => Some(StivaleSmbiosTag::read(&self.region, addr)),
            None => None,
        }
    }

    /// Returns the boot-time epoch tag: `None` when the chain has none, or when the first one with its
    /// identifier does not lie whole in the region.
    pub fn epoch(&self) -> (r: Option<StivaleEpochTag>)
        ensures
            r is Some <==> self.region().has_tag(self.first_tag(), EPOCH_TAG_ID, EPOCH_TAG_SIZE),
            r matches Some(t) ==> t.decodes(
                self.region(),
                self.region().lookup(self.first_tag(), EPOCH_TAG_ID)->0,
            ),
    {
        proof {
            use_type_invariant(self);
        }
        match self.region.find_sized_tag(self.inner.tags, EPOCH_TAG_ID, EPOCH_TAG_SIZE) {
            Some(addr) => Some(StivaleEpochTag::read(&self.region, addr)),
            None => None,
        }
    }

    /// Returns the firmware tag: `None` when the chain has none, or when the first one with its
    /// identifier does not lie whole in the region.
    pub fn frimware(&self) -> (r: Option<StivaleFirmwareTag>)
        ensures
            r is Some <==> self.region().has_tag(self.first_tag(), FIRMWARE_TAG_ID, FIRMWARE_TAG_SIZE),
            r matches Some(t) ==> t.decodes(
                self.region(),
                self.region().lookup(self.first_tag(), FIRMWARE_TAG_ID)->0,
            ),
    {
        proof {
            use_type_invariant(self);
        }
        match self.region.find_sized_tag(self.inner.tags, FIRMWARE_TAG_ID, FIRMWARE_TAG_SIZE) {
            Some(addr) => Some(StivaleFirmwareTag::read(&self.region, addr)),
            None => None,
        }
    }

    /// Returns the EFI system table tag: `None` when the chain has none, or when the first one with its
    /// identifier does not lie whole in the region.
    pub fn efi_system_table(&self) -> (r: Option<StivaleEfiSystemTableTag>)
        ensures
            r is Some <==> self.region().has_tag(self.first_tag(), EFI_SYSTEM_TABLE_TAG_ID, EFI_SYSTEM_TABLE_TAG_SIZE),
            r matches Some(t) ==> t.decodes(
                self.region(),
                self.region().lookup(self.first_tag(), EFI_SYSTEM_TABLE_TAG_ID)->0,
            ),
    {
        proof {
            use_type_invariant(self);
        }
        match self.region.find_sized_tag(self.inner.tags, EFI_SYSTEM_TABLE_TAG_ID, EFI_SYSTEM_TABLE_TAG_SIZE) {
            Some(addr) => Some(StivaleEfiSystemTableTag::read(&self.region, addr)),
            None => None,
        }
    }

    /// Returns the kernel file tag: `None` when the chain has none, or when the first one with its
    /// identifier does not lie whole in the region.
    pub fn kernel_file(&self) -> (r: Option<StivaleKernelFileTag>)
        ensures
            r is Some <==> self.region().has_tag(self.first_tag(), KERNEL_FILE_TAG_ID, KERNEL_FILE_TAG_SIZE),
            r matches Some(t) ==> t.decodes(
                self.region(),
                self.region().lookup(self.first_tag(), KERNEL_FILE_TAG_ID)->0,
            ),
    {
        proof {
            use_type_invariant(self);
        }
        match self.region.find_sized_tag(self.inner.tags, KERNEL_FILE_TAG_ID, KERNEL_FILE_TAG_SIZE) {
            Some(addr) => Some(StivaleKernelFileTag::read(&self.region, addr)),
            None => None,
        }
    }

    /// Returns the kernel slide tag: `None` when the chain has none, or when the first one with its
    /// identifier does not lie whole in the region.
    pub fn kernel_slide(&self) -> (r: Option<StivaleKernelSlideTag>)
        ensures
            r is Some <==> self.region().has_tag(self.first_tag(), KERNEL_SLIDE_TAG_ID, KERNEL_SLIDE_TAG_SIZE),
            r matches Some(t) ==> t.decodes(
                self.region(),
                self.region().lookup(self.first_tag(), KERNEL_SLIDE_TAG_ID)->0,
            ),
    {
        proof {
            use_type_invariant(self);
        }
        match self.region.find_sized_tag(self.inner.tags, KERNEL_SLIDE_TAG_ID, KERNEL_SLIDE_TAG_SIZE) {
            Some(addr) => Some(StivaleKernelSlideTag::read(&self.region, addr)),
            None => None,
        }
    }

    /// Returns the SMP tag: `None` when the chain has none, or when the first one with its
    /// identifier does not lie whole in the region.
    pub fn smp(&self) -> (r: Option<StivaleSmpTag<'a>>)
        ensures
            r is Some <==> self.region().has_array_tag(self.first_tag(), SMP_TAG_ID, SMP_TAG_PREFIX, 32, SMP_INFO_SIZE),
            r matches Some(t) ==> t.decodes(
                self.region(),
                self.region().lookup(self.first_tag(), SMP_TAG_ID)->0,
            ),
    {
        proof {
            use_type_invariant(self);
        }
        match self.region.find_array_tag(self.inner.tags, SMP_TAG_ID, SMP_TAG_PREFIX, 32, SMP_INFO_SIZE) {
            Some(addr) => Some(StivaleSmpTag::read(&self.region, addr)),
            None => None,
        }
    }

    /// Returns the PXE tag: `None` when the chain has none, or when the first one with its
    /// identifier does not lie whole in the region.
    pub fn pxe_info(&self) -> (r: Option<StivalePxeInfoTag>)
        ensures
            r is Some <==> self.region().has_tag(self.first_tag(), PXE_TAG_ID, PXE_TAG_SIZE),
            r matches Some(t) ==> t.decodes(
                self.region(),
                self.region().lookup(self.first_tag(), PXE_TAG_ID)->0,
            ),
    {
        proof {
            use_type_invariant(self);
        }
        match self.region.find_sized_tag(self.inner.tags, PXE_TAG_ID, PXE_TAG_SIZE) {
            Some(addr) => Some(StivalePxeInfoTag::read(&self.region, addr)),
            None => None,
        }
    }

    /// Returns the UART tag: `None` when the chain has none, or when the first one with its
    /// identifier does not lie whole in the region.
    pub fn uart(&self) -> (r: Option<StivaleUartTag>)
        ensures
            r is Some <==> self.region().has_tag(self.first_tag(), UART_TAG_ID, UART_TAG_SIZE),
            r matches Some(t) ==> t.decodes(
                self.region(),
                self.region().lookup(self.first_tag(), UART_TAG_ID)->0,
            ),
    {
        proof {
            use_type_invariant(self);
        }
        match self.region.find_sized_tag(self.inner.tags, UART_TAG_ID, UART_TAG_SIZE) {
            Some(addr) => Some(StivaleUartTag::read(&self.region, addr)),
            None => None,
        }
    }

    /// Returns the device tree tag: `None` when the chain has none, or when the first one with its
    /// identifier does not lie whole in the region.
    pub fn dev_tree(&self) -> (r: Option<StivaleDeviceTreeTag>)
        ensures
            r is Some <==> self.region().has_tag(self.first_tag(), DEVICE_TREE_TAG_ID, DEVICE_TREE_TAG_SIZE),
            r matches Some(t) ==> t.decodes(
                self.region(),
                self.region().lookup(self.first_tag(), DEVICE_TREE_TAG_ID)->0,
            ),
    {
        proof {
            use_type_invariant(self);
        }
        match self.region.find_sized_tag(self.inner.tags, DEVICE_TREE_TAG_ID, DEVICE_TREE_TAG_SIZE) {
            Some(addr) => Some(StivaleDeviceTreeTag::read(&self.region, addr)),
            None => None,
        }
    }

    /// Returns the VMAP tag: `None` when the chain has none, or when the first one with its
    /// identifier does not lie whole in the region.
    pub fn vmap(&self) -> (r: Option<StivaleVMapTag>)
        ensures
            r is Some <==> self.region().has_tag(self.first_tag(), VMAP_TAG_ID, VMAP_TAG_SIZE),
            r matches Some(t) ==> t.decodes(
                self.region(),
                self.region().lookup(self.first_tag(), VMAP_TAG_ID)->0,
            ),
    {
        proof {
            use_type_invariant(self);
        }
        match self.region.find_sized_tag(self.inner.tags, VMAP_TAG_ID, VMAP_TAG_SIZE) {
            Some(addr) => Some(StivaleVMapTag::read(&self.region, addr)),
            None => None,
        }
    }
    /// The two stores that start the parked CPU at `index` of the SMP tag, in the
    /// order they must become visible: `(address, value)` of its `target_stack`
    /// field with `stack`, then of its `goto_address` field with `entry`.
    ///
    /// The parked CPU polls `goto_address` and loads its stack as soon as it sees it
    /// change, so the second store must be a release store (or otherwise ordered
    /// after the first). `None` when there is no SMP tag lying whole in the region,
    /// or when `index` is not below its CPU count.
    pub fn ap_start_writes(&self, index: u64, stack: u64, entry: u64) -> (r: Option<[(u64, u64); 2]>)
        ensures
            r is Some <==> self.region().has_array_tag(
                self.first_tag(),
                SMP_TAG_ID,
                SMP_TAG_PREFIX,
                32,
                SMP_INFO_SIZE,
            ) && index < self.region().u64_at(
                self.region().lookup(self.first_tag(), SMP_TAG_ID)->0 + 32,
            ),
            r matches Some(w) ==> {
                let record = self.region().lookup(self.first_tag(), SMP_TAG_ID)->0 + SMP_TAG_PREFIX
                    + index * SMP_INFO_SIZE;
                &&& w@[0].0 == record + 8
                &&& w@[0].1 == stack
                &&& w@[1].0 == record + 16
                &&& w@[1].1 == entry
            },
    {
        proof {
            use_type_invariant(self);
        }
        match self.region.find_array_tag(self.inner.tags, SMP_TAG_ID, SMP_TAG_PREFIX, 32, SMP_INFO_SIZE) {
            Some(addr) => {
                let count = self.region.read_u64(addr + 32);
                if index < count {
                    proof {
                        assert(index * SMP_INFO_SIZE + SMP_INFO_SIZE <= count * SMP_INFO_SIZE);
                    }
                    let record = addr + SMP_TAG_PREFIX + index * SMP_INFO_SIZE;
                    Some([(record + 8, stack), (record + 16, entry)])
                } else {
                    None
                }
            },
            None => None,
        }
    }
}

} // verus!
