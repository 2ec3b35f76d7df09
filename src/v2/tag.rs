//! The tags that a stivale2 bootloader hands to the kernel, decoded from memory.

use vstd::prelude::*;
use crate::region::{
    BootRegion, TAG_HEADER_SIZE, le_u32, le_u64, lemma_slice_len_fits, read_le_u32, read_le_u64,
};
use crate::v2::header::StivaleSmpHeaderTagFlags;
use vstd::utf8::valid_utf8;
use crate::text::{string_from_u8, text_of};
use vstd::string::StringSliceAdditionalSpecFns;

verus! {

/// Identifiers of the tags a bootloader hands to the kernel; each is unique to its
/// kind of tag.
pub const FRAMEBUFFER_TAG_ID: u64 = 0x506461d2950408fa;
pub const TERMINAL_TAG_ID: u64 = 0xc2b3f4c3233b0974;
pub const MEMORY_MAP_TAG_ID: u64 = 0x2187f79e8612de07;
pub const RSDP_TAG_ID: u64 = 0x9e1786930a375e78;
pub const EPOCH_TAG_ID: u64 = 0x566a7bed888e1407;
pub const FIRMWARE_TAG_ID: u64 = 0x359d837855e3858c;
pub const MODULES_TAG_ID: u64 = 0x4b6fe466aade04ce;
pub const EFI_SYSTEM_TABLE_TAG_ID: u64 = 0x4bc5ec15845b558e;
pub const KERNEL_FILE_TAG_ID: u64 = 0xe599d90c2975584a;
pub const KERNEL_SLIDE_TAG_ID: u64 = 0xee80847d01506c57;
pub const SMP_TAG_ID: u64 = 0x34d1d96339647025;
pub const COMMAND_LINE_TAG_ID: u64 = 0xe5e76a1b4597a781;
pub const EDID_TAG_ID: u64 = 0x968609d7af96b845;
pub const MTRR_TAG_ID: u64 = 0x6bc1a78ebe871172;
pub const SMBIOS_TAG_ID: u64 = 0x274bd246c62bf7d1;
pub const PXE_TAG_ID: u64 = 0x29d1e96239247032;
pub const UART_TAG_ID: u64 = 0xb813f9b8dbc78797;
pub const DEVICE_TREE_TAG_ID: u64 = 0xabb29bd49a2833fa;
pub const VMAP_TAG_ID: u64 = 0xb0ed257db18cb58f;

/// Size in bytes of a tag of each fixed-size kind; for a tag with a trailing array,
/// of the part before the array.
pub const RSDP_TAG_SIZE: u64 = 24;
pub const EPOCH_TAG_SIZE: u64 = 24;
pub const EFI_SYSTEM_TABLE_TAG_SIZE: u64 = 24;
pub const KERNEL_FILE_TAG_SIZE: u64 = 24;
pub const KERNEL_SLIDE_TAG_SIZE: u64 = 24;
pub const COMMAND_LINE_TAG_SIZE: u64 = 24;
pub const SMBIOS_TAG_SIZE: u64 = 40;
pub const UART_TAG_SIZE: u64 = 24;
pub const DEVICE_TREE_TAG_SIZE: u64 = 32;
pub const VMAP_TAG_SIZE: u64 = 24;
pub const KERNEL_FILE_V2_TAG_SIZE: u64 = 32;
pub const KERNEL_BASE_ADDRESS_TAG_SIZE: u64 = 32;
pub const FRAMEBUFFER_TAG_SIZE: u64 = 40;
pub const TERMINAL_TAG_SIZE: u64 = 32;
pub const FIRMWARE_TAG_SIZE: u64 = 24;
pub const PXE_TAG_SIZE: u64 = 20;
pub const MTRR_TAG_SIZE: u64 = 16;
pub const BOOT_VOLUME_TAG_SIZE: u64 = 56;
pub const MEMORY_MAP_TAG_PREFIX: u64 = 24;
pub const MODULES_TAG_PREFIX: u64 = 24;
pub const EDID_TAG_PREFIX: u64 = 24;
pub const PMRS_TAG_PREFIX: u64 = 24;
pub const SMP_TAG_PREFIX: u64 = 40;

/// Size in bytes of one element of each trailing array.
pub const MEMORY_MAP_ENTRY_SIZE: u64 = 24;
pub const MODULE_SIZE: u64 = 144;
pub const MODULE_STRING_SIZE: u64 = 128;
pub const SMP_INFO_SIZE: u64 = 32;
pub const PMR_SIZE: u64 = 24;

/// The header that starts every tag.
#[derive(Clone, Copy, PartialEq, Eq, Structural, Debug)]
pub struct StivaleTagHeader {
    pub identifier: u64,
    pub next: u64,
}

impl StivaleTagHeader {
    /// This header is the one stored at `addr`.
    pub open spec fn decodes(&self, region: BootRegion, addr: u64) -> bool {
        &&& self.identifier == region.u64_at(addr as int)
        &&& self.next == region.u64_at(addr + 8)
    }

    /// Decodes the tag header at `addr`.
    pub fn read(region: &BootRegion, addr: u64) -> (r: StivaleTagHeader)
        requires
            region.holds(addr as int, TAG_HEADER_SIZE as int),
        ensures
            r.decodes(*region, addr),
    {
        StivaleTagHeader { identifier: region.read_u64(addr), next: region.read_u64(addr + 8) }
    }
}

/// If the framebuffer tag was requested through the framebuffer tag header and its supported by the stivale
/// bootloader, this tag is returned to the kernel. This tag provides an interface to the framebuffer.
#[derive(Clone, Copy, PartialEq, Eq, Structural, Debug)]
pub struct StivaleFramebufferTag {
    pub header: StivaleTagHeader,
    /// The address of the framebuffer.
    pub framebuffer_addr: u64,
    /// The total width of the framebuffer in pixels.
    pub framebuffer_width: u16,
    /// The total height of the framebuffer in pixels.
    pub framebuffer_height: u16,
    /// The pitch of the framebuffer in bytes.
    pub framebuffer_pitch: u16,
    /// The amount of bits per pixel.
    pub framebuffer_bpp: u16,
    /// Memory model of the framebuffer. If set to one, its RGB and all other values
    /// are undefined.
    pub memory_model: u8,
    pub red_mask_size: u8,
    pub red_mask_shift: u8,
    pub green_mask_size: u8,
    pub green_mask_shift: u8,
    pub blue_mask_size: u8,
    pub blue_mask_shift: u8,
}

/// The size in bytes of a framebuffer of `height` lines of `pitch` bytes, at `bpp` bits per pixel.
pub open spec fn framebuffer_size(pitch: u16, height: u16, bpp: u16) -> int {
    pitch * height * (bpp / 8)
}

/// The framebuffer size is never above 65535 * 65535 * 8191 bytes.
pub proof fn lemma_framebuffer_size_bound(pitch: u16, height: u16, bpp: u16)
    ensures
        0 <= framebuffer_size(pitch, height, bpp) <= 65535 * 65535 * 8191,
{
    let p = pitch as int;
    let h = height as int;
    let b = bpp as int / 8;
    assert(0 <= p * h <= 65535 * 65535) by (nonlinear_arith)
        requires
            0 <= p <= 65535,
            0 <= h <= 65535,
    ;
    assert(0 <= (p * h) * b <= (65535 * 65535) * 8191) by (nonlinear_arith)
        requires
            0 <= p * h <= 65535 * 65535,
            0 <= b <= 8191,
    ;
}

impl StivaleFramebufferTag {
    /// This tag is the one stored at `addr`.
    pub open spec fn decodes(&self, region: BootRegion, addr: u64) -> bool {
        &&& self.header.decodes(region, addr)
        &&& self.framebuffer_addr == region.u64_at(addr + 16)
        &&& self.framebuffer_width == region.u16_at(addr + 24)
        &&& self.framebuffer_height == region.u16_at(addr + 26)
        &&& self.framebuffer_pitch == region.u16_at(addr + 28)
        &&& self.framebuffer_bpp == region.u16_at(addr + 30)
        &&& self.memory_model == region.byte_at(addr + 32)
        &&& self.red_mask_size == region.byte_at(addr + 33)
        &&& self.red_mask_shift == region.byte_at(addr + 34)
        &&& self.green_mask_size == region.byte_at(addr + 35)
        &&& self.green_mask_shift == region.byte_at(addr + 36)
        &&& self.blue_mask_size == region.byte_at(addr + 37)
        &&& self.blue_mask_shift == region.byte_at(addr + 38)
    }

    /// Decodes the framebuffer tag at `addr`.
    pub fn read(region: &BootRegion, addr: u64) -> (r: StivaleFramebufferTag)
        requires
            region.holds(addr as int, FRAMEBUFFER_TAG_SIZE as int),
        ensures
            r.decodes(*region, addr),
    {
        StivaleFramebufferTag {
            header: StivaleTagHeader::read(region, addr),
            framebuffer_addr: region.read_u64(addr + 16),
            framebuffer_width: region.read_u16(addr + 24),
            framebuffer_height: region.read_u16(addr + 26),
            framebuffer_pitch: region.read_u16(addr + 28),
            framebuffer_bpp: region.read_u16(addr + 30),
            memory_model: region.read_u8(addr + 32),
            red_mask_size: region.read_u8(addr + 33),
            red_mask_shift: region.read_u8(addr + 34),
            green_mask_size: region.read_u8(addr + 35),
            green_mask_shift: region.read_u8(addr + 36),
            blue_mask_size: region.read_u8(addr + 37),
            blue_mask_shift: region.read_u8(addr + 38),
        }
    }

    /// Returns the size of the framebuffer in bytes: `pitch * height * (bpp / 8)`.
    pub fn size(&self) -> (r: usize)
        requires
            framebuffer_size(self.framebuffer_pitch, self.framebuffer_height, self.framebuffer_bpp)
                <= usize::MAX,
        ensures
            r == framebuffer_size(
                self.framebuffer_pitch,
                self.framebuffer_height,
                self.framebuffer_bpp,
            ),
    {
        proof {
            lemma_framebuffer_size_bound(
                self.framebuffer_pitch,
                self.framebuffer_height,
                self.framebuffer_bpp,
            );
        }
        let p = self.framebuffer_pitch as u64;
        let h = self.framebuffer_height as u64;
        let b = self.framebuffer_bpp as u64 / 8;
        assert(p * h <= 65535 * 65535) by (nonlinear_arith)
            requires
                p <= 65535,
                h <= 65535,
        ;
        assert(p * h * b <= 65535 * 65535 * 8191) by (nonlinear_arith)
            requires
                p * h <= 65535 * 65535,
                b <= 8191,
        ;
        (p * h * b) as usize
    }
}

/// This tag is used to get the location of the ACPI RSDP structure in memory.
#[derive(Clone, Copy, PartialEq, Eq, Structural, Debug)]
pub struct StivaleRsdpTag {
    pub header: StivaleTagHeader,
    /// Pointer to the ACPI RSDP structure.
    pub rsdp: u64,
}

impl StivaleRsdpTag {
    /// This tag is the one stored at `addr`.
    pub open spec fn decodes(&self, region: BootRegion, addr: u64) -> bool {
        &&& self.header.decodes(region, addr)
        &&& self.rsdp == region.u64_at(addr + 16)
    }

    /// Decodes the tag at `addr`.
    pub fn read(region: &BootRegion, addr: u64) -> (r: StivaleRsdpTag)
        requires
            region.holds(addr as int, RSDP_TAG_SIZE as int),
        ensures
            r.decodes(*region, addr),
    {
        StivaleRsdpTag {
            header: StivaleTagHeader::read(region, addr),
            rsdp: region.read_u64(addr + 16),
        }
    }
}

/// This tag is used to get the current UNIX epoch, as per RTC.
#[derive(Clone, Copy, PartialEq, Eq, Structural, Debug)]
pub struct StivaleEpochTag {
    pub header: StivaleTagHeader,
    /// UNIX epoch at boot, which is read from system RTC.
    pub epoch: u64,
}

impl StivaleEpochTag {
    /// This tag is the one stored at `addr`.
    pub open spec fn decodes(&self, region: BootRegion, addr: u64) -> bool {
        &&& self.header.decodes(region, addr)
        &&& self.epoch == region.u64_at(addr + 16)
    }

    /// Decodes the tag at `addr`.
    pub fn read(region: &BootRegion, addr: u64) -> (r: StivaleEpochTag)
        requires
            region.holds(addr as int, EPOCH_TAG_SIZE as int),
        ensures
            r.decodes(*region, addr),
    {
        StivaleEpochTag {
            header: StivaleTagHeader::read(region, addr),
            epoch: region.read_u64(addr + 16),
        }
    }
}

/// This tag is used to get a pointer to the EFI system table if available.
#[derive(Clone, Copy, PartialEq, Eq, Structural, Debug)]
pub struct StivaleEfiSystemTableTag {
    pub header: StivaleTagHeader,
    /// Address of the EFI system table.
    pub system_table_addr: u64,
}

impl StivaleEfiSystemTableTag {
    /// This tag is the one stored at `addr`.
    pub open spec fn decodes(&self, region: BootRegion, addr: u64) -> bool {
        &&& self.header.decodes(region, addr)
        &&& self.system_table_addr == region.u64_at(addr + 16)
    }

    /// Decodes the tag at `addr`.
    pub fn read(region: &BootRegion, addr: u64) -> (r: StivaleEfiSystemTableTag)
        requires
            region.holds(addr as int, EFI_SYSTEM_TABLE_TAG_SIZE as int),
        ensures
            r.decodes(*region, addr),
    {
        StivaleEfiSystemTableTag {
            header: StivaleTagHeader::read(region, addr),
            system_table_addr: region.read_u64(addr + 16),
        }
    }
}

/// This tag is used to get a pointer to a copy of the raw executable file of the kernel
/// that the bootloader loaded.
#[derive(Clone, Copy, PartialEq, Eq, Structural, Debug)]
pub struct StivaleKernelFileTag {
    pub header: StivaleTagHeader,
    /// Address of the raw kernel file.
    pub kernel_file_addr: u64,
}

impl StivaleKernelFileTag {
    /// This tag is the one stored at `addr`.
    pub open spec fn decodes(&self, region: BootRegion, addr: u64) -> bool {
        &&& self.header.decodes(region, addr)
        &&& self.kernel_file_addr == region.u64_at(addr + 16)
    }

    /// Decodes the tag at `addr`.
    pub fn read(region: &BootRegion, addr: u64) -> (r: StivaleKernelFileTag)
        requires
            region.holds(addr as int, KERNEL_FILE_TAG_SIZE as int),
        ensures
            r.decodes(*region, addr),
    {
        StivaleKernelFileTag {
            header: StivaleTagHeader::read(region, addr),
            kernel_file_addr: region.read_u64(addr + 16),
        }
    }
}

/// This tag is used to get the slide that the bootloader applied over the kernel's load
/// address as a positive offset.
#[derive(Clone, Copy, PartialEq, Eq, Structural, Debug)]
pub struct StivaleKernelSlideTag {
    pub header: StivaleTagHeader,
    /// The kernel slide.
    pub kernel_slide: u64,
}

impl StivaleKernelSlideTag {
    /// This tag is the one stored at `addr`.
    pub open spec fn decodes(&self, region: BootRegion, addr: u64) -> bool {
        &&& self.header.decodes(region, addr)
        &&& self.kernel_slide == region.u64_at(addr + 16)
    }

    /// Decodes the tag at `addr`.
    pub fn read(region: &BootRegion, addr: u64) -> (r: StivaleKernelSlideTag)
        requires
            region.holds(addr as int, KERNEL_SLIDE_TAG_SIZE as int),
        ensures
            r.decodes(*region, addr),
    {
        StivaleKernelSlideTag {
            header: StivaleTagHeader::read(region, addr),
            kernel_slide: region.read_u64(addr + 16),
        }
    }
}

/// This tag is used to get the command line string that was passed to the kernel by
/// the bootloader.
#[derive(Clone, Copy, PartialEq, Eq, Structural, Debug)]
pub struct StivaleCommandLineTag {
    pub header: StivaleTagHeader,
    /// Pointer to a null-terminated cmdline.
    pub command_line: u64,
}

impl StivaleCommandLineTag {
    /// This tag is the one stored at `addr`.
    pub open spec fn decodes(&self, region: BootRegion, addr: u64) -> bool {
        &&& self.header.decodes(region, addr)
        &&& self.command_line == region.u64_at(addr + 16)
    }

    /// Decodes the tag at `addr`.
    pub fn read(region: &BootRegion, addr: u64) -> (r: StivaleCommandLineTag)
        requires
            region.holds(addr as int, COMMAND_LINE_TAG_SIZE as int),
        ensures
            r.decodes(*region, addr),
    {
        StivaleCommandLineTag {
            header: StivaleTagHeader::read(region, addr),
            command_line: region.read_u64(addr + 16),
        }
    }
}

/// This tag is used to get the location of the SMBIOS entry points in memory.
#[derive(Clone, Copy, PartialEq, Eq, Structural, Debug)]
pub struct StivaleSmbiosTag {
    pub header: StivaleTagHeader,
    /// Reserved for future use; zero.
    pub flags: u64,
    /// 32-bit SMBIOS entry point address. Set to 0 if unavailable.
    pub smbios_entry_32: u64,
    /// 64-bit SMBIOS entry point address. Set to 0 if unavailable.
    pub smbios_entry_64: u64,
}

impl StivaleSmbiosTag {
    /// This tag is the one stored at `addr`.
    pub open spec fn decodes(&self, region: BootRegion, addr: u64) -> bool {
        &&& self.header.decodes(region, addr)
        &&& self.flags == region.u64_at(addr + 16)
        &&& self.smbios_entry_32 == region.u64_at(addr + 24)
        &&& self.smbios_entry_64 == region.u64_at(addr + 32)
    }

    /// Decodes the tag at `addr`.
    pub fn read(region: &BootRegion, addr: u64) -> (r: StivaleSmbiosTag)
        requires
            region.holds(addr as int, SMBIOS_TAG_SIZE as int),
        ensures
            r.decodes(*region, addr),
    {
        StivaleSmbiosTag {
            header: StivaleTagHeader::read(region, addr),
            flags: region.read_u64(addr + 16),
            smbios_entry_32: region.read_u64(addr + 24),
            smbios_entry_64: region.read_u64(addr + 32),
        }
    }
}

/// This tag reports that there is a memory mapped UART port and its address.
#[derive(Clone, Copy, PartialEq, Eq, Structural, Debug)]
pub struct StivaleUartTag {
    pub header: StivaleTagHeader,
    /// The address of the UART port.
    pub address: u64,
}

impl StivaleUartTag {
    /// This tag is the one stored at `addr`.
    pub open spec fn decodes(&self, region: BootRegion, addr: u64) -> bool {
        &&& self.header.decodes(region, addr)
        &&& self.address == region.u64_at(addr + 16)
    }

    /// Decodes the tag at `addr`.
    pub fn read(region: &BootRegion, addr: u64) -> (r: StivaleUartTag)
        requires
            region.holds(addr as int, UART_TAG_SIZE as int),
        ensures
            r.decodes(*region, addr),
    {
        StivaleUartTag {
            header: StivaleTagHeader::read(region, addr),
            address: region.read_u64(addr + 16),
        }
    }
}

/// This tag describes a device tree blob for the platform.
#[derive(Clone, Copy, PartialEq, Eq, Structural, Debug)]
pub struct StivaleDeviceTreeTag {
    pub header: StivaleTagHeader,
    /// The address of the device tree blob.
    pub address: u64,
    /// The size of the device tree blob.
    pub size: u64,
}

impl StivaleDeviceTreeTag {
    /// This tag is the one stored at `addr`.
    pub open spec fn decodes(&self, region: BootRegion, addr: u64) -> bool {
        &&& self.header.decodes(region, addr)
        &&& self.address == region.u64_at(addr + 16)
        &&& self.size == region.u64_at(addr + 24)
    }

    /// Decodes the tag at `addr`.
    pub fn read(region: &BootRegion, addr: u64) -> (r: StivaleDeviceTreeTag)
        requires
            region.holds(addr as int, DEVICE_TREE_TAG_SIZE as int),
        ensures
            r.decodes(*region, addr),
    {
        StivaleDeviceTreeTag {
            header: StivaleTagHeader::read(region, addr),
            address: region.read_u64(addr + 16),
            size: region.read_u64(addr + 24),
        }
    }
}

/// This tag describes the high physical memory location.
#[derive(Clone, Copy, PartialEq, Eq, Structural, Debug)]
pub struct StivaleVMapTag {
    pub header: StivaleTagHeader,
    /// VMAP_HIGH, where the physical memory is mapped in the higher half.
    pub address: u64,
}

impl StivaleVMapTag {
    /// This tag is the one stored at `addr`.
    pub open spec fn decodes(&self, region: BootRegion, addr: u64) -> bool {
        &&& self.header.decodes(region, addr)
        &&& self.address == region.u64_at(addr + 16)
    }

    /// Decodes the tag at `addr`.
    pub fn read(region: &BootRegion, addr: u64) -> (r: StivaleVMapTag)
        requires
            region.holds(addr as int, VMAP_TAG_SIZE as int),
        ensures
            r.decodes(*region, addr),
    {
        StivaleVMapTag {
            header: StivaleTagHeader::read(region, addr),
            address: region.read_u64(addr + 16),
        }
    }
}

/// This tag locates the raw executable file of the kernel and gives its size.
#[derive(Clone, Copy, PartialEq, Eq, Structural, Debug)]
pub struct StivaleKernelFileV2Tag {
    pub header: StivaleTagHeader,
    /// Address of the raw kernel file.
    pub kernel_start: u64,
    /// Size of the raw kernel file.
    pub kernel_size: u64,
}

impl StivaleKernelFileV2Tag {
    /// This tag is the one stored at `addr`.
    pub open spec fn decodes(&self, region: BootRegion, addr: u64) -> bool {
        &&& self.header.decodes(region, addr)
        &&& self.kernel_start == region.u64_at(addr + 16)
        &&& self.kernel_size == region.u64_at(addr + 24)
    }

    /// Decodes the tag at `addr`.
    pub fn read(region: &BootRegion, addr: u64) -> (r: StivaleKernelFileV2Tag)
        requires
            region.holds(addr as int, KERNEL_FILE_V2_TAG_SIZE as int),
        ensures
            r.decodes(*region, addr),
    {
        StivaleKernelFileV2Tag {
            header: StivaleTagHeader::read(region, addr),
            kernel_start: region.read_u64(addr + 16),
            kernel_size: region.read_u64(addr + 24),
        }
    }
}

/// This tag gives the physical and virtual addresses the kernel was loaded at.
#[derive(Clone, Copy, PartialEq, Eq, Structural, Debug)]
pub struct StivaleKernelBaseAddressTag {
    pub header: StivaleTagHeader,
    /// Physical base address of the kernel.
    pub physical_base_address: u64,
    /// Virtual base address of the kernel.
    pub virtual_base_address: u64,
}

impl StivaleKernelBaseAddressTag {
    /// This tag is the one stored at `addr`.
    pub open spec fn decodes(&self, region: BootRegion, addr: u64) -> bool {
        &&& self.header.decodes(region, addr)
        &&& self.physical_base_address == region.u64_at(addr + 16)
        &&& self.virtual_base_address == region.u64_at(addr + 24)
    }

    /// Decodes the tag at `addr`.
    pub fn read(region: &BootRegion, addr: u64) -> (r: StivaleKernelBaseAddressTag)
        requires
            region.holds(addr as int, KERNEL_BASE_ADDRESS_TAG_SIZE as int),
        ensures
            r.decodes(*region, addr),
    {
        StivaleKernelBaseAddressTag {
            header: StivaleTagHeader::read(region, addr),
            physical_base_address: region.read_u64(addr + 16),
            virtual_base_address: region.read_u64(addr + 24),
        }
    }
}

/// If the terminal tag was requested through the terminal tag header and its supported by the stivale
/// bootloader, this tag is returned to the kernel. This tag provides an interface to the stivale terminal.
#[derive(Clone, Copy, PartialEq, Eq, Structural, Debug)]
pub struct StivaleTerminalTag {
    pub header: StivaleTagHeader,
    pub flags: u32,
    /// The amount of columns in the stivale terminal setup by the bootloader.
    pub cols: u16,
    /// The amount of rows in the stivale terminal setup by the bootloader.
    pub rows: u16,
    /// The virtual address of the `term_write` routine, which writes to the stivale terminal.
    /// It takes a pointer to the text and its length in bytes, and is not reentrant:
    /// it must not be called from two execution contexts at once.
    pub term_write_addr: u64,
}

impl StivaleTerminalTag {
    /// This tag is the one stored at `addr`.
    pub open spec fn decodes(&self, region: BootRegion, addr: u64) -> bool {
        &&& self.header.decodes(region, addr)
        &&& self.flags == region.u32_at(addr + 16)
        &&& self.cols == region.u16_at(addr + 20)
        &&& self.rows == region.u16_at(addr + 22)
        &&& self.term_write_addr == region.u64_at(addr + 24)
    }

    /// Decodes the terminal tag at `addr`.
    pub fn read(region: &BootRegion, addr: u64) -> (r: StivaleTerminalTag)
        requires
            region.holds(addr as int, TERMINAL_TAG_SIZE as int),
        ensures
            r.decodes(*region, addr),
    {
        StivaleTerminalTag {
            header: StivaleTagHeader::read(region, addr),
            flags: region.read_u32(addr + 16),
            cols: region.read_u16(addr + 20),
            rows: region.read_u16(addr + 22),
            term_write_addr: region.read_u64(addr + 24),
        }
    }
}

/// Bitfield representing the firmware and boot flags passed by the bootloader.
#[derive(Clone, Copy, PartialEq, Eq, Structural, Debug)]
pub struct StivaleFirmwareTagFlags {
    pub bits: u64,
}

impl StivaleFirmwareTagFlags {
    /// The kernel was booted in UEFI mode (no bit set).
    pub const UEFI: u64 = 0x00;
    /// The kernel was booted in a legacy BIOS mode.
    pub const BIOS: u64 = 0x01;

    /// The raw bits.
    pub fn bits(&self) -> (r: u64)
        ensures
            r == self.bits,
    {
        self.bits
    }

    /// Whether every bit of `flag` is set.
    pub fn contains(&self, flag: u64) -> (r: bool)
        ensures
            r == (self.bits & flag == flag),
    {
        self.bits & flag == flag
    }
}

/// This tag is used to get the info about the firmware.
#[derive(Clone, Copy, PartialEq, Eq, Structural, Debug)]
pub struct StivaleFirmwareTag {
    pub header: StivaleTagHeader,
    /// Flags telling about the firmware and boot flags passed by the bootloader.
    pub flags: StivaleFirmwareTagFlags,
}

impl StivaleFirmwareTag {
    /// This tag is the one stored at `addr`.
    pub open spec fn decodes(&self, region: BootRegion, addr: u64) -> bool {
        &&& self.header.decodes(region, addr)
        &&& self.flags.bits == region.u64_at(addr + 16)
    }

    /// Decodes the firmware tag at `addr`.
    pub fn read(region: &BootRegion, addr: u64) -> (r: StivaleFirmwareTag)
        requires
            region.holds(addr as int, FIRMWARE_TAG_SIZE as int),
        ensures
            r.decodes(*region, addr),
    {
        StivaleFirmwareTag {
            header: StivaleTagHeader::read(region, addr),
            flags: StivaleFirmwareTagFlags { bits: region.read_u64(addr + 16) },
        }
    }
}

/// This tag reports that the kernel has been booted via PXE, and reports the server ip that
/// it was booted from.
#[derive(Clone, Copy, PartialEq, Eq, Structural, Debug)]
pub struct StivalePxeInfoTag {
    pub header: StivaleTagHeader,
    /// Server IP in network byte order.
    pub server_ip: u32,
}

impl StivalePxeInfoTag {
    /// This tag is the one stored at `addr`.
    pub open spec fn decodes(&self, region: BootRegion, addr: u64) -> bool {
        &&& self.header.decodes(region, addr)
        &&& self.server_ip == region.u32_at(addr + 16)
    }

    /// Decodes the PXE tag at `addr`.
    pub fn read(region: &BootRegion, addr: u64) -> (r: StivalePxeInfoTag)
        requires
            region.holds(addr as int, PXE_TAG_SIZE as int),
        ensures
            r.decodes(*region, addr),
    {
        StivalePxeInfoTag {
            header: StivaleTagHeader::read(region, addr),
            server_ip: region.read_u32(addr + 16),
        }
    }
}

/// This tag exists if MTRR write-combining for the framebuffer was requested and successfully
/// enabled. It is legacy: newer bootloaders may not support it.
#[derive(Clone, Copy, PartialEq, Eq, Structural, Debug)]
pub struct StivaleMtrrTag {
    pub header: StivaleTagHeader,
}

impl StivaleMtrrTag {
    /// This tag is the one stored at `addr`.
    pub open spec fn decodes(&self, region: BootRegion, addr: u64) -> bool {
        self.header.decodes(region, addr)
    }

    /// Decodes the MTRR tag at `addr`.
    pub fn read(region: &BootRegion, addr: u64) -> (r: StivaleMtrrTag)
        requires
            region.holds(addr as int, MTRR_TAG_SIZE as int),
        ensures
            r.decodes(*region, addr),
    {
        StivaleMtrrTag { header: StivaleTagHeader::read(region, addr) }
    }
}

/// Which of the GUIDs of a boot volume tag are valid.
#[derive(Clone, Copy, PartialEq, Eq, Structural, Debug)]
pub struct StivaleBootVolumeTagFlags {
    pub bits: u64,
}

impl StivaleBootVolumeTagFlags {
    pub const VOLUME_GUID: u64 = 1;
    pub const PARTITION_GUID: u64 = 2;

    /// Whether every bit of `flag` is set.
    pub fn contains(&self, flag: u64) -> (r: bool)
        ensures
            r == (self.bits & flag == flag),
    {
        self.bits & flag == flag
    }
}

/// A GUID as laid out in memory: a 32-bit, two 16-bit fields and eight bytes.
#[derive(Clone, Copy, PartialEq, Eq, Debug, Hash)]
pub struct StivaleGuid(pub u32, pub u16, pub u16, pub [u8; 8]);

impl StivaleGuid {
    /// This GUID is the one stored at `addr`.
    pub open spec fn decodes(&self, region: BootRegion, addr: u64) -> bool {
        &&& self.0 == region.u32_at(addr as int)
        &&& self.1 == region.u16_at(addr + 4)
        &&& self.2 == region.u16_at(addr + 6)
        &&& self.3@ == region.bytes_at(addr + 8, 8)
    }

    /// Decodes the GUID at `addr`.
    pub fn read(region: &BootRegion, addr: u64) -> (r: StivaleGuid)
        requires
            region.holds(addr as int, 16),
        ensures
            r.decodes(*region, addr),
    {
        let mut tail: [u8; 8] = [0u8; 8];
        let mut i: usize = 0;
        while i < 8
            invariant
                region.holds(addr as int, 16),
                0 <= i <= 8,
                forall|j: int| 0 <= j < i ==> tail@[j] == region.byte_at(addr + 8 + j),
            decreases 8 - i,
        {
            tail[i] = region.read_u8(addr + 8 + i as u64);
            i += 1;
        }
        assert(tail@ =~= region.bytes_at(addr + 8, 8));
        StivaleGuid(region.read_u32(addr), region.read_u16(addr + 4), region.read_u16(addr + 6), tail)
    }
}

/// This tag describes the volume and partition the kernel was loaded from.
#[derive(Clone, Copy, Debug)]
pub struct StivaleBootVolumeTag {
    pub header: StivaleTagHeader,
    pub flags: StivaleBootVolumeTagFlags,
    pub guid: StivaleGuid,
    pub part_guid: StivaleGuid,
}

impl StivaleBootVolumeTag {
    /// This tag is the one stored at `addr`.
    pub open spec fn decodes(&self, region: BootRegion, addr: u64) -> bool {
        &&& self.header.decodes(region, addr)
        &&& self.flags.bits == region.u64_at(addr + 16)
        &&& self.guid.decodes(region, (addr + 24) as u64)
        &&& self.part_guid.decodes(region, (addr + 40) as u64)
    }

    /// Decodes the boot volume tag at `addr`.
    pub fn read(region: &BootRegion, addr: u64) -> (r: StivaleBootVolumeTag)
        requires
            region.holds(addr as int, BOOT_VOLUME_TAG_SIZE as int),
        ensures
            r.decodes(*region, addr),
    {
        StivaleBootVolumeTag {
            header: StivaleTagHeader::read(region, addr),
            flags: StivaleBootVolumeTagFlags { bits: region.read_u64(addr + 16) },
            guid: StivaleGuid::read(region, addr + 24),
            part_guid: StivaleGuid::read(region, addr + 40),
        }
    }
}

/// The type of a memory map entry.
///
/// The entries are sorted by base address, lowest to highest. Usable and bootloader
/// reclaimable entries are 4096-byte aligned in base and length, and overlap no other entry.
#[derive(Clone, Copy, PartialEq, Eq, Structural, Debug)]
pub enum StivaleMemoryMapEntryType {
    /// Usable memory.
    Usable,
    /// Memory reserved by the system.
    Reserved,
    /// ACPI memory that can be reclaimed.
    AcpiReclaimable,
    /// ACPI memory that cannot be reclaimed.
    AcpiNvs,
    /// Memory marked as defective (bad RAM).
    BadMemory,
    /// Memory used by the bootloader that can be reclaimed after it's not being used anymore.
    BootloaderReclaimable,
    /// Memory containing the kernel and any modules.
    Kernel,
    /// Memory containing the framebuffer.
    Framebuffer,
    /// A type code the protocol does not define, as it was found.
    Unknown(u32),
}

/// The memory type that the protocol gives the code `code`.
pub open spec fn memory_type_of(code: u32) -> StivaleMemoryMapEntryType {
    if code == 1 {
        StivaleMemoryMapEntryType::Usable
    } else if code == 2 {
        StivaleMemoryMapEntryType::Reserved
    } else if code == 3 {
        StivaleMemoryMapEntryType::AcpiReclaimable
    } else if code == 4 {
        StivaleMemoryMapEntryType::AcpiNvs
    } else if code == 5 {
        StivaleMemoryMapEntryType::BadMemory
    } else if code == 0x1000 {
        StivaleMemoryMapEntryType::BootloaderReclaimable
    } else if code == 0x1001 {
        StivaleMemoryMapEntryType::Kernel
    } else if code == 0x1002 {
        StivaleMemoryMapEntryType::Framebuffer
    } else {
        StivaleMemoryMapEntryType::Unknown(code)
    }
}

impl StivaleMemoryMapEntryType {
    /// The memory type of the code `code`.
    pub fn from_code(code: u32) -> (r: StivaleMemoryMapEntryType)
        ensures
            r == memory_type_of(code),
    {
        if code == 1 {
            StivaleMemoryMapEntryType::Usable
        } else if code == 2 {
            StivaleMemoryMapEntryType::Reserved
        } else if code == 3 {
            StivaleMemoryMapEntryType::AcpiReclaimable
        } else if code == 4 {
            StivaleMemoryMapEntryType::AcpiNvs
        } else if code == 5 {
            StivaleMemoryMapEntryType::BadMemory
        } else if code == 0x1000 {
            StivaleMemoryMapEntryType::BootloaderReclaimable
        } else if code == 0x1001 {
            StivaleMemoryMapEntryType::Kernel
        } else if code == 0x1002 {
            StivaleMemoryMapEntryType::Framebuffer
        } else {
            StivaleMemoryMapEntryType::Unknown(code)
        }
    }
}

/// A memory map entry, as the bootloader reports it.
#[derive(Clone, Copy, PartialEq, Eq, Structural, Debug)]
pub struct StivaleMemoryMapEntry {
    /// Physical address of base of the memory section.
    pub base: u64,
    /// Length of this memory section.
    pub length: u64,
    /// The type of this memory map entry.
    pub entry_type: StivaleMemoryMapEntryType,
}

/// The memory map entry at index `i` of the array `arr`.
pub open spec fn memory_map_entry_at(arr: Seq<u8>, i: int) -> StivaleMemoryMapEntry {
    let o = i * MEMORY_MAP_ENTRY_SIZE;
    StivaleMemoryMapEntry {
        base: le_u64(arr, o) as u64,
        length: le_u64(arr, o + 8) as u64,
        entry_type: memory_type_of(le_u32(arr, o + 16) as u32),
    }
}

impl StivaleMemoryMapEntry {
    /// Returns the end address of this memory region: its base plus its length.
    pub fn end_address(&self) -> (r: u64)
        requires
            self.base + self.length <= u64::MAX,
        ensures
            r == self.base + self.length,
    {
        self.base + self.length
    }

    /// Returns the entry type of this memory region.
    pub fn entry_type(&self) -> (r: StivaleMemoryMapEntryType)
        ensures
            r == self.entry_type,
    {
        self.entry_type
    }
}

/// The memory map: the regions of physical memory and what each holds.
#[derive(Clone, Copy)]
pub struct StivaleMemoryMapTag<'a> {
    pub header: StivaleTagHeader,
    /// Number of memory map entries.
    pub entries_len: u64,
    /// The bytes of the entries, `entries_len` records of 24 bytes.
    pub entry_array: &'a [u8],
}

impl<'a> StivaleMemoryMapTag<'a> {
    /// The entry array holds exactly `entries_len` entries.
    pub open spec fn wf(&self) -> bool {
        self.entry_array@.len() == self.entries_len * MEMORY_MAP_ENTRY_SIZE
    }

    /// The entry at index `i`.
    pub open spec fn entry(&self, i: int) -> StivaleMemoryMapEntry {
        memory_map_entry_at(self.entry_array@, i)
    }

    /// The entries, in order.
    pub open spec fn entries(&self) -> Seq<StivaleMemoryMapEntry> {
        Seq::new(self.entries_len as nat, |i: int| self.entry(i))
    }

    /// This tag is the one stored at `addr`.
    pub open spec fn decodes(&self, region: BootRegion, addr: u64) -> bool {
        &&& self.header.decodes(region, addr)
        &&& self.entries_len == region.u64_at(addr + 16)
        &&& self.entry_array@ == region.bytes_at(
            addr + MEMORY_MAP_TAG_PREFIX,
            self.entries_len * MEMORY_MAP_ENTRY_SIZE,
        )
    }

    /// The memory map tag at `addr`, with its entries, lies in the region.
    pub open spec fn fits(region: BootRegion, addr: u64) -> bool {
        &&& region.holds(addr as int, MEMORY_MAP_TAG_PREFIX as int)
        &&& region.holds(
            addr + MEMORY_MAP_TAG_PREFIX,
            region.u64_at(addr + 16) * MEMORY_MAP_ENTRY_SIZE,
        )
    }

    /// Decodes the memory map tag at `addr`; its entries stay in the region's memory.
    pub fn read(region: &BootRegion<'a>, addr: u64) -> (r: StivaleMemoryMapTag<'a>)
        requires
            Self::fits(*region, addr),
        ensures
            r.decodes(*region, addr),
            r.wf(),
    {
        let entries_len = region.read_u64(addr + 16);
        StivaleMemoryMapTag {
            header: StivaleTagHeader::read(region, addr),
            entries_len,
            entry_array: region.slice_at(addr + MEMORY_MAP_TAG_PREFIX, entries_len * MEMORY_MAP_ENTRY_SIZE),
        }
    }

    /// Returns the entry at `index`.
    pub fn entry_at(&self, index: u64) -> (r: StivaleMemoryMapEntry)
        requires
            self.wf(),
            index < self.entries_len,
        ensures
            r == self.entry(index as int),
    {
        proof {
            lemma_slice_len_fits(self.entry_array);
            assert(index * MEMORY_MAP_ENTRY_SIZE + MEMORY_MAP_ENTRY_SIZE <= self.entries_len
                * MEMORY_MAP_ENTRY_SIZE);
        }
        let o = (index * MEMORY_MAP_ENTRY_SIZE) as usize;
        StivaleMemoryMapEntry {
            base: read_le_u64(self.entry_array, o),
            length: read_le_u64(self.entry_array, o + 8),
            entry_type: StivaleMemoryMapEntryType::from_code(read_le_u32(self.entry_array, o + 16)),
        }
    }

    /// Returns an iterator over all the memory regions.
    pub fn iter(&'a self) -> (r: StivaleMemoryMapIter<'a>)
        ensures
            r.sref == self,
            r.current == 0,
    {
        StivaleMemoryMapIter { sref: self, current: 0 }
    }
}

/// Iterator over all the memory regions provided by the stivale bootloader.
#[derive(Clone, Copy)]
pub struct StivaleMemoryMapIter<'a> {
    /// The memory map tag walked over.
    pub sref: &'a StivaleMemoryMapTag<'a>,
    /// The index of the memory map entry that we are about to yield.
    pub current: u64,
}

impl<'a> StivaleMemoryMapIter<'a> {
    /// The entries this iterator has still to yield, in order.
    pub open spec fn remaining(&self) -> Seq<StivaleMemoryMapEntry> {
        if self.current <= self.sref.entries_len {
            self.sref.entries().skip(self.current as int)
        } else {
            Seq::empty()
        }
    }

    /// Yields the next entry, or `None` once every entry has been yielded.
    pub fn next(&mut self) -> (r: Option<StivaleMemoryMapEntry>)
        requires
            old(self).sref.wf(),
        ensures
            final(self).sref == old(self).sref,
            old(self).current < old(self).sref.entries_len ==> r == Some(
                old(self).sref.entry(old(self).current as int),
            ) && final(self).current == old(self).current + 1,
            old(self).current >= old(self).sref.entries_len ==> r is None && final(self).current
                == old(self).current,
    {
        if self.current < self.sref.entries_len {
            let entry = self.sref.entry_at(self.current);
            self.current += 1;
            Some(entry)
        } else {
            None
        }
    }
}

/// Structure representing a module, containing the information of a module that
/// the bootloader loaded alongside the kernel.
#[derive(Clone, Copy)]
pub struct StivaleModule<'a> {
    /// Address where this module has been loaded.
    pub start: u64,
    /// End address of this module.
    pub end: u64,
    /// ASCII 0-terminated string passed to the module as specified in
    /// the config file (128 bytes).
    pub string: &'a [u8],
}

impl<'a> StivaleModule<'a> {
    /// This module is the record at offset `o` of `arr`.
    pub open spec fn decodes(&self, arr: Seq<u8>, o: int) -> bool {
        &&& self.start == le_u64(arr, o)
        &&& self.end == le_u64(arr, o + 8)
        &&& self.string@ == arr.subrange(o + 16, o + MODULE_SIZE)
    }

    /// Returns the size of this module: its end address minus its start address.
    pub fn size(&self) -> (r: u64)
        requires
            self.start <= self.end,
        ensures
            r == self.end - self.start,
    {
        self.end - self.start
    }

    /// Returns the string passed to the module: `None` when the field's first byte
    /// is zero (no string was given) or its text is not UTF-8, else the text before
    /// the first zero byte.
    pub fn as_str(&self) -> (r: Option<&'a str>)
        requires
            self.string@.len() == MODULE_STRING_SIZE,
        ensures
            r is Some <==> self.string@[0] != 0 && valid_utf8(text_of(self.string@)),
            r matches Some(s) ==> s.spec_bytes() == text_of(self.string@),
    {
        string_from_u8(self.string)
    }
}

/// This tag is used to get the modules that the bootloader loaded alongside the kernel, if any.
#[derive(Clone, Copy)]
pub struct StivaleModuleTag<'a> {
    pub header: StivaleTagHeader,
    /// Length of the modules array.
    pub module_len: u64,
    /// The bytes of the modules, `module_len` records of 144 bytes.
    pub modules_array: &'a [u8],
}

impl<'a> StivaleModuleTag<'a> {
    /// The module array holds exactly `module_len` modules.
    pub open spec fn wf(&self) -> bool {
        self.modules_array@.len() == self.module_len * MODULE_SIZE
    }

    /// `m` is the module at index `i`.
    pub open spec fn module_is(&self, i: int, m: StivaleModule) -> bool {
        m.decodes(self.modules_array@, i * MODULE_SIZE)
    }

    /// This tag is the one stored at `addr`.
    pub open spec fn decodes(&self, region: BootRegion, addr: u64) -> bool {
        &&& self.header.decodes(region, addr)
        &&& self.module_len == region.u64_at(addr + 16)
        &&& self.modules_array@ == region.bytes_at(
            addr + MODULES_TAG_PREFIX,
            self.module_len * MODULE_SIZE,
        )
    }

    /// The module tag at `addr`, with its modules, lies in the region.
    pub open spec fn fits(region: BootRegion, addr: u64) -> bool {
        &&& region.holds(addr as int, MODULES_TAG_PREFIX as int)
        &&& region.holds(addr + MODULES_TAG_PREFIX, region.u64_at(addr + 16) * MODULE_SIZE)
    }

    /// Decodes the module tag at `addr`; its modules stay in the region's memory.
    pub fn read(region: &BootRegion<'a>, addr: u64) -> (r: StivaleModuleTag<'a>)
        requires
            Self::fits(*region, addr),
        ensures
            r.decodes(*region, addr),
            r.wf(),
    {
        let module_len = region.read_u64(addr + 16);
        StivaleModuleTag {
            header: StivaleTagHeader::read(region, addr),
            module_len,
            modules_array: region.slice_at(addr + MODULES_TAG_PREFIX, module_len * MODULE_SIZE),
        }
    }

    /// Returns the module at `index`.
    pub fn module_at(&self, index: u64) -> (r: StivaleModule<'a>)
        requires
            self.wf(),
            index < self.module_len,
        ensures
            self.module_is(index as int, r),
            r.string@.len() == MODULE_STRING_SIZE,
    {
        proof {
            lemma_slice_len_fits(self.modules_array);
            assert(index * MODULE_SIZE + MODULE_SIZE <= self.module_len * MODULE_SIZE);
        }
        let o = (index * MODULE_SIZE) as usize;
        StivaleModule {
            start: read_le_u64(self.modules_array, o),
            end: read_le_u64(self.modules_array, o + 8),
            string: &self.modules_array[o + 16..o + 144],
        }
    }

    /// Returns an iterator over all the modules that were loaded.
    pub fn iter(&'a self) -> (r: StivaleModuleIter<'a>)
        ensures
            r.sref == self,
            r.current == 0,
    {
        StivaleModuleIter { sref: self, current: 0 }
    }
}

/// Iterator over all the modules that were loaded.
#[derive(Clone, Copy)]
pub struct StivaleModuleIter<'a> {
    /// The module tag walked over.
    pub sref: &'a StivaleModuleTag<'a>,
    /// The index of the module that we are about to yield.
    pub current: u64,
}

impl<'a> StivaleModuleIter<'a> {
    /// Yields the next module, or `None` once every module has been yielded.
    pub fn next(&mut self) -> (r: Option<StivaleModule<'a>>)
        requires
            old(self).sref.wf(),
        ensures
            final(self).sref == old(self).sref,
            old(self).current < old(self).sref.module_len ==> (r matches Some(m)
                && old(self).sref.module_is(old(self).current as int, m)
                && m.string@.len() == MODULE_STRING_SIZE)
                && final(self).current == old(self).current + 1,
            old(self).current >= old(self).sref.module_len ==> r is None && final(self).current
                == old(self).current,
    {
        if self.current < self.sref.module_len {
            let module = self.sref.module_at(self.current);
            self.current += 1;
            Some(module)
        } else {
            None
        }
    }
}

/// This tag is used to get the EDID information as acquired by the firmware.
#[derive(Clone, Copy)]
pub struct StivaleEdidInfoTag<'a> {
    pub header: StivaleTagHeader,
    /// Length of the EDID information array.
    pub edid_len: u64,
    /// The EDID information bytes.
    pub info_array: &'a [u8],
}

impl<'a> StivaleEdidInfoTag<'a> {
    /// This tag is the one stored at `addr`.
    pub open spec fn decodes(&self, region: BootRegion, addr: u64) -> bool {
        &&& self.header.decodes(region, addr)
        &&& self.edid_len == region.u64_at(addr + 16)
        &&& self.info_array@ == region.bytes_at(addr + EDID_TAG_PREFIX, self.edid_len as int)
    }

    /// The EDID tag at `addr`, with its bytes, lies in the region.
    pub open spec fn fits(region: BootRegion, addr: u64) -> bool {
        &&& region.holds(addr as int, EDID_TAG_PREFIX as int)
        &&& region.holds(addr + EDID_TAG_PREFIX, region.u64_at(addr + 16) as int)
    }

    /// Decodes the EDID tag at `addr`; its bytes stay in the region's memory.
    pub fn read(region: &BootRegion<'a>, addr: u64) -> (r: StivaleEdidInfoTag<'a>)
        requires
            Self::fits(*region, addr),
        ensures
            r.decodes(*region, addr),
    {
        let edid_len = region.read_u64(addr + 16);
        StivaleEdidInfoTag {
            header: StivaleTagHeader::read(region, addr),
            edid_len,
            info_array: region.slice_at(addr + EDID_TAG_PREFIX, edid_len),
        }
    }

    /// Returns the EDID information bytes.
    pub fn as_slice(&self) -> (r: &'a [u8])
        ensures
            r@ == self.info_array@,
    {
        self.info_array
    }
}

/// SMP information about one logical CPU.
#[derive(Clone, Copy, PartialEq, Eq, Structural, Debug)]
pub struct StivaleSmpInfo {
    /// ACPI Processor UID as specified by MADT.
    pub acpi_processor_uid: u32,
    /// LAPIC ID as specified by MADT.
    pub lapic_id: u32,
    /// The stack that will be loaded in ESP/RSP once the goto_address field is loaded.
    /// It must point to a valid stack of at least 256 bytes, 16-byte aligned. Unused for the BSP.
    pub target_stack: u64,
    /// Polled by the parked CPU until another CPU writes it; the CPU then loads its stack
    /// from `target_stack` and jumps here with a pointer to this structure. Unused for the BSP.
    pub goto_address: u64,
    /// Free for the kernel's use.
    pub extra: u64,
}

/// The SMP information record at index `i` of the array `arr`.
pub open spec fn smp_info_at(arr: Seq<u8>, i: int) -> StivaleSmpInfo {
    let o = i * SMP_INFO_SIZE;
    StivaleSmpInfo {
        acpi_processor_uid: le_u32(arr, o) as u32,
        lapic_id: le_u32(arr, o + 4) as u32,
        target_stack: le_u64(arr, o + 8) as u64,
        goto_address: le_u64(arr, o + 16) as u64,
        extra: le_u64(arr, o + 24) as u64,
    }
}

/// This tag describes the processors the bootloader found and parked.
#[derive(Clone, Copy)]
pub struct StivaleSmpTag<'a> {
    pub header: StivaleTagHeader,
    pub flags: StivaleSmpHeaderTagFlags,
    /// LAPIC ID of the BSP (bootstrap processor).
    pub bsp_lapic_id: u32,
    /// Reserved for future use.
    pub unused: u32,
    /// The total number of logical CPUs (including BSP).
    pub cpu_count: u64,
    /// The bytes of the SMP info records, `cpu_count` records of 32 bytes.
    pub smp_info_array: &'a [u8],
}

impl<'a> StivaleSmpTag<'a> {
    /// The info array holds exactly `cpu_count` records.
    pub open spec fn wf(&self) -> bool {
        self.smp_info_array@.len() == self.cpu_count * SMP_INFO_SIZE
    }

    /// The record of the CPU at index `i`.
    pub open spec fn info(&self, i: int) -> StivaleSmpInfo {
        smp_info_at(self.smp_info_array@, i)
    }

    /// This tag is the one stored at `addr`.
    pub open spec fn decodes(&self, region: BootRegion, addr: u64) -> bool {
        &&& self.header.decodes(region, addr)
        &&& self.flags.bits == region.u64_at(addr + 16)
        &&& self.bsp_lapic_id == region.u32_at(addr + 24)
        &&& self.unused == region.u32_at(addr + 28)
        &&& self.cpu_count == region.u64_at(addr + 32)
        &&& self.smp_info_array@ == region.bytes_at(
            addr + SMP_TAG_PREFIX,
            self.cpu_count * SMP_INFO_SIZE,
        )
    }

    /// The SMP tag at `addr`, with its records, lies in the region.
    pub open spec fn fits(region: BootRegion, addr: u64) -> bool {
        &&& region.holds(addr as int, SMP_TAG_PREFIX as int)
        &&& region.holds(addr + SMP_TAG_PREFIX, region.u64_at(addr + 32) * SMP_INFO_SIZE)
    }

    /// Decodes the SMP tag at `addr`; its records stay in the region's memory.
    pub fn read(region: &BootRegion<'a>, addr: u64) -> (r: StivaleSmpTag<'a>)
        requires
            Self::fits(*region, addr),
        ensures
            r.decodes(*region, addr),
            r.wf(),
    {
        let cpu_count = region.read_u64(addr + 32);
        StivaleSmpTag {
            header: StivaleTagHeader::read(region, addr),
            flags: StivaleSmpHeaderTagFlags { bits: region.read_u64(addr + 16) },
            bsp_lapic_id: region.read_u32(addr + 24),
            unused: region.read_u32(addr + 28),
            cpu_count,
            smp_info_array: region.slice_at(addr + SMP_TAG_PREFIX, cpu_count * SMP_INFO_SIZE),
        }
    }

    /// Return's the tag header
    pub fn header(&self) -> (r: &StivaleTagHeader)
        ensures
            *r == self.header,
    {
        &self.header
    }

    /// Return's the total number of logical CPUs (including BSP).
    pub fn cpu_count(&self) -> (r: u64)
        ensures
            r == self.cpu_count,
    {
        self.cpu_count
    }

    /// Returns the record of the CPU at `index`.
    pub fn info_at(&self, index: u64) -> (r: StivaleSmpInfo)
        requires
            self.wf(),
            index < self.cpu_count,
        ensures
            r == self.info(index as int),
    {
        proof {
            lemma_slice_len_fits(self.smp_info_array);
            assert(index * SMP_INFO_SIZE + SMP_INFO_SIZE <= self.cpu_count * SMP_INFO_SIZE);
        }
        let o = (index * SMP_INFO_SIZE) as usize;
        StivaleSmpInfo {
            acpi_processor_uid: read_le_u32(self.smp_info_array, o),
            lapic_id: read_le_u32(self.smp_info_array, o + 4),
            target_stack: read_le_u64(self.smp_info_array, o + 8),
            goto_address: read_le_u64(self.smp_info_array, o + 16),
            extra: read_le_u64(self.smp_info_array, o + 24),
        }
    }
}

/// Permissions of a protected memory range.
#[derive(Clone, Copy, PartialEq, Eq, Structural, Debug)]
pub struct StivalePmrPermissionFlags {
    pub bits: u64,
}

impl StivalePmrPermissionFlags {
    pub const EXECUTABLE: u64 = 1;
    pub const WRITABLE: u64 = 2;
    pub const READABLE: u64 = 4;
    /// Every permission bit.
    pub const ALL: u64 = 7;

    /// Keeps the permission bits of `bits` and drops the others.
    pub fn from_bits_truncate(bits: u64) -> (r: StivalePmrPermissionFlags)
        ensures
            r.bits == bits & Self::ALL,
    {
        StivalePmrPermissionFlags { bits: bits & Self::ALL }
    }

    /// Whether every bit of `flag` is set.
    pub fn contains(&self, flag: u64) -> (r: bool)
        ensures
            r == (self.bits & flag == flag),
    {
        self.bits & flag == flag
    }
}

/// A protected memory range: a range of the kernel's image and the access it allows.
#[derive(Clone, Copy, PartialEq, Eq, Structural, Debug)]
pub struct StivalePmr {
    pub base: u64,
    pub size: u64,
    /// The permissions field contains flags to determine the range's permissions.
    pub permissions: u64,
}

/// The protected memory range at index `i` of the array `arr`.
pub open spec fn pmr_at(arr: Seq<u8>, i: int) -> StivalePmr {
    let o = i * PMR_SIZE;
    StivalePmr {
        base: le_u64(arr, o) as u64,
        size: le_u64(arr, o + 8) as u64,
        permissions: le_u64(arr, o + 16) as u64,
    }
}

impl StivalePmr {
    /// The permissions of this range; bits the protocol does not define are dropped.
    pub fn permissions(&self) -> (r: StivalePmrPermissionFlags)
        ensures
            r.bits == self.permissions & StivalePmrPermissionFlags::ALL,
    {
        StivalePmrPermissionFlags::from_bits_truncate(self.permissions)
    }
}

/// This tag lists the protected memory ranges of the kernel's image.
#[derive(Clone, Copy)]
pub struct StivalePmrsTag<'a> {
    pub header: StivaleTagHeader,
    /// Count of PMRs in following array.
    pub pmr_count: u64,
    /// The bytes of the ranges, `pmr_count` records of 24 bytes.
    pub pmrs: &'a [u8],
}

impl<'a> StivalePmrsTag<'a> {
    /// The array holds exactly `pmr_count` ranges.
    pub open spec fn wf(&self) -> bool {
        self.pmrs@.len() == self.pmr_count * PMR_SIZE
    }

    /// The range at index `i`.
    pub open spec fn pmr(&self, i: int) -> StivalePmr {
        pmr_at(self.pmrs@, i)
    }

    /// This tag is the one stored at `addr`.
    pub open spec fn decodes(&self, region: BootRegion, addr: u64) -> bool {
        &&& self.header.decodes(region, addr)
        &&& self.pmr_count == region.u64_at(addr + 16)
        &&& self.pmrs@ == region.bytes_at(addr + PMRS_TAG_PREFIX, self.pmr_count * PMR_SIZE)
    }

    /// The PMR tag at `addr`, with its ranges, lies in the region.
    pub open spec fn fits(region: BootRegion, addr: u64) -> bool {
        &&& region.holds(addr as int, PMRS_TAG_PREFIX as int)
        &&& region.holds(addr + PMRS_TAG_PREFIX, region.u64_at(addr + 16) * PMR_SIZE)
    }

    /// Decodes the PMR tag at `addr`; its ranges stay in the region's memory.
    pub fn read(region: &BootRegion<'a>, addr: u64) -> (r: StivalePmrsTag<'a>)
        requires
            Self::fits(*region, addr),
        ensures
            r.decodes(*region, addr),
            r.wf(),
    {
        let pmr_count = region.read_u64(addr + 16);
        StivalePmrsTag {
            header: StivaleTagHeader::read(region, addr),
            pmr_count,
            pmrs: region.slice_at(addr + PMRS_TAG_PREFIX, pmr_count * PMR_SIZE),
        }
    }

    /// Returns the range at `index`.
    pub fn pmr_at(&self, index: u64) -> (r: StivalePmr)
        requires
            self.wf(),
            index < self.pmr_count,
        ensures
            r == self.pmr(index as int),
    {
        proof {
            lemma_slice_len_fits(self.pmrs);
            assert(index * PMR_SIZE + PMR_SIZE <= self.pmr_count * PMR_SIZE);
        }
        let o = (index * PMR_SIZE) as usize;
        StivalePmr {
            base: read_le_u64(self.pmrs, o),
            size: read_le_u64(self.pmrs, o + 8),
            permissions: read_le_u64(self.pmrs, o + 16),
        }
    }
}

} // verus!
