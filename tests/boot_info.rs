use stivale_boot::memory::MemoryMapEntryType;
use stivale_boot::region::BootRegion;
use stivale_boot::text::{string_from_slice, string_from_u8};
use stivale_boot::v2::tag::{
    StivaleFramebufferTag, StivaleMemoryMapEntryType, StivalePmr, StivalePmrPermissionFlags,
    StivaleTagHeader,
};
use stivale_boot::v2::StivaleStruct;
use stivale_boot::{load, FramebufferTag};

const BASE: u64 = 0x10_0000;

fn put_u64(mem: &mut Vec<u8>, off: usize, v: u64) {
    mem[off..off + 8].copy_from_slice(&v.to_le_bytes());
}

fn put_u32(mem: &mut Vec<u8>, off: usize, v: u32) {
    mem[off..off + 4].copy_from_slice(&v.to_le_bytes());
}

fn put_u16(mem: &mut Vec<u8>, off: usize, v: u16) {
    mem[off..off + 2].copy_from_slice(&v.to_le_bytes());
}

/// A root at offset 0 with the given brand and version, tags from offset 256 on.
fn root(size: usize, brand: &[u8], version: &[u8], first_tag: u64) -> Vec<u8> {
    let mut mem = vec![0u8; size];
    mem[..brand.len()].copy_from_slice(brand);
    mem[64..64 + version.len()].copy_from_slice(version);
    put_u64(&mut mem, 128, first_tag);
    mem
}

fn tag(mem: &mut Vec<u8>, off: usize, id: u64, next: u64) {
    put_u64(mem, off, id);
    put_u64(mem, off + 8, next);
}

const EPOCH: u64 = 0x566a7bed888e1407;
const RSDP: u64 = 0x9e1786930a375e78;
const FRAMEBUFFER: u64 = 0x506461d2950408fa;
const MEMORY_MAP: u64 = 0x2187f79e8612de07;
const MODULES: u64 = 0x4b6fe466aade04ce;
const SMP: u64 = 0x34d1d96339647025;
const TERMINAL: u64 = 0xc2b3f4c3233b0974;
const FIRMWARE: u64 = 0x359d837855e3858c;

/// A chain of three tags: epoch at 256, RSDP at 512, framebuffer at 768.
fn three_tags() -> Vec<u8> {
    let mut mem = root(1024, b"Limine", b"2.0", BASE + 256);
    tag(&mut mem, 256, EPOCH, BASE + 512);
    put_u64(&mut mem, 272, 1_600_000_000);
    tag(&mut mem, 512, RSDP, BASE + 768);
    put_u64(&mut mem, 528, 0xe_0000);
    tag(&mut mem, 768, FRAMEBUFFER, 0);
    put_u64(&mut mem, 784, 0xfd00_0000);
    put_u16(&mut mem, 792, 800);
    put_u16(&mut mem, 794, 600);
    put_u16(&mut mem, 796, 3200);
    put_u16(&mut mem, 798, 32);
    mem
}

#[test]
fn lookup_returns_each_tag_address() {
    let mem = three_tags();
    let s = StivaleStruct::load(BootRegion::new(BASE, &mem), BASE);
    assert_eq!(s.get_tag(EPOCH), Some(BASE + 256));
    assert_eq!(s.get_tag(RSDP), Some(BASE + 512));
    assert_eq!(s.get_tag(FRAMEBUFFER), Some(BASE + 768));
}

#[test]
fn lookup_of_absent_identifier_is_none() {
    let mem = three_tags();
    let s = StivaleStruct::load(BootRegion::new(BASE, &mem), BASE);
    assert_eq!(s.get_tag(SMP), None);
    assert!(s.smp().is_none());
    assert!(s.memory_map().is_none());
}

#[test]
fn lookup_in_empty_chain_is_none() {
    let mem = root(256, b"x", b"y", 0);
    let s = StivaleStruct::load(BootRegion::new(BASE, &mem), BASE);
    assert_eq!(s.get_tag(EPOCH), None);
    let t = load(BootRegion::new(BASE, &mem), BASE);
    assert!(t.epoch().is_none());
}

#[test]
fn lookup_first_match_wins() {
    let mut mem = root(1024, b"x", b"y", BASE + 256);
    tag(&mut mem, 256, EPOCH, BASE + 512);
    put_u64(&mut mem, 272, 11);
    tag(&mut mem, 512, EPOCH, 0);
    put_u64(&mut mem, 528, 22);
    let s = StivaleStruct::load(BootRegion::new(BASE, &mem), BASE);
    assert_eq!(s.get_tag(EPOCH), Some(BASE + 256));
    assert_eq!(s.epoch().unwrap().epoch, 11);
}

#[test]
fn scalar_tags_decode() {
    let mem = three_tags();
    let s = StivaleStruct::load(BootRegion::new(BASE, &mem), BASE);
    assert_eq!(s.epoch().unwrap().epoch, 1_600_000_000);
    assert_eq!(s.rsdp().unwrap().rsdp, 0xe_0000);
    let fb = s.framebuffer().unwrap();
    assert_eq!(fb.header.identifier, FRAMEBUFFER);
    assert_eq!(fb.header.next, 0);
    assert_eq!(fb.framebuffer_addr, 0xfd00_0000);
    assert_eq!(fb.framebuffer_width, 800);
    assert_eq!(fb.framebuffer_height, 600);
    let t = load(BootRegion::new(BASE, &mem), BASE);
    assert_eq!(t.epoch().unwrap().epoch(), 1_600_000_000);
    assert_eq!(t.rsdp().unwrap().rsdp(), 0xe_0000);
    assert_eq!(u64::from(&t.epoch().unwrap()), 1_600_000_000);
    assert_eq!(u64::from(&t.rsdp().unwrap()), 0xe_0000);
}

#[test]
fn framebuffer_size_800x600() {
    let mem = three_tags();
    let t = load(BootRegion::new(BASE, &mem), BASE);
    let fb: FramebufferTag = t.framebuffer().unwrap();
    assert_eq!(fb.width(), 800);
    assert_eq!(fb.height(), 600);
    assert_eq!(fb.pitch(), 3200);
    assert_eq!(fb.bpp(), 32);
    assert_eq!(fb.size(), 7_680_000);
    assert_eq!(fb.start_address(), 0xfd00_0000);
    assert_eq!(fb.end_address(), 0xfd00_0000 + 7_680_000);
    let s = StivaleStruct::load(BootRegion::new(BASE, &mem), BASE);
    assert_eq!(s.framebuffer().unwrap().size(), 7_680_000);
}

#[test]
fn framebuffer_size_rounds_bpp_down_to_bytes() {
    let fb = StivaleFramebufferTag {
        header: StivaleTagHeader { identifier: FRAMEBUFFER, next: 0 },
        framebuffer_addr: 0,
        framebuffer_width: 640,
        framebuffer_height: 480,
        framebuffer_pitch: 1920,
        framebuffer_bpp: 24,
        memory_model: 1,
        red_mask_size: 8,
        red_mask_shift: 16,
        green_mask_size: 8,
        green_mask_shift: 8,
        blue_mask_size: 8,
        blue_mask_shift: 0,
    };
    assert_eq!(fb.size(), 1920 * 480 * 3);
}

#[test]
fn truncated_tag_is_absent() {
    // the framebuffer tag starts 16 bytes before the end of the region
    let mut mem = root(512, b"x", b"y", BASE + 496);
    tag(&mut mem, 496, FRAMEBUFFER, 0);
    let s = StivaleStruct::load(BootRegion::new(BASE, &mem), BASE);
    assert_eq!(s.get_tag(FRAMEBUFFER), Some(BASE + 496));
    assert!(s.framebuffer().is_none());
    let t = load(BootRegion::new(BASE, &mem), BASE);
    assert!(t.framebuffer().is_none());
}

fn memory_map_region() -> Vec<u8> {
    let mut mem = root(512, b"x", b"y", BASE + 256);
    tag(&mut mem, 256, MEMORY_MAP, 0);
    put_u64(&mut mem, 272, 2);
    put_u64(&mut mem, 280, 0);
    put_u64(&mut mem, 288, 0x1000);
    put_u32(&mut mem, 296, 1);
    put_u64(&mut mem, 304, 0x1000);
    put_u64(&mut mem, 312, 0x1000);
    put_u32(&mut mem, 320, 2);
    mem
}

#[test]
fn memory_map_two_entries_in_order() {
    let mem = memory_map_region();
    let t = load(BootRegion::new(BASE, &mem), BASE);
    let map = t.memory_map().unwrap();
    assert_eq!(map.entries(), 2);
    let mut it = map.iter();
    let e0 = it.next().unwrap();
    let e1 = it.next().unwrap();
    assert!(it.next().is_none());
    assert_eq!(e0.start_address(), 0);
    assert_eq!(e0.size(), 0x1000);
    assert_eq!(e0.entry_type(), MemoryMapEntryType::Usable);
    assert_eq!(e1.start_address(), 0x1000);
    assert_eq!(e1.size(), 0x1000);
    assert_eq!(e1.entry_type(), MemoryMapEntryType::Reserved);
    assert_eq!(e0.end_address(), e1.start_address());
}

#[test]
fn v2_memory_map_two_entries_in_order() {
    let mem = memory_map_region();
    let s = StivaleStruct::load(BootRegion::new(BASE, &mem), BASE);
    let map = s.memory_map().unwrap();
    assert_eq!(map.entries_len, 2);
    let mut it = map.iter();
    let e0 = it.next().unwrap();
    let e1 = it.next().unwrap();
    assert!(it.next().is_none());
    assert_eq!((e0.base, e0.length), (0, 0x1000));
    assert_eq!(e0.entry_type(), StivaleMemoryMapEntryType::Usable);
    assert_eq!((e1.base, e1.length), (0x1000, 0x1000));
    assert_eq!(e1.entry_type, StivaleMemoryMapEntryType::Reserved);
    assert_eq!(e0.end_address(), e1.base);
}

#[test]
fn cloned_iterator_advances_alone() {
    let mem = memory_map_region();
    let t = load(BootRegion::new(BASE, &mem), BASE);
    let map = t.memory_map().unwrap();
    let mut it = map.iter();
    let first = it.next().unwrap();
    assert_eq!(first.start_address(), 0);
    let mut copy = it.clone();
    let from_copy = copy.next().unwrap();
    assert!(copy.next().is_none());
    let from_first = it.next().unwrap();
    assert_eq!(from_copy, from_first);
    assert_eq!(from_first.start_address(), 0x1000);
}

#[test]
fn memory_map_count_past_region_is_absent() {
    let mut mem = memory_map_region();
    put_u64(&mut mem, 272, 100);
    let t = load(BootRegion::new(BASE, &mem), BASE);
    assert!(t.memory_map().is_none());
    let s = StivaleStruct::load(BootRegion::new(BASE, &mem), BASE);
    assert!(s.memory_map().is_none());
    put_u64(&mut mem, 272, u64::MAX);
    let s = StivaleStruct::load(BootRegion::new(BASE, &mem), BASE);
    assert!(s.memory_map().is_none());
}

#[test]
fn unknown_memory_types_keep_their_code() {
    let mut mem = memory_map_region();
    put_u32(&mut mem, 296, 0x1002);
    put_u32(&mut mem, 320, 77);
    let t = load(BootRegion::new(BASE, &mem), BASE);
    let map = t.memory_map().unwrap();
    let mut it = map.iter();
    assert_eq!(it.next().unwrap().entry_type(), MemoryMapEntryType::Unknown(0x1002));
    assert_eq!(it.next().unwrap().entry_type(), MemoryMapEntryType::Unknown(77));
    let s = StivaleStruct::load(BootRegion::new(BASE, &mem), BASE);
    let map = s.memory_map().unwrap();
    assert_eq!(map.entry_at(0).entry_type, StivaleMemoryMapEntryType::Framebuffer);
    assert_eq!(map.entry_at(1).entry_type, StivaleMemoryMapEntryType::Unknown(77));
}

#[test]
fn bootloader_brand_and_version() {
    let mem = three_tags();
    let t = load(BootRegion::new(BASE, &mem), BASE);
    assert_eq!(t.bootloader_brand(), Some("Limine"));
    assert_eq!(t.bootloader_version(), Some("2.0"));
    let s = StivaleStruct::load(BootRegion::new(BASE, &mem), BASE);
    assert_eq!(s.bootloader_brand(), Some("Limine"));
    assert_eq!(s.bootloader_version(), Some("2.0"));
}

#[test]
fn empty_brand_is_absent() {
    let mem = root(256, b"", b"", 0);
    let t = load(BootRegion::new(BASE, &mem), BASE);
    assert_eq!(t.bootloader_brand(), None);
    assert_eq!(t.bootloader_version(), None);
    let s = StivaleStruct::load(BootRegion::new(BASE, &mem), BASE);
    assert_eq!(s.bootloader_brand(), None);
    assert_eq!(s.bootloader_version(), None);
}

#[test]
fn decode_abc_buffer() {
    let mut buf = [0u8; 64];
    buf[..3].copy_from_slice(b"abc");
    assert_eq!(string_from_u8(&buf), Some("abc"));
    assert_eq!(string_from_slice(&buf), "abc");
    let zero = [0u8; 64];
    assert_eq!(string_from_u8(&zero), None);
    assert_eq!(string_from_slice(&zero), "");
}

#[test]
fn decode_utf8_text_and_reject_invalid() {
    let text = "h\u{e9}ll";
    let mut buf = [0u8; 64];
    buf[..text.len()].copy_from_slice(text.as_bytes());
    assert_eq!(string_from_u8(&buf), Some("h\u{e9}ll"));
    assert_eq!(string_from_slice(&buf), "h\u{e9}ll");
    let mut bad = [0u8; 64];
    bad[..2].copy_from_slice(&[b'a', 0xff]);
    assert_eq!(string_from_u8(&bad), None);
}

#[test]
fn decode_full_buffer_without_terminator() {
    let buf = [b'a'; 64];
    assert_eq!(string_from_u8(&buf).map(|s| s.len()), Some(64));
}

fn modules_region() -> Vec<u8> {
    let mut mem = root(1024, b"x", b"y", BASE + 256);
    tag(&mut mem, 256, MODULES, 0);
    put_u64(&mut mem, 272, 2);
    put_u64(&mut mem, 280, 0x20_0000);
    put_u64(&mut mem, 288, 0x20_3000);
    mem[296..296 + 6].copy_from_slice(b"initrd");
    put_u64(&mut mem, 424, 0x30_0000);
    put_u64(&mut mem, 432, 0x30_0800);
    mem
}

#[test]
fn modules_iterate_with_names() {
    let mem = modules_region();
    let t = load(BootRegion::new(BASE, &mem), BASE);
    let tag = t.module().unwrap();
    assert_eq!(tag.module_count(), 2);
    let mut it = tag.iter();
    let m0 = it.next().unwrap();
    let m1 = it.next().unwrap();
    assert!(it.next().is_none());
    assert_eq!(m0.start_address(), 0x20_0000);
    assert_eq!(m0.end_address(), 0x20_3000);
    assert_eq!(m0.size(), 0x3000);
    assert_eq!(m0.string(), Some("initrd"));
    assert_eq!(m1.size(), 0x800);
    assert_eq!(m1.string(), None);
}

#[test]
fn v2_modules_iterate_with_names() {
    let mem = modules_region();
    let s = StivaleStruct::load(BootRegion::new(BASE, &mem), BASE);
    let tag = s.modules().unwrap();
    let mut it = tag.iter();
    let m0 = it.next().unwrap();
    let m1 = it.next().unwrap();
    assert!(it.next().is_none());
    assert_eq!(m0.size(), 0x3000);
    assert_eq!(m0.as_str(), Some("initrd"));
    assert_eq!(m1.as_str(), None);
    assert_eq!(m1.start, 0x30_0000);
}

#[test]
fn smp_records_decode() {
    let mut mem = root(1024, b"x", b"y", BASE + 256);
    tag(&mut mem, 256, SMP, 0);
    put_u64(&mut mem, 272, 1);
    put_u32(&mut mem, 280, 7);
    put_u64(&mut mem, 288, 2);
    put_u32(&mut mem, 296, 0);
    put_u32(&mut mem, 300, 7);
    put_u32(&mut mem, 328, 1);
    put_u32(&mut mem, 332, 9);
    put_u64(&mut mem, 336, 0xdead_0000);
    let s = StivaleStruct::load(BootRegion::new(BASE, &mem), BASE);
    let smp = s.smp().unwrap();
    assert_eq!(smp.cpu_count(), 2);
    assert_eq!(smp.bsp_lapic_id, 7);
    assert!(smp.flags.contains(1));
    assert_eq!(smp.header().identifier, SMP);
    assert_eq!(smp.info_at(0).lapic_id, 7);
    let ap = smp.info_at(1);
    assert_eq!(ap.acpi_processor_uid, 1);
    assert_eq!(ap.lapic_id, 9);
    assert_eq!(ap.target_stack, 0xdead_0000);
    assert_eq!(ap.goto_address, 0);
}

#[test]
fn terminal_and_firmware_tags() {
    let mut mem = root(1024, b"x", b"y", BASE + 256);
    tag(&mut mem, 256, TERMINAL, BASE + 512);
    put_u32(&mut mem, 272, 0);
    put_u16(&mut mem, 276, 80);
    put_u16(&mut mem, 278, 25);
    put_u64(&mut mem, 280, 0xffff_8000_0000_1000);
    tag(&mut mem, 512, FIRMWARE, 0);
    put_u64(&mut mem, 528, 1);
    let t = load(BootRegion::new(BASE, &mem), BASE);
    let term = t.terminal().unwrap();
    assert_eq!(term.cols(), 80);
    assert_eq!(term.rows(), 25);
    assert_eq!(term.term_write, 0xffff_8000_0000_1000);
    assert!(t.firmware().unwrap().flags().contains(stivale_boot::FirmwareFlags::BIOS_BOOT));
    let s = StivaleStruct::load(BootRegion::new(BASE, &mem), BASE);
    assert_eq!(s.terminal().unwrap().term_write_addr, 0xffff_8000_0000_1000);
    assert_eq!(s.frimware().unwrap().flags.bits(), 1);
}

#[test]
fn pmr_permissions_drop_unknown_bits() {
    let pmr = StivalePmr { base: 0, size: 0x1000, permissions: 0xf5 };
    let p = pmr.permissions();
    assert_eq!(p.bits, 5);
    assert!(p.contains(StivalePmrPermissionFlags::READABLE));
    assert!(p.contains(StivalePmrPermissionFlags::EXECUTABLE));
    assert!(!p.contains(StivalePmrPermissionFlags::WRITABLE));
}

#[test]
fn region_reads_little_endian() {
    let bytes = [1u8, 2, 3, 4, 5, 6, 7, 8, 9];
    let r = BootRegion::new(0x1000, &bytes);
    assert_eq!(r.read_u8(0x1000), 1);
    assert_eq!(r.read_u16(0x1000), 0x0201);
    assert_eq!(r.read_u32(0x1001), 0x0504_0302);
    assert_eq!(r.read_u64(0x1001), 0x0908_0706_0504_0302);
    assert!(r.fits(0x1000, 9));
    assert!(!r.fits(0x1000, 10));
    assert!(!r.fits(0xfff, 1));
}
