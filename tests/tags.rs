use stivale_boot::region::BootRegion;
use stivale_boot::v1::{StivaleHeader as V1Header, StivaleHeaderFlags as V1Flags};
use stivale_boot::v2::tag::{
    StivaleBootVolumeTag, StivaleBootVolumeTagFlags, StivaleGuid, StivalePmrsTag,
    StivaleKernelBaseAddressTag, StivaleKernelFileV2Tag,
};
use stivale_boot::v2::StivaleStruct;

const BASE: u64 = 0x8000;

fn put_u64(mem: &mut [u8], off: usize, v: u64) {
    mem[off..off + 8].copy_from_slice(&v.to_le_bytes());
}

fn put_u32(mem: &mut [u8], off: usize, v: u32) {
    mem[off..off + 4].copy_from_slice(&v.to_le_bytes());
}

/// A chain of the given (identifier, payload words) tags, 64 bytes apart from offset 256.
fn chain(tags: &[(u64, &[u64])]) -> Vec<u8> {
    let mut mem = vec![0u8; 256 + 64 * tags.len()];
    put_u64(&mut mem, 128, if tags.is_empty() { 0 } else { BASE + 256 });
    for (i, (id, words)) in tags.iter().enumerate() {
        let off = 256 + 64 * i;
        let next = if i + 1 < tags.len() { BASE + off as u64 + 64 } else { 0 };
        put_u64(&mut mem, off, *id);
        put_u64(&mut mem, off + 8, next);
        for (j, w) in words.iter().enumerate() {
            put_u64(&mut mem, off + 16 + 8 * j, *w);
        }
    }
    mem
}

#[test]
fn address_tags_decode() {
    let mem = chain(&[
        (0xe5e76a1b4597a781, &[0x1111]),
        (0x4bc5ec15845b558e, &[0x2222]),
        (0xe599d90c2975584a, &[0x3333]),
        (0xee80847d01506c57, &[0x4444]),
        (0x274bd246c62bf7d1, &[0, 0x5555, 0x6666]),
        (0xb813f9b8dbc78797, &[0x7777]),
        (0xabb29bd49a2833fa, &[0x8888, 0x99]),
        (0xb0ed257db18cb58f, &[0xffff_8000_0000_0000]),
        (0x29d1e96239247032, &[0x0100_a8c0]),
        (0x6bc1a78ebe871172, &[]),
    ]);
    let s = StivaleStruct::load(BootRegion::new(BASE, &mem), BASE);
    assert_eq!(s.command_line().unwrap().command_line, 0x1111);
    assert_eq!(s.efi_system_table().unwrap().system_table_addr, 0x2222);
    assert_eq!(s.kernel_file().unwrap().kernel_file_addr, 0x3333);
    assert_eq!(s.kernel_slide().unwrap().kernel_slide, 0x4444);
    let smbios = s.smbios().unwrap();
    assert_eq!((smbios.flags, smbios.smbios_entry_32, smbios.smbios_entry_64), (0, 0x5555, 0x6666));
    assert_eq!(s.uart().unwrap().address, 0x7777);
    let dt = s.dev_tree().unwrap();
    assert_eq!((dt.address, dt.size), (0x8888, 0x99));
    assert_eq!(s.vmap().unwrap().address, 0xffff_8000_0000_0000);
    assert_eq!(s.pxe_info().unwrap().server_ip, 0x0100_a8c0);
    assert_eq!(s.mtrr().unwrap().header.identifier, 0x6bc1a78ebe871172);
    assert!(s.edid_info().is_none());
}

#[test]
fn edid_bytes_are_borrowed() {
    let mut mem = chain(&[(0x968609d7af96b845, &[4])]);
    mem[256 + 24..256 + 28].copy_from_slice(&[0x00, 0xff, 0xff, 0x00]);
    let s = StivaleStruct::load(BootRegion::new(BASE, &mem), BASE);
    let edid = s.edid_info().unwrap();
    assert_eq!(edid.edid_len, 4);
    assert_eq!(edid.as_slice(), &[0x00, 0xff, 0xff, 0x00]);
}

#[test]
fn ap_start_writes_target_the_record() {
    let mut mem = chain(&[(0x34d1d96339647025, &[0, 0, 2])]);
    mem.resize(256 + 40 + 64, 0);
    let s = StivaleStruct::load(BootRegion::new(BASE, &mem), BASE);
    let record = BASE + 256 + 40 + 32;
    assert_eq!(
        s.ap_start_writes(1, 0x7000, 0xffff_ffff_8010_0000),
        Some([(record + 8, 0x7000), (record + 16, 0xffff_ffff_8010_0000)])
    );
    assert_eq!(s.ap_start_writes(2, 0x7000, 0x1), None);
}

#[test]
fn ap_start_without_smp_tag() {
    let mem = chain(&[]);
    let s = StivaleStruct::load(BootRegion::new(BASE, &mem), BASE);
    assert_eq!(s.ap_start_writes(0, 1, 2), None);
}

#[test]
fn pmrs_tag_reads_ranges() {
    let mut mem = vec![0u8; 24 + 48];
    put_u64(&mut mem, 16, 2);
    put_u64(&mut mem, 24, 0xffff_ffff_8000_0000);
    put_u64(&mut mem, 32, 0x2000);
    put_u64(&mut mem, 40, 5);
    put_u64(&mut mem, 48, 0xffff_ffff_8000_2000);
    put_u64(&mut mem, 56, 0x1000);
    put_u64(&mut mem, 64, 6);
    let region = BootRegion::new(BASE, &mem);
    let pmrs = StivalePmrsTag::read(&region, BASE);
    assert_eq!(pmrs.pmr_count, 2);
    let second = pmrs.pmr_at(1);
    assert_eq!(second.base, 0xffff_ffff_8000_2000);
    assert_eq!(second.size, 0x1000);
    assert_eq!(second.permissions().bits, 6);
}

#[test]
fn boot_volume_and_kernel_tags_read() {
    let mut mem = vec![0u8; 56];
    put_u64(&mut mem, 16, 3);
    put_u32(&mut mem, 24, 0x1234_5678);
    mem[28..30].copy_from_slice(&0x9abcu16.to_le_bytes());
    mem[30..32].copy_from_slice(&0xdef0u16.to_le_bytes());
    mem[32..40].copy_from_slice(&[1, 2, 3, 4, 5, 6, 7, 8]);
    let region = BootRegion::new(BASE, &mem);
    let vol = StivaleBootVolumeTag::read(&region, BASE);
    assert!(vol.flags.contains(StivaleBootVolumeTagFlags::VOLUME_GUID));
    assert!(vol.flags.contains(StivaleBootVolumeTagFlags::PARTITION_GUID));
    assert_eq!(vol.guid, StivaleGuid(0x1234_5678, 0x9abc, 0xdef0, [1, 2, 3, 4, 5, 6, 7, 8]));
    assert_eq!(vol.part_guid, StivaleGuid(0, 0, 0, [0; 8]));
    put_u64(&mut mem, 16, 0x10_0000);
    put_u64(&mut mem, 24, 0xffff_ffff_8000_0000);
    let region = BootRegion::new(BASE, &mem);
    let base = StivaleKernelBaseAddressTag::read(&region, BASE);
    assert_eq!(base.physical_base_address, 0x10_0000);
    assert_eq!(base.virtual_base_address, 0xffff_ffff_8000_0000);
    let file = StivaleKernelFileV2Tag::read(&region, BASE);
    assert_eq!((file.kernel_start, file.kernel_size), (0x10_0000, 0xffff_ffff_8000_0000));
}

#[test]
fn v1_header_builds() {
    let h = V1Header::new()
        .stack(0x9000)
        .flags(V1Flags::from_bits(V1Flags::FRAMEBUFFER_MODE))
        .framebuffer_width(1024)
        .framebuffer_height(768)
        .framebuffer_bpp(32)
        .entry_point(0xffff_ffff_8000_1000);
    let _ = h;
}

#[test]
fn v1_iterators_walk_arrays() {
    let mut map = vec![0u8; 48];
    put_u64(&mut map, 0, 0);
    put_u64(&mut map, 8, 0x9_f000);
    put_u32(&mut map, 16, 1);
    put_u64(&mut map, 24, 0x9_f000);
    put_u64(&mut map, 32, 0x1000);
    put_u32(&mut map, 40, 2);
    let mut modules = vec![0u8; 144];
    put_u64(&mut modules, 0, 0x40_0000);
    put_u64(&mut modules, 8, 0x40_2000);
    modules[16..20].copy_from_slice(b"font");
    let s = stivale_boot::v1::StivaleStruct {
        command_line: 0,
        memory_map_len: 2,
        memory_map_array: &map,
        framebuffer_addr: 0,
        framebuffer_pitch: 0,
        framebuffer_width: 0,
        framebuffer_height: 0,
        framebuffer_bpp: 0,
        rsdp_address: 0,
        module_len: 1,
        modules: &modules,
        unix_epoch: 0,
        flags: 0,
        smbios_entry_32: 0,
        smbios_entry_64: 0,
    };
    let mut it = s.memory_map_iter();
    let e0 = it.next().unwrap();
    let e1 = it.next().unwrap();
    assert!(it.next().is_none());
    assert_eq!(e0.end_address(), e1.base);
    assert_eq!(e1.entry_type(), stivale_boot::v1::StivaleMemoryMapEntryType::Reserved);
    let mut mods = s.modules_iter();
    let m = mods.next().unwrap();
    assert!(mods.next().is_none());
    assert_eq!(m.size(), 0x2000);
    assert_eq!(m.as_str(), Some("font"));
}
