use multiboot2::apm::ApmTag;
use multiboot2::boot_information::BootInformation;
use multiboot2::boot_loader_name::BootLoaderNameTag;
use multiboot2::bootdev::BootdevTag;
use multiboot2::builder::information::{InformationBuilder, RedundantTagError};
use multiboot2::builder::Builder;
use multiboot2::command_line::CommandLineTag;
use multiboot2::efi::{EFIBootServicesNotExitedTag, EFISdt32Tag, EFISdt64Tag};
use multiboot2::elf_sections::{ElfSectionFlags, ElfSectionType, ElfSectionsTag, FromBytesUntilNulError};
use multiboot2::end::EndTag;
use multiboot2::framebuffer::{
    FramebufferColor, FramebufferField, FramebufferTag, FramebufferType, FramebufferTypeId,
    UnknownFramebufferType,
};
use multiboot2::image_load_addr::ImageLoadPhysAddrTag;
use multiboot2::memory_map::{
    BasicMemoryInfoTag, EFIMemoryAreaType, EFIMemoryAttribute, EFIMemoryDesc, EFIMemoryMapTag,
    MemoryArea, MemoryAreaIter, MemoryAreaType, MemoryAreaTypeId, MemoryMapTag,
};
use multiboot2::module::ModuleTag;
use multiboot2::network::NetworkTag;
use multiboot2::rsdp::{RsdpV1Tag, RsdpV2Tag};
use multiboot2::smbios::SmbiosTag;
use multiboot2::tag::{GenericTag, MemoryError, TagTrait, TagType};
use multiboot2::util::StringError;
use multiboot2::vbe_info::{VBEControlInfo, VBEInfoTag, VBEMemoryModel, VBEModeInfo};

const MBI_ADDR: usize = 0x20_0000;

fn roundtrip<T: TagTrait>(tag: &T) -> T {
    let bytes = tag.as_bytes();
    let generic = GenericTag::ref_from_slice(&bytes).unwrap();
    assert_eq!(generic.typ(), T::id());
    T::from_generic(&generic).unwrap()
}

#[test]
fn fixed_tags_read_back_what_they_write() {
    let t = BasicMemoryInfoTag::new(640, 7 * 1024);
    assert_eq!(roundtrip(&t), t);
    let t = BootdevTag::new(0x80, 1, 2);
    assert_eq!(roundtrip(&t), t);
    let t = ApmTag::new(1, 2, 3, 4, 5, 6, 7, 8, 9);
    assert_eq!(roundtrip(&t), t);
    let t = EFISdt64Tag::new(0x1234_5678_9abc);
    assert_eq!(roundtrip(&t), t);
    let t = ImageLoadPhysAddrTag::new(0xdead_b000);
    assert_eq!(roundtrip(&t), t);
    let t = EndTag::default();
    assert_eq!(roundtrip(&t), t);
    let t = RsdpV2Tag::new(*b"OEMOEM", 2, 0x1000, 36, 0x2000);
    assert_eq!(roundtrip(&t), t);
    let mut mode_info = VBEModeInfo::default();
    mode_info.bpp = 24;
    mode_info.resolution = (800, 600);
    mode_info.memory_model = VBEMemoryModel::PackedPixel;
    let mut control_info = VBEControlInfo::default();
    control_info.signature = *b"VESA";
    control_info.total_memory = 64;
    let t = VBEInfoTag::new(0x118, 1, 2, 3, control_info, mode_info);
    assert_eq!(roundtrip(&t), t);
}

#[test]
fn strings_read_back_up_to_the_first_nul() {
    let t = CommandLineTag::new("console=ttyS0");
    assert_eq!(roundtrip(&t).cmdline(), Ok("console=ttyS0".to_string()));
    let t = CommandLineTag::new("before\0after");
    assert_eq!(t.cmdline(), Ok("before".to_string()));
    let t = BootLoaderNameTag::new("GRUB 2.02~beta3-5");
    assert_eq!(t.name(), Ok("GRUB 2.02~beta3-5".to_string()));
    let t = ModuleTag::new(0x1000, 0x3000, "initrd");
    assert_eq!(t.cmdline(), Ok("initrd".to_string()));
    assert_eq!(t.module_size(), 0x2000);
    // a tag without NUL byte is refused, invalid UTF-8 too
    let bytes = [1, 0, 0, 0, 12, 0, 0, 0, b'a', b'b', b'c', b'd'];
    let t = CommandLineTag::from_generic(&GenericTag::ref_from_slice(&bytes).unwrap()).unwrap();
    assert_eq!(t.cmdline(), Err(StringError::MissingNul));
    let bytes = [1, 0, 0, 0, 12, 0, 0, 0, 0xc3, 0x28, 0, 0];
    let t = CommandLineTag::from_generic(&GenericTag::ref_from_slice(&bytes).unwrap()).unwrap();
    assert_eq!(t.cmdline(), Err(StringError::Utf8));
}

#[test]
fn generic_tag_reading_checks_the_size() {
    assert_eq!(GenericTag::ref_from_slice(&[1, 0, 0]).unwrap_err(), MemoryError::ShorterThanHeader);
    assert_eq!(
        GenericTag::ref_from_slice(&[1, 0, 0, 0, 7, 0, 0, 0]).unwrap_err(),
        MemoryError::InvalidReportedTotalSize
    );
    assert_eq!(
        GenericTag::ref_from_slice(&[1, 0, 0, 0, 12, 0, 0, 0]).unwrap_err(),
        MemoryError::InvalidReportedTotalSize
    );
    let g = GenericTag::ref_from_slice(&[1, 0, 0, 0, 9, 0, 0, 0, 0, 0xff]).unwrap();
    assert_eq!(g.as_bytes().len(), 9);
    assert_eq!(g.payload(), vec![0]);
}

#[test]
fn tag_type_ids_roundtrip() {
    for v in [0u32, 1, 5, 17, 21, 22, 0x1337, u32::MAX] {
        assert_eq!(TagType::from_val(v).val(), v);
    }
    assert_eq!(TagType::from_val(21), TagType::LoadBaseAddr);
    assert_eq!(TagType::from_val(22), TagType::Custom(22));
    for v in [1u32, 2, 3, 4, 5, 6, 99] {
        let ty = MemoryAreaType::from(MemoryAreaTypeId::from(v));
        assert_eq!(u32::from(MemoryAreaTypeId::from(ty)), v);
    }
    assert_eq!(MemoryAreaType::from(MemoryAreaTypeId::from(3)), MemoryAreaType::AcpiAvailable);
}

#[test]
fn memory_map_reads_back_its_areas() {
    let areas = [
        MemoryArea::new(0, 0x9fc00, MemoryAreaTypeId::from(MemoryAreaType::Available)),
        MemoryArea::new(0x9fc00, 0x400, MemoryAreaTypeId::from(MemoryAreaType::Reserved)),
        MemoryArea::new(0x100000, 0x7ee0000, MemoryAreaTypeId::from(MemoryAreaType::Available)),
    ];
    let tag = MemoryMapTag::new(&areas);
    assert_eq!(tag.entry_size(), 24);
    assert_eq!(tag.entry_version(), 0);
    assert_eq!(tag.memory_areas(), areas.to_vec());
    assert_eq!(areas[2].end_address(), 0x7fe0000);
    // only the available ones
    let mut iter = MemoryAreaIter::new(&tag);
    assert_eq!(iter.next(), Some(areas[0]));
    assert_eq!(iter.next(), Some(areas[2]));
    assert_eq!(iter.next(), None);
}

#[test]
fn efi_memory_map_reads_back_its_descriptors() {
    let descs = [
        EFIMemoryDesc {
            ty: EFIMemoryAreaType(7),
            phys_start: 0x10_0000,
            virt_start: 0,
            page_count: 16,
            att: EFIMemoryAttribute(0x8),
        },
        EFIMemoryDesc {
            ty: EFIMemoryAreaType(10),
            phys_start: 0x80_0000,
            virt_start: 0,
            page_count: 8,
            att: EFIMemoryAttribute(0x1).union(EFIMemoryAttribute(0x8)),
        },
    ];
    let tag = EFIMemoryMapTag::new_from_descs(&descs);
    assert_eq!(tag.desc_size(), 40);
    assert_eq!(tag.desc_version(), 1);
    let mut iter = tag.memory_areas();
    assert_eq!(iter.len(), 2);
    assert_eq!(iter.next(), Some(descs[0]));
    assert_eq!(iter.next(), Some(descs[1]));
    assert_eq!(iter.next(), None);
    assert_eq!(descs[1].att.bits(), 0x9);
}

#[test]
fn framebuffer_reads_back_its_type() {
    let palette = vec![
        FramebufferColor { red: 1, green: 2, blue: 3 },
        FramebufferColor { red: 4, green: 5, blue: 6 },
    ];
    let types = [
        FramebufferType::Text,
        FramebufferType::Indexed { palette },
        FramebufferType::RGB {
            red: FramebufferField { position: 16, size: 8 },
            green: FramebufferField { position: 8, size: 8 },
            blue: FramebufferField { position: 0, size: 8 },
        },
    ];
    for t in types {
        let tag = FramebufferTag::new(0xfd00_0000, 5120, 1280, 720, 32, t.clone());
        let tag = roundtrip(&tag);
        assert_eq!(tag.address(), 0xfd00_0000);
        assert_eq!(tag.pitch(), 5120);
        assert_eq!(tag.width(), 1280);
        assert_eq!(tag.height(), 720);
        assert_eq!(tag.bpp(), 32);
        assert_eq!(FramebufferTypeId::from(t.clone()), FramebufferTypeId::from(tag.buffer_type().unwrap()));
        assert_eq!(tag.buffer_type(), Ok(t));
    }
    assert_eq!(FramebufferTypeId::try_from(1), Ok(FramebufferTypeId::RGB));
    assert_eq!(FramebufferTypeId::try_from(3), Err(UnknownFramebufferType(3)));
    let mut bytes = TagTrait::as_bytes(&FramebufferTag::new(0, 0, 0, 0, 0, FramebufferType::Text));
    bytes[29] = 7;
    let tag = FramebufferTag::from_generic(&GenericTag::ref_from_slice(&bytes).unwrap()).unwrap();
    assert_eq!(tag.buffer_type(), Err(UnknownFramebufferType(7)));
}

#[test]
fn rsdp_checksums_cover_the_bytes() {
    let v1 = RsdpV1Tag::new(*b"BOCHS ", 0, 0x7FE18DC);
    assert!(v1.checksum_is_valid());
    assert_eq!(v1.signature(), Ok("RSD PTR "));
    assert_eq!(v1.oem_id(), Ok("BOCHS "));
    assert_eq!(v1.rsdt_address(), 0x7FE18DC);
    let mut v1 = v1;
    v1.revision = 1;
    assert!(!v1.checksum_is_valid());
    // a length other than 36 bytes fails the validation
    let v2 = RsdpV2Tag::new(*b"ABCDEF", 2, 1, 20, 2);
    assert!(!v2.checksum_is_valid());
    assert_eq!(v2.xsdt_address(), 2);
    let mut bad = RsdpV1Tag::new(*b"ABCDEF", 0, 0);
    bad.oem_id = [0xff, 0, 0, 0, 0, 0];
    assert!(bad.oem_id().is_err());
}

fn sample_builder() -> InformationBuilder {
    InformationBuilder::new()
        .smbios_tag(SmbiosTag::new(3, 1, &[9, 9]))
        .command_line_tag(CommandLineTag::new("quiet"))
        .basic_memory_info_tag(BasicMemoryInfoTag::new(640, 1024))
        .add_module_tag(ModuleTag::new(1, 2, "a"))
        .efisdt32_tag(EFISdt32Tag::new(0x1000))
        .add_module_tag(ModuleTag::new(3, 4, "b"))
}

#[test]
fn information_builder_orders_tags_by_type() {
    let mbi = sample_builder().build();
    let bi = BootInformation::load(MBI_ADDR, mbi.as_bytes()).unwrap();
    let mut types = Vec::new();
    let mut tags = bi.tags();
    while let Some(t) = tags.next() {
        types.push(t.typ());
    }
    assert_eq!(
        types,
        vec![TagType::Cmdline, TagType::Module, TagType::Module, TagType::BasicMeminfo, TagType::Efi32, TagType::Smbios]
    );
    // modules keep the order in which they were added
    let mut modules = bi.module_tags();
    assert_eq!(modules.next().unwrap().cmdline(), Ok("a".to_string()));
    assert_eq!(modules.next().unwrap().cmdline(), Ok("b".to_string()));
}

#[test]
fn information_builder_build_loads_and_finds_tags() {
    let builder = sample_builder();
    let expected_len = builder.expected_len();
    let mbi = builder.build();
    assert_eq!(mbi.as_bytes().len(), expected_len);
    let bi = BootInformation::load(MBI_ADDR, mbi.as_bytes()).unwrap();
    assert_eq!(bi.total_size(), expected_len);
    assert_eq!(bi.basic_memory_info_tag(), Some(BasicMemoryInfoTag::new(640, 1024)));
    assert_eq!(bi.efi_sdt32_tag(), Some(EFISdt32Tag::new(0x1000)));
    assert_eq!(bi.smbios_tag().unwrap().tables(), vec![9, 9]);
    assert_eq!(bi.command_line_tag().unwrap().cmdline(), Ok("quiet".to_string()));
    assert!(bi.efi_sdt64_tag().is_none());
    assert!(bi.rsdp_v1_tag().is_none());
}

#[test]
fn information_builder_refuses_repeated_tags() {
    let builder = InformationBuilder::new().basic_memory_info_tag(BasicMemoryInfoTag::new(1, 2));
    let err = builder.add_tag(&BasicMemoryInfoTag::new(3, 4)).unwrap_err();
    assert_eq!(err, RedundantTagError(TagType::BasicMeminfo));
    // modules may repeat, SMBIOS tags may not
    let builder = InformationBuilder::new()
        .add_module_tag(ModuleTag::new(0, 1, "x"))
        .smbios_tag(SmbiosTag::new(1, 1, &[]));
    let builder = builder.add_tag(&ModuleTag::new(2, 3, "y")).unwrap();
    let err = InformationBuilder::new()
        .smbios_tag(SmbiosTag::new(1, 1, &[]))
        .add_tag(&SmbiosTag::new(2, 2, &[]))
        .unwrap_err();
    assert_eq!(err, RedundantTagError(TagType::Smbios));
    // the end tag is not added
    let len = builder.expected_len();
    let builder = builder.add_tag(&EndTag::default()).unwrap();
    assert_eq!(builder.expected_len(), len);
    assert!(InformationBuilder::tag_is_allowed_multiple_times(TagType::Custom(99)));
    assert!(!InformationBuilder::tag_is_allowed_multiple_times(TagType::Cmdline));
    assert!(!InformationBuilder::tag_is_allowed_multiple_times(TagType::Smbios));
}

#[test]
fn efi_memory_map_is_hidden_while_boot_services_run() {
    let descs = [EFIMemoryDesc {
        ty: EFIMemoryAreaType(7),
        phys_start: 0x1000,
        virt_start: 0,
        page_count: 1,
        att: EFIMemoryAttribute::default(),
    }];
    let with_map = InformationBuilder::new().efi_memory_map_tag(EFIMemoryMapTag::new_from_descs(&descs));
    let mbi = with_map.build();
    let bi = BootInformation::load(MBI_ADDR, mbi.as_bytes()).unwrap();
    assert!(bi.efi_memory_map_tag().is_some());
    let with_bs = InformationBuilder::new()
        .efi_memory_map_tag(EFIMemoryMapTag::new_from_descs(&descs))
        .efi_boot_services_not_exited_tag();
    let mbi = with_bs.build();
    let bi = BootInformation::load(MBI_ADDR, mbi.as_bytes()).unwrap();
    assert!(bi.efi_bs_not_exited_tag().is_some());
    assert!(bi.efi_memory_map_tag().is_none());
}

#[test]
fn builder_writes_tags_in_the_order_of_their_kinds() {
    let mbi = Builder::new()
        .image_load_addr(ImageLoadPhysAddrTag::new(0x1000))
        .cmdline(CommandLineTag::new("x"))
        .efi_bs(EFIBootServicesNotExitedTag::new())
        .meminfo(BasicMemoryInfoTag::new(1, 2))
        .build();
    let bi = BootInformation::load(MBI_ADDR, mbi.as_bytes()).unwrap();
    let mut types = Vec::new();
    let mut tags = bi.tags();
    while let Some(t) = tags.next() {
        types.push(t.typ());
    }
    assert_eq!(types, vec![TagType::Cmdline, TagType::BasicMeminfo, TagType::EfiBs, TagType::LoadBaseAddr]);
    assert_eq!(bi.load_base_addr_tag(), Some(ImageLoadPhysAddrTag::new(0x1000)));
}

#[test]
fn elf_sections_are_read_from_the_table() {
    // two 64-bit section headers: a null section and a string table
    let mut table = vec![0u8; 64];
    let mut strtab = Vec::new();
    strtab.extend_from_slice(&1u32.to_le_bytes()); // name
    strtab.extend_from_slice(&3u32.to_le_bytes()); // type: string table
    strtab.extend_from_slice(&0u64.to_le_bytes()); // flags
    strtab.extend_from_slice(&0x1000u64.to_le_bytes()); // addr
    strtab.extend_from_slice(&0u64.to_le_bytes()); // offset
    strtab.extend_from_slice(&11u64.to_le_bytes()); // size
    strtab.extend_from_slice(&0u32.to_le_bytes()); // link
    strtab.extend_from_slice(&0u32.to_le_bytes()); // info
    strtab.extend_from_slice(&1u64.to_le_bytes()); // addralign
    strtab.extend_from_slice(&0u64.to_le_bytes()); // entsize
    table.extend_from_slice(&strtab);
    let tag = ElfSectionsTag::new(2, 64, 1, &table);
    assert_eq!((tag.number_of_sections(), tag.entry_size(), tag.shndx()), (2, 64, 1));
    // the null section at index 0 is inactive and skipped
    let mut sections = tag.sections();
    let s1 = sections.next().unwrap();
    assert!(sections.next().is_none());
    assert_eq!(s1.section_type(), ElfSectionType::StringTable);
    assert_eq!(s1.section_type_raw(), 3);
    assert_eq!(s1.start_address(), 0x1000);
    assert_eq!(s1.end_address(), 0x100b);
    assert_eq!(s1.size(), 11);
    assert_eq!(s1.addralign(), 1);
    assert_eq!(s1.flags(), ElfSectionFlags::empty());
    assert!(!s1.is_allocated());
    assert_eq!(tag.string_table_section(), Some(s1));
    let names = [0, b'.', b's', b'h', b's', b't', b'r', b't', b'a', b'b', 0];
    assert_eq!(s1.name(&names), Ok(".shstrtab".to_string()));
    assert_eq!(s1.name_from_string_table(&names), Ok(b".shstrtab".to_vec()));
    assert_eq!(s1.name_from_string_table(&names[..5]), Err(FromBytesUntilNulError));
    assert_eq!(ElfSectionFlags::from_bits_truncate(0xff).bits(), 0x7);
    assert!(ElfSectionFlags::from_bits_retain(0x3).contains(ElfSectionFlags(0x2)));
}

#[test]
fn network_and_smbios_tags_hold_their_payload() {
    let tag = NetworkTag::new(&[1, 2, 3]);
    let bytes = TagTrait::as_bytes(&tag);
    assert_eq!(bytes, vec![16, 0, 0, 0, 11, 0, 0, 0, 1, 2, 3]);
    let tag = SmbiosTag::new(2, 8, &[5, 6, 7]);
    let tag = roundtrip(&tag);
    assert_eq!((tag.major(), tag.minor(), tag.tables()), (2, 8, vec![5, 6, 7]));
}

#[test]
fn elf32_section_headers_are_widened() {
    // one 32-bit section header of a program section
    let mut table = Vec::new();
    table.extend_from_slice(&7u32.to_le_bytes()); // name
    table.extend_from_slice(&1u32.to_le_bytes()); // type: program section
    table.extend_from_slice(&6u32.to_le_bytes()); // flags: allocated, executable
    table.extend_from_slice(&0x0010_0000u32.to_le_bytes()); // addr
    table.extend_from_slice(&0x1000u32.to_le_bytes()); // offset
    table.extend_from_slice(&0x2000u32.to_le_bytes()); // size
    table.extend_from_slice(&0u32.to_le_bytes()); // link
    table.extend_from_slice(&0u32.to_le_bytes()); // info
    table.extend_from_slice(&16u32.to_le_bytes()); // addralign
    table.extend_from_slice(&0u32.to_le_bytes()); // entsize
    let tag = ElfSectionsTag::new(1, 40, 0, &table);
    let mut sections = tag.sections();
    let s = sections.next().unwrap();
    assert!(sections.next().is_none());
    assert_eq!(s.sh_name, 7);
    assert_eq!(s.section_type(), ElfSectionType::ProgramSection);
    assert_eq!(
        s.flags(),
        ElfSectionFlags(ElfSectionFlags::ALLOCATED_BIT | ElfSectionFlags::EXECUTABLE_BIT)
    );
    assert!(s.is_allocated());
    assert_eq!(s.start_address(), 0x0010_0000);
    assert_eq!(s.end_address(), 0x0010_2000);
    assert_eq!(s.sh_offset, 0x1000);
    assert_eq!(s.addralign(), 16);
    // index 0 names no string table
    assert_eq!(tag.string_table_section(), None);
}

#[test]
fn available_areas_step_by_the_entry_size() {
    // a memory map with 48-byte entries: an available area, then a reserved one
    let mut bytes = Vec::new();
    bytes.extend_from_slice(&6u32.to_le_bytes()); // type
    bytes.extend_from_slice(&112u32.to_le_bytes()); // size
    bytes.extend_from_slice(&48u32.to_le_bytes()); // entry size
    bytes.extend_from_slice(&0u32.to_le_bytes()); // entry version
    for (base, len, typ) in [(0x1000u64, 0x2000u64, 1u32), (0x9000, 0x100, 2)] {
        bytes.extend_from_slice(&base.to_le_bytes());
        bytes.extend_from_slice(&len.to_le_bytes());
        bytes.extend_from_slice(&typ.to_le_bytes());
        bytes.extend_from_slice(&[0u8; 28]); // reserved and the rest of the entry
    }
    let generic = GenericTag::ref_from_slice(&bytes).unwrap();
    let tag = MemoryMapTag::from_generic(&generic).unwrap();
    assert_eq!(tag.entry_size(), 48);
    let mut iter = MemoryAreaIter::new(&tag);
    let a = iter.next().unwrap();
    assert_eq!((a.start_address(), a.size()), (0x1000, 0x2000));
    assert!(iter.next().is_none());
}

#[test]
fn strings_with_one_trailing_nul_keep_one_nul() {
    let a = CommandLineTag::new("hello");
    let b = CommandLineTag::new("hello\0");
    assert_eq!(a.size(), 8 + 5 + 1);
    assert_eq!(b.size(), 8 + 5 + 1);
    assert_eq!(a.cmdline(), Ok("hello".to_string()));
    assert_eq!(b.cmdline(), Ok("hello".to_string()));
    let m = ModuleTag::new(1, 9, "mod\0");
    assert_eq!(m.cmdline(), Ok("mod".to_string()));
    assert_eq!(m.module_size(), 8);
}
