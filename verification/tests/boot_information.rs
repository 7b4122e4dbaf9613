use multiboot2::boot_loader_name::BootLoaderNameTag;
use multiboot2::builder::Builder;
use multiboot2::efi::{
    EFIBootServicesNotExitedTag, EFIImageHandle32Tag, EFIImageHandle64Tag, EFISdt32Tag, EFISdt64Tag,
};
use multiboot2::elf_sections::{ElfSectionFlags, ElfSectionType, ElfSectionsTag};
use multiboot2::framebuffer::FramebufferTag;
use multiboot2::image_load_addr::ImageLoadPhysAddrTag;
use multiboot2::memory_map::{MemoryArea, MemoryAreaType, MemoryAreaTypeId, MemoryMapTag};
use multiboot2::tag::TagHeader;
use multiboot2::vbe_info::{VBEControlInfo, VBEInfoTag, VBEModeInfo};
use multiboot2::boot_information::{BootInformation, BootInformationMut, MbiLoadError};
use multiboot2::builder::information::InformationBuilder;
use multiboot2::command_line::CommandLineTag;
use multiboot2::framebuffer::{FramebufferColor, FramebufferField, FramebufferType};
use multiboot2::memory_map::{
    BasicMemoryInfoTag, EFIMemoryAreaType, EFIMemoryAttribute, EFIMemoryDesc, EFIMemoryMapTag,
};
use multiboot2::module::ModuleTag;
use multiboot2::rsdp::{RsdpV1Tag, RsdpV2Tag};
use multiboot2::smbios::SmbiosTag;
use multiboot2::tag::{GenericTag, TagTrait, TagType};
use multiboot2::vbe_info::{
    VBECapabilities, VBEDirectColorAttributes, VBEField, VBEMemoryModel,
};

/// The address at which the tests place a boot information.
const MBI_ADDR: usize = 0x10_0000;

fn accept<T: Send + Sync>(_: T) {}

#[test]
fn boot_information_is_send_and_sync() {
    let bytes: [u8; 16] = [
        16, 0, 0, 0, // total_size
        0, 0, 0, 0, // reserved
        0, 0, 0, 0, // end tag type
        8, 0, 0, 0, // end tag size
    ];
    let bi = BootInformation::load(MBI_ADDR, &bytes).unwrap();
    accept(bi);
}

#[test]
fn no_tags() {
    let bytes: [u8; 16] = [
        16, 0, 0, 0, // total_size
        0, 0, 0, 0, // reserved
        0, 0, 0, 0, // end tag type
        8, 0, 0, 0, // end tag size
    ];
    let addr = MBI_ADDR;
    let bi = BootInformation::load(addr, &bytes).unwrap();
    assert_eq!(addr, bi.start_address());
    assert_eq!(addr + bytes.len(), bi.end_address());
    assert_eq!(bytes.len(), bi.total_size());
    assert!(bi.elf_sections().is_none());
    assert!(bi.memory_map_tag().is_none());
    assert!(bi.module_tags().next().is_none());
    assert!(bi.boot_loader_name_tag().is_none());
    assert!(bi.command_line_tag().is_none());
}

#[test]
#[should_panic]
fn invalid_total_size() {
    let bytes: [u8; 15] = [
        15, 0, 0, 0, // total_size
        0, 0, 0, 0, // reserved
        0, 0, 0, 0, // end tag type
        8, 0, 0, // end tag size
    ];
    let addr = MBI_ADDR;
    let bi = BootInformation::load(addr, &bytes);
    let bi = bi.unwrap();
    assert_eq!(addr, bi.start_address());
    assert_eq!(addr + bytes.len(), bi.end_address());
    assert_eq!(bytes.len(), bi.total_size());
    assert!(bi.elf_sections().is_none());
    assert!(bi.memory_map_tag().is_none());
    assert!(bi.module_tags().next().is_none());
    assert!(bi.boot_loader_name_tag().is_none());
    assert!(bi.command_line_tag().is_none());
}

#[test]
#[should_panic]
fn invalid_end_tag() {
    let bytes: [u8; 16] = [
        16, 0, 0, 0, // total_size
        0, 0, 0, 0, // reserved
        0, 0, 0, 0, // end tag type
        9, 0, 0, 0, // end tag size
    ];
    let addr = MBI_ADDR;
    let bi = BootInformation::load(addr, &bytes);
    let bi = bi.unwrap();
    assert_eq!(addr, bi.start_address());
    assert_eq!(addr + bytes.len(), bi.end_address());
    assert_eq!(bytes.len(), bi.total_size());
    assert!(bi.elf_sections().is_none());
    assert!(bi.memory_map_tag().is_none());
    assert!(bi.module_tags().next().is_none());
    assert!(bi.boot_loader_name_tag().is_none());
    assert!(bi.command_line_tag().is_none());
}

#[test]
fn name_tag() {
    let bytes: [u8; 32] = [
        32, 0, 0, 0, // total_size
        0, 0, 0, 0, // reserved
        2, 0, 0, 0, // boot loader name tag type
        13, 0, 0, 0, // boot loader name tag size
        110, 97, 109, 101, // boot loader name 'name'
        0, 0, 0, 0, // boot loader name null + padding
        0, 0, 0, 0, // end tag type
        8, 0, 0, 0, // end tag size
    ];
    let addr = MBI_ADDR;
    let bi = BootInformation::load(addr, &bytes).unwrap();
    assert_eq!(addr, bi.start_address());
    assert_eq!(addr + bytes.len(), bi.end_address());
    assert_eq!(bytes.len(), bi.total_size());
    assert!(bi.elf_sections().is_none());
    assert!(bi.memory_map_tag().is_none());
    assert!(bi.module_tags().next().is_none());
    assert_eq!(
        "name",
        bi.boot_loader_name_tag()
            .expect("tag must be present")
            .name()
            .expect("must be valid utf8")
    );
    assert!(bi.command_line_tag().is_none());
}

#[test]
fn framebuffer_tag_rgb() {
    // direct RGB mode test: taken from GRUB2 running in QEMU at 1280x720
    // with 32bpp in BGRA format.
    let bytes: [u8; 56] = [
        56, 0, 0, 0, // total size
        0, 0, 0, 0, // reserved
        8, 0, 0, 0, // framebuffer tag type
        40, 0, 0, 0, // framebuffer tag size
        0, 0, 0, 253, // framebuffer low dword of address
        0, 0, 0, 0, // framebuffer high dword of address
        0, 20, 0, 0, // framebuffer pitch
        0, 5, 0, 0, // framebuffer width
        208, 2, 0, 0, // framebuffer height
        32, 1, 0, 0, // framebuffer bpp, type, reserved word
        16, 8, 8, 8, // framebuffer red pos/size, green pos/size
        0, 8, 0, 0, // framebuffer blue pos/size, padding word
        0, 0, 0, 0, // end tag type
        8, 0, 0, 0, // end tag size
    ];
    let addr = MBI_ADDR;
    let bi = BootInformation::load(addr, &bytes).unwrap();
    assert_eq!(addr, bi.start_address());
    assert_eq!(addr + bytes.len(), bi.end_address());
    assert_eq!(bytes.len(), bi.total_size());
    assert!(bi.framebuffer_tag().is_some());
    let fbi = bi
        .framebuffer_tag()
        .expect("Framebuffer info should be available")
        .expect("Framebuffer info type should be valid");
    assert_eq!(fbi.address(), 4244635648);
    assert_eq!(fbi.pitch(), 5120);
    assert_eq!(fbi.width(), 1280);
    assert_eq!(fbi.height(), 720);
    assert_eq!(fbi.bpp(), 32);
    assert_eq!(
        fbi.buffer_type().unwrap(),
        FramebufferType::RGB {
            red: FramebufferField { position: 16, size: 8 },
            green: FramebufferField { position: 8, size: 8 },
            blue: FramebufferField { position: 0, size: 8 },
        }
    );
}

#[test]
fn framebuffer_tag_indexed() {
    // indexed mode test:
    // this is synthetic, as I can't get QEMU
    // to run in indexed color mode.
    let bytes: [u8; 64] = [
        64, 0, 0, 0, // total size
        0, 0, 0, 0, // reserved
        8, 0, 0, 0, // framebuffer tag type
        48, 0, 0, 0, // framebuffer tag size
        0, 0, 0, 253, // framebuffer low dword of address
        0, 0, 0, 0, // framebuffer high dword of address
        0, 20, 0, 0, // framebuffer pitch
        0, 5, 0, 0, // framebuffer width
        208, 2, 0, 0, // framebuffer height
        32, 0, 0, 0, // framebuffer bpp, type, reserved word
        4, 0, 0, 0, // framebuffer palette length
        255, 0, 0, 0, // framebuffer palette
        255, 0, 0, 0, 255, 0, 0, 0, 0, 0, 0, 0, // end tag type
        8, 0, 0, 0, // end tag size
    ];
    let addr = MBI_ADDR;
    let bi = BootInformation::load(addr, &bytes);
    let bi = bi.unwrap();
    assert_eq!(addr, bi.start_address());
    assert_eq!(addr + bytes.len(), bi.end_address());
    assert_eq!(bytes.len(), bi.total_size());
    assert!(bi.framebuffer_tag().is_some());
    let fbi = bi
        .framebuffer_tag()
        .expect("Framebuffer info should be available")
        .expect("Framebuffer info type should be valid");
    assert_eq!(fbi.address(), 4244635648);
    assert_eq!(fbi.pitch(), 5120);
    assert_eq!(fbi.width(), 1280);
    assert_eq!(fbi.height(), 720);
    assert_eq!(fbi.bpp(), 32);
    match fbi.buffer_type().unwrap() {
        FramebufferType::Indexed { palette } => assert_eq!(
            palette,
            [
                FramebufferColor {
                    red: 255,
                    green: 0,
                    blue: 0,
                },
                FramebufferColor {
                    red: 0,
                    green: 255,
                    blue: 0,
                },
                FramebufferColor {
                    red: 0,
                    green: 0,
                    blue: 255,
                },
                FramebufferColor {
                    red: 0,
                    green: 0,
                    blue: 0,
                }
            ]
        ),
        _ => panic!("Expected indexed framebuffer type."),
    }
}

#[test]
fn vbe_info_tag() {
    // Taken from GRUB2 running in QEMU.
    let bytes: [u8; 800] = [
        32, 3, 0, 0, 0, 0, 0, 0, 7, 0, 0, 0, 16, 3, 0, 0,
        122, 65, 255, 255, 0, 96, 79, 0, 86, 69, 83, 65, 0, 3, 220, 87,
        0, 192, 1, 0, 0, 0, 34, 128, 0, 96, 0, 1, 0, 0, 240, 87,
        0, 192, 3, 88, 0, 192, 23, 88, 0, 192, 0, 1, 1, 1, 2, 1,
        3, 1, 4, 1, 5, 1, 6, 1, 7, 1, 13, 1, 14, 1, 15, 1,
        16, 1, 17, 1, 18, 1, 19, 1, 20, 1, 21, 1, 22, 1, 23, 1,
        24, 1, 25, 1, 26, 1, 27, 1, 28, 1, 29, 1, 30, 1, 31, 1,
        64, 1, 65, 1, 66, 1, 67, 1, 68, 1, 69, 1, 70, 1, 71, 1,
        72, 1, 73, 1, 74, 1, 75, 1, 76, 1, 117, 1, 118, 1, 119, 1,
        120, 1, 121, 1, 122, 1, 123, 1, 124, 1, 125, 1, 126, 1, 127, 1,
        128, 1, 129, 1, 130, 1, 131, 1, 132, 1, 133, 1, 134, 1, 135, 1,
        136, 1, 137, 1, 138, 1, 139, 1, 140, 1, 141, 1, 142, 1, 143, 1,
        144, 1, 145, 1, 146, 1, 0, 0, 1, 0, 2, 0, 3, 0, 4, 0,
        5, 0, 6, 0, 7, 0, 13, 0, 14, 0, 15, 0, 16, 0, 17, 0,
        18, 0, 19, 0, 106, 0, 255, 255, 0, 0, 0, 0, 0, 0, 0, 0,
        0, 0, 0, 0, 0, 0, 0, 0, 0, 0, 0, 0, 0, 0, 0, 0,
        0, 0, 0, 0, 0, 0, 0, 0, 0, 0, 0, 0, 0, 0, 0, 0,
        0, 0, 0, 0, 0, 0, 0, 0, 0, 0, 0, 0, 0, 0, 0, 0,
        0, 0, 0, 0, 0, 0, 0, 0, 0, 0, 0, 0, 0, 0, 0, 0,
        0, 0, 0, 0, 0, 0, 0, 0, 0, 0, 0, 0, 0, 0, 0, 0,
        0, 0, 0, 0, 0, 0, 0, 0, 0, 0, 0, 0, 0, 0, 0, 0,
        0, 0, 0, 0, 0, 0, 0, 0, 0, 0, 0, 0, 0, 0, 0, 0,
        0, 0, 0, 0, 0, 0, 0, 0, 0, 0, 0, 0, 0, 0, 0, 0,
        0, 0, 0, 0, 0, 0, 0, 0, 0, 0, 0, 0, 0, 0, 0, 0,
        0, 0, 0, 0, 0, 0, 0, 0, 0, 0, 0, 0, 0, 0, 0, 0,
        0, 0, 0, 0, 0, 0, 0, 0, 0, 0, 0, 0, 0, 0, 0, 0,
        0, 0, 0, 0, 0, 0, 0, 0, 0, 0, 0, 0, 0, 0, 0, 0,
        0, 0, 0, 0, 0, 0, 0, 0, 0, 0, 0, 0, 0, 0, 0, 0,
        0, 0, 0, 0, 0, 0, 0, 0, 0, 0, 0, 0, 0, 0, 0, 0,
        0, 0, 0, 0, 0, 0, 0, 0, 0, 0, 0, 0, 0, 0, 0, 0,
        0, 0, 0, 0, 0, 0, 0, 0, 0, 0, 0, 0, 0, 0, 0, 0,
        0, 0, 0, 0, 0, 0, 0, 0, 0, 0, 0, 0, 0, 0, 0, 0,
        0, 0, 0, 0, 0, 0, 0, 0, 0, 0, 0, 0, 0, 0, 0, 0,
        0, 0, 0, 0, 0, 0, 0, 0, 187, 0, 7, 0, 64, 0, 64, 0,
        0, 160, 0, 0, 186, 84, 0, 192, 0, 20, 0, 5, 32, 3, 8, 16,
        1, 32, 1, 6, 0, 3, 1, 8, 16, 8, 8, 8, 0, 8, 24, 2,
        0, 0, 0, 253, 0, 0, 0, 0, 0, 0, 0, 20, 0, 0, 8, 16,
        8, 8, 8, 0, 8, 24, 0, 0, 0, 0, 0, 0, 0, 0, 0, 0,
        0, 0, 0, 0, 0, 0, 0, 0, 0, 0, 0, 0, 0, 0, 0, 0,
        0, 0, 0, 0, 0, 0, 0, 0, 0, 0, 0, 0, 0, 0, 0, 0,
        0, 0, 0, 0, 0, 0, 0, 0, 0, 0, 0, 0, 0, 0, 0, 0,
        0, 0, 0, 0, 0, 0, 0, 0, 0, 0, 0, 0, 0, 0, 0, 0,
        0, 0, 0, 0, 0, 0, 0, 0, 0, 0, 0, 0, 0, 0, 0, 0,
        0, 0, 0, 0, 0, 0, 0, 0, 0, 0, 0, 0, 0, 0, 0, 0,
        0, 0, 0, 0, 0, 0, 0, 0, 0, 0, 0, 0, 0, 0, 0, 0,
        0, 0, 0, 0, 0, 0, 0, 0, 0, 0, 0, 0, 0, 0, 0, 0,
        0, 0, 0, 0, 0, 0, 0, 0, 0, 0, 0, 0, 0, 0, 0, 0,
        0, 0, 0, 0, 0, 0, 0, 0, 0, 0, 0, 0, 0, 0, 0, 0,
        0, 0, 0, 0, 0, 0, 0, 0, 0, 0, 0, 0, 0, 0, 0, 0,
        0, 0, 0, 0, 0, 0, 0, 0, 0, 0, 0, 0, 8, 0, 0, 0,
    ];
    let addr = MBI_ADDR;
    let bi = BootInformation::load(addr, &bytes).unwrap();
    assert_eq!(addr, bi.start_address());
    assert_eq!(addr + bytes.len(), bi.end_address());
    assert_eq!(bytes.len(), bi.total_size());
    assert!(bi.vbe_info_tag().is_some());
    let vbe = bi.vbe_info_tag().unwrap();

    assert_eq!(vbe.mode, 16762);
    assert_eq!(vbe.interface_segment, 65535);
    assert_eq!(vbe.interface_offset, 24576);
    assert_eq!(vbe.interface_length, 79);
    assert_eq!(vbe.control_info.signature, [86, 69, 83, 65]);
    assert_eq!(vbe.control_info.version, 768);
    assert_eq!(vbe.control_info.oem_string_ptr, 3221247964);
    // The DAC can be switched between 6 and 8-bit modes.
    assert_eq!(vbe.control_info.capabilities, VBECapabilities(0x1));
    assert_eq!(vbe.control_info.mode_list_ptr, 1610645538);
    assert_eq!(vbe.control_info.total_memory, 256);
    assert_eq!(vbe.control_info.oem_software_revision, 0);
    assert_eq!(vbe.control_info.oem_vendor_name_ptr, 3221247984);
    assert_eq!(vbe.control_info.oem_product_name_ptr, 3221248003);
    assert_eq!(vbe.control_info.oem_product_revision_ptr, 3221248023);
    // Supported, color, graphics, not VGA compatible, linear framebuffer.
    let wanted_mode_attributes: u16 = 0x1 | 0x8 | 0x10 | 0x20 | 0x80;
    assert_eq!(vbe.mode_info.mode_attributes.0 & wanted_mode_attributes, wanted_mode_attributes);
    // Relocatable, readable, writeable.
    let wanted_window_attributes: u8 = 0x1 | 0x2 | 0x4;
    assert_eq!(
        vbe.mode_info.window_a_attributes.0 & wanted_window_attributes,
        wanted_window_attributes
    );
    assert_eq!(vbe.mode_info.window_granularity, 64);
    assert_eq!(vbe.mode_info.window_size, 64);
    assert_eq!(vbe.mode_info.window_a_segment, 40960);
    assert_eq!(vbe.mode_info.window_function_ptr, 3221247162);
    assert_eq!(vbe.mode_info.pitch, 5120);
    assert_eq!(vbe.mode_info.resolution, (1280, 800));
    assert_eq!(vbe.mode_info.character_size, (8, 16));
    assert_eq!(vbe.mode_info.number_of_planes, 1);
    assert_eq!(vbe.mode_info.bpp, 32);
    assert_eq!(vbe.mode_info.number_of_banks, 1);
    assert_eq!(vbe.mode_info.memory_model, VBEMemoryModel::DirectColor);
    assert_eq!(vbe.mode_info.bank_size, 0);
    assert_eq!(vbe.mode_info.number_of_image_pages, 3);
    assert_eq!(vbe.mode_info.red_field, VBEField { position: 16, size: 8 });
    assert_eq!(vbe.mode_info.green_field, VBEField { position: 8, size: 8 });
    assert_eq!(vbe.mode_info.blue_field, VBEField { position: 0, size: 8 });
    assert_eq!(vbe.mode_info.reserved_field, VBEField { position: 24, size: 8 });
    // The bits of the reserved field are usable.
    assert_eq!(vbe.mode_info.direct_color_attributes, VBEDirectColorAttributes(0x2));
    assert_eq!(vbe.mode_info.framebuffer_base_ptr, 4244635648);
    assert_eq!(vbe.mode_info.offscreen_memory_offset, 0);
    assert_eq!(vbe.mode_info.offscreen_memory_size, 0);
}

#[test]
fn get_tag_into_variants() {
    let c = TagType::Cmdline.val().to_le_bytes();
    let bytes: [u8; 32] = [
        32, 0, 0, 0, // total_size
        0, 0, 0, 0, // reserved
        c[0], c[1], c[2], c[3],
        13, 0, 0, 0, // tag size
        110, 97, 109, 101, // ASCII string 'name'
        0, 0, 0, 0, // null byte + padding
        0, 0, 0, 0, // end tag type
        8, 0, 0, 0, // end tag size
    ];
    let bi = BootInformation::load(MBI_ADDR, &bytes).unwrap();
    let _tag = bi.get_tag::<CommandLineTag>().unwrap();
}

fn create_builder() -> InformationBuilder {
    let mut builder = InformationBuilder::new();

    // Multiboot2 basic information + end tag
    let mut expected_len = 8 + 8;
    assert_eq!(builder.expected_len(), expected_len);

    // the most simple tag
    builder = builder.basic_memory_info_tag(BasicMemoryInfoTag::new(640, 7 * 1024));
    expected_len += 16;
    assert_eq!(builder.expected_len(), expected_len);
    // a tag that has a dynamic size
    builder = builder.command_line_tag(CommandLineTag::new("test"));
    expected_len += 8 + 5 + 3; // padding
    assert_eq!(builder.expected_len(), expected_len);
    // many modules
    builder = builder.add_module_tag(ModuleTag::new(0, 1234, "module1"));
    expected_len += 16 + 8;
    assert_eq!(builder.expected_len(), expected_len);
    builder = builder.add_module_tag(ModuleTag::new(5678, 6789, "module2"));
    expected_len += 16 + 8;
    assert_eq!(builder.expected_len(), expected_len);

    println!("builder: {:#?}", builder);
    println!("expected_len: {} bytes", builder.expected_len());

    builder
}

#[test]
fn test_builder_miri() {
    let builder = create_builder();
    let expected_len = builder.expected_len();
    assert_eq!(builder.build().as_bytes().len(), expected_len);
}

#[test]
fn test_builder() {
    // Step 1/2: Build MBI
    let mb2i_data = create_builder().build();

    // Step 2/2: Test the built MBI
    let mb2i = BootInformation::load(MBI_ADDR, mb2i_data.as_bytes())
        .expect("generated information should be readable");

    assert_eq!(mb2i.basic_memory_info_tag().unwrap().memory_lower(), 640);
    assert_eq!(mb2i.basic_memory_info_tag().unwrap().memory_upper(), 7 * 1024);
    assert_eq!(mb2i.command_line_tag().unwrap().cmdline().unwrap(), "test");
    let mut modules = mb2i.module_tags();
    let module_1 = modules.next().unwrap();
    assert_eq!(module_1.start_address(), 0);
    assert_eq!(module_1.end_address(), 1234);
    assert_eq!(module_1.cmdline().unwrap(), "module1");
    let module_2 = modules.next().unwrap();
    assert_eq!(module_2.start_address(), 5678);
    assert_eq!(module_2.end_address(), 6789);
    assert_eq!(module_2.cmdline().unwrap(), "module2");
    assert!(modules.next().is_none());
}

#[test]
fn efi_construct_and_parse() {
    let descs = [
        EFIMemoryDesc {
            ty: EFIMemoryAreaType(7),
            phys_start: 0x1000,
            virt_start: 0x1000,
            page_count: 1,
            att: Default::default(),
        },
        EFIMemoryDesc {
            ty: EFIMemoryAreaType(2),
            phys_start: 0x2000,
            virt_start: 0x2000,
            page_count: 3,
            att: Default::default(),
        },
    ];
    let efi_mmap_tag = EFIMemoryMapTag::new_from_descs(&descs);

    let mut iter = efi_mmap_tag.memory_areas();

    assert_eq!(iter.next(), Some(descs[0]));
    assert_eq!(iter.next(), Some(descs[1]));

    assert_eq!(iter.next(), None);
}

#[test]
fn efi_test_real_data() {
    const DESC_SIZE: u32 = 48;
    const DESC_VERSION: u32 = 1;
    // Sample with 10 entries of a real UEFI memory map extracted from the
    // UEFI test runner of uefi-rs.
    const MMAP_RAW: [u64; 60] = [
        3, 0, 0, 1, 15, 0, 7, 4096, 0, 134, 15, 0, 4, 552960, 0, 1, 15, 0, 7, 557056, 0, 24,
        15, 0, 7, 1048576, 0, 1792, 15, 0, 10, 8388608, 0, 8, 15, 0, 7, 8421376, 0, 3, 15, 0,
        10, 8433664, 0, 1, 15, 0, 7, 8437760, 0, 4, 15, 0, 10, 8454144, 0, 240, 15, 0,
    ];
    let mut buf: Vec<u8> = Vec::new();
    for word in MMAP_RAW {
        buf.extend_from_slice(&word.to_le_bytes());
    }
    let tag = EFIMemoryMapTag::new_from_map(DESC_SIZE, DESC_VERSION, &buf);
    let mut entries = Vec::new();
    let mut iter = tag.memory_areas();
    while let Some(desc) = iter.next() {
        entries.push(desc);
    }
    // Uncacheable, write combine, write through and write back.
    let att = EFIMemoryAttribute(0x1)
        .union(EFIMemoryAttribute(0x2))
        .union(EFIMemoryAttribute(0x4))
        .union(EFIMemoryAttribute(0x8));
    let boot_services_code = EFIMemoryAreaType(3);
    let boot_services_data = EFIMemoryAreaType(4);
    let conventional = EFIMemoryAreaType(7);
    let acpi_non_volatile = EFIMemoryAreaType(10);
    let expected = [
        EFIMemoryDesc { ty: boot_services_code, phys_start: 0x0, virt_start: 0x0, page_count: 0x1, att },
        EFIMemoryDesc { ty: conventional, phys_start: 0x1000, virt_start: 0x0, page_count: 0x86, att },
        EFIMemoryDesc { ty: boot_services_data, phys_start: 0x87000, virt_start: 0x0, page_count: 0x1, att },
        EFIMemoryDesc { ty: conventional, phys_start: 0x88000, virt_start: 0x0, page_count: 0x18, att },
        EFIMemoryDesc { ty: conventional, phys_start: 0x100000, virt_start: 0x0, page_count: 0x700, att },
        EFIMemoryDesc { ty: acpi_non_volatile, phys_start: 0x800000, virt_start: 0x0, page_count: 0x8, att },
        EFIMemoryDesc { ty: conventional, phys_start: 0x808000, virt_start: 0x0, page_count: 0x3, att },
        EFIMemoryDesc { ty: acpi_non_volatile, phys_start: 0x80b000, virt_start: 0x0, page_count: 0x1, att },
        EFIMemoryDesc { ty: conventional, phys_start: 0x80c000, virt_start: 0x0, page_count: 0x4, att },
        EFIMemoryDesc { ty: acpi_non_volatile, phys_start: 0x810000, virt_start: 0x0, page_count: 0xf0, att },
    ];
    assert_eq!(entries.as_slice(), &expected);
}

#[test]
fn v1_new_computes_valid_checksum() {
    let tag = RsdpV1Tag::new(*b"ABCDEF", 1, 0x1234_5678);
    assert!(tag.checksum_is_valid());
}

#[test]
fn v2_new_computes_valid_checksums() {
    let tag = RsdpV2Tag::new(*b"ABCDEF", 2, 0x1234_5678, 36, 0x1234_5678_9abc_def0);
    assert!(tag.checksum_is_valid());
}

#[test]
fn v2_checksum_validation_rejects_corruption() {
    let mut tag = RsdpV2Tag::new(*b"ABCDEF", 2, 0x1234_5678, 36, 0x1234_5678_9abc_def0);
    tag.ext_checksum ^= 1;
    assert!(!tag.checksum_is_valid());
}

#[test]
fn v2_checksum_validation_rejects_checksum_corruption() {
    let mut tag = RsdpV2Tag::new(*b"ABCDEF", 2, 0x1234_5678, 36, 0x1234_5678_9abc_def0);
    tag.checksum ^= 1;
    assert!(!tag.checksum_is_valid());
}

#[test]
fn v2_checksum_validation_rejects_invalid_length() {
    let mut tag = RsdpV2Tag::new(*b"ABCDEF", 2, 0x1234_5678, 36, 0x1234_5678_9abc_def0);
    tag.length = 0;
    assert!(!tag.checksum_is_valid());
}

fn smbios_bytes() -> [u8; 32] {
    [
        TagType::Smbios.val() as u8, 0, 0, 0,
        25, 0, 0, 0,
        /* major */
        7,
        /* minor */
        42,
        /* reserved */
        0, 0, 0, 0, 0, 0,
        /* table data */
        0, 1, 2, 3, 4, 5, 6, 7, 8,
        /* padding */
        0, 0, 0, 0, 0, 0, 0,
    ]
}

#[test]
fn test_parse() {
    let bytes = smbios_bytes();
    let generic = GenericTag::ref_from_slice(&bytes[..]).unwrap();
    let tag = SmbiosTag::from_generic(&generic).unwrap();
    assert_eq!(generic.typ(), TagType::Smbios);
    assert_eq!(tag.major(), 7);
    assert_eq!(tag.minor(), 42);
    assert_eq!(tag.tables(), [0, 1, 2, 3, 4, 5, 6, 7, 8]);
}

#[test]
fn test_build() {
    let tag = SmbiosTag::new(7, 42, &[0, 1, 2, 3, 4, 5, 6, 7, 8]);
    let bytes = TagTrait::as_bytes(&tag);
    let size = GenericTag::ref_from_slice(&bytes).unwrap().header().size as usize;
    let bytes = &bytes[..size];
    assert_eq!(bytes, &smbios_bytes()[..size]);
}

#[test]
fn mbi_load_errors() {
    let bytes: [u8; 16] = [16, 0, 0, 0, 0, 0, 0, 0, 0, 0, 0, 0, 8, 0, 0, 0];
    assert_eq!(BootInformation::load(0, &bytes).unwrap_err(), MbiLoadError::IllegalAddress);
    assert_eq!(BootInformation::load(MBI_ADDR + 4, &bytes).unwrap_err(), MbiLoadError::IllegalAddress);
    let bytes: [u8; 16] = [15, 0, 0, 0, 0, 0, 0, 0, 0, 0, 0, 0, 8, 0, 0, 0];
    assert_eq!(BootInformation::load(MBI_ADDR, &bytes).unwrap_err(), MbiLoadError::IllegalTotalSize(15));
    let bytes: [u8; 16] = [16, 0, 0, 0, 0, 0, 0, 0, 0, 0, 0, 0, 9, 0, 0, 0];
    assert_eq!(BootInformation::load(MBI_ADDR, &bytes).unwrap_err(), MbiLoadError::NoEndTag);
}

#[test]
fn build_and_parse() {
    let empty_desc = EFIMemoryDesc {
        ty: EFIMemoryAreaType(0),
        phys_start: 0,
        virt_start: 0,
        page_count: 0,
        att: Default::default(),
    };
    let custom_header = TagHeader::new(TagType::Custom(0x1337), 8);
    let mut custom_bytes = custom_header.typ.to_le_bytes().to_vec();
    custom_bytes.extend_from_slice(&custom_header.size.to_le_bytes());
    let builder = Builder::new()
        .cmdline(CommandLineTag::new("this is a command line"))
        .bootloader(BootLoaderNameTag::new("this is the bootloader"))
        .add_module(ModuleTag::new(0x1000, 0x2000, "module 1"))
        .add_module(ModuleTag::new(0x3000, 0x4000, "module 2"))
        .meminfo(BasicMemoryInfoTag::new(0x4000, 0x5000))
        .mmap(MemoryMapTag::new(&[MemoryArea::new(
            0x1000000,
            0x1000,
            MemoryAreaTypeId::from(MemoryAreaType::Available),
        )]))
        .vbe(VBEInfoTag::new(42, 2, 4, 9, VBEControlInfo::default(), VBEModeInfo::default()))
        .framebuffer(FramebufferTag::new(0x1000, 1, 756, 1024, 8, FramebufferType::Text))
        .elf_sections(ElfSectionsTag::new(0, 32, 0, &[]))
        .efi32(EFISdt32Tag::new(0x1000))
        .efi64(EFISdt64Tag::new(0x1000))
        .add_smbios(SmbiosTag::new(0, 0, &[1, 2, 3]))
        .add_smbios(SmbiosTag::new(1, 1, &[4, 5, 6]))
        .rsdpv1(RsdpV1Tag::new(*b"abcdef", 5, 6))
        .rsdpv2(RsdpV2Tag::new(*b"abcdef", 5, 6, 5, 4))
        .efi_mmap(EFIMemoryMapTag::new_from_descs(&[empty_desc, empty_desc]))
        .efi_bs(EFIBootServicesNotExitedTag::new())
        .efi32_ih(EFIImageHandle32Tag::new(0x1000))
        .efi64_ih(EFIImageHandle64Tag::new(0x1000))
        .image_load_addr(ImageLoadPhysAddrTag::new(0x1000))
        .add_custom_tag(GenericTag::from_bytes(custom_bytes));

    let structure = builder.build();

    let info = BootInformation::load(MBI_ADDR, structure.as_bytes()).unwrap();
    let mut tags = info.tags();
    let mut count = 0;
    while let Some(tag) = tags.next() {
        println!("{:?} {}", tag.header(), tag.payload().len());
        count += 1;
    }
    assert_eq!(count, 21);
}

#[test]
fn grub2() {
    let mut bytes: [u8; 960] = [
        192, 3, 0, 0, // total_size
        0, 0, 0, 0, // reserved
        1, 0, 0, 0, // boot command tag type
        9, 0, 0, 0, // boot command tag size
        0, 0, 0, 0, // boot command null + padding
        0, 0, 0, 0, // boot command padding
        2, 0, 0, 0, // boot loader name tag type
        26, 0, 0, 0, // boot loader name tag size
        71, 82, 85, 66, // boot loader name
        32, 50, 46, 48, // boot loader name
        50, 126, 98, 101, // boot loader name
        116, 97, 51, 45, // boot loader name
        53, 0, 0, 0, // boot loader name null + padding
        0, 0, 0, 0, // boot loader name padding
        10, 0, 0, 0, // APM tag type
        28, 0, 0, 0, // APM tag size
        2, 1, 0, 240, // APM version, cseg
        207, 212, 0, 0, // APM offset
        0, 240, 0, 240, // APM cseg_16, dseg
        3, 0, 240, 255, // APM flags, cseg_len
        240, 255, 240, 255, // APM cseg_16_len, dseg_len
        0, 0, 0, 0, // APM padding
        6, 0, 0, 0, // memory map tag type
        160, 0, 0, 0, // memory map tag size
        24, 0, 0, 0, // memory map entry_size
        0, 0, 0, 0, // memory map entry_version
        0, 0, 0, 0, // memory map entry 0 base_addr
        0, 0, 0, 0, // memory map entry 0 base_addr
        0, 252, 9, 0, // memory map entry 0 length
        0, 0, 0, 0, // memory map entry 0 length
        1, 0, 0, 0, // memory map entry 0 type
        0, 0, 0, 0, // memory map entry 0 reserved
        0, 252, 9, 0, // memory map entry 1 base_addr
        0, 0, 0, 0, // memory map entry 1 base_addr
        0, 4, 0, 0, // memory map entry 1 length
        0, 0, 0, 0, // memory map entry 1 length
        2, 0, 0, 0, // memory map entry 1 type
        0, 0, 0, 0, // memory map entry 1 reserved
        0, 0, 15, 0, // memory map entry 2 base_addr
        0, 0, 0, 0, // memory map entry 2 base_addr
        0, 0, 1, 0, // memory map entry 2 length
        0, 0, 0, 0, // memory map entry 2 length
        2, 0, 0, 0, // memory map entry 2 type
        0, 0, 0, 0, // memory map entry 2 reserved
        0, 0, 16, 0, // memory map entry 3 base_addr
        0, 0, 0, 0, // memory map entry 3 base_addr
        0, 0, 238, 7, // memory map entry 3 length
        0, 0, 0, 0, // memory map entry 3 length
        1, 0, 0, 0, // memory map entry 3 type
        0, 0, 0, 0, // memory map entry 3 reserved
        0, 0, 254, 7, // memory map entry 4 base_addr
        0, 0, 0, 0, // memory map entry 4 base_addr
        0, 0, 2, 0, // memory map entry 4 length
        0, 0, 0, 0, // memory map entry 4 length
        2, 0, 0, 0, // memory map entry 4 type
        0, 0, 0, 0, // memory map entry 4 reserved
        0, 0, 252, 255, // memory map entry 5 base_addr
        0, 0, 0, 0, // memory map entry 5 base_addr
        0, 0, 4, 0, // memory map entry 5 length
        0, 0, 0, 0, // memory map entry 5 length
        2, 0, 0, 0, // memory map entry 5 type
        0, 0, 0, 0, // memory map entry 5 reserved
        9, 0, 0, 0, // elf symbols tag type
        84, 2, 0, 0, // elf symbols tag size
        9, 0, 0, 0, // elf symbols num
        64, 0, 0, 0, // elf symbols entsize
        8, 0, 0, 0, // elf symbols shndx
        0, 0, 0, 0, // elf symbols entry 0 name
        0, 0, 0, 0, // elf symbols entry 0 type
        0, 0, 0, 0, // elf symbols entry 0 flags
        0, 0, 0, 0, // elf symbols entry 0 flags
        0, 0, 0, 0, // elf symbols entry 0 addr
        0, 0, 0, 0, // elf symbols entry 0 addr
        0, 0, 0, 0, // elf symbols entry 0 offset
        0, 0, 0, 0, // elf symbols entry 0 offset
        0, 0, 0, 0, // elf symbols entry 0 size
        0, 0, 0, 0, // elf symbols entry 0 size
        0, 0, 0, 0, // elf symbols entry 0 link
        0, 0, 0, 0, // elf symbols entry 0 info
        0, 0, 0, 0, // elf symbols entry 0 addralign
        0, 0, 0, 0, // elf symbols entry 0 addralign
        0, 0, 0, 0, // elf symbols entry 0 entsize
        0, 0, 0, 0, // elf symbols entry 0 entsize
        27, 0, 0, 0, // elf symbols entry 1 name
        1, 0, 0, 0, // elf symbols entry 1 type
        2, 0, 0, 0, // elf symbols entry 1 flags
        0, 0, 0, 0, // elf symbols entry 1 flags
        0, 0, 16, 0, // elf symbols entry 1 addr
        0, 128, 255, 255, // elf symbols entry 1 addr
        0, 16, 0, 0, // elf symbols entry 1 offset
        0, 0, 0, 0, // elf symbols entry 1 offset
        0, 48, 0, 0, // elf symbols entry 1 size
        0, 0, 0, 0, // elf symbols entry 1 size
        0, 0, 0, 0, // elf symbols entry 1 link
        0, 0, 0, 0, // elf symbols entry 1 info
        16, 0, 0, 0, // elf symbols entry 1 addralign
        0, 0, 0, 0, // elf symbols entry 1 addralign
        0, 0, 0, 0, // elf symbols entry 1 entsize
        0, 0, 0, 0, // elf symbols entry 1 entsize
        35, 0, 0, 0, // elf symbols entry 2 name
        1, 0, 0, 0, // elf symbols entry 2 type
        6, 0, 0, 0, // elf symbols entry 2 flags
        0, 0, 0, 0, // elf symbols entry 2 flags
        0, 48, 16, 0, // elf symbols entry 2 addr
        0, 128, 255, 255, // elf symbols entry 2 addr
        0, 64, 0, 0, // elf symbols entry 2 offset
        0, 0, 0, 0, // elf symbols entry 2 offset
        0, 144, 0, 0, // elf symbols entry 2 size
        0, 0, 0, 0, // elf symbols entry 2 size
        0, 0, 0, 0, // elf symbols entry 2 link
        0, 0, 0, 0, // elf symbols entry 2 info
        16, 0, 0, 0, // elf symbols entry 2 addralign
        0, 0, 0, 0, // elf symbols entry 2 addralign
        0, 0, 0, 0, // elf symbols entry 2 entsize
        0, 0, 0, 0, // elf symbols entry 2 entsize
        41, 0, 0, 0, // elf symbols entry 3 name
        1, 0, 0, 0, // elf symbols entry 3 type
        3, 0, 0, 0, // elf symbols entry 3 flags
        0, 0, 0, 0, // elf symbols entry 3 flags
        0, 192, 16, 0, // elf symbols entry 3 addr
        0, 128, 255, 255, // elf symbols entry 3 addr
        0, 208, 0, 0, // elf symbols entry 3 offset
        0, 0, 0, 0, // elf symbols entry 3 offset
        0, 32, 0, 0, // elf symbols entry 3 size
        0, 0, 0, 0, // elf symbols entry 3 size
        0, 0, 0, 0, // elf symbols entry 3 link
        0, 0, 0, 0, // elf symbols entry 3 info
        8, 0, 0, 0, // elf symbols entry 3 addralign
        0, 0, 0, 0, // elf symbols entry 3 addralign
        0, 0, 0, 0, // elf symbols entry 3 entsize
        0, 0, 0, 0, // elf symbols entry 3 entsize
        47, 0, 0, 0, // elf symbols entry 4 name
        8, 0, 0, 0, // elf symbols entry 4 type
        3, 0, 0, 0, // elf symbols entry 4 flags
        0, 0, 0, 0, // elf symbols entry 4 flags
        0, 224, 16, 0, // elf symbols entry 4 addr
        0, 128, 255, 255, // elf symbols entry 4 addr
        0, 240, 0, 0, // elf symbols entry 4 offset
        0, 0, 0, 0, // elf symbols entry 4 offset
        0, 80, 0, 0, // elf symbols entry 4 size
        0, 0, 0, 0, // elf symbols entry 4 size
        0, 0, 0, 0, // elf symbols entry 4 link
        0, 0, 0, 0, // elf symbols entry 4 info
        0, 16, 0, 0, // elf symbols entry 4 addralign
        0, 0, 0, 0, // elf symbols entry 4 addralign
        0, 0, 0, 0, // elf symbols entry 4 entsize
        0, 0, 0, 0, // elf symbols entry 4 entsize
        52, 0, 0, 0, // elf symbols entry 5 name
        1, 0, 0, 0, // elf symbols entry 5 type
        3, 0, 0, 0, // elf symbols entry 5 flags
        0, 0, 0, 0, // elf symbols entry 5 flags
        0, 48, 17, 0, // elf symbols entry 5 addr
        0, 128, 255, 255, // elf symbols entry 5 addr
        0, 240, 0, 0, // elf symbols entry 5 offset
        0, 0, 0, 0, // elf symbols entry 5 offset
        0, 0, 0, 0, // elf symbols entry 5 size
        0, 0, 0, 0, // elf symbols entry 5 size
        0, 0, 0, 0, // elf symbols entry 5 link
        0, 0, 0, 0, // elf symbols entry 5 info
        1, 0, 0, 0, // elf symbols entry 5 addralign
        0, 0, 0, 0, // elf symbols entry 5 addralign
        0, 0, 0, 0, // elf symbols entry 5 entsize
        0, 0, 0, 0, // elf symbols entry 5 entsize
        1, 0, 0, 0, // elf symbols entry 6 name
        2, 0, 0, 0, // elf symbols entry 6 type
        0, 0, 0, 0, // elf symbols entry 6 flags
        0, 0, 0, 0, // elf symbols entry 6 flags
        0, 48, 17, 0, // elf symbols entry 6 addr
        0, 0, 0, 0, // elf symbols entry 6 addr
        0, 240, 0, 0, // elf symbols entry 6 offset
        0, 0, 0, 0, // elf symbols entry 6 offset
        224, 43, 0, 0, // elf symbols entry 6 size
        0, 0, 0, 0, // elf symbols entry 6 size
        7, 0, 0, 0, // elf symbols entry 6 link
        102, 1, 0, 0, // elf symbols entry 6 info
        8, 0, 0, 0, // elf symbols entry 6 addralign
        0, 0, 0, 0, // elf symbols entry 6 addralign
        24, 0, 0, 0, // elf symbols entry 6 entsize
        0, 0, 0, 0, // elf symbols entry 6 entsize
        9, 0, 0, 0, // elf symbols entry 7 name
        3, 0, 0, 0, // elf symbols entry 7 type
        0, 0, 0, 0, // elf symbols entry 7 flags
        0, 0, 0, 0, // elf symbols entry 7 flags
        224, 91, 17, 0, // elf symbols entry 7 addr
        0, 0, 0, 0, // elf symbols entry 7 addr
        224, 27, 1, 0, // elf symbols entry 7 offset
        0, 0, 0, 0, // elf symbols entry 7 offset
        145, 55, 0, 0, // elf symbols entry 7 size
        0, 0, 0, 0, // elf symbols entry 7 size
        0, 0, 0, 0, // elf symbols entry 7 link
        0, 0, 0, 0, // elf symbols entry 7 info
        1, 0, 0, 0, // elf symbols entry 7 addralign
        0, 0, 0, 0, // elf symbols entry 7 addralign
        0, 0, 0, 0, // elf symbols entry 7 entsize
        0, 0, 0, 0, // elf symbols entry 7 entsize
        17, 0, 0, 0, // elf symbols entry 8 name
        3, 0, 0, 0, // elf symbols entry 8 type
        0, 0, 0, 0, // elf symbols entry 8 flags
        0, 0, 0, 0, // elf symbols entry 8 flags
        113, 147, 17, 0, // elf symbols entry 8 addr
        0, 0, 0, 0, // elf symbols entry 8 addr
        113, 83, 1, 0, // elf symbols entry 8 offset
        0, 0, 0, 0, // elf symbols entry 8 offset
        65, 0, 0, 0, // elf symbols entry 8 size
        0, 0, 0, 0, // elf symbols entry 8 size
        0, 0, 0, 0, // elf symbols entry 8 link
        0, 0, 0, 0, // elf symbols entry 8 info
        1, 0, 0, 0, // elf symbols entry 8 addralign
        0, 0, 0, 0, // elf symbols entry 8 addralign
        0, 0, 0, 0, // elf symbols entry 8 entsize
        0, 0, 0, 0, // elf symbols entry 8 entsize
        0, 0, 0, 0, // elf symbols padding
        4, 0, 0, 0, // basic memory tag type
        16, 0, 0, 0, // basic memory tag size
        127, 2, 0, 0, // basic memory mem_lower
        128, 251, 1, 0, // basic memory mem_upper
        5, 0, 0, 0, // BIOS boot device tag type
        20, 0, 0, 0, // BIOS boot device tag size
        224, 0, 0, 0, // BIOS boot device biosdev
        255, 255, 255, 255, // BIOS boot device partition
        255, 255, 255, 255, // BIOS boot device subpartition
        0, 0, 0, 0, // BIOS boot device padding
        8, 0, 0, 0, // framebuffer info tag type
        32, 0, 0, 0, // framebuffer info tag size
        0, 128, 11, 0, // framebuffer info framebuffer_addr
        0, 0, 0, 0, // framebuffer info framebuffer_addr
        160, 0, 0, 0, // framebuffer info framebuffer_pitch
        80, 0, 0, 0, // framebuffer info framebuffer_width
        25, 0, 0, 0, // framebuffer info framebuffer_height
        16, 2, 0, 0, // framebuffer info framebuffer_[bpp,type], reserved, color_info
        14, 0, 0, 0, // ACPI old tag type
        28, 0, 0, 0, // ACPI old tag size
        82, 83, 68, 32, // ACPI old
        80, 84, 82, 32, // ACPI old
        89, 66, 79, 67, // ACPI old
        72, 83, 32, 0, // ACPI old
        220, 24, 254, 7, // ACPI old
        0, 0, 0, 0, // ACPI old padding
        0, 0, 0, 0, // end tag type
        8, 0, 0, 0, // end tag size
    ];
    let string_bytes: [u8; 65] = [
        0, 46, 115, 121, 109, 116, 97, 98, 0, 46, 115, 116, 114, 116, 97, 98, 0, 46, 115, 104,
        115, 116, 114, 116, 97, 98, 0, 46, 114, 111, 100, 97, 116, 97, 0, 46, 116, 101, 120,
        116, 0, 46, 100, 97, 116, 97, 0, 46, 98, 115, 115, 0, 46, 100, 97, 116, 97, 46, 114,
        101, 108, 46, 114, 111, 0,
    ];
    // The address at which the section name string table is loaded.
    let string_addr: u64 = 0x0020_0000;
    for i in 0..8 {
        bytes[796 + i] = (string_addr >> (i * 8)) as u8;
    }
    let addr = MBI_ADDR;
    let bi = BootInformation::load(addr, &bytes);
    let bi = bi.unwrap();
    test_grub2_boot_info(&bi, addr, string_addr, &bytes, &string_bytes);

    // The debug output can be printed.
    println!("{bi:#?}");
}

/// Helper for [`grub2`].
fn test_grub2_boot_info(
    bi: &BootInformation,
    addr: usize,
    string_addr: u64,
    bytes: &[u8],
    string_bytes: &[u8],
) {
    assert_eq!(addr, bi.start_address());
    assert_eq!(addr + bytes.len(), bi.end_address());
    assert_eq!(bytes.len(), bi.total_size());
    let mut es = bi.elf_sections().unwrap().into_iter();
    let allocated = ElfSectionFlags(ElfSectionFlags::ALLOCATED_BIT);
    let s1 = es.next().expect("Should have one more section");
    assert_eq!(".rodata", s1.name(string_bytes).expect("Should be valid utf-8"));
    assert_eq!(0xFFFF_8000_0010_0000, s1.start_address());
    assert_eq!(0xFFFF_8000_0010_3000, s1.end_address());
    assert_eq!(0x0000_0000_0000_3000, s1.size());
    assert_eq!(allocated, s1.flags());
    assert_eq!(ElfSectionType::ProgramSection, s1.section_type());
    let s2 = es.next().expect("Should have one more section");
    assert_eq!(".text", s2.name(string_bytes).expect("Should be valid utf-8"));
    assert_eq!(0xFFFF_8000_0010_3000, s2.start_address());
    assert_eq!(0xFFFF_8000_0010_C000, s2.end_address());
    assert_eq!(0x0000_0000_0000_9000, s2.size());
    assert_eq!(
        ElfSectionFlags(ElfSectionFlags::EXECUTABLE_BIT | ElfSectionFlags::ALLOCATED_BIT),
        s2.flags()
    );
    assert_eq!(ElfSectionType::ProgramSection, s2.section_type());
    let s3 = es.next().expect("Should have one more section");
    assert_eq!(".data", s3.name(string_bytes).expect("Should be valid utf-8"));
    assert_eq!(0xFFFF_8000_0010_C000, s3.start_address());
    assert_eq!(0xFFFF_8000_0010_E000, s3.end_address());
    assert_eq!(0x0000_0000_0000_2000, s3.size());
    assert_eq!(
        ElfSectionFlags(ElfSectionFlags::ALLOCATED_BIT | ElfSectionFlags::WRITABLE_BIT),
        s3.flags()
    );
    assert_eq!(ElfSectionType::ProgramSection, s3.section_type());
    let s4 = es.next().expect("Should have one more section");
    assert_eq!(".bss", s4.name(string_bytes).expect("Should be valid utf-8"));
    assert_eq!(0xFFFF_8000_0010_E000, s4.start_address());
    assert_eq!(0xFFFF_8000_0011_3000, s4.end_address());
    assert_eq!(0x0000_0000_0000_5000, s4.size());
    assert_eq!(
        ElfSectionFlags(ElfSectionFlags::ALLOCATED_BIT | ElfSectionFlags::WRITABLE_BIT),
        s4.flags()
    );
    assert_eq!(ElfSectionType::Uninitialized, s4.section_type());
    let s5 = es.next().expect("Should have one more section");
    assert_eq!(".data.rel.ro", s5.name(string_bytes).expect("Should be valid utf-8"));
    assert_eq!(0xFFFF_8000_0011_3000, s5.start_address());
    assert_eq!(0xFFFF_8000_0011_3000, s5.end_address());
    assert_eq!(0x0000_0000_0000_0000, s5.size());
    assert_eq!(
        ElfSectionFlags(ElfSectionFlags::ALLOCATED_BIT | ElfSectionFlags::WRITABLE_BIT),
        s5.flags()
    );
    assert_eq!(ElfSectionType::ProgramSection, s5.section_type());
    let s6 = es.next().expect("Should have one more section");
    assert_eq!(".symtab", s6.name(string_bytes).expect("Should be valid utf-8"));
    assert_eq!(0x0000_0000_0011_3000, s6.start_address());
    assert_eq!(0x0000_0000_0011_5BE0, s6.end_address());
    assert_eq!(0x0000_0000_0000_2BE0, s6.size());
    assert_eq!(ElfSectionFlags::empty(), s6.flags());
    assert_eq!(ElfSectionType::LinkerSymbolTable, s6.section_type());
    let s7 = es.next().expect("Should have one more section");
    assert_eq!(".strtab", s7.name(string_bytes).expect("Should be valid utf-8"));
    assert_eq!(0x0000_0000_0011_5BE0, s7.start_address());
    assert_eq!(0x0000_0000_0011_9371, s7.end_address());
    assert_eq!(0x0000_0000_0000_3791, s7.size());
    assert_eq!(ElfSectionFlags::empty(), s7.flags());
    assert_eq!(ElfSectionType::StringTable, s7.section_type());
    let s8 = es.next().expect("Should have one more section");
    assert_eq!(".shstrtab", s8.name(string_bytes).expect("Should be valid utf-8"));
    assert_eq!(string_addr, s8.start_address());
    assert_eq!(string_addr + string_bytes.len() as u64, s8.end_address());
    assert_eq!(string_bytes.len() as u64, s8.size());
    assert_eq!(ElfSectionFlags::empty(), s8.flags());
    assert_eq!(ElfSectionType::StringTable, s8.section_type());
    assert!(es.next().is_none());
    let available = MemoryAreaTypeId::from(MemoryAreaType::Available);
    let mut mm = bi
        .memory_map_tag()
        .unwrap()
        .memory_areas()
        .into_iter()
        .filter(|area| area.typ() == available);
    let mm1 = mm.next().unwrap();
    assert_eq!(0x00000000, mm1.start_address());
    assert_eq!(0x009_FC00, mm1.end_address());
    assert_eq!(0x009_FC00, mm1.size());
    assert_eq!(available, mm1.typ());
    let mm2 = mm.next().unwrap();
    assert_eq!(0x010_0000, mm2.start_address());
    assert_eq!(0x7FE_0000, mm2.end_address());
    assert_eq!(0x7EE_0000, mm2.size());
    assert_eq!(available, mm2.typ());
    assert!(mm.next().is_none());

    // Test the RSDP tag
    let rsdp_old = bi.rsdp_v1_tag().unwrap();
    assert_eq!("RSD PTR ", rsdp_old.signature().unwrap());
    assert!(rsdp_old.checksum_is_valid());
    assert_eq!("BOCHS ", rsdp_old.oem_id().unwrap());
    assert_eq!(0, rsdp_old.revision());
    assert_eq!(0x7FE18DC, rsdp_old.rsdt_address());

    assert!(bi.module_tags().next().is_none());
    assert_eq!(
        "GRUB 2.02~beta3-5",
        bi.boot_loader_name_tag()
            .expect("tag must be present")
            .name()
            .expect("must be valid utf-8")
    );
    assert_eq!(
        "",
        bi.command_line_tag()
            .expect("tag must present")
            .cmdline()
            .expect("must be valid utf-8")
    );

    // Test the Framebuffer tag
    let fbi = bi
        .framebuffer_tag()
        .expect("Framebuffer info should be available")
        .expect("Framebuffer info type should be valid");
    assert_eq!(fbi.address(), 753664);
    assert_eq!(fbi.pitch(), 160);
    assert_eq!(fbi.width(), 80);
    assert_eq!(fbi.height(), 25);
    assert_eq!(fbi.bpp(), 16);
    assert_eq!(fbi.buffer_type(), Ok(FramebufferType::Text));
}

#[test]
fn tags_can_be_changed_in_place() {
    let builder = InformationBuilder::new()
        .basic_memory_info_tag(BasicMemoryInfoTag::new(640, 7 * 1024))
        .command_line_tag(CommandLineTag::new("test"));
    let mut bytes = builder.build().as_bytes().to_vec();
    let mut bi = BootInformationMut::load_mut(MBI_ADDR, &mut bytes).unwrap();
    let tag = bi.basic_memory_info_tag_mut().unwrap();
    assert_eq!(tag.len(), 16);
    // memory_upper: the four bytes after memory_lower
    tag[12..16].copy_from_slice(&(8 * 1024u32).to_le_bytes());
    assert!(bi.memory_map_tag_mut().is_none());
    assert!(bi.efi_memory_map_tag_mut().is_none());
    let info = bi.as_ref();
    let basic = info.basic_memory_info_tag().unwrap();
    assert_eq!(basic.memory_lower(), 640);
    assert_eq!(basic.memory_upper(), 8 * 1024);
    assert_eq!(
        info.command_line_tag().unwrap().cmdline(),
        Ok("test".to_string())
    );
}

#[test]
fn load_mut_checks_like_load() {
    let mut bytes: [u8; 16] = [
        16, 0, 0, 0, // total_size
        0, 0, 0, 0, // reserved
        0, 0, 0, 0, // end tag type
        9, 0, 0, 0, // end tag size
    ];
    assert_eq!(BootInformationMut::load_mut(MBI_ADDR, &mut bytes).err(), Some(MbiLoadError::NoEndTag));
    assert_eq!(BootInformationMut::load_mut(MBI_ADDR + 4, &mut bytes).err(), Some(MbiLoadError::IllegalAddress));
}

#[test]
fn walk_stops_only_at_the_end_tag_of_size_8() {
    let bytes: [u8; 40] = [
        40, 0, 0, 0, // total_size
        0, 0, 0, 0, // reserved
        0, 0, 0, 0, // a tag of type 0 ...
        16, 0, 0, 0, // ... but of size 16: not the end tag
        1, 2, 3, 4, 5, 6, 7, 8, // its payload
        1, 0, 0, 0, // command line tag type
        8, 0, 0, 0, // command line tag size (empty, no NUL)
        0, 0, 0, 0, // end tag type
        8, 0, 0, 0, // end tag size
    ];
    let bi = BootInformation::load(MBI_ADDR, &bytes).unwrap();
    let mut tags = bi.tags();
    let first = tags.next().unwrap();
    assert_eq!(first.typ(), TagType::End);
    assert_eq!(first.header().size, 16);
    assert_eq!(tags.next().unwrap().typ(), TagType::Cmdline);
    assert!(tags.next().is_none());
    assert!(bi.command_line_tag().is_some());
}
