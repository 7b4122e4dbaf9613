use vstd::prelude::*;

pub mod bytes;
pub mod tag;
pub mod util;
pub mod command_line;
pub mod memory_map;
pub mod module;
pub mod boot_loader_name;
pub mod efi;
pub mod image_load_addr;
pub mod bootdev;
pub mod apm;
pub mod end;
pub mod rsdp;
pub mod framebuffer;
pub mod smbios;
pub mod network;
pub mod elf_sections;
pub mod mbi;
pub mod header;
pub mod vbe_info;
pub mod boot_information;
pub mod builder;

verus! {

/// Magic number that a Multiboot2-compliant boot loader will use to identify
/// the handoff.
pub const MAGIC: u32 = 0x36d76289;

} // verus!
