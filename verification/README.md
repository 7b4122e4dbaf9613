# multiboot2

A verified library for the Multiboot2 boot protocol: it parses the boot
information (MBI) that a Multiboot2 boot loader hands to a kernel, builds such
structures, and reads and builds Multiboot2 headers. The functions of the
library are proved by Verus against contracts over byte sequences, except
two trusted wrappers whose contracts Verus takes as given: `str_from_utf8`
(`src/util.rs`, around `core::str::from_utf8`) and `section_header_at`
(`src/elf_sections.rs`, around the `elf` crate's section header table).

## Layout

- `src/bytes.rs`: little-endian fields, padding and sums over byte sequences.
- `src/tag.rs`: tag types, the tag header, the walk over the tags of a
  structure, and the `TagTrait` that every tag type implements.
- One module per tag: `command_line`, `boot_loader_name`, `module`,
  `memory_map` (including the EFI memory map), `bootdev`, `framebuffer`,
  `elf_sections`, `apm`, `efi`, `smbios`, `rsdp`, `network`, `vbe_info`,
  `image_load_addr`, `end`.
- `src/boot_information.rs`: loading a boot information from its bytes and
  finding tags in it; `BootInformationMut` hands out the bytes of a tag to
  change in place.
- `src/builder.rs`, `src/builder/information.rs`: building boot
  informations, with the laws that what is built loads and gives its tags
  back.
- `src/header.rs`, `src/header/tags.rs`, `src/mbi.rs`: the Multiboot2 header
  and its tags.
- `app/lib.rs`: what needs raw memory (loading from a pointer, mutably or not, reading the
  ELF section name table at its address) and `Display`/`Error` for the error
  types.
- `tests/`: tests on concrete structures, GRUB output among them.
