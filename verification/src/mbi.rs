//! The tag types and the raw walk over the tags of a Multiboot2 information
//! structure ("mbi"), as a header tag refers to them.
use crate::bytes::{align8, read_u32_le, spec_u32_le};
use crate::tag::{tag_type_from, tag_type_val};
use core::cmp::Ordering;
use vstd::prelude::*;
use vstd::std_specs::cmp::{PartialEqSpecImpl, PartialOrdSpecImpl};

verus! {

/// Possible types of a boot information tag. The names and values are taken
/// from the example C code at the bottom of the Multiboot2 specification.
#[derive(Clone, Copy, Debug, PartialEq, Eq, Structural)]
pub enum MbiTagType {
    /// `0`
    End,
    /// `1`
    Cmdline,
    /// `2`
    BootLoaderName,
    /// `3`
    Module,
    /// `4`
    BasicMeminfo,
    /// `5`
    Bootdev,
    /// `6`
    Mmap,
    /// `7`
    Vbe,
    /// `8`
    Framebuffer,
    /// `9`
    ElfSections,
    /// `10`
    Apm,
    /// `11`
    Efi32,
    /// `12`
    Efi64,
    /// `13`
    Smbios,
    /// `14`: Also called "AcpiOld" in other multiboot2 implementations.
    AcpiV1,
    /// `15`: Refers to version 2 and later of Acpi. Also called "AcpiNew" in
    /// other multiboot2 implementations.
    AcpiV2,
    /// `16`
    Network,
    /// `17`
    EfiMmap,
    /// `18`
    EfiBs,
    /// `19`
    Efi32Ih,
    /// `20`
    Efi64Ih,
    /// `21`
    LoadBaseAddr,
}

/// The numeric id of a tag type.
pub open spec fn mbi_tag_type_val(t: MbiTagType) -> u32 {
    match t {
        MbiTagType::End => 0,
        MbiTagType::Cmdline => 1,
        MbiTagType::BootLoaderName => 2,
        MbiTagType::Module => 3,
        MbiTagType::BasicMeminfo => 4,
        MbiTagType::Bootdev => 5,
        MbiTagType::Mmap => 6,
        MbiTagType::Vbe => 7,
        MbiTagType::Framebuffer => 8,
        MbiTagType::ElfSections => 9,
        MbiTagType::Apm => 10,
        MbiTagType::Efi32 => 11,
        MbiTagType::Efi64 => 12,
        MbiTagType::Smbios => 13,
        MbiTagType::AcpiV1 => 14,
        MbiTagType::AcpiV2 => 15,
        MbiTagType::Network => 16,
        MbiTagType::EfiMmap => 17,
        MbiTagType::EfiBs => 18,
        MbiTagType::Efi32Ih => 19,
        MbiTagType::Efi64Ih => 20,
        MbiTagType::LoadBaseAddr => 21,
    }
}

/// The tag type of a numeric id up to 21.
pub open spec fn mbi_tag_type_from(v: u32) -> MbiTagType
    recommends
        v <= 21,
{
    if v == 0 {
        MbiTagType::End
    } else if v == 1 {
        MbiTagType::Cmdline
    } else if v == 2 {
        MbiTagType::BootLoaderName
    } else if v == 3 {
        MbiTagType::Module
    } else if v == 4 {
        MbiTagType::BasicMeminfo
    } else if v == 5 {
        MbiTagType::Bootdev
    } else if v == 6 {
        MbiTagType::Mmap
    } else if v == 7 {
        MbiTagType::Vbe
    } else if v == 8 {
        MbiTagType::Framebuffer
    } else if v == 9 {
        MbiTagType::ElfSections
    } else if v == 10 {
        MbiTagType::Apm
    } else if v == 11 {
        MbiTagType::Efi32
    } else if v == 12 {
        MbiTagType::Efi64
    } else if v == 13 {
        MbiTagType::Smbios
    } else if v == 14 {
        MbiTagType::AcpiV1
    } else if v == 15 {
        MbiTagType::AcpiV2
    } else if v == 16 {
        MbiTagType::Network
    } else if v == 17 {
        MbiTagType::EfiMmap
    } else if v == 18 {
        MbiTagType::EfiBs
    } else if v == 19 {
        MbiTagType::Efi32Ih
    } else if v == 20 {
        MbiTagType::Efi64Ih
    } else {
        MbiTagType::LoadBaseAddr
    }
}

impl MbiTagType {
    /// Returns the numeric id of the tag type.
    pub fn val(&self) -> (r: u32)
        ensures
            r == mbi_tag_type_val(*self),
    {
        match self {
            MbiTagType::End => 0,
            MbiTagType::Cmdline => 1,
            MbiTagType::BootLoaderName => 2,
            MbiTagType::Module => 3,
            MbiTagType::BasicMeminfo => 4,
            MbiTagType::Bootdev => 5,
            MbiTagType::Mmap => 6,
            MbiTagType::Vbe => 7,
            MbiTagType::Framebuffer => 8,
            MbiTagType::ElfSections => 9,
            MbiTagType::Apm => 10,
            MbiTagType::Efi32 => 11,
            MbiTagType::Efi64 => 12,
            MbiTagType::Smbios => 13,
            MbiTagType::AcpiV1 => 14,
            MbiTagType::AcpiV2 => 15,
            MbiTagType::Network => 16,
            MbiTagType::EfiMmap => 17,
            MbiTagType::EfiBs => 18,
            MbiTagType::Efi32Ih => 19,
            MbiTagType::Efi64Ih => 20,
            MbiTagType::LoadBaseAddr => 21,
        }
    }

    /// Returns the tag type of a numeric id up to 21.
    pub fn from_val(v: u32) -> (r: MbiTagType)
        requires
            v <= 21,
        ensures
            r == mbi_tag_type_from(v),
            mbi_tag_type_val(r) == v,
    {
        if v == 0 {
            MbiTagType::End
        } else if v == 1 {
            MbiTagType::Cmdline
        } else if v == 2 {
            MbiTagType::BootLoaderName
        } else if v == 3 {
            MbiTagType::Module
        } else if v == 4 {
            MbiTagType::BasicMeminfo
        } else if v == 5 {
            MbiTagType::Bootdev
        } else if v == 6 {
            MbiTagType::Mmap
        } else if v == 7 {
            MbiTagType::Vbe
        } else if v == 8 {
            MbiTagType::Framebuffer
        } else if v == 9 {
            MbiTagType::ElfSections
        } else if v == 10 {
            MbiTagType::Apm
        } else if v == 11 {
            MbiTagType::Efi32
        } else if v == 12 {
            MbiTagType::Efi64
        } else if v == 13 {
            MbiTagType::Smbios
        } else if v == 14 {
            MbiTagType::AcpiV1
        } else if v == 15 {
            MbiTagType::AcpiV2
        } else if v == 16 {
            MbiTagType::Network
        } else if v == 17 {
            MbiTagType::EfiMmap
        } else if v == 18 {
            MbiTagType::EfiBs
        } else if v == 19 {
            MbiTagType::Efi32Ih
        } else if v == 20 {
            MbiTagType::Efi64Ih
        } else {
            MbiTagType::LoadBaseAddr
        }
    }
}

/// A tag type equals the number that is its id.
impl PartialEq<u32> for MbiTagType {
    fn eq(&self, other: &u32) -> (r: bool) {
        self.val() == *other
    }
}

impl PartialEqSpecImpl<u32> for MbiTagType {
    open spec fn obeys_eq_spec() -> bool {
        true
    }

    open spec fn eq_spec(&self, other: &u32) -> bool {
        mbi_tag_type_val(*self) == *other
    }
}

/// A number equals the tag type whose id it is.
impl PartialEq<MbiTagType> for u32 {
    fn eq(&self, other: &MbiTagType) -> (r: bool) {
        *self == other.val()
    }
}

impl PartialEqSpecImpl<MbiTagType> for u32 {
    open spec fn obeys_eq_spec() -> bool {
        true
    }

    open spec fn eq_spec(&self, other: &MbiTagType) -> bool {
        *self == mbi_tag_type_val(*other)
    }
}

/// Tag types compare with numbers by their ids.
impl PartialOrd<u32> for MbiTagType {
    fn partial_cmp(&self, other: &u32) -> (r: Option<Ordering>) {
        let num = self.val();
        if num < *other {
            Some(Ordering::Less)
        } else if num == *other {
            Some(Ordering::Equal)
        } else {
            Some(Ordering::Greater)
        }
    }
}

impl PartialOrdSpecImpl<u32> for MbiTagType {
    open spec fn obeys_partial_cmp_spec() -> bool {
        true
    }

    open spec fn partial_cmp_spec(&self, other: &u32) -> Option<Ordering> {
        if mbi_tag_type_val(*self) < *other {
            Some(Ordering::Less)
        } else if mbi_tag_type_val(*self) == *other {
            Some(Ordering::Equal)
        } else {
            Some(Ordering::Greater)
        }
    }
}

/// The common part of all tags of the boot information: type and size.
#[derive(Clone, Copy, Debug, PartialEq, Eq, Structural)]
pub struct MbiTag {
    /// The type of the tag.
    pub typ: MbiTagType,
    /// The size of the tag, in bytes.
    pub size: u32,
}

/// The tag stored at `off` in `b`.
pub open spec fn mbi_tag_at(b: Seq<u8>, off: int) -> MbiTag {
    MbiTag { typ: mbi_tag_type_from(spec_u32_le(b, off) as u32), size: spec_u32_le(b, off + 4) as u32 }
}

/// The tag at `off` in `b` can be read: it lies in `b`, its type is known,
/// and the step to the next tag stays in range.
pub open spec fn mbi_tag_readable(b: Seq<u8>, off: int) -> bool {
    &&& 0 <= off
    &&& off + 8 <= b.len()
    &&& spec_u32_le(b, off) <= 21
    &&& spec_u32_le(b, off + 4) + 7 <= u32::MAX
    &&& off + align8(spec_u32_le(b, off + 4)) <= usize::MAX
}

/// A walk over the tags of a boot information, from the tag at a given
/// position; it stops at the end tag.
#[derive(Clone, Debug)]
pub struct MbiTagIter<'a> {
    bytes: &'a [u8],
    current: usize,
}

impl<'a> MbiTagIter<'a> {
    /// The bytes that the walk reads.
    pub closed spec fn spec_bytes(&self) -> Seq<u8> {
        self.bytes@
    }

    /// The position of the next tag.
    pub closed spec fn spec_current(&self) -> int {
        self.current as int
    }

    /// Creates a walk that starts with the tag at `first` in `bytes`.
    pub fn new(bytes: &'a [u8], first: usize) -> (r: MbiTagIter<'a>)
        ensures
            r.spec_bytes() == bytes@,
            r.spec_current() == first,
    {
        MbiTagIter { bytes, current: first }
    }

    /// Returns the next tag: `None` at an end tag of size 8, where the walk
    /// stays; otherwise the tag, and the walk moves to the next multiple of 8
    /// after it.
    pub fn next(&mut self) -> (r: Option<MbiTag>)
        requires
            mbi_tag_readable(old(self).spec_bytes(), old(self).spec_current()),
        ensures
            final(self).spec_bytes() == old(self).spec_bytes(),
            ({
                let t = mbi_tag_at(old(self).spec_bytes(), old(self).spec_current());
                if t.typ == MbiTagType::End && t.size == 8 {
                    &&& r is None
                    &&& final(self).spec_current() == old(self).spec_current()
                } else {
                    &&& r == Some(t)
                    &&& final(self).spec_current() == old(self).spec_current() + align8(t.size as int)
                }
            }),
    {
        let _len = self.bytes.len();
        let typ = read_u32_le(self.bytes, self.current);
        let size = read_u32_le(self.bytes, self.current + 4);
        let tag = MbiTag { typ: MbiTagType::from_val(typ), size };
        if typ == 0 && size == 8 {
            return None;
        }
        let step = if size % 8 == 0 { size } else { size + 8 - size % 8 };
        self.current = self.current + step as usize;
        Some(tag)
    }
}

/// The tag types of the boot information carry the type ids of the
/// Multiboot2 specification, the same as the tags' own types: `0` end, `1`
/// command line, `2` boot loader name, `3` module, `4` basic memory
/// information, `5` BIOS boot device, `6` memory map, `7` VBE information,
/// `8` framebuffer information, `9` ELF sections, `10` APM table, `11` EFI
/// 32-bit system table, `12` EFI 64-bit system table, `13` SMBIOS tables,
/// `14` ACPI 1.0 RSDP, `15` ACPI 2.0 RSDP, `16` networking information, `17`
/// EFI memory map, `18` EFI boot services not terminated, `19` EFI 32-bit
/// image handle, `20` EFI 64-bit image handle, `21` image load base address.
pub proof fn lemma_mbi_tag_type_numbering(v: u32)
    ensures
        mbi_tag_type_val(MbiTagType::End) == 0,
        mbi_tag_type_val(MbiTagType::Cmdline) == 1,
        mbi_tag_type_val(MbiTagType::BootLoaderName) == 2,
        mbi_tag_type_val(MbiTagType::Module) == 3,
        mbi_tag_type_val(MbiTagType::BasicMeminfo) == 4,
        mbi_tag_type_val(MbiTagType::Bootdev) == 5,
        mbi_tag_type_val(MbiTagType::Mmap) == 6,
        mbi_tag_type_val(MbiTagType::Vbe) == 7,
        mbi_tag_type_val(MbiTagType::Framebuffer) == 8,
        mbi_tag_type_val(MbiTagType::ElfSections) == 9,
        mbi_tag_type_val(MbiTagType::Apm) == 10,
        mbi_tag_type_val(MbiTagType::Efi32) == 11,
        mbi_tag_type_val(MbiTagType::Efi64) == 12,
        mbi_tag_type_val(MbiTagType::Smbios) == 13,
        mbi_tag_type_val(MbiTagType::AcpiV1) == 14,
        mbi_tag_type_val(MbiTagType::AcpiV2) == 15,
        mbi_tag_type_val(MbiTagType::Network) == 16,
        mbi_tag_type_val(MbiTagType::EfiMmap) == 17,
        mbi_tag_type_val(MbiTagType::EfiBs) == 18,
        mbi_tag_type_val(MbiTagType::Efi32Ih) == 19,
        mbi_tag_type_val(MbiTagType::Efi64Ih) == 20,
        mbi_tag_type_val(MbiTagType::LoadBaseAddr) == 21,
        v == 0 ==> mbi_tag_type_from(v) == MbiTagType::End,
        v == 1 ==> mbi_tag_type_from(v) == MbiTagType::Cmdline,
        v == 2 ==> mbi_tag_type_from(v) == MbiTagType::BootLoaderName,
        v == 3 ==> mbi_tag_type_from(v) == MbiTagType::Module,
        v == 4 ==> mbi_tag_type_from(v) == MbiTagType::BasicMeminfo,
        v == 5 ==> mbi_tag_type_from(v) == MbiTagType::Bootdev,
        v == 6 ==> mbi_tag_type_from(v) == MbiTagType::Mmap,
        v == 7 ==> mbi_tag_type_from(v) == MbiTagType::Vbe,
        v == 8 ==> mbi_tag_type_from(v) == MbiTagType::Framebuffer,
        v == 9 ==> mbi_tag_type_from(v) == MbiTagType::ElfSections,
        v == 10 ==> mbi_tag_type_from(v) == MbiTagType::Apm,
        v == 11 ==> mbi_tag_type_from(v) == MbiTagType::Efi32,
        v == 12 ==> mbi_tag_type_from(v) == MbiTagType::Efi64,
        v == 13 ==> mbi_tag_type_from(v) == MbiTagType::Smbios,
        v == 14 ==> mbi_tag_type_from(v) == MbiTagType::AcpiV1,
        v == 15 ==> mbi_tag_type_from(v) == MbiTagType::AcpiV2,
        v == 16 ==> mbi_tag_type_from(v) == MbiTagType::Network,
        v == 17 ==> mbi_tag_type_from(v) == MbiTagType::EfiMmap,
        v == 18 ==> mbi_tag_type_from(v) == MbiTagType::EfiBs,
        v == 19 ==> mbi_tag_type_from(v) == MbiTagType::Efi32Ih,
        v == 20 ==> mbi_tag_type_from(v) == MbiTagType::Efi64Ih,
        v == 21 ==> mbi_tag_type_from(v) == MbiTagType::LoadBaseAddr,
        v <= 21 ==> mbi_tag_type_val(mbi_tag_type_from(v)) == tag_type_val(tag_type_from(v)),
{
}

} // verus!
