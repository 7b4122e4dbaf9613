//! Module for [`BootInformation`].
use crate::builder::AsBytes;
use crate::bytes::{align8, lemma_u32_le_same, lemma_u32_range, push_u32_le, read_u32_le, spec_u32_le, u32_le_bytes};
use crate::boot_loader_name::BootLoaderNameTag;
use crate::command_line::CommandLineTag;
use crate::efi::{EFIBootServicesNotExitedTag, EFIImageHandle32Tag, EFIImageHandle64Tag, EFISdt32Tag, EFISdt64Tag};
use crate::elf_sections::{elf_active_sections, elf_class_known, elf_entry_size, ElfSection, ElfSectionsTag};
use crate::framebuffer::{fb_buffer_complete, fb_buffer_type, FramebufferTag, FramebufferTypeView, UnknownFramebufferType};
use crate::image_load_addr::ImageLoadPhysAddrTag;
use crate::memory_map::{BasicMemoryInfoTag, EFIMemoryMapTag, MemoryMapTag};
use crate::module::{module_iter, modules_in, ModuleIter};
use crate::rsdp::{RsdpV1Tag, RsdpV2Tag};
use crate::smbios::SmbiosTag;
use crate::vbe_info::VBEInfoTag;
use crate::tag::{first_of_type, tag_list, tag_size, tag_typ, tag_type_val, TagIter, TagTrait};
use vstd::prelude::*;

verus! {

/// Error type that describes errors while loading/parsing a multiboot2
/// information structure from a given address.
#[derive(Clone, Copy, Debug, PartialEq, Eq, Structural)]
pub enum MbiLoadError {
    /// The address is invalid. Make sure that the address is 8-byte aligned,
    /// according to the spec.
    IllegalAddress,
    /// The total size of the multiboot2 information structure must be not zero
    /// and a multiple of 8.
    IllegalTotalSize(u32),
    /// Missing end tag. Each multiboot2 boot information requires to have an
    /// end tag.
    NoEndTag,
}

/// The basic header of a [`BootInformation`].
#[derive(Clone, Copy, Debug, PartialEq, Eq, Structural)]
pub struct BootInformationHeader {
    total_size: u32,
    _reserved: u32,
}

impl BootInformationHeader {
    /// The total size that the header holds.
    pub closed spec fn spec_total_size(&self) -> u32 {
        self.total_size
    }

    /// The reserved field.
    pub closed spec fn spec_reserved(&self) -> u32 {
        self._reserved
    }

    /// Creates a header for a structure of the given total size.
    pub fn new(total_size: u32) -> (r: BootInformationHeader)
        ensures
            r.spec_total_size() == total_size,
            r.spec_reserved() == 0,
    {
        BootInformationHeader { total_size, _reserved: 0 }
    }

    /// Returns the total size of the structure.
    pub fn total_size(&self) -> (r: u32)
        ensures
            r == self.spec_total_size(),
    {
        self.total_size
    }
}

impl AsBytes for BootInformationHeader {
    /// Returns the eight bytes of the header: the total size and a reserved
    /// field.
    fn as_bytes(&self) -> (r: Vec<u8>)
        ensures
            r@ == u32_le_bytes(self.spec_total_size() as int) + u32_le_bytes(self.spec_reserved() as int),
    {
        let mut r: Vec<u8> = Vec::new();
        push_u32_le(&mut r, self.total_size);
        push_u32_le(&mut r, self._reserved);
        r
    }
}

/// The total size field of the boot information stored in `b`.
pub open spec fn mbi_total_size(b: Seq<u8>) -> int {
    spec_u32_le(b, 0)
}

/// The boot information stored in `b` ends with an end tag: type `0` and size
/// `8` in the last 8 bytes of its total size.
pub open spec fn has_valid_end_tag(b: Seq<u8>) -> bool {
    let ts = mbi_total_size(b);
    spec_u32_le(b, ts - 8) == 0 && spec_u32_le(b, ts - 4) == 8
}

/// The outcome of loading the boot information at address `addr` whose
/// memory holds `b`: the bytes of the structure, or the error.
pub open spec fn spec_load(addr: usize, b: Seq<u8>) -> Result<Seq<u8>, MbiLoadError> {
    let ts = mbi_total_size(b);
    if addr == 0 || addr % 8 != 0 {
        Err(MbiLoadError::IllegalAddress)
    } else if ts == 0 || ts % 8 != 0 {
        Err(MbiLoadError::IllegalTotalSize(ts as u32))
    } else if !has_valid_end_tag(b) {
        Err(MbiLoadError::NoEndTag)
    } else {
        Ok(b.subrange(0, ts))
    }
}

/// The bytes after the header of the boot information `b`: where its tags lie.
pub open spec fn mbi_tags_area(b: Seq<u8>) -> Seq<u8> {
    b.subrange(8, b.len() as int)
}

/// The tags of the boot information `b`.
pub open spec fn mbi_tags(b: Seq<u8>) -> Seq<Seq<u8>> {
    tag_list(mbi_tags_area(b))
}

/// The view of the first tag of `T`'s type in `tags`, if it is there and
/// holds such a tag.
pub open spec fn find_tag<T: TagTrait>(tags: Seq<Seq<u8>>) -> Option<T::V> {
    match first_of_type(tags, tag_type_val(T::spec_type()) as int) {
        None => None,
        Some(b) => T::spec_from_bytes(b),
    }
}

/// A Multiboot 2 Boot Information (MBI) accessor.
#[derive(Clone, Copy, Debug)]
pub struct BootInformation<'a> {
    addr: usize,
    bytes: &'a [u8],
}

impl<'a> BootInformation<'a> {
    /// The bytes of the structure.
    pub closed spec fn spec_bytes(&self) -> Seq<u8> {
        self.bytes@
    }

    /// The start address of the structure.
    pub closed spec fn spec_start(&self) -> usize {
        self.addr
    }

    /// The tags of the structure, in order.
    pub open spec fn spec_tags(&self) -> Seq<Seq<u8>> {
        mbi_tags(self.spec_bytes())
    }

    /// The structure is a valid boot information at a valid address.
    pub open spec fn wf(&self) -> bool {
        let b = self.spec_bytes();
        &&& 16 <= b.len() <= u32::MAX
        &&& b.len() % 8 == 0
        &&& mbi_total_size(b) == b.len()
        &&& has_valid_end_tag(b)
        &&& self.spec_start() != 0
        &&& self.spec_start() % 8 == 0
        &&& self.spec_start() + b.len() <= usize::MAX
    }

    /// Loads the [`BootInformation`] that starts at the address `addr`, whose
    /// memory holds `bytes`. The address must be non-null and aligned to an
    /// 8-byte boundary, as defined by the spec.
    pub fn load(addr: usize, bytes: &'a [u8]) -> (r: Result<BootInformation<'a>, MbiLoadError>)
        requires
            8 <= bytes@.len(),
            addr + bytes@.len() <= usize::MAX,
            mbi_total_size(bytes@) > 0 && mbi_total_size(bytes@) % 8 == 0 ==> mbi_total_size(
                bytes@,
            ) <= bytes@.len(),
        ensures
            r matches Ok(bi) ==> bi.wf() && spec_load(addr, bytes@) == Ok::<
                Seq<u8>,
                MbiLoadError,
            >(bi.spec_bytes()) && bi.spec_start() == addr,
            r matches Err(e) ==> spec_load(addr, bytes@) == Err::<Seq<u8>, MbiLoadError>(e),
    {
        if addr == 0 || addr % 8 != 0 {
            return Err(MbiLoadError::IllegalAddress);
        }
        let ts = read_u32_le(bytes, 0);
        if ts == 0 || ts % 8 != 0 {
            return Err(MbiLoadError::IllegalTotalSize(ts));
        }
        let ts = ts as usize;
        let end_typ = read_u32_le(bytes, ts - 8);
        let end_size = read_u32_le(bytes, ts - 4);
        if !(end_typ == 0 && end_size == 8) {
            return Err(MbiLoadError::NoEndTag);
        }
        let mbi = &bytes[0..ts];
        proof {
            assert(mbi@.subrange(0, 4) =~= bytes@.subrange(0, 4));
            assert(mbi@.subrange(ts - 8, ts - 4) =~= bytes@.subrange(ts - 8, ts - 4));
            assert(mbi@.subrange(ts - 4, ts as int) =~= bytes@.subrange(ts - 4, ts as int));
            lemma_u32_le_same(mbi@, 0, bytes@, 0);
            lemma_u32_le_same(mbi@, ts - 8, bytes@, ts - 8);
            lemma_u32_le_same(mbi@, ts - 4, bytes@, ts - 4);
            lemma_u32_range(bytes@, 0);
            // A total size of 8 would make the header its own end tag, but
            // the header's first field is then 8, not 0.
            assert(ts >= 16);
        }
        Ok(BootInformation { addr, bytes: mbi })
    }

    /// Get the start address of the boot info.
    pub fn start_address(&self) -> (r: usize)
        ensures
            r == self.spec_start(),
    {
        self.addr
    }

    /// Get the end address of the boot info: the start address plus the
    /// total size.
    pub fn end_address(&self) -> (r: usize)
        requires
            self.wf(),
        ensures
            r == self.spec_start() + self.spec_bytes().len(),
    {
        self.addr + self.bytes.len()
    }

    /// Get the total size of the boot info struct.
    pub fn total_size(&self) -> (r: usize)
        requires
            self.wf(),
        ensures
            r == mbi_total_size(self.spec_bytes()),
            r == self.spec_bytes().len(),
    {
        self.bytes.len()
    }

    /// Returns the bytes of the structure.
    pub fn as_bytes(&self) -> (r: &'a [u8])
        ensures
            r@ == self.spec_bytes(),
    {
        self.bytes
    }

    /// Returns an iterator over all tags.
    pub fn tags(&self) -> (r: TagIter<'a>)
        requires
            self.wf(),
        ensures
            r.remaining() == self.spec_tags(),
    {
        TagIter::new_at(self.bytes, 8)
    }

    /// Public getter to find any Multiboot tag by its type, including
    /// specified and custom ones: the first tag of `T`'s type, read as `T`.
    pub fn get_tag<T: TagTrait>(&self) -> (r: Option<T>)
        requires
            self.wf(),
        ensures
            r is None <==> find_tag::<T>(self.spec_tags()) is None,
            r matches Some(t) ==> find_tag::<T>(self.spec_tags()) == Some(t@),
    {
        let id = T::id().val();
        let mut it = self.tags();
        loop
            invariant
                self.wf(),
                id == tag_type_val(T::spec_type()),
                first_of_type(self.spec_tags(), id as int) == first_of_type(it.remaining(), id as int),
            decreases it.remaining().len(),
        {
            let ghost before = it.remaining();
            match it.next() {
                None => {
                    return None;
                },
                Some(t) => {
                    let h = t.header();
                    if h.typ == id {
                        return T::from_generic(&t);
                    }
                    assert(before.drop_first() == it.remaining());
                },
            }
        }
    }

    /// Search for the basic memory info tag.
    pub fn basic_memory_info_tag(&self) -> (r: Option<BasicMemoryInfoTag>)
        requires
            self.wf(),
        ensures
            r is None <==> find_tag::<BasicMemoryInfoTag>(self.spec_tags()) is None,
            r matches Some(t) ==> find_tag::<BasicMemoryInfoTag>(self.spec_tags()) == Some(t@),
    {
        self.get_tag::<BasicMemoryInfoTag>()
    }

    /// Search for the BootLoader name tag.
    pub fn boot_loader_name_tag(&self) -> (r: Option<BootLoaderNameTag>)
        requires
            self.wf(),
        ensures
            r is None <==> find_tag::<BootLoaderNameTag>(self.spec_tags()) is None,
            r matches Some(t) ==> find_tag::<BootLoaderNameTag>(self.spec_tags()) == Some(t@),
    {
        self.get_tag::<BootLoaderNameTag>()
    }

    /// Search for the EFI boot services not exited tag.
    pub fn efi_bs_not_exited_tag(&self) -> (r: Option<EFIBootServicesNotExitedTag>)
        requires
            self.wf(),
        ensures
            r is None <==> find_tag::<EFIBootServicesNotExitedTag>(self.spec_tags()) is None,
            r matches Some(t) ==> find_tag::<EFIBootServicesNotExitedTag>(self.spec_tags()) == Some(t@),
    {
        self.get_tag::<EFIBootServicesNotExitedTag>()
    }

    /// Search for the EFI 32-bit SDT tag.
    pub fn efi_sdt32_tag(&self) -> (r: Option<EFISdt32Tag>)
        requires
            self.wf(),
        ensures
            r is None <==> find_tag::<EFISdt32Tag>(self.spec_tags()) is None,
            r matches Some(t) ==> find_tag::<EFISdt32Tag>(self.spec_tags()) == Some(t@),
    {
        self.get_tag::<EFISdt32Tag>()
    }

    /// Search for the EFI 64-bit SDT tag.
    pub fn efi_sdt64_tag(&self) -> (r: Option<EFISdt64Tag>)
        requires
            self.wf(),
        ensures
            r is None <==> find_tag::<EFISdt64Tag>(self.spec_tags()) is None,
            r matches Some(t) ==> find_tag::<EFISdt64Tag>(self.spec_tags()) == Some(t@),
    {
        self.get_tag::<EFISdt64Tag>()
    }

    /// Search for the EFI 32-bit image handle pointer tag.
    pub fn efi_ih32_tag(&self) -> (r: Option<EFIImageHandle32Tag>)
        requires
            self.wf(),
        ensures
            r is None <==> find_tag::<EFIImageHandle32Tag>(self.spec_tags()) is None,
            r matches Some(t) ==> find_tag::<EFIImageHandle32Tag>(self.spec_tags()) == Some(t@),
    {
        self.get_tag::<EFIImageHandle32Tag>()
    }

    /// Search for the EFI 64-bit image handle pointer tag.
    pub fn efi_ih64_tag(&self) -> (r: Option<EFIImageHandle64Tag>)
        requires
            self.wf(),
        ensures
            r is None <==> find_tag::<EFIImageHandle64Tag>(self.spec_tags()) is None,
            r matches Some(t) ==> find_tag::<EFIImageHandle64Tag>(self.spec_tags()) == Some(t@),
    {
        self.get_tag::<EFIImageHandle64Tag>()
    }

    /// Search for the Image Load Base Physical Address tag.
    pub fn load_base_addr_tag(&self) -> (r: Option<ImageLoadPhysAddrTag>)
        requires
            self.wf(),
        ensures
            r is None <==> find_tag::<ImageLoadPhysAddrTag>(self.spec_tags()) is None,
            r matches Some(t) ==> find_tag::<ImageLoadPhysAddrTag>(self.spec_tags()) == Some(t@),
    {
        self.get_tag::<ImageLoadPhysAddrTag>()
    }

    /// Search for the Memory map tag.
    pub fn memory_map_tag(&self) -> (r: Option<MemoryMapTag>)
        requires
            self.wf(),
        ensures
            r is None <==> find_tag::<MemoryMapTag>(self.spec_tags()) is None,
            r matches Some(t) ==> find_tag::<MemoryMapTag>(self.spec_tags()) == Some(t@),
    {
        self.get_tag::<MemoryMapTag>()
    }

    /// Search for the (ACPI 1.0) RSDP tag.
    pub fn rsdp_v1_tag(&self) -> (r: Option<RsdpV1Tag>)
        requires
            self.wf(),
        ensures
            r is None <==> find_tag::<RsdpV1Tag>(self.spec_tags()) is None,
            r matches Some(t) ==> find_tag::<RsdpV1Tag>(self.spec_tags()) == Some(t@),
    {
        self.get_tag::<RsdpV1Tag>()
    }

    /// Search for the (ACPI 2.0 or later) RSDP tag.
    pub fn rsdp_v2_tag(&self) -> (r: Option<RsdpV2Tag>)
        requires
            self.wf(),
        ensures
            r is None <==> find_tag::<RsdpV2Tag>(self.spec_tags()) is None,
            r matches Some(t) ==> find_tag::<RsdpV2Tag>(self.spec_tags()) == Some(t@),
    {
        self.get_tag::<RsdpV2Tag>()
    }

    /// Search for the SMBIOS tag.
    pub fn smbios_tag(&self) -> (r: Option<SmbiosTag>)
        requires
            self.wf(),
        ensures
            r is None <==> find_tag::<SmbiosTag>(self.spec_tags()) is None,
            r matches Some(t) ==> find_tag::<SmbiosTag>(self.spec_tags()) == Some(t@),
    {
        self.get_tag::<SmbiosTag>()
    }

    /// Search for the EFI Memory map tag, if the boot services were exited.
    /// Otherwise, if the [`TagType::EfiBs`] tag is present, this returns
    /// `None` as it is strictly recommended to get the memory map from the
    /// `uefi` services.
    ///
    /// [`TagType::EfiBs`]: crate::tag::TagType::EfiBs
    pub fn efi_memory_map_tag(&self) -> (r: Option<EFIMemoryMapTag>)
        requires
            self.wf(),
        ensures
            find_tag::<EFIBootServicesNotExitedTag>(self.spec_tags()) is Some ==> r is None,
            find_tag::<EFIBootServicesNotExitedTag>(self.spec_tags()) is None ==> (r is None
                <==> find_tag::<EFIMemoryMapTag>(self.spec_tags()) is None),
            r matches Some(t) ==> find_tag::<EFIMemoryMapTag>(self.spec_tags()) == Some(t@),
    {
        match self.get_tag::<EFIBootServicesNotExitedTag>() {
            Some(_) => None,
            None => self.get_tag::<EFIMemoryMapTag>(),
        }
    }

    /// Search for the VBE framebuffer tag. The result is `Some(Err(e))`, if the
    /// framebuffer type is unknown, while the framebuffer tag is present.
    pub fn framebuffer_tag(&self) -> (r: Option<Result<FramebufferTag, UnknownFramebufferType>>)
        requires
            self.wf(),
            find_tag::<FramebufferTag>(self.spec_tags()) matches Some(b) ==> fb_buffer_complete(b),
        ensures
            r is None <==> find_tag::<FramebufferTag>(self.spec_tags()) is None,
            r matches Some(Ok(t)) ==> find_tag::<FramebufferTag>(self.spec_tags()) == Some(t@)
                && fb_buffer_type(t@) is Ok,
            r matches Some(Err(e)) ==> (find_tag::<FramebufferTag>(self.spec_tags()) matches Some(b)
                && fb_buffer_type(b) == Err::<FramebufferTypeView, UnknownFramebufferType>(e)),
    {
        match self.get_tag::<FramebufferTag>() {
            None => None,
            Some(tag) => match tag.buffer_type() {
                Ok(_) => Some(Ok(tag)),
                Err(e) => Some(Err(e)),
            },
        }
    }

    /// Returns the active section headers of the ELF sections tag, if it is
    /// present: those of type [`crate::elf_sections::ElfSectionType::Unused`]
    /// are left out.
    pub fn elf_sections(&self) -> (r: Option<Vec<ElfSection>>)
        requires
            self.wf(),
            find_tag::<ElfSectionsTag>(self.spec_tags()) matches Some(b) ==> elf_class_known(b)
                && elf_entry_size(b) * spec_u32_le(b, 16) <= b.len(),
        ensures
            r is None <==> find_tag::<ElfSectionsTag>(self.spec_tags()) is None,
            r matches Some(v) ==> (find_tag::<ElfSectionsTag>(self.spec_tags()) matches Some(b)
                && v@ == elf_active_sections(b)),
    {
        match self.get_tag::<ElfSectionsTag>() {
            None => None,
            Some(tag) => {
                let mut it = tag.sections();
                let mut v: Vec<ElfSection> = Vec::new();
                loop
                    invariant
                        it.inv(),
                        v@ + it.remaining() == elf_active_sections(tag@),
                        find_tag::<ElfSectionsTag>(self.spec_tags()) == Some(tag@),
                    decreases it.remaining().len(),
                {
                    let ghost before = it.remaining();
                    match it.next() {
                        None => {
                            assert(v@ =~= elf_active_sections(tag@));
                            return Some(v);
                        },
                        Some(s) => {
                            v.push(s);
                            assert(v@ + it.remaining() =~= elf_active_sections(tag@));
                        },
                    }
                }
            },
        }
    }

    /// Get an iterator of all module tags.
    pub fn module_tags(&self) -> (r: ModuleIter<'a>)
        requires
            self.wf(),
        ensures
            r.remaining() == modules_in(self.spec_tags()),
    {
        module_iter(self.tags())
    }

    /// Search for the VBE information tag.
    pub fn vbe_info_tag(&self) -> (r: Option<VBEInfoTag>)
        requires
            self.wf(),
        ensures
            r is None <==> find_tag::<VBEInfoTag>(self.spec_tags()) is None,
            r matches Some(t) ==> find_tag::<VBEInfoTag>(self.spec_tags()) == Some(t@),
    {
        self.get_tag::<VBEInfoTag>()
    }

    /// Search for the Command line tag.
    pub fn command_line_tag(&self) -> (r: Option<CommandLineTag>)
        requires
            self.wf(),
        ensures
            r is None <==> find_tag::<CommandLineTag>(self.spec_tags()) is None,
            r matches Some(t) ==> find_tag::<CommandLineTag>(self.spec_tags()) == Some(t@),
    {
        self.get_tag::<CommandLineTag>()
    }
}

/// The offset in the tag area `b` of the first tag of type `id` that the walk
/// over the tags finds, if any.
pub open spec fn first_offset_of_type(b: Seq<u8>, id: int) -> Option<int>
    decreases b.len(),
{
    if b.len() < 8 {
        None
    } else {
        let size = tag_size(b);
        if (tag_typ(b) == 0 && size == 8) || size < 8 || size > b.len() {
            None
        } else if tag_typ(b) == id {
            Some(0)
        } else if align8(size) < b.len() {
            match first_offset_of_type(b.subrange(align8(size), b.len() as int), id) {
                Some(o) => Some(align8(size) + o),
                None => None,
            }
        } else {
            None
        }
    }
}

/// The offset that [`first_offset_of_type`] gives is where the first tag of
/// the type lies: the tag the walk finds is the bytes there, as many as its
/// size field says.
pub proof fn lemma_first_offset_of_type(b: Seq<u8>, id: int)
    ensures
        match first_offset_of_type(b, id) {
            None => first_of_type(tag_list(b), id) is None,
            Some(o) => {
                &&& 0 <= o
                &&& o + 8 <= b.len()
                &&& 8 <= spec_u32_le(b, o + 4) <= b.len() - o
                &&& spec_u32_le(b, o) == id
                &&& first_of_type(tag_list(b), id) == Some(b.subrange(o, o + spec_u32_le(b, o + 4)))
            },
        },
    decreases b.len(),
{
    if b.len() >= 8 {
        let size = tag_size(b);
        if !((tag_typ(b) == 0 && size == 8) || size < 8 || size > b.len()) {
            let t0 = b.subrange(0, size);
            assert(t0.subrange(0, 4) =~= b.subrange(0, 4));
            lemma_u32_le_same(t0, 0, b, 0);
            let a = align8(size);
            if a < b.len() {
                let rest = b.subrange(a, b.len() as int);
                assert(tag_list(b) == seq![t0] + tag_list(rest));
                assert((seq![t0] + tag_list(rest))[0] == t0);
            } else {
                assert(tag_list(b) == seq![t0]);
            }
            assert(tag_list(b)[0] == t0);
            assert(tag_list(b).len() > 0);
            if tag_typ(b) == id {
                assert(b.subrange(0, spec_u32_le(b, 4)) == t0);
                assert(first_offset_of_type(b, id) == Some(0int));
                assert(first_of_type(tag_list(b), id) == Some(t0));
            } else if a < b.len() {
                let rest = b.subrange(a, b.len() as int);
                lemma_first_offset_of_type(rest, id);
                assert(tag_list(b) == seq![t0] + tag_list(rest));
                assert((seq![t0] + tag_list(rest))[0] == t0);
                assert((seq![t0] + tag_list(rest)).drop_first() =~= tag_list(rest));
                assert(first_of_type(tag_list(b), id) == first_of_type(tag_list(rest), id));
                match first_offset_of_type(rest, id) {
                    None => {
                        assert(first_offset_of_type(b, id) is None);
                    },
                    Some(o) => {
                        assert(rest.subrange(o, o + 4) =~= b.subrange(a + o, a + o + 4));
                        assert(rest.subrange(o + 4, o + 8) =~= b.subrange(a + o + 4, a + o + 8));
                        lemma_u32_le_same(rest, o, b, a + o);
                        lemma_u32_le_same(rest, o + 4, b, a + o + 4);
                        let sz = spec_u32_le(b, a + o + 4);
                        assert(rest.subrange(o, o + sz) =~= b.subrange(a + o, a + o + sz));
                        assert(first_offset_of_type(b, id) == Some(a + o));
                    },
                }
            } else {
                assert(tag_list(b) == seq![t0]);
                assert(seq![t0].drop_first() =~= Seq::<Seq<u8>>::empty());
                assert(first_of_type(Seq::<Seq<u8>>::empty(), id) is None);
                assert(first_of_type(tag_list(b), id) is None);
            }
        } else {
            assert(tag_list(b) =~= Seq::<Seq<u8>>::empty());
        }
    } else {
        assert(tag_list(b) =~= Seq::<Seq<u8>>::empty());
    }
}

/// The offset from the start of the boot information `b` at which the first
/// tag of type `id` lies, if the walk over its tags finds one.
pub open spec fn mbi_tag_offset(b: Seq<u8>, id: int) -> Option<int> {
    match first_offset_of_type(mbi_tags_area(b), id) {
        Some(o) => Some(8 + o),
        None => None,
    }
}

/// The first tag of type `id` of the boot information `b` lies at the offset
/// that [`mbi_tag_offset`] gives, as many bytes as its size field says.
proof fn lemma_mbi_tag_at_offset(b: Seq<u8>, id: int)
    requires
        8 <= b.len(),
        mbi_tag_offset(b, id) is Some,
    ensures
        ({
            let off = mbi_tag_offset(b, id)->Some_0;
            let size = spec_u32_le(b, off + 4);
            &&& 8 <= off
            &&& off + 8 <= b.len()
            &&& 8 <= size <= b.len() - off
            &&& first_of_type(mbi_tags(b), id) == Some(b.subrange(off, off + size))
        }),
{
    let area = mbi_tags_area(b);
    lemma_first_offset_of_type(area, id);
    let o = first_offset_of_type(area, id)->Some_0;
    let off = 8 + o;
    assert(area.subrange(o + 4, o + 8) =~= b.subrange(off + 4, off + 8));
    lemma_u32_le_same(area, o + 4, b, off + 4);
    let size = spec_u32_le(b, off + 4);
    assert(area.subrange(o, o + size) =~= b.subrange(off, off + size));
}

/// Returns the offset from the start of `b` and the size of the first tag of
/// type `id` among the tags of the boot information `b`.
fn find_tag_offset(b: &[u8], id: u32) -> (r: Option<(usize, usize)>)
    requires
        8 <= b@.len(),
    ensures
        match mbi_tag_offset(b@, id as int) {
            None => r is None,
            Some(o) => r == Some((o as usize, spec_u32_le(b@, o + 4) as usize)),
        },
{
    let len = b.len();
    let mut off: usize = 8;
    proof {
        lemma_first_offset_of_type(mbi_tags_area(b@), id as int);
    }
    loop
        invariant
            8 <= off <= len,
            len == b@.len(),
            mbi_tag_offset(b@, id as int) == (match first_offset_of_type(
                b@.subrange(off as int, len as int),
                id as int,
            ) {
                Some(o) => Some(off + o),
                None => None,
            }),
        decreases len - off,
    {
        let ghost rest = b@.subrange(off as int, len as int);
        if len - off < 8 {
            return None;
        }
        let typ = read_u32_le(b, off);
        let size = read_u32_le(b, off + 4);
        proof {
            assert(rest.subrange(0, 4) =~= b@.subrange(off as int, off + 4));
            assert(rest.subrange(4, 8) =~= b@.subrange(off + 4, off + 8));
            lemma_u32_le_same(rest, 0, b@, off as int);
            lemma_u32_le_same(rest, 4, b@, off + 4);
        }
        if (typ == 0 && size == 8) || size < 8 || size as usize > len - off {
            return None;
        }
        if typ == id {
            return Some((off, size as usize));
        }
        let pad: usize = if size % 8 == 0 {
            0
        } else {
            (8 - size % 8) as usize
        };
        let rem = len - off;
        if rem - (size as usize) <= pad {
            return None;
        }
        proof {
            assert(align8(size as int) == size + pad);
            assert(rest.subrange(size + pad, rest.len() as int) =~= b@.subrange(off + size + pad, len as int));
        }
        off = off + size as usize + pad;
    }
}

/// A Multiboot2 boot information whose memory may be written: the `_mut`
/// getters hand out the bytes of a tag, to be changed in place.
pub struct BootInformationMut<'a> {
    addr: usize,
    bytes: &'a mut [u8],
}

impl<'a> BootInformationMut<'a> {
    /// The bytes of the structure.
    pub closed spec fn spec_bytes(&self) -> Seq<u8> {
        self.bytes@
    }

    /// The start address of the structure.
    pub closed spec fn spec_start(&self) -> usize {
        self.addr
    }

    /// The tags of the structure, in order.
    pub open spec fn spec_tags(&self) -> Seq<Seq<u8>> {
        mbi_tags(self.spec_bytes())
    }

    /// The structure is a valid boot information at a valid address.
    pub open spec fn wf(&self) -> bool {
        let b = self.spec_bytes();
        &&& 16 <= b.len() <= u32::MAX
        &&& b.len() % 8 == 0
        &&& mbi_total_size(b) == b.len()
        &&& has_valid_end_tag(b)
        &&& self.spec_start() != 0
        &&& self.spec_start() % 8 == 0
        &&& self.spec_start() + b.len() <= usize::MAX
    }

    /// [`BootInformation::load`], but mutably: the structure keeps the
    /// memory, which its `_mut` getters may change.
    pub fn load_mut(addr: usize, bytes: &'a mut [u8]) -> (r: Result<BootInformationMut<'a>, MbiLoadError>)
        requires
            8 <= old(bytes)@.len(),
            addr + old(bytes)@.len() <= usize::MAX,
            mbi_total_size(old(bytes)@) > 0 && mbi_total_size(old(bytes)@) % 8 == 0 ==> mbi_total_size(
                old(bytes)@,
            ) <= old(bytes)@.len(),
        ensures
            r matches Ok(bi) ==> bi.wf() && spec_load(addr, old(bytes)@) == Ok::<
                Seq<u8>,
                MbiLoadError,
            >(bi.spec_bytes()) && bi.spec_start() == addr,
            r matches Err(e) ==> spec_load(addr, old(bytes)@) == Err::<Seq<u8>, MbiLoadError>(e),
    {
        let total = match BootInformation::load(addr, &*bytes) {
            Err(e) => {
                return Err(e);
            },
            Ok(bi) => bi.total_size(),
        };
        let (mbi, _) = bytes.split_at_mut(total);
        Ok(BootInformationMut { addr, bytes: mbi })
    }

    /// The structure, to be read.
    pub fn as_ref(&self) -> (r: BootInformation<'_>)
        ensures
            r.spec_bytes() == self.spec_bytes(),
            r.spec_start() == self.spec_start(),
    {
        BootInformation { addr: self.addr, bytes: &*self.bytes }
    }

    /// Returns the bytes of the first tag of type `id`, to be changed in
    /// place.
    fn tag_mut(&mut self, id: u32) -> (r: Option<&mut [u8]>)
        requires
            old(self).wf(),
        ensures
            final(self).spec_start() == old(self).spec_start(),
            match mbi_tag_offset(old(self).spec_bytes(), id as int) {
                None => r is None && final(self).spec_bytes() == old(self).spec_bytes(),
                Some(o) => r matches Some(m) && Some(m@) == first_of_type(old(self).spec_tags(), id as int)
                    && final(self).spec_bytes() == old(self).spec_bytes().subrange(0, o) + final(m)@
                    + old(self).spec_bytes().subrange(o + m@.len(), old(self).spec_bytes().len() as int),
            },
    {
        let found = find_tag_offset(&*self.bytes, id);
        match found {
            None => {
                proof {
                    lemma_first_offset_of_type(mbi_tags_area(self.bytes@), id as int);
                }
                None
            },
            Some((off, size)) => {
                proof {
                    lemma_mbi_tag_at_offset(self.bytes@, id as int);
                }
                let (_, rest) = self.bytes.split_at_mut(off);
                let (tag, _) = rest.split_at_mut(size);
                Some(tag)
            },
        }
    }

    /// Search for the Memory map tag, and return its bytes, to be changed in
    /// place.
    pub fn memory_map_tag_mut(&mut self) -> (r: Option<&mut [u8]>)
        requires
            old(self).wf(),
        ensures
            final(self).spec_start() == old(self).spec_start(),
            match mbi_tag_offset(old(self).spec_bytes(), 6) {
                None => r is None && final(self).spec_bytes() == old(self).spec_bytes(),
                Some(o) => r matches Some(m) && Some(m@) == first_of_type(old(self).spec_tags(), 6)
                    && final(self).spec_bytes() == old(self).spec_bytes().subrange(0, o) + final(m)@
                    + old(self).spec_bytes().subrange(o + m@.len(), old(self).spec_bytes().len() as int),
            },
    {
        self.tag_mut(6)
    }

    /// Search for the basic memory info tag, and return its bytes, to be
    /// changed in place.
    pub fn basic_memory_info_tag_mut(&mut self) -> (r: Option<&mut [u8]>)
        requires
            old(self).wf(),
        ensures
            final(self).spec_start() == old(self).spec_start(),
            match mbi_tag_offset(old(self).spec_bytes(), 4) {
                None => r is None && final(self).spec_bytes() == old(self).spec_bytes(),
                Some(o) => r matches Some(m) && Some(m@) == first_of_type(old(self).spec_tags(), 4)
                    && final(self).spec_bytes() == old(self).spec_bytes().subrange(0, o) + final(m)@
                    + old(self).spec_bytes().subrange(o + m@.len(), old(self).spec_bytes().len() as int),
            },
    {
        self.tag_mut(4)
    }

    /// Search for the EFI Memory map tag, and return its bytes, to be changed
    /// in place.
    pub fn efi_memory_map_tag_mut(&mut self) -> (r: Option<&mut [u8]>)
        requires
            old(self).wf(),
        ensures
            final(self).spec_start() == old(self).spec_start(),
            match mbi_tag_offset(old(self).spec_bytes(), 17) {
                None => r is None && final(self).spec_bytes() == old(self).spec_bytes(),
                Some(o) => r matches Some(m) && Some(m@) == first_of_type(old(self).spec_tags(), 17)
                    && final(self).spec_bytes() == old(self).spec_bytes().subrange(0, o) + final(m)@
                    + old(self).spec_bytes().subrange(o + m@.len(), old(self).spec_bytes().len() as int),
            },
    {
        self.tag_mut(17)
    }
}

/// The header of a boot information under its earlier name.
pub type BootInformationInner = BootInformationHeader;

} // verus!
