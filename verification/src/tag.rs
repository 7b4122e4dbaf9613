//! The common tag header of the boot information, the tag types, and the walk
//! over the tags of a boot information.
use crate::bytes::{
    align8, align8_u64, copy_range, lemma_u32_le, lemma_u32_le_same, lemma_u32_range, push_bytes,
    push_u32_le, read_u32_le, spec_u32_le, u32_le_bytes,
};
use vstd::prelude::*;

verus! {

/// The type of a boot information tag. Custom tag types `> 21` are mapped to
/// [`TagType::Custom`]; the spec doesn't explicitly allow or disallow them.
#[derive(Clone, Copy, Debug, PartialEq, Eq, Structural)]
pub enum TagType {
    /// Tag `0`: Marks the end of the tags.
    End,
    /// Tag `1`: Additional command line string.
    Cmdline,
    /// Tag `2`: Name of the bootloader.
    BootLoaderName,
    /// Tag `3`: Additional Multiboot modules.
    Module,
    /// Tag `4`: Lower and upper memory in kilobytes.
    BasicMeminfo,
    /// Tag `5`: BIOS disk device the image was loaded from.
    Bootdev,
    /// Tag `6`: Memory map.
    Mmap,
    /// Tag `7`: VBE control and mode information.
    Vbe,
    /// Tag `8`: Framebuffer.
    Framebuffer,
    /// Tag `9`: ELF section header table.
    ElfSections,
    /// Tag `10`: APM table.
    Apm,
    /// Tag `11`: Pointer to the i386 EFI system table.
    Efi32,
    /// Tag `12`: Pointer to the amd64 EFI system table.
    Efi64,
    /// Tag `13`: Copy of the SMBIOS tables.
    Smbios,
    /// Tag `14`: ACPI 1.0 RSDP.
    AcpiV1,
    /// Tag `15`: ACPI 2.0 or later RSDP.
    AcpiV2,
    /// Tag `16`: Network information (DHCP packet).
    Network,
    /// Tag `17`: EFI memory map.
    EfiMmap,
    /// Tag `18`: ExitBootServices wasn't called.
    EfiBs,
    /// Tag `19`: EFI i386 image handle.
    Efi32Ih,
    /// Tag `20`: EFI amd64 image handle.
    Efi64Ih,
    /// Tag `21`: Image load base physical address.
    LoadBaseAddr,
    /// A tag type that the specification does not name.
    Custom(u32),
}

/// The numeric id of a tag type.
pub open spec fn tag_type_val(t: TagType) -> u32 {
    match t {
        TagType::End => 0,
        TagType::Cmdline => 1,
        TagType::BootLoaderName => 2,
        TagType::Module => 3,
        TagType::BasicMeminfo => 4,
        TagType::Bootdev => 5,
        TagType::Mmap => 6,
        TagType::Vbe => 7,
        TagType::Framebuffer => 8,
        TagType::ElfSections => 9,
        TagType::Apm => 10,
        TagType::Efi32 => 11,
        TagType::Efi64 => 12,
        TagType::Smbios => 13,
        TagType::AcpiV1 => 14,
        TagType::AcpiV2 => 15,
        TagType::Network => 16,
        TagType::EfiMmap => 17,
        TagType::EfiBs => 18,
        TagType::Efi32Ih => 19,
        TagType::Efi64Ih => 20,
        TagType::LoadBaseAddr => 21,
        TagType::Custom(v) => v,
    }
}

/// The tag type that a numeric id stands for.
pub open spec fn tag_type_from(v: u32) -> TagType {
    if v == 0 {
        TagType::End
    } else if v == 1 {
        TagType::Cmdline
    } else if v == 2 {
        TagType::BootLoaderName
    } else if v == 3 {
        TagType::Module
    } else if v == 4 {
        TagType::BasicMeminfo
    } else if v == 5 {
        TagType::Bootdev
    } else if v == 6 {
        TagType::Mmap
    } else if v == 7 {
        TagType::Vbe
    } else if v == 8 {
        TagType::Framebuffer
    } else if v == 9 {
        TagType::ElfSections
    } else if v == 10 {
        TagType::Apm
    } else if v == 11 {
        TagType::Efi32
    } else if v == 12 {
        TagType::Efi64
    } else if v == 13 {
        TagType::Smbios
    } else if v == 14 {
        TagType::AcpiV1
    } else if v == 15 {
        TagType::AcpiV2
    } else if v == 16 {
        TagType::Network
    } else if v == 17 {
        TagType::EfiMmap
    } else if v == 18 {
        TagType::EfiBs
    } else if v == 19 {
        TagType::Efi32Ih
    } else if v == 20 {
        TagType::Efi64Ih
    } else if v == 21 {
        TagType::LoadBaseAddr
    } else {
        TagType::Custom(v)
    }
}

impl TagType {
    /// Returns the numeric id of the tag type.
    pub fn val(&self) -> (r: u32)
        ensures
            r == tag_type_val(*self),
    {
        match self {
            TagType::End => 0,
            TagType::Cmdline => 1,
            TagType::BootLoaderName => 2,
            TagType::Module => 3,
            TagType::BasicMeminfo => 4,
            TagType::Bootdev => 5,
            TagType::Mmap => 6,
            TagType::Vbe => 7,
            TagType::Framebuffer => 8,
            TagType::ElfSections => 9,
            TagType::Apm => 10,
            TagType::Efi32 => 11,
            TagType::Efi64 => 12,
            TagType::Smbios => 13,
            TagType::AcpiV1 => 14,
            TagType::AcpiV2 => 15,
            TagType::Network => 16,
            TagType::EfiMmap => 17,
            TagType::EfiBs => 18,
            TagType::Efi32Ih => 19,
            TagType::Efi64Ih => 20,
            TagType::LoadBaseAddr => 21,
            TagType::Custom(v) => *v,
        }
    }

    /// Returns the tag type that a numeric id stands for.
    pub fn from_val(v: u32) -> (r: TagType)
        ensures
            r == tag_type_from(v),
    {
        if v == 0 {
            TagType::End
        } else if v == 1 {
            TagType::Cmdline
        } else if v == 2 {
            TagType::BootLoaderName
        } else if v == 3 {
            TagType::Module
        } else if v == 4 {
            TagType::BasicMeminfo
        } else if v == 5 {
            TagType::Bootdev
        } else if v == 6 {
            TagType::Mmap
        } else if v == 7 {
            TagType::Vbe
        } else if v == 8 {
            TagType::Framebuffer
        } else if v == 9 {
            TagType::ElfSections
        } else if v == 10 {
            TagType::Apm
        } else if v == 11 {
            TagType::Efi32
        } else if v == 12 {
            TagType::Efi64
        } else if v == 13 {
            TagType::Smbios
        } else if v == 14 {
            TagType::AcpiV1
        } else if v == 15 {
            TagType::AcpiV2
        } else if v == 16 {
            TagType::Network
        } else if v == 17 {
            TagType::EfiMmap
        } else if v == 18 {
            TagType::EfiBs
        } else if v == 19 {
            TagType::Efi32Ih
        } else if v == 20 {
            TagType::Efi64Ih
        } else if v == 21 {
            TagType::LoadBaseAddr
        } else {
            TagType::Custom(v)
        }
    }
}

/// Converting an id to a tag type and back gives the id again.
pub proof fn lemma_tag_type_roundtrip(v: u32)
    ensures
        tag_type_val(tag_type_from(v)) == v,
{
}

/// The common header that all tags have in common.
#[derive(Clone, Copy, Debug, PartialEq, Eq, Structural)]
pub struct TagHeader {
    /// The numeric tag type.
    pub typ: u32,
    /// The total size of the tag including the header.
    pub size: u32,
}

impl TagHeader {
    /// Creates a new header.
    pub fn new(typ: TagType, size: u32) -> (r: TagHeader)
        ensures
            r.typ == tag_type_val(typ),
            r.size == size,
    {
        TagHeader { typ: typ.val(), size }
    }
}

/// Size in bytes of the tag header.
pub const TAG_HEADER_SIZE: usize = 8;

/// The type field of the tag stored in `b`.
pub open spec fn tag_typ(b: Seq<u8>) -> int {
    spec_u32_le(b, 0)
}

/// The size field of the tag stored in `b`.
pub open spec fn tag_size(b: Seq<u8>) -> int {
    spec_u32_le(b, 4)
}

/// The bytes of a tag: a header whose size field is the number of bytes.
pub open spec fn tag_bytes_wf(b: Seq<u8>) -> bool {
    &&& 8 <= b.len() <= u32::MAX
    &&& tag_size(b) == b.len()
}

/// The header bytes of a tag of type `typ` and size `size`.
pub open spec fn header_bytes(typ: u32, size: u32) -> Seq<u8> {
    u32_le_bytes(typ as int) + u32_le_bytes(size as int)
}

/// The bytes of a tag of type `typ` with the given payload.
pub open spec fn tag_with_payload(typ: u32, payload: Seq<u8>) -> Seq<u8> {
    header_bytes(typ, (8 + payload.len()) as u32) + payload
}

/// The header fields of a tag built from a type and a payload.
pub proof fn lemma_tag_with_payload(typ: u32, payload: Seq<u8>)
    requires
        payload.len() + 8 <= u32::MAX,
    ensures
        tag_with_payload(typ, payload).len() == 8 + payload.len(),
        tag_typ(tag_with_payload(typ, payload)) == typ,
        tag_size(tag_with_payload(typ, payload)) == 8 + payload.len(),
        tag_bytes_wf(tag_with_payload(typ, payload)),
        tag_with_payload(typ, payload).subrange(8, 8 + payload.len() as int) == payload,
{
    let b = tag_with_payload(typ, payload);
    assert(b.subrange(0, 4) =~= u32_le_bytes(typ as int));
    assert(b.subrange(4, 8) =~= u32_le_bytes((8 + payload.len()) as int));
    lemma_u32_le(b, 0, typ as int);
    lemma_u32_le(b, 4, (8 + payload.len()) as int);
    assert(b.subrange(8, 8 + payload.len() as int) =~= payload);
}

/// Builds the bytes of a tag: a header with the given type and the matching
/// size, followed by the payload.
pub fn new_tag_bytes(typ: TagType, payload: &[u8]) -> (r: Vec<u8>)
    requires
        payload@.len() + 8 <= u32::MAX,
    ensures
        r@ == tag_with_payload(tag_type_val(typ), payload@),
        tag_bytes_wf(r@),
        tag_typ(r@) == tag_type_val(typ),
{
    let mut r: Vec<u8> = Vec::new();
    push_u32_le(&mut r, typ.val());
    push_u32_le(&mut r, (payload.len() + 8) as u32);
    push_bytes(&mut r, payload);
    proof {
        assert(r@ =~= tag_with_payload(tag_type_val(typ), payload@));
        lemma_tag_with_payload(tag_type_val(typ), payload@);
    }
    r
}

/// The tags that start at the beginning of `b`, walked in order: each tag is
/// followed by padding to the next multiple of 8; the walk stops at the end
/// tag (type `End` and size 8), or where the bytes can no longer hold a tag.
pub open spec fn tag_list(b: Seq<u8>) -> Seq<Seq<u8>>
    decreases b.len(),
{
    if b.len() < 8 {
        seq![]
    } else {
        let size = tag_size(b);
        if (tag_typ(b) == 0 && size == 8) || size < 8 || size > b.len() {
            seq![]
        } else if align8(size) < b.len() {
            seq![b.subrange(0, size)] + tag_list(b.subrange(align8(size), b.len() as int))
        } else {
            seq![b.subrange(0, size)]
        }
    }
}

/// The first tag in `l` of type `id`.
pub open spec fn first_of_type(l: Seq<Seq<u8>>, id: int) -> Option<Seq<u8>>
    decreases l.len(),
{
    if l.len() == 0 {
        None
    } else if tag_typ(l[0]) == id {
        Some(l[0])
    } else {
        first_of_type(l.drop_first(), id)
    }
}

/// The first tag of type `id` in `l` is the one at `i` when no tag before it
/// has that type.
pub proof fn lemma_first_of_type(l: Seq<Seq<u8>>, id: int, i: int)
    requires
        0 <= i < l.len(),
        tag_typ(l[i]) == id,
        forall|j: int| 0 <= j < i ==> tag_typ(#[trigger] l[j]) != id,
    ensures
        first_of_type(l, id) == Some(l[i]),
    decreases i,
{
    if i > 0 {
        assert(tag_typ(l[0]) != id);
        let rest = l.drop_first();
        assert forall|j: int| 0 <= j < i - 1 implies tag_typ(#[trigger] rest[j]) != id by {
            assert(rest[j] == l[j + 1]);
        }
        lemma_first_of_type(rest, id, i - 1);
    }
}

/// Every tag that the walk finds is well formed.
pub proof fn lemma_tag_list_wf(b: Seq<u8>)
    ensures
        forall|i: int| 0 <= i < tag_list(b).len() ==> tag_bytes_wf(#[trigger] tag_list(b)[i]),
        forall|i: int| 0 <= i < tag_list(b).len() ==> !(tag_typ(#[trigger] tag_list(b)[i]) == 0
            && tag_list(b)[i].len() == 8),
    decreases b.len(),
{
    if b.len() >= 8 {
        let size = tag_size(b);
        if !((tag_typ(b) == 0 && size == 8) || size < 8 || size > b.len()) {
            let t = b.subrange(0, size);
            assert(t.subrange(4, 8) =~= b.subrange(4, 8));
            assert(t.subrange(0, 4) =~= b.subrange(0, 4));
            lemma_u32_le_same(t, 4, b, 4);
            lemma_u32_le_same(t, 0, b, 0);
            lemma_u32_range(b, 4);
            if align8(size) < b.len() {
                let rest = b.subrange(align8(size), b.len() as int);
                lemma_tag_list_wf(rest);
                assert forall|i: int| 0 <= i < tag_list(b).len() implies tag_bytes_wf(
                    #[trigger] tag_list(b)[i],
                ) && !(tag_typ(tag_list(b)[i]) == 0 && tag_list(b)[i].len() == 8) by {
                    if i > 0 {
                        assert(tag_list(b)[i] == tag_list(rest)[i - 1]);
                    }
                }
            }
        }
    }
}

/// A tag type of the boot information: its id, how it is read from the
/// bytes of a tag, and the bytes it is written as.
pub trait TagTrait: View + Sized {
    /// The type of this tag.
    spec fn spec_type() -> TagType;

    /// The tag (as its view) read from the bytes `b` of a tag of this type,
    /// if they hold one.
    spec fn spec_from_bytes(b: Seq<u8>) -> Option<Self::V>;

    /// The bytes of the tag with the view `v`, header included, without
    /// padding.
    spec fn spec_bytes(v: Self::V) -> Seq<u8>;

    /// `v` is a well-formed tag of this type, as its constructors build it.
    spec fn spec_wf(v: Self::V) -> bool;

    /// The bytes of a well-formed tag are a tag of this type, and reading
    /// them gives the tag back.
    proof fn lemma_roundtrip(v: Self::V)
        requires
            Self::spec_wf(v),
        ensures
            tag_bytes_wf(Self::spec_bytes(v)),
            tag_typ(Self::spec_bytes(v)) == tag_type_val(Self::spec_type()),
            Self::spec_from_bytes(Self::spec_bytes(v)) == Some(v),
    ;

    /// Returns the id of this tag.
    fn id() -> (r: TagType)
        ensures
            r == Self::spec_type(),
    ;

    /// Reads the tag from a generic tag of the boot information.
    fn from_generic(tag: &GenericTag) -> (r: Option<Self>)
        requires
            tag.wf(),
        ensures
            r is None <==> Self::spec_from_bytes(tag@) is None,
            r matches Some(t) ==> Self::spec_from_bytes(tag@) == Some(t@),
    ;

    /// Returns the bytes of the tag.
    fn as_bytes(&self) -> (r: Vec<u8>)
        ensures
            r@ == Self::spec_bytes(self@),
    ;
}

/// An owned tag: the bytes of one tag, header included, without padding.
#[derive(Clone, Debug)]
pub struct GenericTag {
    bytes: Vec<u8>,
}

/// Errors when reading a tag from raw bytes.
#[derive(Clone, Copy, Debug, PartialEq, Eq, Structural)]
pub enum MemoryError {
    /// There are fewer bytes than a tag header needs.
    ShorterThanHeader,
    /// The size field is smaller than the header or larger than the bytes.
    InvalidReportedTotalSize,
}

impl View for GenericTag {
    type V = Seq<u8>;

    closed spec fn view(&self) -> Seq<u8> {
        self.bytes@
    }
}

impl GenericTag {
    /// The tag's bytes are well formed.
    pub open spec fn wf(&self) -> bool {
        tag_bytes_wf(self@)
    }

    /// Builds a tag from its bytes.
    pub fn from_bytes(bytes: Vec<u8>) -> (r: GenericTag)
        requires
            tag_bytes_wf(bytes@),
        ensures
            r@ == bytes@,
            r.wf(),
    {
        GenericTag { bytes }
    }

    /// Reads the tag at the beginning of `bytes`. The tag's size field decides
    /// how many bytes belong to it.
    pub fn ref_from_slice(bytes: &[u8]) -> (r: Result<GenericTag, MemoryError>)
        ensures
            bytes@.len() < 8 ==> r == Err::<GenericTag, MemoryError>(
                MemoryError::ShorterThanHeader,
            ),
            bytes@.len() >= 8 && (tag_size(bytes@) < 8 || tag_size(bytes@) > bytes@.len())
                ==> r == Err::<GenericTag, MemoryError>(MemoryError::InvalidReportedTotalSize),
            bytes@.len() >= 8 && 8 <= tag_size(bytes@) <= bytes@.len() ==> (r matches Ok(t) && t@
                == bytes@.subrange(0, tag_size(bytes@))),
            r matches Ok(t) ==> t.wf(),
    {
        if bytes.len() < 8 {
            return Err(MemoryError::ShorterThanHeader);
        }
        let size = read_u32_le(bytes, 4);
        if size < 8 || size as usize > bytes.len() {
            return Err(MemoryError::InvalidReportedTotalSize);
        }
        let b = copy_range(bytes, 0, size as usize);
        proof {
            assert(b@.subrange(4, 8) =~= bytes@.subrange(4, 8));
            lemma_u32_le_same(b@, 4, bytes@, 4);
        }
        Ok(GenericTag { bytes: b })
    }

    /// Returns the tag header.
    pub fn header(&self) -> (r: TagHeader)
        requires
            self.wf(),
        ensures
            r.typ == tag_typ(self@),
            r.size == tag_size(self@),
    {
        TagHeader { typ: read_u32_le(self.bytes.as_slice(), 0), size: read_u32_le(self.bytes.as_slice(), 4) }
    }

    /// Returns the tag type.
    pub fn typ(&self) -> (r: TagType)
        requires
            self.wf(),
        ensures
            r == tag_type_from(tag_typ(self@) as u32),
    {
        TagType::from_val(read_u32_le(self.bytes.as_slice(), 0))
    }

    /// Returns all bytes of the tag, header included.
    pub fn as_bytes(&self) -> (r: &[u8])
        ensures
            r@ == self@,
    {
        self.bytes.as_slice()
    }

    /// Returns the bytes after the header.
    pub fn payload(&self) -> (r: Vec<u8>)
        requires
            self.wf(),
        ensures
            r@ == self@.subrange(8, self@.len() as int),
    {
        copy_range(self.bytes.as_slice(), 8, self.bytes.len())
    }
}

/// An iterator over the tags that start at the beginning of a byte slice. It
/// follows [`tag_list`].
#[derive(Clone, Debug)]
pub struct TagIter<'a> {
    buf: &'a [u8],
    off: usize,
}

impl<'a> TagIter<'a> {
    /// The bytes that are not walked yet.
    pub closed spec fn rest(&self) -> Seq<u8> {
        self.buf@.subrange(self.off as int, self.buf@.len() as int)
    }

    /// The tags that are still to come.
    pub closed spec fn remaining(&self) -> Seq<Seq<u8>> {
        if self.off <= self.buf@.len() {
            tag_list(self.rest())
        } else {
            seq![]
        }
    }

    /// Creates an iterator over the tags at the beginning of `buf`.
    pub fn new(buf: &'a [u8]) -> (r: TagIter<'a>)
        ensures
            r.remaining() == tag_list(buf@),
    {
        let r = TagIter { buf, off: 0 };
        assert(r.rest() =~= buf@);
        r
    }

    /// Creates an iterator over the tags that start at offset `off` of `buf`.
    pub fn new_at(buf: &'a [u8], off: usize) -> (r: TagIter<'a>)
        requires
            off <= buf@.len(),
        ensures
            r.remaining() == tag_list(buf@.subrange(off as int, buf@.len() as int)),
    {
        TagIter { buf, off }
    }

    /// Returns the next tag of the walk.
    pub fn next(&mut self) -> (r: Option<GenericTag>)
        ensures
            old(self).remaining().len() == 0 ==> r is None && final(self).remaining().len() == 0,
            old(self).remaining().len() > 0 ==> (r matches Some(t) && t@ == old(self).remaining()[0]
                && final(self).remaining() == old(self).remaining().drop_first()),
            r matches Some(t) ==> t.wf() && !(tag_typ(t@) == 0 && t@.len() == 8),
    {
        let len = self.buf.len();
        if self.off > len || len - self.off < 8 {
            self.off = len + 0;
            proof {
                assert(self.rest() =~= Seq::<u8>::empty());
            }
            return None;
        }
        let ghost rest = self.rest();
        let typ = read_u32_le(self.buf, self.off);
        let size = read_u32_le(self.buf, self.off + 4);
        proof {
            assert(rest.subrange(0, 4) =~= self.buf@.subrange(self.off as int, self.off + 4));
            assert(rest.subrange(4, 8) =~= self.buf@.subrange(self.off + 4, self.off + 8));
            lemma_u32_le_same(rest, 0, self.buf@, self.off as int);
            lemma_u32_le_same(rest, 4, self.buf@, self.off as int + 4);
            lemma_tag_list_wf(rest);
        }
        if (typ == 0 && size == 8) || size < 8 || size as usize > len - self.off {
            self.off = len;
            proof {
                assert(self.rest() =~= Seq::<u8>::empty());
            }
            return None;
        }
        let t = copy_range(self.buf, self.off, self.off + size as usize);
        let step = align8_u64(size as u64);
        proof {
            assert(t@ =~= rest.subrange(0, size as int));
        }
        if step < (len - self.off) as u64 {
            self.off = self.off + step as usize;
            proof {
                assert(self.rest() =~= rest.subrange(step as int, rest.len() as int));
            }
        } else {
            self.off = len;
            proof {
                assert(self.rest() =~= Seq::<u8>::empty());
            }
        }
        Some(GenericTag { bytes: t })
    }
}

/// The tag types carry the type ids of the Multiboot2 specification: `0`
/// end, `1` command line, `2` boot loader name, `3` module, `4` basic memory
/// information, `5` BIOS boot device, `6` memory map, `7` VBE information,
/// `8` framebuffer information, `9` ELF sections, `10` APM table, `11` EFI
/// 32-bit system table, `12` EFI 64-bit system table, `13` SMBIOS tables,
/// `14` ACPI 1.0 RSDP, `15` ACPI 2.0 RSDP, `16` networking information, `17`
/// EFI memory map, `18` EFI boot services not terminated, `19` EFI 32-bit
/// image handle, `20` EFI 64-bit image handle, `21` image load base address;
/// every other id is a custom tag of that id.
pub proof fn lemma_tag_type_numbering(v: u32)
    ensures
        tag_type_val(TagType::End) == 0,
        tag_type_val(TagType::Cmdline) == 1,
        tag_type_val(TagType::BootLoaderName) == 2,
        tag_type_val(TagType::Module) == 3,
        tag_type_val(TagType::BasicMeminfo) == 4,
        tag_type_val(TagType::Bootdev) == 5,
        tag_type_val(TagType::Mmap) == 6,
        tag_type_val(TagType::Vbe) == 7,
        tag_type_val(TagType::Framebuffer) == 8,
        tag_type_val(TagType::ElfSections) == 9,
        tag_type_val(TagType::Apm) == 10,
        tag_type_val(TagType::Efi32) == 11,
        tag_type_val(TagType::Efi64) == 12,
        tag_type_val(TagType::Smbios) == 13,
        tag_type_val(TagType::AcpiV1) == 14,
        tag_type_val(TagType::AcpiV2) == 15,
        tag_type_val(TagType::Network) == 16,
        tag_type_val(TagType::EfiMmap) == 17,
        tag_type_val(TagType::EfiBs) == 18,
        tag_type_val(TagType::Efi32Ih) == 19,
        tag_type_val(TagType::Efi64Ih) == 20,
        tag_type_val(TagType::LoadBaseAddr) == 21,
        tag_type_val(TagType::Custom(v)) == v,
        v == 0 ==> tag_type_from(v) == TagType::End,
        v == 1 ==> tag_type_from(v) == TagType::Cmdline,
        v == 2 ==> tag_type_from(v) == TagType::BootLoaderName,
        v == 3 ==> tag_type_from(v) == TagType::Module,
        v == 4 ==> tag_type_from(v) == TagType::BasicMeminfo,
        v == 5 ==> tag_type_from(v) == TagType::Bootdev,
        v == 6 ==> tag_type_from(v) == TagType::Mmap,
        v == 7 ==> tag_type_from(v) == TagType::Vbe,
        v == 8 ==> tag_type_from(v) == TagType::Framebuffer,
        v == 9 ==> tag_type_from(v) == TagType::ElfSections,
        v == 10 ==> tag_type_from(v) == TagType::Apm,
        v == 11 ==> tag_type_from(v) == TagType::Efi32,
        v == 12 ==> tag_type_from(v) == TagType::Efi64,
        v == 13 ==> tag_type_from(v) == TagType::Smbios,
        v == 14 ==> tag_type_from(v) == TagType::AcpiV1,
        v == 15 ==> tag_type_from(v) == TagType::AcpiV2,
        v == 16 ==> tag_type_from(v) == TagType::Network,
        v == 17 ==> tag_type_from(v) == TagType::EfiMmap,
        v == 18 ==> tag_type_from(v) == TagType::EfiBs,
        v == 19 ==> tag_type_from(v) == TagType::Efi32Ih,
        v == 20 ==> tag_type_from(v) == TagType::Efi64Ih,
        v == 21 ==> tag_type_from(v) == TagType::LoadBaseAddr,
        v > 21 ==> tag_type_from(v) == TagType::Custom(v),
{
}

} // verus!
