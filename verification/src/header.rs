//! The Multiboot2 header: the structure in a binary, for example a kernel,
//! that makes it Multiboot2-compliant. The values are taken from the example
//! C code at the end of the official Multiboot2 specification.
use crate::bytes::{align8, lemma_u32_le, push_u32_le, read_u16_le, read_u32_le, spec_u16_le, spec_u32_le, u32_le_bytes};
use vstd::prelude::*;

pub mod tags;

verus! {

/// Value must be present in multiboot2 header.
pub const MULTIBOOT2_HEADER_MAGIC: u32 = 0xe85250d6;

/// ISA/ARCH in multiboot2 header.
#[derive(Clone, Copy, Debug, PartialEq, Eq, Structural)]
pub enum HeaderTagISA {
    /// `0`: 32-bit (protected) mode of i386; read it as "arch=x86".
    I386,
    /// `4`: 32-bit MIPS.
    MIPS32,
}

/// The numeric value of an architecture.
pub open spec fn isa_val(a: HeaderTagISA) -> u32 {
    match a {
        HeaderTagISA::I386 => 0,
        HeaderTagISA::MIPS32 => 4,
    }
}

impl HeaderTagISA {
    /// Returns the numeric value of the architecture.
    pub fn val(&self) -> (r: u32)
        ensures
            r == isa_val(*self),
    {
        match self {
            HeaderTagISA::I386 => 0,
            HeaderTagISA::MIPS32 => 4,
        }
    }
}

/// Possible types for header tags of a multiboot2 header. The names and
/// values are taken from the example C code at the bottom of the Multiboot2
/// specification.
#[derive(Clone, Copy, Debug, PartialEq, Eq, Structural)]
pub enum HeaderTagType {
    /// `0`: Type for [`tags::EndHeaderTag`].
    End,
    /// `1`: Type for [`tags::InformationRequestHeaderTag`].
    InformationRequest,
    /// `2`: Type for [`tags::AddressHeaderTag`].
    Address,
    /// `3`: Type for [`tags::EntryHeaderTag`].
    EntryAddress,
    /// `4`: Type for [`tags::ConsoleHeaderTag`].
    ConsoleFlags,
    /// `5`: Type for [`tags::FramebufferHeaderTag`].
    Framebuffer,
    /// `6`: Type for [`tags::ModuleAlignHeaderTag`].
    ModuleAlign,
    /// `7`: Type for [`tags::EfiBootServiceHeaderTag`].
    EfiBS,
    /// `8`: Type for [`tags::EntryEfi32HeaderTag`].
    EntryAddressEFI32,
    /// `9`: Type for [`tags::EntryEfi64HeaderTag`].
    EntryAddressEFI64,
    /// `10`: Type for [`tags::RelocatableHeaderTag`].
    Relocatable,
}

/// The header tag type of a numeric value up to 10.
pub open spec fn header_tag_type_from(v: u16) -> HeaderTagType
    recommends
        v <= 10,
{
    if v == 0 {
        HeaderTagType::End
    } else if v == 1 {
        HeaderTagType::InformationRequest
    } else if v == 2 {
        HeaderTagType::Address
    } else if v == 3 {
        HeaderTagType::EntryAddress
    } else if v == 4 {
        HeaderTagType::ConsoleFlags
    } else if v == 5 {
        HeaderTagType::Framebuffer
    } else if v == 6 {
        HeaderTagType::ModuleAlign
    } else if v == 7 {
        HeaderTagType::EfiBS
    } else if v == 8 {
        HeaderTagType::EntryAddressEFI32
    } else if v == 9 {
        HeaderTagType::EntryAddressEFI64
    } else {
        HeaderTagType::Relocatable
    }
}

/// The header tag type of a numeric value up to 10.
fn header_tag_type_of(v: u16) -> (r: HeaderTagType)
    requires
        v <= 10,
    ensures
        r == header_tag_type_from(v),
{
    if v == 0 {
        HeaderTagType::End
    } else if v == 1 {
        HeaderTagType::InformationRequest
    } else if v == 2 {
        HeaderTagType::Address
    } else if v == 3 {
        HeaderTagType::EntryAddress
    } else if v == 4 {
        HeaderTagType::ConsoleFlags
    } else if v == 5 {
        HeaderTagType::Framebuffer
    } else if v == 6 {
        HeaderTagType::ModuleAlign
    } else if v == 7 {
        HeaderTagType::EfiBS
    } else if v == 8 {
        HeaderTagType::EntryAddressEFI32
    } else if v == 9 {
        HeaderTagType::EntryAddressEFI64
    } else {
        HeaderTagType::Relocatable
    }
}

/// Flags for multiboot2 header tags.
#[derive(Clone, Copy, Debug, PartialEq, Eq, Structural)]
pub enum HeaderTagFlag {
    /// `0`
    Required,
    /// `1`
    Optional,
}

/// Flags of a console header tag.
#[derive(Clone, Copy, Debug, PartialEq, Eq, Structural)]
pub enum ConsoleHeaderTagFlags {
    /// `0`: Console required.
    ConsoleRequired,
    /// `1`: EGA text support.
    EgaTextSupported,
}

/// Where a relocatable image should preferably be placed.
#[derive(Clone, Copy, Debug, PartialEq, Eq, Structural)]
pub enum RelocatableHeaderTagPreference {
    /// `0`: Let boot loader decide.
    NoPreference,
    /// `1`: Locate at lower end of possible address space.
    Low,
    /// `2`: Locate at higher end of possible address space.
    High,
}

/// Common structure for all header tags.
#[derive(Clone, Copy, Debug, PartialEq, Eq, Structural)]
pub struct HeaderTag {
    typ: HeaderTagType,
    flags: HeaderTagFlag,
    size: u32,
}

/// The header tag stored at `off` in `b`: a 16-bit type, 16-bit flags and a
/// 32-bit size.
pub closed spec fn header_tag_at(b: Seq<u8>, off: int) -> HeaderTag {
    HeaderTag {
        typ: header_tag_type_from(spec_u16_le(b, off) as u16),
        flags: if spec_u16_le(b, off + 2) == 0 {
            HeaderTagFlag::Required
        } else {
            HeaderTagFlag::Optional
        },
        size: spec_u32_le(b, off + 4) as u32,
    }
}

impl HeaderTag {
    /// The type field.
    pub closed spec fn spec_typ(&self) -> HeaderTagType {
        self.typ
    }

    /// The flags field.
    pub closed spec fn spec_flags(&self) -> HeaderTagFlag {
        self.flags
    }

    /// The size field.
    pub closed spec fn spec_size(&self) -> u32 {
        self.size
    }

    /// The header tag stored at `off` in `b`.
    pub proof fn lemma_at(b: Seq<u8>, off: int)
        ensures
            header_tag_at(b, off).spec_typ() == header_tag_type_from(spec_u16_le(b, off) as u16),
            header_tag_at(b, off).spec_flags() == (if spec_u16_le(b, off + 2) == 0 {
                HeaderTagFlag::Required
            } else {
                HeaderTagFlag::Optional
            }),
            header_tag_at(b, off).spec_size() == spec_u32_le(b, off + 4) as u32,
    {
    }

    /// Reads the header tag stored at `off`.
    fn read_at(b: &[u8], off: usize) -> (r: HeaderTag)
        requires
            off + 8 <= b@.len(),
            spec_u16_le(b@, off as int) <= 10,
            spec_u16_le(b@, off + 2) <= 1,
        ensures
            r == header_tag_at(b@, off as int),
    {
        let _len = b.len();
        let typ = header_tag_type_of(read_u16_le(b, off));
        let flags = if read_u16_le(b, off + 2) == 0 {
            HeaderTagFlag::Required
        } else {
            HeaderTagFlag::Optional
        };
        HeaderTag { typ, flags, size: read_u32_le(b, off + 4) }
    }

    /// The type of the tag.
    pub fn typ(&self) -> (r: HeaderTagType)
        ensures
            r == self.spec_typ(),
    {
        self.typ
    }

    /// The flags of the tag.
    pub fn flags(&self) -> (r: HeaderTagFlag)
        ensures
            r == self.spec_flags(),
    {
        self.flags
    }

    /// The size of the tag, in bytes.
    pub fn size(&self) -> (r: u32)
        ensures
            r == self.spec_size(),
    {
        self.size
    }
}

/// The checksum that makes magic, architecture, length and checksum sum up
/// to zero, modulo 2^32.
pub open spec fn spec_calc_checksum(magic: u32, arch: u32, length: u32) -> int {
    (0x1_0000_0000 - magic - arch - length) % 0x1_0000_0000
}

/// The magic field of the header stored in `b`.
pub open spec fn mb2_magic(b: Seq<u8>) -> int {
    spec_u32_le(b, 0)
}

/// The architecture field of the header stored in `b`.
pub open spec fn mb2_arch(b: Seq<u8>) -> int {
    spec_u32_le(b, 4)
}

/// The length field of the header stored in `b`.
pub open spec fn mb2_length(b: Seq<u8>) -> int {
    spec_u32_le(b, 8)
}

/// The checksum field of the header stored in `b`.
pub open spec fn mb2_checksum(b: Seq<u8>) -> int {
    spec_u32_le(b, 12)
}

/// The architecture field of the header stored in `b` names a known
/// architecture.
pub open spec fn mb2_arch_known(b: Seq<u8>) -> bool {
    mb2_arch(b) == 0 || mb2_arch(b) == 4
}

/// The checksum of the header stored in `b` can be computed without going
/// below zero: magic, architecture and length sum up to at most 2^32.
pub open spec fn mb2_checksum_computable(b: Seq<u8>) -> bool {
    mb2_magic(b) + mb2_arch(b) + mb2_length(b) <= 0x1_0000_0000
}

/// The checksum field of the header stored in `b` is the one its other
/// fields call for.
pub open spec fn mb2_checksum_valid(b: Seq<u8>) -> bool {
    mb2_checksum(b) == spec_calc_checksum(mb2_magic(b) as u32, mb2_arch(b) as u32, mb2_length(b) as u32)
}

/// The bytes of the static part of a header.
pub open spec fn mb2_header_bytes(magic: u32, arch: u32, length: u32, checksum: u32) -> Seq<u8> {
    u32_le_bytes(magic as int) + u32_le_bytes(arch as int) + u32_le_bytes(length as int) + u32_le_bytes(
        checksum as int,
    )
}

/// The fields of the static part of a header are the ones it is built from.
pub proof fn lemma_mb2_header_bytes(magic: u32, arch: u32, length: u32, checksum: u32)
    ensures
        ({
            let b = mb2_header_bytes(magic, arch, length, checksum);
            &&& b.len() == 16
            &&& mb2_magic(b) == magic
            &&& mb2_arch(b) == arch
            &&& mb2_length(b) == length
            &&& mb2_checksum(b) == checksum
        }),
{
    let b = mb2_header_bytes(magic, arch, length, checksum);
    assert(b.subrange(0, 4) =~= u32_le_bytes(magic as int));
    assert(b.subrange(4, 8) =~= u32_le_bytes(arch as int));
    assert(b.subrange(8, 12) =~= u32_le_bytes(length as int));
    assert(b.subrange(12, 16) =~= u32_le_bytes(checksum as int));
    lemma_u32_le(b, 0, magic as int);
    lemma_u32_le(b, 4, arch as int);
    lemma_u32_le(b, 8, length as int);
    lemma_u32_le(b, 12, checksum as int);
}

/// A Multiboot2 header: the bytes from its magic value on.
#[derive(Clone, Copy, Debug)]
pub struct Multiboot2Header<'a> {
    bytes: &'a [u8],
}

impl<'a> View for Multiboot2Header<'a> {
    type V = Seq<u8>;

    closed spec fn view(&self) -> Seq<u8> {
        self.bytes@
    }
}

/// The bytes start with the static part of a header that
/// [`load_mb2_header`] accepts: a known architecture and a checksum that can
/// be computed and is the one the other fields call for.
pub fn header_is_valid(bytes: &[u8]) -> (r: bool)
    ensures
        r == (bytes@.len() >= 16 && mb2_arch_known(bytes@) && mb2_checksum_computable(bytes@)
            && mb2_checksum_valid(bytes@)),
{
    if bytes.len() < 16 {
        return false;
    }
    let magic = read_u32_le(bytes, 0);
    let arch = read_u32_le(bytes, 4);
    let length = read_u32_le(bytes, 8);
    let checksum = read_u32_le(bytes, 12);
    let isa = if arch == 0 {
        HeaderTagISA::I386
    } else if arch == 4 {
        HeaderTagISA::MIPS32
    } else {
        return false;
    };
    if magic as u64 + arch as u64 + length as u64 > 0x1_0000_0000 {
        return false;
    }
    Multiboot2Header::calc_checksum(magic, isa, length) == checksum
}

/// Loads the header at the address `addr`, whose memory holds `bytes`. The
/// address must be non-null and 8-byte aligned (see specification), and the
/// checksum must be valid.
pub fn load_mb2_header<'a>(addr: usize, bytes: &'a [u8]) -> (r: Multiboot2Header<'a>)
    requires
        addr != 0,
        addr % 8 == 0,
        bytes@.len() >= 16,
        mb2_arch_known(bytes@),
        mb2_checksum_computable(bytes@),
        mb2_checksum_valid(bytes@),
    ensures
        r@ == bytes@,
        r.wf(),
{
    Multiboot2Header { bytes }
}

impl<'a> Multiboot2Header<'a> {
    /// The bytes hold the static part of a header of a known architecture
    /// whose checksum can be computed.
    pub open spec fn wf(&self) -> bool {
        &&& self@.len() >= 16
        &&& mb2_arch_known(self@)
        &&& mb2_checksum_computable(self@)
    }

    /// Returns the size a static multiboot2 header without tags has.
    pub fn static_size() -> (r: u32)
        ensures
            r == 16,
    {
        16
    }

    /// Verifies that the checksum is the one the other fields call for.
    pub fn verify_checksum(&self) -> (r: bool)
        requires
            self.wf(),
        ensures
            r == mb2_checksum_valid(self@),
    {
        let check = Multiboot2Header::calc_checksum(self.header_magic(), self.arch(), self.length());
        check == self.checksum()
    }

    /// Returns the magic value.
    pub fn header_magic(&self) -> (r: u32)
        requires
            self.wf(),
        ensures
            r == mb2_magic(self@),
    {
        read_u32_le(self.bytes, 0)
    }

    /// Returns the architecture.
    pub fn arch(&self) -> (r: HeaderTagISA)
        requires
            self.wf(),
        ensures
            isa_val(r) == mb2_arch(self@),
    {
        if read_u32_le(self.bytes, 4) == 0 {
            HeaderTagISA::I386
        } else {
            HeaderTagISA::MIPS32
        }
    }

    /// Returns the length of the header, tags included.
    pub fn length(&self) -> (r: u32)
        requires
            self.wf(),
        ensures
            r == mb2_length(self@),
    {
        read_u32_le(self.bytes, 8)
    }

    /// Returns the checksum field.
    pub fn checksum(&self) -> (r: u32)
        requires
            self.wf(),
        ensures
            r == mb2_checksum(self@),
    {
        read_u32_le(self.bytes, 12)
    }

    /// Returns an iterator over the header tags that follow the static part:
    /// as many bytes as the length field leaves.
    pub fn iter(&self) -> (r: Multiboot2HeaderTagIter<'a>)
        requires
            self.wf(),
            16 < mb2_length(self@) <= self@.len(),
        ensures
            r.spec_bytes() == self@.subrange(16, mb2_length(self@)),
            r.spec_n() == 0,
            r.spec_size() == mb2_length(self@) - 16,
    {
        let length = read_u32_le(self.bytes, 8);
        let tags = &self.bytes[16..length as usize];
        Multiboot2HeaderTagIter { bytes: tags, n: 0, size: length - 16 }
    }

    /// The checksum that makes magic, architecture, length and checksum sum
    /// up to zero, modulo 2^32.
    pub fn calc_checksum(magic: u32, arch: HeaderTagISA, length: u32) -> (r: u32)
        requires
            magic + isa_val(arch) + length <= 0x1_0000_0000,
        ensures
            r == spec_calc_checksum(magic, isa_val(arch), length),
            (magic + isa_val(arch) + length + r) % 0x1_0000_0000 == 0,
    {
        let sum = magic as u64 + arch.val() as u64 + length as u64;
        if sum == 0 || sum == 0x1_0000_0000 {
            assert(spec_calc_checksum(magic, isa_val(arch), length) == 0);
            0
        } else {
            let r = (0x1_0000_0000 - sum) as u32;
            assert(spec_calc_checksum(magic, isa_val(arch), length) == r);
            r
        }
    }
}

/// An iterator over the tags of a Multiboot2 header. Each step moves by the
/// tag's size, rounded up to a multiple of 8.
#[derive(Clone, Copy, Debug)]
pub struct Multiboot2HeaderTagIter<'a> {
    bytes: &'a [u8],
    n: u32,
    size: u32,
}

impl<'a> Multiboot2HeaderTagIter<'a> {
    /// The bytes of the tags.
    pub closed spec fn spec_bytes(&self) -> Seq<u8> {
        self.bytes@
    }

    /// The offset of the next tag.
    pub closed spec fn spec_n(&self) -> int {
        self.n as int
    }

    /// The number of bytes of the tags.
    pub closed spec fn spec_size(&self) -> int {
        self.size as int
    }

    /// The tag at the current offset can be read: it lies in the bytes, is
    /// aligned to 8, has a known type and flags, is at most 500 bytes large,
    /// and the offset after it stays in range.
    pub open spec fn next_readable(&self) -> bool {
        let b = self.spec_bytes();
        let n = self.spec_n();
        n < self.spec_size() ==> {
            &&& n + 8 <= b.len()
            &&& n % 8 == 0
            &&& spec_u16_le(b, n) <= 10
            &&& spec_u16_le(b, n + 2) <= 1
            &&& spec_u32_le(b, n + 4) <= 500
            &&& n + spec_u32_le(b, n + 4) + 7 <= u32::MAX
        }
    }

    /// Returns the next header tag, while the offset is below the size.
    pub fn next(&mut self) -> (r: Option<HeaderTag>)
        requires
            old(self).next_readable(),
        ensures
            final(self).spec_bytes() == old(self).spec_bytes(),
            final(self).spec_size() == old(self).spec_size(),
            old(self).spec_n() >= old(self).spec_size() ==> r is None && final(self).spec_n()
                == old(self).spec_n(),
            old(self).spec_n() < old(self).spec_size() ==> ({
                let m = old(self).spec_n() + header_tag_at(old(self).spec_bytes(), old(self).spec_n()).spec_size();
                &&& r == Some(header_tag_at(old(self).spec_bytes(), old(self).spec_n()))
                &&& final(self).spec_n() == align8(m)
            }),
    {
        if self.n < self.size {
            let _len = self.bytes.len();
            let tag = HeaderTag::read_at(self.bytes, self.n as usize);
            proof {
                HeaderTag::lemma_at(self.bytes@, self.n as int);
            }
            let m = self.n + tag.size;
            self.n = if m % 8 == 0 {
                m
            } else {
                m + 8 - m % 8
            };
            Some(tag)
        } else {
            None
        }
    }
}

/// Builds the static part of a Multiboot2 header at runtime, useful to write
/// tests.
#[derive(Clone, Copy, Debug)]
pub struct Multiboot2HeaderBuilder {
    additional_tags_len: Option<u32>,
    arch: Option<HeaderTagISA>,
}

impl Multiboot2HeaderBuilder {
    /// The length of the tags that follow the static part, if set.
    pub closed spec fn spec_additional_tags_len(&self) -> Option<u32> {
        self.additional_tags_len
    }

    /// The architecture, if set.
    pub closed spec fn spec_arch(&self) -> Option<HeaderTagISA> {
        self.arch
    }

    /// Creates a builder with neither tag length nor architecture set.
    pub fn new() -> (r: Multiboot2HeaderBuilder)
        ensures
            r.spec_additional_tags_len() is None,
            r.spec_arch() is None,
    {
        Multiboot2HeaderBuilder { additional_tags_len: None, arch: None }
    }

    /// Sets the length of the tags that follow the static part.
    pub fn additional_tags_len(self, additional_tags_len: u32) -> (r: Multiboot2HeaderBuilder)
        ensures
            r.spec_additional_tags_len() == Some(additional_tags_len),
            r.spec_arch() == self.spec_arch(),
    {
        Multiboot2HeaderBuilder { additional_tags_len: Some(additional_tags_len), arch: self.arch }
    }

    /// Sets the architecture.
    pub fn arch(self, arch: HeaderTagISA) -> (r: Multiboot2HeaderBuilder)
        ensures
            r.spec_arch() == Some(arch),
            r.spec_additional_tags_len() == self.spec_additional_tags_len(),
    {
        Multiboot2HeaderBuilder { additional_tags_len: self.additional_tags_len, arch: Some(arch) }
    }

    /// The length of the header that [`Self::build`] states: the static part
    /// and the additional tags.
    pub open spec fn spec_length(&self) -> int {
        16 + match self.spec_additional_tags_len() {
            Some(l) => l as int,
            None => 0,
        }
    }

    /// Constructs the bytes for the static part of the header only: magic,
    /// architecture, length and the checksum that matches them.
    pub fn build(self) -> (r: Vec<u8>)
        requires
            self.spec_arch() is Some,
            MULTIBOOT2_HEADER_MAGIC + isa_val(self.spec_arch().unwrap()) + self.spec_length()
                <= 0x1_0000_0000,
        ensures
            r@ == mb2_header_bytes(
                MULTIBOOT2_HEADER_MAGIC,
                isa_val(self.spec_arch().unwrap()),
                self.spec_length() as u32,
                spec_calc_checksum(
                    MULTIBOOT2_HEADER_MAGIC,
                    isa_val(self.spec_arch().unwrap()),
                    self.spec_length() as u32,
                ) as u32,
            ),
            r@.len() == 16,
            mb2_magic(r@) == MULTIBOOT2_HEADER_MAGIC,
            mb2_arch(r@) == isa_val(self.spec_arch().unwrap()),
            mb2_length(r@) == self.spec_length(),
            mb2_arch_known(r@),
            mb2_checksum_computable(r@),
            mb2_checksum_valid(r@),
    {
        let arch = match self.arch {
            Some(a) => a,
            None => {
                assert(false);
                HeaderTagISA::I386
            },
        };
        let extra = match self.additional_tags_len {
            Some(l) => l,
            None => 0,
        };
        let length = 16 + extra;
        let checksum = Multiboot2Header::calc_checksum(MULTIBOOT2_HEADER_MAGIC, arch, length);
        let mut buf: Vec<u8> = Vec::new();
        push_u32_le(&mut buf, MULTIBOOT2_HEADER_MAGIC);
        push_u32_le(&mut buf, arch.val());
        push_u32_le(&mut buf, length);
        push_u32_le(&mut buf, checksum);
        proof {
            assert(buf@ =~= mb2_header_bytes(MULTIBOOT2_HEADER_MAGIC, isa_val(arch), length, checksum));
            lemma_mb2_header_bytes(MULTIBOOT2_HEADER_MAGIC, isa_val(arch), length, checksum);
        }
        buf
    }
}

/// A header built with an architecture loads at any non-null, 8-byte aligned
/// address, and passes the checksum verification.
pub proof fn lemma_built_header_verifies(b: Seq<u8>, arch: HeaderTagISA, length: u32)
    requires
        MULTIBOOT2_HEADER_MAGIC + isa_val(arch) + length <= 0x1_0000_0000,
        b == mb2_header_bytes(
            MULTIBOOT2_HEADER_MAGIC,
            isa_val(arch),
            length,
            spec_calc_checksum(MULTIBOOT2_HEADER_MAGIC, isa_val(arch), length) as u32,
        ),
    ensures
        b.len() == 16,
        mb2_arch_known(b),
        mb2_checksum_computable(b),
        mb2_checksum_valid(b),
        (mb2_magic(b) + mb2_arch(b) + mb2_length(b) + mb2_checksum(b)) % 0x1_0000_0000 == 0,
{
    lemma_mb2_header_bytes(
        MULTIBOOT2_HEADER_MAGIC,
        isa_val(arch),
        length,
        spec_calc_checksum(MULTIBOOT2_HEADER_MAGIC, isa_val(arch), length) as u32,
    );
}

/// The header tag types carry the type numbers of the Multiboot2
/// specification: `0` end, `1` information request, `2` address, `3` entry
/// address, `4` console flags, `5` framebuffer, `6` module alignment, `7` EFI
/// boot services, `8` EFI i386 entry address, `9` EFI amd64 entry address,
/// `10` relocatable; the architectures are `0` for i386 and `4` for 32-bit
/// MIPS.
pub proof fn lemma_header_numbering(v: u16)
    ensures
        v == 0 ==> header_tag_type_from(v) == HeaderTagType::End,
        v == 1 ==> header_tag_type_from(v) == HeaderTagType::InformationRequest,
        v == 2 ==> header_tag_type_from(v) == HeaderTagType::Address,
        v == 3 ==> header_tag_type_from(v) == HeaderTagType::EntryAddress,
        v == 4 ==> header_tag_type_from(v) == HeaderTagType::ConsoleFlags,
        v == 5 ==> header_tag_type_from(v) == HeaderTagType::Framebuffer,
        v == 6 ==> header_tag_type_from(v) == HeaderTagType::ModuleAlign,
        v == 7 ==> header_tag_type_from(v) == HeaderTagType::EfiBS,
        v == 8 ==> header_tag_type_from(v) == HeaderTagType::EntryAddressEFI32,
        v == 9 ==> header_tag_type_from(v) == HeaderTagType::EntryAddressEFI64,
        v == 10 ==> header_tag_type_from(v) == HeaderTagType::Relocatable,
        isa_val(HeaderTagISA::I386) == 0,
        isa_val(HeaderTagISA::MIPS32) == 4,
{
}

} // verus!
