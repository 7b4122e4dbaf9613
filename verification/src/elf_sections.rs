//! Module for [`ElfSectionsTag`]: the section header table of an ELF binary,
//! and the section headers read from it.
use crate::bytes::{copy_range, lemma_u32_le, lemma_u32_le_same, push_bytes, push_u32_le, read_u32_le, spec_u32_le, spec_u64_le, u32_le_bytes};
use crate::tag::{lemma_tag_with_payload, new_tag_bytes, tag_bytes_wf, tag_typ, tag_with_payload, GenericTag, TagTrait, TagType};
use crate::util::{parse_slice_as_string, spec_parse_string, StringError};
use elf::endian::LittleEndian;
use elf::file::Class;
use elf::section::SectionHeaderTable;
use vstd::prelude::*;

verus! {

/// An enum abstraction over raw ELF section types.
#[derive(Clone, Copy, Debug, PartialEq, Eq, Structural)]
pub enum ElfSectionType {
    /// `0`: the section header is inactive; it does not have an associated
    /// section.
    Unused,
    /// `1`: information defined by the program.
    ProgramSection,
    /// `2`: a linker symbol table.
    LinkerSymbolTable,
    /// `3`: a string table.
    StringTable,
    /// `4`: relocation entries with explicit addends.
    RelaRelocation,
    /// `5`: a symbol hash table.
    SymbolHashTable,
    /// `6`: dynamic linking tables.
    DynamicLinkingTable,
    /// `7`: information that marks the file in some way.
    Note,
    /// `8`: occupies no space in the file but otherwise resembles
    /// `ProgramSection`.
    Uninitialized,
    /// `9`: relocation entries without explicit addends.
    RelRelocation,
    /// `10`: reserved, with unspecified semantics.
    Reserved,
    /// `11`: a dynamic loader symbol table.
    DynamicLoaderSymbolTable,
    /// `0x6000_0000` to `0x6FFF_FFFF`: environment-specific semantics.
    EnvironmentSpecific,
    /// `0x7000_0000` to `0x7FFF_FFFF`: processor-specific semantics.
    ProcessorSpecific,
}

/// The section type that a raw ELF section type stands for; unknown types
/// are treated as [`ElfSectionType::Unused`].
pub open spec fn spec_section_type(t: u32) -> ElfSectionType {
    if t == 0 {
        ElfSectionType::Unused
    } else if t == 1 {
        ElfSectionType::ProgramSection
    } else if t == 2 {
        ElfSectionType::LinkerSymbolTable
    } else if t == 3 {
        ElfSectionType::StringTable
    } else if t == 4 {
        ElfSectionType::RelaRelocation
    } else if t == 5 {
        ElfSectionType::SymbolHashTable
    } else if t == 6 {
        ElfSectionType::DynamicLinkingTable
    } else if t == 7 {
        ElfSectionType::Note
    } else if t == 8 {
        ElfSectionType::Uninitialized
    } else if t == 9 {
        ElfSectionType::RelRelocation
    } else if t == 10 {
        ElfSectionType::Reserved
    } else if t == 11 {
        ElfSectionType::DynamicLoaderSymbolTable
    } else if 0x6000_0000 <= t <= 0x6FFF_FFFF {
        ElfSectionType::EnvironmentSpecific
    } else if 0x7000_0000 <= t <= 0x7FFF_FFFF {
        ElfSectionType::ProcessorSpecific
    } else {
        ElfSectionType::Unused
    }
}

/// ELF section flags.
#[derive(Clone, Copy, Debug, PartialEq, Eq, Structural)]
pub struct ElfSectionFlags(pub u64);

impl ElfSectionFlags {
    /// The flag bit of a section that is writable during execution.
    pub const WRITABLE_BIT: u64 = 0x1;
    /// The flag bit of a section that occupies memory during execution.
    pub const ALLOCATED_BIT: u64 = 0x2;
    /// The flag bit of a section that holds executable machine instructions.
    pub const EXECUTABLE_BIT: u64 = 0x4;

    /// No flags.
    pub fn empty() -> (r: ElfSectionFlags)
        ensures
            r.0 == 0,
    {
        ElfSectionFlags(0)
    }

    /// The flags with exactly the given bits, known or not.
    pub fn from_bits_retain(bits: u64) -> (r: ElfSectionFlags)
        ensures
            r.0 == bits,
    {
        ElfSectionFlags(bits)
    }

    /// The flags with the known bits among the given ones.
    pub fn from_bits_truncate(bits: u64) -> (r: ElfSectionFlags)
        ensures
            r.0 == bits & 0x7,
    {
        ElfSectionFlags(bits & 0x7)
    }

    /// The raw bits.
    pub fn bits(&self) -> (r: u64)
        ensures
            r == self.0,
    {
        self.0
    }

    /// All bits of `other` are set in `self`.
    pub fn contains(&self, other: ElfSectionFlags) -> (r: bool)
        ensures
            r == (self.0 & other.0 == other.0),
    {
        self.0 & other.0 == other.0
    }
}

/// The error when a string table holds no NUL byte after a name's start.
#[derive(Clone, Copy, Debug, PartialEq, Eq, Structural)]
pub struct FromBytesUntilNulError;

/// A section header of an ELF binary, widened to the 64-bit layout.
#[derive(Clone, Copy, Debug, PartialEq, Eq, Structural)]
pub struct ElfSection {
    /// The offset of the section's name in the section name string table.
    pub sh_name: u32,
    /// The raw section type.
    pub sh_type: u32,
    /// The raw section flags.
    pub sh_flags: u64,
    /// The address of the section in memory.
    pub sh_addr: u64,
    /// The offset of the section in the file.
    pub sh_offset: u64,
    /// The size of the section, in bytes.
    pub sh_size: u64,
    /// A section index, whose meaning depends on the section type.
    pub sh_link: u32,
    /// Extra information, whose meaning depends on the section type.
    pub sh_info: u32,
    /// The alignment of the section.
    pub sh_addralign: u64,
    /// The size of the entries of a section that holds a table.
    pub sh_entsize: u64,
}

/// The section header stored at `off` in `b`, in the 64-bit layout when
/// `is64` holds and in the 32-bit layout otherwise.
pub open spec fn section_at(b: Seq<u8>, off: int, is64: bool) -> ElfSection {
    if is64 {
        ElfSection {
            sh_name: spec_u32_le(b, off) as u32,
            sh_type: spec_u32_le(b, off + 4) as u32,
            sh_flags: spec_u64_le(b, off + 8) as u64,
            sh_addr: spec_u64_le(b, off + 16) as u64,
            sh_offset: spec_u64_le(b, off + 24) as u64,
            sh_size: spec_u64_le(b, off + 32) as u64,
            sh_link: spec_u32_le(b, off + 40) as u32,
            sh_info: spec_u32_le(b, off + 44) as u32,
            sh_addralign: spec_u64_le(b, off + 48) as u64,
            sh_entsize: spec_u64_le(b, off + 56) as u64,
        }
    } else {
        ElfSection {
            sh_name: spec_u32_le(b, off) as u32,
            sh_type: spec_u32_le(b, off + 4) as u32,
            sh_flags: spec_u32_le(b, off + 8) as u64,
            sh_addr: spec_u32_le(b, off + 12) as u64,
            sh_offset: spec_u32_le(b, off + 16) as u64,
            sh_size: spec_u32_le(b, off + 20) as u64,
            sh_link: spec_u32_le(b, off + 24) as u32,
            sh_info: spec_u32_le(b, off + 28) as u32,
            sh_addralign: spec_u32_le(b, off + 32) as u64,
            sh_entsize: spec_u32_le(b, off + 36) as u64,
        }
    }
}

/// The size of an ELF section header: 64 bytes in the 64-bit layout, 40
/// bytes in the 32-bit one.
pub open spec fn shdr_size(is64: bool) -> int {
    if is64 {
        64
    } else {
        40
    }
}

/// Parses the section header `index` of the section header table `table`
/// with `elf::section::SectionHeaderTable::get`, read little-endian: ELF64
/// headers of 64 bytes when `is64` holds, ELF32 headers of 40 bytes
/// otherwise. As the crate's source shows, it returns a header exactly when
/// one lies whole in the table at `index` times the header size, and then
/// reads the fields one after the other from there, widening the 32-bit
/// fields of an ELF32 header to 64 bits.
#[verifier::external_body]
fn section_header_at(table: &[u8], is64: bool, index: usize) -> (r: Option<ElfSection>)
    ensures
        r is Some <==> (index + 1) * shdr_size(is64) <= table@.len(),
        r matches Some(s) ==> s == section_at(table@, index * shdr_size(is64), is64),
{
    let class = if is64 { Class::ELF64 } else { Class::ELF32 };
    match SectionHeaderTable::new(LittleEndian, class, table).get(index) {
        Ok(h) => Some(ElfSection {
            sh_name: h.sh_name, sh_type: h.sh_type, sh_flags: h.sh_flags, sh_addr: h.sh_addr,
            sh_offset: h.sh_offset, sh_size: h.sh_size, sh_link: h.sh_link, sh_info: h.sh_info,
            sh_addralign: h.sh_addralign, sh_entsize: h.sh_entsize,
        }),
        Err(_) => None,
    }
}

/// A section header read from the bytes after the first `k` ones is the one
/// stored `k` bytes further in the whole.
proof fn lemma_section_at_shift(b: Seq<u8>, k: int, off: int, is64: bool)
    requires
        0 <= k,
        0 <= off,
        k + off + shdr_size(is64) <= b.len(),
    ensures
        section_at(b.subrange(k, b.len() as int), off, is64) == section_at(b, k + off, is64),
{
    let t = b.subrange(k, b.len() as int);
    assert forall|p: int| off <= p && p + 4 <= off + shdr_size(is64) implies #[trigger] spec_u32_le(t, p)
        == spec_u32_le(b, k + p) by {
        assert(t.subrange(p, p + 4) =~= b.subrange(k + p, k + p + 4));
        lemma_u32_le_same(t, p, b, k + p);
    }
    assert(spec_u32_le(t, off) == spec_u32_le(b, k + off));
    assert(spec_u32_le(t, off + 4) == spec_u32_le(b, k + off + 4));
    assert(spec_u32_le(t, off + 8) == spec_u32_le(b, k + off + 8));
    assert(spec_u32_le(t, off + 12) == spec_u32_le(b, k + off + 12));
    assert(spec_u32_le(t, off + 16) == spec_u32_le(b, k + off + 16));
    assert(spec_u32_le(t, off + 20) == spec_u32_le(b, k + off + 20));
    assert(spec_u32_le(t, off + 24) == spec_u32_le(b, k + off + 24));
    assert(spec_u32_le(t, off + 28) == spec_u32_le(b, k + off + 28));
    assert(spec_u32_le(t, off + 32) == spec_u32_le(b, k + off + 32));
    assert(spec_u32_le(t, off + 36) == spec_u32_le(b, k + off + 36));
    if is64 {
        assert(spec_u32_le(t, off + 40) == spec_u32_le(b, k + off + 40));
        assert(spec_u32_le(t, off + 44) == spec_u32_le(b, k + off + 44));
        assert(spec_u32_le(t, off + 48) == spec_u32_le(b, k + off + 48));
        assert(spec_u32_le(t, off + 52) == spec_u32_le(b, k + off + 52));
        assert(spec_u32_le(t, off + 56) == spec_u32_le(b, k + off + 56));
        assert(spec_u32_le(t, off + 60) == spec_u32_le(b, k + off + 60));
    }
}

impl ElfSection {
    /// Get the section type as an [`ElfSectionType`] enum variant.
    pub fn section_type(&self) -> (r: ElfSectionType)
        ensures
            r == spec_section_type(self.sh_type),
    {
        let t = self.sh_type;
        if t == 0 {
            ElfSectionType::Unused
        } else if t == 1 {
            ElfSectionType::ProgramSection
        } else if t == 2 {
            ElfSectionType::LinkerSymbolTable
        } else if t == 3 {
            ElfSectionType::StringTable
        } else if t == 4 {
            ElfSectionType::RelaRelocation
        } else if t == 5 {
            ElfSectionType::SymbolHashTable
        } else if t == 6 {
            ElfSectionType::DynamicLinkingTable
        } else if t == 7 {
            ElfSectionType::Note
        } else if t == 8 {
            ElfSectionType::Uninitialized
        } else if t == 9 {
            ElfSectionType::RelRelocation
        } else if t == 10 {
            ElfSectionType::Reserved
        } else if t == 11 {
            ElfSectionType::DynamicLoaderSymbolTable
        } else if 0x6000_0000 <= t && t <= 0x6FFF_FFFF {
            ElfSectionType::EnvironmentSpecific
        } else if 0x7000_0000 <= t && t <= 0x7FFF_FFFF {
            ElfSectionType::ProcessorSpecific
        } else {
            ElfSectionType::Unused
        }
    }

    /// Get the raw section type.
    pub fn section_type_raw(&self) -> (r: u32)
        ensures
            r == self.sh_type,
    {
        self.sh_type
    }

    /// Get the section's flags, all bits kept.
    pub fn flags(&self) -> (r: ElfSectionFlags)
        ensures
            r.0 == self.sh_flags,
    {
        ElfSectionFlags::from_bits_retain(self.sh_flags)
    }

    /// The section occupies memory during execution.
    pub fn is_allocated(&self) -> (r: bool)
        ensures
            r == (self.sh_flags & 0x2 == 0x2),
    {
        self.flags().contains(ElfSectionFlags(ElfSectionFlags::ALLOCATED_BIT))
    }

    /// The start address of the section.
    pub fn start_address(&self) -> (r: u64)
        ensures
            r == self.sh_addr,
    {
        self.sh_addr
    }

    /// The end address of the section.
    pub fn end_address(&self) -> (r: u64)
        requires
            self.sh_addr + self.sh_size <= u64::MAX,
        ensures
            r == self.sh_addr + self.sh_size,
    {
        self.sh_addr + self.sh_size
    }

    /// The size of the section, in bytes.
    pub fn size(&self) -> (r: u64)
        ensures
            r == self.sh_size,
    {
        self.sh_size
    }

    /// The alignment of the section.
    pub fn addralign(&self) -> (r: u64)
        ensures
            r == self.sh_addralign,
    {
        self.sh_addralign
    }

    /// Fetches the section name from the string table: the bytes from the
    /// name's offset up to the next NUL byte, without it.
    pub fn name_from_string_table(&self, string_table: &[u8]) -> (r: Result<Vec<u8>, FromBytesUntilNulError>)
        requires
            self.sh_name <= string_table@.len(),
        ensures
            (exists|i: int|
                self.sh_name <= i < string_table@.len() && string_table@[i] == 0) <==> r is Ok,
            r matches Ok(n) ==> {
                let end = self.sh_name + n@.len();
                &&& end < string_table@.len()
                &&& string_table@[end] == 0
                &&& n@ == string_table@.subrange(self.sh_name as int, end)
                &&& forall|j: int| 0 <= j < n@.len() ==> n@[j] != 0
            },
    {
        let start = self.sh_name as usize;
        let mut i: usize = start;
        while i < string_table.len() && string_table[i] != 0
            invariant
                start <= i <= string_table@.len(),
                forall|j: int| start <= j < i ==> string_table@[j] != 0,
            decreases string_table@.len() - i,
        {
            i = i + 1;
        }
        if i == string_table.len() {
            return Err(FromBytesUntilNulError);
        }
        let n = copy_range(string_table, start, i);
        Ok(n)
    }

    /// The section name from the string table, decoded as UTF-8 up to its
    /// NUL byte.
    pub fn name(&self, string_table: &[u8]) -> (r: Result<String, StringError>)
        requires
            self.sh_name <= string_table@.len(),
        ensures
            r matches Ok(s) ==> spec_parse_string(
                string_table@.subrange(self.sh_name as int, string_table@.len() as int),
            ) == Ok::<Seq<char>, StringError>(s@),
            r matches Err(e) ==> spec_parse_string(
                string_table@.subrange(self.sh_name as int, string_table@.len() as int),
            ) == Err::<Seq<char>, StringError>(e),
    {
        let rest = copy_range(string_table, self.sh_name as usize, string_table.len());
        parse_slice_as_string(rest.as_slice())
    }
}

/// The bytes `b` hold an ELF sections tag.
pub open spec fn elf_sections_tag_wf(b: Seq<u8>) -> bool {
    tag_bytes_wf(b) && tag_typ(b) == 9 && b.len() >= 20
}

/// The entry size of the ELF sections tag `b`.
pub open spec fn elf_entry_size(b: Seq<u8>) -> int {
    spec_u32_le(b, 12)
}

/// The entry size of the ELF sections tag `b` is that of a 32-bit or a 64-bit
/// section header.
pub open spec fn elf_class_known(b: Seq<u8>) -> bool {
    elf_entry_size(b) == 40 || elf_entry_size(b) == 64
}

/// The section headers of the ELF sections tag `b`: one every entry size
/// bytes of the table, as many as fit in it.
pub open spec fn elf_sections_of(b: Seq<u8>) -> Seq<ElfSection> {
    Seq::new(
        ((b.len() - 20) / elf_entry_size(b)) as nat,
        |i: int| section_at(b, 20 + i * elf_entry_size(b), elf_entry_size(b) == 64),
    )
}

/// The index of the section name string table that the ELF sections tag `b`
/// states, if any: its `shndx` field as a 16-bit section index, where `0`
/// stands for none and `0xFFFF` for the link field of the first section.
pub open spec fn elf_strtab_index(b: Seq<u8>) -> Option<int> {
    let idx = spec_u32_le(b, 16) % 65536;
    if idx == 0 {
        None
    } else if idx == 0xffff {
        Some(elf_sections_of(b)[0].sh_link as int)
    } else {
        Some(idx)
    }
}

/// This tag contains the section header table from an ELF binary.
#[derive(Clone, Debug, PartialEq, Eq)]
pub struct ElfSectionsTag {
    bytes: Vec<u8>,
}

impl View for ElfSectionsTag {
    type V = Seq<u8>;

    closed spec fn view(&self) -> Seq<u8> {
        self.bytes@
    }
}

impl ElfSectionsTag {
    /// The size of the fixed part of the tag, in bytes.
    pub const BASE_SIZE: u32 = 20;

    /// The bytes hold an ELF sections tag.
    pub open spec fn wf(&self) -> bool {
        elf_sections_tag_wf(self@)
    }

    /// Create a new ElfSectionsTag with the given data.
    pub fn new(number_of_sections: u32, entry_size: u32, shndx: u32, sections: &[u8]) -> (r: ElfSectionsTag)
        requires
            20 + sections@.len() <= u32::MAX,
        ensures
            r@ == tag_with_payload(
                9,
                u32_le_bytes(number_of_sections as int) + u32_le_bytes(entry_size as int)
                    + u32_le_bytes(shndx as int) + sections@,
            ),
            r.wf(),
            spec_u32_le(r@, 8) == number_of_sections,
            spec_u32_le(r@, 12) == entry_size,
            spec_u32_le(r@, 16) == shndx,
            r@.subrange(20, r@.len() as int) == sections@,
    {
        let mut payload: Vec<u8> = Vec::new();
        push_u32_le(&mut payload, number_of_sections);
        push_u32_le(&mut payload, entry_size);
        push_u32_le(&mut payload, shndx);
        push_bytes(&mut payload, sections);
        let bytes = new_tag_bytes(TagType::ElfSections, payload.as_slice());
        proof {
            let p = u32_le_bytes(number_of_sections as int) + u32_le_bytes(entry_size as int)
                + u32_le_bytes(shndx as int) + sections@;
            assert(payload@ =~= p);
            lemma_tag_with_payload(9, p);
            let b = bytes@;
            assert(b.subrange(8, 12) =~= u32_le_bytes(number_of_sections as int));
            assert(b.subrange(12, 16) =~= u32_le_bytes(entry_size as int));
            assert(b.subrange(16, 20) =~= u32_le_bytes(shndx as int));
            assert(b.subrange(20, b.len() as int) =~= sections@);
            lemma_u32_le(b, 8, number_of_sections as int);
            lemma_u32_le(b, 12, entry_size as int);
            lemma_u32_le(b, 16, shndx as int);
        }
        ElfSectionsTag { bytes }
    }

    /// Returns the amount of sections.
    pub fn number_of_sections(&self) -> (r: u32)
        requires
            self.wf(),
        ensures
            r == spec_u32_le(self@, 8),
    {
        read_u32_le(self.bytes.as_slice(), 8)
    }

    /// Returns the size of each entry.
    pub fn entry_size(&self) -> (r: u32)
        requires
            self.wf(),
        ensures
            r == elf_entry_size(self@),
    {
        read_u32_le(self.bytes.as_slice(), 12)
    }

    /// Returns the index of the section header string table.
    pub fn shndx(&self) -> (r: u32)
        requires
            self.wf(),
        ensures
            r == spec_u32_le(self@, 16),
    {
        read_u32_le(self.bytes.as_slice(), 16)
    }

    /// Get an iterator over the active ELF sections.
    pub fn sections(&self) -> (r: ElfSectionIter<'_>)
        requires
            self.wf(),
            elf_class_known(self@),
        ensures
            r.inv(),
            r.remaining() == elf_active_sections(self@),
    {
        let entry_size = read_u32_le(self.bytes.as_slice(), 12) as usize;
        let entries = (self.bytes.len() - 20) / entry_size;
        let r = ElfSectionIter { tag: self, i: 0, entries };
        assert(elf_sections_of(self@).subrange(0, entries as int) =~= elf_sections_of(self@));
        r
    }

    /// Returns the section `i` of the table.
    fn section(&self, i: usize) -> (r: ElfSection)
        requires
            self.wf(),
            elf_class_known(self@),
            i < elf_sections_of(self@).len(),
        ensures
            r == elf_sections_of(self@)[i as int],
    {
        let b = self.bytes.as_slice();
        let entry_size = read_u32_le(b, 12) as usize;
        proof {
            lemma_entry_fits(i as int, (b@.len() - 20) / (entry_size as int), entry_size as int, b@.len() - 20);
            lemma_section_at_shift(b@, 20, i * entry_size, entry_size == 64);
        }
        let r = section_header_at(&b[20..b.len()], entry_size == 64, i);
        r.unwrap()
    }

    /// Returns the header of the section name string table, if the tag
    /// names one and the table holds it.
    pub fn string_table_section(&self) -> (r: Option<ElfSection>)
        requires
            self.wf(),
            elf_class_known(self@),
            spec_u32_le(self@, 16) % 65536 == 0xffff ==> elf_sections_of(self@).len() > 0,
        ensures
            r == (match elf_strtab_index(self@) {
                None => None,
                Some(i) => if i < elf_sections_of(self@).len() {
                    Some(elf_sections_of(self@)[i])
                } else {
                    None
                },
            }),
    {
        let b = self.bytes.as_slice();
        let entry_size = read_u32_le(b, 12) as usize;
        let count = (b.len() - 20) / entry_size;
        let idx = read_u32_le(b, 16) % 65536;
        let strtab_index: usize = if idx == 0 {
            return None;
        } else if idx == 0xffff {
            self.section(0).sh_link as usize
        } else {
            idx as usize
        };
        if strtab_index < count {
            Some(self.section(strtab_index))
        } else {
            None
        }
    }
}

/// The entry `i` of `n` entries of size `ds` that fit in `len` bytes lies
/// within them.
proof fn lemma_entry_fits(i: int, n: int, ds: int, len: int)
    requires
        0 <= i < n,
        ds > 0,
        len >= 0,
        n == len / ds,
    ensures
        0 <= i * ds,
        i * ds + ds <= len,
{
    assert(0 <= i * ds) by (nonlinear_arith)
        requires
            0 <= i,
            ds > 0,
    ;
    assert(i * ds + ds <= len) by (nonlinear_arith)
        requires
            0 <= i < n,
            ds > 0,
            len >= 0,
            n == len / ds,
    ;
}

/// The active sections among `s`: those whose raw type is not `0`
/// ([`ElfSectionType::Unused`]).
pub open spec fn active_sections(s: Seq<ElfSection>) -> Seq<ElfSection> {
    s.filter(|x: ElfSection| x.sh_type != 0)
}

/// The active section headers of the ELF sections tag `b`, in table order.
pub open spec fn elf_active_sections(b: Seq<u8>) -> Seq<ElfSection> {
    active_sections(elf_sections_of(b))
}

/// Filtering a sequence that starts with `a` keeps `a` first when it is
/// active, and drops it otherwise.
pub proof fn lemma_active_cons(a: ElfSection, rest: Seq<ElfSection>)
    ensures
        a.sh_type != 0 ==> active_sections(seq![a] + rest) == seq![a] + active_sections(rest),
        a.sh_type == 0 ==> active_sections(seq![a] + rest) == active_sections(rest),
{
    rest.lemma_filter_prepend(a, |x: ElfSection| x.sh_type != 0);
    assert(Seq::<ElfSection>::empty() + active_sections(rest) =~= active_sections(rest));
}

/// An iterator over the active section headers of an [`ElfSectionsTag`]:
/// those of type [`ElfSectionType::Unused`] are skipped.
#[derive(Clone, Debug)]
pub struct ElfSectionIter<'a> {
    tag: &'a ElfSectionsTag,
    i: usize,
    entries: usize,
}

impl<'a> ElfSectionIter<'a> {
    /// The iterator is in step with its tag.
    pub closed spec fn inv(&self) -> bool {
        &&& self.tag.wf()
        &&& elf_class_known(self.tag@)
        &&& self.entries == elf_sections_of(self.tag@).len()
        &&& self.i <= self.entries
    }

    /// The active section headers that are still to come.
    pub closed spec fn remaining(&self) -> Seq<ElfSection> {
        active_sections(elf_sections_of(self.tag@).subrange(self.i as int, self.entries as int))
    }

    /// Returns the next active section header.
    pub fn next(&mut self) -> (r: Option<ElfSection>)
        requires
            old(self).inv(),
        ensures
            final(self).inv(),
            old(self).remaining().len() == 0 ==> r is None && final(self).remaining().len() == 0,
            old(self).remaining().len() > 0 ==> r == Some(old(self).remaining()[0])
                && final(self).remaining() == old(self).remaining().drop_first(),
    {
        let ghost all = elf_sections_of(self.tag@);
        let ghost n = self.entries as int;
        while self.i < self.entries
            invariant
                self.tag.wf(),
                elf_class_known(self.tag@),
                all == elf_sections_of(self.tag@),
                n == self.entries,
                self.entries == all.len(),
                self.i <= self.entries,
                active_sections(all.subrange(self.i as int, n)) == old(self).remaining(),
            decreases self.entries - self.i,
        {
            let s = self.tag.section(self.i);
            proof {
                let rest = all.subrange(self.i as int, n);
                assert(rest =~= seq![all[self.i as int]] + all.subrange(self.i + 1, n));
                lemma_active_cons(all[self.i as int], all.subrange(self.i + 1, n));
            }
            self.i = self.i + 1;
            if s.sh_type != 0 {
                return Some(s);
            }
        }
        assert(all.subrange(self.i as int, n) =~= Seq::<ElfSection>::empty());
        assert(active_sections(Seq::<ElfSection>::empty()) =~= Seq::<ElfSection>::empty());
        None
    }
}

impl TagTrait for ElfSectionsTag {
    open spec fn spec_type() -> TagType {
        TagType::ElfSections
    }

    open spec fn spec_from_bytes(b: Seq<u8>) -> Option<Seq<u8>> {
        if elf_sections_tag_wf(b) {
            Some(b)
        } else {
            None
        }
    }

    open spec fn spec_bytes(v: Seq<u8>) -> Seq<u8> {
        v
    }

    open spec fn spec_wf(v: Seq<u8>) -> bool {
        elf_sections_tag_wf(v)
    }

    proof fn lemma_roundtrip(v: Seq<u8>) {
    }

    fn id() -> (r: TagType) {
        TagType::ElfSections
    }

    fn from_generic(tag: &GenericTag) -> (r: Option<ElfSectionsTag>) {
        let b = tag.as_bytes();
        if tag.typ().val() == 9 && b.len() >= 20 {
            Some(ElfSectionsTag { bytes: copy_range(b, 0, b.len()) })
        } else {
            None
        }
    }

    fn as_bytes(&self) -> (r: Vec<u8>) {
        copy_range(self.bytes.as_slice(), 0, self.bytes.len())
    }
}

/// The section types follow the numbering of the ELF gABI: `0` SHT_NULL,
/// `1` SHT_PROGBITS, `2` SHT_SYMTAB, `3` SHT_STRTAB, `4` SHT_RELA, `5`
/// SHT_HASH, `6` SHT_DYNAMIC, `7` SHT_NOTE, `8` SHT_NOBITS, `9` SHT_REL, `10`
/// SHT_SHLIB, `11` SHT_DYNSYM, the environment-specific range from
/// SHT_LOOS to SHT_HIOS and the processor-specific range from SHT_LOPROC to
/// SHT_HIPROC; any other type counts as unused.
pub proof fn lemma_section_type_numbering(t: u32)
    ensures
        t == 0 ==> spec_section_type(t) == ElfSectionType::Unused,
        t == 1 ==> spec_section_type(t) == ElfSectionType::ProgramSection,
        t == 2 ==> spec_section_type(t) == ElfSectionType::LinkerSymbolTable,
        t == 3 ==> spec_section_type(t) == ElfSectionType::StringTable,
        t == 4 ==> spec_section_type(t) == ElfSectionType::RelaRelocation,
        t == 5 ==> spec_section_type(t) == ElfSectionType::SymbolHashTable,
        t == 6 ==> spec_section_type(t) == ElfSectionType::DynamicLinkingTable,
        t == 7 ==> spec_section_type(t) == ElfSectionType::Note,
        t == 8 ==> spec_section_type(t) == ElfSectionType::Uninitialized,
        t == 9 ==> spec_section_type(t) == ElfSectionType::RelRelocation,
        t == 10 ==> spec_section_type(t) == ElfSectionType::Reserved,
        t == 11 ==> spec_section_type(t) == ElfSectionType::DynamicLoaderSymbolTable,
        0x6000_0000 <= t <= 0x6FFF_FFFF ==> spec_section_type(t) == ElfSectionType::EnvironmentSpecific,
        0x7000_0000 <= t <= 0x7FFF_FFFF ==> spec_section_type(t) == ElfSectionType::ProcessorSpecific,
        (12 <= t < 0x6000_0000 || 0x7FFF_FFFF < t) ==> spec_section_type(t) == ElfSectionType::Unused,
{
}

} // verus!
