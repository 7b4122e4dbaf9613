//! Module for [`MemoryMapTag`], [`EFIMemoryMapTag`] and [`BasicMemoryInfoTag`]
//! and corresponding helper types.
use crate::bytes::{copy_range, lemma_u32_le, lemma_u64_le, push_bytes, push_u32_le, push_u64_le, read_u32_le, read_u64_le, spec_u32_le, spec_u64_le, u32_le_bytes, u64_le_bytes};
use crate::bytes::lemma_split;
use crate::tag::{header_bytes, lemma_tag_with_payload, new_tag_bytes, tag_bytes_wf, tag_size, tag_typ, tag_with_payload, GenericTag, TagHeader, TagTrait, TagType};
use vstd::prelude::*;
use vstd::std_specs::convert::FromSpec;

verus! {

/// ABI-friendly version of [`MemoryAreaType`].
#[derive(Clone, Copy, Debug, PartialEq, Eq, Structural)]
pub struct MemoryAreaTypeId(pub u32);

/// Abstraction over defined memory types for the memory map as well as custom
/// ones. Types 1 to 5 are defined in the Multiboot2 spec and correspond to the
/// entry types of e820 memory maps.
#[derive(Clone, Copy, Debug, PartialEq, Eq, Structural)]
pub enum MemoryAreaType {
    /// Available memory free to be used by the OS.
    Available,
    /// A reserved area that must not be used.
    Reserved,
    /// Usable memory holding ACPI information.
    AcpiAvailable,
    /// Reserved memory which needs to be preserved on hibernation.
    ReservedHibernate,
    /// Memory which is occupied by defective RAM modules.
    Defective,
    /// Custom memory map type.
    Custom(u32),
}

/// The memory area type that a numeric id stands for.
pub open spec fn spec_area_type_from_id(v: u32) -> MemoryAreaType {
    if v == 1 {
        MemoryAreaType::Available
    } else if v == 2 {
        MemoryAreaType::Reserved
    } else if v == 3 {
        MemoryAreaType::AcpiAvailable
    } else if v == 4 {
        MemoryAreaType::ReservedHibernate
    } else if v == 5 {
        MemoryAreaType::Defective
    } else {
        MemoryAreaType::Custom(v)
    }
}

/// The numeric id of a memory area type.
pub open spec fn spec_area_type_id(t: MemoryAreaType) -> u32 {
    match t {
        MemoryAreaType::Available => 1,
        MemoryAreaType::Reserved => 2,
        MemoryAreaType::AcpiAvailable => 3,
        MemoryAreaType::ReservedHibernate => 4,
        MemoryAreaType::Defective => 5,
        MemoryAreaType::Custom(v) => v,
    }
}

impl From<u32> for MemoryAreaTypeId {
    fn from(value: u32) -> (r: MemoryAreaTypeId) {
        MemoryAreaTypeId(value)
    }
}

impl vstd::std_specs::convert::FromSpecImpl<u32> for MemoryAreaTypeId {
    open spec fn obeys_from_spec() -> bool {
        true
    }

    open spec fn from_spec(value: u32) -> MemoryAreaTypeId {
        MemoryAreaTypeId(value)
    }
}

impl From<MemoryAreaTypeId> for u32 {
    fn from(value: MemoryAreaTypeId) -> (r: u32) {
        value.0
    }
}

impl vstd::std_specs::convert::FromSpecImpl<MemoryAreaTypeId> for u32 {
    open spec fn obeys_from_spec() -> bool {
        true
    }

    open spec fn from_spec(value: MemoryAreaTypeId) -> u32 {
        value.0
    }
}

impl From<MemoryAreaTypeId> for MemoryAreaType {
    fn from(value: MemoryAreaTypeId) -> (r: MemoryAreaType) {
        let v = value.0;
        if v == 1 {
            MemoryAreaType::Available
        } else if v == 2 {
            MemoryAreaType::Reserved
        } else if v == 3 {
            MemoryAreaType::AcpiAvailable
        } else if v == 4 {
            MemoryAreaType::ReservedHibernate
        } else if v == 5 {
            MemoryAreaType::Defective
        } else {
            MemoryAreaType::Custom(v)
        }
    }
}

impl vstd::std_specs::convert::FromSpecImpl<MemoryAreaTypeId> for MemoryAreaType {
    open spec fn obeys_from_spec() -> bool {
        true
    }

    open spec fn from_spec(value: MemoryAreaTypeId) -> MemoryAreaType {
        spec_area_type_from_id(value.0)
    }
}

impl From<MemoryAreaType> for MemoryAreaTypeId {
    fn from(value: MemoryAreaType) -> (r: MemoryAreaTypeId) {
        let v = match value {
            MemoryAreaType::Available => 1,
            MemoryAreaType::Reserved => 2,
            MemoryAreaType::AcpiAvailable => 3,
            MemoryAreaType::ReservedHibernate => 4,
            MemoryAreaType::Defective => 5,
            MemoryAreaType::Custom(val) => val,
        };
        MemoryAreaTypeId(v)
    }
}

impl vstd::std_specs::convert::FromSpecImpl<MemoryAreaType> for MemoryAreaTypeId {
    open spec fn obeys_from_spec() -> bool {
        true
    }

    open spec fn from_spec(value: MemoryAreaType) -> MemoryAreaTypeId {
        MemoryAreaTypeId(spec_area_type_id(value))
    }
}

/// Converting a type id to a memory area type and back gives the id again.
pub proof fn lemma_area_type_roundtrip(v: u32)
    ensures
        spec_area_type_id(spec_area_type_from_id(v)) == v,
{
}

/// A descriptor for an available or taken area of physical memory.
#[derive(Clone, Copy, Debug, PartialEq, Eq, Structural)]
pub struct MemoryArea {
    base_addr: u64,
    length: u64,
    typ: MemoryAreaTypeId,
    _reserved: u32,
}

/// Size in bytes of a [`MemoryArea`] in a memory map.
pub const MEMORY_AREA_SIZE: u32 = 24;

/// The bytes of the memory area `a`.
#[verifier::opaque]
pub open spec fn area_bytes(a: MemoryArea) -> Seq<u8> {
    u64_le_bytes(a.spec_base_addr() as int) + u64_le_bytes(a.spec_length() as int) + u32_le_bytes(
        a.spec_typ().0 as int,
    ) + u32_le_bytes(a.spec_reserved() as int)
}

/// The memory area stored at `off` in `b`.
pub open spec fn area_at(b: Seq<u8>, off: int) -> MemoryArea {
    MemoryArea::spec_new(
        spec_u64_le(b, off) as u64,
        spec_u64_le(b, off + 8) as u64,
        MemoryAreaTypeId(spec_u32_le(b, off + 16) as u32),
        spec_u32_le(b, off + 20) as u32,
    )
}

/// The memory areas `areas`, one after the other.
pub open spec fn areas_bytes(areas: Seq<MemoryArea>) -> Seq<u8>
    decreases areas.len(),
{
    if areas.len() == 0 {
        seq![]
    } else {
        areas_bytes(areas.drop_last()) + area_bytes(areas.last())
    }
}

/// A memory area is 24 bytes long.
pub proof fn lemma_area_bytes_len(a: MemoryArea)
    ensures
        area_bytes(a).len() == 24,
{
    reveal(area_bytes);
}

/// The bytes of `n` memory areas are `24 * n` bytes long.
pub proof fn lemma_areas_bytes_len(areas: Seq<MemoryArea>)
    ensures
        areas_bytes(areas).len() == 24 * areas.len(),
    decreases areas.len(),
{
    if areas.len() > 0 {
        lemma_areas_bytes_len(areas.drop_last());
        lemma_area_bytes_len(areas.last());
    }
}

/// The `i`-th memory area is stored at offset `24 * i`.
pub proof fn lemma_areas_bytes_at(areas: Seq<MemoryArea>, i: int)
    requires
        0 <= i < areas.len(),
    ensures
        areas_bytes(areas).subrange(24 * i, 24 * i + 24) == area_bytes(areas[i]),
    decreases areas.len(),
{
    let init = areas.drop_last();
    lemma_areas_bytes_len(init);
    lemma_area_bytes_len(areas.last());
    let b = areas_bytes(areas);
    if i < areas.len() - 1 {
        lemma_areas_bytes_at(init, i);
        assert(b.subrange(24 * i, 24 * i + 24) =~= areas_bytes(init).subrange(24 * i, 24 * i + 24));
    } else {
        assert(b.subrange(24 * i, 24 * i + 24) =~= area_bytes(areas.last()));
    }
}

pub proof fn lemma_area_roundtrip(b: Seq<u8>, off: int, a: MemoryArea)
    requires
        0 <= off,
        off + 24 <= b.len(),
        b.subrange(off, off + 24) == area_bytes(a),
    ensures
        area_at(b, off) == a,
{
    reveal(area_bytes);
    let p0 = u64_le_bytes(a.spec_base_addr() as int);
    let p1 = p0 + u64_le_bytes(a.spec_length() as int);
    let p2 = p1 + u32_le_bytes(a.spec_typ().0 as int);
    lemma_split(b, off, p2, u32_le_bytes(a.spec_reserved() as int));
    lemma_split(b, off, p1, u32_le_bytes(a.spec_typ().0 as int));
    lemma_split(b, off, p0, u64_le_bytes(a.spec_length() as int));
    lemma_u64_le(b, off, a.spec_base_addr() as int);
    lemma_u64_le(b, off + 8, a.spec_length() as int);
    lemma_u32_le(b, off + 16, a.spec_typ().0 as int);
    lemma_u32_le(b, off + 20, a.spec_reserved() as int);
}

impl MemoryArea {
    /// A memory area with the given fields.
    pub closed spec fn spec_new(base_addr: u64, length: u64, typ: MemoryAreaTypeId, reserved: u32) -> MemoryArea {
        MemoryArea { base_addr, length, typ, _reserved: reserved }
    }

    /// The start address of the memory region.
    pub closed spec fn spec_base_addr(&self) -> u64 {
        self.base_addr
    }

    /// The size, in bytes, of the memory region.
    pub closed spec fn spec_length(&self) -> u64 {
        self.length
    }

    /// The type of the memory region.
    pub closed spec fn spec_typ(&self) -> MemoryAreaTypeId {
        self.typ
    }

    /// The reserved field.
    pub closed spec fn spec_reserved(&self) -> u32 {
        self._reserved
    }

    /// Create a new MemoryArea.
    pub fn new(base_addr: u64, length: u64, typ: MemoryAreaTypeId) -> (r: MemoryArea)
        ensures
            r == MemoryArea::spec_new(base_addr, length, typ, 0),
            r.spec_base_addr() == base_addr,
            r.spec_length() == length,
            r.spec_typ() == typ,
    {
        MemoryArea { base_addr, length, typ, _reserved: 0 }
    }

    /// The start address of the memory region.
    pub fn start_address(&self) -> (r: u64)
        ensures
            r == self.spec_base_addr(),
    {
        self.base_addr
    }

    /// The end address of the memory region.
    pub fn end_address(&self) -> (r: u64)
        requires
            self.spec_base_addr() + self.spec_length() <= u64::MAX,
        ensures
            r == self.spec_base_addr() + self.spec_length(),
    {
        self.base_addr + self.length
    }

    /// The size, in bytes, of the memory region.
    pub fn size(&self) -> (r: u64)
        ensures
            r == self.spec_length(),
    {
        self.length
    }

    /// The type of the memory region.
    pub fn typ(&self) -> (r: MemoryAreaTypeId)
        ensures
            r == self.spec_typ(),
    {
        self.typ
    }

    /// Appends the bytes of the memory area.
    fn push_bytes_to(&self, out: &mut Vec<u8>)
        ensures
            final(out)@ == old(out)@ + area_bytes(*self),
    {
        push_u64_le(out, self.base_addr);
        push_u64_le(out, self.length);
        push_u32_le(out, self.typ.0);
        push_u32_le(out, self._reserved);
        reveal(area_bytes);
        assert(final(out)@ =~= old(out)@ + area_bytes(*self));
    }

    /// Reads the memory area stored at `off`.
    fn read_at(b: &[u8], off: usize) -> (r: MemoryArea)
        requires
            off + 24 <= b@.len(),
        ensures
            r == area_at(b@, off as int),
    {
        let _len = b.len();
        MemoryArea {
            base_addr: read_u64_le(b, off),
            length: read_u64_le(b, off + 8),
            typ: MemoryAreaTypeId(read_u32_le(b, off + 16)),
            _reserved: read_u32_le(b, off + 20),
        }
    }
}

/// The payload of a memory map tag with the given areas.
pub open spec fn memory_map_payload(areas: Seq<MemoryArea>) -> Seq<u8> {
    u32_le_bytes(24) + u32_le_bytes(0) + areas_bytes(areas)
}

/// The memory areas that the memory map tag `b` holds.
pub open spec fn memory_map_areas(b: Seq<u8>) -> Seq<MemoryArea> {
    Seq::new(((b.len() - 16) / 24) as nat, |i: int| area_at(b, 16 + 24 * i))
}

/// The memory areas that a memory map tag is built with are the ones it
/// gives back.
pub proof fn lemma_memory_map_roundtrip(areas: Seq<MemoryArea>)
    requires
        16 + 24 * areas.len() <= u32::MAX,
    ensures
        ({
            let b = tag_with_payload(6, memory_map_payload(areas));
            &&& memory_map_tag_wf(b)
            &&& spec_u32_le(b, 8) == 24
            &&& memory_map_areas(b) == areas
        }),
{
    let p = memory_map_payload(areas);
    lemma_areas_bytes_len(areas);
    lemma_tag_with_payload(6, p);
    let b = tag_with_payload(6, p);
    assert(b.subrange(8, 12) =~= u32_le_bytes(24));
    lemma_u32_le(b, 8, 24);
    assert forall|i: int| 0 <= i < areas.len() implies #[trigger] memory_map_areas(b)[i] == areas[i] by {
        lemma_areas_bytes_at(areas, i);
        assert(b.subrange(16 + 24 * i, 16 + 24 * i + 24) =~= areas_bytes(areas).subrange(24 * i, 24 * i + 24));
        lemma_area_roundtrip(b, 16 + 24 * i, areas[i]);
    }
    assert(memory_map_areas(b) =~= areas);
}
/// Basic memory info tag: the amount of lower and upper memory, in kilobytes.
#[derive(Clone, Copy, Debug, PartialEq, Eq, Structural)]
pub struct BasicMemoryInfoTag {
    header: TagHeader,
    memory_lower: u32,
    memory_upper: u32,
}

impl View for BasicMemoryInfoTag {
    type V = BasicMemoryInfoTag;

    open spec fn view(&self) -> BasicMemoryInfoTag {
        *self
    }
}

impl BasicMemoryInfoTag {
    /// The size of the tag, in bytes.
    pub const BASE_SIZE: u32 = 16;

    /// The tag's header.
    pub closed spec fn spec_header(&self) -> TagHeader {
        self.header
    }

    /// The lower memory bound.
    pub closed spec fn spec_memory_lower(&self) -> u32 {
        self.memory_lower
    }

    /// The upper memory bound.
    pub closed spec fn spec_memory_upper(&self) -> u32 {
        self.memory_upper
    }

    /// Constructs a new tag.
    pub fn new(memory_lower: u32, memory_upper: u32) -> (r: BasicMemoryInfoTag)
        ensures
            BasicMemoryInfoTag::spec_wf(r),
            r.spec_header() == (TagHeader { typ: 4, size: 16 }),
            BasicMemoryInfoTag::spec_bytes(r) == header_bytes(4, 16) + u32_le_bytes(memory_lower as int)
                + u32_le_bytes(memory_upper as int),
            r.spec_memory_lower() == memory_lower,
            r.spec_memory_upper() == memory_upper,
    {
        BasicMemoryInfoTag { header: TagHeader::new(TagType::BasicMeminfo, 16), memory_lower, memory_upper }
    }

    /// Returns the lower memory bound.
    pub fn memory_lower(&self) -> (r: u32)
        ensures
            r == self.spec_memory_lower(),
    {
        self.memory_lower
    }

    /// Returns the upper memory bound.
    pub fn memory_upper(&self) -> (r: u32)
        ensures
            r == self.spec_memory_upper(),
    {
        self.memory_upper
    }

}

impl TagTrait for BasicMemoryInfoTag {
    open spec fn spec_type() -> TagType {
        TagType::BasicMeminfo
    }

    closed spec fn spec_from_bytes(b: Seq<u8>) -> Option<BasicMemoryInfoTag> {
        if b.len() >= 16 && tag_typ(b) == 4 {
            Some(BasicMemoryInfoTag { header: TagHeader { typ: tag_typ(b) as u32, size: tag_size(b) as u32 }, memory_lower: spec_u32_le(b, 8) as u32, memory_upper: spec_u32_le(b, 12) as u32 })
        } else {
            None
        }
    }

    closed spec fn spec_bytes(v: BasicMemoryInfoTag) -> Seq<u8> {
        header_bytes(v.header.typ, v.header.size)
            + u32_le_bytes(v.memory_lower as int)
            + u32_le_bytes(v.memory_upper as int)
    }

    closed spec fn spec_wf(v: BasicMemoryInfoTag) -> bool {
        v.header.typ == 4 && v.header.size == 16
    }

    proof fn lemma_roundtrip(v: BasicMemoryInfoTag) {
        let b = Self::spec_bytes(v);
        assert(b.subrange(0, 4) =~= u32_le_bytes(v.header.typ as int));
        assert(b.subrange(4, 8) =~= u32_le_bytes(v.header.size as int));
        lemma_u32_le(b, 0, v.header.typ as int);
        lemma_u32_le(b, 4, v.header.size as int);
        assert(b.subrange(8, 12) =~= u32_le_bytes(v.memory_lower as int));
        lemma_u32_le(b, 8, v.memory_lower as int);
        assert(b.subrange(12, 16) =~= u32_le_bytes(v.memory_upper as int));
        lemma_u32_le(b, 12, v.memory_upper as int);
        assert(Self::spec_from_bytes(b) == Some(v));
    }

    fn id() -> (r: TagType) {
        TagType::BasicMeminfo
    }

    fn from_generic(tag: &GenericTag) -> (r: Option<BasicMemoryInfoTag>) {
        let b = tag.as_bytes();
        if b.len() < 16 || tag.typ().val() != 4 {
            return None;
        }
        Some(BasicMemoryInfoTag { header: tag.header(), memory_lower: read_u32_le(b, 8), memory_upper: read_u32_le(b, 12) })
    }

    fn as_bytes(&self) -> (r: Vec<u8>) {
        let mut r: Vec<u8> = Vec::new();
        push_u32_le(&mut r, self.header.typ);
        push_u32_le(&mut r, self.header.size);
        push_u32_le(&mut r, self.memory_lower);
        push_u32_le(&mut r, self.memory_upper);
        assert(r@ =~= Self::spec_bytes(*self));
        r
    }
}

/// This tag provides an initial host memory map (legacy boot, not UEFI).
#[derive(Clone, Debug)]
pub struct MemoryMapTag {
    bytes: Vec<u8>,
}

impl View for MemoryMapTag {
    type V = Seq<u8>;

    closed spec fn view(&self) -> Seq<u8> {
        self.bytes@
    }
}

/// The bytes `b` hold a tag of this type.
pub open spec fn memory_map_tag_wf(b: Seq<u8>) -> bool {
    tag_bytes_wf(b) && tag_typ(b) == 6 && b.len() >= 16 && (b.len() - 16) % 24 == 0
}

impl MemoryMapTag {
    /// The bytes hold a tag of this type.
    pub open spec fn wf(&self) -> bool {
        memory_map_tag_wf(self@)
    }

    /// Returns the entry size.
    pub fn entry_size(&self) -> (r: u32)
        requires
            self.wf(),
        ensures
            r == spec_u32_le(self@, 8),
    {
        read_u32_le(self.bytes.as_slice(), 8)
    }

    /// Returns the entry version.
    pub fn entry_version(&self) -> (r: u32)
        requires
            self.wf(),
        ensures
            r == spec_u32_le(self@, 12),
    {
        read_u32_le(self.bytes.as_slice(), 12)
    }

    /// Constructs a new tag that holds the given memory areas.
    pub fn new(areas: &[MemoryArea]) -> (r: MemoryMapTag)
        requires
            16 + 24 * areas@.len() <= u32::MAX,
        ensures
            r@ == tag_with_payload(6, memory_map_payload(areas@)),
            r.wf(),
    {
        let mut payload: Vec<u8> = Vec::new();
        push_u32_le(&mut payload, 24);
        push_u32_le(&mut payload, 0);
        push_areas(&mut payload, areas);
        proof {
            lemma_areas_bytes_len(areas@);
            lemma_memory_map_roundtrip(areas@);
            assert(payload@ =~= memory_map_payload(areas@));
        }
        let bytes = new_tag_bytes(TagType::Mmap, payload.as_slice());
        MemoryMapTag { bytes }
    }

    /// Return all provided [`MemoryArea`]s, of every type, as the current
    /// memory map tag does; they include the regions occupied by the kernel,
    /// the boot information and the modules. For the available areas only,
    /// as the older iterator of the same name gave them, walk the tag with
    /// [`MemoryAreaIter`].
    pub fn memory_areas(&self) -> (r: Vec<MemoryArea>)
        requires
            self.wf(),
            spec_u32_le(self@, 8) == 24,
        ensures
            r@ == memory_map_areas(self@),
    {
        let n = (self.bytes.len() - 16) / 24;
        let mut r: Vec<MemoryArea> = Vec::new();
        let mut i: usize = 0;
        while i < n
            invariant
                self.wf(),
                n == (self@.len() - 16) / 24,
                i <= n,
                r@ =~= memory_map_areas(self@).subrange(0, i as int),
            decreases n - i,
        {
            assert(16 + 24 * i + 24 <= self@.len());
            r.push(MemoryArea::read_at(self.bytes.as_slice(), 16 + 24 * i));
            i = i + 1;
        }
        r
    }

}

/// The memory areas among `areas` that are available: of type 1.
pub open spec fn available_areas(areas: Seq<MemoryArea>) -> Seq<MemoryArea> {
    areas.filter(|a: MemoryArea| a.spec_typ().0 == 1)
}

/// The memory areas of the memory map tag `b` when they follow each other
/// every `e` bytes after the fixed part: as many as fit.
pub open spec fn memory_map_areas_every(b: Seq<u8>, e: int) -> Seq<MemoryArea> {
    Seq::new(((b.len() - 16) / e) as nat, |i: int| area_at(b, 16 + e * i))
}

/// With entries of 24 bytes, the areas every 24 bytes are the areas of the
/// tag.
pub proof fn lemma_areas_every_24(b: Seq<u8>)
    ensures
        memory_map_areas_every(b, 24) == memory_map_areas(b),
{
    assert(memory_map_areas_every(b, 24) =~= memory_map_areas(b));
}

/// The entry `i` of `n` entries of size `e` that fit in `len` bytes lies
/// within them.
proof fn lemma_area_fits(i: int, n: int, e: int, len: int)
    requires
        0 <= i < n,
        e > 0,
        len >= 0,
        n == len / e,
    ensures
        0 <= e * i,
        e * i + e <= len,
{
    assert(0 <= e * i) by (nonlinear_arith)
        requires
            0 <= i,
            e > 0,
    ;
    assert(e * i + e <= len) by (nonlinear_arith)
        requires
            0 <= i < n,
            e > 0,
            len >= 0,
            n == len / e,
    ;
}

/// An iterator over the available memory areas of a [`MemoryMapTag`]. It
/// steps by the entry size of the tag, which is at least the 24 bytes of a
/// memory area.
#[derive(Clone, Debug)]
pub struct MemoryAreaIter<'a> {
    tag: &'a MemoryMapTag,
    i: usize,
}

impl<'a> MemoryAreaIter<'a> {
    /// The areas of the tag, one every entry size bytes.
    pub closed spec fn all(&self) -> Seq<MemoryArea> {
        memory_map_areas_every(self.tag@, spec_u32_le(self.tag@, 8))
    }

    /// The iterator is in step with its tag.
    pub closed spec fn inv(&self) -> bool {
        &&& self.tag.wf()
        &&& spec_u32_le(self.tag@, 8) >= 24
        &&& self.i <= self.all().len()
    }

    /// The available memory areas that are still to come.
    pub closed spec fn remaining(&self) -> Seq<MemoryArea> {
        available_areas(self.all().subrange(self.i as int, self.all().len() as int))
    }

    /// Creates an iterator over the available memory areas of `tag`.
    pub fn new(tag: &'a MemoryMapTag) -> (r: MemoryAreaIter<'a>)
        requires
            tag.wf(),
            spec_u32_le(tag@, 8) >= 24,
        ensures
            r.inv(),
            r.remaining() == available_areas(memory_map_areas_every(tag@, spec_u32_le(tag@, 8))),
    {
        let r = MemoryAreaIter { tag, i: 0 };
        assert(r.all().subrange(0, r.all().len() as int) =~= r.all());
        r
    }

    /// Returns the next available memory area.
    pub fn next(&mut self) -> (r: Option<MemoryArea>)
        requires
            old(self).inv(),
        ensures
            final(self).inv(),
            old(self).remaining().len() == 0 ==> r is None && final(self).remaining().len() == 0,
            old(self).remaining().len() > 0 ==> r == Some(old(self).remaining()[0])
                && final(self).remaining() == old(self).remaining().drop_first(),
    {
        let b = self.tag.bytes.as_slice();
        let e = read_u32_le(b, 8) as usize;
        let n = (b.len() - 16) / e;
        let ghost all = self.all();
        while self.i < n
            invariant
                self.tag.wf(),
                spec_u32_le(self.tag@, 8) >= 24,
                b@ == self.tag@,
                e == spec_u32_le(self.tag@, 8),
                all == self.all(),
                n == all.len(),
                self.i <= n,
                available_areas(all.subrange(self.i as int, n as int)) == old(self).remaining(),
            decreases n - self.i,
        {
            proof {
                lemma_area_fits(self.i as int, n as int, e as int, b@.len() - 16);
            }
            let area = MemoryArea::read_at(b, 16 + e * self.i);
            let ghost rest = all.subrange(self.i as int, n as int);
            assert(rest =~= seq![all[self.i as int]] + all.subrange(self.i + 1, n as int));
            proof {
                lemma_filter_cons(all[self.i as int], all.subrange(self.i + 1, n as int));
            }
            self.i = self.i + 1;
            if area.typ.0 == 1 {
                return Some(area);
            }
        }
        assert(all.subrange(self.i as int, n as int) =~= Seq::<MemoryArea>::empty());
        assert(available_areas(Seq::<MemoryArea>::empty()) =~= Seq::<MemoryArea>::empty());
        None
    }
}

/// Filtering a sequence that starts with `a` keeps `a` first when it is
/// available, and drops it otherwise.
pub proof fn lemma_filter_cons(a: MemoryArea, rest: Seq<MemoryArea>)
    ensures
        a.spec_typ().0 == 1 ==> available_areas(seq![a] + rest) == seq![a] + available_areas(rest),
        a.spec_typ().0 != 1 ==> available_areas(seq![a] + rest) == available_areas(rest),
{
    rest.lemma_filter_prepend(a, |x: MemoryArea| x.spec_typ().0 == 1);
    assert(Seq::<MemoryArea>::empty() + available_areas(rest) =~= available_areas(rest));
}

impl TagTrait for MemoryMapTag {
    open spec fn spec_type() -> TagType {
        TagType::Mmap
    }

    open spec fn spec_from_bytes(b: Seq<u8>) -> Option<Seq<u8>> {
        if memory_map_tag_wf(b) {
            Some(b)
        } else {
            None
        }
    }

    open spec fn spec_bytes(v: Seq<u8>) -> Seq<u8> {
        v
    }

    open spec fn spec_wf(v: Seq<u8>) -> bool {
        memory_map_tag_wf(v)
    }

    proof fn lemma_roundtrip(v: Seq<u8>) {
    }

    fn id() -> (r: TagType) {
        TagType::Mmap
    }

    fn from_generic(tag: &GenericTag) -> (r: Option<MemoryMapTag>) {
        let b = tag.as_bytes();
        if tag.typ().val() == 6 && b.len() >= 16 && memory_map_tag_check(b) {
            Some(MemoryMapTag { bytes: copy_range(b, 0, b.len()) })
        } else {
            None
        }
    }

    fn as_bytes(&self) -> (r: Vec<u8>) {
        copy_range(self.bytes.as_slice(), 0, self.bytes.len())
    }
}

/// Appends the bytes of the memory areas, one after the other.
fn push_areas(out: &mut Vec<u8>, areas: &[MemoryArea])
    ensures
        final(out)@ == old(out)@ + areas_bytes(areas@),
{
    let mut i: usize = 0;
    while i < areas.len()
        invariant
            i <= areas@.len(),
            out@ == old(out)@ + areas_bytes(areas@.subrange(0, i as int)),
        decreases areas@.len() - i,
    {
        assert(areas@.subrange(0, i + 1).drop_last() =~= areas@.subrange(0, i as int));
        areas[i].push_bytes_to(out);
        i = i + 1;
        assert(out@ =~= old(out)@ + areas_bytes(areas@.subrange(0, i as int)));
    }
    assert(areas@.subrange(0, i as int) =~= areas@);
}

/// A memory map tag's payload after the entry fields is a whole number of
/// areas.
fn memory_map_tag_check(b: &[u8]) -> (r: bool)
    requires
        b@.len() >= 16,
    ensures
        r == ((b@.len() - 16) % 24 == 0),
{
    (b.len() - 16) % 24 == 0
}

/// The type of an EFI memory descriptor, as the UEFI specification numbers
/// them (for instance 7 for conventional, free memory).
#[derive(Clone, Copy, Debug, PartialEq, Eq, Structural)]
pub struct EFIMemoryAreaType(pub u32);

/// The attribute bits of an EFI memory descriptor (for instance `0x1` for
/// uncacheable, `0x8` for write back).
#[derive(Clone, Copy, Debug, PartialEq, Eq, Structural)]
pub struct EFIMemoryAttribute(pub u64);

impl EFIMemoryAttribute {
    /// The attributes of both `self` and `other`.
    pub fn union(self, other: EFIMemoryAttribute) -> (r: EFIMemoryAttribute)
        ensures
            r.0 == self.0 | other.0,
    {
        EFIMemoryAttribute(self.0 | other.0)
    }

    /// The raw bits.
    pub fn bits(&self) -> (r: u64)
        ensures
            r == self.0,
    {
        self.0
    }
}

impl Default for EFIMemoryAttribute {
    fn default() -> (r: EFIMemoryAttribute)
        ensures
            r.0 == 0,
    {
        EFIMemoryAttribute(0)
    }
}

/// A memory descriptor of an EFI memory map.
#[derive(Clone, Copy, Debug, PartialEq, Eq, Structural)]
pub struct EFIMemoryDesc {
    /// The type of the region.
    pub ty: EFIMemoryAreaType,
    /// The start of the region in physical memory.
    pub phys_start: u64,
    /// The start of the region in virtual memory.
    pub virt_start: u64,
    /// The number of 4 KiB pages of the region.
    pub page_count: u64,
    /// The attributes of the region.
    pub att: EFIMemoryAttribute,
}

impl EFIMemoryDesc {
    /// The version of the descriptor layout that this type describes.
    pub const VERSION: u32 = 1;
}

/// Size in bytes of an [`EFIMemoryDesc`] in memory (4 bytes of padding follow
/// the type).
pub const EFI_MEMORY_DESC_SIZE: u32 = 40;

/// The bytes of the memory descriptor `d`.
#[verifier::opaque]
pub open spec fn desc_bytes(d: EFIMemoryDesc) -> Seq<u8> {
    u32_le_bytes(d.ty.0 as int) + u32_le_bytes(0) + u64_le_bytes(d.phys_start as int)
        + u64_le_bytes(d.virt_start as int) + u64_le_bytes(d.page_count as int) + u64_le_bytes(
        d.att.0 as int,
    )
}

/// The memory descriptor stored at `off` in `b`.
pub open spec fn desc_at(b: Seq<u8>, off: int) -> EFIMemoryDesc {
    EFIMemoryDesc {
        ty: EFIMemoryAreaType(spec_u32_le(b, off) as u32),
        phys_start: spec_u64_le(b, off + 8) as u64,
        virt_start: spec_u64_le(b, off + 16) as u64,
        page_count: spec_u64_le(b, off + 24) as u64,
        att: EFIMemoryAttribute(spec_u64_le(b, off + 32) as u64),
    }
}

/// The descriptors `descs`, one after the other.
pub open spec fn descs_bytes(descs: Seq<EFIMemoryDesc>) -> Seq<u8>
    decreases descs.len(),
{
    if descs.len() == 0 {
        seq![]
    } else {
        descs_bytes(descs.drop_last()) + desc_bytes(descs.last())
    }
}

/// A memory descriptor is 40 bytes long.
pub proof fn lemma_desc_bytes_len(d: EFIMemoryDesc)
    ensures
        desc_bytes(d).len() == 40,
{
    reveal(desc_bytes);
}

/// The bytes of `n` descriptors are `40 * n` bytes long.
pub proof fn lemma_descs_bytes_len(descs: Seq<EFIMemoryDesc>)
    ensures
        descs_bytes(descs).len() == 40 * descs.len(),
    decreases descs.len(),
{
    if descs.len() > 0 {
        lemma_descs_bytes_len(descs.drop_last());
        lemma_desc_bytes_len(descs.last());
    }
}

/// The `i`-th descriptor is stored at offset `40 * i`.
pub proof fn lemma_descs_bytes_at(descs: Seq<EFIMemoryDesc>, i: int)
    requires
        0 <= i < descs.len(),
    ensures
        descs_bytes(descs).subrange(40 * i, 40 * i + 40) == desc_bytes(descs[i]),
    decreases descs.len(),
{
    let init = descs.drop_last();
    lemma_descs_bytes_len(init);
    lemma_desc_bytes_len(descs.last());
    let b = descs_bytes(descs);
    if i < descs.len() - 1 {
        lemma_descs_bytes_at(init, i);
        assert(b.subrange(40 * i, 40 * i + 40) =~= descs_bytes(init).subrange(40 * i, 40 * i + 40));
    } else {
        assert(b.subrange(40 * i, 40 * i + 40) =~= desc_bytes(descs.last()));
    }
}

/// Reading a descriptor from its bytes gives it back.
pub proof fn lemma_desc_roundtrip(b: Seq<u8>, off: int, d: EFIMemoryDesc)
    requires
        0 <= off,
        off + 40 <= b.len(),
        b.subrange(off, off + 40) == desc_bytes(d),
    ensures
        desc_at(b, off) == d,
{
    reveal(desc_bytes);
    let p0 = u32_le_bytes(d.ty.0 as int);
    let p1 = p0 + u32_le_bytes(0);
    let p2 = p1 + u64_le_bytes(d.phys_start as int);
    let p3 = p2 + u64_le_bytes(d.virt_start as int);
    let p4 = p3 + u64_le_bytes(d.page_count as int);
    lemma_split(b, off, p4, u64_le_bytes(d.att.0 as int));
    lemma_split(b, off, p3, u64_le_bytes(d.page_count as int));
    lemma_split(b, off, p2, u64_le_bytes(d.virt_start as int));
    lemma_split(b, off, p1, u64_le_bytes(d.phys_start as int));
    lemma_split(b, off, p0, u32_le_bytes(0));
    lemma_u32_le(b, off, d.ty.0 as int);
    lemma_u64_le(b, off + 8, d.phys_start as int);
    lemma_u64_le(b, off + 16, d.virt_start as int);
    lemma_u64_le(b, off + 24, d.page_count as int);
    lemma_u64_le(b, off + 32, d.att.0 as int);
}

impl EFIMemoryDesc {
    /// Appends the bytes of the descriptor.
    fn push_bytes_to(&self, out: &mut Vec<u8>)
        ensures
            final(out)@ == old(out)@ + desc_bytes(*self),
    {
        push_u32_le(out, self.ty.0);
        push_u32_le(out, 0);
        push_u64_le(out, self.phys_start);
        push_u64_le(out, self.virt_start);
        push_u64_le(out, self.page_count);
        push_u64_le(out, self.att.0);
        reveal(desc_bytes);
        assert(final(out)@ =~= old(out)@ + desc_bytes(*self));
    }

    /// Reads the descriptor stored at `off`.
    fn read_at(b: &[u8], off: usize) -> (r: EFIMemoryDesc)
        requires
            off + 40 <= b@.len(),
        ensures
            r == desc_at(b@, off as int),
    {
        let _len = b.len();
        EFIMemoryDesc {
            ty: EFIMemoryAreaType(read_u32_le(b, off)),
            phys_start: read_u64_le(b, off + 8),
            virt_start: read_u64_le(b, off + 16),
            page_count: read_u64_le(b, off + 24),
            att: EFIMemoryAttribute(read_u64_le(b, off + 32)),
        }
    }
}

/// Appends the bytes of the descriptors, one after the other.
fn push_descs(out: &mut Vec<u8>, descs: &[EFIMemoryDesc])
    ensures
        final(out)@ == old(out)@ + descs_bytes(descs@),
{
    let mut i: usize = 0;
    while i < descs.len()
        invariant
            i <= descs@.len(),
            out@ == old(out)@ + descs_bytes(descs@.subrange(0, i as int)),
        decreases descs@.len() - i,
    {
        assert(descs@.subrange(0, i + 1).drop_last() =~= descs@.subrange(0, i as int));
        descs[i].push_bytes_to(out);
        i = i + 1;
        assert(out@ =~= old(out)@ + descs_bytes(descs@.subrange(0, i as int)));
    }
    assert(descs@.subrange(0, i as int) =~= descs@);
}

/// The bytes `b` hold an EFI memory map tag.
pub open spec fn efi_memory_map_tag_wf(b: Seq<u8>) -> bool {
    tag_bytes_wf(b) && tag_typ(b) == 17 && b.len() >= 16
}

/// The payload of an EFI memory map tag.
pub open spec fn efi_memory_map_payload(desc_size: u32, desc_version: u32, efi_mmap: Seq<u8>) -> Seq<u8> {
    u32_le_bytes(desc_size as int) + u32_le_bytes(desc_version as int) + efi_mmap
}

/// The descriptor size field of the EFI memory map tag `b`.
pub open spec fn efi_desc_size(b: Seq<u8>) -> int {
    spec_u32_le(b, 8)
}

/// The descriptor version field of the EFI memory map tag `b`.
pub open spec fn efi_desc_version(b: Seq<u8>) -> int {
    spec_u32_le(b, 12)
}

/// The EFI memory map tag `b` can be walked: its descriptors are of version 1,
/// at least as large as [`EFIMemoryDesc`], and fill the map exactly.
pub open spec fn efi_memory_map_walkable(b: Seq<u8>) -> bool {
    &&& efi_memory_map_tag_wf(b)
    &&& efi_desc_version(b) == 1
    &&& efi_desc_size(b) >= 40
    &&& (b.len() - 16) % efi_desc_size(b) == 0
}

/// The descriptors of the EFI memory map tag `b`: one every `desc_size`
/// bytes of the map.
pub open spec fn efi_memory_descs(b: Seq<u8>) -> Seq<EFIMemoryDesc> {
    Seq::new(
        ((b.len() - 16) / efi_desc_size(b)) as nat,
        |i: int| desc_at(b, 16 + i * efi_desc_size(b)),
    )
}

/// EFI memory map tag. The embedded [`EFIMemoryDesc`]s follows the EFI
/// specification.
#[derive(Clone, Debug)]
pub struct EFIMemoryMapTag {
    bytes: Vec<u8>,
}

impl View for EFIMemoryMapTag {
    type V = Seq<u8>;

    closed spec fn view(&self) -> Seq<u8> {
        self.bytes@
    }
}

impl EFIMemoryMapTag {
    /// The bytes hold a tag of this type.
    pub open spec fn wf(&self) -> bool {
        efi_memory_map_tag_wf(self@)
    }

    /// Create a new EFI memory map tag with the given memory descriptors.
    pub fn new_from_descs(descs: &[EFIMemoryDesc]) -> (r: EFIMemoryMapTag)
        requires
            16 + 40 * descs@.len() <= u32::MAX,
        ensures
            r@ == tag_with_payload(17, efi_memory_map_payload(40, 1, descs_bytes(descs@))),
            r.wf(),
    {
        let mut efi_mmap: Vec<u8> = Vec::new();
        push_descs(&mut efi_mmap, descs);
        proof {
            lemma_descs_bytes_len(descs@);
        }
        EFIMemoryMapTag::new_from_map(EFI_MEMORY_DESC_SIZE, EFIMemoryDesc::VERSION, efi_mmap.as_slice())
    }

    /// Create a new EFI memory map tag from the given EFI memory map.
    pub fn new_from_map(desc_size: u32, desc_version: u32, efi_mmap: &[u8]) -> (r: EFIMemoryMapTag)
        requires
            desc_size != 0,
            16 + efi_mmap@.len() <= u32::MAX,
        ensures
            r@ == tag_with_payload(17, efi_memory_map_payload(desc_size, desc_version, efi_mmap@)),
            r.wf(),
            efi_desc_size(r@) == desc_size,
            efi_desc_version(r@) == desc_version,
            r@.subrange(16, r@.len() as int) == efi_mmap@,
    {
        let mut payload: Vec<u8> = Vec::new();
        push_u32_le(&mut payload, desc_size);
        push_u32_le(&mut payload, desc_version);
        push_bytes(&mut payload, efi_mmap);
        let bytes = new_tag_bytes(TagType::EfiMmap, payload.as_slice());
        proof {
            let p = efi_memory_map_payload(desc_size, desc_version, efi_mmap@);
            assert(payload@ =~= p);
            lemma_tag_with_payload(17, p);
            let b = bytes@;
            assert(b.subrange(8, 12) =~= u32_le_bytes(desc_size as int));
            assert(b.subrange(12, 16) =~= u32_le_bytes(desc_version as int));
            assert(b.subrange(16, b.len() as int) =~= efi_mmap@);
            lemma_u32_le(b, 8, desc_size as int);
            lemma_u32_le(b, 12, desc_version as int);
        }
        EFIMemoryMapTag { bytes }
    }

    /// Returns the descriptor size.
    pub fn desc_size(&self) -> (r: u32)
        requires
            self.wf(),
        ensures
            r == efi_desc_size(self@),
    {
        read_u32_le(self.bytes.as_slice(), 8)
    }

    /// Returns the descriptor version.
    pub fn desc_version(&self) -> (r: u32)
        requires
            self.wf(),
        ensures
            r == efi_desc_version(self@),
    {
        read_u32_le(self.bytes.as_slice(), 12)
    }

    /// Returns an iterator over the provided memory areas.
    pub fn memory_areas(&self) -> (r: EFIMemoryAreaIter<'_>)
        requires
            efi_memory_map_walkable(self@),
        ensures
            r.remaining() == efi_memory_descs(self@),
            r.len_spec() == efi_memory_descs(self@).len(),
    {
        let desc_size = read_u32_le(self.bytes.as_slice(), 8) as usize;
        let entries = (self.bytes.len() - 16) / desc_size;
        let r = EFIMemoryAreaIter { mmap_tag: self, i: 0, entries };
        assert(r.remaining() =~= efi_memory_descs(self@));
        r
    }
}

/// An iterator over the EFI memory areas emitting [`EFIMemoryDesc`] items.
#[derive(Clone, Debug)]
pub struct EFIMemoryAreaIter<'a> {
    mmap_tag: &'a EFIMemoryMapTag,
    i: usize,
    entries: usize,
}

impl<'a> EFIMemoryAreaIter<'a> {
    /// The iterator is in step with its tag.
    pub closed spec fn inv(&self) -> bool {
        &&& efi_memory_map_walkable(self.mmap_tag@)
        &&& self.entries == efi_memory_descs(self.mmap_tag@).len()
        &&& self.i <= self.entries
    }

    /// The descriptors that are still to come.
    pub closed spec fn remaining(&self) -> Seq<EFIMemoryDesc> {
        efi_memory_descs(self.mmap_tag@).subrange(self.i as int, self.entries as int)
    }

    /// The number of descriptors of the whole map.
    pub closed spec fn len_spec(&self) -> nat {
        self.entries as nat
    }

    /// Returns the next descriptor.
    pub fn next(&mut self) -> (r: Option<EFIMemoryDesc>)
        requires
            old(self).inv(),
        ensures
            final(self).inv(),
            final(self).len_spec() == old(self).len_spec(),
            old(self).remaining().len() == 0 ==> r is None && final(self).remaining().len() == 0,
            old(self).remaining().len() > 0 ==> r == Some(old(self).remaining()[0])
                && final(self).remaining() == old(self).remaining().drop_first(),
    {
        if self.i >= self.entries {
            return None;
        }
        let b = self.mmap_tag.bytes.as_slice();
        let desc_size = read_u32_le(b, 8) as usize;
        let ghost n = self.entries as int;
        let ghost ds = desc_size as int;
        let ghost i = self.i as int;
        proof {
            lemma_entry_in_bounds(i, n, ds, b@.len() - 16);
        }
        let d = EFIMemoryDesc::read_at(b, 16 + self.i * desc_size);
        let ghost old_rem = self.remaining();
        self.i = self.i + 1;
        assert(self.remaining() =~= old_rem.drop_first());
        Some(d)
    }

    /// Returns the number of descriptors of the whole map.
    pub fn len(&self) -> (r: usize)
        ensures
            r == self.len_spec(),
    {
        self.entries
    }
}

/// The entry `i` of `n` entries of size `ds` that fill `len` bytes lies
/// within them.
proof fn lemma_entry_in_bounds(i: int, n: int, ds: int, len: int)
    requires
        0 <= i < n,
        ds > 0,
        len >= 0,
        len % ds == 0,
        n == len / ds,
    ensures
        i * ds + ds <= len,
        0 <= i * ds,
{
    assert(i * ds + ds <= len) by (nonlinear_arith)
        requires
            0 <= i < n,
            ds > 0,
            len >= 0,
            len % ds == 0,
            n == len / ds,
    ;
    assert(0 <= i * ds) by (nonlinear_arith)
        requires
            0 <= i,
            ds > 0,
    ;
}

/// The descriptors that an EFI memory map tag is built with are the ones it
/// gives back.
pub proof fn lemma_efi_memory_map_roundtrip(descs: Seq<EFIMemoryDesc>)
    requires
        16 + 40 * descs.len() <= u32::MAX,
    ensures
        ({
            let b = tag_with_payload(17, efi_memory_map_payload(40, 1, descs_bytes(descs)));
            &&& efi_memory_map_walkable(b)
            &&& efi_memory_descs(b) == descs
        }),
{
    let p = efi_memory_map_payload(40, 1, descs_bytes(descs));
    lemma_descs_bytes_len(descs);
    lemma_tag_with_payload(17, p);
    let b = tag_with_payload(17, p);
    assert(b.subrange(8, 12) =~= u32_le_bytes(40));
    assert(b.subrange(12, 16) =~= u32_le_bytes(1));
    lemma_u32_le(b, 8, 40);
    lemma_u32_le(b, 12, 1);
    assert((b.len() - 16) / 40 == descs.len());
    assert forall|i: int| 0 <= i < descs.len() implies #[trigger] efi_memory_descs(b)[i] == descs[i] by {
        lemma_descs_bytes_at(descs, i);
        assert(b.subrange(16 + 40 * i, 16 + 40 * i + 40) =~= descs_bytes(descs).subrange(40 * i, 40 * i + 40));
        assert(i * 40 == 40 * i);
        lemma_desc_roundtrip(b, 16 + 40 * i, descs[i]);
    }
    assert(efi_memory_descs(b) =~= descs);
}

impl TagTrait for EFIMemoryMapTag {
    open spec fn spec_type() -> TagType {
        TagType::EfiMmap
    }

    open spec fn spec_from_bytes(b: Seq<u8>) -> Option<Seq<u8>> {
        if efi_memory_map_tag_wf(b) {
            Some(b)
        } else {
            None
        }
    }

    open spec fn spec_bytes(v: Seq<u8>) -> Seq<u8> {
        v
    }

    open spec fn spec_wf(v: Seq<u8>) -> bool {
        efi_memory_map_tag_wf(v)
    }

    proof fn lemma_roundtrip(v: Seq<u8>) {
    }

    fn id() -> (r: TagType) {
        TagType::EfiMmap
    }

    fn from_generic(tag: &GenericTag) -> (r: Option<EFIMemoryMapTag>) {
        let b = tag.as_bytes();
        if tag.typ().val() == 17 && b.len() >= 16 {
            Some(EFIMemoryMapTag { bytes: copy_range(b, 0, b.len()) })
        } else {
            None
        }
    }

    fn as_bytes(&self) -> (r: Vec<u8>) {
        copy_range(self.bytes.as_slice(), 0, self.bytes.len())
    }
}

/// The memory area types carry the numbers of the Multiboot2 specification,
/// which are those of e820 memory maps: `1` available RAM, `2` reserved, `3`
/// usable memory holding ACPI information, `4` reserved memory to preserve
/// on hibernation (ACPI NVS), `5` defective RAM; every other id is a custom
/// type of that id. Both conversions follow this numbering.
pub proof fn lemma_area_type_numbering(v: u32)
    ensures
        <MemoryAreaType as FromSpec<MemoryAreaTypeId>>::obeys_from_spec(),
        <MemoryAreaTypeId as FromSpec<MemoryAreaType>>::obeys_from_spec(),
        <MemoryAreaTypeId as FromSpec<MemoryAreaType>>::from_spec(MemoryAreaType::Available) == MemoryAreaTypeId(1),
        <MemoryAreaTypeId as FromSpec<MemoryAreaType>>::from_spec(MemoryAreaType::Reserved) == MemoryAreaTypeId(2),
        <MemoryAreaTypeId as FromSpec<MemoryAreaType>>::from_spec(MemoryAreaType::AcpiAvailable) == MemoryAreaTypeId(3),
        <MemoryAreaTypeId as FromSpec<MemoryAreaType>>::from_spec(MemoryAreaType::ReservedHibernate) == MemoryAreaTypeId(4),
        <MemoryAreaTypeId as FromSpec<MemoryAreaType>>::from_spec(MemoryAreaType::Defective) == MemoryAreaTypeId(5),
        <MemoryAreaTypeId as FromSpec<MemoryAreaType>>::from_spec(MemoryAreaType::Custom(v)) == MemoryAreaTypeId(v),
        v == 1 ==> <MemoryAreaType as FromSpec<MemoryAreaTypeId>>::from_spec(MemoryAreaTypeId(v)) == MemoryAreaType::Available,
        v == 2 ==> <MemoryAreaType as FromSpec<MemoryAreaTypeId>>::from_spec(MemoryAreaTypeId(v)) == MemoryAreaType::Reserved,
        v == 3 ==> <MemoryAreaType as FromSpec<MemoryAreaTypeId>>::from_spec(MemoryAreaTypeId(v)) == MemoryAreaType::AcpiAvailable,
        v == 4 ==> <MemoryAreaType as FromSpec<MemoryAreaTypeId>>::from_spec(MemoryAreaTypeId(v)) == MemoryAreaType::ReservedHibernate,
        v == 5 ==> <MemoryAreaType as FromSpec<MemoryAreaTypeId>>::from_spec(MemoryAreaTypeId(v)) == MemoryAreaType::Defective,
        (v == 0 || v > 5) ==> <MemoryAreaType as FromSpec<MemoryAreaTypeId>>::from_spec(MemoryAreaTypeId(v)) == MemoryAreaType::Custom(v),
{
}

} // verus!
