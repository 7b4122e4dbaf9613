//! Module for [`RsdpV1Tag`] and [`RsdpV2Tag`].
//!
//! RSDP (Root System Description Pointer) is a data structure used in the
//! ACPI programming interface. The tag that the bootloader passes will depend
//! on the ACPI version the hardware supports: an [`RsdpV1Tag`] for ACPI 1.0,
//! an [`RsdpV2Tag`] for later versions. Even though the bootloader should give
//! the address of the real RSDP/XSDT, the checksum and signature should be
//! manually verified.
use crate::bytes::{
    byte_sum, compute_checksum, lemma_byte_sum_append, lemma_u32_le, lemma_u64_le, push_bytes,
    push_u32_le, push_u64_le, read_u32_le, read_u64_le, spec_u32_le, spec_u64_le, sum_bytes,
    u32_le_bytes, u64_le_bytes,
};
use crate::tag::{header_bytes, tag_size, tag_typ, GenericTag, TagHeader, TagTrait, TagType};
use crate::util::str_from_utf8;
use vstd::prelude::*;
use vstd::utf8::{encode_utf8, valid_utf8};

verus! {

/// The "RSD PTR " signature of an RSDP.
pub open spec fn rsdp_signature() -> Seq<u8> {
    seq![82u8, 83u8, 68u8, 32u8, 80u8, 84u8, 82u8, 32u8]
}

/// The ACPI 1.0 part of an RSDP: signature, checksum, OEM id, revision and
/// RSDT address.
pub open spec fn rsdp_v1_bytes(signature: Seq<u8>, checksum: u8, oem_id: Seq<u8>, revision: u8, rsdt_address: u32) -> Seq<u8> {
    signature + seq![checksum] + oem_id + seq![revision] + u32_le_bytes(rsdt_address as int)
}

/// The sum of bytes around one byte `x` is the sum of the parts.
pub proof fn lemma_byte_sum_around(a: Seq<u8>, x: u8, b: Seq<u8>)
    ensures
        byte_sum(a + seq![x] + b) == byte_sum(a) + x + byte_sum(b),
{
    lemma_byte_sum_append(a + seq![x], b);
    lemma_byte_sum_append(a, seq![x]);
    assert(seq![x].drop_last() =~= Seq::<u8>::empty());
    assert(byte_sum(Seq::<u8>::empty()) == 0);
    assert(byte_sum(seq![x]) == byte_sum(seq![x].drop_last()) + x);
}

/// The ACPI 1.0 part is 20 bytes long, and its bytes sum up as its parts do.
pub proof fn lemma_rsdp_v1_bytes(signature: Seq<u8>, checksum: u8, oem_id: Seq<u8>, revision: u8, rsdt_address: u32)
    ensures
        rsdp_v1_bytes(signature, checksum, oem_id, revision, rsdt_address).len() == signature.len()
            + oem_id.len() + 6,
        byte_sum(rsdp_v1_bytes(signature, checksum, oem_id, revision, rsdt_address)) == byte_sum(
            rsdp_v1_bytes(signature, 0, oem_id, revision, rsdt_address),
        ) + checksum,
{
    let rest = oem_id + seq![revision] + u32_le_bytes(rsdt_address as int);
    assert(rsdp_v1_bytes(signature, checksum, oem_id, revision, rsdt_address) =~= signature
        + seq![checksum] + rest);
    assert(rsdp_v1_bytes(signature, 0, oem_id, revision, rsdt_address) =~= signature + seq![0u8]
        + rest);
    lemma_byte_sum_around(signature, checksum, rest);
    lemma_byte_sum_around(signature, 0, rest);
}

/// Appends the ACPI 1.0 part of an RSDP.
fn push_rsdp_v1(out: &mut Vec<u8>, signature: &[u8; 8], checksum: u8, oem_id: &[u8; 6], revision: u8, rsdt_address: u32)
    ensures
        final(out)@ == old(out)@ + rsdp_v1_bytes(signature@, checksum, oem_id@, revision, rsdt_address),
{
    push_bytes(out, signature.as_slice());
    out.push(checksum);
    push_bytes(out, oem_id.as_slice());
    out.push(revision);
    push_u32_le(out, rsdt_address);
    assert(final(out)@ =~= old(out)@ + rsdp_v1_bytes(signature@, checksum, oem_id@, revision, rsdt_address));
}

/// Reads the bytes `b[off..off + 8]` into an array.
fn read_array8(b: &[u8], off: usize) -> (r: [u8; 8])
    requires
        off + 8 <= b@.len(),
    ensures
        r@ == b@.subrange(off as int, off + 8),
{
    let r = [b[off], b[off + 1], b[off + 2], b[off + 3], b[off + 4], b[off + 5], b[off + 6], b[off + 7]];
    assert(r@ =~= b@.subrange(off as int, off + 8));
    r
}

/// Reads the bytes `b[off..off + 6]` into an array.
fn read_array6(b: &[u8], off: usize) -> (r: [u8; 6])
    requires
        off + 6 <= b@.len(),
    ensures
        r@ == b@.subrange(off as int, off + 6),
{
    let r = [b[off], b[off + 1], b[off + 2], b[off + 3], b[off + 4], b[off + 5]];
    assert(r@ =~= b@.subrange(off as int, off + 6));
    r
}

/// Reads the bytes `b[off..off + 3]` into an array.
fn read_array3(b: &[u8], off: usize) -> (r: [u8; 3])
    requires
        off + 3 <= b@.len(),
    ensures
        r@ == b@.subrange(off as int, off + 3),
{
    let r = [b[off], b[off + 1], b[off + 2]];
    assert(r@ =~= b@.subrange(off as int, off + 3));
    r
}

/// The array of eight bytes whose view is `s`.
pub open spec fn array8_of(s: Seq<u8>) -> [u8; 8] {
    choose|a: [u8; 8]| a@ == s
}

/// The array of six bytes whose view is `s`.
pub open spec fn array6_of(s: Seq<u8>) -> [u8; 6] {
    choose|a: [u8; 6]| a@ == s
}

/// The array of three bytes whose view is `s`.
pub open spec fn array3_of(s: Seq<u8>) -> [u8; 3] {
    choose|a: [u8; 3]| a@ == s
}

/// An array is the one its view names.
pub proof fn lemma_array8_of(a: [u8; 8])
    ensures
        array8_of(a@) == a,
{
    let c = array8_of(a@);
    assert(c@ == a@);
    assert(c =~= a);
}

/// An array is the one its view names.
pub proof fn lemma_array6_of(a: [u8; 6])
    ensures
        array6_of(a@) == a,
{
    let c = array6_of(a@);
    assert(c@ == a@);
    assert(c =~= a);
}

/// An array is the one its view names.
pub proof fn lemma_array3_of(a: [u8; 3])
    ensures
        array3_of(a@) == a,
{
    let c = array3_of(a@);
    assert(c@ == a@);
    assert(c =~= a);
}

/// This tag contains a copy of RSDP as defined per ACPI 1.0 specification.
#[derive(Clone, Copy, Debug, PartialEq, Eq)]
pub struct RsdpV1Tag {
    /// The tag's header.
    pub header: TagHeader,
    /// The "RSD PTR " marker signature.
    pub signature: [u8; 8],
    /// The checksum of the RSDP.
    pub checksum: u8,
    /// An OEM-supplied string that identifies the OEM.
    pub oem_id: [u8; 6],
    /// The revision of the ACPI.
    pub revision: u8,
    /// The physical address of the RSDT.
    pub rsdt_address: u32,
}

impl View for RsdpV1Tag {
    type V = RsdpV1Tag;

    open spec fn view(&self) -> RsdpV1Tag {
        *self
    }
}

impl RsdpV1Tag {
    /// The size of the tag, in bytes.
    pub const BASE_SIZE: u32 = 28;

    /// The tag's header.
    pub open spec fn spec_header(&self) -> TagHeader {
        self.header
    }

    /// The RSDP bytes of the tag, the ones its checksum covers.
    pub open spec fn spec_rsdp_bytes(&self) -> Seq<u8> {
        rsdp_v1_bytes(self.signature@, self.checksum, self.oem_id@, self.revision, self.rsdt_address)
    }

    /// The RSDP bytes sum up to zero, modulo 256.
    pub open spec fn spec_checksum_is_valid(&self) -> bool {
        byte_sum(self.spec_rsdp_bytes()) % 256 == 0
    }

    /// Signature of RSDP v1.
    pub fn signature_bytes() -> (r: [u8; 8])
        ensures
            r@ == rsdp_signature(),
    {
        let r: [u8; 8] = [82, 83, 68, 32, 80, 84, 82, 32];
        assert(r@ =~= rsdp_signature());
        r
    }

    /// Constructs a new tag; its checksum makes the RSDP bytes sum up to zero.
    pub fn new(oem_id: [u8; 6], revision: u8, rsdt_address: u32) -> (r: RsdpV1Tag)
        ensures
            RsdpV1Tag::spec_wf(r),
            r.header == (TagHeader { typ: 14, size: 28 }),
            RsdpV1Tag::spec_bytes(r) == header_bytes(14, 28) + r.spec_rsdp_bytes(),
            RsdpV1Tag::spec_bytes(r).len() == 28,
            r.signature@ == rsdp_signature(),
            r.oem_id == oem_id,
            r.revision == revision,
            r.rsdt_address == rsdt_address,
            r.spec_checksum_is_valid(),
    {
        let signature = RsdpV1Tag::signature_bytes();
        let mut seed: Vec<u8> = Vec::new();
        push_rsdp_v1(&mut seed, &signature, 0, &oem_id, revision, rsdt_address);
        let checksum = compute_checksum(seed.as_slice());
        proof {
            assert(seed@ =~= rsdp_v1_bytes(signature@, 0, oem_id@, revision, rsdt_address));
            lemma_rsdp_v1_bytes(signature@, checksum, oem_id@, revision, rsdt_address);
        }
        RsdpV1Tag {
            header: TagHeader::new(TagType::AcpiV1, 28),
            signature,
            checksum,
            oem_id,
            revision,
            rsdt_address,
        }
    }

    /// The "RSD PTR " marker signature, decoded as UTF-8.
    pub fn signature(&self) -> (r: Result<&str, core::str::Utf8Error>)
        ensures
            r is Ok <==> valid_utf8(self.signature@),
            r matches Ok(s) ==> encode_utf8(s@) == self.signature@,
    {
        str_from_utf8(self.signature.as_slice())
    }

    /// Validation of the RSDPv1 checksum.
    pub fn checksum_is_valid(&self) -> (r: bool)
        ensures
            r == self.spec_checksum_is_valid(),
    {
        let mut bytes: Vec<u8> = Vec::new();
        push_rsdp_v1(&mut bytes, &self.signature, self.checksum, &self.oem_id, self.revision, self.rsdt_address);
        assert(bytes@ =~= self.spec_rsdp_bytes());
        sum_bytes(bytes.as_slice()) == 0
    }

    /// An OEM-supplied string that identifies the OEM, decoded as UTF-8.
    pub fn oem_id(&self) -> (r: Result<&str, core::str::Utf8Error>)
        ensures
            r is Ok <==> valid_utf8(self.oem_id@),
            r matches Ok(s) ==> encode_utf8(s@) == self.oem_id@,
    {
        str_from_utf8(self.oem_id.as_slice())
    }

    /// The revision of the ACPI.
    pub fn revision(&self) -> (r: u8)
        ensures
            r == self.revision,
    {
        self.revision
    }

    /// The physical (I repeat: physical) address of the RSDT table.
    pub fn rsdt_address(&self) -> (r: usize)
        ensures
            r == self.rsdt_address as usize,
    {
        self.rsdt_address as usize
    }
}

impl TagTrait for RsdpV1Tag {
    open spec fn spec_type() -> TagType {
        TagType::AcpiV1
    }

    closed spec fn spec_from_bytes(b: Seq<u8>) -> Option<RsdpV1Tag> {
        if b.len() >= 28 && tag_typ(b) == 14 {
            Some(
                RsdpV1Tag {
                    header: TagHeader { typ: tag_typ(b) as u32, size: tag_size(b) as u32 },
                    signature: array8_of(b.subrange(8, 16)),
                    checksum: b[16],
                    oem_id: array6_of(b.subrange(17, 23)),
                    revision: b[23],
                    rsdt_address: spec_u32_le(b, 24) as u32,
                },
            )
        } else {
            None
        }
    }

    closed spec fn spec_bytes(v: RsdpV1Tag) -> Seq<u8> {
        header_bytes(v.header.typ, v.header.size) + v.spec_rsdp_bytes()
    }

    closed spec fn spec_wf(v: RsdpV1Tag) -> bool {
        v.header.typ == 14 && v.header.size == 28
    }

    proof fn lemma_roundtrip(v: RsdpV1Tag) {
        let b = Self::spec_bytes(v);
        assert(b.subrange(0, 4) =~= u32_le_bytes(v.header.typ as int));
        assert(b.subrange(4, 8) =~= u32_le_bytes(v.header.size as int));
        lemma_u32_le(b, 0, v.header.typ as int);
        lemma_u32_le(b, 4, v.header.size as int);
        assert(b.subrange(8, 16) =~= v.signature@);
        assert(b.subrange(17, 23) =~= v.oem_id@);
        assert(b.subrange(24, 28) =~= u32_le_bytes(v.rsdt_address as int));
        lemma_u32_le(b, 24, v.rsdt_address as int);
        lemma_array8_of(v.signature);
        lemma_array6_of(v.oem_id);
        assert(Self::spec_from_bytes(b) == Some(v));
    }

    fn id() -> (r: TagType) {
        TagType::AcpiV1
    }

    fn from_generic(tag: &GenericTag) -> (r: Option<RsdpV1Tag>) {
        let b = tag.as_bytes();
        if b.len() < 28 || tag.typ().val() != 14 {
            return None;
        }
        let signature = read_array8(b, 8);
        let oem_id = read_array6(b, 17);
        proof {
            lemma_array8_of(signature);
            lemma_array6_of(oem_id);
        }
        Some(
            RsdpV1Tag {
                header: tag.header(),
                signature,
                checksum: b[16],
                oem_id,
                revision: b[23],
                rsdt_address: read_u32_le(b, 24),
            },
        )
    }

    fn as_bytes(&self) -> (r: Vec<u8>) {
        let mut r: Vec<u8> = Vec::new();
        push_u32_le(&mut r, self.header.typ);
        push_u32_le(&mut r, self.header.size);
        push_rsdp_v1(&mut r, &self.signature, self.checksum, &self.oem_id, self.revision, self.rsdt_address);
        assert(r@ =~= Self::spec_bytes(*self));
        r
    }
}

/// The extension of an ACPI 2.0 RSDP: length, XSDT address, extended
/// checksum and reserved bytes.
pub open spec fn rsdp_v2_ext_bytes(length: u32, xsdt_address: u64, ext_checksum: u8, reserved: Seq<u8>) -> Seq<u8> {
    u32_le_bytes(length as int) + u64_le_bytes(xsdt_address as int) + seq![ext_checksum] + reserved
}

/// This tag contains a copy of RSDP as defined per ACPI 2.0 or later
/// specification.
#[derive(Clone, Copy, Debug, PartialEq, Eq)]
pub struct RsdpV2Tag {
    /// The tag's header.
    pub header: TagHeader,
    /// The "RSD PTR " marker signature.
    pub signature: [u8; 8],
    /// The checksum of the ACPI 1.0 part.
    pub checksum: u8,
    /// An OEM-supplied string that identifies the OEM.
    pub oem_id: [u8; 6],
    /// The revision of the ACPI.
    pub revision: u8,
    /// The physical address of the RSDT.
    pub rsdt_address: u32,
    /// The length of the RSDP, in bytes.
    pub length: u32,
    /// The physical address of the XSDT.
    pub xsdt_address: u64,
    /// The checksum of the entire RSDP, including both checksum fields.
    pub ext_checksum: u8,
    /// Reserved bytes, zero.
    pub _reserved: [u8; 3],
}

impl View for RsdpV2Tag {
    type V = RsdpV2Tag;

    open spec fn view(&self) -> RsdpV2Tag {
        *self
    }
}

impl RsdpV2Tag {
    /// The size of the tag, in bytes.
    pub const BASE_SIZE: u32 = 44;

    /// The tag's header.
    pub open spec fn spec_header(&self) -> TagHeader {
        self.header
    }

    /// The reserved bytes.
    pub open spec fn spec_reserved(&self) -> Seq<u8> {
        self._reserved@
    }

    /// The ACPI 1.0 part of the RSDP bytes.
    pub open spec fn spec_v1_bytes(&self) -> Seq<u8> {
        rsdp_v1_bytes(self.signature@, self.checksum, self.oem_id@, self.revision, self.rsdt_address)
    }

    /// All RSDP bytes of the tag.
    pub open spec fn spec_rsdp_bytes(&self) -> Seq<u8> {
        self.spec_v1_bytes() + rsdp_v2_ext_bytes(
            self.length,
            self.xsdt_address,
            self.ext_checksum,
            self.spec_reserved(),
        )
    }

    /// The length field covers the RSDP bytes, and both the ACPI 1.0 part and
    /// all RSDP bytes sum up to zero, modulo 256.
    pub open spec fn spec_checksum_is_valid(&self) -> bool {
        &&& self.length == 36
        &&& byte_sum(self.spec_v1_bytes()) % 256 == 0
        &&& byte_sum(self.spec_rsdp_bytes()) % 256 == 0
    }

    /// Signature of RSDP v2.
    pub fn signature_bytes() -> (r: [u8; 8])
        ensures
            r@ == rsdp_signature(),
    {
        RsdpV1Tag::signature_bytes()
    }

    /// Constructs a new tag; its checksums make the ACPI 1.0 part and all
    /// RSDP bytes sum up to zero.
    pub fn new(oem_id: [u8; 6], revision: u8, rsdt_address: u32, length: u32, xsdt_address: u64) -> (r: RsdpV2Tag)
        ensures
            RsdpV2Tag::spec_wf(r),
            r.header == (TagHeader { typ: 15, size: 44 }),
            RsdpV2Tag::spec_bytes(r) == header_bytes(15, 44) + r.spec_rsdp_bytes(),
            RsdpV2Tag::spec_bytes(r).len() == 44,
            r.signature@ == rsdp_signature(),
            r.oem_id == oem_id,
            r.revision == revision,
            r.rsdt_address == rsdt_address,
            r.length == length,
            r.xsdt_address == xsdt_address,
            byte_sum(r.spec_v1_bytes()) % 256 == 0,
            byte_sum(r.spec_rsdp_bytes()) % 256 == 0,
            r.spec_checksum_is_valid() <==> length == 36,
    {
        let signature = RsdpV2Tag::signature_bytes();
        let reserved: [u8; 3] = [0, 0, 0];
        let mut seed: Vec<u8> = Vec::new();
        push_rsdp_v1(&mut seed, &signature, 0, &oem_id, revision, rsdt_address);
        let checksum = compute_checksum(seed.as_slice());
        let mut ext_seed: Vec<u8> = Vec::new();
        push_rsdp_v1(&mut ext_seed, &signature, checksum, &oem_id, revision, rsdt_address);
        push_u32_le(&mut ext_seed, length);
        push_u64_le(&mut ext_seed, xsdt_address);
        ext_seed.push(0);
        push_bytes(&mut ext_seed, reserved.as_slice());
        let ext_checksum = compute_checksum(ext_seed.as_slice());
        proof {
            assert(seed@ =~= rsdp_v1_bytes(signature@, 0, oem_id@, revision, rsdt_address));
            lemma_rsdp_v1_bytes(signature@, checksum, oem_id@, revision, rsdt_address);
            let first = rsdp_v1_bytes(signature@, checksum, oem_id@, revision, rsdt_address);
            let lx = first + u32_le_bytes(length as int) + u64_le_bytes(xsdt_address as int);
            assert(ext_seed@ =~= lx + seq![0u8] + reserved@);
            lemma_byte_sum_around(lx, 0, reserved@);
            lemma_byte_sum_around(lx, ext_checksum, reserved@);
            assert(first + rsdp_v2_ext_bytes(length, xsdt_address, ext_checksum, reserved@) =~= lx
                + seq![ext_checksum] + reserved@);
        }
        RsdpV2Tag {
            header: TagHeader::new(TagType::AcpiV2, 44),
            signature,
            checksum,
            oem_id,
            revision,
            rsdt_address,
            length,
            xsdt_address,
            ext_checksum,
            _reserved: reserved,
        }
    }

    /// The "RSD PTR " marker signature, decoded as UTF-8.
    pub fn signature(&self) -> (r: Result<&str, core::str::Utf8Error>)
        ensures
            r is Ok <==> valid_utf8(self.signature@),
            r matches Ok(s) ==> encode_utf8(s@) == self.signature@,
    {
        str_from_utf8(self.signature.as_slice())
    }

    /// Appends all RSDP bytes of the tag.
    fn push_rsdp_bytes(&self, out: &mut Vec<u8>)
        ensures
            final(out)@ == old(out)@ + self.spec_rsdp_bytes(),
    {
        push_rsdp_v1(out, &self.signature, self.checksum, &self.oem_id, self.revision, self.rsdt_address);
        push_u32_le(out, self.length);
        push_u64_le(out, self.xsdt_address);
        out.push(self.ext_checksum);
        push_bytes(out, self._reserved.as_slice());
        assert(final(out)@ =~= old(out)@ + self.spec_rsdp_bytes());
    }

    /// Validation of the RSDPv2 extended checksum: the length field must
    /// cover the RSDP bytes, and both checksums must hold.
    pub fn checksum_is_valid(&self) -> (r: bool)
        ensures
            r == self.spec_checksum_is_valid(),
    {
        if self.length != 36 {
            return false;
        }
        let mut first: Vec<u8> = Vec::new();
        push_rsdp_v1(&mut first, &self.signature, self.checksum, &self.oem_id, self.revision, self.rsdt_address);
        let mut all: Vec<u8> = Vec::new();
        self.push_rsdp_bytes(&mut all);
        assert(first@ =~= self.spec_v1_bytes());
        assert(all@ =~= self.spec_rsdp_bytes());
        sum_bytes(first.as_slice()) == 0 && sum_bytes(all.as_slice()) == 0
    }

    /// An OEM-supplied string that identifies the OEM, decoded as UTF-8.
    pub fn oem_id(&self) -> (r: Result<&str, core::str::Utf8Error>)
        ensures
            r is Ok <==> valid_utf8(self.oem_id@),
            r matches Ok(s) ==> encode_utf8(s@) == self.oem_id@,
    {
        str_from_utf8(self.oem_id.as_slice())
    }

    /// The revision of the ACPI.
    pub fn revision(&self) -> (r: u8)
        ensures
            r == self.revision,
    {
        self.revision
    }

    /// Physical address of the XSDT table. On a 32-bit target, this is
    /// truncated from 64-bit to 32-bit.
    pub fn xsdt_address(&self) -> (r: usize)
        ensures
            r == self.xsdt_address as usize,
    {
        self.xsdt_address as usize
    }

    /// This field is used to calculate the checksum of the entire table,
    /// including both checksum fields.
    pub fn ext_checksum(&self) -> (r: u8)
        ensures
            r == self.ext_checksum,
    {
        self.ext_checksum
    }
}

impl TagTrait for RsdpV2Tag {
    open spec fn spec_type() -> TagType {
        TagType::AcpiV2
    }

    closed spec fn spec_from_bytes(b: Seq<u8>) -> Option<RsdpV2Tag> {
        if b.len() >= 44 && tag_typ(b) == 15 {
            Some(
                RsdpV2Tag {
                    header: TagHeader { typ: tag_typ(b) as u32, size: tag_size(b) as u32 },
                    signature: array8_of(b.subrange(8, 16)),
                    checksum: b[16],
                    oem_id: array6_of(b.subrange(17, 23)),
                    revision: b[23],
                    rsdt_address: spec_u32_le(b, 24) as u32,
                    length: spec_u32_le(b, 28) as u32,
                    xsdt_address: spec_u64_le(b, 32) as u64,
                    ext_checksum: b[40],
                    _reserved: array3_of(b.subrange(41, 44)),
                },
            )
        } else {
            None
        }
    }

    closed spec fn spec_bytes(v: RsdpV2Tag) -> Seq<u8> {
        header_bytes(v.header.typ, v.header.size) + v.spec_rsdp_bytes()
    }

    closed spec fn spec_wf(v: RsdpV2Tag) -> bool {
        v.header.typ == 15 && v.header.size == 44
    }

    proof fn lemma_roundtrip(v: RsdpV2Tag) {
        let b = Self::spec_bytes(v);
        assert(b.subrange(0, 4) =~= u32_le_bytes(v.header.typ as int));
        assert(b.subrange(4, 8) =~= u32_le_bytes(v.header.size as int));
        lemma_u32_le(b, 0, v.header.typ as int);
        lemma_u32_le(b, 4, v.header.size as int);
        assert(b.subrange(8, 16) =~= v.signature@);
        assert(b.subrange(17, 23) =~= v.oem_id@);
        assert(b.subrange(24, 28) =~= u32_le_bytes(v.rsdt_address as int));
        lemma_u32_le(b, 24, v.rsdt_address as int);
        assert(b.subrange(28, 32) =~= u32_le_bytes(v.length as int));
        lemma_u32_le(b, 28, v.length as int);
        assert(b.subrange(32, 40) =~= u64_le_bytes(v.xsdt_address as int));
        lemma_u64_le(b, 32, v.xsdt_address as int);
        assert(b.subrange(41, 44) =~= v._reserved@);
        lemma_array8_of(v.signature);
        lemma_array6_of(v.oem_id);
        lemma_array3_of(v._reserved);
        assert(Self::spec_from_bytes(b) == Some(v));
    }

    fn id() -> (r: TagType) {
        TagType::AcpiV2
    }

    fn from_generic(tag: &GenericTag) -> (r: Option<RsdpV2Tag>) {
        let b = tag.as_bytes();
        if b.len() < 44 || tag.typ().val() != 15 {
            return None;
        }
        let signature = read_array8(b, 8);
        let oem_id = read_array6(b, 17);
        let reserved = read_array3(b, 41);
        proof {
            lemma_array8_of(signature);
            lemma_array6_of(oem_id);
            lemma_array3_of(reserved);
        }
        Some(
            RsdpV2Tag {
                header: tag.header(),
                signature,
                checksum: b[16],
                oem_id,
                revision: b[23],
                rsdt_address: read_u32_le(b, 24),
                length: read_u32_le(b, 28),
                xsdt_address: read_u64_le(b, 32),
                ext_checksum: b[40],
                _reserved: reserved,
            },
        )
    }

    fn as_bytes(&self) -> (r: Vec<u8>) {
        let mut r: Vec<u8> = Vec::new();
        push_u32_le(&mut r, self.header.typ);
        push_u32_le(&mut r, self.header.size);
        self.push_rsdp_bytes(&mut r);
        assert(r@ =~= Self::spec_bytes(*self));
        r
    }
}

} // verus!
