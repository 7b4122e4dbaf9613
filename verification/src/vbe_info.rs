//! Module for [`VBEInfoTag`]: the VBE control and mode information that the
//! boot loader passes on.
use crate::bytes::{
    lemma_split, lemma_u16_le, lemma_u32_le, push_bytes, push_u16_le, push_u32_le, read_u16_le, read_u32_le,
    spec_u16_le, spec_u32_le, u16_le_bytes, u32_le_bytes, zeros,
};
use crate::tag::{header_bytes, tag_size, tag_typ, GenericTag, TagHeader, TagTrait, TagType};
use vstd::prelude::*;

verus! {

/// The array of `N` bytes whose view is `s`.
pub open spec fn array_of<const N: usize>(s: Seq<u8>) -> [u8; N] {
    choose|a: [u8; N]| a@ == s
}

/// An array is the one its view names.
pub proof fn lemma_array_of<const N: usize>(a: [u8; N])
    ensures
        array_of::<N>(a@) == a,
{
    let c = array_of::<N>(a@);
    assert(c@ == a@);
    assert(c =~= a);
}

/// Copies the bytes `b[off..off + N]` into `arr`.
fn fill_array<const N: usize>(arr: &mut [u8; N], b: &[u8], off: usize)
    requires
        off + N <= b@.len(),
    ensures
        final(arr)@ == b@.subrange(off as int, off + N),
{
    proof {
        vstd::array::array_len_matches_n(old(arr));
    }
    let len = b.len();
    let mut i: usize = 0;
    while i < N
        invariant
            i <= N,
            len == b@.len(),
            off + N <= b@.len(),
            arr@.len() == N,
            forall|j: int| 0 <= j < i ==> arr@[j] == b@[off + j],
        decreases N - i,
    {
        arr[i] = b[off + i];
        i = i + 1;
    }
    assert(arr@ =~= b@.subrange(off as int, off + N));
}

/// A field of a direct color mode: its size and position.
#[derive(Clone, Copy, Debug, PartialEq, Eq, Structural)]
pub struct VBEField {
    /// The size of the field, in bits.
    pub size: u8,
    /// The position of the field's lowest bit.
    pub position: u8,
}

/// The capabilities of a VBE controller (`0x1`: the DAC can be switched
/// between 6 and 8-bit modes; `0x2`: not VGA compatible; `0x4`: RAMDAC fix).
#[derive(Clone, Copy, Debug, PartialEq, Eq, Structural)]
pub struct VBECapabilities(pub u32);

/// The attributes of a VBE mode (`0x1`: supported; `0x4`: TTY output;
/// `0x8`: color; `0x10`: graphics; `0x20`: not VGA compatible; `0x40`: no
/// VGA window; `0x80`: linear framebuffer).
#[derive(Clone, Copy, Debug, PartialEq, Eq, Structural)]
pub struct VBEModeAttributes(pub u16);

/// The attributes of a VBE window (`0x1`: relocatable; `0x2`: readable;
/// `0x4`: writeable).
#[derive(Clone, Copy, Debug, PartialEq, Eq, Structural)]
pub struct VBEWindowAttributes(pub u8);

/// The direct color attributes of a VBE mode (`0x1`: programmable color
/// ramp; `0x2`: reserved bits usable).
#[derive(Clone, Copy, Debug, PartialEq, Eq, Structural)]
pub struct VBEDirectColorAttributes(pub u8);

/// The memory model of a VBE mode.
#[derive(Clone, Copy, Debug, PartialEq, Eq, Structural)]
pub enum VBEMemoryModel {
    /// `0x00`
    Text,
    /// `0x01`
    CGAGraphics,
    /// `0x02`
    HerculesGraphics,
    /// `0x03`
    Planar,
    /// `0x04`
    PackedPixel,
    /// `0x05`
    Unchained,
    /// `0x06`
    DirectColor,
    /// `0x07`
    YUV,
}

/// The byte of a memory model.
pub open spec fn vbe_memory_model_byte(m: VBEMemoryModel) -> u8 {
    match m {
        VBEMemoryModel::Text => 0,
        VBEMemoryModel::CGAGraphics => 1,
        VBEMemoryModel::HerculesGraphics => 2,
        VBEMemoryModel::Planar => 3,
        VBEMemoryModel::PackedPixel => 4,
        VBEMemoryModel::Unchained => 5,
        VBEMemoryModel::DirectColor => 6,
        VBEMemoryModel::YUV => 7,
    }
}

/// The memory model of a byte up to 7.
pub open spec fn vbe_memory_model_from(v: u8) -> VBEMemoryModel {
    if v == 0 {
        VBEMemoryModel::Text
    } else if v == 1 {
        VBEMemoryModel::CGAGraphics
    } else if v == 2 {
        VBEMemoryModel::HerculesGraphics
    } else if v == 3 {
        VBEMemoryModel::Planar
    } else if v == 4 {
        VBEMemoryModel::PackedPixel
    } else if v == 5 {
        VBEMemoryModel::Unchained
    } else if v == 6 {
        VBEMemoryModel::DirectColor
    } else {
        VBEMemoryModel::YUV
    }
}

/// A memory model's byte stands for it.
pub proof fn lemma_vbe_memory_model(m: VBEMemoryModel)
    ensures
        vbe_memory_model_byte(m) <= 7,
        vbe_memory_model_from(vbe_memory_model_byte(m)) == m,
{
}

impl VBEMemoryModel {
    /// Returns the byte of the memory model.
    pub fn as_u8(&self) -> (r: u8)
        ensures
            r == vbe_memory_model_byte(*self),
    {
        match self {
            VBEMemoryModel::Text => 0,
            VBEMemoryModel::CGAGraphics => 1,
            VBEMemoryModel::HerculesGraphics => 2,
            VBEMemoryModel::Planar => 3,
            VBEMemoryModel::PackedPixel => 4,
            VBEMemoryModel::Unchained => 5,
            VBEMemoryModel::DirectColor => 6,
            VBEMemoryModel::YUV => 7,
        }
    }
}

/// The memory model of a byte up to 7.
fn vbe_memory_model_of(v: u8) -> (r: VBEMemoryModel)
    requires
        v <= 7,
    ensures
        r == vbe_memory_model_from(v),
{
    if v == 0 {
        VBEMemoryModel::Text
    } else if v == 1 {
        VBEMemoryModel::CGAGraphics
    } else if v == 2 {
        VBEMemoryModel::HerculesGraphics
    } else if v == 3 {
        VBEMemoryModel::Planar
    } else if v == 4 {
        VBEMemoryModel::PackedPixel
    } else if v == 5 {
        VBEMemoryModel::Unchained
    } else if v == 6 {
        VBEMemoryModel::DirectColor
    } else {
        VBEMemoryModel::YUV
    }
}

/// The VBE controller information.
#[derive(Clone, Copy, Debug, PartialEq, Eq)]
pub struct VBEControlInfo {
    /// The signature, "VESA".
    pub signature: [u8; 4],
    /// The VBE version.
    pub version: u16,
    /// Pointer to the OEM string.
    pub oem_string_ptr: u32,
    /// The capabilities of the controller.
    pub capabilities: VBECapabilities,
    /// Pointer to the list of supported modes.
    pub mode_list_ptr: u32,
    /// The amount of video memory, in 64 KiB blocks.
    pub total_memory: u16,
    /// The OEM software revision.
    pub oem_software_revision: u16,
    /// Pointer to the vendor name.
    pub oem_vendor_name_ptr: u32,
    /// Pointer to the product name.
    pub oem_product_name_ptr: u32,
    /// Pointer to the product revision.
    pub oem_product_revision_ptr: u32,
    reserved: [u8; 222],
    oem_data: [u8; 256],
}

/// The 512 bytes of `v`.
#[verifier::opaque]
pub closed spec fn vbe_control_bytes(v: VBEControlInfo) -> Seq<u8> {
    v.signature@
        + u16_le_bytes(v.version as int)
        + u32_le_bytes(v.oem_string_ptr as int)
        + u32_le_bytes(v.capabilities.0 as int)
        + u32_le_bytes(v.mode_list_ptr as int)
        + u16_le_bytes(v.total_memory as int)
        + u16_le_bytes(v.oem_software_revision as int)
        + u32_le_bytes(v.oem_vendor_name_ptr as int)
        + u32_le_bytes(v.oem_product_name_ptr as int)
        + u32_le_bytes(v.oem_product_revision_ptr as int)
        + v.reserved@
        + v.oem_data@
}

/// The value stored at `off` in `b`.
pub closed spec fn vbe_control_at(b: Seq<u8>, off: int) -> VBEControlInfo {
    VBEControlInfo {
        signature: array_of::<4>(b.subrange(off + 0, off + 0 + 4)),
        version: spec_u16_le(b, off + 4) as u16,
        oem_string_ptr: spec_u32_le(b, off + 6) as u32,
        capabilities: VBECapabilities(spec_u32_le(b, off + 10) as u32),
        mode_list_ptr: spec_u32_le(b, off + 14) as u32,
        total_memory: spec_u16_le(b, off + 18) as u16,
        oem_software_revision: spec_u16_le(b, off + 20) as u16,
        oem_vendor_name_ptr: spec_u32_le(b, off + 22) as u32,
        oem_product_name_ptr: spec_u32_le(b, off + 26) as u32,
        oem_product_revision_ptr: spec_u32_le(b, off + 30) as u32,
        reserved: array_of::<222>(b.subrange(off + 34, off + 34 + 222)),
        oem_data: array_of::<256>(b.subrange(off + 256, off + 256 + 256)),
    }
}

/// The value is 512 bytes long.
pub proof fn lemma_vbe_control_bytes_len(v: VBEControlInfo)
    ensures
        vbe_control_bytes(v).len() == 512,
{
    reveal(vbe_control_bytes);
}

/// Reading the bytes of `v` gives `v` back.
pub proof fn lemma_vbe_control_roundtrip(v: VBEControlInfo, b: Seq<u8>, off: int)
    requires
        0 <= off,
        off + 512 <= b.len(),
        b.subrange(off, off + 512) == vbe_control_bytes(v),
    ensures
        vbe_control_at(b, off) == v,
{
    reveal(vbe_control_bytes);
    vstd::array::array_len_matches_n(&v.signature);
    vstd::array::array_len_matches_n(&v.reserved);
    vstd::array::array_len_matches_n(&v.oem_data);
    let s = b.subrange(off, off + 512);
    let p0 = v.signature@;
    let p1 = p0 + u16_le_bytes(v.version as int);
    let p2 = p1 + u32_le_bytes(v.oem_string_ptr as int);
    let p3 = p2 + u32_le_bytes(v.capabilities.0 as int);
    let p4 = p3 + u32_le_bytes(v.mode_list_ptr as int);
    let p5 = p4 + u16_le_bytes(v.total_memory as int);
    let p6 = p5 + u16_le_bytes(v.oem_software_revision as int);
    let p7 = p6 + u32_le_bytes(v.oem_vendor_name_ptr as int);
    let p8 = p7 + u32_le_bytes(v.oem_product_name_ptr as int);
    let p9 = p8 + u32_le_bytes(v.oem_product_revision_ptr as int);
    let p10 = p9 + v.reserved@;
    let p11 = p10 + v.oem_data@;
    assert(vbe_control_bytes(v) == p11);
    lemma_split(b, off, p10, v.oem_data@);
    lemma_split(b, off, p9, v.reserved@);
    lemma_split(b, off, p8, u32_le_bytes(v.oem_product_revision_ptr as int));
    lemma_split(b, off, p7, u32_le_bytes(v.oem_product_name_ptr as int));
    lemma_split(b, off, p6, u32_le_bytes(v.oem_vendor_name_ptr as int));
    lemma_split(b, off, p5, u16_le_bytes(v.oem_software_revision as int));
    lemma_split(b, off, p4, u16_le_bytes(v.total_memory as int));
    lemma_split(b, off, p3, u32_le_bytes(v.mode_list_ptr as int));
    lemma_split(b, off, p2, u32_le_bytes(v.capabilities.0 as int));
    lemma_split(b, off, p1, u32_le_bytes(v.oem_string_ptr as int));
    lemma_split(b, off, p0, u16_le_bytes(v.version as int));
    lemma_array_of::<4>(v.signature);
    lemma_u16_le(b, off + 4, v.version as int);
    lemma_u32_le(b, off + 6, v.oem_string_ptr as int);
    lemma_u32_le(b, off + 10, v.capabilities.0 as int);
    lemma_u32_le(b, off + 14, v.mode_list_ptr as int);
    lemma_u16_le(b, off + 18, v.total_memory as int);
    lemma_u16_le(b, off + 20, v.oem_software_revision as int);
    lemma_u32_le(b, off + 22, v.oem_vendor_name_ptr as int);
    lemma_u32_le(b, off + 26, v.oem_product_name_ptr as int);
    lemma_u32_le(b, off + 30, v.oem_product_revision_ptr as int);
    lemma_array_of::<222>(v.reserved);
    lemma_array_of::<256>(v.oem_data);
    assert(vbe_control_at(b, off) =~= v);
}

impl VBEControlInfo {
    /// Reads the value stored at `off`.
    fn read_at(b: &[u8], off: usize) -> (r: VBEControlInfo)
        requires
            off + 512 <= b@.len(),
        ensures
            r == vbe_control_at(b@, off as int),
    {
        let _len = b.len();
        let mut signature = [0u8; 4];
        fill_array(&mut signature, b, off + 0);
        let mut reserved = [0u8; 222];
        fill_array(&mut reserved, b, off + 34);
        let mut oem_data = [0u8; 256];
        fill_array(&mut oem_data, b, off + 256);
        proof {
            lemma_array_of::<4>(signature);
            lemma_array_of::<222>(reserved);
            lemma_array_of::<256>(oem_data);
        }
        VBEControlInfo { signature: signature, version: read_u16_le(b, off + 4), oem_string_ptr: read_u32_le(b, off + 6), capabilities: VBECapabilities(read_u32_le(b, off + 10)), mode_list_ptr: read_u32_le(b, off + 14), total_memory: read_u16_le(b, off + 18), oem_software_revision: read_u16_le(b, off + 20), oem_vendor_name_ptr: read_u32_le(b, off + 22), oem_product_name_ptr: read_u32_le(b, off + 26), oem_product_revision_ptr: read_u32_le(b, off + 30), reserved: reserved, oem_data: oem_data }
    }

    /// Appends the bytes of the value.
    #[verifier::rlimit(40)]
    fn push_bytes_to(&self, out: &mut Vec<u8>)
        ensures
            final(out)@ == old(out)@ + vbe_control_bytes(*self),
    {
        let ghost start = out@;
        let ghost mut acc: Seq<u8> = Seq::empty();
        push_bytes(out, self.signature.as_slice());
        proof { acc = self.signature@; }
        push_u16_le(out, self.version);
        proof { acc = acc + u16_le_bytes(self.version as int); }
        push_u32_le(out, self.oem_string_ptr);
        proof { acc = acc + u32_le_bytes(self.oem_string_ptr as int); }
        push_u32_le(out, self.capabilities.0);
        proof { acc = acc + u32_le_bytes(self.capabilities.0 as int); }
        push_u32_le(out, self.mode_list_ptr);
        proof { acc = acc + u32_le_bytes(self.mode_list_ptr as int); }
        push_u16_le(out, self.total_memory);
        proof { acc = acc + u16_le_bytes(self.total_memory as int); }
        push_u16_le(out, self.oem_software_revision);
        proof { acc = acc + u16_le_bytes(self.oem_software_revision as int); }
        push_u32_le(out, self.oem_vendor_name_ptr);
        proof { acc = acc + u32_le_bytes(self.oem_vendor_name_ptr as int); }
        push_u32_le(out, self.oem_product_name_ptr);
        proof { acc = acc + u32_le_bytes(self.oem_product_name_ptr as int); }
        push_u32_le(out, self.oem_product_revision_ptr);
        proof { acc = acc + u32_le_bytes(self.oem_product_revision_ptr as int); }
        push_bytes(out, self.reserved.as_slice());
        proof { acc = acc + self.reserved@; }
        push_bytes(out, self.oem_data.as_slice());
        proof { acc = acc + self.oem_data@; }
        reveal(vbe_control_bytes);
        assert(out@ =~= start + acc);
    }
}

impl Default for VBEControlInfo {
    fn default() -> (r: VBEControlInfo)
        ensures
            vbe_control_bytes(r) == zeros(512),
    {
        let r = VBEControlInfo { signature: [0u8; 4], version: 0, oem_string_ptr: 0, capabilities: VBECapabilities(0), mode_list_ptr: 0, total_memory: 0, oem_software_revision: 0, oem_vendor_name_ptr: 0, oem_product_name_ptr: 0, oem_product_revision_ptr: 0, reserved: [0u8; 222], oem_data: [0u8; 256] };
        proof {
            reveal(vbe_control_bytes);
            assert(vbe_control_bytes(r) =~= zeros(512));
        }
        r
    }
}

/// The VBE information of the current mode.
#[derive(Clone, Copy, Debug, PartialEq, Eq)]
pub struct VBEModeInfo {
    /// The attributes of the mode.
    pub mode_attributes: VBEModeAttributes,
    /// The attributes of window A.
    pub window_a_attributes: VBEWindowAttributes,
    /// The attributes of window B.
    pub window_b_attributes: VBEWindowAttributes,
    /// The window granularity, in KiB.
    pub window_granularity: u16,
    /// The window size.
    pub window_size: u16,
    /// The segment of window A.
    pub window_a_segment: u16,
    /// The segment of window B.
    pub window_b_segment: u16,
    /// Pointer to the window function.
    pub window_function_ptr: u32,
    /// The bytes per scan line.
    pub pitch: u16,
    /// The width and height.
    pub resolution: (u16, u16),
    /// The width and height of a character cell.
    pub character_size: (u8, u8),
    /// The number of memory planes.
    pub number_of_planes: u8,
    /// The bits per pixel.
    pub bpp: u8,
    /// The number of banks.
    pub number_of_banks: u8,
    /// The memory model.
    pub memory_model: VBEMemoryModel,
    /// The bank size, in KiB.
    pub bank_size: u8,
    /// The number of image pages.
    pub number_of_image_pages: u8,
    reserved0: u8,
    /// The red field of a direct color mode.
    pub red_field: VBEField,
    /// The green field of a direct color mode.
    pub green_field: VBEField,
    /// The blue field of a direct color mode.
    pub blue_field: VBEField,
    /// The reserved field of a direct color mode.
    pub reserved_field: VBEField,
    /// The direct color attributes.
    pub direct_color_attributes: VBEDirectColorAttributes,
    /// The physical address of the framebuffer.
    pub framebuffer_base_ptr: u32,
    /// The offset of the offscreen memory.
    pub offscreen_memory_offset: u32,
    /// The size of the offscreen memory.
    pub offscreen_memory_size: u16,
    reserved1: [u8; 206],
}

/// The 256 bytes of `v`.
#[verifier::opaque]
pub closed spec fn vbe_mode_bytes(v: VBEModeInfo) -> Seq<u8> {
    u16_le_bytes(v.mode_attributes.0 as int)
        + seq![v.window_a_attributes.0]
        + seq![v.window_b_attributes.0]
        + u16_le_bytes(v.window_granularity as int)
        + u16_le_bytes(v.window_size as int)
        + u16_le_bytes(v.window_a_segment as int)
        + u16_le_bytes(v.window_b_segment as int)
        + u32_le_bytes(v.window_function_ptr as int)
        + u16_le_bytes(v.pitch as int)
        + (u16_le_bytes(v.resolution.0 as int) + u16_le_bytes(v.resolution.1 as int))
        + seq![v.character_size.0, v.character_size.1]
        + seq![v.number_of_planes]
        + seq![v.bpp]
        + seq![v.number_of_banks]
        + seq![vbe_memory_model_byte(v.memory_model)]
        + seq![v.bank_size]
        + seq![v.number_of_image_pages]
        + seq![v.reserved0]
        + seq![v.red_field.size, v.red_field.position]
        + seq![v.green_field.size, v.green_field.position]
        + seq![v.blue_field.size, v.blue_field.position]
        + seq![v.reserved_field.size, v.reserved_field.position]
        + seq![v.direct_color_attributes.0]
        + u32_le_bytes(v.framebuffer_base_ptr as int)
        + u32_le_bytes(v.offscreen_memory_offset as int)
        + u16_le_bytes(v.offscreen_memory_size as int)
        + v.reserved1@
}

/// The value stored at `off` in `b`.
pub closed spec fn vbe_mode_at(b: Seq<u8>, off: int) -> VBEModeInfo {
    VBEModeInfo {
        mode_attributes: VBEModeAttributes(spec_u16_le(b, off + 0) as u16),
        window_a_attributes: VBEWindowAttributes(b[off + 2]),
        window_b_attributes: VBEWindowAttributes(b[off + 3]),
        window_granularity: spec_u16_le(b, off + 4) as u16,
        window_size: spec_u16_le(b, off + 6) as u16,
        window_a_segment: spec_u16_le(b, off + 8) as u16,
        window_b_segment: spec_u16_le(b, off + 10) as u16,
        window_function_ptr: spec_u32_le(b, off + 12) as u32,
        pitch: spec_u16_le(b, off + 16) as u16,
        resolution: (spec_u16_le(b, off + 18) as u16, spec_u16_le(b, off + 18 + 2) as u16),
        character_size: (b[off + 22], b[off + 22 + 1]),
        number_of_planes: b[off + 24],
        bpp: b[off + 25],
        number_of_banks: b[off + 26],
        memory_model: vbe_memory_model_from(b[off + 27]),
        bank_size: b[off + 28],
        number_of_image_pages: b[off + 29],
        reserved0: b[off + 30],
        red_field: VBEField { size: b[off + 31], position: b[off + 31 + 1] },
        green_field: VBEField { size: b[off + 33], position: b[off + 33 + 1] },
        blue_field: VBEField { size: b[off + 35], position: b[off + 35 + 1] },
        reserved_field: VBEField { size: b[off + 37], position: b[off + 37 + 1] },
        direct_color_attributes: VBEDirectColorAttributes(b[off + 39]),
        framebuffer_base_ptr: spec_u32_le(b, off + 40) as u32,
        offscreen_memory_offset: spec_u32_le(b, off + 44) as u32,
        offscreen_memory_size: spec_u16_le(b, off + 48) as u16,
        reserved1: array_of::<206>(b.subrange(off + 50, off + 50 + 206)),
    }
}

/// The bytes at `off` in `b` hold a known memory model.
pub open spec fn vbe_mode_valid_at(b: Seq<u8>, off: int) -> bool {
    b[off + 27] <= 7
}

/// The value is 256 bytes long.
pub proof fn lemma_vbe_mode_bytes_len(v: VBEModeInfo)
    ensures
        vbe_mode_bytes(v).len() == 256,
{
    reveal(vbe_mode_bytes);
}

/// Reading the bytes of `v` gives `v` back.
pub proof fn lemma_vbe_mode_roundtrip(v: VBEModeInfo, b: Seq<u8>, off: int)
    requires
        0 <= off,
        off + 256 <= b.len(),
        b.subrange(off, off + 256) == vbe_mode_bytes(v),
    ensures
        vbe_mode_at(b, off) == v,
        vbe_mode_valid_at(b, off),
{
    reveal(vbe_mode_bytes);
    vstd::array::array_len_matches_n(&v.reserved1);
    let s = b.subrange(off, off + 256);
    lemma_vbe_memory_model(v.memory_model);
    let p0 = u16_le_bytes(v.mode_attributes.0 as int);
    let p1 = p0 + seq![v.window_a_attributes.0];
    let p2 = p1 + seq![v.window_b_attributes.0];
    let p3 = p2 + u16_le_bytes(v.window_granularity as int);
    let p4 = p3 + u16_le_bytes(v.window_size as int);
    let p5 = p4 + u16_le_bytes(v.window_a_segment as int);
    let p6 = p5 + u16_le_bytes(v.window_b_segment as int);
    let p7 = p6 + u32_le_bytes(v.window_function_ptr as int);
    let p8 = p7 + u16_le_bytes(v.pitch as int);
    let p9 = p8 + (u16_le_bytes(v.resolution.0 as int) + u16_le_bytes(v.resolution.1 as int));
    let p10 = p9 + seq![v.character_size.0, v.character_size.1];
    let p11 = p10 + seq![v.number_of_planes];
    let p12 = p11 + seq![v.bpp];
    let p13 = p12 + seq![v.number_of_banks];
    let p14 = p13 + seq![vbe_memory_model_byte(v.memory_model)];
    let p15 = p14 + seq![v.bank_size];
    let p16 = p15 + seq![v.number_of_image_pages];
    let p17 = p16 + seq![v.reserved0];
    let p18 = p17 + seq![v.red_field.size, v.red_field.position];
    let p19 = p18 + seq![v.green_field.size, v.green_field.position];
    let p20 = p19 + seq![v.blue_field.size, v.blue_field.position];
    let p21 = p20 + seq![v.reserved_field.size, v.reserved_field.position];
    let p22 = p21 + seq![v.direct_color_attributes.0];
    let p23 = p22 + u32_le_bytes(v.framebuffer_base_ptr as int);
    let p24 = p23 + u32_le_bytes(v.offscreen_memory_offset as int);
    let p25 = p24 + u16_le_bytes(v.offscreen_memory_size as int);
    let p26 = p25 + v.reserved1@;
    assert(vbe_mode_bytes(v) == p26);
    lemma_split(b, off, p25, v.reserved1@);
    lemma_split(b, off, p24, u16_le_bytes(v.offscreen_memory_size as int));
    lemma_split(b, off, p23, u32_le_bytes(v.offscreen_memory_offset as int));
    lemma_split(b, off, p22, u32_le_bytes(v.framebuffer_base_ptr as int));
    lemma_split(b, off, p21, seq![v.direct_color_attributes.0]);
    lemma_split(b, off, p20, seq![v.reserved_field.size, v.reserved_field.position]);
    lemma_split(b, off, p19, seq![v.blue_field.size, v.blue_field.position]);
    lemma_split(b, off, p18, seq![v.green_field.size, v.green_field.position]);
    lemma_split(b, off, p17, seq![v.red_field.size, v.red_field.position]);
    lemma_split(b, off, p16, seq![v.reserved0]);
    lemma_split(b, off, p15, seq![v.number_of_image_pages]);
    lemma_split(b, off, p14, seq![v.bank_size]);
    lemma_split(b, off, p13, seq![vbe_memory_model_byte(v.memory_model)]);
    lemma_split(b, off, p12, seq![v.number_of_banks]);
    lemma_split(b, off, p11, seq![v.bpp]);
    lemma_split(b, off, p10, seq![v.number_of_planes]);
    lemma_split(b, off, p9, seq![v.character_size.0, v.character_size.1]);
    lemma_split(b, off, p8, (u16_le_bytes(v.resolution.0 as int) + u16_le_bytes(v.resolution.1 as int)));
    lemma_split(b, off, p7, u16_le_bytes(v.pitch as int));
    lemma_split(b, off, p6, u32_le_bytes(v.window_function_ptr as int));
    lemma_split(b, off, p5, u16_le_bytes(v.window_b_segment as int));
    lemma_split(b, off, p4, u16_le_bytes(v.window_a_segment as int));
    lemma_split(b, off, p3, u16_le_bytes(v.window_size as int));
    lemma_split(b, off, p2, u16_le_bytes(v.window_granularity as int));
    lemma_split(b, off, p1, seq![v.window_b_attributes.0]);
    lemma_split(b, off, p0, seq![v.window_a_attributes.0]);
    lemma_u16_le(b, off + 0, v.mode_attributes.0 as int);
    assert(b[off + 2] == b.subrange(off + 2, off + 2 + 1)[0]);
    assert(b[off + 3] == b.subrange(off + 3, off + 3 + 1)[0]);
    lemma_u16_le(b, off + 4, v.window_granularity as int);
    lemma_u16_le(b, off + 6, v.window_size as int);
    lemma_u16_le(b, off + 8, v.window_a_segment as int);
    lemma_u16_le(b, off + 10, v.window_b_segment as int);
    lemma_u32_le(b, off + 12, v.window_function_ptr as int);
    lemma_u16_le(b, off + 16, v.pitch as int);
    lemma_split(b, off + 18, u16_le_bytes(v.resolution.0 as int), u16_le_bytes(v.resolution.1 as int));
    lemma_u16_le(b, off + 18, v.resolution.0 as int);
    lemma_u16_le(b, off + 18 + 2, v.resolution.1 as int);
    assert(b[off + 22] == b.subrange(off + 22, off + 22 + 2)[0]);
    assert(b[off + 22 + 1] == b.subrange(off + 22, off + 22 + 2)[1]);
    assert(b[off + 24] == b.subrange(off + 24, off + 24 + 1)[0]);
    assert(b[off + 25] == b.subrange(off + 25, off + 25 + 1)[0]);
    assert(b[off + 26] == b.subrange(off + 26, off + 26 + 1)[0]);
    assert(b[off + 27] == b.subrange(off + 27, off + 27 + 1)[0]);
    assert(b[off + 28] == b.subrange(off + 28, off + 28 + 1)[0]);
    assert(b[off + 29] == b.subrange(off + 29, off + 29 + 1)[0]);
    assert(b[off + 30] == b.subrange(off + 30, off + 30 + 1)[0]);
    assert(b[off + 31] == b.subrange(off + 31, off + 31 + 2)[0]);
    assert(b[off + 31 + 1] == b.subrange(off + 31, off + 31 + 2)[1]);
    assert(b[off + 33] == b.subrange(off + 33, off + 33 + 2)[0]);
    assert(b[off + 33 + 1] == b.subrange(off + 33, off + 33 + 2)[1]);
    assert(b[off + 35] == b.subrange(off + 35, off + 35 + 2)[0]);
    assert(b[off + 35 + 1] == b.subrange(off + 35, off + 35 + 2)[1]);
    assert(b[off + 37] == b.subrange(off + 37, off + 37 + 2)[0]);
    assert(b[off + 37 + 1] == b.subrange(off + 37, off + 37 + 2)[1]);
    assert(b[off + 39] == b.subrange(off + 39, off + 39 + 1)[0]);
    lemma_u32_le(b, off + 40, v.framebuffer_base_ptr as int);
    lemma_u32_le(b, off + 44, v.offscreen_memory_offset as int);
    lemma_u16_le(b, off + 48, v.offscreen_memory_size as int);
    lemma_array_of::<206>(v.reserved1);
    assert(vbe_mode_at(b, off) =~= v);
}

impl VBEModeInfo {
    /// Reads the value stored at `off`.
    fn read_at(b: &[u8], off: usize) -> (r: VBEModeInfo)
        requires
            off + 256 <= b@.len(),
            vbe_mode_valid_at(b@, off as int),
        ensures
            r == vbe_mode_at(b@, off as int),
    {
        let _len = b.len();
        let mut reserved1 = [0u8; 206];
        fill_array(&mut reserved1, b, off + 50);
        proof {
            lemma_array_of::<206>(reserved1);
        }
        VBEModeInfo { mode_attributes: VBEModeAttributes(read_u16_le(b, off + 0)), window_a_attributes: VBEWindowAttributes(b[off + 2]), window_b_attributes: VBEWindowAttributes(b[off + 3]), window_granularity: read_u16_le(b, off + 4), window_size: read_u16_le(b, off + 6), window_a_segment: read_u16_le(b, off + 8), window_b_segment: read_u16_le(b, off + 10), window_function_ptr: read_u32_le(b, off + 12), pitch: read_u16_le(b, off + 16), resolution: (read_u16_le(b, off + 18), read_u16_le(b, off + 18 + 2)), character_size: (b[off + 22], b[off + 22 + 1]), number_of_planes: b[off + 24], bpp: b[off + 25], number_of_banks: b[off + 26], memory_model: vbe_memory_model_of(b[off + 27]), bank_size: b[off + 28], number_of_image_pages: b[off + 29], reserved0: b[off + 30], red_field: VBEField { size: b[off + 31], position: b[off + 31 + 1] }, green_field: VBEField { size: b[off + 33], position: b[off + 33 + 1] }, blue_field: VBEField { size: b[off + 35], position: b[off + 35 + 1] }, reserved_field: VBEField { size: b[off + 37], position: b[off + 37 + 1] }, direct_color_attributes: VBEDirectColorAttributes(b[off + 39]), framebuffer_base_ptr: read_u32_le(b, off + 40), offscreen_memory_offset: read_u32_le(b, off + 44), offscreen_memory_size: read_u16_le(b, off + 48), reserved1: reserved1 }
    }

    /// Appends the bytes of the value.
    #[verifier::rlimit(40)]
    fn push_bytes_to(&self, out: &mut Vec<u8>)
        ensures
            final(out)@ == old(out)@ + vbe_mode_bytes(*self),
    {
        let ghost start = out@;
        let ghost mut acc: Seq<u8> = Seq::empty();
        push_u16_le(out, self.mode_attributes.0);
        proof { acc = u16_le_bytes(self.mode_attributes.0 as int); }
        out.push(self.window_a_attributes.0);
        proof { acc = acc + seq![self.window_a_attributes.0]; }
        out.push(self.window_b_attributes.0);
        proof { acc = acc + seq![self.window_b_attributes.0]; }
        push_u16_le(out, self.window_granularity);
        proof { acc = acc + u16_le_bytes(self.window_granularity as int); }
        push_u16_le(out, self.window_size);
        proof { acc = acc + u16_le_bytes(self.window_size as int); }
        push_u16_le(out, self.window_a_segment);
        proof { acc = acc + u16_le_bytes(self.window_a_segment as int); }
        push_u16_le(out, self.window_b_segment);
        proof { acc = acc + u16_le_bytes(self.window_b_segment as int); }
        push_u32_le(out, self.window_function_ptr);
        proof { acc = acc + u32_le_bytes(self.window_function_ptr as int); }
        push_u16_le(out, self.pitch);
        proof { acc = acc + u16_le_bytes(self.pitch as int); }
        push_u16_le(out, self.resolution.0);
        push_u16_le(out, self.resolution.1);
        proof { acc = acc + (u16_le_bytes(self.resolution.0 as int) + u16_le_bytes(self.resolution.1 as int)); }
        out.push(self.character_size.0);
        out.push(self.character_size.1);
        proof { acc = acc + seq![self.character_size.0, self.character_size.1]; }
        out.push(self.number_of_planes);
        proof { acc = acc + seq![self.number_of_planes]; }
        out.push(self.bpp);
        proof { acc = acc + seq![self.bpp]; }
        out.push(self.number_of_banks);
        proof { acc = acc + seq![self.number_of_banks]; }
        out.push(self.memory_model.as_u8());
        proof { acc = acc + seq![vbe_memory_model_byte(self.memory_model)]; }
        out.push(self.bank_size);
        proof { acc = acc + seq![self.bank_size]; }
        out.push(self.number_of_image_pages);
        proof { acc = acc + seq![self.number_of_image_pages]; }
        out.push(self.reserved0);
        proof { acc = acc + seq![self.reserved0]; }
        out.push(self.red_field.size);
        out.push(self.red_field.position);
        proof { acc = acc + seq![self.red_field.size, self.red_field.position]; }
        out.push(self.green_field.size);
        out.push(self.green_field.position);
        proof { acc = acc + seq![self.green_field.size, self.green_field.position]; }
        out.push(self.blue_field.size);
        out.push(self.blue_field.position);
        proof { acc = acc + seq![self.blue_field.size, self.blue_field.position]; }
        out.push(self.reserved_field.size);
        out.push(self.reserved_field.position);
        proof { acc = acc + seq![self.reserved_field.size, self.reserved_field.position]; }
        out.push(self.direct_color_attributes.0);
        proof { acc = acc + seq![self.direct_color_attributes.0]; }
        push_u32_le(out, self.framebuffer_base_ptr);
        proof { acc = acc + u32_le_bytes(self.framebuffer_base_ptr as int); }
        push_u32_le(out, self.offscreen_memory_offset);
        proof { acc = acc + u32_le_bytes(self.offscreen_memory_offset as int); }
        push_u16_le(out, self.offscreen_memory_size);
        proof { acc = acc + u16_le_bytes(self.offscreen_memory_size as int); }
        push_bytes(out, self.reserved1.as_slice());
        proof { acc = acc + self.reserved1@; }
        reveal(vbe_mode_bytes);
        assert(out@ =~= start + acc);
    }
}

impl Default for VBEModeInfo {
    fn default() -> (r: VBEModeInfo)
        ensures
            vbe_mode_bytes(r) == zeros(256),
    {
        let r = VBEModeInfo { mode_attributes: VBEModeAttributes(0), window_a_attributes: VBEWindowAttributes(0), window_b_attributes: VBEWindowAttributes(0), window_granularity: 0, window_size: 0, window_a_segment: 0, window_b_segment: 0, window_function_ptr: 0, pitch: 0, resolution: (0, 0), character_size: (0, 0), number_of_planes: 0, bpp: 0, number_of_banks: 0, memory_model: VBEMemoryModel::Text, bank_size: 0, number_of_image_pages: 0, reserved0: 0, red_field: VBEField { size: 0, position: 0 }, green_field: VBEField { size: 0, position: 0 }, blue_field: VBEField { size: 0, position: 0 }, reserved_field: VBEField { size: 0, position: 0 }, direct_color_attributes: VBEDirectColorAttributes(0), framebuffer_base_ptr: 0, offscreen_memory_offset: 0, offscreen_memory_size: 0, reserved1: [0u8; 206] };
        proof {
            reveal(vbe_mode_bytes);
            assert(vbe_mode_bytes(r) =~= zeros(256));
        }
        r
    }
}

/// The VBE information tag.
#[derive(Clone, Copy, Debug, PartialEq, Eq)]
pub struct VBEInfoTag {
    /// The tag's header.
    pub header: TagHeader,
    /// The current VBE mode.
    pub mode: u16,
    /// The segment of the protected mode interface.
    pub interface_segment: u16,
    /// The offset of the protected mode interface.
    pub interface_offset: u16,
    /// The length of the protected mode interface.
    pub interface_length: u16,
    /// The VBE controller information.
    pub control_info: VBEControlInfo,
    /// The VBE information of the current mode.
    pub mode_info: VBEModeInfo,
}

impl View for VBEInfoTag {
    type V = VBEInfoTag;

    open spec fn view(&self) -> VBEInfoTag {
        *self
    }
}

impl VBEInfoTag {
    /// The size of the tag, in bytes.
    pub const BASE_SIZE: u32 = 784;

    /// The tag's header.
    pub closed spec fn spec_header(&self) -> TagHeader {
        self.header
    }

    /// Constructs a new tag.
    pub fn new(
        mode: u16,
        interface_segment: u16,
        interface_offset: u16,
        interface_length: u16,
        control_info: VBEControlInfo,
        mode_info: VBEModeInfo,
    ) -> (r: VBEInfoTag)
        ensures
            VBEInfoTag::spec_wf(r),
            r.header == (TagHeader { typ: 7, size: 784 }),
            VBEInfoTag::spec_bytes(r).len() == 784,
            r.mode == mode,
            r.interface_segment == interface_segment,
            r.interface_offset == interface_offset,
            r.interface_length == interface_length,
            r.control_info == control_info,
            r.mode_info == mode_info,
    {
        proof {
            lemma_vbe_control_bytes_len(control_info);
            lemma_vbe_mode_bytes_len(mode_info);
        }
        VBEInfoTag {
            header: TagHeader::new(TagType::Vbe, 784),
            mode,
            interface_segment,
            interface_offset,
            interface_length,
            control_info,
            mode_info,
        }
    }
}

impl TagTrait for VBEInfoTag {
    open spec fn spec_type() -> TagType {
        TagType::Vbe
    }

    closed spec fn spec_from_bytes(b: Seq<u8>) -> Option<VBEInfoTag> {
        if b.len() >= 784 && tag_typ(b) == 7 && vbe_mode_valid_at(b, 528) {
            Some(
                VBEInfoTag {
                    header: TagHeader { typ: tag_typ(b) as u32, size: tag_size(b) as u32 },
                    mode: spec_u16_le(b, 8) as u16,
                    interface_segment: spec_u16_le(b, 10) as u16,
                    interface_offset: spec_u16_le(b, 12) as u16,
                    interface_length: spec_u16_le(b, 14) as u16,
                    control_info: vbe_control_at(b, 16),
                    mode_info: vbe_mode_at(b, 528),
                },
            )
        } else {
            None
        }
    }

    closed spec fn spec_bytes(v: VBEInfoTag) -> Seq<u8> {
        header_bytes(v.header.typ, v.header.size) + u16_le_bytes(v.mode as int) + u16_le_bytes(
            v.interface_segment as int,
        ) + u16_le_bytes(v.interface_offset as int) + u16_le_bytes(v.interface_length as int)
            + vbe_control_bytes(v.control_info) + vbe_mode_bytes(v.mode_info)
    }

    closed spec fn spec_wf(v: VBEInfoTag) -> bool {
        v.header.typ == 7 && v.header.size == 784
    }

    proof fn lemma_roundtrip(v: VBEInfoTag) {
        let b = Self::spec_bytes(v);
        lemma_vbe_control_bytes_len(v.control_info);
        lemma_vbe_mode_bytes_len(v.mode_info);
        let p0 = header_bytes(v.header.typ, v.header.size);
        let p1 = p0 + u16_le_bytes(v.mode as int);
        let p2 = p1 + u16_le_bytes(v.interface_segment as int);
        let p3 = p2 + u16_le_bytes(v.interface_offset as int);
        let p4 = p3 + u16_le_bytes(v.interface_length as int);
        let p5 = p4 + vbe_control_bytes(v.control_info);
        assert(b.subrange(0, 784) =~= b);
        lemma_split(b, 0, p5, vbe_mode_bytes(v.mode_info));
        lemma_split(b, 0, p4, vbe_control_bytes(v.control_info));
        lemma_split(b, 0, p3, u16_le_bytes(v.interface_length as int));
        lemma_split(b, 0, p2, u16_le_bytes(v.interface_offset as int));
        lemma_split(b, 0, p1, u16_le_bytes(v.interface_segment as int));
        lemma_split(b, 0, p0, u16_le_bytes(v.mode as int));
        lemma_split(b, 0, u32_le_bytes(v.header.typ as int), u32_le_bytes(v.header.size as int));
        lemma_u32_le(b, 0, v.header.typ as int);
        lemma_u32_le(b, 4, v.header.size as int);
        lemma_u16_le(b, 8, v.mode as int);
        lemma_u16_le(b, 10, v.interface_segment as int);
        lemma_u16_le(b, 12, v.interface_offset as int);
        lemma_u16_le(b, 14, v.interface_length as int);
        lemma_vbe_control_roundtrip(v.control_info, b, 16);
        lemma_vbe_mode_roundtrip(v.mode_info, b, 528);
        assert(Self::spec_from_bytes(b) == Some(v));
    }

    fn id() -> (r: TagType) {
        TagType::Vbe
    }

    fn from_generic(tag: &GenericTag) -> (r: Option<VBEInfoTag>) {
        let b = tag.as_bytes();
        if b.len() < 784 || tag.typ().val() != 7 || b[555] > 7 {
            return None;
        }
        Some(
            VBEInfoTag {
                header: tag.header(),
                mode: read_u16_le(b, 8),
                interface_segment: read_u16_le(b, 10),
                interface_offset: read_u16_le(b, 12),
                interface_length: read_u16_le(b, 14),
                control_info: VBEControlInfo::read_at(b, 16),
                mode_info: VBEModeInfo::read_at(b, 528),
            },
        )
    }

    fn as_bytes(&self) -> (r: Vec<u8>) {
        let mut r: Vec<u8> = Vec::new();
        push_u32_le(&mut r, self.header.typ);
        push_u32_le(&mut r, self.header.size);
        push_u16_le(&mut r, self.mode);
        push_u16_le(&mut r, self.interface_segment);
        push_u16_le(&mut r, self.interface_offset);
        push_u16_le(&mut r, self.interface_length);
        self.control_info.push_bytes_to(&mut r);
        self.mode_info.push_bytes_to(&mut r);
        assert(r@ =~= Self::spec_bytes(*self));
        r
    }
}

/// The memory models carry the numbers of the VBE specification: `0` text,
/// `1` CGA graphics, `2` Hercules graphics, `3` planar, `4` packed pixel, `5`
/// non-chain 4 with 256 colors, `6` direct color, `7` YUV.
pub proof fn lemma_vbe_memory_model_numbering(v: u8)
    ensures
        vbe_memory_model_byte(VBEMemoryModel::Text) == 0,
        vbe_memory_model_byte(VBEMemoryModel::CGAGraphics) == 1,
        vbe_memory_model_byte(VBEMemoryModel::HerculesGraphics) == 2,
        vbe_memory_model_byte(VBEMemoryModel::Planar) == 3,
        vbe_memory_model_byte(VBEMemoryModel::PackedPixel) == 4,
        vbe_memory_model_byte(VBEMemoryModel::Unchained) == 5,
        vbe_memory_model_byte(VBEMemoryModel::DirectColor) == 6,
        vbe_memory_model_byte(VBEMemoryModel::YUV) == 7,
        v == 0 ==> vbe_memory_model_from(v) == VBEMemoryModel::Text,
        v == 1 ==> vbe_memory_model_from(v) == VBEMemoryModel::CGAGraphics,
        v == 2 ==> vbe_memory_model_from(v) == VBEMemoryModel::HerculesGraphics,
        v == 3 ==> vbe_memory_model_from(v) == VBEMemoryModel::Planar,
        v == 4 ==> vbe_memory_model_from(v) == VBEMemoryModel::PackedPixel,
        v == 5 ==> vbe_memory_model_from(v) == VBEMemoryModel::Unchained,
        v == 6 ==> vbe_memory_model_from(v) == VBEMemoryModel::DirectColor,
        v == 7 ==> vbe_memory_model_from(v) == VBEMemoryModel::YUV,
{
}

} // verus!
