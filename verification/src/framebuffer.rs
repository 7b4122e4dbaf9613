//! Module for [`FramebufferTag`].
use crate::bytes::{copy_range, lemma_u32_le, lemma_u32_le_same, lemma_u64_le, push_bytes, push_u32_le, push_u64_le, read_u32_le, read_u64_le, spec_u32_le, spec_u64_le, u32_le_bytes, u64_le_bytes};
use crate::tag::{lemma_tag_with_payload, new_tag_bytes, tag_bytes_wf, tag_typ, tag_with_payload, GenericTag, TagTrait, TagType};
use vstd::prelude::*;
use vstd::std_specs::cmp::PartialEqSpecImpl;

verus! {

/// Reads bytes from a buffer and advances its position with each read.
struct Reader<'a> {
    buffer: &'a [u8],
    off: usize,
}

impl<'a> Reader<'a> {
    fn new(buffer: &'a [u8]) -> (r: Reader<'a>)
        ensures
            r.buffer@ == buffer@,
            r.off == 0,
    {
        Reader { buffer, off: 0 }
    }

    /// Reads the next [`u8`] from the buffer and advances the position.
    fn read_next_u8(&mut self) -> (r: u8)
        requires
            old(self).off < old(self).buffer@.len(),
        ensures
            r == old(self).buffer@[old(self).off as int],
            final(self).off == old(self).off + 1,
            final(self).buffer@ == old(self).buffer@,
    {
        let val = self.buffer[self.off];
        self.off = self.off + 1;
        val
    }

    /// Reads the next little-endian [`u32`] from the buffer and advances the
    /// position.
    fn read_next_u32(&mut self) -> (r: u32)
        requires
            old(self).off + 4 <= old(self).buffer@.len(),
        ensures
            r == spec_u32_le(old(self).buffer@, old(self).off as int),
            final(self).off == old(self).off + 4,
            final(self).buffer@ == old(self).buffer@,
    {
        let _len = self.buffer.len();
        let val = read_u32_le(self.buffer, self.off);
        self.off = self.off + 4;
        val
    }
}

/// ABI-compatible framebuffer type.
#[derive(Clone, Copy, Debug, PartialEq, Eq, Structural)]
pub enum FramebufferTypeId {
    /// Indexed color (`0`).
    Indexed,
    /// Direct RGB color (`1`).
    RGB,
    /// EGA text (`2`).
    Text,
}

/// The byte that stands for a framebuffer type id.
pub open spec fn fb_type_id_byte(id: FramebufferTypeId) -> u8 {
    match id {
        FramebufferTypeId::Indexed => 0,
        FramebufferTypeId::RGB => 1,
        FramebufferTypeId::Text => 2,
    }
}

/// The framebuffer type id that a byte stands for, or the error for an
/// unknown one.
pub open spec fn fb_type_id_from(v: u8) -> Result<FramebufferTypeId, UnknownFramebufferType> {
    if v == 0 {
        Ok(FramebufferTypeId::Indexed)
    } else if v == 1 {
        Ok(FramebufferTypeId::RGB)
    } else if v == 2 {
        Ok(FramebufferTypeId::Text)
    } else {
        Err(UnknownFramebufferType(v))
    }
}

impl FramebufferTypeId {
    /// Returns the byte that stands for the type id.
    pub fn as_u8(&self) -> (r: u8)
        ensures
            r == fb_type_id_byte(*self),
    {
        match self {
            FramebufferTypeId::Indexed => 0,
            FramebufferTypeId::RGB => 1,
            FramebufferTypeId::Text => 2,
        }
    }
}

/// The framebuffer type id that a byte stands for, or the error for an
/// unknown one.
fn fb_type_id_of(value: u8) -> (r: Result<FramebufferTypeId, UnknownFramebufferType>)
    ensures
        r == fb_type_id_from(value),
{
    if value == 0 {
        Ok(FramebufferTypeId::Indexed)
    } else if value == 1 {
        Ok(FramebufferTypeId::RGB)
    } else if value == 2 {
        Ok(FramebufferTypeId::Text)
    } else {
        Err(UnknownFramebufferType(value))
    }
}

impl TryFrom<u8> for FramebufferTypeId {
    type Error = UnknownFramebufferType;

    fn try_from(value: u8) -> (r: Result<FramebufferTypeId, UnknownFramebufferType>) {
        if value == 0 {
            Ok(FramebufferTypeId::Indexed)
        } else if value == 1 {
            Ok(FramebufferTypeId::RGB)
        } else if value == 2 {
            Ok(FramebufferTypeId::Text)
        } else {
            Err(UnknownFramebufferType(value))
        }
    }
}

impl vstd::std_specs::convert::TryFromSpecImpl<u8> for FramebufferTypeId {
    open spec fn obeys_try_from_spec() -> bool {
        true
    }

    open spec fn try_from_spec(value: u8) -> Result<FramebufferTypeId, UnknownFramebufferType> {
        fb_type_id_from(value)
    }
}

/// An RGB color type field.
#[derive(Clone, Copy, Debug, PartialEq, Eq, Structural)]
pub struct FramebufferField {
    /// Color field position.
    pub position: u8,
    /// Color mask size.
    pub size: u8,
}

/// A framebuffer color descriptor in the palette. On the ABI level, the
/// colors follow each other without padding bytes.
#[derive(Clone, Copy, Debug, PartialEq, Eq, Structural)]
pub struct FramebufferColor {
    /// The Red component of the color.
    pub red: u8,
    /// The Green component of the color.
    pub green: u8,
    /// The Blue component of the color.
    pub blue: u8,
}

/// Structured accessory to the provided framebuffer type that is not ABI
/// compatible.
#[derive(Clone, Debug, PartialEq, Eq)]
pub enum FramebufferType {
    /// Indexed color.
    Indexed {
        /// The colors of the palette.
        palette: Vec<FramebufferColor>,
    },
    /// Direct RGB color.
    RGB {
        /// The red field.
        red: FramebufferField,
        /// The green field.
        green: FramebufferField,
        /// The blue field.
        blue: FramebufferField,
    },
    /// EGA Text. In this case the framebuffer width and height are expressed
    /// in characters and not in pixels.
    Text,
}

/// What a [`FramebufferType`] holds, with the palette as a sequence.
pub enum FramebufferTypeView {
    /// Indexed color.
    Indexed { palette: Seq<FramebufferColor> },
    /// Direct RGB color.
    RGB { red: FramebufferField, green: FramebufferField, blue: FramebufferField },
    /// EGA Text.
    Text,
}

impl View for FramebufferType {
    type V = FramebufferTypeView;

    open spec fn view(&self) -> FramebufferTypeView {
        match self {
            FramebufferType::Indexed { palette } => FramebufferTypeView::Indexed { palette: palette@ },
            FramebufferType::RGB { red, green, blue } => FramebufferTypeView::RGB {
                red: *red,
                green: *green,
                blue: *blue,
            },
            FramebufferType::Text => FramebufferTypeView::Text,
        }
    }
}

/// The id of a framebuffer type.
pub open spec fn fb_type_id(t: FramebufferTypeView) -> FramebufferTypeId {
    match t {
        FramebufferTypeView::Indexed { .. } => FramebufferTypeId::Indexed,
        FramebufferTypeView::RGB { .. } => FramebufferTypeId::RGB,
        FramebufferTypeView::Text => FramebufferTypeId::Text,
    }
}

/// The three bytes of a palette color.
pub open spec fn color_bytes(c: FramebufferColor) -> Seq<u8> {
    seq![c.red, c.green, c.blue]
}

/// The bytes of the colors of a palette, one after the other.
pub open spec fn palette_bytes(p: Seq<FramebufferColor>) -> Seq<u8>
    decreases p.len(),
{
    if p.len() == 0 {
        seq![]
    } else {
        palette_bytes(p.drop_last()) + color_bytes(p.last())
    }
}

/// The bytes that follow the fixed part of a framebuffer tag of type `t`:
/// for an indexed type the number of colors as a 32-bit value and the colors,
/// for an RGB type the positions and sizes of the three fields.
pub open spec fn fb_type_bytes(t: FramebufferTypeView) -> Seq<u8> {
    match t {
        FramebufferTypeView::Indexed { palette } => u32_le_bytes(palette.len() as int)
            + palette_bytes(palette),
        FramebufferTypeView::RGB { red, green, blue } => seq![
            red.position,
            red.size,
            green.position,
            green.size,
            blue.position,
            blue.size,
        ],
        FramebufferTypeView::Text => seq![],
    }
}

/// The number of colors of a palette of `t` fits its 32-bit field.
pub open spec fn fb_type_fits(t: FramebufferTypeView) -> bool {
    match t {
        FramebufferTypeView::Indexed { palette } => palette.len() <= u32::MAX,
        _ => true,
    }
}

/// The fixed part of a framebuffer tag's payload: address, pitch, width,
/// height, bits per pixel, type id and two bytes of padding.
#[verifier::opaque]
pub open spec fn fb_fixed_bytes(address: u64, pitch: u32, width: u32, height: u32, bpp: u8, id: u8) -> Seq<u8> {
    u64_le_bytes(address as int) + u32_le_bytes(pitch as int) + u32_le_bytes(width as int)
        + u32_le_bytes(height as int) + seq![bpp, id] + seq![0u8, 0u8]
}

/// The payload of a framebuffer tag.
pub open spec fn fb_payload(address: u64, pitch: u32, width: u32, height: u32, bpp: u8, t: FramebufferTypeView) -> Seq<u8> {
    fb_fixed_bytes(address, pitch, width, height, bpp, fb_type_id_byte(fb_type_id(t))) + fb_type_bytes(t)
}

/// The fixed part of the payload is 24 bytes long, and a tag that holds it
/// gives its fields back.
pub proof fn lemma_fb_fixed_bytes(address: u64, pitch: u32, width: u32, height: u32, bpp: u8, id: u8, b: Seq<u8>)
    requires
        b.len() >= 32,
        b.subrange(8, 32) == fb_fixed_bytes(address, pitch, width, height, bpp, id),
    ensures
        spec_u64_le(b, 8) == address,
        spec_u32_le(b, 16) == pitch,
        spec_u32_le(b, 20) == width,
        spec_u32_le(b, 24) == height,
        b[28] == bpp,
        b[29] == id,
{
    reveal(fb_fixed_bytes);
    let f = b.subrange(8, 32);
    assert(b.subrange(8, 16) =~= f.subrange(0, 8));
    assert(b.subrange(16, 20) =~= f.subrange(8, 12));
    assert(b.subrange(20, 24) =~= f.subrange(12, 16));
    assert(b.subrange(24, 28) =~= f.subrange(16, 20));
    assert(f.subrange(0, 8) =~= u64_le_bytes(address as int));
    assert(f.subrange(8, 12) =~= u32_le_bytes(pitch as int));
    assert(f.subrange(12, 16) =~= u32_le_bytes(width as int));
    assert(f.subrange(16, 20) =~= u32_le_bytes(height as int));
    lemma_u64_le(b, 8, address as int);
    lemma_u32_le(b, 16, pitch as int);
    lemma_u32_le(b, 20, width as int);
    lemma_u32_le(b, 24, height as int);
    assert(b[28] == f[20]);
    assert(b[29] == f[21]);
}

/// The fixed part of the payload is 24 bytes long.
pub proof fn lemma_fb_fixed_bytes_len(address: u64, pitch: u32, width: u32, height: u32, bpp: u8, id: u8)
    ensures
        fb_fixed_bytes(address, pitch, width, height, bpp, id).len() == 24,
{
    reveal(fb_fixed_bytes);
}

/// Appends the fixed part of a framebuffer tag's payload.
fn push_fb_fixed(out: &mut Vec<u8>, address: u64, pitch: u32, width: u32, height: u32, bpp: u8, id: u8)
    ensures
        final(out)@ == old(out)@ + fb_fixed_bytes(address, pitch, width, height, bpp, id),
{
    push_u64_le(out, address);
    push_u32_le(out, pitch);
    push_u32_le(out, width);
    push_u32_le(out, height);
    out.push(bpp);
    out.push(id);
    out.push(0);
    out.push(0);
    reveal(fb_fixed_bytes);
    assert(final(out)@ =~= old(out)@ + fb_fixed_bytes(address, pitch, width, height, bpp, id));
}

/// The number of palette colors that the framebuffer tag `b` states.
pub open spec fn fb_num_colors(b: Seq<u8>) -> int {
    spec_u32_le(b, 32)
}

/// The palette of the framebuffer tag `b`.
pub open spec fn fb_palette(b: Seq<u8>) -> Seq<FramebufferColor> {
    Seq::new(
        fb_num_colors(b) as nat,
        |i: int| FramebufferColor { red: b[36 + 3 * i], green: b[37 + 3 * i], blue: b[38 + 3 * i] },
    )
}

/// The type of the framebuffer tag `b`, or the error for an unknown type id.
pub open spec fn fb_buffer_type(b: Seq<u8>) -> Result<FramebufferTypeView, UnknownFramebufferType> {
    if b[29] == 0 {
        Ok(FramebufferTypeView::Indexed { palette: fb_palette(b) })
    } else if b[29] == 1 {
        Ok(
            FramebufferTypeView::RGB {
                red: FramebufferField { position: b[32], size: b[33] },
                green: FramebufferField { position: b[34], size: b[35] },
                blue: FramebufferField { position: b[36], size: b[37] },
            },
        )
    } else if b[29] == 2 {
        Ok(FramebufferTypeView::Text)
    } else {
        Err(UnknownFramebufferType(b[29]))
    }
}

/// The bytes `b` hold a framebuffer tag.
pub open spec fn framebuffer_tag_wf(b: Seq<u8>) -> bool {
    tag_bytes_wf(b) && tag_typ(b) == 8 && b.len() >= 32
}

/// The type-specific bytes of the framebuffer tag `b` are all there: the
/// palette of an indexed type, the fields of an RGB type.
pub open spec fn fb_buffer_complete(b: Seq<u8>) -> bool {
    &&& b[29] == 0 ==> b.len() >= 36 && 36 + 3 * fb_num_colors(b) <= b.len()
    &&& b[29] == 1 ==> b.len() >= 38
}

/// The colors of a palette are three bytes each.
pub proof fn lemma_palette_bytes(p: Seq<FramebufferColor>, i: int)
    requires
        0 <= i < p.len(),
    ensures
        palette_bytes(p).len() == 3 * p.len(),
        palette_bytes(p)[3 * i] == p[i].red,
        palette_bytes(p)[3 * i + 1] == p[i].green,
        palette_bytes(p)[3 * i + 2] == p[i].blue,
    decreases p.len(),
{
    lemma_palette_bytes_len(p);
    let init = p.drop_last();
    lemma_palette_bytes_len(init);
    if i < p.len() - 1 {
        lemma_palette_bytes(init, i);
    }
}

/// The colors of a palette are three bytes each.
pub proof fn lemma_palette_bytes_len(p: Seq<FramebufferColor>)
    ensures
        palette_bytes(p).len() == 3 * p.len(),
    decreases p.len(),
{
    if p.len() > 0 {
        lemma_palette_bytes_len(p.drop_last());
    }
}

impl FramebufferType {
    /// Returns the id of the type.
    fn id(&self) -> (r: FramebufferTypeId)
        ensures
            r == fb_type_id(self@),
    {
        match self {
            FramebufferType::Indexed { .. } => FramebufferTypeId::Indexed,
            FramebufferType::RGB { .. } => FramebufferTypeId::RGB,
            FramebufferType::Text => FramebufferTypeId::Text,
        }
    }

    /// Returns the bytes that follow the fixed part of the tag.
    fn serialize(&self) -> (r: Vec<u8>)
        requires
            fb_type_fits(self@),
        ensures
            r@ == fb_type_bytes(self@),
    {
        let mut data: Vec<u8> = Vec::new();
        match self {
            FramebufferType::Indexed { palette } => {
                let num_colors = palette.len() as u32;
                push_u32_le(&mut data, num_colors);
                let mut i: usize = 0;
                while i < palette.len()
                    invariant
                        i <= palette@.len(),
                        data@ == u32_le_bytes(palette@.len() as int) + palette_bytes(
                            palette@.subrange(0, i as int),
                        ),
                    decreases palette@.len() - i,
                {
                    assert(palette@.subrange(0, i + 1).drop_last() =~= palette@.subrange(0, i as int));
                    let color = palette[i];
                    data.push(color.red);
                    data.push(color.green);
                    data.push(color.blue);
                    i = i + 1;
                    assert(data@ =~= u32_le_bytes(palette@.len() as int) + palette_bytes(
                        palette@.subrange(0, i as int),
                    ));
                }
                assert(palette@.subrange(0, i as int) =~= palette@);
            },
            FramebufferType::RGB { red, green, blue } => {
                data.push(red.position);
                data.push(red.size);
                data.push(green.position);
                data.push(green.size);
                data.push(blue.position);
                data.push(blue.size);
                assert(data@ =~= fb_type_bytes(self@));
            },
            FramebufferType::Text => {},
        }
        data
    }
}

impl From<FramebufferType> for FramebufferTypeId {
    fn from(value: FramebufferType) -> (r: FramebufferTypeId) {
        value.id()
    }
}

impl vstd::std_specs::convert::FromSpecImpl<FramebufferType> for FramebufferTypeId {
    open spec fn obeys_from_spec() -> bool {
        true
    }

    open spec fn from_spec(value: FramebufferType) -> FramebufferTypeId {
        fb_type_id(value@)
    }
}

/// Error when an unknown [`FramebufferTypeId`] is found.
#[derive(Clone, Copy, Debug, PartialEq, Eq, Structural)]
pub struct UnknownFramebufferType(pub u8);

/// The VBE Framebuffer information tag.
#[derive(Clone, Debug, Eq)]
pub struct FramebufferTag {
    bytes: Vec<u8>,
}

/// Two framebuffer tags are equal when all their bytes but the two reserved
/// ones after the type byte are equal.
pub open spec fn fb_tags_equal(a: Seq<u8>, b: Seq<u8>) -> bool {
    &&& a.len() == b.len()
    &&& forall|i: int| 0 <= i < a.len() && i != 30 && i != 31 ==> a[i] == b[i]
}

/// Compares header, address, pitch, width, height, bpp, type and buffer; the
/// reserved field is left out.
impl PartialEq for FramebufferTag {
    fn eq(&self, other: &Self) -> (r: bool) {
        let a = self.bytes.as_slice();
        let b = other.bytes.as_slice();
        if a.len() != b.len() {
            return false;
        }
        let mut i: usize = 0;
        while i < a.len()
            invariant
                i <= a@.len(),
                a@.len() == b@.len(),
                a@ == self@,
                b@ == other@,
                forall|j: int| 0 <= j < i && j != 30 && j != 31 ==> a@[j] == b@[j],
            decreases a@.len() - i,
        {
            if i != 30 && i != 31 && a[i] != b[i] {
                return false;
            }
            i = i + 1;
        }
        true
    }
}

impl PartialEqSpecImpl for FramebufferTag {
    open spec fn obeys_eq_spec() -> bool {
        true
    }

    open spec fn eq_spec(&self, other: &FramebufferTag) -> bool {
        fb_tags_equal(self@, other@)
    }
}

impl View for FramebufferTag {
    type V = Seq<u8>;

    closed spec fn view(&self) -> Seq<u8> {
        self.bytes@
    }
}

impl FramebufferTag {
    /// The size of the fixed part of the tag, in bytes.
    pub const BASE_SIZE: u32 = 32;

    /// The bytes hold a framebuffer tag.
    pub open spec fn wf(&self) -> bool {
        framebuffer_tag_wf(self@)
    }

    /// Constructs a new tag.
    pub fn new(address: u64, pitch: u32, width: u32, height: u32, bpp: u8, buffer_type: FramebufferType) -> (r: FramebufferTag)
        requires
            32 + fb_type_bytes(buffer_type@).len() <= u32::MAX,
        ensures
            r@ == tag_with_payload(8, fb_payload(address, pitch, width, height, bpp, buffer_type@)),
            r.wf(),
            spec_u64_le(r@, 8) == address,
            spec_u32_le(r@, 16) == pitch,
            spec_u32_le(r@, 20) == width,
            spec_u32_le(r@, 24) == height,
            r@[28] == bpp,
            fb_buffer_complete(r@),
            fb_buffer_type(r@) == Ok::<FramebufferTypeView, UnknownFramebufferType>(buffer_type@),
    {
        let mut payload: Vec<u8> = Vec::new();
        push_fb_fixed(&mut payload, address, pitch, width, height, bpp, buffer_type.id().as_u8());
        proof {
            lemma_fb_type_fits(buffer_type@);
        }
        let optional_buffer = buffer_type.serialize();
        push_bytes(&mut payload, optional_buffer.as_slice());
        proof {
            lemma_fb_fixed_bytes_len(address, pitch, width, height, bpp, fb_type_id_byte(fb_type_id(buffer_type@)));
            lemma_framebuffer_roundtrip(address, pitch, width, height, bpp, buffer_type@);
        }
        let bytes = new_tag_bytes(TagType::Framebuffer, payload.as_slice());
        FramebufferTag { bytes }
    }

    /// Contains framebuffer physical address.
    pub fn address(&self) -> (r: u64)
        requires
            self.wf(),
        ensures
            r == spec_u64_le(self@, 8),
    {
        read_u64_le(self.bytes.as_slice(), 8)
    }

    /// Contains the pitch in bytes.
    pub fn pitch(&self) -> (r: u32)
        requires
            self.wf(),
        ensures
            r == spec_u32_le(self@, 16),
    {
        read_u32_le(self.bytes.as_slice(), 16)
    }

    /// Contains framebuffer width in pixels.
    pub fn width(&self) -> (r: u32)
        requires
            self.wf(),
        ensures
            r == spec_u32_le(self@, 20),
    {
        read_u32_le(self.bytes.as_slice(), 20)
    }

    /// Contains framebuffer height in pixels.
    pub fn height(&self) -> (r: u32)
        requires
            self.wf(),
        ensures
            r == spec_u32_le(self@, 24),
    {
        read_u32_le(self.bytes.as_slice(), 24)
    }

    /// Contains number of bits per pixel.
    pub fn bpp(&self) -> (r: u8)
        requires
            self.wf(),
        ensures
            r == self@[28],
    {
        self.bytes[28]
    }

    /// The type-specific bytes are all there: the palette of an indexed type,
    /// the fields of an RGB type. This is what [`Self::buffer_type`] needs.
    pub fn buffer_complete(&self) -> (r: bool)
        requires
            self.wf(),
        ensures
            r == fb_buffer_complete(self@),
    {
        let b = self.bytes.as_slice();
        let len = b.len();
        if b[29] == 0 {
            if len < 36 {
                return false;
            }
            let n = read_u32_le(b, 32) as u64;
            36 + 3 * n <= len as u64
        } else if b[29] == 1 {
            len >= 38
        } else {
            true
        }
    }

    /// The type of framebuffer, one of: `Indexed`, `RGB` or `Text`.
    pub fn buffer_type(&self) -> (r: Result<FramebufferType, UnknownFramebufferType>)
        requires
            self.wf(),
            fb_buffer_complete(self@),
        ensures
            r matches Ok(t) ==> fb_buffer_type(self@) == Ok::<
                FramebufferTypeView,
                UnknownFramebufferType,
            >(t@),
            r matches Err(e) ==> fb_buffer_type(self@) == Err::<
                FramebufferTypeView,
                UnknownFramebufferType,
            >(e),
    {
        let b = self.bytes.as_slice();
        let buffer = copy_range(b, 32, b.len());
        let mut reader = Reader::new(buffer.as_slice());
        let fb_type = fb_type_id_of(b[29]);
        match fb_type {
            Err(e) => {
                assert(fb_buffer_type(b@) == Err::<FramebufferTypeView, UnknownFramebufferType>(e));
                Err(e)
            },
            Ok(FramebufferTypeId::Indexed) => {
                proof {
                    assert(buffer@.subrange(0, 4) =~= b@.subrange(32, 36));
                    lemma_u32_le_same(buffer@, 0, b@, 32);
                }
                let num_colors = reader.read_next_u32();
                let mut palette: Vec<FramebufferColor> = Vec::new();
                let mut i: u32 = 0;
                while i < num_colors
                    invariant
                        self.wf(),
                        b@ == self@,
                        fb_buffer_complete(self@),
                        b@[29] == 0,
                        buffer@ == b@.subrange(32, b@.len() as int),
                        num_colors == fb_num_colors(b@),
                        i <= num_colors,
                        reader.buffer@ == buffer@,
                        reader.off == 4 + 3 * i,
                        palette@ == fb_palette(b@).subrange(0, i as int),
                    decreases num_colors - i,
                {
                    let red = reader.read_next_u8();
                    let green = reader.read_next_u8();
                    let blue = reader.read_next_u8();
                    palette.push(FramebufferColor { red, green, blue });
                    i = i + 1;
                    assert(palette@ =~= fb_palette(b@).subrange(0, i as int));
                }
                assert(palette@ =~= fb_palette(b@));
                Ok(FramebufferType::Indexed { palette })
            },
            Ok(FramebufferTypeId::RGB) => {
                proof {
                    assert forall|k: int| 0 <= k < 6 implies buffer@[k] == b@[32 + k] by {}
                }
                let red_pos = reader.read_next_u8();
                let red_mask = reader.read_next_u8();
                let green_pos = reader.read_next_u8();
                let green_mask = reader.read_next_u8();
                let blue_pos = reader.read_next_u8();
                let blue_mask = reader.read_next_u8();
                Ok(
                    FramebufferType::RGB {
                        red: FramebufferField { position: red_pos, size: red_mask },
                        green: FramebufferField { position: green_pos, size: green_mask },
                        blue: FramebufferField { position: blue_pos, size: blue_mask },
                    },
                )
            },
            Ok(FramebufferTypeId::Text) => Ok(FramebufferType::Text),
        }
    }
}

/// The type that a framebuffer tag is built with is the one it gives back.
pub proof fn lemma_framebuffer_roundtrip(address: u64, pitch: u32, width: u32, height: u32, bpp: u8, t: FramebufferTypeView)
    requires
        32 + fb_type_bytes(t).len() <= u32::MAX,
    ensures
        ({
            let b = tag_with_payload(8, fb_payload(address, pitch, width, height, bpp, t));
            &&& framebuffer_tag_wf(b)
            &&& spec_u64_le(b, 8) == address
            &&& spec_u32_le(b, 16) == pitch
            &&& spec_u32_le(b, 20) == width
            &&& spec_u32_le(b, 24) == height
            &&& b[28] == bpp
            &&& fb_buffer_complete(b)
            &&& fb_buffer_type(b) == Ok::<FramebufferTypeView, UnknownFramebufferType>(t)
        }),
{
    let id = fb_type_id_byte(fb_type_id(t));
    let f = fb_fixed_bytes(address, pitch, width, height, bpp, id);
    let tb = fb_type_bytes(t);
    lemma_fb_fixed_bytes_len(address, pitch, width, height, bpp, id);
    let p = f + tb;
    lemma_tag_with_payload(8, p);
    let b = tag_with_payload(8, p);
    assert(b.subrange(8, 32) =~= f);
    lemma_fb_fixed_bytes(address, pitch, width, height, bpp, id, b);
    assert(b.subrange(32, b.len() as int) =~= tb);
    lemma_fb_type_fits(t);
    lemma_fb_type_roundtrip(b, t);
}

/// A type whose bytes fit a tag fits its fields.
pub proof fn lemma_fb_type_fits(t: FramebufferTypeView)
    requires
        32 + fb_type_bytes(t).len() <= u32::MAX,
    ensures
        fb_type_fits(t),
{
    if let FramebufferTypeView::Indexed { palette } = t {
        lemma_palette_bytes_len(palette);
    }
}

/// A framebuffer tag whose type id and type-specific bytes are those of `t`
/// gives `t` back.
pub proof fn lemma_fb_type_roundtrip(b: Seq<u8>, t: FramebufferTypeView)
    requires
        b.len() >= 32,
        b[29] == fb_type_id_byte(fb_type_id(t)),
        b.subrange(32, b.len() as int) == fb_type_bytes(t),
        fb_type_fits(t),
    ensures
        fb_buffer_complete(b),
        fb_buffer_type(b) == Ok::<FramebufferTypeView, UnknownFramebufferType>(t),
{
    let tb = fb_type_bytes(t);
    assert(b.len() == 32 + tb.len());
    assert forall|k: int| 0 <= k < tb.len() implies b[32 + k] == #[trigger] tb[k] by {
        assert(b.subrange(32, b.len() as int)[k] == b[32 + k]);
    }
    match t {
        FramebufferTypeView::Indexed { palette } => {
            lemma_palette_bytes_len(palette);
            assert(tb == u32_le_bytes(palette.len() as int) + palette_bytes(palette));
            assert(tb.len() == 4 + 3 * palette.len());
            assert(b.subrange(32, 36) =~= tb.subrange(0, 4));
            assert(b.subrange(32, 36) =~= u32_le_bytes(palette.len() as int));
            lemma_u32_le(b, 32, palette.len() as int);
            assert forall|i: int| 0 <= i < palette.len() implies #[trigger] fb_palette(b)[i]
                == palette[i] by {
                lemma_palette_bytes(palette, i);
                assert(b[36 + 3 * i] == tb[4 + 3 * i]);
                assert(b[37 + 3 * i] == tb[5 + 3 * i]);
                assert(b[38 + 3 * i] == tb[6 + 3 * i]);
            }
            assert(fb_palette(b) =~= palette);
        },
        FramebufferTypeView::RGB { red, green, blue } => {
            assert(b[32] == tb[0]);
            assert(b[33] == tb[1]);
            assert(b[34] == tb[2]);
            assert(b[35] == tb[3]);
            assert(b[36] == tb[4]);
            assert(b[37] == tb[5]);
        },
        FramebufferTypeView::Text => {},
    }
}

impl TagTrait for FramebufferTag {
    open spec fn spec_type() -> TagType {
        TagType::Framebuffer
    }

    open spec fn spec_from_bytes(b: Seq<u8>) -> Option<Seq<u8>> {
        if framebuffer_tag_wf(b) {
            Some(b)
        } else {
            None
        }
    }

    open spec fn spec_bytes(v: Seq<u8>) -> Seq<u8> {
        v
    }

    open spec fn spec_wf(v: Seq<u8>) -> bool {
        framebuffer_tag_wf(v)
    }

    proof fn lemma_roundtrip(v: Seq<u8>) {
    }

    fn id() -> (r: TagType) {
        TagType::Framebuffer
    }

    fn from_generic(tag: &GenericTag) -> (r: Option<FramebufferTag>) {
        let b = tag.as_bytes();
        if tag.typ().val() == 8 && b.len() >= 32 {
            Some(FramebufferTag { bytes: copy_range(b, 0, b.len()) })
        } else {
            None
        }
    }

    fn as_bytes(&self) -> (r: Vec<u8>) {
        copy_range(self.bytes.as_slice(), 0, self.bytes.len())
    }
}

/// The framebuffer types carry the numbers of the Multiboot2 specification:
/// `0` indexed color, `1` direct RGB color, `2` EGA text; any other number is
/// unknown.
pub proof fn lemma_fb_type_numbering(v: u8)
    ensures
        fb_type_id_byte(FramebufferTypeId::Indexed) == 0,
        fb_type_id_byte(FramebufferTypeId::RGB) == 1,
        fb_type_id_byte(FramebufferTypeId::Text) == 2,
        v == 0 ==> fb_type_id_from(v) == Ok::<FramebufferTypeId, UnknownFramebufferType>(FramebufferTypeId::Indexed),
        v == 1 ==> fb_type_id_from(v) == Ok::<FramebufferTypeId, UnknownFramebufferType>(FramebufferTypeId::RGB),
        v == 2 ==> fb_type_id_from(v) == Ok::<FramebufferTypeId, UnknownFramebufferType>(FramebufferTypeId::Text),
        v > 2 ==> fb_type_id_from(v) == Err::<FramebufferTypeId, UnknownFramebufferType>(UnknownFramebufferType(v)),
{
}

} // verus!
