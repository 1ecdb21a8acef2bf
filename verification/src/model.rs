//! The image model: the decoded pixels of a PNG image together with the
//! metadata that travels with them, all as plain values.

use vstd::prelude::*;

verus! {

/// How a pixel is stored.
#[derive(Clone, Copy, Debug, PartialEq, Eq, Structural)]
pub enum ColorType {
    Grayscale,
    Rgb,
    Indexed,
    GrayscaleAlpha,
    Rgba,
}

/// The number of bits of one sample.
#[derive(Clone, Copy, Debug, PartialEq, Eq, Structural)]
pub enum BitDepth {
    One,
    Two,
    Four,
    Eight,
    Sixteen,
}

impl ColorType {
    /// The code of this colour type in an image header.
    pub open spec fn spec_code(self) -> u8 {
        match self {
            ColorType::Grayscale => 0,
            ColorType::Rgb => 2,
            ColorType::Indexed => 3,
            ColorType::GrayscaleAlpha => 4,
            ColorType::Rgba => 6,
        }
    }

    /// The colour type that a header code stands for, if it stands for one.
    pub open spec fn spec_from_code(code: u8) -> Option<ColorType> {
        if code == 0 {
            Some(ColorType::Grayscale)
        } else if code == 2 {
            Some(ColorType::Rgb)
        } else if code == 3 {
            Some(ColorType::Indexed)
        } else if code == 4 {
            Some(ColorType::GrayscaleAlpha)
        } else if code == 6 {
            Some(ColorType::Rgba)
        } else {
            None
        }
    }

    /// The number of samples that make up one pixel.
    pub open spec fn spec_samples(self) -> u8 {
        match self {
            ColorType::Grayscale => 1,
            ColorType::Rgb => 3,
            ColorType::Indexed => 1,
            ColorType::GrayscaleAlpha => 2,
            ColorType::Rgba => 4,
        }
    }

    #[verifier::when_used_as_spec(spec_code)]
    pub fn code(self) -> (code: u8)
        ensures
            code == self.spec_code(),
    {
        match self {
            ColorType::Grayscale => 0,
            ColorType::Rgb => 2,
            ColorType::Indexed => 3,
            ColorType::GrayscaleAlpha => 4,
            ColorType::Rgba => 6,
        }
    }

    pub fn from_code(code: u8) -> (color: Option<ColorType>)
        ensures
            color == ColorType::spec_from_code(code),
    {
        if code == 0 {
            Some(ColorType::Grayscale)
        } else if code == 2 {
            Some(ColorType::Rgb)
        } else if code == 3 {
            Some(ColorType::Indexed)
        } else if code == 4 {
            Some(ColorType::GrayscaleAlpha)
        } else if code == 6 {
            Some(ColorType::Rgba)
        } else {
            None
        }
    }

    #[verifier::when_used_as_spec(spec_samples)]
    pub fn samples(self) -> (n: u8)
        ensures
            n == self.spec_samples(),
    {
        match self {
            ColorType::Grayscale => 1,
            ColorType::Rgb => 3,
            ColorType::Indexed => 1,
            ColorType::GrayscaleAlpha => 2,
            ColorType::Rgba => 4,
        }
    }
}

impl BitDepth {
    /// The number of bits, which is also the code in an image header.
    pub open spec fn spec_bits(self) -> u8 {
        match self {
            BitDepth::One => 1,
            BitDepth::Two => 2,
            BitDepth::Four => 4,
            BitDepth::Eight => 8,
            BitDepth::Sixteen => 16,
        }
    }

    /// The bit depth that a header code stands for, if it stands for one.
    pub open spec fn spec_from_bits(bits: u8) -> Option<BitDepth> {
        if bits == 1 {
            Some(BitDepth::One)
        } else if bits == 2 {
            Some(BitDepth::Two)
        } else if bits == 4 {
            Some(BitDepth::Four)
        } else if bits == 8 {
            Some(BitDepth::Eight)
        } else if bits == 16 {
            Some(BitDepth::Sixteen)
        } else {
            None
        }
    }

    #[verifier::when_used_as_spec(spec_bits)]
    pub fn bits(self) -> (bits: u8)
        ensures
            bits == self.spec_bits(),
    {
        match self {
            BitDepth::One => 1,
            BitDepth::Two => 2,
            BitDepth::Four => 4,
            BitDepth::Eight => 8,
            BitDepth::Sixteen => 16,
        }
    }

    pub fn from_bits(bits: u8) -> (depth: Option<BitDepth>)
        ensures
            depth == BitDepth::spec_from_bits(bits),
    {
        if bits == 1 {
            Some(BitDepth::One)
        } else if bits == 2 {
            Some(BitDepth::Two)
        } else if bits == 4 {
            Some(BitDepth::Four)
        } else if bits == 8 {
            Some(BitDepth::Eight)
        } else if bits == 16 {
            Some(BitDepth::Sixteen)
        } else {
            None
        }
    }
}

/// How the rows of a raster are predicted before they are compressed. The
/// choice changes the size of a stream, never the image that it holds.
#[derive(Clone, Copy, Debug, PartialEq, Eq, Structural)]
pub enum Filter {
    /// Every row is stored as it is.
    Unfiltered,
    /// Every byte is predicted by the byte to its left.
    Sub,
    /// Every byte is predicted by the byte above it.
    Up,
    /// Every byte is predicted by the mean of the bytes to its left and above it.
    Average,
    /// Every byte is predicted by the nearest of its left, upper and upper left neighbours.
    Paeth,
    /// For each row, the filter that promises the smallest output is chosen.
    Adaptive,
}

/// The largest width or height that an image header can hold.
pub const MAX_DIMENSION: u32 = 0x7fff_ffff;

/// The fixed part of an image: its size and the layout of its pixels.
#[derive(Clone, Copy, Debug, PartialEq, Eq, Structural)]
pub struct Header {
    pub width: u32,
    pub height: u32,
    pub bit_depth: BitDepth,
    pub color_type: ColorType,
    /// Whether the stream the image came from stored it in seven interlaced passes.
    pub interlaced: bool,
}

/// Whether a colour type may be stored with a bit depth.
pub open spec fn depth_allowed(color_type: ColorType, bit_depth: BitDepth) -> bool {
    match color_type {
        ColorType::Grayscale => true,
        ColorType::Indexed => bit_depth != BitDepth::Sixteen,
        ColorType::Rgb | ColorType::GrayscaleAlpha | ColorType::Rgba => bit_depth
            == BitDepth::Eight || bit_depth == BitDepth::Sixteen,
    }
}

impl Header {
    /// Both dimensions are positive and within the limit, and the bit depth
    /// is one that the colour type allows.
    pub open spec fn well_formed(self) -> bool {
        &&& 1 <= self.width <= MAX_DIMENSION
        &&& 1 <= self.height <= MAX_DIMENSION
        &&& depth_allowed(self.color_type, self.bit_depth)
    }

    /// The number of bits of one pixel.
    pub open spec fn spec_bits_per_pixel(self) -> int {
        self.color_type.spec_samples() * self.bit_depth.spec_bits()
    }

    /// The number of whole bytes that one pixel takes, at least one.
    pub open spec fn spec_bytes_per_pixel(self) -> int {
        self.color_type.spec_samples() * ((self.bit_depth.spec_bits() + 7) / 8)
    }

    /// The number of bytes of one row of `width` pixels, rows being packed
    /// and each starting on a byte boundary.
    pub open spec fn spec_row_bytes_for(self, width: int) -> int {
        (width * self.spec_bits_per_pixel() + 7) / 8
    }

    /// The number of bytes of one row of the image.
    pub open spec fn spec_row_bytes(self) -> int {
        self.spec_row_bytes_for(self.width as int)
    }

    /// The number of bytes of the whole raster.
    pub open spec fn spec_raster_len(self) -> int {
        self.height * self.spec_row_bytes()
    }

    pub fn is_well_formed(&self) -> (ok: bool)
        ensures
            ok == self.well_formed(),
    {
        let depth_ok = match self.color_type {
            ColorType::Grayscale => true,
            ColorType::Indexed => self.bit_depth != BitDepth::Sixteen,
            _ => self.bit_depth == BitDepth::Eight || self.bit_depth == BitDepth::Sixteen,
        };
        1 <= self.width && self.width <= MAX_DIMENSION && 1 <= self.height && self.height
            <= MAX_DIMENSION && depth_ok
    }

    /// The number of whole bytes that one pixel takes, at least one.
    pub fn bytes_per_pixel(&self) -> (n: u8)
        ensures
            n == self.spec_bytes_per_pixel(),
    {
        self.color_type.samples() * ((self.bit_depth.bits() + 7) / 8)
    }

    /// The number of bytes of one row of `width` pixels.
    pub fn row_bytes_for(&self, width: u32) -> (n: u64)
        ensures
            n == self.spec_row_bytes_for(width as int),
    {
        let bpp: u64 = (self.color_type.samples() * self.bit_depth.bits()) as u64;
        assert(width * bpp <= 0xffff_ffff * 64) by (nonlinear_arith)
            requires
                width <= 0xffff_ffff,
                bpp <= 64,
        ;
        (width as u64 * bpp + 7) / 8
    }

    /// The number of bytes of the whole raster.
    pub fn raster_len(&self) -> (n: u128)
        ensures
            n == self.spec_raster_len(),
    {
        let row: u64 = self.row_bytes_for(self.width);
        assert(self.height * row <= 0xffff_ffff * 0xffff_ffff_ffff_ffff) by (nonlinear_arith)
            requires
                self.height <= 0xffff_ffff,
                row <= 0xffff_ffff_ffff_ffff,
        ;
        self.height as u128 * row as u128
    }
}

/// The chromaticities of the white point and of the three primaries, each
/// coordinate scaled by 100000.
#[derive(Clone, Copy, Debug, PartialEq, Eq, Structural)]
pub struct Chromaticities {
    pub white_x: u32,
    pub white_y: u32,
    pub red_x: u32,
    pub red_y: u32,
    pub green_x: u32,
    pub green_y: u32,
    pub blue_x: u32,
    pub blue_y: u32,
}

/// The unit in which a physical pixel size is given.
#[derive(Clone, Copy, Debug, PartialEq, Eq, Structural)]
pub enum Unit {
    Unspecified,
    Meter,
}

impl Unit {
    /// The code of this unit in a stream.
    pub open spec fn spec_code(self) -> u8 {
        match self {
            Unit::Unspecified => 0,
            Unit::Meter => 1,
        }
    }

    /// The unit that a code stands for, if it stands for one.
    pub open spec fn spec_from_code(code: u8) -> Option<Unit> {
        if code == 0 {
            Some(Unit::Unspecified)
        } else if code == 1 {
            Some(Unit::Meter)
        } else {
            None
        }
    }

    #[verifier::when_used_as_spec(spec_code)]
    pub fn code(self) -> (code: u8)
        ensures
            code == self.spec_code(),
    {
        match self {
            Unit::Unspecified => 0,
            Unit::Meter => 1,
        }
    }

    pub fn from_code(code: u8) -> (unit: Option<Unit>)
        ensures
            unit == Unit::spec_from_code(code),
    {
        if code == 0 {
            Some(Unit::Unspecified)
        } else if code == 1 {
            Some(Unit::Meter)
        } else {
            None
        }
    }
}

/// The intended physical size of a pixel: pixels per unit along each axis.
#[derive(Clone, Copy, Debug, PartialEq, Eq, Structural)]
pub struct PixelDimensions {
    pub xppu: u32,
    pub yppu: u32,
    pub unit: Unit,
}

/// What becomes of a frame's area once the frame has been shown.
#[derive(Clone, Copy, Debug, PartialEq, Eq, Structural)]
pub enum DisposeOp {
    /// The area is left as it is.
    Keep,
    /// The area is cleared to the background.
    Background,
    /// The area goes back to what it held before the frame.
    Previous,
}

/// How a frame is combined with what is already there.
#[derive(Clone, Copy, Debug, PartialEq, Eq, Structural)]
pub enum BlendOp {
    Source,
    Over,
}

impl DisposeOp {
    /// The code of this operation in a stream.
    pub open spec fn spec_code(self) -> u8 {
        match self {
            DisposeOp::Keep => 0,
            DisposeOp::Background => 1,
            DisposeOp::Previous => 2,
        }
    }

    /// The operation that a code stands for, if it stands for one.
    pub open spec fn spec_from_code(code: u8) -> Option<DisposeOp> {
        if code == 0 {
            Some(DisposeOp::Keep)
        } else if code == 1 {
            Some(DisposeOp::Background)
        } else if code == 2 {
            Some(DisposeOp::Previous)
        } else {
            None
        }
    }

    #[verifier::when_used_as_spec(spec_code)]
    pub fn code(self) -> (code: u8)
        ensures
            code == self.spec_code(),
    {
        match self {
            DisposeOp::Keep => 0,
            DisposeOp::Background => 1,
            DisposeOp::Previous => 2,
        }
    }

    pub fn from_code(code: u8) -> (op: Option<DisposeOp>)
        ensures
            op == DisposeOp::spec_from_code(code),
    {
        if code == 0 {
            Some(DisposeOp::Keep)
        } else if code == 1 {
            Some(DisposeOp::Background)
        } else if code == 2 {
            Some(DisposeOp::Previous)
        } else {
            None
        }
    }
}

impl BlendOp {
    /// The code of this operation in a stream.
    pub open spec fn spec_code(self) -> u8 {
        match self {
            BlendOp::Source => 0,
            BlendOp::Over => 1,
        }
    }

    /// The operation that a code stands for, if it stands for one.
    pub open spec fn spec_from_code(code: u8) -> Option<BlendOp> {
        if code == 0 {
            Some(BlendOp::Source)
        } else if code == 1 {
            Some(BlendOp::Over)
        } else {
            None
        }
    }

    #[verifier::when_used_as_spec(spec_code)]
    pub fn code(self) -> (code: u8)
        ensures
            code == self.spec_code(),
    {
        match self {
            BlendOp::Source => 0,
            BlendOp::Over => 1,
        }
    }

    pub fn from_code(code: u8) -> (op: Option<BlendOp>)
        ensures
            op == BlendOp::spec_from_code(code),
    {
        if code == 0 {
            Some(BlendOp::Source)
        } else if code == 1 {
            Some(BlendOp::Over)
        } else {
            None
        }
    }
}

/// The placement and timing of one frame of an animation.
#[derive(Clone, Copy, Debug, PartialEq, Eq, Structural)]
pub struct FrameControl {
    pub sequence_number: u32,
    pub width: u32,
    pub height: u32,
    pub x_offset: u32,
    pub y_offset: u32,
    pub delay_num: u16,
    pub delay_den: u16,
    pub dispose_op: DisposeOp,
    pub blend_op: BlendOp,
}

/// The extent of an animation; zero plays stands for an endless loop.
#[derive(Clone, Copy, Debug, PartialEq, Eq, Structural)]
pub struct AnimationControl {
    pub num_frames: u32,
    pub num_plays: u32,
}

/// A keyword and a text, both in Latin-1.
#[derive(Clone, Debug, PartialEq, Eq)]
pub struct TextEntry {
    pub keyword: String,
    pub text: String,
}

/// A text entry as mathematical values.
pub struct TextEntryView {
    pub keyword: Seq<char>,
    pub text: Seq<char>,
}

impl View for TextEntry {
    type V = TextEntryView;

    open spec fn view(&self) -> TextEntryView {
        TextEntryView { keyword: self.keyword@, text: self.text@ }
    }
}

/// A keyword in Latin-1 with a text in UTF-8, the language of the text and
/// the keyword in that language.
#[derive(Clone, Debug, PartialEq, Eq)]
pub struct InternationalText {
    pub keyword: String,
    /// Whether the text is stored compressed in a stream.
    pub compressed: bool,
    pub language_tag: String,
    pub translated_keyword: String,
    pub text: String,
}

/// An international text entry as mathematical values.
pub struct InternationalTextView {
    pub keyword: Seq<char>,
    pub compressed: bool,
    pub language_tag: Seq<char>,
    pub translated_keyword: Seq<char>,
    pub text: Seq<char>,
}

impl View for InternationalText {
    type V = InternationalTextView;

    open spec fn view(&self) -> InternationalTextView {
        InternationalTextView {
            keyword: self.keyword@,
            compressed: self.compressed,
            language_tag: self.language_tag@,
            translated_keyword: self.translated_keyword@,
            text: self.text@,
        }
    }
}

/// The text entries that a vector holds, as mathematical values.
pub open spec fn text_views(entries: Seq<TextEntry>) -> Seq<TextEntryView> {
    entries.map_values(|e: TextEntry| e@)
}

/// The international text entries that a vector holds, as mathematical values.
pub open spec fn international_views(entries: Seq<InternationalText>) -> Seq<
    InternationalTextView,
> {
    entries.map_values(|e: InternationalText| e@)
}

/// A decoded image: its header, its optional metadata and its raster.
///
/// The raster holds the rows from top to bottom, each row packed as the
/// header says and padded to a whole byte. A transparent colour is held with
/// one byte per sample below sixteen bits and two bytes per sample at sixteen.
#[derive(Clone, Debug)]
pub struct ImageModel {
    pub header: Header,
    /// Red, green and blue of each palette entry, in order.
    pub palette: Option<Vec<u8>>,
    /// An alpha value per palette entry, or the samples of the one transparent colour.
    pub transparency: Option<Vec<u8>>,
    pub icc_profile: Option<Vec<u8>>,
    /// The image gamma, scaled by 100000.
    pub gamma: Option<u32>,
    pub chromaticities: Option<Chromaticities>,
    pub pixel_dims: Option<PixelDimensions>,
    /// The uncompressed Latin-1 text entries, in order.
    pub text: Vec<TextEntry>,
    /// The Latin-1 text entries that a stream holds compressed, in order.
    pub compressed_text: Vec<TextEntry>,
    /// The UTF-8 text entries, in order.
    pub international_text: Vec<InternationalText>,
    pub frame_control: Option<FrameControl>,
    pub animation_control: Option<AnimationControl>,
    pub pixels: Vec<u8>,
}

/// An image as mathematical values.
pub struct ImageModelView {
    pub header: Header,
    pub palette: Option<Seq<u8>>,
    pub transparency: Option<Seq<u8>>,
    pub icc_profile: Option<Seq<u8>>,
    pub gamma: Option<u32>,
    pub chromaticities: Option<Chromaticities>,
    pub pixel_dims: Option<PixelDimensions>,
    pub text: Seq<TextEntryView>,
    pub compressed_text: Seq<TextEntryView>,
    pub international_text: Seq<InternationalTextView>,
    pub frame_control: Option<FrameControl>,
    pub animation_control: Option<AnimationControl>,
    pub pixels: Seq<u8>,
}

/// The bytes that an optional buffer holds.
pub open spec fn bytes_of(buffer: Option<Vec<u8>>) -> Option<Seq<u8>> {
    match buffer {
        Some(v) => Some(v@),
        None => None,
    }
}

impl View for ImageModel {
    type V = ImageModelView;

    open spec fn view(&self) -> ImageModelView {
        ImageModelView {
            header: self.header,
            palette: bytes_of(self.palette),
            transparency: bytes_of(self.transparency),
            icc_profile: bytes_of(self.icc_profile),
            gamma: self.gamma,
            chromaticities: self.chromaticities,
            pixel_dims: self.pixel_dims,
            text: text_views(self.text@),
            compressed_text: text_views(self.compressed_text@),
            international_text: international_views(self.international_text@),
            frame_control: self.frame_control,
            animation_control: self.animation_control,
            pixels: self.pixels@,
        }
    }
}

/// The number of bytes that hold one sample of a transparent colour.
pub open spec fn key_sample_bytes(bit_depth: BitDepth) -> int {
    if bit_depth == BitDepth::Sixteen {
        2
    } else {
        1
    }
}

/// Whether a palette fits a colour type: present for an indexed image and
/// for no other, with between one and 256 entries of three bytes.
pub open spec fn palette_fits(color_type: ColorType, palette: Option<Seq<u8>>) -> bool {
    match palette {
        Some(p) => {
            &&& color_type == ColorType::Indexed
            &&& p.len() % 3 == 0
            &&& 3 <= p.len() <= 768
        },
        None => color_type != ColorType::Indexed,
    }
}

/// Whether a transparency record has the shape that the header asks for:
/// at most one alpha value per palette entry for an indexed image, the
/// samples of one colour for a greyscale or colour image, none where the
/// pixels carry alpha themselves.
pub open spec fn transparency_fits(
    header: Header,
    palette: Option<Seq<u8>>,
    transparency: Option<Seq<u8>>,
) -> bool {
    match transparency {
        Some(t) => match header.color_type {
            ColorType::Grayscale => t.len() == key_sample_bytes(header.bit_depth),
            ColorType::Rgb => t.len() == 3 * key_sample_bytes(header.bit_depth),
            ColorType::Indexed => palette is Some && 1 <= t.len() && 3 * t.len()
                <= palette->Some_0.len(),
            ColorType::GrayscaleAlpha | ColorType::Rgba => false,
        },
        None => true,
    }
}

/// Whether the animation records fit the image: both or neither, at least
/// one frame, counts within 31 bits, and a first frame that covers the image.
pub open spec fn animation_fits(
    header: Header,
    frame_control: Option<FrameControl>,
    animation_control: Option<AnimationControl>,
) -> bool {
    match (frame_control, animation_control) {
        (Some(f), Some(a)) => {
            &&& 1 <= a.num_frames <= MAX_DIMENSION
            &&& a.num_plays <= MAX_DIMENSION
            &&& f.sequence_number == 0
            &&& f.width == header.width
            &&& f.height == header.height
            &&& f.x_offset == 0
            &&& f.y_offset == 0
        },
        (None, None) => true,
        _ => false,
    }
}

impl ImageModelView {
    /// The fields agree with each other: a valid header, a palette and a
    /// transparency record of the shape the colour type asks for, a gamma
    /// that is not zero, animation records that fit, and a raster of exactly
    /// the size that the header gives.
    pub open spec fn well_formed(self) -> bool {
        &&& self.header.well_formed()
        &&& palette_fits(self.header.color_type, self.palette)
        &&& transparency_fits(self.header, self.palette, self.transparency)
        &&& self.gamma != Some(0u32)
        &&& animation_fits(self.header, self.frame_control, self.animation_control)
        &&& self.pixels.len() == self.header.spec_raster_len()
    }

    /// An image with the given header and raster and no metadata.
    pub open spec fn plain(header: Header, pixels: Seq<u8>) -> ImageModelView {
        ImageModelView {
            header,
            palette: None,
            transparency: None,
            icc_profile: None,
            gamma: None,
            chromaticities: None,
            pixel_dims: None,
            text: Seq::empty(),
            compressed_text: Seq::empty(),
            international_text: Seq::empty(),
            frame_control: None,
            animation_control: None,
            pixels,
        }
    }

    /// The same image with its rows in plain top-to-bottom order in the stream.
    pub open spec fn in_row_order(self) -> ImageModelView {
        ImageModelView { header: Header { interlaced: false, ..self.header }, ..self }
    }

    /// The same image carrying `profile` as its ICC profile.
    pub open spec fn with_profile(self, profile: Seq<u8>) -> ImageModelView {
        ImageModelView { icc_profile: Some(profile), ..self }
    }
}

/// Whether two buffers hold the same bytes.
pub fn bytes_equal(a: &[u8], b: &[u8]) -> (same: bool)
    ensures
        same == (a@ == b@),
{
    if a.len() != b.len() {
        return false;
    }
    let mut i: usize = 0;
    while i < a.len()
        invariant
            a@.len() == b@.len(),
            i <= a@.len(),
            a@.subrange(0, i as int) == b@.subrange(0, i as int),
        decreases a.len() - i,
    {
        if a[i] != b[i] {
            return false;
        }
        i += 1;
    }
    assert(a@.subrange(0, i as int) == a@);
    assert(b@.subrange(0, i as int) == b@);
    true
}

/// Whether two optional buffers are both absent or hold the same bytes.
pub fn optional_bytes_equal(a: &Option<Vec<u8>>, b: &Option<Vec<u8>>) -> (same: bool)
    ensures
        same == (bytes_of(*a) == bytes_of(*b)),
{
    match (a, b) {
        (Some(x), Some(y)) => bytes_equal(x.as_slice(), y.as_slice()),
        (None, None) => true,
        _ => false,
    }
}

/// Whether two lists of text entries hold the same entries in the same order.
pub fn texts_equal(a: &Vec<TextEntry>, b: &Vec<TextEntry>) -> (same: bool)
    ensures
        same == (text_views(a@) == text_views(b@)),
{
    if a.len() != b.len() {
        return false;
    }
    let mut i: usize = 0;
    while i < a.len()
        invariant
            a@.len() == b@.len(),
            i <= a@.len(),
            forall|j: int| 0 <= j < i ==> a@[j]@ == b@[j]@,
        decreases a.len() - i,
    {
        if !(a[i].keyword == b[i].keyword && a[i].text == b[i].text) {
            assert(text_views(b@)[i as int] == b@[i as int]@);
            return false;
        }
        i += 1;
    }
    assert(text_views(a@) =~= text_views(b@));
    true
}

/// Whether two lists of international text entries hold the same entries in
/// the same order.
pub fn international_texts_equal(a: &Vec<InternationalText>, b: &Vec<InternationalText>) -> (same:
    bool)
    ensures
        same == (international_views(a@) == international_views(b@)),
{
    if a.len() != b.len() {
        return false;
    }
    let mut i: usize = 0;
    while i < a.len()
        invariant
            a@.len() == b@.len(),
            i <= a@.len(),
            forall|j: int| 0 <= j < i ==> a@[j]@ == b@[j]@,
        decreases a.len() - i,
    {
        if !(a[i].keyword == b[i].keyword && a[i].compressed == b[i].compressed
            && a[i].language_tag == b[i].language_tag && a[i].translated_keyword
            == b[i].translated_keyword && a[i].text == b[i].text) {
            assert(international_views(b@)[i as int] == b@[i as int]@);
            return false;
        }
        i += 1;
    }
    assert(international_views(a@) =~= international_views(b@));
    true
}

impl ImageModel {
    /// An image with the given header and raster and no metadata.
    pub fn new(header: Header, pixels: Vec<u8>) -> (model: ImageModel)
        ensures
            model@ == ImageModelView::plain(header, pixels@),
    {
        let model = ImageModel {
            header,
            palette: None,
            transparency: None,
            icc_profile: None,
            gamma: None,
            chromaticities: None,
            pixel_dims: None,
            text: Vec::new(),
            compressed_text: Vec::new(),
            international_text: Vec::new(),
            frame_control: None,
            animation_control: None,
            pixels,
        };
        assert(text_views(model.compressed_text@) =~= Seq::empty());
        assert(international_views(model.international_text@) =~= Seq::empty());
        model
    }

    /// Whether the fields agree with each other.
    pub fn is_well_formed(&self) -> (ok: bool)
        ensures
            ok == self@.well_formed(),
    {
        if !self.header.is_well_formed() {
            return false;
        }
        let indexed = self.header.color_type == ColorType::Indexed;
        let palette_ok = match &self.palette {
            Some(p) => indexed && p.len() % 3 == 0 && 3 <= p.len() && p.len() <= 768,
            None => !indexed,
        };
        let key: usize = if self.header.bit_depth == BitDepth::Sixteen {
            2
        } else {
            1
        };
        let transparency_ok = match &self.transparency {
            Some(t) => match self.header.color_type {
                ColorType::Grayscale => t.len() == key,
                ColorType::Rgb => t.len() == 3 * key,
                ColorType::Indexed => match &self.palette {
                    Some(p) => 1 <= t.len() && t.len() <= p.len() / 3,
                    None => false,
                },
                _ => false,
            },
            None => true,
        };
        let gamma_ok = match self.gamma {
            Some(g) => g != 0,
            None => true,
        };
        let animation_ok = match (self.frame_control, self.animation_control) {
            (Some(f), Some(a)) => 1 <= a.num_frames && a.num_frames <= MAX_DIMENSION
                && a.num_plays <= MAX_DIMENSION && f.sequence_number == 0 && f.width
                == self.header.width && f.height == self.header.height && f.x_offset == 0
                && f.y_offset == 0,
            (None, None) => true,
            _ => false,
        };
        let raster: u128 = self.header.raster_len();
        palette_ok && transparency_ok && gamma_ok && animation_ok && self.pixels.len() as u128
            == raster
    }

    /// Whether two images agree in every field but the header.
    pub fn same_content_as(&self, other: &ImageModel) -> (same: bool)
        ensures
            same == ((ImageModelView { header: other@.header, ..self@ }) == other@),
    {
        optional_bytes_equal(&self.palette, &other.palette) && optional_bytes_equal(
            &self.transparency,
            &other.transparency,
        ) && optional_bytes_equal(&self.icc_profile, &other.icc_profile) && self.gamma
            == other.gamma && self.chromaticities == other.chromaticities && self.pixel_dims
            == other.pixel_dims && texts_equal(&self.text, &other.text) && texts_equal(
            &self.compressed_text,
            &other.compressed_text,
        ) && international_texts_equal(&self.international_text, &other.international_text)
            && self.frame_control == other.frame_control
            && self.animation_control == other.animation_control && bytes_equal(
            self.pixels.as_slice(),
            other.pixels.as_slice(),
        )
    }

    /// Whether two images agree in every field.
    pub fn same_as(&self, other: &ImageModel) -> (same: bool)
        ensures
            same == (self@ == other@),
    {
        self.header == other.header && self.same_content_as(other)
    }
}

} // verus!
