//! The `png` crate as this library sees it.
//!
//! The header record of the codec, `png::Info`, is opaque to the verifier.
//! `info_view` names what such a record holds, and every function below that
//! reads or writes a field says so over that name. What the decoder makes of
//! a byte stream and what the encoder makes of a record are named likewise.
//! None of the contracts in this file is proved: each states what the source
//! of the codec shows.

use vstd::prelude::*;
use crate::model::AnimationControl;
use crate::model::Chromaticities;
use crate::model::Filter;
use crate::model::InternationalText;
use crate::model::TextEntry;
use crate::model::TextEntryView;

verus! {

#[verifier::external_type_specification]
#[verifier::external_body]
pub struct ExInfo<'a>(png::Info<'a>);

#[verifier::external_type_specification]
#[verifier::external_body]
pub struct ExDecodingError(png::DecodingError);

#[verifier::external_type_specification]
#[verifier::external_body]
pub struct ExEncodingError(png::EncodingError);

/// The header fields of a codec record, bit depth and colour type as their codes.
#[derive(Clone, Copy, Debug, PartialEq, Eq, Structural)]
pub struct RawHeader {
    pub width: u32,
    pub height: u32,
    pub bit_depth: u8,
    pub color_type: u8,
    pub interlaced: bool,
}

/// A physical pixel size, the unit as its code.
#[derive(Clone, Copy, Debug, PartialEq, Eq, Structural)]
pub struct RawPixelDimensions {
    pub xppu: u32,
    pub yppu: u32,
    pub unit: u8,
}

/// A frame control record, the two operations as their codes.
#[derive(Clone, Copy, Debug, PartialEq, Eq, Structural)]
pub struct RawFrameControl {
    pub sequence_number: u32,
    pub width: u32,
    pub height: u32,
    pub x_offset: u32,
    pub y_offset: u32,
    pub delay_num: u16,
    pub delay_den: u16,
    pub dispose_op: u8,
    pub blend_op: u8,
}

/// A text that a codec record holds either as characters or as the
/// compressed bytes it was read from.
pub enum StoredText {
    Plain(Seq<char>),
    Deflated(Seq<u8>),
}

/// A compressed Latin-1 text entry of a codec record.
pub struct CompressedTextView {
    pub keyword: Seq<char>,
    pub text: StoredText,
}

/// An international text entry of a codec record.
pub struct StoredInternationalText {
    pub keyword: Seq<char>,
    pub compressed: bool,
    pub language_tag: Seq<char>,
    pub translated_keyword: Seq<char>,
    pub text: StoredText,
}

/// What a codec record holds, as far as the encoder reads it or the
/// decoder's result is used here.
pub struct InfoView {
    pub header: RawHeader,
    pub palette: Option<Seq<u8>>,
    pub trns: Option<Seq<u8>>,
    pub icc_profile: Option<Seq<u8>>,
    pub exif_metadata: Option<Seq<u8>>,
    pub srgb: Option<u8>,
    /// The gamma that the decoder read from the stream.
    pub gama_chunk: Option<u32>,
    /// The chromaticities that the decoder read from the stream.
    pub chrm_chunk: Option<Chromaticities>,
    /// The gamma that the encoder writes.
    pub source_gamma: Option<u32>,
    /// The chromaticities that the encoder writes.
    pub source_chromaticities: Option<Chromaticities>,
    pub pixel_dims: Option<RawPixelDimensions>,
    pub frame_control: Option<RawFrameControl>,
    pub animation_control: Option<AnimationControl>,
    pub latin1_text: Seq<TextEntryView>,
    pub compressed_text: Seq<CompressedTextView>,
    pub international_text: Seq<StoredInternationalText>,
}

/// Whether a number is the code of a bit depth.
pub open spec fn is_depth_code(code: u8) -> bool {
    code == 1 || code == 2 || code == 4 || code == 8 || code == 16
}

/// Whether a number is the code of a colour type.
pub open spec fn is_color_code(code: u8) -> bool {
    code == 0 || code == 2 || code == 3 || code == 4 || code == 6
}

/// The number of samples per pixel that a colour code stands for.
pub open spec fn sample_count(color_code: u8) -> int {
    if color_code == 2 {
        3
    } else if color_code == 4 {
        2
    } else if color_code == 6 {
        4
    } else {
        1
    }
}

impl InfoView {
    /// The number of raster bytes that the encoder expects for this record:
    /// the rows of the frame control record where there is one, else those
    /// of the header, each row packed and padded to a whole byte.
    pub open spec fn frame_bytes(self) -> int {
        let (width, height) = match self.frame_control {
            Some(f) => (f.width, f.height),
            None => (self.header.width, self.header.height),
        };
        height * ((width * (sample_count(self.header.color_type) * self.header.bit_depth) + 7) / 8)
    }

    /// A record with the given header and nothing else.
    pub open spec fn blank(header: RawHeader) -> InfoView {
        InfoView {
            header,
            palette: None,
            trns: None,
            icc_profile: None,
            exif_metadata: None,
            srgb: None,
            gama_chunk: None,
            chrm_chunk: None,
            source_gamma: None,
            source_chromaticities: None,
            pixel_dims: None,
            frame_control: None,
            animation_control: None,
            latin1_text: Seq::empty(),
            compressed_text: Seq::empty(),
            international_text: Seq::empty(),
        }
    }
}

/// What a codec record holds.
pub uninterp spec fn info_view(info: png::Info<'static>) -> InfoView;

/// The text that `ZTXtChunk::decompress_text` and then `get_text` make of a
/// stored text: the characters themselves, or the stored bytes inflated
/// within the limit of the codec and read as Latin-1; none where the bytes
/// do not inflate or inflate to more than the limit.
pub uninterp spec fn compressed_text_of(stored: StoredText) -> Option<Seq<char>>;

/// The text that `ITXtChunk::decompress_text` and then `get_text` make of a
/// stored text: the characters themselves, or the stored bytes inflated
/// within the limit of the codec and read as UTF-8; none where the bytes do
/// not inflate, inflate to more than the limit or are not UTF-8.
pub uninterp spec fn international_text_of(stored: StoredText) -> Option<Seq<char>>;

/// The record that the decoder reports of a stream once it has read it up
/// to the image data; none where it fails.
pub uninterp spec fn png_read_info(stream: Seq<u8>) -> Option<InfoView>;

/// The raster that the decoder restores from the first frame of a stream;
/// none where it fails.
pub uninterp spec fn png_next_frame(stream: Seq<u8>) -> Option<Seq<u8>>;

/// The stream that the encoder writes for a record and a raster with a row
/// filter; none where it fails.
pub uninterp spec fn png_encoded(info: InfoView, pixels: Seq<u8>, filter: Filter) -> Option<
    Seq<u8>,
>;

/// `png::Decoder::new` on the bytes, then `read_info`, then a copy of
/// `Reader::info`: the record as it stands before any image data is read.
#[verifier::external_body]
pub(crate) fn read_info(stream: &[u8]) -> (r: Result<png::Info<'static>, png::DecodingError>)
    ensures
        match r {
            Ok(info) => png_read_info(stream@) == Some(info_view(info)),
            Err(_) => png_read_info(stream@) is None,
        },
{
    let reader = png::Decoder::new(std::io::Cursor::new(stream)).read_info()?;
    Ok(reader.info().clone())
}

/// `png::Decoder::new` on the bytes, then `read_info` and `Reader::next_frame`
/// into a buffer of `Reader::output_buffer_size` bytes: the raster of the
/// first frame, with no transformation applied.
#[verifier::external_body]
pub(crate) fn read_frame(stream: &[u8]) -> (r: Result<Vec<u8>, png::DecodingError>)
    ensures
        match r {
            Ok(pixels) => png_next_frame(stream@) == Some(pixels@),
            Err(_) => png_next_frame(stream@) is None,
        },
{
    let mut reader = png::Decoder::new(std::io::Cursor::new(stream)).read_info()?;
    let size = reader.output_buffer_size().ok_or(png::DecodingError::LimitsExceeded)?;
    let mut pixels = vec![0; size];
    reader.next_frame(&mut pixels)?;
    Ok(pixels)
}

/// `png::Encoder::with_info` on an empty buffer, then `set_filter`,
/// `write_header`, `Writer::write_image_data` and `Writer::finish`: the whole
/// stream. The encoder takes the size of a row from the frame control record
/// where there is one, multiplies it by the height and splits the raster into
/// rows of that size. So a frame control record must have a width and a
/// height above zero, and the raster must have the size that the record asks
/// for: a row is then no longer than the raster, and its size fits.
#[verifier::external_body]
pub(crate) fn encode_stream(info: png::Info<'static>, pixels: &[u8], filter: Filter) -> (r: Result<
    Vec<u8>,
    png::EncodingError,
>)
    requires
        info_view(info).frame_control matches Some(f) ==> f.width > 0 && f.height > 0,
        info_view(info).frame_bytes() == pixels@.len(),
    ensures
        match r {
            Ok(stream) => png_encoded(info_view(info), pixels@, filter) == Some(stream@),
            Err(_) => png_encoded(info_view(info), pixels@, filter) is None,
        },
{
    let mut stream = Vec::new();
    let mut encoder = png::Encoder::with_info(&mut stream, info)?;
    encoder.set_filter(match filter {
        Filter::Unfiltered => png::Filter::NoFilter,
        Filter::Sub => png::Filter::Sub,
        Filter::Up => png::Filter::Up,
        Filter::Average => png::Filter::Avg,
        Filter::Paeth => png::Filter::Paeth,
        Filter::Adaptive => png::Filter::Adaptive,
    });
    let mut writer = encoder.write_header()?;
    writer.write_image_data(pixels)?;
    writer.finish()?;
    Ok(stream)
}

/// The fields `width`, `height`, `bit_depth`, `color_type` and `interlaced`
/// of `png::Info`. The two enums of the codec have no other values than the
/// five codes each.
#[verifier::external_body]
pub(crate) fn info_header(info: &png::Info<'static>) -> (header: RawHeader)
    ensures
        header == info_view(*info).header,
        is_depth_code(header.bit_depth),
        is_color_code(header.color_type),
{
    RawHeader {
        width: info.width,
        height: info.height,
        bit_depth: info.bit_depth as u8,
        color_type: info.color_type as u8,
        interlaced: info.interlaced,
    }
}

/// The field `palette` of `png::Info`.
#[verifier::external_body]
pub(crate) fn info_palette(info: &png::Info<'static>) -> (palette: Option<Vec<u8>>)
    ensures
        crate::model::bytes_of(palette) == info_view(*info).palette,
{
    info.palette.as_ref().map(|bytes| bytes.to_vec())
}

/// The field `trns` of `png::Info`.
#[verifier::external_body]
pub(crate) fn info_trns(info: &png::Info<'static>) -> (trns: Option<Vec<u8>>)
    ensures
        crate::model::bytes_of(trns) == info_view(*info).trns,
{
    info.trns.as_ref().map(|bytes| bytes.to_vec())
}

/// The field `icc_profile` of `png::Info`.
#[verifier::external_body]
pub(crate) fn info_icc_profile(info: &png::Info<'static>) -> (profile: Option<Vec<u8>>)
    ensures
        crate::model::bytes_of(profile) == info_view(*info).icc_profile,
{
    info.icc_profile.as_ref().map(|bytes| bytes.to_vec())
}

/// The field `gama_chunk` of `png::Info`, through `ScaledFloat::into_scaled`.
#[verifier::external_body]
pub(crate) fn info_gamma(info: &png::Info<'static>) -> (gamma: Option<u32>)
    ensures
        gamma == info_view(*info).gama_chunk,
{
    info.gama_chunk.map(|g| g.into_scaled())
}

/// The field `chrm_chunk` of `png::Info`, each coordinate through
/// `ScaledFloat::into_scaled`.
#[verifier::external_body]
pub(crate) fn info_chromaticities(info: &png::Info<'static>) -> (chrm: Option<Chromaticities>)
    ensures
        chrm == info_view(*info).chrm_chunk,
{
    info.chrm_chunk.map(|c| Chromaticities {
        white_x: c.white.0.into_scaled(),
        white_y: c.white.1.into_scaled(),
        red_x: c.red.0.into_scaled(),
        red_y: c.red.1.into_scaled(),
        green_x: c.green.0.into_scaled(),
        green_y: c.green.1.into_scaled(),
        blue_x: c.blue.0.into_scaled(),
        blue_y: c.blue.1.into_scaled(),
    })
}

/// The field `pixel_dims` of `png::Info`. The unit has the codes 0 and 1.
#[verifier::external_body]
pub(crate) fn info_pixel_dims(info: &png::Info<'static>) -> (dims: Option<RawPixelDimensions>)
    ensures
        dims == info_view(*info).pixel_dims,
        dims matches Some(d) ==> d.unit <= 1,
{
    info.pixel_dims.map(|d| RawPixelDimensions { xppu: d.xppu, yppu: d.yppu, unit: d.unit as u8 })
}

/// The field `frame_control` of `png::Info`. The dispose operation has the
/// codes 0 to 2, the blend operation 0 and 1.
#[verifier::external_body]
pub(crate) fn info_frame_control(info: &png::Info<'static>) -> (frame: Option<RawFrameControl>)
    ensures
        frame == info_view(*info).frame_control,
        frame matches Some(f) ==> f.dispose_op <= 2 && f.blend_op <= 1,
{
    info.frame_control.map(|f| RawFrameControl {
        sequence_number: f.sequence_number,
        width: f.width,
        height: f.height,
        x_offset: f.x_offset,
        y_offset: f.y_offset,
        delay_num: f.delay_num,
        delay_den: f.delay_den,
        dispose_op: f.dispose_op as u8,
        blend_op: f.blend_op as u8,
    })
}

/// The field `animation_control` of `png::Info`.
#[verifier::external_body]
pub(crate) fn info_animation_control(info: &png::Info<'static>) -> (animation: Option<
    AnimationControl,
>)
    ensures
        animation == info_view(*info).animation_control,
{
    info.animation_control.map(|a| AnimationControl {
        num_frames: a.num_frames,
        num_plays: a.num_plays,
    })
}

/// `png::Info::with_size`, then the fields `bit_depth`, `color_type` and
/// `interlaced` set: every other field is as `Info::default` leaves it,
/// absent or empty.
#[verifier::external_body]
pub(crate) fn new_info(header: RawHeader) -> (info: png::Info<'static>)
    requires
        is_depth_code(header.bit_depth),
        is_color_code(header.color_type),
    ensures
        info_view(info) == InfoView::blank(header),
{
    let mut info = png::Info::with_size(header.width, header.height);
    info.bit_depth = png::BitDepth::from_u8(header.bit_depth).unwrap();
    info.color_type = png::ColorType::from_u8(header.color_type).unwrap();
    info.interlaced = header.interlaced;
    info
}

/// Sets the field `palette` of `png::Info`.
#[verifier::external_body]
pub(crate) fn set_palette(info: &mut png::Info<'static>, palette: &[u8])
    ensures
        info_view(*final(info)) == (InfoView {
            palette: Some(palette@),
            ..info_view(*old(info))
        }),
{
    info.palette = Some(std::borrow::Cow::Owned(palette.to_vec()));
}

/// Sets the field `trns` of `png::Info`.
#[verifier::external_body]
pub(crate) fn set_trns(info: &mut png::Info<'static>, trns: &[u8])
    ensures
        info_view(*final(info)) == (InfoView { trns: Some(trns@), ..info_view(*old(info)) }),
{
    info.trns = Some(std::borrow::Cow::Owned(trns.to_vec()));
}

/// Sets the field `icc_profile` of `png::Info`.
#[verifier::external_body]
pub(crate) fn set_icc_profile(info: &mut png::Info<'static>, profile: &[u8])
    ensures
        info_view(*final(info)) == (InfoView {
            icc_profile: Some(profile@),
            ..info_view(*old(info))
        }),
{
    info.icc_profile = Some(std::borrow::Cow::Owned(profile.to_vec()));
}

/// Sets the field `source_gamma` of `png::Info`, through
/// `ScaledFloat::from_scaled`.
#[verifier::external_body]
pub(crate) fn set_source_gamma(info: &mut png::Info<'static>, gamma: u32)
    ensures
        info_view(*final(info)) == (InfoView {
            source_gamma: Some(gamma),
            ..info_view(*old(info))
        }),
{
    info.source_gamma = Some(png::ScaledFloat::from_scaled(gamma));
}

/// Sets the field `source_chromaticities` of `png::Info`, each coordinate
/// through `ScaledFloat::from_scaled`.
#[verifier::external_body]
pub(crate) fn set_source_chromaticities(info: &mut png::Info<'static>, chrm: Chromaticities)
    ensures
        info_view(*final(info)) == (InfoView {
            source_chromaticities: Some(chrm),
            ..info_view(*old(info))
        }),
{
    let scaled = png::ScaledFloat::from_scaled;
    info.source_chromaticities = Some(png::SourceChromaticities {
        white: (scaled(chrm.white_x), scaled(chrm.white_y)),
        red: (scaled(chrm.red_x), scaled(chrm.red_y)),
        green: (scaled(chrm.green_x), scaled(chrm.green_y)),
        blue: (scaled(chrm.blue_x), scaled(chrm.blue_y)),
    });
}

/// Sets the field `pixel_dims` of `png::Info`.
#[verifier::external_body]
pub(crate) fn set_pixel_dims(info: &mut png::Info<'static>, dims: RawPixelDimensions)
    requires
        dims.unit <= 1,
    ensures
        info_view(*final(info)) == (InfoView {
            pixel_dims: Some(dims),
            ..info_view(*old(info))
        }),
{
    let unit = png::Unit::from_u8(dims.unit).unwrap();
    info.pixel_dims = Some(png::PixelDimensions { xppu: dims.xppu, yppu: dims.yppu, unit });
}

/// Sets the field `frame_control` of `png::Info`.
#[verifier::external_body]
pub(crate) fn set_frame_control(info: &mut png::Info<'static>, frame: RawFrameControl)
    requires
        frame.dispose_op <= 2,
        frame.blend_op <= 1,
    ensures
        info_view(*final(info)) == (InfoView {
            frame_control: Some(frame),
            ..info_view(*old(info))
        }),
{
    info.frame_control = Some(png::FrameControl {
        sequence_number: frame.sequence_number,
        width: frame.width,
        height: frame.height,
        x_offset: frame.x_offset,
        y_offset: frame.y_offset,
        delay_num: frame.delay_num,
        delay_den: frame.delay_den,
        dispose_op: png::DisposeOp::from_u8(frame.dispose_op).unwrap(),
        blend_op: png::BlendOp::from_u8(frame.blend_op).unwrap(),
    });
}

/// Sets the field `animation_control` of `png::Info`.
#[verifier::external_body]
pub(crate) fn set_animation_control(info: &mut png::Info<'static>, animation: AnimationControl)
    ensures
        info_view(*final(info)) == (InfoView {
            animation_control: Some(animation),
            ..info_view(*old(info))
        }),
{
    info.animation_control = Some(png::AnimationControl {
        num_frames: animation.num_frames,
        num_plays: animation.num_plays,
    });
}

/// The length of the field `uncompressed_latin1_text` of `png::Info`.
#[verifier::external_body]
pub(crate) fn latin1_text_len(info: &png::Info<'static>) -> (n: usize)
    ensures
        n == info_view(*info).latin1_text.len(),
{
    info.uncompressed_latin1_text.len()
}

/// One entry of the field `uncompressed_latin1_text` of `png::Info`.
#[verifier::external_body]
pub(crate) fn latin1_text_at(info: &png::Info<'static>, i: usize) -> (entry: TextEntry)
    requires
        i < info_view(*info).latin1_text.len(),
    ensures
        entry@ == info_view(*info).latin1_text[i as int],
{
    let chunk = &info.uncompressed_latin1_text[i];
    TextEntry { keyword: chunk.keyword.clone(), text: chunk.text.clone() }
}

/// The length of the field `compressed_latin1_text` of `png::Info`.
#[verifier::external_body]
pub(crate) fn compressed_text_len(info: &png::Info<'static>) -> (n: usize)
    ensures
        n == info_view(*info).compressed_text.len(),
{
    info.compressed_latin1_text.len()
}

/// One entry of the field `compressed_latin1_text` of `png::Info`, its text
/// through `ZTXtChunk::decompress_text`, which inflates within a limit, and
/// `get_text`; none where that fails.
#[verifier::external_body]
pub(crate) fn compressed_text_at(info: &png::Info<'static>, i: usize) -> (entry: Option<TextEntry>)
    requires
        i < info_view(*info).compressed_text.len(),
    ensures
        match entry {
            Some(e) => e@.keyword == info_view(*info).compressed_text[i as int].keyword
                && compressed_text_of(info_view(*info).compressed_text[i as int].text) == Some(
                e@.text,
            ),
            None => compressed_text_of(info_view(*info).compressed_text[i as int].text) is None,
        },
{
    let mut chunk = info.compressed_latin1_text[i].clone();
    chunk.decompress_text().ok()?;
    let text = chunk.get_text().ok()?;
    Some(TextEntry { keyword: chunk.keyword, text })
}

/// The length of the field `utf8_text` of `png::Info`.
#[verifier::external_body]
pub(crate) fn international_text_len(info: &png::Info<'static>) -> (n: usize)
    ensures
        n == info_view(*info).international_text.len(),
{
    info.utf8_text.len()
}

/// One entry of the field `utf8_text` of `png::Info`, its text through
/// `ITXtChunk::decompress_text`, which inflates within a limit, and
/// `get_text`; none where that fails.
#[verifier::external_body]
pub(crate) fn international_text_at(info: &png::Info<'static>, i: usize) -> (entry: Option<
    InternationalText,
>)
    requires
        i < info_view(*info).international_text.len(),
    ensures
        match entry {
            Some(e) => {
                let stored = info_view(*info).international_text[i as int];
                &&& e@.keyword == stored.keyword
                &&& e@.compressed == stored.compressed
                &&& e@.language_tag == stored.language_tag
                &&& e@.translated_keyword == stored.translated_keyword
                &&& international_text_of(stored.text) == Some(e@.text)
            },
            None => international_text_of(info_view(*info).international_text[i as int].text)
                is None,
        },
{
    let mut chunk = info.utf8_text[i].clone();
    chunk.decompress_text().ok()?;
    let text = chunk.get_text().ok()?;
    Some(InternationalText {
        keyword: chunk.keyword,
        compressed: chunk.compressed,
        language_tag: chunk.language_tag,
        translated_keyword: chunk.translated_keyword,
        text,
    })
}

/// Appends `TEXtChunk::new` of the keyword and the text to the field
/// `uncompressed_latin1_text` of `png::Info`.
#[verifier::external_body]
pub(crate) fn push_latin1_text(info: &mut png::Info<'static>, entry: &TextEntry)
    ensures
        info_view(*final(info)) == (InfoView {
            latin1_text: info_view(*old(info)).latin1_text.push(entry@),
            ..info_view(*old(info))
        }),
{
    let chunk = png::text_metadata::TEXtChunk::new(entry.keyword.clone(), entry.text.clone());
    info.uncompressed_latin1_text.push(chunk);
}

/// Appends `ZTXtChunk::new` of the keyword and the text to the field
/// `compressed_latin1_text` of `png::Info`; the new chunk holds the text as
/// characters.
#[verifier::external_body]
pub(crate) fn push_compressed_text(info: &mut png::Info<'static>, entry: &TextEntry)
    ensures
        info_view(*final(info)) == (InfoView {
            compressed_text: info_view(*old(info)).compressed_text.push(
                CompressedTextView { keyword: entry@.keyword, text: StoredText::Plain(entry@.text) },
            ),
            ..info_view(*old(info))
        }),
{
    let chunk = png::text_metadata::ZTXtChunk::new(entry.keyword.clone(), entry.text.clone());
    info.compressed_latin1_text.push(chunk);
}

/// Appends `ITXtChunk::new` of the keyword and the text, with the three
/// other fields set, to the field `utf8_text` of `png::Info`; the new chunk
/// holds the text as characters.
#[verifier::external_body]
pub(crate) fn push_international_text(info: &mut png::Info<'static>, entry: &InternationalText)
    ensures
        info_view(*final(info)) == (InfoView {
            international_text: info_view(*old(info)).international_text.push(
                StoredInternationalText {
                    keyword: entry@.keyword,
                    compressed: entry@.compressed,
                    language_tag: entry@.language_tag,
                    translated_keyword: entry@.translated_keyword,
                    text: StoredText::Plain(entry@.text),
                },
            ),
            ..info_view(*old(info))
        }),
{
    let mut chunk = png::text_metadata::ITXtChunk::new(entry.keyword.clone(), entry.text.clone());
    chunk.compressed = entry.compressed;
    chunk.language_tag = entry.language_tag.clone();
    chunk.translated_keyword = entry.translated_keyword.clone();
    info.utf8_text.push(chunk);
}

} // verus!
