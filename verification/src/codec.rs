//! Decoding a PNG stream into an image model and encoding a model into a
//! stream. The container is read and checked here; decompression, filtering
//! and compression are the work of the `png` crate, reached through
//! `crate::binding`. What the encoder wrote is decoded again before it is
//! handed out, so a stream that `encode` returns is known to read back as
//! the model it was made from.

use vstd::prelude::*;
use crate::binding::compressed_text_at;
use crate::binding::compressed_text_len;
use crate::binding::compressed_text_of;
use crate::binding::CompressedTextView;
use crate::binding::encode_stream;
use crate::binding::info_animation_control;
use crate::binding::info_chromaticities;
use crate::binding::info_frame_control;
use crate::binding::info_gamma;
use crate::binding::info_header;
use crate::binding::info_icc_profile;
use crate::binding::info_palette;
use crate::binding::info_pixel_dims;
use crate::binding::info_trns;
use crate::binding::info_view;
use crate::binding::InfoView;
use crate::binding::international_text_at;
use crate::binding::international_text_len;
use crate::binding::international_text_of;
use crate::binding::latin1_text_at;
use crate::binding::latin1_text_len;
use crate::binding::new_info;
use crate::binding::png_encoded;
use crate::binding::png_next_frame;
use crate::binding::png_read_info;
use crate::binding::push_compressed_text;
use crate::binding::push_international_text;
use crate::binding::push_latin1_text;
use crate::binding::RawFrameControl;
use crate::binding::RawHeader;
use crate::binding::RawPixelDimensions;
use crate::binding::read_frame;
use crate::binding::read_info;
use crate::binding::set_animation_control;
use crate::binding::set_frame_control;
use crate::binding::set_icc_profile;
use crate::binding::set_palette;
use crate::binding::set_pixel_dims;
use crate::binding::set_source_chromaticities;
use crate::binding::set_source_gamma;
use crate::binding::set_trns;
use crate::binding::StoredInternationalText;
use crate::binding::StoredText;
use crate::chunk::header_of_payload;
use crate::chunk::lemma_changed_payload_is_corrupt;
use crate::chunk::lemma_header_chunk_comes_first;
use crate::chunk::parse_header;
use crate::chunk::payload_offset;
use crate::chunk::read_chunks;
use crate::chunk::spec_read_chunks;
use crate::error::PngError;
use crate::error::StreamFault;
use crate::model::BitDepth;
use crate::model::BlendOp;
use crate::model::ColorType;
use crate::model::DisposeOp;
use crate::model::Filter;
use crate::model::FrameControl;
use crate::model::Header;
use crate::model::ImageModel;
use crate::model::ImageModelView;
use crate::model::international_views;
use crate::model::InternationalText;
use crate::model::InternationalTextView;
use crate::model::PixelDimensions;
use crate::model::text_views;
use crate::model::TextEntry;
use crate::model::TextEntryView;
use crate::model::Unit;

verus! {

/// What a decoding result holds, as mathematical values.
pub open spec fn model_result(r: Result<ImageModel, PngError>) -> Result<ImageModelView, PngError> {
    match r {
        Ok(model) => Ok(model@),
        Err(e) => Err(e),
    }
}

/// What an encoding result holds, as mathematical values.
pub open spec fn stream_result(r: Result<Vec<u8>, PngError>) -> Result<Seq<u8>, PngError> {
    match r {
        Ok(stream) => Ok(stream@),
        Err(e) => Err(e),
    }
}

/// A header with its bit depth and colour type as codes.
pub open spec fn raw_header(header: Header) -> RawHeader {
    RawHeader {
        width: header.width,
        height: header.height,
        bit_depth: header.bit_depth.spec_bits(),
        color_type: header.color_type.spec_code(),
        interlaced: header.interlaced,
    }
}

/// A physical pixel size with its unit as a code.
pub open spec fn raw_pixel_dims(dims: PixelDimensions) -> RawPixelDimensions {
    RawPixelDimensions { xppu: dims.xppu, yppu: dims.yppu, unit: dims.unit.spec_code() }
}

/// A frame control record with its operations as codes.
pub open spec fn raw_frame_control(frame: FrameControl) -> RawFrameControl {
    RawFrameControl {
        sequence_number: frame.sequence_number,
        width: frame.width,
        height: frame.height,
        x_offset: frame.x_offset,
        y_offset: frame.y_offset,
        delay_num: frame.delay_num,
        delay_den: frame.delay_den,
        dispose_op: frame.dispose_op.spec_code(),
        blend_op: frame.blend_op.spec_code(),
    }
}

/// The physical pixel size that a raw record stands for, if its unit code is one.
pub open spec fn pixel_dims_of(raw: RawPixelDimensions) -> Option<PixelDimensions> {
    match Unit::spec_from_code(raw.unit) {
        Some(unit) => Some(PixelDimensions { xppu: raw.xppu, yppu: raw.yppu, unit }),
        None => None,
    }
}

/// The frame control record that a raw record stands for, if its codes are codes.
pub open spec fn frame_control_of(raw: RawFrameControl) -> Option<FrameControl> {
    match (DisposeOp::spec_from_code(raw.dispose_op), BlendOp::spec_from_code(raw.blend_op)) {
        (Some(dispose_op), Some(blend_op)) => Some(
            FrameControl {
                sequence_number: raw.sequence_number,
                width: raw.width,
                height: raw.height,
                x_offset: raw.x_offset,
                y_offset: raw.y_offset,
                delay_num: raw.delay_num,
                delay_den: raw.delay_den,
                dispose_op,
                blend_op,
            },
        ),
        _ => None,
    }
}

/// The compressed text entries of a codec record with their texts restored,
/// if every one of them can be restored.
pub open spec fn restored_texts(stored: Seq<CompressedTextView>) -> Option<Seq<TextEntryView>> {
    if forall|i: int|
        0 <= i < stored.len() ==> (#[trigger] compressed_text_of(stored[i].text)) is Some {
        Some(
            Seq::new(
                stored.len(),
                |i: int|
                    TextEntryView {
                        keyword: stored[i].keyword,
                        text: compressed_text_of(stored[i].text)->Some_0,
                    },
            ),
        )
    } else {
        None
    }
}

/// The international text entries of a codec record with their texts
/// restored, if every one of them can be restored.
pub open spec fn restored_international_texts(stored: Seq<StoredInternationalText>) -> Option<
    Seq<InternationalTextView>,
> {
    if forall|i: int|
        0 <= i < stored.len() ==> (#[trigger] international_text_of(stored[i].text)) is Some {
        Some(
            Seq::new(
                stored.len(),
                |i: int|
                    InternationalTextView {
                        keyword: stored[i].keyword,
                        compressed: stored[i].compressed,
                        language_tag: stored[i].language_tag,
                        translated_keyword: stored[i].translated_keyword,
                        text: international_text_of(stored[i].text)->Some_0,
                    },
            ),
        )
    } else {
        None
    }
}

/// The image that a codec record and a raster make up under a header: the
/// metadata as the decoder read it from the stream, the transparent colour
/// of a greyscale or colour image as the decoder holds it, every compressed
/// text restored. No image where a text cannot be restored or the record
/// holds a code that stands for nothing.
pub open spec fn spec_model_of(header: Header, info: InfoView, pixels: Seq<u8>) -> Result<
    ImageModelView,
    PngError,
> {
    let pixel_dims = match info.pixel_dims {
        Some(raw) => pixel_dims_of(raw),
        None => None,
    };
    let frame_control = match info.frame_control {
        Some(raw) => frame_control_of(raw),
        None => None,
    };
    let compressed_text = restored_texts(info.compressed_text);
    let international_text = restored_international_texts(info.international_text);
    if (info.pixel_dims is Some && pixel_dims is None) || (info.frame_control is Some
        && frame_control is None) || compressed_text is None || international_text is None {
        Err(PngError::CorruptData)
    } else {
        Ok(
            ImageModelView {
                header,
                palette: info.palette,
                transparency: info.trns,
                icc_profile: info.icc_profile,
                gamma: info.gama_chunk,
                chromaticities: info.chrm_chunk,
                pixel_dims,
                text: info.latin1_text,
                compressed_text: compressed_text->Some_0,
                international_text: international_text->Some_0,
                frame_control,
                animation_control: info.animation_control,
                pixels,
            },
        )
    }
}

/// The image that a stream describes before its image data, with the raster
/// left empty, or why there is none.
///
/// The container must be sound: signature, chunk lengths, checksums, a valid
/// header chunk in first place, an end chunk after the data. The decoder
/// must then accept what comes before the image data and report the header
/// that the header chunk holds; where it does not, the data is corrupt.
pub open spec fn spec_read_metadata(stream: Seq<u8>) -> Result<ImageModelView, PngError> {
    match spec_read_chunks(stream) {
        Err(e) => Err(e),
        Ok(chunks) => {
            let header = header_of_payload(chunks[0].data);
            match png_read_info(stream) {
                None => Err(PngError::CorruptData),
                Some(info) => if info.header != raw_header(header) {
                    Err(PngError::CorruptData)
                } else {
                    spec_model_of(header, info, Seq::empty())
                },
            }
        },
    }
}

/// The most bytes that one byte of compressed data can stand for: no deflate
/// stream restores more.
pub const MAX_INFLATION: u64 = 1032;

/// Whether a stream of `length` bytes is too short to hold a raster of the
/// size that a header gives, however well the raster compresses.
pub open spec fn overstated(header: Header, length: nat) -> bool {
    header.spec_raster_len() > MAX_INFLATION * length
}

/// The error of a stream that is sound as a container and decodes, but to
/// an image whose fields contradict each other; it points at the first chunk.
pub open spec fn inconsistent() -> PngError {
    PngError::MalformedStream { offset: 8, fault: StreamFault::InconsistentImage }
}

/// The image that a stream holds, or why it holds none.
///
/// What comes before the image data must read as `spec_read_metadata` says.
/// The stream must be long enough for the raster that its header announces,
/// and the decoder must restore a raster of exactly that size; where either
/// fails, the data is corrupt. The image must be well formed; where it is
/// not, the stream is malformed.
pub open spec fn spec_decode(stream: Seq<u8>) -> Result<ImageModelView, PngError> {
    match spec_read_metadata(stream) {
        Err(e) => Err(e),
        Ok(metadata) => if overstated(metadata.header, stream.len()) {
            Err(PngError::CorruptData)
        } else {
            match png_next_frame(stream) {
                None => Err(PngError::CorruptData),
                Some(pixels) => if pixels.len() != metadata.header.spec_raster_len() {
                    Err(PngError::CorruptData)
                } else {
                    let model = ImageModelView { pixels, ..metadata };
                    if model.well_formed() {
                        Ok(model)
                    } else {
                        Err(inconsistent())
                    }
                },
            }
        },
    }
}

/// A transparent colour as a stream holds it: two bytes per sample, the
/// first of them zero.
pub open spec fn widened(key: Seq<u8>) -> Seq<u8> {
    Seq::new(
        2 * key.len(),
        |i: int|
            if i % 2 == 0 {
                0u8
            } else {
                key[i / 2]
            },
    )
}

/// A transparency record as the encoder wants it: the transparent colour of
/// a greyscale or colour image below sixteen bits widened to two bytes per
/// sample, any other record as it is.
pub open spec fn stream_transparency(header: Header, transparency: Seq<u8>) -> Seq<u8> {
    if (header.color_type == ColorType::Grayscale || header.color_type == ColorType::Rgb)
        && header.bit_depth != BitDepth::Sixteen {
        widened(transparency)
    } else {
        transparency
    }
}

/// A text entry as a codec record holds it before it is written compressed.
pub open spec fn stored_text(entry: TextEntryView) -> CompressedTextView {
    CompressedTextView { keyword: entry.keyword, text: StoredText::Plain(entry.text) }
}

/// An international text entry as a codec record holds it before it is written.
pub open spec fn stored_international_text(entry: InternationalTextView) -> StoredInternationalText {
    StoredInternationalText {
        keyword: entry.keyword,
        compressed: entry.compressed,
        language_tag: entry.language_tag,
        translated_keyword: entry.translated_keyword,
        text: StoredText::Plain(entry.text),
    }
}

/// The codec record that the encoder is given for an image: the header with
/// the interlace flag cleared, since rows are written in order; the gamma and
/// the chromaticities in the fields that the encoder writes; every text as
/// characters; nothing else that the model does not hold.
pub open spec fn spec_info_of(model: ImageModelView) -> InfoView {
    InfoView {
        palette: model.palette,
        trns: match model.transparency {
            Some(t) => Some(stream_transparency(model.header, t)),
            None => None,
        },
        icc_profile: model.icc_profile,
        source_gamma: model.gamma,
        source_chromaticities: model.chromaticities,
        pixel_dims: match model.pixel_dims {
            Some(d) => Some(raw_pixel_dims(d)),
            None => None,
        },
        frame_control: match model.frame_control {
            Some(f) => Some(raw_frame_control(f)),
            None => None,
        },
        animation_control: model.animation_control,
        latin1_text: model.text,
        compressed_text: model.compressed_text.map_values(|e: TextEntryView| stored_text(e)),
        international_text: model.international_text.map_values(
            |e: InternationalTextView| stored_international_text(e),
        ),
        ..InfoView::blank(raw_header(Header { interlaced: false, ..model.header }))
    }
}

/// The stream that stands for an image when its rows are filtered as
/// `filter` says, or why there is none.
///
/// The model must be well formed and the encoder must accept it. The stream
/// is handed out only if it decodes to the same image, rows in order;
/// anything else counts as a model that cannot be written.
pub open spec fn spec_encode_with(model: ImageModelView, filter: Filter) -> Result<
    Seq<u8>,
    PngError,
> {
    if !model.well_formed() {
        Err(PngError::InvalidModel)
    } else {
        match png_encoded(spec_info_of(model), model.pixels, filter) {
            None => Err(PngError::InvalidModel),
            Some(stream) => if spec_decode(stream) == Ok::<ImageModelView, PngError>(
                model.in_row_order(),
            ) {
                Ok(stream)
            } else {
                Err(PngError::InvalidModel)
            },
        }
    }
}

/// The stream that stands for an image, the filter of each row chosen by
/// the encoder, or why there is none.
pub open spec fn spec_encode(model: ImageModelView) -> Result<Seq<u8>, PngError> {
    spec_encode_with(model, Filter::Adaptive)
}

/// A header with its bit depth and colour type as codes.
fn header_to_raw(header: &Header) -> (raw: RawHeader)
    ensures
        raw == raw_header(*header),
        crate::binding::is_depth_code(raw.bit_depth),
        crate::binding::is_color_code(raw.color_type),
{
    RawHeader {
        width: header.width,
        height: header.height,
        bit_depth: header.bit_depth.bits(),
        color_type: header.color_type.code(),
        interlaced: header.interlaced,
    }
}

/// A transparent colour with two bytes per sample, the first of them zero.
pub fn widen(key: &[u8]) -> (wide: Vec<u8>)
    requires
        2 * key@.len() <= usize::MAX,
    ensures
        wide@ == widened(key@),
{
    let mut wide: Vec<u8> = Vec::new();
    let mut i: usize = 0;
    while i < key.len()
        invariant
            i <= key@.len(),
            wide@.len() == 2 * i,
            forall|j: int|
                0 <= j < 2 * i ==> wide@[j] == if j % 2 == 0 {
                    0u8
                } else {
                    key@[j / 2]
                },
        decreases key.len() - i,
    {
        wide.push(0);
        wide.push(key[i]);
        i += 1;
    }
    wide
}

/// The image that a codec record and a raster make up under a header.
fn model_of(header: Header, info: &png::Info<'static>, pixels: Vec<u8>) -> (r: Result<
    ImageModel,
    PngError,
>)
    ensures
        model_result(r) == spec_model_of(header, info_view(*info), pixels@),
{
    let pixel_dims = match info_pixel_dims(info) {
        Some(raw) => match Unit::from_code(raw.unit) {
            Some(unit) => Some(PixelDimensions { xppu: raw.xppu, yppu: raw.yppu, unit }),
            None => {
                return Err(PngError::CorruptData);
            },
        },
        None => None,
    };
    let frame_control = match info_frame_control(info) {
        Some(raw) => match (DisposeOp::from_code(raw.dispose_op), BlendOp::from_code(raw.blend_op)) {
            (Some(dispose_op), Some(blend_op)) => Some(
                FrameControl {
                    sequence_number: raw.sequence_number,
                    width: raw.width,
                    height: raw.height,
                    x_offset: raw.x_offset,
                    y_offset: raw.y_offset,
                    delay_num: raw.delay_num,
                    delay_den: raw.delay_den,
                    dispose_op,
                    blend_op,
                },
            ),
            _ => {
                return Err(PngError::CorruptData);
            },
        },
        None => None,
    };
    let compressed_text = match collect_compressed_text(info) {
        Some(entries) => entries,
        None => {
            return Err(PngError::CorruptData);
        },
    };
    let international_text = match collect_international_text(info) {
        Some(entries) => entries,
        None => {
            return Err(PngError::CorruptData);
        },
    };
    Ok(
        ImageModel {
            header,
            palette: info_palette(info),
            transparency: info_trns(info),
            icc_profile: info_icc_profile(info),
            gamma: info_gamma(info),
            chromaticities: info_chromaticities(info),
            pixel_dims,
            text: collect_latin1_text(info),
            compressed_text,
            international_text,
            frame_control,
            animation_control: info_animation_control(info),
            pixels,
        },
    )
}

/// The uncompressed text entries of a codec record.
fn collect_latin1_text(info: &png::Info<'static>) -> (entries: Vec<TextEntry>)
    ensures
        text_views(entries@) == info_view(*info).latin1_text,
{
    let n = latin1_text_len(info);
    let mut entries: Vec<TextEntry> = Vec::new();
    let mut i: usize = 0;
    while i < n
        invariant
            i <= n,
            n == info_view(*info).latin1_text.len(),
            entries@.len() == i,
            forall|j: int| 0 <= j < i ==> entries@[j]@ == info_view(*info).latin1_text[j],
        decreases n - i,
    {
        entries.push(latin1_text_at(info, i));
        i += 1;
    }
    entries
}

/// The compressed text entries of a codec record with their texts restored,
/// if every one of them can be restored.
fn collect_compressed_text(info: &png::Info<'static>) -> (entries: Option<Vec<TextEntry>>)
    ensures
        match entries {
            Some(e) => restored_texts(info_view(*info).compressed_text) == Some(text_views(e@)),
            None => restored_texts(info_view(*info).compressed_text) is None,
        },
{
    let ghost stored = info_view(*info).compressed_text;
    let n = compressed_text_len(info);
    let mut entries: Vec<TextEntry> = Vec::new();
    let mut i: usize = 0;
    while i < n
        invariant
            i <= n,
            stored == info_view(*info).compressed_text,
            n == stored.len(),
            entries@.len() == i,
            forall|j: int|
                0 <= j < i ==> (#[trigger] compressed_text_of(stored[j].text)) == Some(
                    entries@[j]@.text,
                ) && entries@[j]@.keyword == stored[j].keyword,
        decreases n - i,
    {
        match compressed_text_at(info, i) {
            Some(entry) => {
                entries.push(entry);
            },
            None => {
                return None;
            },
        }
        i += 1;
    }
    Some(entries)
}

/// The international text entries of a codec record with their texts
/// restored, if every one of them can be restored.
fn collect_international_text(info: &png::Info<'static>) -> (entries: Option<
    Vec<InternationalText>,
>)
    ensures
        match entries {
            Some(e) => restored_international_texts(info_view(*info).international_text) == Some(
                international_views(e@),
            ),
            None => restored_international_texts(info_view(*info).international_text) is None,
        },
{
    let ghost stored = info_view(*info).international_text;
    let n = international_text_len(info);
    let mut entries: Vec<InternationalText> = Vec::new();
    let mut i: usize = 0;
    while i < n
        invariant
            i <= n,
            stored == info_view(*info).international_text,
            n == stored.len(),
            entries@.len() == i,
            forall|j: int|
                0 <= j < i ==> (#[trigger] international_text_of(stored[j].text)) == Some(
                    entries@[j]@.text,
                ) && entries@[j]@.keyword == stored[j].keyword && entries@[j]@.compressed
                    == stored[j].compressed && entries@[j]@.language_tag == stored[j].language_tag
                    && entries@[j]@.translated_keyword == stored[j].translated_keyword,
        decreases n - i,
    {
        match international_text_at(info, i) {
            Some(entry) => {
                entries.push(entry);
            },
            None => {
                return None;
            },
        }
        i += 1;
    }
    Some(entries)
}

/// The codec record that the encoder is given for an image, still without
/// its text entries.
fn textless_info_of(model: &ImageModel) -> (info: png::Info<'static>)
    requires
        model@.well_formed(),
    ensures
        info_view(info) == (InfoView {
            latin1_text: Seq::empty(),
            compressed_text: Seq::empty(),
            international_text: Seq::empty(),
            ..spec_info_of(model@)
        }),
{
    let header = Header { interlaced: false, ..model.header };
    let mut info = new_info(header_to_raw(&header));
    if let Some(palette) = &model.palette {
        set_palette(&mut info, palette.as_slice());
    }
    if let Some(transparency) = &model.transparency {
        let narrow = (model.header.color_type == ColorType::Grayscale || model.header.color_type
            == ColorType::Rgb) && model.header.bit_depth != BitDepth::Sixteen;
        if narrow {
            let wide = widen(transparency.as_slice());
            set_trns(&mut info, wide.as_slice());
        } else {
            set_trns(&mut info, transparency.as_slice());
        }
    }
    if let Some(profile) = &model.icc_profile {
        set_icc_profile(&mut info, profile.as_slice());
    }
    if let Some(gamma) = model.gamma {
        set_source_gamma(&mut info, gamma);
    }
    if let Some(chromaticities) = model.chromaticities {
        set_source_chromaticities(&mut info, chromaticities);
    }
    if let Some(dims) = model.pixel_dims {
        set_pixel_dims(
            &mut info,
            RawPixelDimensions { xppu: dims.xppu, yppu: dims.yppu, unit: dims.unit.code() },
        );
    }
    if let Some(frame) = model.frame_control {
        set_frame_control(
            &mut info,
            RawFrameControl {
                sequence_number: frame.sequence_number,
                width: frame.width,
                height: frame.height,
                x_offset: frame.x_offset,
                y_offset: frame.y_offset,
                delay_num: frame.delay_num,
                delay_den: frame.delay_den,
                dispose_op: frame.dispose_op.code(),
                blend_op: frame.blend_op.code(),
            },
        );
    }
    if let Some(animation) = model.animation_control {
        set_animation_control(&mut info, animation);
    }
    info
}

/// Appends uncompressed text entries to a codec record.
fn add_latin1_text(info: &mut png::Info<'static>, entries: &Vec<TextEntry>)
    ensures
        info_view(*final(info)) == (InfoView {
            latin1_text: info_view(*old(info)).latin1_text + text_views(entries@),
            ..info_view(*old(info))
        }),
{
    let ghost before = info_view(*info);
    let ghost wanted = text_views(entries@);
    let mut i: usize = 0;
    while i < entries.len()
        invariant
            i <= entries@.len(),
            wanted == text_views(entries@),
            info_view(*info) == (InfoView {
                latin1_text: before.latin1_text + wanted.subrange(0, i as int),
                ..before
            }),
        decreases entries.len() - i,
    {
        push_latin1_text(info, &entries[i]);
        assert(before.latin1_text + wanted.subrange(0, i + 1) =~= (before.latin1_text
            + wanted.subrange(0, i as int)).push(entries@[i as int]@));
        i += 1;
    }
    assert(wanted.subrange(0, i as int) =~= wanted);
}

/// Appends text entries that are to be written compressed to a codec record.
fn add_compressed_text(info: &mut png::Info<'static>, entries: &Vec<TextEntry>)
    ensures
        info_view(*final(info)) == (InfoView {
            compressed_text: info_view(*old(info)).compressed_text + text_views(
                entries@,
            ).map_values(|e: TextEntryView| stored_text(e)),
            ..info_view(*old(info))
        }),
{
    let ghost before = info_view(*info);
    let ghost wanted = text_views(entries@).map_values(|e: TextEntryView| stored_text(e));
    let mut i: usize = 0;
    while i < entries.len()
        invariant
            i <= entries@.len(),
            wanted == text_views(entries@).map_values(|e: TextEntryView| stored_text(e)),
            info_view(*info) == (InfoView {
                compressed_text: before.compressed_text + wanted.subrange(0, i as int),
                ..before
            }),
        decreases entries.len() - i,
    {
        push_compressed_text(info, &entries[i]);
        assert(before.compressed_text + wanted.subrange(0, i + 1) =~= (before.compressed_text
            + wanted.subrange(0, i as int)).push(stored_text(entries@[i as int]@)));
        i += 1;
    }
    assert(wanted.subrange(0, i as int) =~= wanted);
}

/// Appends international text entries to a codec record.
fn add_international_text(info: &mut png::Info<'static>, entries: &Vec<InternationalText>)
    ensures
        info_view(*final(info)) == (InfoView {
            international_text: info_view(*old(info)).international_text + international_views(
                entries@,
            ).map_values(|e: InternationalTextView| stored_international_text(e)),
            ..info_view(*old(info))
        }),
{
    let ghost before = info_view(*info);
    let ghost wanted = international_views(entries@).map_values(
        |e: InternationalTextView| stored_international_text(e),
    );
    let mut i: usize = 0;
    while i < entries.len()
        invariant
            i <= entries@.len(),
            wanted == international_views(entries@).map_values(
                |e: InternationalTextView| stored_international_text(e),
            ),
            info_view(*info) == (InfoView {
                international_text: before.international_text + wanted.subrange(0, i as int),
                ..before
            }),
        decreases entries.len() - i,
    {
        push_international_text(info, &entries[i]);
        assert(before.international_text + wanted.subrange(0, i + 1) =~= (
        before.international_text + wanted.subrange(0, i as int)).push(
            stored_international_text(entries@[i as int]@),
        ));
        i += 1;
    }
    assert(wanted.subrange(0, i as int) =~= wanted);
}

/// The codec record that the encoder is given for an image.
fn info_of(model: &ImageModel) -> (info: png::Info<'static>)
    requires
        model@.well_formed(),
    ensures
        info_view(info) == spec_info_of(model@),
{
    let mut info = textless_info_of(model);
    add_latin1_text(&mut info, &model.text);
    add_compressed_text(&mut info, &model.compressed_text);
    add_international_text(&mut info, &model.international_text);
    proof {
        let wanted = spec_info_of(model@);
        assert(Seq::<CompressedTextView>::empty() + wanted.compressed_text
            =~= wanted.compressed_text);
        assert(Seq::<StoredInternationalText>::empty() + wanted.international_text
            =~= wanted.international_text);
    }
    info
}

/// Reads what a PNG stream says of its image before the image data: the
/// header and the metadata, as an image model whose raster is left empty.
/// The image data is checked as part of the container, but not decoded.
///
/// Fails with `MalformedStream` or `CorruptData` where the container is
/// unsound, and with `CorruptData` where the decoder refuses the stream,
/// disagrees with the header chunk, or cannot restore a compressed text.
pub fn read_metadata(stream: &[u8]) -> (r: Result<ImageModel, PngError>)
    ensures
        model_result(r) == spec_read_metadata(stream@),
        r matches Ok(model) ==> model@.header.well_formed() && model@.pixels.len() == 0,
{
    let chunks = match read_chunks(stream) {
        Ok(chunks) => chunks,
        Err(e) => {
            return Err(e);
        },
    };
    proof {
        lemma_header_chunk_comes_first(stream@);
    }
    let header = parse_header(chunks[0].data.as_slice()).unwrap();
    let info = match read_info(stream) {
        Ok(info) => info,
        Err(_) => {
            return Err(PngError::CorruptData);
        },
    };
    if info_header(&info) != header_to_raw(&header) {
        return Err(PngError::CorruptData);
    }
    model_of(header, &info, Vec::new())
}

/// Decodes a PNG stream into an image model.
///
/// Fails as `read_metadata` does; with `CorruptData` where the stream is too
/// short for the raster that its header announces, which is tested before
/// any room is taken for the raster, or where the decoder cannot restore a
/// raster of that size; and with `MalformedStream` where the fields of the
/// image contradict each other. A model that comes back is well formed.
pub fn decode(stream: &[u8]) -> (r: Result<ImageModel, PngError>)
    ensures
        model_result(r) == spec_decode(stream@),
        r matches Ok(model) ==> model@.well_formed(),
{
    let mut model = match read_metadata(stream) {
        Ok(model) => model,
        Err(e) => {
            return Err(e);
        },
    };
    let raster: u128 = model.header.raster_len();
    if raster > MAX_INFLATION as u128 * stream.len() as u128 {
        return Err(PngError::CorruptData);
    }
    let pixels = match read_frame(stream) {
        Ok(pixels) => pixels,
        Err(_) => {
            return Err(PngError::CorruptData);
        },
    };
    if pixels.len() as u128 != raster {
        return Err(PngError::CorruptData);
    }
    model.pixels = pixels;
    if model.is_well_formed() {
        Ok(model)
    } else {
        Err(PngError::MalformedStream { offset: 8, fault: StreamFault::InconsistentImage })
    }
}

/// Encodes an image model into a PNG stream, rows in order, each row
/// filtered as `filter` says.
///
/// Fails with `InvalidModel` where the model is not well formed, where the
/// encoder refuses it, or where the stream would not decode to the same image.
pub fn encode_with(model: &ImageModel, filter: Filter) -> (r: Result<Vec<u8>, PngError>)
    ensures
        stream_result(r) == spec_encode_with(model@, filter),
        r matches Ok(stream) ==> spec_decode(stream@) == Ok::<ImageModelView, PngError>(
            model@.in_row_order(),
        ),
{
    if !model.is_well_formed() {
        return Err(PngError::InvalidModel);
    }
    let info = info_of(model);
    let stream = match encode_stream(info, model.pixels.as_slice(), filter) {
        Ok(stream) => stream,
        Err(_) => {
            return Err(PngError::InvalidModel);
        },
    };
    let expected = Header { interlaced: false, ..model.header };
    match decode(stream.as_slice()) {
        Ok(back) => {
            if back.header == expected && model.same_content_as(&back) {
                Ok(stream)
            } else {
                Err(PngError::InvalidModel)
            }
        },
        Err(_) => Err(PngError::InvalidModel),
    }
}

/// Encodes an image model into a PNG stream, rows in order, and leaves the
/// choice of a filter for each row to the encoder. Fails as `encode_with` does.
pub fn encode(model: &ImageModel) -> (r: Result<Vec<u8>, PngError>)
    ensures
        stream_result(r) == spec_encode(model@),
        r matches Ok(stream) ==> spec_decode(stream@) == Ok::<ImageModelView, PngError>(
            model@.in_row_order(),
        ),
{
    encode_with(model, Filter::Adaptive)
}

/// Round trip: a stream that the encoding hands out decodes to the image it
/// was made from, rows in order, whatever the filter; to the very same model
/// where the model was not marked as interlaced.
pub proof fn lemma_encode_then_decode(model: ImageModelView, filter: Filter)
    requires
        spec_encode_with(model, filter) is Ok,
    ensures
        model.well_formed(),
        spec_decode(spec_encode_with(model, filter)->Ok_0) == Ok::<ImageModelView, PngError>(
            model.in_row_order(),
        ),
        !model.header.interlaced ==> spec_decode(spec_encode_with(model, filter)->Ok_0) == Ok::<
            ImageModelView,
            PngError,
        >(model),
{
}

/// Encoding does not depend on the interlace flag: an image and the same
/// image with its rows in order give the same stream.
pub proof fn lemma_encode_ignores_interlacing(model: ImageModelView, filter: Filter)
    ensures
        spec_encode_with(model.in_row_order(), filter) == spec_encode_with(model, filter),
{
}

/// Checksums are enforced: where a stream decodes, changing any one byte in
/// the payload of any of its chunks makes decoding fail with `CorruptData`.
pub proof fn lemma_changed_payload_fails_decode(stream: Seq<u8>, k: int, at: int, byte: u8)
    requires
        spec_decode(stream) is Ok,
        0 <= k < spec_read_chunks(stream)->Ok_0.len(),
        8 + payload_offset(spec_read_chunks(stream)->Ok_0, k) <= at < 8 + payload_offset(
            spec_read_chunks(stream)->Ok_0,
            k,
        ) + spec_read_chunks(stream)->Ok_0[k].data.len(),
        byte != stream[at],
    ensures
        spec_decode(stream.update(at, byte)) == Err::<ImageModelView, PngError>(
            PngError::CorruptData,
        ),
{
    lemma_changed_payload_is_corrupt(stream, k, at, byte);
}

} // verus!
