use png_icc::codec::decode;
use png_icc::codec::encode;
use png_icc::codec::encode_with;
use png_icc::codec::read_metadata;
use png_icc::chunk::parse_header;
use png_icc::codec::widen;
use png_icc::error::PngError;
use png_icc::error::StreamFault;
use png_icc::extract_icc_profile;
use png_icc::apply_icc_profile;
use png_icc::model::bytes_equal;
use png_icc::model::optional_bytes_equal;
use png_icc::model::AnimationControl;
use png_icc::model::BitDepth;
use png_icc::model::BlendOp;
use png_icc::model::Chromaticities;
use png_icc::model::ColorType;
use png_icc::model::DisposeOp;
use png_icc::model::Filter;
use png_icc::model::FrameControl;
use png_icc::model::Header;
use png_icc::model::ImageModel;
use png_icc::model::InternationalText;
use png_icc::model::PixelDimensions;
use png_icc::model::TextEntry;
use png_icc::model::Unit;
use png_icc::pattern::checkerboard as board;

const INTERLACED_GRAY: [u8; 88] = [
    137, 80, 78, 71, 13, 10, 26, 10, 0, 0, 0, 13, 73, 72, 68, 82,
    0, 0, 0, 4, 0, 0, 0, 4, 8, 0, 0, 0, 1, 251, 157, 241,
    52, 0, 0, 0, 31, 73, 68, 65, 84, 120, 156, 99, 96, 96, 96, 98,
    80, 80, 98, 96, 100, 102, 80, 84, 102, 16, 16, 20, 18, 102, 48, 48,
    52, 50, 6, 0, 11, 249, 1, 153, 196, 249, 30, 62, 0, 0, 0, 0,
    73, 69, 78, 68, 174, 66, 96, 130,
];

const SRGB_TAGGED: [u8; 125] = [
    137, 80, 78, 71, 13, 10, 26, 10, 0, 0, 0, 13, 73, 72, 68, 82,
    0, 0, 0, 2, 0, 0, 0, 2, 8, 2, 0, 0, 0, 253, 212, 154,
    115, 0, 0, 0, 1, 115, 82, 71, 66, 0, 174, 206, 28, 233, 0, 0,
    0, 4, 103, 65, 77, 65, 0, 0, 177, 143, 11, 252, 97, 5, 0, 0,
    0, 5, 112, 114, 86, 116, 104, 101, 108, 108, 111, 216, 91, 131, 87, 0,
    0, 0, 22, 73, 68, 65, 84, 120, 156, 99, 96, 96, 100, 98, 100, 98,
    102, 224, 226, 230, 225, 230, 225, 5, 0, 1, 77, 0, 79, 41, 242, 224,
    138, 0, 0, 0, 0, 73, 69, 78, 68, 174, 66, 96, 130,
];

const WITH_METADATA: [u8; 314] = [
    137, 80, 78, 71, 13, 10, 26, 10, 0, 0, 0, 13, 73, 72, 68, 82,
    0, 0, 0, 2, 0, 0, 0, 1, 8, 0, 0, 0, 0, 209, 73, 32,
    86, 0, 0, 0, 4, 103, 65, 77, 65, 0, 0, 195, 80, 0, 153, 181,
    52, 0, 0, 0, 32, 99, 72, 82, 77, 0, 0, 122, 38, 0, 0, 128,
    132, 0, 0, 250, 0, 0, 0, 128, 232, 0, 0, 117, 48, 0, 0, 234,
    96, 0, 0, 58, 152, 0, 0, 23, 112, 156, 186, 81, 60, 0, 0, 0,
    9, 112, 72, 89, 115, 0, 0, 11, 19, 0, 0, 11, 19, 1, 0, 154,
    156, 24, 0, 0, 0, 2, 116, 82, 78, 83, 0, 5, 6, 249, 57, 183,
    0, 0, 0, 16, 116, 69, 88, 116, 83, 111, 102, 116, 119, 97, 114, 101,
    0, 98, 121, 32, 104, 97, 110, 100, 66, 237, 10, 76, 0, 0, 0, 32,
    122, 84, 88, 116, 67, 111, 109, 109, 101, 110, 116, 0, 0, 120, 156, 75,
    206, 207, 45, 40, 74, 45, 46, 78, 77, 81, 200, 203, 47, 73, 5, 0,
    49, 63, 6, 12, 244, 18, 40, 13, 0, 0, 0, 22, 105, 84, 88, 116,
    84, 105, 116, 108, 101, 0, 0, 0, 101, 110, 0, 84, 105, 116, 101, 108,
    0, 103, 114, 195, 188, 110, 215, 178, 254, 245, 0, 0, 0, 33, 105, 84,
    88, 116, 65, 117, 116, 104, 111, 114, 0, 1, 0, 100, 101, 0, 65, 117,
    116, 111, 114, 0, 120, 156, 243, 61, 188, 39, 39, 39, 181, 8, 0, 14,
    144, 3, 124, 218, 246, 175, 135, 0, 0, 0, 11, 73, 68, 65, 84, 120,
    156, 99, 96, 61, 1, 0, 0, 213, 0, 206, 179, 44, 247, 18, 0, 0,
    0, 0, 73, 69, 78, 68, 174, 66, 96, 130,
];

const ONE_PIXEL: [u8; 67] = [
    137, 80, 78, 71, 13, 10, 26, 10, 0, 0, 0, 13, 73, 72, 68, 82,
    0, 0, 0, 1, 0, 0, 0, 1, 8, 0, 0, 0, 0, 58, 126, 155,
    85, 0, 0, 0, 10, 73, 68, 65, 84, 120, 156, 99, 96, 7, 0, 0,
    9, 0, 8, 32, 35, 195, 140, 0, 0, 0, 0, 73, 69, 78, 68, 174,
    66, 96, 130,
];

const HUGE: [u8; 67] = [
    137, 80, 78, 71, 13, 10, 26, 10, 0, 0, 0, 13, 73, 72, 68, 82,
    127, 255, 255, 255, 127, 255, 255, 255, 16, 6, 0, 0, 0, 68, 89, 215,
    37, 0, 0, 0, 10, 73, 68, 65, 84, 120, 156, 99, 96, 7, 0, 0,
    9, 0, 8, 32, 35, 195, 140, 0, 0, 0, 0, 73, 69, 78, 68, 174,
    66, 96, 130,
];

const BAD_DEFLATE: [u8; 65] = [
    137, 80, 78, 71, 13, 10, 26, 10, 0, 0, 0, 13, 73, 72, 68, 82,
    0, 0, 0, 1, 0, 0, 0, 1, 8, 0, 0, 0, 0, 58, 126, 155,
    85, 0, 0, 0, 8, 73, 68, 65, 84, 1, 2, 3, 4, 5, 6, 7,
    8, 180, 160, 10, 43, 0, 0, 0, 0, 73, 69, 78, 68, 174, 66, 96,
    130,
];

const BAD_TEXT: [u8; 92] = [
    137, 80, 78, 71, 13, 10, 26, 10, 0, 0, 0, 13, 73, 72, 68, 82,
    0, 0, 0, 1, 0, 0, 0, 1, 8, 0, 0, 0, 0, 58, 126, 155,
    85, 0, 0, 0, 13, 122, 84, 88, 116, 67, 111, 109, 109, 101, 110, 116,
    0, 0, 1, 2, 3, 4, 136, 222, 140, 247, 0, 0, 0, 10, 73, 68,
    65, 84, 120, 156, 99, 96, 7, 0, 0, 9, 0, 8, 32, 35, 195, 140,
    0, 0, 0, 0, 73, 69, 78, 68, 174, 66, 96, 130,
];

const ANIMATED: [u8; 125] = [
    137, 80, 78, 71, 13, 10, 26, 10, 0, 0, 0, 13, 73, 72, 68, 82,
    0, 0, 0, 1, 0, 0, 0, 1, 8, 0, 0, 0, 0, 58, 126, 155,
    85, 0, 0, 0, 8, 97, 99, 84, 76, 0, 0, 0, 1, 0, 0, 0,
    3, 45, 36, 184, 26, 0, 0, 0, 26, 102, 99, 84, 76, 0, 0, 0,
    0, 0, 0, 0, 1, 0, 0, 0, 1, 0, 0, 0, 0, 0, 0, 0,
    0, 0, 1, 0, 10, 1, 1, 52, 99, 49, 7, 0, 0, 0, 10, 73,
    68, 65, 84, 120, 156, 99, 224, 4, 0, 0, 11, 0, 10, 195, 43, 238,
    146, 0, 0, 0, 0, 73, 69, 78, 68, 174, 66, 96, 130,
];

const TWO_FRAMES: [u8; 193] = [
    137, 80, 78, 71, 13, 10, 26, 10, 0, 0, 0, 13, 73, 72, 68, 82,
    0, 0, 0, 2, 0, 0, 0, 2, 8, 0, 0, 0, 0, 87, 221, 82,
    248, 0, 0, 0, 8, 97, 99, 84, 76, 0, 0, 0, 2, 0, 0, 0,
    0, 243, 141, 147, 112, 0, 0, 0, 26, 102, 99, 84, 76, 0, 0, 0,
    0, 0, 0, 0, 2, 0, 0, 0, 2, 0, 0, 0, 0, 0, 0, 0,
    0, 0, 1, 0, 10, 0, 0, 232, 84, 220, 0, 0, 0, 0, 14, 73,
    68, 65, 84, 120, 156, 99, 96, 100, 98, 96, 102, 1, 0, 0, 29, 0,
    11, 13, 181, 82, 6, 0, 0, 0, 26, 102, 99, 84, 76, 0, 0, 0,
    1, 0, 0, 0, 1, 0, 0, 0, 1, 0, 0, 0, 1, 0, 0, 0,
    1, 0, 1, 0, 10, 0, 0, 166, 245, 14, 112, 0, 0, 0, 14, 102,
    100, 65, 84, 0, 0, 0, 2, 120, 156, 99, 224, 4, 0, 0, 11, 0,
    10, 177, 52, 165, 66, 0, 0, 0, 0, 73, 69, 78, 68, 174, 66, 96,
    130,
];

const NO_PALETTE: [u8; 68] = [
    137, 80, 78, 71, 13, 10, 26, 10, 0, 0, 0, 13, 73, 72, 68, 82,
    0, 0, 0, 2, 0, 0, 0, 1, 8, 3, 0, 0, 0, 195, 252, 143,
    184, 0, 0, 0, 11, 73, 68, 65, 84, 120, 156, 99, 96, 96, 4, 0,
    0, 4, 0, 2, 191, 122, 63, 74, 0, 0, 0, 0, 73, 69, 78, 68,
    174, 66, 96, 130,
];

const STILL_FIRST: [u8; 151] = [
    137, 80, 78, 71, 13, 10, 26, 10, 0, 0, 0, 13, 73, 72, 68, 82,
    0, 0, 0, 1, 0, 0, 0, 1, 8, 0, 0, 0, 0, 58, 126, 155,
    85, 0, 0, 0, 8, 97, 99, 84, 76, 0, 0, 0, 1, 0, 0, 0,
    0, 180, 45, 233, 160, 0, 0, 0, 10, 73, 68, 65, 84, 120, 156, 99,
    224, 4, 0, 0, 11, 0, 10, 195, 43, 238, 146, 0, 0, 0, 26, 102,
    99, 84, 76, 0, 0, 0, 0, 0, 0, 0, 1, 0, 0, 0, 1, 0,
    0, 0, 0, 0, 0, 0, 0, 0, 1, 0, 10, 0, 0, 90, 127, 48,
    208, 0, 0, 0, 14, 102, 100, 65, 84, 0, 0, 0, 1, 120, 156, 99,
    224, 4, 0, 0, 11, 0, 10, 40, 214, 195, 67, 0, 0, 0, 0, 73,
    69, 78, 68, 174, 66, 96, 130,
];

const WITH_PROFILE: [u8; 128] = [
    137, 80, 78, 71, 13, 10, 26, 10, 0, 0, 0, 13, 73, 72, 68, 82,
    0, 0, 0, 1, 0, 0, 0, 1, 8, 0, 0, 0, 0, 58, 126, 155,
    85, 0, 0, 0, 10, 101, 88, 73, 102, 77, 77, 0, 42, 0, 0, 0,
    8, 0, 0, 190, 160, 242, 175, 0, 0, 0, 27, 105, 67, 67, 80, 110,
    97, 109, 101, 0, 0, 120, 156, 43, 40, 202, 79, 203, 204, 73, 85, 72,
    170, 44, 73, 45, 6, 0, 36, 209, 5, 57, 215, 203, 148, 63, 0, 0,
    0, 10, 73, 68, 65, 84, 120, 156, 99, 224, 4, 0, 0, 11, 0, 10,
    195, 43, 238, 146, 0, 0, 0, 0, 73, 69, 78, 68, 174, 66, 96, 130,
];

const BROKEN_PROFILE: [u8; 90] = [
    137, 80, 78, 71, 13, 10, 26, 10, 0, 0, 0, 13, 73, 72, 68, 82,
    0, 0, 0, 1, 0, 0, 0, 1, 8, 0, 0, 0, 0, 58, 126, 155,
    85, 0, 0, 0, 11, 105, 67, 67, 80, 110, 97, 109, 101, 0, 0, 1,
    2, 3, 4, 5, 106, 242, 80, 157, 0, 0, 0, 10, 73, 68, 65, 84,
    120, 156, 99, 224, 4, 0, 0, 11, 0, 10, 195, 43, 238, 146, 0, 0,
    0, 0, 73, 69, 78, 68, 174, 66, 96, 130,
];

const GRAY_WITH_PALETTE: [u8; 82] = [
    137, 80, 78, 71, 13, 10, 26, 10, 0, 0, 0, 13, 73, 72, 68, 82,
    0, 0, 0, 1, 0, 0, 0, 1, 8, 0, 0, 0, 0, 58, 126, 155,
    85, 0, 0, 0, 3, 80, 76, 84, 69, 1, 2, 3, 13, 135, 100, 213,
    0, 0, 0, 10, 73, 68, 65, 84, 120, 156, 99, 224, 4, 0, 0, 11,
    0, 10, 195, 43, 238, 146, 0, 0, 0, 0, 73, 69, 78, 68, 174, 66,
    96, 130,
];

const RGB_WITH_PALETTE: [u8; 84] = [
    137, 80, 78, 71, 13, 10, 26, 10, 0, 0, 0, 13, 73, 72, 68, 82,
    0, 0, 0, 1, 0, 0, 0, 1, 8, 2, 0, 0, 0, 144, 119, 83,
    222, 0, 0, 0, 3, 80, 76, 84, 69, 1, 2, 3, 13, 135, 100, 213,
    0, 0, 0, 12, 73, 68, 65, 84, 120, 156, 99, 224, 228, 96, 7, 0,
    0, 54, 0, 25, 110, 181, 42, 42, 0, 0, 0, 0, 73, 69, 78, 68,
    174, 66, 96, 130,
];

const OVERSTATED: [u8; 67] = [
    137, 80, 78, 71, 13, 10, 26, 10, 0, 0, 0, 13, 73, 72, 68, 82,
    0, 0, 234, 96, 0, 0, 234, 96, 8, 6, 0, 0, 0, 128, 210, 117,
    66, 0, 0, 0, 10, 73, 68, 65, 84, 120, 156, 99, 96, 7, 0, 0,
    9, 0, 8, 32, 35, 195, 140, 0, 0, 0, 0, 73, 69, 78, 68, 174,
    66, 96, 130,
];

const BAD_FILTER: [u8; 67] = [
    137, 80, 78, 71, 13, 10, 26, 10, 0, 0, 0, 13, 73, 72, 68, 82,
    0, 0, 0, 1, 0, 0, 0, 1, 8, 0, 0, 0, 0, 58, 126, 155,
    85, 0, 0, 0, 10, 73, 68, 65, 84, 120, 156, 99, 101, 7, 0, 0,
    19, 0, 13, 19, 192, 62, 2, 0, 0, 0, 0, 73, 69, 78, 68, 174,
    66, 96, 130,
];

const SHORT_DATA: [u8; 68] = [
    137, 80, 78, 71, 13, 10, 26, 10, 0, 0, 0, 13, 73, 72, 68, 82,
    0, 0, 0, 2, 0, 0, 0, 2, 8, 0, 0, 0, 0, 87, 221, 82,
    248, 0, 0, 0, 11, 73, 68, 65, 84, 120, 156, 99, 96, 231, 0, 0,
    0, 25, 0, 16, 142, 29, 232, 75, 0, 0, 0, 0, 73, 69, 78, 68,
    174, 66, 96, 130,
];

fn header(width: u32, height: u32, bit_depth: BitDepth, color_type: ColorType) -> Header {
    Header { width, height, bit_depth, color_type, interlaced: false }
}

fn inconsistent() -> PngError {
    PngError::MalformedStream { offset: 8, fault: StreamFault::InconsistentImage }
}

fn gray(width: u32, height: u32) -> ImageModel {
    let mut pixels = Vec::new();
    for i in 0..width * height {
        pixels.push((i * 3 % 256) as u8);
    }
    ImageModel::new(header(width, height, BitDepth::Eight, ColorType::Grayscale), pixels)
}

fn checkerboard(size: u32, square: u32) -> ImageModel {
    let mut pixels = Vec::new();
    for y in 0..size {
        for x in 0..size {
            let white = ((x / square) % 2 + (y / square) % 2) % 2 == 0;
            let value = if white { 255 } else { 0 };
            pixels.push(value);
            pixels.push(value);
            pixels.push(value);
        }
    }
    ImageModel::new(header(size, size, BitDepth::Eight, ColorType::Rgb), pixels)
}

fn entry(keyword: &str, text: &str) -> TextEntry {
    TextEntry { keyword: keyword.to_string(), text: text.to_string() }
}

#[test]
fn checkerboard_survives_encode_and_decode() {
    let model = board(512, 512, 64).unwrap();
    let stream = encode(&model).unwrap();
    let back = decode(&stream).unwrap();
    assert_eq!(back.header.width, 512);
    assert_eq!(back.header.height, 512);
    assert_eq!(back.header.color_type, ColorType::Rgb);
    assert_eq!(back.header.bit_depth, BitDepth::Eight);
    assert_eq!(&back.pixels[0..3], &[255, 255, 255]);
    assert_eq!(&back.pixels[64 * 3..64 * 3 + 3], &[0, 0, 0]);
    assert_eq!(back.icc_profile, None);
    assert!(back.same_as(&model));
}

#[test]
fn one_pixel_decodes() {
    let model = decode(&ONE_PIXEL).unwrap();
    assert_eq!(model.header, header(1, 1, BitDepth::Eight, ColorType::Grayscale));
    assert_eq!(model.pixels, vec![7]);
    assert!(model.same_as(&ImageModel::new(model.header, vec![7])));
}

#[test]
fn every_metadata_field_survives() {
    let mut model = checkerboard(4, 2);
    model.transparency = Some(vec![10, 20, 30]);
    model.icc_profile = Some(vec![7; 40]);
    model.gamma = Some(45455);
    model.chromaticities = Some(Chromaticities {
        white_x: 31270,
        white_y: 32900,
        red_x: 64000,
        red_y: 33000,
        green_x: 30000,
        green_y: 60000,
        blue_x: 15000,
        blue_y: 6000,
    });
    model.pixel_dims = Some(PixelDimensions { xppu: 3780, yppu: 3779, unit: Unit::Meter });
    model.text = vec![entry("Title", "A board"), entry("Author", "Nobody")];
    model.compressed_text = vec![entry("Comment", "black and white, black and white")];
    model.international_text = vec![
        InternationalText {
            keyword: "Description".to_string(),
            compressed: false,
            language_tag: "de".to_string(),
            translated_keyword: "Beschreibung".to_string(),
            text: "Schachbrett, gr\u{fc}n".to_string(),
        },
        InternationalText {
            keyword: "Source".to_string(),
            compressed: true,
            language_tag: "".to_string(),
            translated_keyword: "".to_string(),
            text: "\u{4e16}\u{754c}".to_string(),
        },
    ];
    let stream = encode(&model).unwrap();
    let back = decode(&stream).unwrap();
    assert!(back.same_as(&model));
    assert_eq!(back.palette, None);
    assert_eq!(back.transparency, Some(vec![10, 20, 30]));
    assert_eq!(back.gamma, Some(45455));
    assert_eq!(back.chromaticities, model.chromaticities);
    assert_eq!(back.pixel_dims, model.pixel_dims);
    assert_eq!(back.text, model.text);
    assert_eq!(back.compressed_text, model.compressed_text);
    assert_eq!(back.international_text, model.international_text);
}

#[test]
fn metadata_is_read_from_a_stream() {
    let model = decode(&WITH_METADATA).unwrap();
    assert_eq!(model.header, header(2, 1, BitDepth::Eight, ColorType::Grayscale));
    assert_eq!(model.pixels, vec![5, 200]);
    assert_eq!(model.gamma, Some(50000));
    assert_eq!(model.chromaticities.unwrap().white_x, 31270);
    assert_eq!(model.chromaticities.unwrap().blue_y, 6000);
    assert_eq!(model.pixel_dims, Some(PixelDimensions { xppu: 2835, yppu: 2835, unit: Unit::Meter }));
    assert_eq!(model.transparency, Some(vec![5]));
    assert_eq!(model.text, vec![entry("Software", "by hand")]);
    assert_eq!(model.compressed_text, vec![entry("Comment", "compressed note")]);
    assert_eq!(model.international_text.len(), 2);
    assert_eq!(model.international_text[0].keyword, "Title");
    assert!(!model.international_text[0].compressed);
    assert_eq!(model.international_text[0].language_tag, "en");
    assert_eq!(model.international_text[0].translated_keyword, "Titel");
    assert_eq!(model.international_text[0].text, "gr\u{fc}n");
    assert!(model.international_text[1].compressed);
    assert_eq!(model.international_text[1].text, "M\u{fc}ller");
    assert!(model.is_well_formed());
    let again = decode(&encode(&model).unwrap()).unwrap();
    assert!(again.same_as(&model));
}

#[test]
fn interlaced_stream_decodes_to_rows_in_order() {
    let model = decode(&INTERLACED_GRAY).unwrap();
    assert!(model.header.interlaced);
    let mut expected = Vec::new();
    for y in 0..4u8 {
        for x in 0..4u8 {
            expected.push(16 * y + x);
        }
    }
    assert_eq!(model.pixels, expected);
    let stream = encode(&model).unwrap();
    let back = decode(&stream).unwrap();
    assert!(!back.header.interlaced);
    assert_eq!(back.pixels, expected);
    assert!(!back.same_as(&model));
}

#[test]
fn unknown_chunk_and_srgb_mark_are_passed_over() {
    let model = decode(&SRGB_TAGGED).unwrap();
    assert_eq!(model.header, header(2, 2, BitDepth::Eight, ColorType::Rgb));
    assert_eq!(model.pixels, vec![0, 1, 2, 1, 2, 3, 10, 11, 12, 11, 12, 13]);
    assert_eq!(model.gamma, Some(45455));
    assert_eq!(model.icc_profile, None);
}

#[test]
fn animation_records_survive() {
    let model = decode(&ANIMATED).unwrap();
    assert_eq!(model.animation_control, Some(AnimationControl { num_frames: 1, num_plays: 3 }));
    assert_eq!(
        model.frame_control,
        Some(FrameControl {
            sequence_number: 0,
            width: 1,
            height: 1,
            x_offset: 0,
            y_offset: 0,
            delay_num: 1,
            delay_den: 10,
            dispose_op: DisposeOp::Background,
            blend_op: BlendOp::Over,
        })
    );
    assert_eq!(model.pixels, vec![9]);
    let back = decode(&encode(&model).unwrap()).unwrap();
    assert!(back.same_as(&model));
}

#[test]
fn indexed_image_with_alpha_survives() {
    let mut model =
        ImageModel::new(header(5, 2, BitDepth::Two, ColorType::Indexed), vec![0x1b, 0x40, 0xe4, 0x80]);
    model.palette = Some(vec![0, 0, 0, 255, 0, 0, 0, 255, 0, 0, 0, 255]);
    model.transparency = Some(vec![0, 128]);
    let back = decode(&encode(&model).unwrap()).unwrap();
    assert!(back.same_as(&model));
    assert_eq!(back.transparency, Some(vec![0, 128]));
}

#[test]
fn transparent_gray_survives_at_both_widths() {
    let mut narrow = gray(3, 3);
    narrow.transparency = Some(vec![6]);
    let back = decode(&encode(&narrow).unwrap()).unwrap();
    assert_eq!(back.transparency, Some(vec![6]));
    let mut wide = ImageModel::new(
        header(2, 1, BitDepth::Sixteen, ColorType::Grayscale),
        vec![1, 2, 3, 4],
    );
    wide.transparency = Some(vec![3, 4]);
    let back = decode(&encode(&wide).unwrap()).unwrap();
    assert_eq!(back.transparency, Some(vec![3, 4]));
    assert_eq!(back.pixels, vec![1, 2, 3, 4]);
}

#[test]
fn widen_puts_a_zero_before_each_sample() {
    assert_eq!(widen(&[1, 2, 3]), vec![0, 1, 0, 2, 0, 3]);
    assert_eq!(widen(&[]), Vec::<u8>::new());
}

#[test]
fn row_bytes_round_up_to_whole_bytes() {
    let bits = header(9, 3, BitDepth::One, ColorType::Grayscale);
    assert_eq!(bits.row_bytes_for(9), 2);
    assert_eq!(bits.row_bytes_for(8), 1);
    assert_eq!(bits.raster_len(), 6);
    assert_eq!(bits.bytes_per_pixel(), 1);
    let deep = header(3, 2, BitDepth::Sixteen, ColorType::Rgba);
    assert_eq!(deep.bytes_per_pixel(), 8);
    assert_eq!(header(1, 1, BitDepth::Eight, ColorType::Rgb).bytes_per_pixel(), 3);
    assert_eq!(deep.row_bytes_for(3), 24);
    assert_eq!(deep.raster_len(), 48);
    let largest = header(0x7fff_ffff, 0x7fff_ffff, BitDepth::Sixteen, ColorType::Rgba);
    assert_eq!(largest.raster_len(), 0x7fff_ffffu128 * 8 * 0x7fff_ffffu128);
}

#[test]
fn header_rules() {
    assert!(header(1, 1, BitDepth::One, ColorType::Grayscale).is_well_formed());
    assert!(header(0x7fff_ffff, 1, BitDepth::Eight, ColorType::Rgb).is_well_formed());
    assert!(!header(0x8000_0000, 1, BitDepth::Eight, ColorType::Rgb).is_well_formed());
    assert!(!header(0, 1, BitDepth::Eight, ColorType::Rgb).is_well_formed());
    assert!(!header(1, 0, BitDepth::Eight, ColorType::Rgb).is_well_formed());
    assert!(!header(1, 1, BitDepth::Four, ColorType::Rgb).is_well_formed());
    assert!(!header(1, 1, BitDepth::Two, ColorType::GrayscaleAlpha).is_well_formed());
    assert!(!header(1, 1, BitDepth::One, ColorType::Rgba).is_well_formed());
    assert!(!header(1, 1, BitDepth::Sixteen, ColorType::Indexed).is_well_formed());
    assert!(header(1, 1, BitDepth::Eight, ColorType::Indexed).is_well_formed());
    assert!(header(1, 1, BitDepth::Sixteen, ColorType::Rgba).is_well_formed());
}

#[test]
fn codes_go_both_ways() {
    for code in 0..=255u8 {
        match ColorType::from_code(code) {
            Some(color) => assert_eq!(color.code(), code),
            None => assert!(![0, 2, 3, 4, 6].contains(&code)),
        }
        match BitDepth::from_bits(code) {
            Some(depth) => assert_eq!(depth.bits(), code),
            None => assert!(![1, 2, 4, 8, 16].contains(&code)),
        }
        match Unit::from_code(code) {
            Some(unit) => assert_eq!(unit.code(), code),
            None => assert!(code > 1),
        }
        match DisposeOp::from_code(code) {
            Some(op) => assert_eq!(op.code(), code),
            None => assert!(code > 2),
        }
        match BlendOp::from_code(code) {
            Some(op) => assert_eq!(op.code(), code),
            None => assert!(code > 1),
        }
    }
    assert_eq!(ColorType::Rgb.samples(), 3);
    assert_eq!(ColorType::Rgba.samples(), 4);
    assert_eq!(ColorType::GrayscaleAlpha.samples(), 2);
    assert_eq!(ColorType::Indexed.samples(), 1);
    assert_eq!(ColorType::Grayscale.samples(), 1);
}

#[test]
fn palette_on_gray_is_invalid() {
    let mut model = gray(2, 2);
    model.palette = Some(vec![1, 2, 3]);
    assert!(!model.is_well_formed());
    assert_eq!(encode(&model), Err(PngError::InvalidModel));
}

#[test]
fn palette_on_colour_is_invalid() {
    let mut model = checkerboard(2, 1);
    model.palette = Some(vec![1, 2, 3]);
    assert!(!model.is_well_formed());
    assert_eq!(encode(&model), Err(PngError::InvalidModel));
}

#[test]
fn indexed_without_palette_is_invalid() {
    let model = ImageModel::new(header(2, 2, BitDepth::Eight, ColorType::Indexed), vec![0; 4]);
    assert_eq!(encode(&model), Err(PngError::InvalidModel));
}

#[test]
fn palette_must_hold_whole_entries() {
    let mut model = ImageModel::new(header(1, 1, BitDepth::Eight, ColorType::Indexed), vec![0]);
    model.palette = Some(vec![1, 2, 3, 4]);
    assert_eq!(encode(&model), Err(PngError::InvalidModel));
    model.palette = Some(Vec::new());
    assert_eq!(encode(&model), Err(PngError::InvalidModel));
    model.palette = Some(vec![0; 769]);
    assert_eq!(encode(&model), Err(PngError::InvalidModel));
    model.palette = Some(vec![0; 768]);
    assert!(encode(&model).is_ok());
}

#[test]
fn raster_of_the_wrong_size_is_invalid() {
    let mut model = gray(3, 2);
    model.pixels.pop();
    assert_eq!(encode(&model), Err(PngError::InvalidModel));
    model.pixels.push(0);
    model.pixels.push(0);
    assert_eq!(encode(&model), Err(PngError::InvalidModel));
}

#[test]
fn bad_header_is_invalid() {
    let model = ImageModel::new(header(0, 1, BitDepth::Eight, ColorType::Grayscale), Vec::new());
    assert_eq!(encode(&model), Err(PngError::InvalidModel));
    let model = ImageModel::new(header(1, 1, BitDepth::Four, ColorType::Rgb), vec![0, 0]);
    assert_eq!(encode(&model), Err(PngError::InvalidModel));
}

#[test]
fn misshapen_transparency_is_invalid() {
    let mut model = gray(1, 1);
    model.transparency = Some(vec![0, 1]);
    assert_eq!(encode(&model), Err(PngError::InvalidModel));
    let mut model = checkerboard(2, 1);
    model.transparency = Some(vec![1, 2]);
    assert_eq!(encode(&model), Err(PngError::InvalidModel));
    let mut model =
        ImageModel::new(header(1, 1, BitDepth::Eight, ColorType::Rgba), vec![1, 2, 3, 4]);
    model.transparency = Some(vec![1, 2, 3]);
    assert_eq!(encode(&model), Err(PngError::InvalidModel));
    let mut model = ImageModel::new(header(1, 1, BitDepth::Eight, ColorType::Indexed), vec![0]);
    model.palette = Some(vec![1, 2, 3]);
    model.transparency = Some(vec![1, 2]);
    assert_eq!(encode(&model), Err(PngError::InvalidModel));
}

#[test]
fn zero_gamma_is_invalid() {
    let mut model = gray(1, 1);
    model.gamma = Some(0);
    assert_eq!(encode(&model), Err(PngError::InvalidModel));
    model.gamma = Some(1);
    assert!(encode(&model).is_ok());
}

#[test]
fn half_an_animation_is_invalid() {
    let mut model = gray(1, 1);
    model.animation_control = Some(AnimationControl { num_frames: 1, num_plays: 0 });
    assert_eq!(encode(&model), Err(PngError::InvalidModel));
    let frame = FrameControl {
        sequence_number: 0,
        width: 1,
        height: 1,
        x_offset: 0,
        y_offset: 0,
        delay_num: 0,
        delay_den: 0,
        dispose_op: DisposeOp::Keep,
        blend_op: BlendOp::Source,
    };
    model.frame_control = Some(frame);
    assert!(encode(&model).is_ok());
    model.animation_control = Some(AnimationControl { num_frames: 0, num_plays: 0 });
    assert_eq!(encode(&model), Err(PngError::InvalidModel));
    model.animation_control = Some(AnimationControl { num_frames: 1, num_plays: 0 });
    model.frame_control = Some(FrameControl { width: 2, ..frame });
    assert_eq!(encode(&model), Err(PngError::InvalidModel));
    model.frame_control = Some(FrameControl { x_offset: 1, ..frame });
    assert_eq!(encode(&model), Err(PngError::InvalidModel));
}

#[test]
fn text_that_cannot_be_written_is_invalid() {
    let mut model = gray(1, 1);
    model.text = vec![entry("", "no keyword")];
    assert_eq!(encode(&model), Err(PngError::InvalidModel));
    model.text = vec![entry("Title", "\u{4e16}")];
    assert_eq!(encode(&model), Err(PngError::InvalidModel));
    model.text = vec![entry(&"k".repeat(80), "long keyword")];
    assert_eq!(encode(&model), Err(PngError::InvalidModel));
    model.text = vec![entry(&"k".repeat(79), "long keyword")];
    assert!(encode(&model).is_ok());
}

#[test]
fn overstated_size_is_refused_before_the_raster_is_made() {
    let metadata = read_metadata(&OVERSTATED).unwrap();
    assert_eq!(metadata.header.width, 60000);
    assert_eq!(metadata.header.raster_len(), 60000 * 60000 * 4);
    assert_eq!(decode(&OVERSTATED).map(|_| ()), Err(PngError::CorruptData));
    assert_eq!(apply_icc_profile(&OVERSTATED, &[1]), Err(PngError::CorruptData));
}

#[test]
fn well_compressed_image_is_not_refused() {
    let model = ImageModel::new(header(4096, 4096, BitDepth::Eight, ColorType::Rgba), vec![0; 4096 * 4096 * 4]);
    let stream = encode(&model).unwrap();
    assert!(stream.len() * 1032 >= model.pixels.len());
    assert!(decode(&stream).unwrap().same_as(&model));
}

#[test]
fn huge_image_cannot_be_restored() {
    assert_eq!(decode(&HUGE).map(|_| ()), Err(PngError::CorruptData));
    assert_eq!(read_metadata(&HUGE).map(|_| ()), Err(PngError::CorruptData));
}

#[test]
fn broken_compression_is_corrupt() {
    assert_eq!(decode(&BAD_DEFLATE).map(|_| ()), Err(PngError::CorruptData));
}

#[test]
fn unknown_filter_is_corrupt() {
    assert_eq!(decode(&BAD_FILTER).map(|_| ()), Err(PngError::CorruptData));
}

#[test]
fn missing_rows_are_corrupt() {
    assert_eq!(decode(&SHORT_DATA).map(|_| ()), Err(PngError::CorruptData));
}

#[test]
fn broken_text_is_corrupt() {
    assert_eq!(decode(&BAD_TEXT).map(|_| ()), Err(PngError::CorruptData));
}

#[test]
fn header_is_read_from_its_payload() {
    let payload = [0, 0, 1, 0, 0, 0, 0, 7, 16, 6, 0, 0, 1];
    assert_eq!(
        parse_header(&payload),
        Some(Header {
            width: 256,
            height: 7,
            bit_depth: BitDepth::Sixteen,
            color_type: ColorType::Rgba,
            interlaced: true,
        })
    );
    assert_eq!(parse_header(&payload[..12]), None);
}

#[test]
fn models_are_compared_field_by_field() {
    let a = gray(2, 2);
    let mut b = gray(2, 2);
    assert!(a.same_as(&b));
    assert!(a.same_content_as(&b));
    b.header.interlaced = true;
    assert!(!a.same_as(&b));
    assert!(a.same_content_as(&b));
    b.header.interlaced = false;
    b.pixels[3] ^= 1;
    assert!(!a.same_as(&b));
    b.pixels[3] ^= 1;
    b.icc_profile = Some(Vec::new());
    assert!(!a.same_as(&b));
    b.icc_profile = None;
    b.text.push(entry("a", "b"));
    assert!(!a.same_as(&b));
    assert!(bytes_equal(&[1, 2], &[1, 2]));
    assert!(!bytes_equal(&[1, 2], &[1, 3]));
    assert!(!bytes_equal(&[1, 2], &[1, 2, 3]));
    assert!(optional_bytes_equal(&None, &None));
    assert!(!optional_bytes_equal(&None, &Some(Vec::new())));
    assert!(optional_bytes_equal(&Some(vec![1]), &Some(vec![1])));
}

#[test]
fn every_error_has_its_message() {
    let malformed = |fault| PngError::MalformedStream { offset: 3, fault };
    assert_eq!(malformed(StreamFault::BadSignature).message(), "Malformed PNG stream: bad signature");
    assert_eq!(
        malformed(StreamFault::Truncated).message(),
        "Malformed PNG stream: unexpected end of data"
    );
    assert_eq!(
        malformed(StreamFault::OversizedChunk).message(),
        "Malformed PNG stream: chunk length out of range"
    );
    assert_eq!(
        malformed(StreamFault::MisplacedHeader).message(),
        "Malformed PNG stream: header chunk out of place"
    );
    assert_eq!(
        malformed(StreamFault::BadHeader).message(),
        "Malformed PNG stream: invalid image header"
    );
    assert_eq!(malformed(StreamFault::MissingData).message(), "Malformed PNG stream: no image data");
    assert_eq!(
        malformed(StreamFault::MisplacedChunk).message(),
        "Malformed PNG stream: chunk after image data"
    );
    assert_eq!(
        malformed(StreamFault::UnknownCriticalChunk).message(),
        "Malformed PNG stream: unknown critical chunk"
    );
    assert_eq!(
        malformed(StreamFault::InconsistentImage).message(),
        "Malformed PNG stream: inconsistent image"
    );
    assert_eq!(PngError::CorruptData.message(), "Corrupt PNG data");
    assert_eq!(PngError::InvalidModel.message(), "Inconsistent image model");
    assert_eq!(PngError::NoProfileFound.message(), "No ICC profile found in source image");
}

#[test]
fn board_squares_alternate() {
    let model = board(5, 3, 2).unwrap();
    assert_eq!(model.header, header(5, 3, BitDepth::Eight, ColorType::Rgb));
    let w = [255u8; 3];
    let b = [0u8; 3];
    let rows = [[w, w, b, b, w], [w, w, b, b, w], [b, b, w, w, b]];
    let mut expected = Vec::new();
    for row in rows {
        for pixel in row {
            expected.extend_from_slice(&pixel);
        }
    }
    assert_eq!(model.pixels, expected);
    assert!(model.same_as(&ImageModel::new(model.header, expected)));
    assert!(model.is_well_formed());
    assert!(board(512, 512, 64).unwrap().same_as(&checkerboard(512, 64)));
}

#[test]
fn impossible_boards_are_refused() {
    assert_eq!(board(4, 4, 0).map(|_| ()), Err(PngError::InvalidModel));
    assert_eq!(board(0, 4, 1).map(|_| ()), Err(PngError::InvalidModel));
    assert_eq!(board(4, 0, 1).map(|_| ()), Err(PngError::InvalidModel));
    assert_eq!(board(0x8000_0000, 1, 1).map(|_| ()), Err(PngError::InvalidModel));
    assert!(board(1, 1, u32::MAX).is_ok());
}

#[test]
fn every_filter_keeps_the_image() {
    let mut model = checkerboard(32, 4);
    for (i, value) in model.pixels.iter_mut().enumerate() {
        *value = value.wrapping_add((i * i % 7) as u8);
    }
    let filters = [
        Filter::Unfiltered,
        Filter::Sub,
        Filter::Up,
        Filter::Average,
        Filter::Paeth,
        Filter::Adaptive,
    ];
    let mut streams = Vec::new();
    for filter in filters {
        let stream = encode_with(&model, filter).unwrap();
        assert!(decode(&stream).unwrap().same_as(&model));
        streams.push(stream);
    }
    assert_eq!(streams[5], encode(&model).unwrap());
    assert_ne!(streams[0], streams[1]);
    assert_ne!(streams[1], streams[2]);
    assert_ne!(streams[0], streams[4]);
}

#[test]
fn first_frame_of_an_animation_is_carried() {
    let model = decode(&TWO_FRAMES).unwrap();
    assert_eq!(model.animation_control, Some(AnimationControl { num_frames: 2, num_plays: 0 }));
    assert_eq!(model.frame_control.unwrap().sequence_number, 0);
    assert_eq!(model.pixels, vec![1, 2, 3, 4]);
    let tagged = apply_icc_profile(&TWO_FRAMES, &[1, 2, 3]).unwrap();
    let back = decode(&tagged).unwrap();
    assert_eq!(back.pixels, vec![1, 2, 3, 4]);
    assert_eq!(back.animation_control, model.animation_control);
    assert_eq!(back.icc_profile, Some(vec![1, 2, 3]));
}

#[test]
fn still_image_before_an_animation_is_inconsistent() {
    let metadata = read_metadata(&STILL_FIRST).unwrap();
    assert_eq!(metadata.animation_control, Some(AnimationControl { num_frames: 1, num_plays: 0 }));
    assert_eq!(metadata.frame_control, None);
    assert_eq!(decode(&STILL_FIRST).map(|_| ()), Err(inconsistent()));
    assert_eq!(apply_icc_profile(&STILL_FIRST, &[1, 2, 3]), Err(inconsistent()));
    assert_eq!(extract_icc_profile(&STILL_FIRST), Ok(Vec::new()));
}

#[test]
fn indexed_stream_without_palette_is_inconsistent() {
    let metadata = read_metadata(&NO_PALETTE).unwrap();
    assert_eq!(metadata.header.color_type, ColorType::Indexed);
    assert_eq!(metadata.palette, None);
    assert_eq!(decode(&NO_PALETTE).map(|_| ()), Err(inconsistent()));
}

#[test]
fn palette_outside_an_indexed_stream_is_inconsistent() {
    assert_eq!(read_metadata(&GRAY_WITH_PALETTE).unwrap().palette, Some(vec![1, 2, 3]));
    assert_eq!(decode(&GRAY_WITH_PALETTE).map(|_| ()), Err(inconsistent()));
    assert_eq!(decode(&RGB_WITH_PALETTE).map(|_| ()), Err(inconsistent()));
    assert_eq!(apply_icc_profile(&RGB_WITH_PALETTE, &[1]), Err(inconsistent()));
}

#[test]
fn metadata_is_read_without_the_image_data() {
    let metadata = read_metadata(&WITH_METADATA).unwrap();
    let model = decode(&WITH_METADATA).unwrap();
    assert!(metadata.pixels.is_empty());
    assert!(!metadata.same_as(&model));
    assert!(metadata.same_as(&ImageModel { pixels: Vec::new(), ..model.clone() }));
    assert_eq!(metadata.text, vec![entry("Software", "by hand")]);
    let damaged = read_metadata(&BAD_DEFLATE).unwrap();
    assert_eq!(damaged.header, header(1, 1, BitDepth::Eight, ColorType::Grayscale));
    assert_eq!(read_metadata(&SHORT_DATA).unwrap().header.width, 2);
    assert_eq!(read_metadata(&BAD_TEXT).map(|_| ()), Err(PngError::CorruptData));
    assert!(matches!(read_metadata(&[1, 2]), Err(PngError::MalformedStream { offset: 0, .. })));
}

#[test]
fn decoded_images_are_well_formed() {
    for sample in [
        &INTERLACED_GRAY[..],
        &SRGB_TAGGED[..],
        &WITH_METADATA[..],
        &ONE_PIXEL[..],
        &ANIMATED[..],
        &TWO_FRAMES[..],
        &WITH_PROFILE[..],
    ] {
        assert!(decode(sample).unwrap().is_well_formed());
    }
}

#[test]
fn profile_is_read_from_a_stream() {
    assert_eq!(extract_icc_profile(&WITH_PROFILE), Ok(b"profile bytes".to_vec()));
    let model = decode(&WITH_PROFILE).unwrap();
    assert_eq!(model.icc_profile, Some(b"profile bytes".to_vec()));
    let again = decode(&encode(&model).unwrap()).unwrap();
    assert!(again.same_as(&model));
}

#[test]
fn broken_profile_counts_as_none() {
    assert_eq!(extract_icc_profile(&BROKEN_PROFILE), Ok(Vec::new()));
    assert_eq!(decode(&BROKEN_PROFILE).unwrap().icc_profile, None);
}

#[test]
fn large_noisy_image_survives() {
    let mut pixels = Vec::new();
    let mut state = 12345u32;
    for _ in 0..1024 * 1024 * 3 {
        state = state.wrapping_mul(1664525).wrapping_add(1013904223);
        pixels.push((state >> 24) as u8);
    }
    let model = ImageModel::new(header(1024, 1024, BitDepth::Eight, ColorType::Rgb), pixels);
    let stream = encode(&model).unwrap();
    assert!(stream.len() > 1024 * 1024);
    assert!(decode(&stream).unwrap().same_as(&model));
}

#[test]
fn compressed_text_is_restored_within_a_limit() {
    let mut model = gray(1, 1);
    model.compressed_text = vec![entry("Comment", &"a".repeat(1024 * 1024))];
    let back = decode(&encode(&model).unwrap()).unwrap();
    assert_eq!(back.compressed_text[0].text.len(), 1024 * 1024);
    model.compressed_text = vec![entry("Comment", &"a".repeat(2 * 1024 * 1024 + 1))];
    assert_eq!(encode(&model), Err(PngError::InvalidModel));
    model.compressed_text = Vec::new();
    model.international_text = vec![InternationalText {
        keyword: "Comment".to_string(),
        compressed: true,
        language_tag: String::new(),
        translated_keyword: String::new(),
        text: "a".repeat(2 * 1024 * 1024 + 1),
    }];
    assert_eq!(encode(&model), Err(PngError::InvalidModel));
    model.international_text[0].compressed = false;
    assert!(encode(&model).is_ok());
}
