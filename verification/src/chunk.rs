//! The container layer of a PNG stream: the signature and the chunks that
//! follow it, each with its length, its tag, its payload and its checksum.

use vstd::prelude::*;
use vstd::slice::slice_subrange;
use vstd::slice::slice_to_vec;
use crate::crc::checksum;
use crate::crc::crc32;
use crate::crc::lemma_single_change_detected;
use crate::error::PngError;
use crate::error::StreamFault;
use crate::model::BitDepth;
use crate::model::ColorType;
use crate::model::Header;
use crate::model::MAX_DIMENSION;

verus! {

/// The largest payload that a chunk can announce.
pub const MAX_CHUNK_LENGTH: u32 = 0x7fff_ffff;

/// The eight bytes that every PNG stream starts with.
pub open spec fn signature() -> Seq<u8> {
    seq![137u8, 80u8, 78u8, 71u8, 13u8, 10u8, 26u8, 10u8]
}

/// The tag of the header chunk, `IHDR`.
pub open spec fn header_tag() -> Seq<u8> {
    seq![73u8, 72u8, 68u8, 82u8]
}

/// The tag of an image data chunk, `IDAT`.
pub open spec fn data_tag() -> Seq<u8> {
    seq![73u8, 68u8, 65u8, 84u8]
}

/// The tag of the palette chunk, `PLTE`.
pub open spec fn palette_tag() -> Seq<u8> {
    seq![80u8, 76u8, 84u8, 69u8]
}

/// The tag of the transparency chunk, `tRNS`.
pub open spec fn transparency_tag() -> Seq<u8> {
    seq![116u8, 82u8, 78u8, 83u8]
}

/// The tag of the end chunk, `IEND`.
pub open spec fn end_tag() -> Seq<u8> {
    seq![73u8, 69u8, 78u8, 68u8]
}

/// Whether a tag marks its chunk as critical: bit 5 of its first byte is
/// clear, which makes that letter a capital.
pub open spec fn is_critical(tag: Seq<u8>) -> bool {
    tag[0] & 0x20 == 0
}

/// Whether a tag is one of the four critical tags that are known.
pub open spec fn is_known_critical(tag: Seq<u8>) -> bool {
    tag == header_tag() || tag == palette_tag() || tag == data_tag() || tag == end_tag()
}

/// The big-endian number held by the four bytes of `stream` that start at `pos`.
pub open spec fn be32_at(stream: Seq<u8>, pos: int) -> int {
    stream[pos] * 0x100_0000 + stream[pos + 1] * 0x1_0000 + stream[pos + 2] * 0x100 + stream[pos
        + 3]
}

/// One chunk of a stream: its four-byte tag and its payload.
#[derive(Clone, Debug)]
pub struct Chunk {
    pub tag: [u8; 4],
    pub data: Vec<u8>,
}

/// A chunk as mathematical values.
pub struct ChunkView {
    pub tag: Seq<u8>,
    pub data: Seq<u8>,
}

impl View for Chunk {
    type V = ChunkView;

    open spec fn view(&self) -> ChunkView {
        ChunkView { tag: self.tag@, data: self.data@ }
    }
}

/// The chunks that a vector holds, as mathematical values.
pub open spec fn chunk_views(chunks: Seq<Chunk>) -> Seq<ChunkView> {
    chunks.map_values(|c: Chunk| c@)
}

/// Whether the payload of a header chunk describes an image: thirteen
/// bytes, both dimensions between 1 and 2^31 - 1, a bit depth that the colour
/// type allows, the one compression and filter method, and an interlace flag
/// of 0 or 1.
pub open spec fn header_payload_ok(data: Seq<u8>) -> bool {
    &&& data.len() == 13
    &&& 1 <= be32_at(data, 0) <= MAX_DIMENSION
    &&& 1 <= be32_at(data, 4) <= MAX_DIMENSION
    &&& match data[9] {
        0u8 => data[8] == 1 || data[8] == 2 || data[8] == 4 || data[8] == 8 || data[8] == 16,
        3u8 => data[8] == 1 || data[8] == 2 || data[8] == 4 || data[8] == 8,
        2u8 | 4u8 | 6u8 => data[8] == 8 || data[8] == 16,
        _ => false,
    }
    &&& data[10] == 0
    &&& data[11] == 0
    &&& data[12] <= 1
}

/// The header that the payload of a header chunk describes.
pub open spec fn header_of_payload(data: Seq<u8>) -> Header
    recommends
        header_payload_ok(data),
{
    Header {
        width: be32_at(data, 0) as u32,
        height: be32_at(data, 4) as u32,
        bit_depth: BitDepth::spec_from_bits(data[8]).unwrap(),
        color_type: ColorType::spec_from_code(data[9]).unwrap(),
        interlaced: data[12] == 1,
    }
}

/// The header that a payload describes, if it describes an image.
pub open spec fn spec_parse_header(data: Seq<u8>) -> Option<Header> {
    if header_payload_ok(data) {
        Some(header_of_payload(data))
    } else {
        None
    }
}

/// A failure at `pos` for the given structural reason.
pub open spec fn malformed(pos: int, fault: StreamFault) -> PngError {
    PngError::MalformedStream { offset: pos as usize, fault }
}

/// The chunks of `stream` from `pos` on, up to and including the end chunk,
/// or the first thing that is wrong. `index` counts the chunks before `pos`,
/// and `seen_data` says whether one of them held image data.
///
/// A chunk takes twelve bytes besides its payload. Its checksum covers the
/// tag and the payload. The header chunk comes first and only there; the
/// palette and the transparency chunk come before the image data; the end
/// chunk closes the stream, after at least one data chunk; what follows the
/// end chunk is not looked at. A critical chunk with another tag is refused;
/// any other chunk is taken as it is.
pub open spec fn scan_from(stream: Seq<u8>, pos: int, index: nat, seen_data: bool) -> Result<
    Seq<ChunkView>,
    PngError,
>
    decreases stream.len() - pos,
{
    if pos < 0 || stream.len() - pos < 12 {
        Err(malformed(pos, StreamFault::Truncated))
    } else {
        let length = be32_at(stream, pos);
        if length > MAX_CHUNK_LENGTH {
            Err(malformed(pos, StreamFault::OversizedChunk))
        } else if stream.len() - pos - 12 < length {
            Err(malformed(pos, StreamFault::Truncated))
        } else {
            let tag = stream.subrange(pos + 4, pos + 8);
            let data = stream.subrange(pos + 8, pos + 8 + length);
            let chunk = ChunkView { tag, data };
            if crc32(stream.subrange(pos + 4, pos + 8 + length)) != be32_at(
                stream,
                pos + 8 + length,
            ) {
                Err(PngError::CorruptData)
            } else if (index == 0) != (tag == header_tag()) {
                Err(malformed(pos, StreamFault::MisplacedHeader))
            } else if index == 0 && !header_payload_ok(data) {
                Err(malformed(pos, StreamFault::BadHeader))
            } else if is_critical(tag) && !is_known_critical(tag) {
                Err(malformed(pos, StreamFault::UnknownCriticalChunk))
            } else if seen_data && (tag == palette_tag() || tag == transparency_tag()) {
                Err(malformed(pos, StreamFault::MisplacedChunk))
            } else if tag == end_tag() {
                if seen_data {
                    Ok(seq![chunk])
                } else {
                    Err(malformed(pos, StreamFault::MissingData))
                }
            } else {
                match scan_from(stream, pos + 12 + length, index + 1, seen_data || tag == data_tag()) {
                    Ok(rest) => Ok(seq![chunk] + rest),
                    Err(e) => Err(e),
                }
            }
        }
    }
}

/// The chunks of a whole stream, or the first thing that is wrong with it.
pub open spec fn spec_read_chunks(stream: Seq<u8>) -> Result<Seq<ChunkView>, PngError> {
    if stream.len() < 8 || stream.subrange(0, 8) != signature() {
        Err(malformed(0, StreamFault::BadSignature))
    } else {
        scan_from(stream, 8, 0, false)
    }
}

/// What the chunks found so far and the scan of the rest amount to.
pub open spec fn continued(found: Seq<ChunkView>, rest: Result<Seq<ChunkView>, PngError>) -> Result<
    Seq<ChunkView>,
    PngError,
> {
    match rest {
        Ok(more) => Ok(found + more),
        Err(e) => Err(e),
    }
}

/// What a result of `read_chunks` holds, as mathematical values.
pub open spec fn chunks_result(r: Result<Vec<Chunk>, PngError>) -> Result<Seq<ChunkView>, PngError> {
    match r {
        Ok(chunks) => Ok(chunk_views(chunks@)),
        Err(e) => Err(e),
    }
}

/// The big-endian number held by four bytes of a stream.
pub fn read_be32(stream: &[u8], pos: usize) -> (value: u32)
    requires
        pos + 4 <= stream@.len(),
    ensures
        value == be32_at(stream@, pos as int),
{
    let a: u32 = stream[pos] as u32;
    let b: u32 = stream[pos + 1] as u32;
    let c: u32 = stream[pos + 2] as u32;
    let d: u32 = stream[pos + 3] as u32;
    a * 0x100_0000 + b * 0x1_0000 + c * 0x100 + d
}

/// Whether the four bytes of a stream that start at `pos` are the given tag.
fn tag_is(stream: &[u8], pos: usize, a: u8, b: u8, c: u8, d: u8) -> (same: bool)
    requires
        pos + 4 <= stream@.len(),
    ensures
        same == (stream@.subrange(pos as int, pos + 4) == seq![a, b, c, d]),
{
    let ghost part = stream@.subrange(pos as int, pos + 4);
    let same = stream[pos] == a && stream[pos + 1] == b && stream[pos + 2] == c && stream[pos + 3]
        == d;
    proof {
        if same {
            assert(part =~= seq![a, b, c, d]);
        }
    }
    same
}

/// The header that the payload of a header chunk describes, if it
/// describes an image.
pub fn parse_header(data: &[u8]) -> (header: Option<Header>)
    ensures
        header == spec_parse_header(data@),
        header matches Some(h) ==> h.well_formed(),
{
    if data.len() != 13 {
        return None;
    }
    let width = read_be32(data, 0);
    let height = read_be32(data, 4);
    if !(1 <= width && width <= MAX_DIMENSION && 1 <= height && height <= MAX_DIMENSION) {
        return None;
    }
    if data[10] != 0 || data[11] != 0 || data[12] > 1 {
        return None;
    }
    match (BitDepth::from_bits(data[8]), ColorType::from_code(data[9])) {
        (Some(bit_depth), Some(color_type)) => {
            let header = Header { width, height, bit_depth, color_type, interlaced: data[12] == 1 };
            if header.is_well_formed() {
                Some(header)
            } else {
                None
            }
        },
        _ => None,
    }
}

/// Splits a stream into its chunks, from the header chunk to the end chunk,
/// and checks the signature, every length and every checksum on the way.
pub fn read_chunks(stream: &[u8]) -> (r: Result<Vec<Chunk>, PngError>)
    ensures
        chunks_result(r) == spec_read_chunks(stream@),
{
    if stream.len() < 8 || !(stream[0] == 137 && stream[1] == 80 && stream[2] == 78 && stream[3]
        == 71 && stream[4] == 13 && stream[5] == 10 && stream[6] == 26 && stream[7] == 10) {
        proof {
            if stream@.len() >= 8 {
                let head = stream@.subrange(0, 8);
                let sig = signature();
                assert(head[0] == stream@[0] && head[1] == stream@[1] && head[2] == stream@[2]
                    && head[3] == stream@[3] && head[4] == stream@[4] && head[5] == stream@[5]
                    && head[6] == stream@[6] && head[7] == stream@[7]);
                assert(sig[0] == 137 && sig[1] == 80 && sig[2] == 78 && sig[3] == 71 && sig[4]
                    == 13 && sig[5] == 10 && sig[6] == 26 && sig[7] == 10);
            }
        }
        return Err(PngError::MalformedStream { offset: 0, fault: StreamFault::BadSignature });
    }
    assert(stream@.subrange(0, 8) =~= signature());
    let mut chunks: Vec<Chunk> = Vec::new();
    let mut pos: usize = 8;
    let mut seen_data = false;
    loop
        invariant
            8 <= pos <= stream@.len(),
            spec_read_chunks(stream@) == scan_from(stream@, 8, 0, false),
            scan_from(stream@, 8, 0, false) == continued(
                chunk_views(chunks@),
                scan_from(stream@, pos as int, chunks@.len(), seen_data),
            ),
        decreases stream@.len() - pos,
    {
        let ghost found = chunk_views(chunks@);
        if stream.len() - pos < 12 {
            return Err(PngError::MalformedStream { offset: pos, fault: StreamFault::Truncated });
        }
        let length = read_be32(stream, pos);
        if length > MAX_CHUNK_LENGTH {
            return Err(
                PngError::MalformedStream { offset: pos, fault: StreamFault::OversizedChunk },
            );
        }
        if stream.len() - pos - 12 < length as usize {
            return Err(PngError::MalformedStream { offset: pos, fault: StreamFault::Truncated });
        }
        let end: usize = pos + 8 + length as usize;
        if checksum(stream, pos + 4, end) != read_be32(stream, end) {
            return Err(PngError::CorruptData);
        }
        let is_header = tag_is(stream, pos + 4, 73, 72, 68, 82);
        if (chunks.len() == 0) != is_header {
            return Err(
                PngError::MalformedStream { offset: pos, fault: StreamFault::MisplacedHeader },
            );
        }
        let payload = slice_subrange(stream, pos + 8, end);
        if chunks.len() == 0 && parse_header(payload).is_none() {
            return Err(PngError::MalformedStream { offset: pos, fault: StreamFault::BadHeader });
        }
        let is_palette = tag_is(stream, pos + 4, 80, 76, 84, 69);
        let is_end = tag_is(stream, pos + 4, 73, 69, 78, 68);
        let is_data = tag_is(stream, pos + 4, 73, 68, 65, 84);
        if stream[pos + 4] & 0x20 == 0 && !(is_header || is_palette || is_data || is_end) {
            return Err(
                PngError::MalformedStream { offset: pos, fault: StreamFault::UnknownCriticalChunk },
            );
        }
        if seen_data && (is_palette || tag_is(stream, pos + 4, 116, 82, 78, 83)) {
            return Err(
                PngError::MalformedStream { offset: pos, fault: StreamFault::MisplacedChunk },
            );
        }
        let chunk = Chunk {
            tag: [stream[pos + 4], stream[pos + 5], stream[pos + 6], stream[pos + 7]],
            data: slice_to_vec(payload),
        };
        proof {
            let tag = stream@.subrange(pos + 4, pos + 8);
            assert(chunk.tag@ =~= tag);
        }
        if is_end && !seen_data {
            return Err(PngError::MalformedStream { offset: pos, fault: StreamFault::MissingData });
        }
        let ghost before = chunks@;
        chunks.push(chunk);
        proof {
            assert(chunk_views(chunks@) =~= found + seq![chunk@]);
            if !is_end {
                let rest = scan_from(
                    stream@,
                    end + 4,
                    (before.len() + 1) as nat,
                    seen_data || is_data,
                );
                match rest {
                    Ok(more) => {
                        assert(found + (seq![chunk@] + more) =~= (found + seq![chunk@]) + more);
                    },
                    Err(_) => {},
                }
            }
        }
        if is_end {
            return Ok(chunks);
        }
        seen_data = seen_data || is_data;
        pos = end + 4;
    }
}

/// A stream that splits into chunks has a first chunk, the header chunk, and
/// its payload describes an image.
pub proof fn lemma_header_chunk_comes_first(stream: Seq<u8>)
    requires
        spec_read_chunks(stream) is Ok,
    ensures
        spec_read_chunks(stream)->Ok_0.len() >= 1,
        spec_read_chunks(stream)->Ok_0[0].tag == header_tag(),
        header_payload_ok(spec_read_chunks(stream)->Ok_0[0].data),
{
}

/// How far behind the start of the first of `chunks` the payload of chunk
/// `k` starts: every chunk before it takes twelve bytes and its payload, and
/// its own length and tag take eight.
pub open spec fn payload_offset(chunks: Seq<ChunkView>, k: int) -> int
    decreases k,
{
    if k <= 0 || chunks.len() == 0 {
        8
    } else {
        12 + chunks[0].data.len() + payload_offset(chunks.skip(1), k - 1)
    }
}

/// A scan that succeeds from `pos` fails with `CorruptData` once a byte in
/// the payload of one of its chunks is changed.
proof fn lemma_scan_detects_change(
    stream: Seq<u8>,
    pos: int,
    index: nat,
    seen_data: bool,
    k: int,
    at: int,
    byte: u8,
)
    requires
        scan_from(stream, pos, index, seen_data) is Ok,
        0 <= k < scan_from(stream, pos, index, seen_data)->Ok_0.len(),
        pos + payload_offset(scan_from(stream, pos, index, seen_data)->Ok_0, k) <= at < pos
            + payload_offset(scan_from(stream, pos, index, seen_data)->Ok_0, k) + scan_from(
            stream,
            pos,
            index,
            seen_data,
        )->Ok_0[k].data.len(),
        0 <= at < stream.len(),
        byte != stream[at],
    ensures
        scan_from(stream.update(at, byte), pos, index, seen_data) == Err::<
            Seq<ChunkView>,
            PngError,
        >(PngError::CorruptData),
    decreases k,
{
    let chunks = scan_from(stream, pos, index, seen_data)->Ok_0;
    let changed = stream.update(at, byte);
    let length = be32_at(stream, pos);
    let first = ChunkView {
        tag: stream.subrange(pos + 4, pos + 8),
        data: stream.subrange(pos + 8, pos + 8 + length),
    };
    lemma_payload_offset_positive(chunks, k);
    let covered = stream.subrange(pos + 4, pos + 8 + length);
    let covered_now = changed.subrange(pos + 4, pos + 8 + length);
    if k == 0 {
        assert forall|j: int| 0 <= j < covered.len() && j != at - (pos + 4) implies covered[j]
            == covered_now[j] by {
        }
        lemma_single_change_detected(covered, covered_now, at - (pos + 4));
    } else {
        let next = pos + 12 + length;
        let seen_next = seen_data || first.tag == data_tag();
        let rest = scan_from(stream, next, index + 1, seen_next);
        assert(chunks.skip(1) =~= rest->Ok_0);
        lemma_payload_offset_positive(rest->Ok_0, k - 1);
        assert(changed.subrange(pos + 4, pos + 8) =~= first.tag);
        lemma_scan_detects_change(stream, next, index + 1, seen_next, k - 1, at, byte);
    }
}

/// The payload of every chunk that a scan finds lies within the stream,
/// with four bytes of checksum behind it.
proof fn lemma_payload_within(stream: Seq<u8>, pos: int, index: nat, seen_data: bool, k: int)
    requires
        scan_from(stream, pos, index, seen_data) is Ok,
        0 <= k < scan_from(stream, pos, index, seen_data)->Ok_0.len(),
    ensures
        0 <= pos,
        pos + payload_offset(scan_from(stream, pos, index, seen_data)->Ok_0, k) + scan_from(
            stream,
            pos,
            index,
            seen_data,
        )->Ok_0[k].data.len() + 4 <= stream.len(),
    decreases k,
{
    let chunks = scan_from(stream, pos, index, seen_data)->Ok_0;
    let length = be32_at(stream, pos);
    let first = ChunkView {
        tag: stream.subrange(pos + 4, pos + 8),
        data: stream.subrange(pos + 8, pos + 8 + length),
    };
    if k > 0 {
        let next = pos + 12 + length;
        let seen_next = seen_data || first.tag == data_tag();
        let rest = scan_from(stream, next, index + 1, seen_next);
        assert(chunks.skip(1) =~= rest->Ok_0);
        lemma_payload_within(stream, next, index + 1, seen_next, k - 1);
    }
}

/// A payload starts at least eight bytes behind the start of the chunks.
proof fn lemma_payload_offset_positive(chunks: Seq<ChunkView>, k: int)
    ensures
        payload_offset(chunks, k) >= 8,
    decreases k,
{
    if k > 0 && chunks.len() > 0 {
        lemma_payload_offset_positive(chunks.skip(1), k - 1);
    }
}

/// Checksums are enforced: where a stream splits into chunks, changing any
/// one byte in the payload of any of them makes the reading fail with
/// `CorruptData`. The chunks start behind the eight signature bytes.
pub proof fn lemma_changed_payload_is_corrupt(stream: Seq<u8>, k: int, at: int, byte: u8)
    requires
        spec_read_chunks(stream) is Ok,
        0 <= k < spec_read_chunks(stream)->Ok_0.len(),
        8 + payload_offset(spec_read_chunks(stream)->Ok_0, k) <= at < 8 + payload_offset(
            spec_read_chunks(stream)->Ok_0,
            k,
        ) + spec_read_chunks(stream)->Ok_0[k].data.len(),
        byte != stream[at],
    ensures
        spec_read_chunks(stream.update(at, byte)) == Err::<Seq<ChunkView>, PngError>(
            PngError::CorruptData,
        ),
{
    let chunks = spec_read_chunks(stream)->Ok_0;
    lemma_payload_offset_positive(chunks, k);
    lemma_payload_within(stream, 8, 0, false, k);
    assert(stream.update(at, byte).subrange(0, 8) =~= stream.subrange(0, 8));
    lemma_scan_detects_change(stream, 8, 0, false, k, at, byte);
}

} // verus!
