//! ICC profiles in PNG images: reading the profile of an image, attaching
//! one, and carrying one over from another image.

use vstd::prelude::*;
use vstd::array::array_as_slice;
use vstd::slice::slice_to_vec;
use crate::binding::info_icc_profile;
use crate::binding::png_read_info;
use crate::binding::read_info;
use crate::chunk::lemma_changed_payload_is_corrupt;
use crate::chunk::payload_offset;
use crate::chunk::read_chunks;
use crate::chunk::spec_read_chunks;
use crate::codec::decode;
use crate::codec::encode;
use crate::codec::lemma_encode_ignores_interlacing;
use crate::codec::lemma_encode_then_decode;
use crate::codec::spec_decode;
use crate::codec::spec_encode;
use crate::codec::stream_result;
use crate::error::PngError;
use crate::model::bytes_of;
use crate::model::Filter;
use crate::model::ImageModel;
use crate::model::ImageModelView;

verus! {

/// The profile that is attached where the caller brings none: a display
/// profile with the primaries of sRGB and a gamma of 2.2.
pub const DEFAULT_ICC_PROFILE: [u8; 456] = [
    0, 0, 1, 200, 0, 0, 0, 0, 2, 16, 0, 0, 109, 110, 116, 114,
    82, 71, 66, 32, 88, 89, 90, 32, 7, 232, 0, 1, 0, 1, 0, 0,
    0, 0, 0, 0, 97, 99, 115, 112, 0, 0, 0, 0, 0, 0, 0, 0,
    0, 0, 0, 0, 0, 0, 0, 0, 0, 0, 0, 0, 0, 0, 0, 0,
    0, 0, 0, 0, 0, 0, 246, 214, 0, 1, 0, 0, 0, 0, 211, 45,
    0, 0, 0, 0, 0, 0, 0, 0, 0, 0, 0, 0, 0, 0, 0, 0,
    0, 0, 0, 0, 0, 0, 0, 0, 0, 0, 0, 0, 0, 0, 0, 0,
    0, 0, 0, 0, 0, 0, 0, 0, 0, 0, 0, 0, 0, 0, 0, 0,
    0, 0, 0, 9, 100, 101, 115, 99, 0, 0, 0, 240, 0, 0, 0, 95,
    99, 112, 114, 116, 0, 0, 1, 80, 0, 0, 0, 21, 119, 116, 112, 116,
    0, 0, 1, 104, 0, 0, 0, 20, 114, 88, 89, 90, 0, 0, 1, 124,
    0, 0, 0, 20, 103, 88, 89, 90, 0, 0, 1, 144, 0, 0, 0, 20,
    98, 88, 89, 90, 0, 0, 1, 164, 0, 0, 0, 20, 114, 84, 82, 67,
    0, 0, 1, 184, 0, 0, 0, 14, 103, 84, 82, 67, 0, 0, 1, 184,
    0, 0, 0, 14, 98, 84, 82, 67, 0, 0, 1, 184, 0, 0, 0, 14,
    100, 101, 115, 99, 0, 0, 0, 0, 0, 0, 0, 5, 115, 82, 71, 66,
    0, 0, 0, 0, 0, 0, 0, 0, 0, 0, 0, 0, 0, 0, 0, 0,
    0, 0, 0, 0, 0, 0, 0, 0, 0, 0, 0, 0, 0, 0, 0, 0,
    0, 0, 0, 0, 0, 0, 0, 0, 0, 0, 0, 0, 0, 0, 0, 0,
    0, 0, 0, 0, 0, 0, 0, 0, 0, 0, 0, 0, 0, 0, 0, 0,
    0, 0, 0, 0, 0, 0, 0, 0, 0, 0, 0, 0, 0, 0, 0, 0,
    116, 101, 120, 116, 0, 0, 0, 0, 78, 111, 32, 99, 111, 112, 121, 114,
    105, 103, 104, 116, 0, 0, 0, 0, 88, 89, 90, 32, 0, 0, 0, 0,
    0, 0, 243, 84, 0, 1, 0, 0, 0, 1, 22, 207, 88, 89, 90, 32,
    0, 0, 0, 0, 0, 0, 111, 163, 0, 0, 56, 246, 0, 0, 3, 145,
    88, 89, 90, 32, 0, 0, 0, 0, 0, 0, 98, 148, 0, 0, 183, 133,
    0, 0, 24, 220, 88, 89, 90, 32, 0, 0, 0, 0, 0, 0, 36, 161,
    0, 0, 15, 133, 0, 0, 182, 212, 99, 117, 114, 118, 0, 0, 0, 0,
    0, 0, 0, 1, 2, 51, 0, 0,
];

/// The bytes of the built-in profile.
pub open spec fn default_profile() -> Seq<u8> {
    DEFAULT_ICC_PROFILE@
}

/// The bytes of a profile, or no bytes where there is no profile.
pub open spec fn profile_or_empty(profile: Option<Seq<u8>>) -> Seq<u8> {
    match profile {
        Some(bytes) => bytes,
        None => Seq::empty(),
    }
}

/// The ICC profile of the image that a stream holds, empty where it has
/// none, or why the stream cannot be read. Only the container and what
/// comes before the image data are looked at.
pub open spec fn spec_extract(stream: Seq<u8>) -> Result<Seq<u8>, PngError> {
    match spec_read_chunks(stream) {
        Err(e) => Err(e),
        Ok(_) => match png_read_info(stream) {
            None => Err(PngError::CorruptData),
            Some(info) => Ok(profile_or_empty(info.icc_profile)),
        },
    }
}

/// The stream of the image of `stream` once it carries `profile`, or why
/// there is none.
pub open spec fn spec_apply(stream: Seq<u8>, profile: Seq<u8>) -> Result<Seq<u8>, PngError> {
    match spec_decode(stream) {
        Err(e) => Err(e),
        Ok(model) => spec_encode(model.with_profile(profile)),
    }
}

/// The profile that a transfer carries over, or `NoProfileFound` where the
/// source had none.
pub open spec fn spec_found(profile: Seq<u8>) -> Result<Seq<u8>, PngError> {
    if profile.len() == 0 {
        Err(PngError::NoProfileFound)
    } else {
        Ok(profile)
    }
}

/// The stream of the image of `target` once it carries the profile of the
/// image of `source`, or why there is none.
pub open spec fn spec_transfer(source: Seq<u8>, target: Seq<u8>) -> Result<Seq<u8>, PngError> {
    match spec_extract(source) {
        Err(e) => Err(e),
        Ok(profile) => match spec_found(profile) {
            Err(e) => Err(e),
            Ok(found) => spec_apply(target, found),
        },
    }
}

impl ImageModel {
    /// Attaches an ICC profile, in place of the one the image may have had.
    pub fn set_icc_profile(&mut self, profile: &[u8])
        ensures
            final(self)@ == old(self)@.with_profile(profile@),
            final(self)@.well_formed() == old(self)@.well_formed(),
    {
        self.icc_profile = Some(slice_to_vec(profile));
    }
}

/// The bytes of a profile, or no bytes where there is no profile.
pub fn profile_bytes(profile: Option<Vec<u8>>) -> (bytes: Vec<u8>)
    ensures
        bytes@ == profile_or_empty(bytes_of(profile)),
{
    match profile {
        Some(bytes) => bytes,
        None => Vec::new(),
    }
}

/// Hands a profile on, or fails with `NoProfileFound` where it is empty.
pub fn require_profile(profile: Vec<u8>) -> (r: Result<Vec<u8>, PngError>)
    ensures
        stream_result(r) == spec_found(profile@),
{
    if profile.len() == 0 {
        Err(PngError::NoProfileFound)
    } else {
        Ok(profile)
    }
}

/// Attaches an ICC profile to a PNG image and returns the new stream.
///
/// The image is decoded, takes the profile in place of any it had, and is
/// encoded again; fails as `decode` and `encode` do. A stream that comes back
/// decodes to the image with the profile attached, rows in order.
pub fn apply_icc_profile(image_data: &[u8], icc_profile: &[u8]) -> (r: Result<Vec<u8>, PngError>)
    ensures
        stream_result(r) == spec_apply(image_data@, icc_profile@),
        r matches Ok(stream) ==> {
            &&& spec_decode(image_data@) is Ok
            &&& spec_decode(stream@) == Ok::<ImageModelView, PngError>(
                spec_decode(image_data@)->Ok_0.with_profile(icc_profile@).in_row_order(),
            )
            &&& spec_extract(stream@) == Ok::<Seq<u8>, PngError>(icc_profile@)
        },
{
    proof {
        if spec_apply(image_data@, icc_profile@) is Ok {
            lemma_applied_profile_is_kept(image_data@, icc_profile@);
        }
    }
    let mut model = match decode(image_data) {
        Ok(model) => model,
        Err(e) => {
            return Err(e);
        },
    };
    model.set_icc_profile(icc_profile);
    encode(&model)
}

/// Reads the ICC profile of a PNG image; the result is empty where the
/// image has none.
pub fn extract_icc_profile(image_data: &[u8]) -> (r: Result<Vec<u8>, PngError>)
    ensures
        stream_result(r) == spec_extract(image_data@),
{
    match read_chunks(image_data) {
        Ok(_) => {},
        Err(e) => {
            return Err(e);
        },
    }
    match read_info(image_data) {
        Ok(info) => Ok(profile_bytes(info_icc_profile(&info))),
        Err(_) => Err(PngError::CorruptData),
    }
}

/// Attaches the ICC profile of one PNG image to another and returns the new
/// stream of the other. Fails with `NoProfileFound` where the source image
/// has no profile, before the target is looked at.
pub fn transfer_icc_profile(source_image: &[u8], target_image: &[u8]) -> (r: Result<
    Vec<u8>,
    PngError,
>)
    ensures
        stream_result(r) == spec_transfer(source_image@, target_image@),
        spec_extract(source_image@) == Ok::<Seq<u8>, PngError>(Seq::empty()) ==> r == Err::<
            Vec<u8>,
            PngError,
        >(PngError::NoProfileFound),
        r matches Ok(stream) ==> {
            &&& spec_extract(stream@) == spec_extract(source_image@)
            &&& spec_decode(target_image@) is Ok
            &&& spec_decode(stream@) is Ok
            &&& spec_decode(stream@)->Ok_0.pixels == spec_decode(target_image@)->Ok_0.pixels
        },
{
    let profile = match extract_icc_profile(source_image) {
        Ok(profile) => profile,
        Err(e) => {
            return Err(e);
        },
    };
    match require_profile(profile) {
        Ok(found) => apply_icc_profile(target_image, found.as_slice()),
        Err(e) => Err(e),
    }
}

/// Attaches the built-in ICC profile to a PNG image and returns the new stream.
pub fn apply_default_icc_profile(image_data: &[u8]) -> (r: Result<Vec<u8>, PngError>)
    ensures
        stream_result(r) == spec_apply(image_data@, default_profile()),
        r matches Ok(stream) ==> spec_extract(stream@) == Ok::<Seq<u8>, PngError>(
            default_profile(),
        ),
{
    let profile = get_default_icc_profile();
    apply_icc_profile(image_data, profile.as_slice())
}

/// A copy of the built-in ICC profile.
pub fn get_default_icc_profile() -> (profile: Vec<u8>)
    ensures
        profile@ == default_profile(),
{
    slice_to_vec(array_as_slice(&DEFAULT_ICC_PROFILE))
}

/// What decodes can be asked for its profile: the answer is the profile of
/// the decoded image, or no bytes where it has none.
pub proof fn lemma_extract_agrees_with_decode(stream: Seq<u8>)
    requires
        spec_decode(stream) is Ok,
    ensures
        spec_extract(stream) == Ok::<Seq<u8>, PngError>(
            profile_or_empty(spec_decode(stream)->Ok_0.icc_profile),
        ),
{
}

/// What `apply_icc_profile` hands out carries the profile and the pixels:
/// the stream decodes to the image of the input with the profile attached,
/// rows in order, and the profile read from it is the one that was given.
pub proof fn lemma_applied_profile_is_kept(stream: Seq<u8>, profile: Seq<u8>)
    requires
        spec_apply(stream, profile) is Ok,
    ensures
        spec_decode(stream) is Ok,
        spec_decode(spec_apply(stream, profile)->Ok_0) == Ok::<ImageModelView, PngError>(
            spec_decode(stream)->Ok_0.with_profile(profile).in_row_order(),
        ),
        spec_extract(spec_apply(stream, profile)->Ok_0) == Ok::<Seq<u8>, PngError>(profile),
{
    let model = spec_decode(stream)->Ok_0.with_profile(profile);
    lemma_encode_then_decode(model, Filter::Adaptive);
    lemma_extract_agrees_with_decode(spec_apply(stream, profile)->Ok_0);
}

/// Idempotence: attaching the same profile a second time gives the very same
/// stream again, so the profile read from it is the one that was given and
/// its pixels are those of the first result.
pub proof fn lemma_apply_twice(stream: Seq<u8>, profile: Seq<u8>)
    requires
        spec_apply(stream, profile) is Ok,
    ensures
        spec_apply(spec_apply(stream, profile)->Ok_0, profile) == spec_apply(stream, profile),
        spec_extract(spec_apply(spec_apply(stream, profile)->Ok_0, profile)->Ok_0) == Ok::<
            Seq<u8>,
            PngError,
        >(profile),
        spec_decode(spec_apply(spec_apply(stream, profile)->Ok_0, profile)->Ok_0)->Ok_0.pixels
            == spec_decode(spec_apply(stream, profile)->Ok_0)->Ok_0.pixels,
{
    lemma_applied_profile_is_kept(stream, profile);
    lemma_encode_ignores_interlacing(
        spec_decode(stream)->Ok_0.with_profile(profile),
        Filter::Adaptive,
    );
}

/// Transfer: where the source image has a profile and the transfer
/// succeeds, the profile read from the result is that of the source, and the
/// result decodes to the pixels of the target.
pub proof fn lemma_transfer_carries_profile(source: Seq<u8>, target: Seq<u8>)
    requires
        spec_extract(source) is Ok,
        spec_extract(source)->Ok_0.len() > 0,
        spec_transfer(source, target) is Ok,
    ensures
        spec_extract(spec_transfer(source, target)->Ok_0) == spec_extract(source),
        spec_decode(target) is Ok,
        spec_decode(spec_transfer(source, target)->Ok_0) is Ok,
        spec_decode(spec_transfer(source, target)->Ok_0)->Ok_0.pixels == spec_decode(
            target,
        )->Ok_0.pixels,
{
    lemma_applied_profile_is_kept(target, spec_extract(source)->Ok_0);
}

/// No profile, no transfer: where the source image reads but has no
/// profile, the transfer fails with `NoProfileFound`, whatever the target is.
pub proof fn lemma_transfer_needs_profile(source: Seq<u8>, target: Seq<u8>)
    requires
        spec_extract(source) == Ok::<Seq<u8>, PngError>(Seq::empty()),
    ensures
        spec_transfer(source, target) == Err::<Seq<u8>, PngError>(PngError::NoProfileFound),
{
}

/// Checksums are enforced: where the profile of a stream can be read,
/// changing any one byte in the payload of any of its chunks makes the
/// reading fail with `CorruptData`.
pub proof fn lemma_changed_payload_fails_extract(stream: Seq<u8>, k: int, at: int, byte: u8)
    requires
        spec_extract(stream) is Ok,
        0 <= k < spec_read_chunks(stream)->Ok_0.len(),
        8 + payload_offset(spec_read_chunks(stream)->Ok_0, k) <= at < 8 + payload_offset(
            spec_read_chunks(stream)->Ok_0,
            k,
        ) + spec_read_chunks(stream)->Ok_0[k].data.len(),
        byte != stream[at],
    ensures
        spec_extract(stream.update(at, byte)) == Err::<Seq<u8>, PngError>(PngError::CorruptData),
{
    lemma_changed_payload_is_corrupt(stream, k, at, byte);
}

} // verus!
