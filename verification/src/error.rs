//! The ways in which an operation of this library can fail.

use vstd::prelude::*;

verus! {

/// What is wrong with the structure of a byte stream.
#[derive(Clone, Copy, Debug, PartialEq, Eq, Structural)]
pub enum StreamFault {
    /// The stream does not start with the eight signature bytes.
    BadSignature,
    /// The stream ends inside a chunk, or before the end chunk.
    Truncated,
    /// A chunk announces a payload of more than 2^31 - 1 bytes.
    OversizedChunk,
    /// The first chunk is not the header chunk, or the header chunk comes again.
    MisplacedHeader,
    /// The header chunk holds a value that no image can have.
    BadHeader,
    /// The end chunk comes before any image data.
    MissingData,
    /// A palette or a transparency chunk comes after image data.
    MisplacedChunk,
    /// A chunk that no reader may pass over has a tag that is not known.
    UnknownCriticalChunk,
    /// The chunks describe an image whose fields contradict each other.
    InconsistentImage,
}

/// Why an operation failed.
#[derive(Clone, Copy, Debug, PartialEq, Eq, Structural)]
pub enum PngError {
    /// The byte stream is not built as a PNG stream is; `offset` is where
    /// the offending part starts.
    MalformedStream { offset: usize, fault: StreamFault },
    /// A checksum does not match, or the image cannot be restored from the
    /// compressed data within the limits of the decoder.
    CorruptData,
    /// The fields of an image model contradict each other, or the image
    /// cannot be written, within the limits of the encoder, so that it reads
    /// back unchanged.
    InvalidModel,
    /// The image that should provide an ICC profile has none.
    NoProfileFound,
}

impl PngError {
    /// A sentence that tells a person what went wrong.
    pub open spec fn spec_message(self) -> Seq<char> {
        match self {
            PngError::MalformedStream { offset, fault } => match fault {
                StreamFault::BadSignature => "Malformed PNG stream: bad signature"@,
                StreamFault::Truncated => "Malformed PNG stream: unexpected end of data"@,
                StreamFault::OversizedChunk => "Malformed PNG stream: chunk length out of range"@,
                StreamFault::MisplacedHeader => "Malformed PNG stream: header chunk out of place"@,
                StreamFault::BadHeader => "Malformed PNG stream: invalid image header"@,
                StreamFault::MissingData => "Malformed PNG stream: no image data"@,
                StreamFault::MisplacedChunk => "Malformed PNG stream: chunk after image data"@,
                StreamFault::UnknownCriticalChunk => "Malformed PNG stream: unknown critical chunk"@,
                StreamFault::InconsistentImage => "Malformed PNG stream: inconsistent image"@,
            },
            PngError::CorruptData => "Corrupt PNG data"@,
            PngError::InvalidModel => "Inconsistent image model"@,
            PngError::NoProfileFound => "No ICC profile found in source image"@,
        }
    }

    /// A sentence that tells a person what went wrong.
    pub fn message(&self) -> (text: String)
        ensures
            text@ == self.spec_message(),
    {
        let text: &str = match self {
            PngError::MalformedStream { offset, fault } => match fault {
                StreamFault::BadSignature => "Malformed PNG stream: bad signature",
                StreamFault::Truncated => "Malformed PNG stream: unexpected end of data",
                StreamFault::OversizedChunk => "Malformed PNG stream: chunk length out of range",
                StreamFault::MisplacedHeader => "Malformed PNG stream: header chunk out of place",
                StreamFault::BadHeader => "Malformed PNG stream: invalid image header",
                StreamFault::MissingData => "Malformed PNG stream: no image data",
                StreamFault::MisplacedChunk => "Malformed PNG stream: chunk after image data",
                StreamFault::UnknownCriticalChunk => "Malformed PNG stream: unknown critical chunk",
                StreamFault::InconsistentImage => "Malformed PNG stream: inconsistent image",
            },
            PngError::CorruptData => "Corrupt PNG data",
            PngError::InvalidModel => "Inconsistent image model",
            PngError::NoProfileFound => "No ICC profile found in source image",
        };
        text.to_owned()
    }
}

} // verus!
