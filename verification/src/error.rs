//! The error kinds an operation can end in.

use vstd::prelude::*;
use vstd::string::*;

verus! {

/// The step of decoding that refused a payload.
#[derive(Clone, Copy, Debug, PartialEq, Eq, Structural)]
pub enum DecodeStage {
    /// The text is not canonical base64.
    Base64,
    /// The bytes are not a decodable image.
    Image,
}

/// The step of encoding that could not go on.
#[derive(Clone, Copy, Debug, PartialEq, Eq, Structural)]
pub enum EncodeStage {
    /// The format cannot hold the pixel grid.
    Image,
    /// The base64 text of the encoded bytes cannot be held in memory.
    Base64,
}

/// Why a requested geometry was refused.
#[derive(Clone, Copy, Debug, PartialEq, Eq, Structural)]
pub enum ValidationReason {
    /// The crop rectangle reaches beyond the image.
    CropOutOfBounds,
    /// An aspect-locked resize has no ratio to keep or no box to fit.
    AspectUndefined,
    /// The resized image cannot be held in memory.
    TargetTooLarge,
}

/// Why an operation failed. Every failure is terminal for the one call that
/// produced it.
#[derive(Debug, PartialEq, Eq)]
pub enum ProcessingError {
    /// The payload could not be decoded; holds the stage that refused it and
    /// the decoder's own description of what is wrong with it.
    Decode(DecodeStage, String),
    /// The requested geometry cannot be applied to the source.
    Validation(ValidationReason),
    /// The target format name is not one of the known names; holds the name
    /// as the caller wrote it.
    UnsupportedFormat(String),
    /// The pixel grid could not be written; holds the stage that could not go
    /// on and a description of why.
    Encode(EncodeStage, String),
    /// The comparison canvas and its pixel buffer do not agree.
    BufferConstruction,
}

/// An error without the free text of its reason: what the contracts of the
/// operations fix.
pub enum ErrorKind {
    Decode(DecodeStage),
    Validation(ValidationReason),
    UnsupportedFormat(Seq<char>),
    Encode(EncodeStage),
    BufferConstruction,
}

/// The operation failed, and with this kind of error.
pub open spec fn failed_with<T>(out: Result<T, ProcessingError>, kind: ErrorKind) -> bool {
    out is Err && out->Err_0.kind() == kind
}

impl ValidationReason {
    /// The text of [`ValidationReason::describe`].
    pub open spec fn text(self) -> Seq<char> {
        match self {
            ValidationReason::CropOutOfBounds => "Crop parameters exceed image dimensions"@,
            ValidationReason::AspectUndefined => "Aspect ratio is undefined for this source and target"@,
            ValidationReason::TargetTooLarge => "Resize target is too large to hold in memory"@,
        }
    }

    /// A description of the reason.
    pub fn describe(self) -> (text: String)
        ensures
            text@ == self.text(),
    {
        match self {
            ValidationReason::CropOutOfBounds => "Crop parameters exceed image dimensions".to_owned(),
            ValidationReason::AspectUndefined => "Aspect ratio is undefined for this source and target".to_owned(),
            ValidationReason::TargetTooLarge => "Resize target is too large to hold in memory".to_owned(),
        }
    }
}

impl ProcessingError {
    /// The error without its reason.
    pub open spec fn kind(self) -> ErrorKind {
        match self {
            ProcessingError::Decode(stage, reason) => ErrorKind::Decode(stage),
            ProcessingError::Validation(reason) => ErrorKind::Validation(reason),
            ProcessingError::UnsupportedFormat(name) => ErrorKind::UnsupportedFormat(name@),
            ProcessingError::Encode(stage, reason) => ErrorKind::Encode(stage),
            ProcessingError::BufferConstruction => ErrorKind::BufferConstruction,
        }
    }

    /// The text of [`ProcessingError::message`]: the stage that failed, then
    /// the reason.
    pub open spec fn message_text(self) -> Seq<char> {
        match self {
            ProcessingError::Decode(DecodeStage::Base64, reason) => "Failed to decode base64 payload: "@ + reason@,
            ProcessingError::Decode(DecodeStage::Image, reason) => "Failed to decode image: "@ + reason@,
            ProcessingError::Validation(reason) => reason.text(),
            ProcessingError::UnsupportedFormat(name) => "Unsupported format: "@ + name@,
            ProcessingError::Encode(EncodeStage::Image, reason) => "Failed to encode image: "@ + reason@,
            ProcessingError::Encode(EncodeStage::Base64, reason) => "Failed to encode base64 payload: "@ + reason@,
            ProcessingError::BufferConstruction => "Failed to create difference image"@,
        }
    }

    /// A human-readable description: the stage that failed and why. An
    /// unsupported format is named in it.
    pub fn message(&self) -> (text: String)
        ensures
            text@ == self.message_text(),
    {
        match self {
            ProcessingError::Decode(stage, reason) => {
                let mut text = match stage {
                    DecodeStage::Base64 => "Failed to decode base64 payload: ".to_owned(),
                    DecodeStage::Image => "Failed to decode image: ".to_owned(),
                };
                text.append(reason.as_str());
                text
            },
            ProcessingError::Validation(reason) => reason.describe(),
            ProcessingError::UnsupportedFormat(name) => {
                let mut text = "Unsupported format: ".to_owned();
                text.append(name.as_str());
                text
            },
            ProcessingError::Encode(stage, reason) => {
                let mut text = match stage {
                    EncodeStage::Image => "Failed to encode image: ".to_owned(),
                    EncodeStage::Base64 => "Failed to encode base64 payload: ".to_owned(),
                };
                text.append(reason.as_str());
                text
            },
            ProcessingError::BufferConstruction => "Failed to create difference image".to_owned(),
        }
    }
}

} // verus!
