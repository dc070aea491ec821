//! The ways in which extracting a face, training or identifying can fail.

use vstd::prelude::*;

verus! {

/// A failure of the identification engine.
///
/// None of these is fatal: after any of them the live model is still the last
/// one that was installed.
#[derive(Clone, Copy, Debug, PartialEq, Eq, Structural)]
pub enum FaceError {
    /// The image file could not be read, is corrupt, or decodes to nothing.
    ImageLoad,
    /// The detector found no face-like region in the image.
    NoFaceDetected,
    /// A prediction was asked for before any training pass had succeeded.
    ModelNotTrained,
    /// The classifier refused the sample set.
    Training,
    /// The corpus could not be enumerated.
    CorpusIo,
}

impl FaceError {
    /// The text of `message`, as a sequence of characters.
    pub open spec fn message_text(self) -> Seq<char> {
        match self {
            FaceError::ImageLoad => "Failed to load image"@,
            FaceError::NoFaceDetected => "No face detected in image"@,
            FaceError::ModelNotTrained => "Model not trained yet"@,
            FaceError::Training => "Training failed"@,
            FaceError::CorpusIo => "Failed to read the corpus"@,
        }
    }

    /// A short human-readable description of the failure.
    pub fn message(&self) -> (text: String)
        ensures
            text@ == self.message_text(),
    {
        match self {
            FaceError::ImageLoad => "Failed to load image".to_owned(),
            FaceError::NoFaceDetected => "No face detected in image".to_owned(),
            FaceError::ModelNotTrained => "Model not trained yet".to_owned(),
            FaceError::Training => "Training failed".to_owned(),
            FaceError::CorpusIo => "Failed to read the corpus".to_owned(),
        }
    }
}

} // verus!
