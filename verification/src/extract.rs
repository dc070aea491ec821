//! The decisions of the face extractor.
//!
//! Extracting a face takes three pieces of work from the image engine: load
//! the image, find the face-like regions in it, crop one region and scale it
//! to the canonical size. Between them stand the decisions made here: how the
//! image is loaded, when the extraction fails, what the detector is asked
//! for, which region is taken and how it is scaled.

use vstd::prelude::*;
use crate::error::FaceError;

verus! {

/// Edge length, in pixels, of the square every face sample is scaled to.
pub const FACE_SIZE: i32 = 200;

/// Edge length, in pixels, of the smallest region that counts as a face.
pub const MIN_FACE_SIZE: i32 = 30;

/// How many neighbouring candidates a region needs to be kept by the
/// detector.
pub const MIN_NEIGHBORS: i32 = 3;

/// The detector's scale step between passes, 1.1, as the bit pattern of a
/// double.
pub const SCALE_FACTOR_BITS: u64 = 0x3ff1_9999_9999_999a;

/// How an image file is decoded.
#[derive(Clone, Copy, Debug, PartialEq, Eq, Structural)]
pub enum ColorMode {
    /// One channel of gray levels.
    Grayscale,
    /// Three channels of colour.
    Color,
}

/// How pixels are interpolated when an image is scaled.
#[derive(Clone, Copy, Debug, PartialEq, Eq, Structural)]
pub enum Interpolation {
    /// The nearest pixel is taken.
    Nearest,
    /// The four nearest pixels are weighted linearly.
    Bilinear,
    /// Sixteen pixels are weighted by a cubic.
    Bicubic,
}

/// A rectangle of pixels.
#[derive(Clone, Copy, Debug, PartialEq, Eq, Structural)]
pub struct Rect {
    pub x: i32,
    pub y: i32,
    pub width: i32,
    pub height: i32,
}

/// A width and a height in pixels.
#[derive(Clone, Copy, Debug, PartialEq, Eq, Structural)]
pub struct Size {
    pub width: i32,
    pub height: i32,
}

/// What the detector is asked for.
#[derive(Clone, Copy, Debug, PartialEq, Eq, Structural)]
pub struct DetectionRequest {
    /// The scale step between passes, as the bit pattern of a double.
    pub scale_factor_bits: u64,
    /// The least number of neighbours of a region that is kept.
    pub min_neighbors: i32,
    /// Detector flags; none are set.
    pub flags: i32,
    /// The smallest region that is reported.
    pub min_size: Size,
    /// The largest region that is reported; zero by zero for no limit.
    pub max_size: Size,
}

/// What is cut out of the image, and how it is scaled.
#[derive(Clone, Copy, Debug, PartialEq, Eq, Structural)]
pub struct CropRequest {
    /// The region to cut out.
    pub region: Rect,
    /// The size of the sample.
    pub size: Size,
    /// How the region is brought to that size.
    pub interpolation: Interpolation,
}

/// The one detection request that the extractor ever makes.
pub open spec fn standard_request() -> DetectionRequest {
    DetectionRequest {
        scale_factor_bits: SCALE_FACTOR_BITS,
        min_neighbors: MIN_NEIGHBORS,
        flags: 0,
        min_size: Size { width: MIN_FACE_SIZE, height: MIN_FACE_SIZE },
        max_size: Size { width: 0, height: 0 },
    }
}

/// The crop of `region` to the canonical sample size, by bilinear scaling.
pub open spec fn canonical_crop(region: Rect) -> CropRequest {
    CropRequest {
        region,
        size: Size { width: FACE_SIZE, height: FACE_SIZE },
        interpolation: Interpolation::Bilinear,
    }
}

/// How every image is loaded: in grayscale, whatever the file holds.
pub fn load_mode() -> (mode: ColorMode)
    ensures
        mode == ColorMode::Grayscale,
{
    ColorMode::Grayscale
}

/// What follows the loading of an image: an image without content fails the
/// extraction, any other goes to the detector.
pub fn begin_extraction(image_empty: bool) -> (step: Result<DetectionRequest, FaceError>)
    ensures
        step == if image_empty {
            Err::<DetectionRequest, FaceError>(FaceError::ImageLoad)
        } else {
            Ok::<DetectionRequest, FaceError>(standard_request())
        },
{
    if image_empty {
        Err(FaceError::ImageLoad)
    } else {
        Ok(
            DetectionRequest {
                scale_factor_bits: SCALE_FACTOR_BITS,
                min_neighbors: MIN_NEIGHBORS,
                flags: 0,
                min_size: Size { width: MIN_FACE_SIZE, height: MIN_FACE_SIZE },
                max_size: Size { width: 0, height: 0 },
            },
        )
    }
}

/// What follows detection: without a region the extraction fails; otherwise
/// the first region, in the detector's order, is the face. Regions are not
/// ranked by size or in any other way.
pub fn choose_face(regions: &Vec<Rect>) -> (step: Result<CropRequest, FaceError>)
    ensures
        step == if regions@.len() == 0 {
            Err::<CropRequest, FaceError>(FaceError::NoFaceDetected)
        } else {
            Ok::<CropRequest, FaceError>(canonical_crop(regions@[0]))
        },
{
    if regions.len() == 0 {
        Err(FaceError::NoFaceDetected)
    } else {
        Ok(
            CropRequest {
                region: regions[0],
                size: Size { width: FACE_SIZE, height: FACE_SIZE },
                interpolation: Interpolation::Bilinear,
            },
        )
    }
}

} // verus!
