use face_recognition::error::FaceError;
use face_recognition::extract::{
    begin_extraction, choose_face, load_mode, ColorMode, CropRequest, DetectionRequest,
    Interpolation, Rect, Size, FACE_SIZE, MIN_FACE_SIZE, MIN_NEIGHBORS, SCALE_FACTOR_BITS,
};
use face_recognition::setup::{
    cascade_candidates, check_cascade, classifier_config, locate_cascade, SetupError,
};

#[test]
fn an_empty_image_fails_to_load() {
    assert_eq!(begin_extraction(true), Err(FaceError::ImageLoad));
}

#[test]
fn a_loaded_image_goes_to_the_detector() {
    let request = begin_extraction(false).unwrap();
    assert_eq!(
        request,
        DetectionRequest {
            scale_factor_bits: 1.1f64.to_bits(),
            min_neighbors: 3,
            flags: 0,
            min_size: Size { width: 30, height: 30 },
            max_size: Size { width: 0, height: 0 },
        }
    );
}

#[test]
fn detector_constants() {
    assert_eq!(f64::from_bits(SCALE_FACTOR_BITS), 1.1);
    assert_eq!(MIN_NEIGHBORS, 3);
    assert_eq!(MIN_FACE_SIZE, 30);
    assert_eq!(FACE_SIZE, 200);
}

#[test]
fn no_region_is_no_face() {
    assert_eq!(choose_face(&vec![]), Err(FaceError::NoFaceDetected));
}

#[test]
fn one_region_is_the_face() {
    let region = Rect { x: 4, y: 5, width: 60, height: 61 };
    assert_eq!(
        choose_face(&vec![region]),
        Ok(CropRequest {
            region,
            size: Size { width: 200, height: 200 },
            interpolation: Interpolation::Bilinear,
        })
    );
}

#[test]
fn images_are_loaded_in_grayscale() {
    assert_eq!(load_mode(), ColorMode::Grayscale);
}

#[test]
fn the_first_region_wins_whatever_its_size() {
    let small = Rect { x: 0, y: 0, width: 30, height: 30 };
    let large = Rect { x: 10, y: 10, width: 400, height: 400 };
    assert_eq!(choose_face(&vec![small, large]).unwrap().region, small);
    assert_eq!(choose_face(&vec![large, small]).unwrap().region, large);
    assert_eq!(choose_face(&vec![small, large, large]).unwrap().size, Size { width: 200, height: 200 });
}

#[test]
fn classifier_configuration() {
    let config = classifier_config();
    assert_eq!(config.radius, 1);
    assert_eq!(config.neighbors, 8);
    assert_eq!(config.grid_x, 8);
    assert_eq!(config.grid_y, 8);
    assert_eq!(f64::from_bits(config.cutoff_bits), 123.0);
}

#[test]
fn cascade_candidates_in_order_of_preference() {
    assert_eq!(
        cascade_candidates(),
        vec![
            "/usr/local/share/opencv4/haarcascades/haarcascade_frontalface_default.xml".to_string(),
            "/opt/homebrew/share/opencv4/haarcascades/haarcascade_frontalface_default.xml"
                .to_string(),
            "/usr/share/opencv4/haarcascades/haarcascade_frontalface_default.xml".to_string(),
            "./haarcascade_frontalface_default.xml".to_string(),
        ]
    );
}

#[test]
fn the_first_cascade_that_exists_is_taken() {
    assert_eq!(locate_cascade(&vec![false, true, true, false]), Ok(1));
    assert_eq!(locate_cascade(&vec![true, true, true, true]), Ok(0));
    assert_eq!(locate_cascade(&vec![false, false, false, true]), Ok(3));
}

#[test]
fn no_cascade_is_a_setup_error() {
    assert_eq!(locate_cascade(&vec![false, false, false, false]), Err(SetupError::CascadeNotFound));
    assert_eq!(locate_cascade(&vec![]), Err(SetupError::CascadeNotFound));
}

#[test]
fn an_empty_cascade_is_a_setup_error() {
    assert_eq!(check_cascade(true), Err(SetupError::CascadeEmpty));
    assert_eq!(check_cascade(false), Ok(()));
}

#[test]
fn setup_messages() {
    assert_eq!(
        SetupError::CascadeEmpty.message("./haarcascade_frontalface_default.xml"),
        "Failed to load cascade classifier from: ./haarcascade_frontalface_default.xml"
    );
    let not_found = SetupError::CascadeNotFound.message("");
    assert!(not_found.starts_with("Haarcascade file not found. Please:\n1. Install OpenCV"));
    assert!(not_found.ends_with("Save to: ./haarcascade_frontalface_default.xml"));
    assert_eq!(not_found.lines().count(), 5);
}

#[test]
fn error_messages() {
    assert_eq!(FaceError::ImageLoad.message(), "Failed to load image");
    assert_eq!(FaceError::NoFaceDetected.message(), "No face detected in image");
    assert_eq!(FaceError::ModelNotTrained.message(), "Model not trained yet");
    assert_eq!(FaceError::Training.message(), "Training failed");
    assert_eq!(FaceError::CorpusIo.message(), "Failed to read the corpus");
}
