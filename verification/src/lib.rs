//! A face-identification engine: who is on a photograph, judged against a
//! gallery of enrolled photographs.
//!
//! Detection and classification are the work of an image engine that the
//! caller owns, and files and the database are the caller's too. This library
//! holds everything that is decided around them: which files of a corpus are
//! photographs of whom, which face is taken from an image, how identities get
//! their classifier labels, when a match is accepted, when the live model is
//! replaced, and what a request is answered with.
//!
//! A rebuild goes through the modules in this order. The caller lists the
//! corpus root and [`corpus::begin_scan`] says which partitions to visit;
//! [`corpus::photographs`] picks the image files of each. For every file the
//! caller extracts a face, led by [`extract::begin_extraction`] and
//! [`extract::choose_face`]. The transcript of all attempts goes to
//! [`training::plan_rebuild`], which hands back the samples, their labels and
//! the registry. The caller trains a new classifier on them, and
//! [`model::FaceRecognitionModel::train`] installs classifier and registry
//! together, or leaves the model alone.
//!
//! An identification extracts the face of the probe in the same way, takes
//! the live classifier from [`model::FaceRecognitionModel::begin_identify`],
//! lets it score the face, and asks [`model::FaceRecognitionModel::predict`]
//! what the answer means.

pub mod corpus;
pub mod distance;
pub mod error;
pub mod extract;
pub mod handlers;
pub mod model;
pub mod registry;
pub mod setup;
pub mod training;
