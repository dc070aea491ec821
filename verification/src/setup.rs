//! Starting the image engine: where the face detector's cascade file is
//! looked for, and how the classifier is configured.

use vstd::prelude::*;

verus! {

/// Why the image engine could not be started.
#[derive(Clone, Copy, Debug, PartialEq, Eq, Structural)]
pub enum SetupError {
    /// None of the candidate cascade files exists.
    CascadeNotFound,
    /// The cascade file was read but holds no classifier.
    CascadeEmpty,
}

/// The configuration of the pattern classifier.
#[derive(Clone, Copy, Debug, PartialEq, Eq, Structural)]
pub struct ClassifierConfig {
    /// Radius of the circular pattern.
    pub radius: i32,
    /// Number of sample points on the circle.
    pub neighbors: i32,
    /// Number of histogram cells in a row.
    pub grid_x: i32,
    /// Number of histogram cells in a column.
    pub grid_y: i32,
    /// Distance beyond which the classifier itself reports no label, 123.0, as
    /// the bit pattern of a double.
    pub cutoff_bits: u64,
}

/// The configuration every classifier is created with.
pub open spec fn standard_config() -> ClassifierConfig {
    ClassifierConfig {
        radius: 1,
        neighbors: 8,
        grid_x: 8,
        grid_y: 8,
        cutoff_bits: 0x405e_c000_0000_0000,
    }
}

/// The candidate cascade files, most preferred first.
pub open spec fn candidate_paths() -> Seq<Seq<char>> {
    seq![
        "/usr/local/share/opencv4/haarcascades/haarcascade_frontalface_default.xml"@,
        "/opt/homebrew/share/opencv4/haarcascades/haarcascade_frontalface_default.xml"@,
        "/usr/share/opencv4/haarcascades/haarcascade_frontalface_default.xml"@,
        "./haarcascade_frontalface_default.xml"@,
    ]
}

/// Whether `i` is the position of the first `true` in `present`.
pub open spec fn is_first_present(present: Seq<bool>, i: int) -> bool {
    &&& 0 <= i < present.len()
    &&& present[i]
    &&& forall|j: int| 0 <= j < i ==> !present[j]
}

/// What the user is told when setup fails on the cascade file `path`.
pub open spec fn setup_message(error: SetupError, path: Seq<char>) -> Seq<char> {
    match error {
        SetupError::CascadeNotFound =>
            "Haarcascade file not found. Please:\n1. Install OpenCV: brew install opencv\n2. Or download manually from:\nhttps://raw.githubusercontent.com/opencv/opencv/master/data/haarcascades/haarcascade_frontalface_default.xml\nSave to: ./haarcascade_frontalface_default.xml"@,
        SetupError::CascadeEmpty => "Failed to load cascade classifier from: "@ + path,
    }
}

/// The configuration every classifier is created with.
pub fn classifier_config() -> (config: ClassifierConfig)
    ensures
        config == standard_config(),
{
    ClassifierConfig { radius: 1, neighbors: 8, grid_x: 8, grid_y: 8, cutoff_bits: 0x405e_c000_0000_0000 }
}

/// The places where the cascade file is looked for, most preferred first.
pub fn cascade_candidates() -> (paths: Vec<String>)
    ensures
        paths@.map_values(|s: String| s@) == candidate_paths(),
{
    let mut paths: Vec<String> = Vec::new();
    paths.push("/usr/local/share/opencv4/haarcascades/haarcascade_frontalface_default.xml".to_owned());
    paths.push(
        "/opt/homebrew/share/opencv4/haarcascades/haarcascade_frontalface_default.xml".to_owned(),
    );
    paths.push("/usr/share/opencv4/haarcascades/haarcascade_frontalface_default.xml".to_owned());
    paths.push("./haarcascade_frontalface_default.xml".to_owned());
    assert(paths@.map_values(|s: String| s@) =~= candidate_paths());
    paths
}

/// Picks the cascade file: `present[i]` says whether candidate `i` exists, and
/// the first that does is taken.
pub fn locate_cascade(present: &Vec<bool>) -> (found: Result<usize, SetupError>)
    ensures
        match found {
            Ok(i) => is_first_present(present@, i as int),
            Err(e) => e == SetupError::CascadeNotFound && !present@.contains(true),
        },
{
    let n = present.len();
    let mut i: usize = 0;
    while i < n
        invariant
            i <= n,
            n == present.len(),
            forall|j: int| 0 <= j < i ==> !present@[j],
        decreases n - i,
    {
        if present[i] {
            return Ok(i);
        }
        i += 1;
    }
    Err(SetupError::CascadeNotFound)
}

/// Accepts a loaded cascade unless it holds no classifier.
pub fn check_cascade(cascade_empty: bool) -> (checked: Result<(), SetupError>)
    ensures
        checked == if cascade_empty {
            Err::<(), SetupError>(SetupError::CascadeEmpty)
        } else {
            Ok::<(), SetupError>(())
        },
{
    if cascade_empty {
        Err(SetupError::CascadeEmpty)
    } else {
        Ok(())
    }
}

impl SetupError {
    /// What the user is told; `path` is the cascade file that was tried.
    pub fn message(&self, path: &str) -> (text: String)
        ensures
            text@ == setup_message(*self, path@),
    {
        match self {
            SetupError::CascadeNotFound =>
                "Haarcascade file not found. Please:\n1. Install OpenCV: brew install opencv\n2. Or download manually from:\nhttps://raw.githubusercontent.com/opencv/opencv/master/data/haarcascades/haarcascade_frontalface_default.xml\nSave to: ./haarcascade_frontalface_default.xml".to_owned(),
            SetupError::CascadeEmpty => {
                let mut text = "Failed to load cascade classifier from: ".to_owned();
                text.append(path);
                text
            },
        }
    }
}

} // verus!
