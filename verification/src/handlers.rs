//! The request logic of the two operations of the service: enrolling the
//! photographs of a user, and identifying the face in one photograph.
//!
//! A request arrives as a sequence of named form fields. The caller reads the
//! fields, writes files and talks to the database; the functions here say
//! what each field means, where an uploaded photograph is stored, and what
//! the answer to the request is.

use vstd::prelude::*;
use uuid::Uuid;
use crate::corpus::{is_image_name, join_path, joined};

verus! {

/// The answer to a request that succeeded or was refused in an orderly way.
#[derive(Debug, PartialEq, Eq)]
pub struct ApiResponse<T> {
    /// Whether the request was successful.
    pub success: bool,
    /// A human-readable account of the result.
    pub message: String,
    /// What the request produced, if anything.
    pub data: Option<T>,
}

/// What an enrollment produced.
#[derive(Debug, PartialEq, Eq)]
pub struct AddFaceResponse {
    /// The identity that was enrolled.
    pub user_id: String,
    /// The number of photographs that were stored.
    pub images_saved: usize,
}

/// What an identification produced.
#[derive(Debug, PartialEq, Eq)]
pub struct DetectFaceResponse {
    /// The identity of the face, if it matched one.
    pub user_id: Option<String>,
    /// Whether it matched one.
    pub detected: bool,
}

/// A request that failed, with the HTTP status it is answered with.
#[derive(Debug, PartialEq, Eq)]
pub struct ApiError {
    /// The HTTP status code.
    pub status: u16,
    /// What went wrong.
    pub message: String,
}

/// What a form field of an enrollment request holds.
#[derive(Clone, Copy, Debug, PartialEq, Eq, Structural)]
pub enum AddFaceField {
    /// The identity to enroll, as text.
    UserId,
    /// One photograph.
    Photo,
    /// Nothing the service looks at.
    Ignored,
}

/// Where an uploaded photograph is stored.
#[derive(Debug, PartialEq, Eq)]
pub struct PhotoSlot {
    /// The partition of the identity; created if it is missing.
    pub dir: String,
    /// The name of the file inside the partition.
    pub file_name: String,
    /// The path of the file: `dir`, a slash, `file_name`.
    pub path: String,
}

/// What has been read of an enrollment request so far.
pub struct AddFaceUpload {
    /// The identity, once its field has been read. A later field replaces an
    /// earlier one.
    pub user_id: Option<String>,
    /// The paths of the photographs stored so far, in order.
    pub saved_paths: Vec<String>,
}

/// A complete enrollment request: an identity and at least one stored
/// photograph.
#[derive(Debug, PartialEq, Eq)]
pub struct Enrollment {
    /// The identity.
    pub user_id: String,
    /// The paths of the stored photographs, in order.
    pub image_paths: Vec<String>,
}

/// Why an enrollment that was read completely did not go through.
#[derive(Debug, PartialEq, Eq)]
pub enum EnrollFailure {
    /// The database refused a record; the text says why.
    Database(String),
    /// The rebuild of the model failed; the text says why.
    Training(String),
}

/// How an identification request went.
#[derive(Debug, PartialEq, Eq)]
pub enum Detection {
    /// The request held no photograph.
    NoImage,
    /// The identification failed; the text says why.
    Failed(String),
    /// The identification ran: the identity that matched, if any.
    Finished(Option<String>),
}

/// The status of a request that was well-formed and went through.
pub const STATUS_OK: u16 = 200;

/// The status of a request that the client got wrong.
pub const STATUS_BAD_REQUEST: u16 = 400;

/// The status of a request that failed inside the service.
pub const STATUS_INTERNAL_ERROR: u16 = 500;

/// The directory that holds the enrollment corpus.
pub const KNOWLEDGE_DIR: &'static str = "knowledge";

/// The directory that holds a probe photograph while it is identified.
pub const TEMP_DIR: &'static str = "temp";

/// The name of the corpus directory, as characters.
pub open spec fn knowledge_dir() -> Seq<char> {
    KNOWLEDGE_DIR@
}

/// The name of the temporary directory, as characters.
pub open spec fn temp_dir() -> Seq<char> {
    TEMP_DIR@
}

/// Whether `c` is a decimal digit or one of the letters `a` to `f`.
pub open spec fn is_lower_hex(c: char) -> bool {
    ('0' as int <= c as int <= '9' as int) || ('a' as int <= c as int <= 'f' as int)
}

/// Whether `token` is written like a random identifier: 36 characters, lower
/// case hexadecimal digits in groups of 8, 4, 4, 4 and 12 with a hyphen
/// between groups.
pub open spec fn is_token(token: Seq<char>) -> bool {
    &&& token.len() == 36
    &&& forall|i: int|
        0 <= i < 36 ==> if i == 8 || i == 13 || i == 18 || i == 23 {
            #[trigger] token[i] == '-'
        } else {
            is_lower_hex(#[trigger] token[i])
        }
}

/// The file name made of a token: the token and the extension `.jpg`.
pub open spec fn token_name(token: Seq<char>) -> Seq<char> {
    token + seq!['.', 'j', 'p', 'g']
}

/// Whether `name` is a file name that the service made up itself.
pub open spec fn is_generated_name(name: Seq<char>) -> bool {
    name.len() == 40 && is_token(name.take(36)) && name == token_name(name.take(36))
}

/// The meaning of an enrollment field, by its name.
pub open spec fn add_face_field_of(name: Seq<char>) -> AddFaceField {
    if name == "id"@ {
        AddFaceField::UserId
    } else if name == "photos"@ {
        AddFaceField::Photo
    } else {
        AddFaceField::Ignored
    }
}

/// Whether an identification field of this name holds the photograph.
pub open spec fn holds_probe(name: Seq<char>) -> bool {
    name == "photo"@ || name == "image"@
}

/// A random identifier as text.
///
/// Trusted: calls `uuid::Uuid::new_v4` and formats the result with its
/// `Display`, which writes the hyphenated lower-case form. Claimed of every
/// outcome: 36 characters, hyphens at positions 8, 13, 18 and 23, lower-case
/// hexadecimal digits elsewhere. Nothing is claimed about which identifier
/// comes out. The call panics if the operating system gives no random bytes.
#[verifier::external_body]
fn fresh_token() -> (token: String)
    ensures
        is_token(token@),
{
    Uuid::new_v4().to_string()
}

/// Whether two pieces of text are the same.
fn same_text(text: &str, word: &str) -> (same: bool)
    ensures
        same == (text@ == word@),
{
    text.to_owned() == word.to_owned()
}

/// The file name made of `token`: the token and the extension `.jpg`.
pub fn default_photo_name(token: &str) -> (name: String)
    ensures
        name@ == token_name(token@),
{
    let mut name = token.to_owned();
    name.append(".jpg");
    proof {
        reveal_strlit(".jpg");
        assert(".jpg"@ =~= seq!['.', 'j', 'p', 'g']);
    }
    name
}

/// The name under which an uploaded photograph is stored: the name the client
/// gave, or else a fresh one made up for it.
pub fn photo_name(uploaded: Option<String>) -> (name: String)
    ensures
        match uploaded {
            Some(given) => name@ == given@,
            None => is_generated_name(name@),
        },
{
    match uploaded {
        Some(given) => given,
        None => {
            let token = fresh_token();
            let name = default_photo_name(token.as_str());
            proof {
                assert(name@.take(36) =~= token@);
            }
            name
        },
    }
}

/// The file name of a path: what follows its first `skip` characters.
pub open spec fn name_after(path: Seq<char>, skip: nat) -> Seq<char> {
    path.skip(skip as int)
}

/// Where the probe photograph of an identification request is kept while the
/// request runs: under a fresh name in the temporary directory.
pub fn temp_photo_path() -> (path: String)
    ensures
        path@ == joined(temp_dir(), name_after(path@, temp_dir().len() + 1)),
        is_generated_name(name_after(path@, temp_dir().len() + 1)),
{
    let name = photo_name(None);
    let path = join_path(TEMP_DIR, name.as_str());
    proof {
        assert(name_after(path@, temp_dir().len() + 1) =~= name@);
    }
    path
}

/// The meaning of an enrollment field: `id` carries the identity, `photos` a
/// photograph, and any other field is passed over.
pub fn add_face_field(name: &str) -> (field: AddFaceField)
    ensures
        field == add_face_field_of(name@),
{
    if same_text(name, "id") {
        AddFaceField::UserId
    } else if same_text(name, "photos") {
        AddFaceField::Photo
    } else {
        AddFaceField::Ignored
    }
}

/// Whether an identification field holds the photograph: one named `photo`
/// or `image` does. The first such field is the probe; the rest of the
/// request is not read.
pub fn detect_face_field(name: &str) -> (probe: bool)
    ensures
        probe == holds_probe(name@),
{
    same_text(name, "photo") || same_text(name, "image")
}

impl ApiError {
    /// A failure that the client caused.
    pub fn bad_request(message: String) -> (error: ApiError)
        ensures
            error.status == STATUS_BAD_REQUEST,
            error.message == message,
    {
        ApiError { status: STATUS_BAD_REQUEST, message }
    }

    /// A failure inside the service.
    pub fn internal(message: String) -> (error: ApiError)
        ensures
            error.status == STATUS_INTERNAL_ERROR,
            error.message == message,
    {
        ApiError { status: STATUS_INTERNAL_ERROR, message }
    }

    /// A failure inside the service, reported as `context` followed by
    /// `detail`.
    pub fn internal_about(context: &str, detail: &str) -> (error: ApiError)
        ensures
            error.status == STATUS_INTERNAL_ERROR,
            error.message@ == context@ + detail@,
    {
        let mut message = context.to_owned();
        message.append(detail);
        ApiError { status: STATUS_INTERNAL_ERROR, message }
    }
}

impl<T> ApiResponse<T> {
    /// The HTTP status that the response is sent with: 200 for a success, 400
    /// otherwise.
    pub fn status(&self) -> (status: u16)
        ensures
            status == if self.success {
                STATUS_OK
            } else {
                STATUS_BAD_REQUEST
            },
    {
        if self.success {
            STATUS_OK
        } else {
            STATUS_BAD_REQUEST
        }
    }
}

impl AddFaceUpload {
    /// The state before any field has been read.
    pub fn new() -> (upload: AddFaceUpload)
        ensures
            upload.user_id is None,
            upload.saved_paths@.len() == 0,
    {
        AddFaceUpload { user_id: None, saved_paths: Vec::new() }
    }

    /// Takes in the text of an identity field. It replaces what an earlier
    /// identity field gave.
    pub fn set_user_id(&mut self, text: String)
        ensures
            final(self).user_id == Some(text),
            final(self).saved_paths == old(self).saved_paths,
    {
        self.user_id = Some(text);
    }

    /// Says where the photograph of a photo field goes. The identity must
    /// have been read before; the file keeps the name the client gave it, or
    /// gets a fresh one.
    pub fn photo_slot(&self, uploaded: Option<String>) -> (slot: Result<PhotoSlot, ApiError>)
        ensures
            match self.user_id {
                None => slot matches Err(e) && e.status == STATUS_BAD_REQUEST && e.message@
                    == "User ID must be provided before photos"@,
                Some(uid) => {
                    &&& slot matches Ok(s)
                    &&& s.dir@ == joined(knowledge_dir(), uid@)
                    &&& s.path@ == joined(s.dir@, s.file_name@)
                    &&& match uploaded {
                        Some(given) => s.file_name@ == given@,
                        None => is_generated_name(s.file_name@),
                    }
                },
            },
    {
        match &self.user_id {
            None => Err(
                ApiError::bad_request("User ID must be provided before photos".to_owned()),
            ),
            Some(uid) => {
                let dir = join_path(KNOWLEDGE_DIR, uid.as_str());
                let file_name = photo_name(uploaded);
                let path = join_path(dir.as_str(), file_name.as_str());
                Ok(PhotoSlot { dir, file_name, path })
            },
        }
    }

    /// Records that a photograph was stored at `path`.
    pub fn photo_saved(&mut self, path: String)
        ensures
            final(self).user_id == old(self).user_id,
            final(self).saved_paths@ == old(self).saved_paths@.push(path),
    {
        self.saved_paths.push(path);
    }

    /// Closes the request once every field has been read. It is complete if
    /// it named an identity and stored at least one photograph.
    pub fn finish(self) -> (done: Result<Enrollment, ApiError>)
        ensures
            match self.user_id {
                None => done matches Err(e) && e.status == STATUS_BAD_REQUEST && e.message@
                    == "User ID is required"@,
                Some(uid) => if self.saved_paths@.len() == 0 {
                    done matches Err(e) && e.status == STATUS_BAD_REQUEST && e.message@
                        == "No photos were uploaded"@
                } else {
                    done matches Ok(enrollment) && enrollment.user_id == uid
                        && enrollment.image_paths == self.saved_paths
                },
            },
    {
        match self.user_id {
            None => Err(ApiError::bad_request("User ID is required".to_owned())),
            Some(uid) => {
                if self.saved_paths.len() == 0 {
                    Err(ApiError::bad_request("No photos were uploaded".to_owned()))
                } else {
                    Ok(Enrollment { user_id: uid, image_paths: self.saved_paths })
                }
            },
        }
    }
}

/// The answer to an enrollment request that was read completely: a success
/// that names the identity and counts its photographs, unless recording it or
/// rebuilding the model failed.
pub fn add_face(enrollment: Enrollment, failure: Option<EnrollFailure>) -> (answer: Result<
    ApiResponse<AddFaceResponse>,
    ApiError,
>)
    ensures
        match failure {
            Some(EnrollFailure::Database(detail)) => answer matches Err(e) && e.status
                == STATUS_INTERNAL_ERROR && e.message@ == "Database error: "@ + detail@,
            Some(EnrollFailure::Training(detail)) => answer matches Err(e) && e.status
                == STATUS_INTERNAL_ERROR && e.message@ == "Training failed: "@ + detail@,
            None => {
                &&& answer matches Ok(response)
                &&& response.success
                &&& response.message@ == "Face data added and model trained successfully"@
                &&& response.data matches Some(data)
                &&& data.user_id == enrollment.user_id
                &&& data.images_saved == enrollment.image_paths@.len()
            },
        },
{
    match failure {
        Some(EnrollFailure::Database(detail)) => Err(
            ApiError::internal_about("Database error: ", detail.as_str()),
        ),
        Some(EnrollFailure::Training(detail)) => Err(
            ApiError::internal_about("Training failed: ", detail.as_str()),
        ),
        None => {
            let images_saved = enrollment.image_paths.len();
            Ok(
                ApiResponse {
                    success: true,
                    message: "Face data added and model trained successfully".to_owned(),
                    data: Some(AddFaceResponse { user_id: enrollment.user_id, images_saved }),
                },
            )
        },
    }
}

/// The answer to an identification request. A request without a photograph
/// is the client's mistake, a failed identification the service's. An
/// identification that ran is a success whether or not a face matched.
pub fn detect_face(detection: Detection) -> (answer: Result<
    ApiResponse<DetectFaceResponse>,
    ApiError,
>)
    ensures
        match detection {
            Detection::NoImage => answer matches Err(e) && e.status == STATUS_BAD_REQUEST
                && e.message@ == "No image uploaded. Use 'photo' or 'image' as field name"@,
            Detection::Failed(detail) => answer matches Err(e) && e.status
                == STATUS_INTERNAL_ERROR && e.message@ == "Detection failed: "@ + detail@,
            Detection::Finished(found) => {
                &&& answer matches Ok(response)
                &&& response.success
                &&& response.message@ == if found is Some {
                    "Face detected successfully"@
                } else {
                    "No matching face found"@
                }
                &&& response.data matches Some(data)
                &&& data.user_id == found
                &&& data.detected == found is Some
            },
        },
{
    match detection {
        Detection::NoImage => Err(
            ApiError::bad_request(
                "No image uploaded. Use 'photo' or 'image' as field name".to_owned(),
            ),
        ),
        Detection::Failed(detail) => Err(
            ApiError::internal_about("Detection failed: ", detail.as_str()),
        ),
        Detection::Finished(found) => {
            let detected = found.is_some();
            let message = if detected {
                "Face detected successfully".to_owned()
            } else {
                "No matching face found".to_owned()
            };
            Ok(
                ApiResponse {
                    success: true,
                    message,
                    data: Some(DetectFaceResponse { user_id: found, detected }),
                },
            )
        },
    }
}

/// A file name that the service makes up is the name of an image file, so a
/// photograph stored under it is found by the next scan of the corpus.
pub proof fn lemma_generated_name_is_image(name: Seq<char>)
    requires
        is_generated_name(name),
    ensures
        is_image_name(name),
{
    name.index_of_last_ensures('.');
    assert(name[36] == '.');
    assert(name[37] == 'j' && name[38] == 'p' && name[39] == 'g');
    assert(name.contains('.'));
    assert(name.index_of_last('.') == Some(36int));
    assert(name.skip(37) =~= seq!['j', 'p', 'g']);
}

/// A file name that the service makes up is a single path component: it
/// holds no slash, so the photograph lands in the partition itself.
pub proof fn lemma_generated_name_has_no_slash(name: Seq<char>)
    requires
        is_generated_name(name),
    ensures
        !name.contains('/'),
{
    let token = name.take(36);
    assert forall|i: int| 0 <= i < name.len() implies name[i] != '/' by {
        if i < 36 {
            assert(name[i] == token[i]);
            if i == 8 || i == 13 || i == 18 || i == 23 {
                assert(token[i] == '-');
            } else {
                assert(is_lower_hex(token[i]));
            }
        }
    }
}

} // verus!
