//! The upload of the source file: where it lies, under which key it is
//! stored, and how the stored object is named to the later stages.

use vstd::prelude::*;

verus! {

/// An uploaded object, as a mathematical value.
pub struct Object {
    pub bucket: Seq<char>,
    pub key: Seq<char>,
}

/// The uploaded source file as the storage service knows it.
#[derive(Clone, Debug, PartialEq, Eq)]
pub struct Artifact {
    pub bucket: String,
    pub key: String,
}

impl View for Artifact {
    type V = Object;

    open spec fn view(&self) -> Object {
        Object { bucket: self.bucket@, key: self.key@ }
    }
}

/// The locator of an object: the scheme, the bucket, a slash, the key.
pub open spec fn locator_text(object: Object) -> Seq<char> {
    "s3://"@ + object.bucket + "/"@ + object.key
}

impl Artifact {
    /// The locator under which the later stages find the object.
    pub fn locator(&self) -> (uri: String)
        ensures
            uri@ == locator_text(self@),
    {
        let mut uri = "s3://".to_owned();
        uri.append(self.bucket.as_str());
        uri.append("/");
        uri.append(self.key.as_str());
        uri
    }
}

/// How stored objects are encrypted at rest.
#[derive(Clone, Copy, Debug, PartialEq, Eq, Structural)]
pub enum ServerSideEncryption {
    Aes256,
}

/// A path that starts at the user's home: a tilde alone, or a tilde before a
/// separator.
pub open spec fn home_relative(path: Seq<char>) -> bool {
    path.len() >= 1 && path[0] == '~' && (path.len() == 1 || path[1] == '/' || path[1] == '\\')
}

/// What a path may expand to: itself; or, for a path that starts at the
/// user's home, some directory in place of the tilde.
pub open spec fn expands_to(path: Seq<char>, expanded: Seq<char>) -> bool {
    expanded == path || (home_relative(path) && exists|home: Seq<char>|
        expanded == home + path.skip(1))
}

/// `shellexpand::tilde`: a leading tilde, alone or before a separator, is
/// replaced by the home directory where one is known; every other path comes
/// back as it is. Which directory that is depends on the environment and is
/// not stated.
#[verifier::external_body]
fn expand_home(path: &str) -> (expanded: String)
    ensures
        expands_to(path@, expanded@),
{
    shellexpand::tilde(path).into_owned()
}

/// A text that lies in another as one run of its characters.
pub open spec fn part_of(piece: Seq<char>, whole: Seq<char>) -> bool {
    exists|start: int, end: int|
        0 <= start <= end <= whole.len() && piece == #[trigger] whole.subrange(start, end)
}

/// A path whose end every platform reads alike: it holds no backslash and no
/// colon, does not begin with two slashes, and ends neither in a slash nor
/// in a dot. Such a path has no drive or network prefix, the slash is its
/// only separator, and its last component is an ordinary name.
pub open spec fn plain_path(path: Seq<char>) -> bool {
    &&& path.len() > 0
    &&& !path.contains('\\')
    &&& !path.contains(':')
    &&& path.last() != '/'
    &&& path.last() != '.'
    &&& !(path.len() >= 2 && path[0] == '/' && path[1] == '/')
}

/// What follows the last slash of a path; the whole path where it has none.
pub open spec fn after_last_slash(path: Seq<char>) -> Seq<char>
    decreases path.len(),
{
    if path.len() == 0 || path.last() == '/' {
        Seq::empty()
    } else {
        after_last_slash(path.drop_last()).push(path.last())
    }
}

/// `Path::file_name`: the final component of a path, if it has one. A
/// component is a run of the path's characters between separators and is
/// never empty. On every platform the slash separates components; a
/// backslash does so on some, and prefixes are written with colons,
/// backslashes or two leading slashes. So of a path without any of these,
/// which ends in an ordinary name, the final component is what follows its
/// last slash. Of any other path, which run is the final one depends on the
/// platform and is not stated.
#[verifier::external_body]
fn final_component(path: &str) -> (name: Option<String>)
    ensures
        name matches Some(component) ==> component@.len() > 0 && part_of(component@, path@),
        plain_path(path@) ==> crate::text::text_view(name) == Some(after_last_slash(path@)),
{
    std::path::Path::new(path).file_name().map(|name| name.to_string_lossy().into_owned())
}

/// The name of a source file: its final component, or the whole input where
/// it has none.
pub open spec fn name_for(input: Seq<char>, component: Option<Seq<char>>) -> Seq<char> {
    match component {
        Some(name) => name,
        None => input,
    }
}

/// Names a source file from its final component.
pub fn name_from_component(input: &str, component: Option<String>) -> (name: String)
    ensures
        name@ == name_for(input@, crate::text::text_view(component)),
{
    match component {
        Some(name) => name,
        None => input.to_owned(),
    }
}

/// The name under which a source file is shown and stored: the final
/// component of its path, or the whole input where the path has none. Of a
/// path that every platform reads alike, it is what follows the last slash.
/// Of any path, the name is a run of the input's characters, and it is empty
/// only where the input is.
pub fn source_name(input: &str) -> (name: String)
    ensures
        plain_path(input@) ==> name@ == after_last_slash(input@),
        part_of(name@, input@),
        input@.len() > 0 ==> name@.len() > 0,
{
    let component = final_component(input);
    let name = name_from_component(input, component);
    proof {
        if component is None {
            assert(input@.subrange(0, input@.len() as int) =~= input@);
        }
    }
    name
}

/// Where the source file lies: the input with a leading tilde expanded.
pub fn source_path(input: &str) -> (path: String)
    ensures
        expands_to(input@, path@),
        !home_relative(input@) ==> path@ == input@,
{
    expand_home(input)
}

/// One upload, as a mathematical value.
pub struct Transfer {
    pub local_path: Seq<char>,
    pub object: Object,
    pub encryption: ServerSideEncryption,
}

/// One upload: the file at `local_path` is streamed into the bucket under
/// the key and encrypted at rest.
#[derive(Clone, Debug, PartialEq, Eq)]
pub struct UploadRequest {
    pub local_path: String,
    pub artifact: Artifact,
    pub encryption: ServerSideEncryption,
}

impl View for UploadRequest {
    type V = Transfer;

    open spec fn view(&self) -> Transfer {
        Transfer {
            local_path: self.local_path@,
            object: self.artifact@,
            encryption: self.encryption,
        }
    }
}

/// Why nothing was uploaded, as a mathematical value.
pub enum UploadFault {
    MissingPath(Seq<char>),
}

/// Why nothing was uploaded.
#[derive(Clone, Debug, PartialEq, Eq)]
pub enum UploadError {
    /// Nothing lies at the path.
    MissingPath(String),
}

impl View for UploadError {
    type V = UploadFault;

    open spec fn view(&self) -> UploadFault {
        match self {
            UploadError::MissingPath(path) => UploadFault::MissingPath(path@),
        }
    }
}

impl UploadFault {
    pub open spec fn message(self) -> Seq<char> {
        match self {
            UploadFault::MissingPath(path) => "\n❌ The path "@ + path + " does not exist."@,
        }
    }
}

impl UploadError {
    /// The message with which the run ends.
    pub fn message(&self) -> (message: String)
        ensures
            message@ == self@.message(),
    {
        match self {
            UploadError::MissingPath(path) => {
                let mut message = "\n❌ The path ".to_owned();
                message.append(path.as_str());
                message.append(" does not exist.");
                message
            },
        }
    }
}

/// The upload of the file found at `canonical_path`, or the error where
/// nothing was found at `local_path`.
pub open spec fn upload_for(
    local_path: Seq<char>,
    canonical_path: Option<Seq<char>>,
    bucket: Seq<char>,
    key: Seq<char>,
) -> Result<Transfer, UploadFault> {
    match canonical_path {
        Some(path) => Ok(
            Transfer {
                local_path: path,
                object: Object { bucket, key },
                encryption: ServerSideEncryption::Aes256,
            },
        ),
        None => Err(UploadFault::MissingPath(local_path)),
    }
}

/// Plans the upload of a source file into a bucket. `canonical_path` is the
/// absolute path of the file at `local_path`, `None` where nothing lies
/// there: then the run fails before anything is sent.
pub fn upload(local_path: &str, canonical_path: Option<String>, bucket: &str, key: &str) -> (plan:
    Result<UploadRequest, UploadError>)
    ensures
        match plan {
            Ok(request) => upload_for(
                local_path@,
                crate::text::text_view(canonical_path),
                bucket@,
                key@,
            ) == Ok::<Transfer, UploadFault>(request@),
            Err(e) => upload_for(local_path@, crate::text::text_view(canonical_path), bucket@, key@)
                == Err::<Transfer, UploadFault>(e@),
        },
{
    match canonical_path {
        Some(path) => Ok(
            UploadRequest {
                local_path: path,
                artifact: Artifact { bucket: bucket.to_owned(), key: key.to_owned() },
                encryption: ServerSideEncryption::Aes256,
            },
        ),
        None => Err(UploadError::MissingPath(local_path.to_owned())),
    }
}

} // verus!
