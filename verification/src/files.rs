//! Operation routing: whether a file operation runs here or is forwarded to
//! a remote backend, and the checks made before a file is touched.

use vstd::prelude::*;
use vstd::string::*;
use crate::paths::parent_dir;
use crate::text::{blank, lemma_trimmed_empty_iff_blank, trim, trimmed};

verus! {

/// Where operations run. The mode is derived at each call and never stored.
#[derive(Debug, Clone, Copy, PartialEq, Eq)]
pub enum RuntimeMode {
    /// On this machine.
    Local,
    /// On the remote backend that a session is connected to.
    Remote,
}

/// The mode in force: remote exactly while a remote session is active.
pub fn runtime_mode(remote_session_active: bool) -> (r: RuntimeMode)
    ensures
        r is Remote <==> remote_session_active,
{
    if remote_session_active {
        RuntimeMode::Remote
    } else {
        RuntimeMode::Local
    }
}

/// Why a file operation failed.
#[derive(Debug, Clone, PartialEq, Eq)]
pub enum FileError {
    /// The remote call failed; holds the forwarder's own words.
    Remote(String),
    /// The remote answer is not of the expected shape; holds the decoder's
    /// own words.
    Decode(String),
    /// The operation failed on this machine; holds the routine's own words.
    Local(String),
    /// No image path was given.
    ImagePathRequired,
    /// Images are converted only in remote mode or on a mobile runtime.
    ImageConversionUnsupported,
    /// No export path was given.
    PathRequired,
    /// The directory of an export could not be created; holds the system's
    /// own words.
    CreateDirectory(String),
    /// An export could not be written; holds the system's own words.
    WriteFile(String),
}

impl FileError {
    /// The text shown to the user.
    pub open spec fn message_text(&self) -> Seq<char> {
        match self {
            FileError::Remote(detail) => detail@,
            FileError::Decode(detail) => detail@,
            FileError::Local(detail) => detail@,
            FileError::ImagePathRequired => "Image path is required"@,
            FileError::ImageConversionUnsupported =>
                "Image conversion is only supported in remote backend mode or on mobile runtimes"@,
            FileError::PathRequired => "Path is required"@,
            FileError::CreateDirectory(detail) => "Failed to create export directory: "@ + detail@,
            FileError::WriteFile(detail) => "Failed to write export file: "@ + detail@,
        }
    }

    /// The text shown to the user.
    pub fn message(&self) -> (r: String)
        ensures
            r@ == self.message_text(),
    {
        match self {
            FileError::Remote(detail) => detail.clone(),
            FileError::Decode(detail) => detail.clone(),
            FileError::Local(detail) => detail.clone(),
            FileError::ImagePathRequired => "Image path is required".to_owned(),
            FileError::ImageConversionUnsupported =>
                "Image conversion is only supported in remote backend mode or on mobile runtimes".to_owned(),
            FileError::PathRequired => "Path is required".to_owned(),
            FileError::CreateDirectory(detail) => {
                let mut text = "Failed to create export directory: ".to_owned();
                text.append(detail.as_str());
                text
            },
            FileError::WriteFile(detail) => {
                let mut text = "Failed to write export file: ".to_owned();
                text.append(detail.as_str());
                text
            },
        }
    }
}

/// The parameters of a file read. Scope and kind belong to the file policy;
/// the router hands them on as they are.
#[derive(Debug, Clone, PartialEq, Eq)]
pub struct FileRead<S, K> {
    pub scope: S,
    pub kind: K,
    pub workspace_id: Option<String>,
}

/// The parameters of a file write.
#[derive(Debug, Clone, PartialEq, Eq)]
pub struct FileWrite<S, K> {
    pub scope: S,
    pub kind: K,
    pub workspace_id: Option<String>,
    pub content: String,
}

/// Where an operation with parameters `P` goes.
#[derive(Debug, Clone, PartialEq, Eq)]
pub enum Route<P> {
    /// To the local routine, with these parameters.
    Local(P),
    /// To the remote backend, as the operation of this name with these
    /// parameters as its payload.
    Remote { operation: &'static str, params: P },
}

/// The route of an operation: in remote mode to the backend under the
/// operation's name, else to the local routine; the parameters unchanged.
pub open spec fn routed<P>(mode: RuntimeMode, operation: &'static str, params: P) -> Route<P> {
    match mode {
        RuntimeMode::Remote => Route::Remote { operation, params },
        RuntimeMode::Local => Route::Local(params),
    }
}

/// Routes an operation.
pub fn route<P>(mode: RuntimeMode, operation: &'static str, params: P) -> (r: Route<P>)
    ensures
        r == routed(mode, operation, params),
{
    match mode {
        RuntimeMode::Remote => Route::Remote { operation, params },
        RuntimeMode::Local => Route::Local(params),
    }
}

/// Routes a file read: forwarded as `file_read` in remote mode.
pub fn file_read_impl<S, K>(
    scope: S,
    kind: K,
    workspace_id: Option<String>,
    mode: RuntimeMode,
) -> (r: Route<FileRead<S, K>>)
    ensures
        r == routed(mode, "file_read", FileRead { scope, kind, workspace_id }),
{
    route(mode, "file_read", FileRead { scope, kind, workspace_id })
}

/// Routes a file write: forwarded as `file_write` in remote mode.
pub fn file_write_impl<S, K>(
    scope: S,
    kind: K,
    workspace_id: Option<String>,
    content: String,
    mode: RuntimeMode,
) -> (r: Route<FileWrite<S, K>>)
    ensures
        r == routed(mode, "file_write", FileWrite { scope, kind, workspace_id, content }),
{
    route(mode, "file_write", FileWrite { scope, kind, workspace_id, content })
}

/// The result of a forwarded read. `reply` is what the forwarder returned,
/// and inside it what decoding its answer gave. A failed call and an answer
/// of the wrong shape are both errors, each with its own words.
pub fn forwarded_read<T>(reply: Result<Result<T, String>, String>) -> (r: Result<T, FileError>)
    ensures
        match reply {
            Ok(Ok(value)) => r == Ok::<T, FileError>(value),
            Ok(Err(mismatch)) => r == Err::<T, FileError>(FileError::Decode(mismatch)),
            Err(reason) => r == Err::<T, FileError>(FileError::Remote(reason)),
        },
{
    match reply {
        Ok(Ok(value)) => Ok(value),
        Ok(Err(mismatch)) => Err(FileError::Decode(mismatch)),
        Err(reason) => Err(FileError::Remote(reason)),
    }
}

/// The result of a forwarded write: the answer of a call that succeeded is
/// not looked at.
pub fn forwarded_write<T>(reply: Result<T, String>) -> (r: Result<(), FileError>)
    ensures
        match reply {
            Ok(_) => r == Ok::<(), FileError>(()),
            Err(reason) => r == Err::<(), FileError>(FileError::Remote(reason)),
        },
{
    match reply {
        Ok(_) => Ok(()),
        Err(reason) => Err(FileError::Remote(reason)),
    }
}

/// The result of an operation that ran on this machine.
pub fn local_outcome<T>(result: Result<T, String>) -> (r: Result<T, FileError>)
    ensures
        match result {
            Ok(value) => r == Ok::<T, FileError>(value),
            Err(reason) => r == Err::<T, FileError>(FileError::Local(reason)),
        },
{
    match result {
        Ok(value) => Ok(value),
        Err(reason) => Err(FileError::Local(reason)),
    }
}

/// What a request to convert an image comes to before the path is
/// normalized: a blank path is refused first; then a desktop runtime in
/// local mode is refused; otherwise the trimmed path goes on.
pub open spec fn image_request(path: Seq<char>, mobile_runtime: bool, mode: RuntimeMode) -> Result<
    Seq<char>,
    FileError,
> {
    if trimmed(path).len() == 0 {
        Err(FileError::ImagePathRequired)
    } else if !mobile_runtime && mode is Local {
        Err(FileError::ImageConversionUnsupported)
    } else {
        Ok(trimmed(path))
    }
}

/// Checks a request to read an image as a data URL, before its path is
/// normalized and before anything is read.
pub fn read_image_as_data_url(path: &str, mobile_runtime: bool, mode: RuntimeMode) -> (r: Result<
    String,
    FileError,
>)
    ensures
        match image_request(path@, mobile_runtime, mode) {
            Ok(kept) => r is Ok && r->Ok_0@ == kept,
            Err(e) => r == Err::<String, FileError>(e),
        },
        !blank(path@) && !mobile_runtime && mode is Local ==> r == Err::<String, FileError>(
            FileError::ImageConversionUnsupported,
        ),
{
    proof {
        lemma_trimmed_empty_iff_blank(path@);
    }
    let trimmed_path = trim(path);
    if trimmed_path.is_empty() {
        return Err(FileError::ImagePathRequired);
    }
    let remote_mode = match mode {
        RuntimeMode::Remote => true,
        RuntimeMode::Local => false,
    };
    if !mobile_runtime && !remote_mode {
        return Err(FileError::ImageConversionUnsupported);
    }
    Ok(trimmed_path.to_owned())
}

/// Checks the normalized path of an image: an empty one is refused.
pub fn normalized_image_path(normalized: String) -> (r: Result<String, FileError>)
    ensures
        normalized@.len() == 0 ==> r == Err::<String, FileError>(FileError::ImagePathRequired),
        normalized@.len() > 0 ==> r == Ok::<String, FileError>(normalized),
{
    if normalized.as_str().is_empty() {
        Err(FileError::ImagePathRequired)
    } else {
        Ok(normalized)
    }
}

/// Where an export goes and what has to exist first.
#[derive(Debug, Clone, PartialEq, Eq)]
pub struct ExportPlan {
    /// The file to write.
    pub target: String,
    /// The directory to create before writing, if there is one.
    pub create_dir: Option<String>,
}

/// The directory to create for an export: the parent of the target, unless
/// the target has none or an empty one.
pub open spec fn export_dir(parent: Option<Seq<char>>) -> Option<Seq<char>> {
    match parent {
        Some(dir) => if dir.len() == 0 {
            None
        } else {
            Some(dir)
        },
        None => None,
    }
}

/// Plans the export to `path`, given the parent directory of its trimmed
/// text. A blank path is refused.
pub fn export_plan(path: &str, parent: Option<String>) -> (r: Result<ExportPlan, FileError>)
    ensures
        blank(path@) ==> r == Err::<ExportPlan, FileError>(FileError::PathRequired),
        !blank(path@) ==> r is Ok && r->Ok_0.target@ == trimmed(path@)
            && r->Ok_0.create_dir.deep_view() == export_dir(parent.deep_view()),
{
    proof {
        lemma_trimmed_empty_iff_blank(path@);
    }
    let target = trim(path);
    if target.is_empty() {
        return Err(FileError::PathRequired);
    }
    let create_dir = match parent {
        Some(dir) => if dir.as_str().is_empty() {
            None
        } else {
            Some(dir)
        },
        None => None,
    };
    Ok(ExportPlan { target: target.to_owned(), create_dir })
}

/// Plans the writing of a text file to `path`: the trimmed path is the
/// target, and its parent directory, as the platform's path rules give it,
/// is created first unless it is empty. A blank path is refused.
///
/// Which paths have a parent is the platform's to say; a directory that is
/// to be created is a proper prefix of the target.
pub fn write_text_file(path: &str) -> (r: Result<ExportPlan, FileError>)
    ensures
        blank(path@) ==> r == Err::<ExportPlan, FileError>(FileError::PathRequired),
        !blank(path@) ==> r is Ok && r->Ok_0.target@ == trimmed(path@) && (r->Ok_0.create_dir
            matches Some(dir) ==> 0 < dir@.len() < trimmed(path@).len() && dir@ == trimmed(
            path@,
        ).take(dir@.len() as int)),
{
    let parent = parent_dir(trim(path));
    export_plan(path, parent)
}

} // verus!
