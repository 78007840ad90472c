//! The ways in which generating an image can fail.

use vstd::prelude::*;

verus! {

/// Why an avatar could not be downloaded.
#[derive(Debug, Clone, PartialEq, Eq)]
pub enum DownloadFailure {
    /// The request never produced a complete response; the text is the
    /// transport's own account of it.
    Transport(String),
    /// The server answered with this status, a client or server error other
    /// than "not found".
    Status(u16),
}

/// A fatal failure of one generation. None of them is retried.
#[derive(Debug, Clone, PartialEq, Eq)]
pub enum OgImageError {
    /// A configuration variable of the environment could not be read.
    EnvVarError(String),
    /// An avatar could not be downloaded, for a reason other than its absence.
    AvatarDownloadError { url: String, failure: DownloadFailure },
    /// A downloaded avatar could not be stored; `path` is relative to the
    /// workspace.
    AvatarWriteError { path: String, source: String },
    /// The workspace directory could not be created.
    TempDirError(String),
    /// The output file could not be allocated.
    TempFileError(String),
    /// A bundled asset could not be written into the workspace.
    IoError(String),
    /// The input could not be serialized for the rendering engine.
    JsonSerializationError(String),
    /// The rendering engine could not be started.
    TypstNotFound(String),
    /// The rendering engine ran and reported failure.
    TypstCompilationError { stderr: String, stdout: String, exit_code: Option<i32> },
}

/// What a [`DownloadFailure`] holds, as mathematical values.
pub enum DownloadFailureView {
    Transport(Seq<char>),
    Status(u16),
}

/// What an [`OgImageError`] holds, as mathematical values.
pub enum OgImageErrorView {
    EnvVarError(Seq<char>),
    AvatarDownloadError { url: Seq<char>, failure: DownloadFailureView },
    AvatarWriteError { path: Seq<char>, source: Seq<char> },
    TempDirError(Seq<char>),
    TempFileError(Seq<char>),
    IoError(Seq<char>),
    JsonSerializationError(Seq<char>),
    TypstNotFound(Seq<char>),
    TypstCompilationError { stderr: Seq<char>, stdout: Seq<char>, exit_code: Option<i32> },
}

impl View for DownloadFailure {
    type V = DownloadFailureView;

    open spec fn view(&self) -> DownloadFailureView {
        match self {
            DownloadFailure::Transport(text) => DownloadFailureView::Transport(text@),
            DownloadFailure::Status(code) => DownloadFailureView::Status(*code),
        }
    }
}

impl View for OgImageError {
    type V = OgImageErrorView;

    open spec fn view(&self) -> OgImageErrorView {
        match self {
            OgImageError::EnvVarError(source) => OgImageErrorView::EnvVarError(source@),
            OgImageError::AvatarDownloadError { url, failure } => {
                OgImageErrorView::AvatarDownloadError { url: url@, failure: failure@ }
            },
            OgImageError::AvatarWriteError { path, source } => {
                OgImageErrorView::AvatarWriteError { path: path@, source: source@ }
            },
            OgImageError::TempDirError(source) => OgImageErrorView::TempDirError(source@),
            OgImageError::TempFileError(source) => OgImageErrorView::TempFileError(source@),
            OgImageError::IoError(source) => OgImageErrorView::IoError(source@),
            OgImageError::JsonSerializationError(source) => {
                OgImageErrorView::JsonSerializationError(source@)
            },
            OgImageError::TypstNotFound(source) => OgImageErrorView::TypstNotFound(source@),
            OgImageError::TypstCompilationError { stderr, stdout, exit_code } => {
                OgImageErrorView::TypstCompilationError {
                    stderr: stderr@,
                    stdout: stdout@,
                    exit_code: *exit_code,
                }
            },
        }
    }
}

impl DownloadFailure {
    /// A copy of this failure.
    pub(crate) fn duplicate(&self) -> (copy: DownloadFailure)
        ensures
            copy@ == self@,
    {
        match self {
            DownloadFailure::Transport(text) => DownloadFailure::Transport(text.clone()),
            DownloadFailure::Status(code) => DownloadFailure::Status(*code),
        }
    }
}

impl OgImageError {
    /// A copy of this error.
    pub(crate) fn duplicate(&self) -> (copy: OgImageError)
        ensures
            copy@ == self@,
    {
        match self {
            OgImageError::EnvVarError(source) => OgImageError::EnvVarError(source.clone()),
            OgImageError::AvatarDownloadError { url, failure } => OgImageError::AvatarDownloadError {
                url: url.clone(),
                failure: failure.duplicate(),
            },
            OgImageError::AvatarWriteError { path, source } => OgImageError::AvatarWriteError {
                path: path.clone(),
                source: source.clone(),
            },
            OgImageError::TempDirError(source) => OgImageError::TempDirError(source.clone()),
            OgImageError::TempFileError(source) => OgImageError::TempFileError(source.clone()),
            OgImageError::IoError(source) => OgImageError::IoError(source.clone()),
            OgImageError::JsonSerializationError(source) => OgImageError::JsonSerializationError(
                source.clone(),
            ),
            OgImageError::TypstNotFound(source) => OgImageError::TypstNotFound(source.clone()),
            OgImageError::TypstCompilationError { stderr, stdout, exit_code } => {
                OgImageError::TypstCompilationError {
                    stderr: stderr.clone(),
                    stdout: stdout.clone(),
                    exit_code: *exit_code,
                }
            },
        }
    }
}

} // verus!
