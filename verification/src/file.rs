//! Persistence in files: the errors of reading and writing them, the formats, and
//! the place where the files of one format are kept.

use vstd::prelude::*;
use core::marker::PhantomData;
use std::path::{Path, PathBuf};
use crate::text::to_lowercase;

verus! {

/// A failure to read or to write a file.
#[derive(Clone, Debug, PartialEq, Eq)]
pub enum FileError {
    /// The file could not be opened: its path and the message of the cause.
    Open(String, String),
    /// The content is not of the format: the path, the format and the message of the
    /// cause.
    Parse(String, String, String),
}

/// A [`FileError`] with the characters of its texts.
pub enum FileErrorView {
    Open(Seq<char>, Seq<char>),
    Parse(Seq<char>, Seq<char>, Seq<char>),
}

impl View for FileError {
    type V = FileErrorView;

    open spec fn view(&self) -> FileErrorView {
        match self {
            FileError::Open(path, cause) => FileErrorView::Open(path@, cause@),
            FileError::Parse(path, format, cause) => FileErrorView::Parse(
                path@,
                format@,
                cause@,
            ),
        }
    }
}

impl FileErrorView {
    /// The message of the error.
    pub open spec fn message(self) -> Seq<char> {
        match self {
            FileErrorView::Open(path, cause) => "failed to open file '"@ + path + "': "@
                + cause,
            FileErrorView::Parse(path, format, cause) => "failed to parse '"@ + path
                + "' as "@ + format + ": "@ + cause,
        }
    }
}

impl FileError {
    /// A failure to read or write the file at `path` as `format`.
    pub fn parse(path: &str, format: &str, cause: String) -> (r: Self)
        ensures
            r@ == FileErrorView::Parse(path@, format@, cause@),
    {
        FileError::Parse(path.to_owned(), format.to_owned(), cause)
    }

    /// The message of the error: `failed to open file '<path>': <cause>`, or
    /// `failed to parse '<path>' as <format>: <cause>`.
    pub fn to_string(&self) -> (r: String)
        ensures
            r@ == self@.message(),
    {
        match self {
            FileError::Open(path, cause) => {
                let mut out = String::from_str("failed to open file '");
                out.append(path.as_str());
                out.append("': ");
                out.append(cause.as_str());
                out
            },
            FileError::Parse(path, format, cause) => {
                let mut out = String::from_str("failed to parse '");
                out.append(path.as_str());
                out.append("' as ");
                out.append(format.as_str());
                out.append(": ");
                out.append(cause.as_str());
                out
            },
        }
    }
}

/// Whether a text holds a character that separates the parts of a path.
pub open spec fn has_separator(text: Seq<char>) -> bool {
    text.contains('/') || text.contains('\\')
}

/// Joins a file name to a directory with `Path::join`. How the two are joined
/// depends on the platform, so nothing is stated of the result.
#[verifier::external_body]
fn join_path(directory: &str, file: &str) -> String {
    Path::new(directory).join(file).to_string_lossy().into_owned()
}

/// Sets the extension of a path with `PathBuf::set_extension`, which panics on an
/// extension that holds a path separator. Where the extension starts depends on the
/// path, so nothing is stated of the result.
#[verifier::external_body]
fn set_extension(path: &str, extension: &str) -> String
    requires
        !has_separator(extension@),
{
    let mut path = PathBuf::from(path);
    path.set_extension(extension);
    path.to_string_lossy().into_owned()
}

/// A format in which data is kept in a file.
pub trait FileFormat {
    /// The extension of the files of this format.
    fn ext() -> &'static str;
}

/// Data of type `T` as JSON.
pub struct Json<T>(PhantomData<T>);

impl<T> FileFormat for Json<T> {
    fn ext() -> (r: &'static str)
        ensures
            r@ == "json"@,
    {
        "json"
    }
}

/// Data of type `T` as TOML. Its files carry the same extension as those of
/// [`Json`].
pub struct Toml<T>(PhantomData<T>);

impl<T> FileFormat for Toml<T> {
    fn ext() -> (r: &'static str)
        ensures
            r@ == "json"@,
    {
        "json"
    }
}

/// The directory in which the files of the format `F` are kept.
pub struct FileMechanism<F> {
    root_dir: String,
    _phantom: PhantomData<F>,
}

impl<F> FileMechanism<F> where F: FileFormat {
    /// The directory, as it was given.
    pub closed spec fn directory(&self) -> Seq<char> {
        self.root_dir@
    }

    /// Keeps the files under `root_dir`.
    pub fn new(root_dir: String) -> (r: Self)
        ensures
            r.directory() == root_dir@,
    {
        Self { root_dir, _phantom: PhantomData }
    }

    /// The directory under which the files are kept.
    pub fn root_dir(&self) -> (r: &str)
        ensures
            r@ == self.directory(),
    {
        self.root_dir.as_str()
    }

    /// The path of the file that keeps the data called `name`: the name in lower
    /// case, joined to the directory, with the extension of the format. The format
    /// must not give an extension that holds a path separator.
    pub fn file_path(&self, name: &str) -> String
        requires
            forall|extension: &'static str|
                F::ext.ensures((), extension) ==> !has_separator(extension@),
    {
        let file = to_lowercase(name);
        let joined = join_path(self.root_dir.as_str(), file.as_str());
        set_extension(joined.as_str(), F::ext())
    }
}

} // verus!
