use vstd::prelude::*;
use vstd::string::*;

verus! {

/// Every failure that thumbnail-path resolution, validation and generation
/// can report. Validation failures (`NotFound` through `NoFileName`) mean
/// the caller supplied an unsuitable path; `NoParentPath` and
/// `ParentPathDoesNotExist` come from resolving the thumbnail directory;
/// `DecodeFailed` and `WriteFailed` carry the codec's description of why
/// decoding or encoding the image content failed.
#[derive(Debug, Clone)]
pub enum ImageError {
    NotFound,
    NotAFile,
    NoFileExtension,
    UnsupportedExtension,
    NoFileName,
    NoParentPath,
    ParentPathDoesNotExist,
    DecodeFailed(String),
    WriteFailed(String),
}

impl ImageError {
    /// The stable, human-readable description of this error.
    pub open spec fn spec_message(&self) -> Seq<char> {
        match self {
            ImageError::NotFound => "Path does not exist"@,
            ImageError::NotAFile => "Path is not a file"@,
            ImageError::NoFileExtension => "No file extension found"@,
            ImageError::UnsupportedExtension => "File extension not allowed"@,
            ImageError::NoFileName => "No file name found"@,
            ImageError::NoParentPath => "No parent path found"@,
            ImageError::ParentPathDoesNotExist => "Parent path does not exist"@,
            ImageError::DecodeFailed(cause) => "Image decode failed: "@ + cause@,
            ImageError::WriteFailed(cause) => "Thumbnail write failed: "@ + cause@,
        }
    }

    /// Renders the stable message for this error.
    pub fn message(&self) -> (r: String)
        ensures
            r@ == self.spec_message(),
    {
        match self {
            ImageError::NotFound => String::from_str("Path does not exist"),
            ImageError::NotAFile => String::from_str("Path is not a file"),
            ImageError::NoFileExtension => String::from_str("No file extension found"),
            ImageError::UnsupportedExtension => String::from_str("File extension not allowed"),
            ImageError::NoFileName => String::from_str("No file name found"),
            ImageError::NoParentPath => String::from_str("No parent path found"),
            ImageError::ParentPathDoesNotExist => String::from_str("Parent path does not exist"),
            ImageError::DecodeFailed(cause) => String::from_str("Image decode failed: ").concat(
                cause.as_str(),
            ),
            ImageError::WriteFailed(cause) => String::from_str("Thumbnail write failed: ").concat(
                cause.as_str(),
            ),
        }
    }
}

} // verus!
