use vstd::prelude::*;

verus! {

#[verifier::external_type_specification]
#[verifier::external_body]
pub struct ExImageError(image::ImageError);

/// Why a thumbnail could not be produced.
#[derive(Debug)]
pub enum Error {
    /// The requested file does not exist; holds its path.
    FileNotFound(String),
    /// Decoding or encoding an image failed.
    Image(image::ImageError),
    /// No way to produce a thumbnail for the file was found.
    NotFound,
    /// The thumbnail is over the size limit even at one pixel by one.
    TooLarge,
}

/// What a caller can observe of an [`Error`].
pub enum ErrorKind {
    FileNotFound(Seq<char>),
    Image,
    NotFound,
    TooLarge,
}

impl View for Error {
    type V = ErrorKind;

    open spec fn view(&self) -> ErrorKind {
        match self {
            Error::FileNotFound(p) => ErrorKind::FileNotFound(p@),
            Error::Image(_) => ErrorKind::Image,
            Error::NotFound => ErrorKind::NotFound,
            Error::TooLarge => ErrorKind::TooLarge,
        }
    }
}

} // verus!
