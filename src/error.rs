use vstd::prelude::*;

verus! {

/// What can go wrong while building one composite.
#[derive(Debug, Clone, Copy, PartialEq, Eq, Structural)]
pub enum AppError {
    /// A source picture is missing or cannot be decoded.
    NotFound,
    /// The two pictures of a pair do not share one width.
    MismatchSize,
    /// The composite could not be written.
    CouldntSaveFile,
    /// The palette has no entry at the index that a color is taken from.
    PaletteIndexOutOfRange,
}

/// The error that the image crate reports when a picture cannot be opened,
/// decoded or encoded.
#[verifier::external_type_specification]
#[verifier::external_body]
pub struct ExImageError(image::ImageError);

/// The error of a failed read or write.
#[verifier::external_type_specification]
#[verifier::external_body]
pub struct ExIoError(std::io::Error);

impl From<image::ImageError> for AppError {
    fn from(_error: image::ImageError) -> (r: AppError)
        ensures
            r == AppError::NotFound,
    {
        AppError::NotFound
    }
}

impl vstd::std_specs::convert::FromSpecImpl<image::ImageError> for AppError {
    open spec fn obeys_from_spec() -> bool {
        true
    }

    open spec fn from_spec(v: image::ImageError) -> AppError {
        AppError::NotFound
    }
}

impl From<std::io::Error> for AppError {
    fn from(_error: std::io::Error) -> (r: AppError)
        ensures
            r == AppError::CouldntSaveFile,
    {
        AppError::CouldntSaveFile
    }
}

impl vstd::std_specs::convert::FromSpecImpl<std::io::Error> for AppError {
    open spec fn obeys_from_spec() -> bool {
        true
    }

    open spec fn from_spec(v: std::io::Error) -> AppError {
        AppError::CouldntSaveFile
    }
}

} // verus!
