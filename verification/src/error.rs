use vstd::prelude::*;

verus! {

/// Failure taxonomy of the compositing core.
///
/// Construction-time failures (a malformed template) surface as
/// `TemplateError`; request-time failures keep their own variants so that a
/// front end can tell a missing avatar role from a decoding problem.
#[derive(Debug, Clone)]
pub enum Error {
    /// A source image could not be decoded.
    ImageDecodeError(String),
    /// A frame could not be synthesized (for example a non-positive canvas).
    ImageSynthesisError(String),
    /// The encoded container could not be produced.
    ImageEncodeError(String),
    /// A referenced file was missing or unreadable.
    FileError(String),
    /// The template itself is malformed or inconsistent.
    TemplateError(String),
    /// A bound avatar source decoded to zero usable frames.
    AvatarLoadError(String),
    /// A geometry expression failed to evaluate.
    EvalPosError(String),
    /// A required avatar or text role has no bound source.
    MissingDataError(String),
    /// A template or request payload could not be parsed.
    SerializationError(String),
}

/// The message carried by an error, whatever its variant.
pub open spec fn spec_message(e: Error) -> Seq<char> {
    match e {
        Error::ImageDecodeError(m) => m@,
        Error::ImageSynthesisError(m) => m@,
        Error::ImageEncodeError(m) => m@,
        Error::FileError(m) => m@,
        Error::TemplateError(m) => m@,
        Error::AvatarLoadError(m) => m@,
        Error::EvalPosError(m) => m@,
        Error::MissingDataError(m) => m@,
        Error::SerializationError(m) => m@,
    }
}

impl Error {
    /// The human-readable message carried by this error.
    pub fn message(&self) -> (r: String)
        ensures
            r@ == spec_message(*self),
    {
        match self {
            Error::ImageDecodeError(m) => m.clone(),
            Error::ImageSynthesisError(m) => m.clone(),
            Error::ImageEncodeError(m) => m.clone(),
            Error::FileError(m) => m.clone(),
            Error::TemplateError(m) => m.clone(),
            Error::AvatarLoadError(m) => m.clone(),
            Error::EvalPosError(m) => m.clone(),
            Error::MissingDataError(m) => m.clone(),
            Error::SerializationError(m) => m.clone(),
        }
    }
}

} // verus!
