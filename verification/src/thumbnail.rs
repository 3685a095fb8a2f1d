//! Media-kind classification and the thumbnail generation error taxonomy.
//!
//! A file is eligible for a rich thumbnail only if its extension is on a
//! fixed, case-sensitive allowlist; everything else is a deliberate
//! `NotRich` outcome, not a failure. Failures during generation are
//! classified so the route layer can map each to a status and a short
//! user-facing message.

use vstd::prelude::*;
use crate::error::IoKind;
use crate::text::str_eq;

verus! {

/// The kind of media a source file holds, derived from its extension.
#[derive(Clone, Copy, Debug, PartialEq, Eq, Structural)]
pub enum Type {
    Image,
    Video,
}

/// Extensions decoded as still images.
pub open spec fn spec_is_image_extension(s: Seq<char>) -> bool {
    ||| s == "avif"@
    ||| s == "jpg"@
    ||| s == "jpeg"@
    ||| s == "png"@
    ||| s == "gif"@
    ||| s == "webp"@
    ||| s == "tif"@
    ||| s == "tiff"@
    ||| s == "tga"@
    ||| s == "dds"@
    ||| s == "bmp"@
    ||| s == "ico"@
    ||| s == "hdr"@
    ||| s == "exr"@
    ||| s == "pbm"@
    ||| s == "pam"@
    ||| s == "ppm"@
    ||| s == "pgm"@
    ||| s == "ff"@
    ||| s == "farbfeld"@
}

/// Extensions decoded as videos.
pub open spec fn spec_is_video_extension(s: Seq<char>) -> bool {
    ||| s == "mkv"@
    ||| s == "webm"@
    ||| s == "mp4"@
    ||| s == "3gp"@
    ||| s == "mpeg"@
    ||| s == "mp2"@
    ||| s == "mpe"@
    ||| s == "mpv"@
    ||| s == "ogg"@
    ||| s == "avi"@
    ||| s == "m4p"@
    ||| s == "m4v"@
    ||| s == "mov"@
}

/// The media kind an extension maps to, if any; image extensions are
/// consulted first.
pub open spec fn spec_from_extension(s: Seq<char>) -> Option<Type> {
    if spec_is_image_extension(s) {
        Some(Type::Image)
    } else if spec_is_video_extension(s) {
        Some(Type::Video)
    } else {
        None
    }
}

impl Type {
    /// Classifies a file extension against the fixed, case-sensitive
    /// allowlist; an extension on neither list is not eligible for a rich
    /// thumbnail.
    pub fn from_extension(extension: &str) -> (r: Option<Self>)
        ensures
            r == spec_from_extension(extension@),
    {
        if str_eq(extension, "avif") || str_eq(extension, "jpg") || str_eq(extension, "jpeg")
            || str_eq(extension, "png") || str_eq(extension, "gif") || str_eq(extension, "webp")
            || str_eq(extension, "tif") || str_eq(extension, "tiff") || str_eq(extension, "tga")
            || str_eq(extension, "dds") || str_eq(extension, "bmp") || str_eq(extension, "ico")
            || str_eq(extension, "hdr") || str_eq(extension, "exr") || str_eq(extension, "pbm")
            || str_eq(extension, "pam") || str_eq(extension, "ppm") || str_eq(extension, "pgm")
            || str_eq(extension, "ff") || str_eq(extension, "farbfeld") {
            Some(Type::Image)
        } else if str_eq(extension, "mkv") || str_eq(extension, "webm")
            || str_eq(extension, "mp4") || str_eq(extension, "3gp") || str_eq(extension, "mpeg")
            || str_eq(extension, "mp2") || str_eq(extension, "mpe") || str_eq(extension, "mpv")
            || str_eq(extension, "ogg") || str_eq(extension, "avi") || str_eq(extension, "m4p")
            || str_eq(extension, "m4v") || str_eq(extension, "mov") {
            Some(Type::Video)
        } else {
            None
        }
    }
}

/// The route layer's gate: a source whose extension is not on the
/// allowlist is answered with `NotRich` outright and never reaches the
/// media extractor; an eligible source's kind is passed on.
pub fn thumbnail_eligibility(extension: Option<&str>) -> (r: Result<Type, GenerateError>)
    ensures
        match extension {
            Some(e) => match spec_from_extension(e@) {
                Some(kind) => r == Ok::<Type, GenerateError>(kind),
                None => r == Err::<Type, GenerateError>(GenerateError::NotRich),
            },
            None => r == Err::<Type, GenerateError>(GenerateError::NotRich),
        },
{
    match extension {
        Some(e) => match Type::from_extension(e) {
            Some(kind) => Ok(kind),
            None => Err(GenerateError::NotRich),
        },
        None => Err(GenerateError::NotRich),
    }
}

/// Why a thumbnail could not be generated, or that the source was never
/// eligible for one.
#[derive(Clone, Copy, Debug, PartialEq, Eq)]
pub enum GenerateError {
    /// The source's extension is not on the allowlist: a deliberate no-op
    /// outcome, not a failure.
    NotRich,
    /// An underlying I/O failure, with a label for the operation that
    /// raised it.
    Io { context: &'static str, kind: IoKind },
    /// The decode backend could not parse the media.
    Decode,
    /// The pipeline exceeded its time budget.
    Timeout,
    /// The media decoded cleanly but produced no frame.
    Empty,
    /// The backend reported that no suitable decoder plugin exists.
    Unsupported,
    /// Any other pipeline failure.
    Backend,
}

/// HTTP status for a generation outcome: everything is the client's problem
/// (404) except an I/O failure other than a missing file.
pub open spec fn spec_generate_error_status(e: GenerateError) -> u16 {
    match e {
        GenerateError::Io { context, kind } => crate::error::spec_io_status(kind),
        _ => 404u16,
    }
}

impl GenerateError {
    /// The HTTP status this outcome maps to.
    pub fn status(&self) -> (s: u16)
        ensures
            s == spec_generate_error_status(*self),
    {
        match self {
            GenerateError::Io { context, kind } => {
                match kind {
                    IoKind::NotFound => 404,
                    IoKind::Other => 500,
                }
            },
            _ => 404,
        }
    }

    /// The short diagnostic shown to the requester; an I/O failure is
    /// described by its operation label instead.
    pub fn message(&self) -> (m: &'static str)
        ensures
            *self is NotRich ==> m@ == "file type does not support rich thumbnails"@,
            *self is Io ==> m@ == self->Io_context@,
            *self is Decode ==> m@ == "could not decode media"@,
            *self is Timeout ==> m@ == "thumbnail generation timed out"@,
            *self is Empty ==> m@ == "video has no frames"@,
            *self is Unsupported ==> m@ == "file format not supported"@,
            *self is Backend ==> m@ == "media pipeline error"@,
    {
        match self {
            GenerateError::NotRich => "file type does not support rich thumbnails",
            GenerateError::Io { context, kind } => context,
            GenerateError::Decode => "could not decode media",
            GenerateError::Timeout => "thumbnail generation timed out",
            GenerateError::Empty => "video has no frames",
            GenerateError::Unsupported => "file format not supported",
            GenerateError::Backend => "media pipeline error",
        }
    }
}

} // verus!
