//! The type of an image fetched for relaying, read from its content type.
use vstd::prelude::*;

verus! {

#[verifier::external_type_specification]
#[verifier::external_body]
pub struct ExMime(mime::Mime);

#[verifier::external_type_specification]
#[verifier::external_body]
pub struct ExFromStrError(mime::FromStrError);

/// Whether the parser of the `mime` crate accepts `s` as a media type.
pub uninterp spec fn is_valid_mime(s: Seq<char>) -> bool;

/// Relies on `<mime::Mime as FromStr>::from_str`: it succeeds exactly on the
/// texts that the crate's parser accepts, which depends on the text alone.
#[verifier::external_body]
fn parse_mime(s: &str) -> (r: Result<mime::Mime, mime::FromStrError>)
    ensures
        r is Ok <==> is_valid_mime(s@),
{
    s.parse::<mime::Mime>()
}

#[derive(Debug, Clone, Copy, PartialEq, Eq, Structural)]
pub enum AttachmentError {
    /// The response named no content type.
    MissingContentType,
    /// The content type is no valid media type.
    InvalidContentType,
}

/// The media type of an attachment, from the content type that came with its
/// bytes.
pub fn attachment_mime(content_type: Option<&str>) -> (r: Result<mime::Mime, AttachmentError>)
    ensures
        content_type is None ==> r matches Err(AttachmentError::MissingContentType),
        content_type matches Some(s) ==> {
            &&& (r is Ok <==> is_valid_mime(s@))
            &&& (r is Err ==> r matches Err(AttachmentError::InvalidContentType))
        },
{
    match content_type {
        None => Err(AttachmentError::MissingContentType),
        Some(s) => match parse_mime(s) {
            Ok(m) => Ok(m),
            Err(_) => Err(AttachmentError::InvalidContentType),
        },
    }
}

} // verus!
