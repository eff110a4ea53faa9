//! The closed set of media kinds accepted by the upload endpoint, their
//! canonical lowercase names, parsing from free text, and the upload URL's
//! `type` query parameter.

use crate::bot::WeComError;
use crate::text::str_eq;
use std::str::FromStr;
use vstd::prelude::*;
use vstd::string::StringExecFns;

verus! {

/// The kind of media accepted by the upload endpoint.
#[derive(Clone, Copy, Debug, PartialEq, Eq, Structural)]
pub enum MediaType {
    /// A generic file.
    File,
    /// An image file.
    Image,
    /// A voice or audio file.
    Voice,
    /// A video file.
    Video,
}

/// The canonical lowercase name of a media kind.
pub open spec fn media_name(m: MediaType) -> Seq<char> {
    match m {
        MediaType::File => "file"@,
        MediaType::Image => "image"@,
        MediaType::Voice => "voice"@,
        MediaType::Video => "video"@,
    }
}

/// Which media kind a lowercase name denotes, if any.
pub open spec fn media_of_chars(s: Seq<char>) -> Option<MediaType> {
    if s == "file"@ {
        Some(MediaType::File)
    } else if s == "image"@ {
        Some(MediaType::Image)
    } else if s == "voice"@ {
        Some(MediaType::Voice)
    } else if s == "video"@ {
        Some(MediaType::Video)
    } else {
        None
    }
}

/// The lowercase form of a string, as str::to_lowercase computes it; the
/// result depends on the characters alone.
pub uninterp spec fn lower_of(s: Seq<char>) -> Seq<char>;

/// Relies on str::to_lowercase of std: the Unicode lowercase form, a function
/// of the characters alone.
#[verifier::external_body]
fn lowercase(s: &str) -> (r: String)
    ensures
        r@ == lower_of(s@),
{
    s.to_lowercase()
}

impl MediaType {
    /// The canonical lowercase name of this media kind.
    pub fn to_str(&self) -> (r: String)
        ensures
            r@ == media_name(*self),
    {
        match self {
            MediaType::File => "file".to_owned(),
            MediaType::Image => "image".to_owned(),
            MediaType::Voice => "voice".to_owned(),
            MediaType::Video => "video".to_owned(),
        }
    }

    /// The upload URL for this media kind: the base with `&type=<name>`
    /// appended.
    pub fn format_upload_url(&self, base: &str) -> (r: String)
        ensures
            r@ == base@ + "&type="@ + media_name(*self),
    {
        let mut url = base.to_owned();
        url.append("&type=");
        let name = self.to_str();
        url.append(name.as_str());
        assert(url@ =~= base@ + "&type="@ + media_name(*self));
        url
    }
}

/// Picks the media kind named by an already-lowercased string; on any other
/// string the error carries the original input.
pub fn media_from_lowered(lowered: &str, original: &str) -> (r: Result<MediaType, WeComError>)
    ensures
        match media_of_chars(lowered@) {
            Some(m) => r == Ok::<MediaType, WeComError>(m),
            None => r matches Err(WeComError::MediaType(s)) && s@ == original@,
        },
{
    if str_eq(lowered, "file") {
        Ok(MediaType::File)
    } else if str_eq(lowered, "image") {
        Ok(MediaType::Image)
    } else if str_eq(lowered, "voice") {
        Ok(MediaType::Voice)
    } else if str_eq(lowered, "video") {
        Ok(MediaType::Video)
    } else {
        Err(WeComError::MediaType(original.to_owned()))
    }
}

/// Parses a media kind from free text, ignoring case; an unrecognised input
/// comes back inside the error.
pub fn parse_media(s: &str) -> (r: Result<MediaType, WeComError>)
    ensures
        match media_of_chars(lower_of(s@)) {
            Some(m) => r == Ok::<MediaType, WeComError>(m),
            None => r matches Err(WeComError::MediaType(orig)) && orig@ == s@,
        },
{
    let lowered = lowercase(s);
    media_from_lowered(lowered.as_str(), s)
}

impl FromStr for MediaType {
    type Err = WeComError;

    fn from_str(s: &str) -> Result<MediaType, WeComError> {
        parse_media(s)
    }
}

} // verus!
