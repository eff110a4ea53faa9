//! The webhook client's verified core: the error taxonomy, the builder that
//! validates the webhook key and derives the two endpoint URLs, and the rule
//! that classifies one HTTP exchange's outcome.  The HTTP transport itself
//! lives outside the library and hands plain values in and out.

use crate::text::dec_of;
use crate::text::is_blank;
use crate::text::is_blank_chars;
use crate::text::write_dec_u16;
use vstd::prelude::*;
use vstd::string::StringExecFns;

verus! {

/// Everything that can go wrong in this library, each kind carrying plain
/// values that describe it.
#[derive(Debug, Clone, PartialEq, Eq)]
pub enum WeComError {
    /// The webhook key was never supplied, or is empty or all white space.
    KeyNotFound,
    /// The HTTP exchange failed to complete; carries the transport's message.
    Network { message: String },
    /// The response status was a server error (5xx).
    Http { status: u16 },
    /// The response body was not valid JSON for the expected type, whose name
    /// is carried for diagnostics.
    DataType { typename: String },
    /// An image file could not be opened or read.
    ImageRead { message: String },
    /// An upload file could not be opened or read.
    FileRead { message: String },
    /// An unrecognised media-kind string, carried as supplied.
    MediaType(String),
}

/// The diagnostic text of each error kind.
pub open spec fn error_text(e: WeComError) -> Seq<char> {
    match e {
        WeComError::KeyNotFound => "wecom bot key not set"@,
        WeComError::Network { message } => "network failed: "@ + message@,
        WeComError::Http { status } => "wecom bot server error: "@ + dec_of(status as int),
        WeComError::DataType { typename } => "could not parse "@ + typename@
            + " data from JSON"@,
        WeComError::ImageRead { message } => "failed to read image file: "@ + message@,
        WeComError::FileRead { message } => "failed to read upload file: "@ + message@,
        WeComError::MediaType(s) => "unknown upload media type: "@ + s@,
    }
}

impl WeComError {
    /// The diagnostic text of this error.
    pub fn message(&self) -> (r: String)
        ensures
            r@ == error_text(*self),
    {
        match self {
            WeComError::KeyNotFound => "wecom bot key not set".to_owned(),
            WeComError::Network { message } => {
                let mut out = "network failed: ".to_owned();
                out.append(message.as_str());
                out
            },
            WeComError::Http { status } => {
                let mut out = "wecom bot server error: ".to_owned();
                write_dec_u16(&mut out, *status);
                out
            },
            WeComError::DataType { typename } => {
                let mut out = "could not parse ".to_owned();
                out.append(typename.as_str());
                out.append(" data from JSON");
                assert(out@ =~= error_text(*self));
                out
            },
            WeComError::ImageRead { message } => {
                let mut out = "failed to read image file: ".to_owned();
                out.append(message.as_str());
                out
            },
            WeComError::FileRead { message } => {
                let mut out = "failed to read upload file: ".to_owned();
                out.append(message.as_str());
                out
            },
            WeComError::MediaType(s) => {
                let mut out = "unknown upload media type: ".to_owned();
                out.append(s.as_str());
                out
            },
        }
    }
}

/// The fixed base endpoint that messages are sent to.
pub const WECOM_SEND_URL: &'static str = "https://qyapi.weixin.qq.com/cgi-bin/webhook/send";

/// The fixed base endpoint that media files are uploaded to.
pub const WECOM_UPLOAD_URL: &'static str =
    "https://qyapi.weixin.qq.com/cgi-bin/webhook/upload_media";

/// The send URL derived from a webhook key.
pub open spec fn spec_send_url(key: Seq<char>) -> Seq<char> {
    WECOM_SEND_URL@ + "?key="@ + key
}

/// The upload base URL derived from a webhook key; the media kind's `type`
/// parameter is appended later, per upload.
pub open spec fn spec_upload_base_url(key: Seq<char>) -> Seq<char> {
    WECOM_UPLOAD_URL@ + "?key="@ + key
}

/// The configured endpoints of one webhook client, derived from its key.
/// The HTTP layer that drives them lives outside the library.
#[derive(Debug)]
pub struct WeComBot {
    /// Where messages are posted.
    pub url: String,
    /// Where media uploads are posted, before the `type` parameter.
    pub upload_base_url: String,
}

impl WeComBot {
    /// A builder for a webhook client configuration.
    pub fn builder() -> (b: WeComBotBuilder)
        ensures
            b.key is None,
    {
        WeComBotBuilder::new()
    }
}

/// Collects the webhook key and validates it when the configuration is built.
#[derive(Debug)]
pub struct WeComBotBuilder {
    /// The webhook key supplied so far, if any.
    pub key: Option<String>,
}

impl Default for WeComBotBuilder {
    fn default() -> (b: WeComBotBuilder)
        ensures
            b.key is None,
    {
        WeComBotBuilder { key: None }
    }
}

impl WeComBotBuilder {
    /// A builder with no key supplied yet.
    pub fn new() -> (b: WeComBotBuilder)
        ensures
            b.key is None,
    {
        WeComBotBuilder { key: None }
    }

    /// Sets the webhook key the client will embed in both endpoint URLs.
    pub fn key(self, key: &str) -> (b: WeComBotBuilder)
        ensures
            b.key matches Some(k) && k@ == key@,
    {
        WeComBotBuilder { key: Some(key.to_owned()) }
    }

    /// Builds the configuration.  Fails with the configuration error when no
    /// key was supplied or the key is blank; otherwise both endpoint URLs are
    /// the fixed bases with `?key=<key>` appended.
    pub fn build(self) -> (r: Result<WeComBot, WeComError>)
        ensures
            match self.key {
                None => r == Err::<WeComBot, WeComError>(WeComError::KeyNotFound),
                Some(k) => {
                    if is_blank_chars(k@) {
                        r == Err::<WeComBot, WeComError>(WeComError::KeyNotFound)
                    } else {
                        r matches Ok(bot) && bot.url@ == spec_send_url(k@)
                            && bot.upload_base_url@ == spec_upload_base_url(k@)
                    }
                },
            },
    {
        match self.key {
            None => Err(WeComError::KeyNotFound),
            Some(k) => {
                if is_blank(k.as_str()) {
                    Err(WeComError::KeyNotFound)
                } else {
                    let mut url = WECOM_SEND_URL.to_owned();
                    url.append("?key=");
                    url.append(k.as_str());
                    let mut upload_base_url = WECOM_UPLOAD_URL.to_owned();
                    upload_base_url.append("?key=");
                    upload_base_url.append(k.as_str());
                    assert(url@ =~= spec_send_url(k@));
                    assert(upload_base_url@ =~= spec_upload_base_url(k@));
                    Ok(WeComBot { url, upload_base_url })
                }
            },
        }
    }
}

/// Whether an HTTP status is a server error (5xx).
pub open spec fn is_server_error(status: u16) -> bool {
    500 <= status < 600
}

/// Classifies one HTTP exchange.  A 5xx status is a server error whatever the
/// body held; any other status with a decoded body hands the body through
/// unchanged, even when its own error code is nonzero; any other status whose
/// body did not decode is a decode error carrying the expected type's name.
pub fn response_outcome<T>(status: u16, decoded: Option<T>, typename: &str) -> (r: Result<
    T,
    WeComError,
>)
    ensures
        is_server_error(status) ==> r == Err::<T, WeComError>(WeComError::Http { status }),
        !is_server_error(status) ==> match decoded {
            Some(v) => r == Ok::<T, WeComError>(v),
            None => r matches Err(WeComError::DataType { typename: t }) && t@ == typename@,
        },
{
    if 500 <= status && status < 600 {
        Err(WeComError::Http { status })
    } else {
        match decoded {
            Some(v) => Ok(v),
            None => Err(WeComError::DataType { typename: typename.to_owned() }),
        }
    }
}

} // verus!
