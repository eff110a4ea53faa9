//! The typed responses decoded from the remote endpoint's JSON.  An error
//! code of zero is the success predicate; the remaining fields carry whatever
//! the endpoint reported.

use crate::media::MediaType;
use crate::media::media_name;
use vstd::prelude::*;

verus! {

/// The result of sending a message: the endpoint's error code and message.
/// A code of zero means success.
#[derive(Debug, Clone, PartialEq, Eq)]
pub struct SendResp {
    /// Zero on success, nonzero on an in-body logical error.
    pub err_code: i64,
    /// The endpoint's description of the error, if any.
    pub err_msg: String,
}

impl Default for SendResp {
    fn default() -> (r: SendResp)
        ensures
            r.err_code == 0,
            r.err_msg@ == Seq::<char>::empty(),
    {
        SendResp { err_code: 0, err_msg: String::new() }
    }
}

/// The result of uploading a media file.  A default value stands for
/// "success, nothing uploaded yet".
#[derive(Debug, Clone, PartialEq, Eq)]
pub struct UploadResp {
    /// Zero on success, nonzero on an in-body logical error.
    pub err_code: i64,
    /// The endpoint's description of the error, if any.
    pub err_msg: String,
    /// The kind of the uploaded media, as the endpoint reports it.
    pub media_type: String,
    /// The endpoint-issued reference usable in a later file message.
    pub media_id: String,
    /// When the media file was created, as the endpoint reports it.
    pub created_at: String,
}

impl Default for UploadResp {
    fn default() -> (r: UploadResp)
        ensures
            r.err_code == 0,
            r.err_msg@ == "success"@,
            r.media_type@ == media_name(MediaType::File),
            r.media_id@ == Seq::<char>::empty(),
            r.created_at@ == Seq::<char>::empty(),
    {
        UploadResp {
            err_code: 0,
            err_msg: "success".to_owned(),
            media_type: MediaType::File.to_str(),
            media_id: String::new(),
            created_at: String::new(),
        }
    }
}

impl UploadResp {
    /// The "success, nothing uploaded yet" value.
    pub fn new() -> (r: UploadResp)
        ensures
            r.err_code == 0,
            r.err_msg@ == "success"@,
            r.media_type@ == media_name(MediaType::File),
            r.media_id@ == Seq::<char>::empty(),
            r.created_at@ == Seq::<char>::empty(),
    {
        UploadResp::default()
    }

    /// Whether the endpoint reported success.
    pub fn is_ok(&self) -> (r: bool)
        ensures
            r == (self.err_code == 0),
    {
        self.err_code == 0
    }
}

} // verus!
