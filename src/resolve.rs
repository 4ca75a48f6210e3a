//! What one image needs before it can be written: its bytes decoded from
//! base64 text, or a fetch from its link; and the errors of a save.

use vstd::prelude::*;
use vstd::string::StringExecFns;
use crate::naming::{decimal, decimal_text};
use crate::types::ImageData;

verus! {

#[verifier::external_type_specification]
#[verifier::external_body]
pub struct ExDecodeError(base64::DecodeError);

/// The bytes that standard, padded base64 text stands for, or `None` where the
/// text is not valid base64.
pub uninterp spec fn base64_decoded(text: Seq<char>) -> Option<Seq<u8>>;

/// Relies on `base64::decode` (standard alphabet, padding required): its
/// outcome depends on the text alone.
#[verifier::external_body]
fn decode_base64(text: &str) -> (r: Result<Vec<u8>, base64::DecodeError>)
    ensures
        match r {
            Ok(bytes) => base64_decoded(text@) == Some(bytes@),
            Err(_) => base64_decoded(text@) is None,
        },
{
    base64::decode(text)
}

/// Relies on the `Display` impl of `base64::DecodeError` for a readable message.
#[verifier::external_body]
fn decode_error_text(e: &base64::DecodeError) -> String {
    e.to_string()
}

/// Why a save, or the saving of one image, failed. Each variant carries a
/// readable detail.
#[derive(Clone, Debug)]
pub enum AssetError {
    /// The target directory could not be checked or created.
    Directory(String),
    /// Inline image text was not valid base64.
    Decode(String),
    /// An image link could not be fetched.
    Fetch(String),
    /// An image file could not be written.
    Write(String),
    /// The task that saved an image did not run to completion.
    Task(String),
}

/// The words that open the message of each kind of error.
pub open spec fn error_prefix(e: AssetError) -> Seq<char> {
    match e {
        AssetError::Directory(_) => "cannot prepare directory: "@,
        AssetError::Decode(_) => "cannot decode image: "@,
        AssetError::Fetch(_) => "cannot fetch image: "@,
        AssetError::Write(_) => "cannot write image: "@,
        AssetError::Task(_) => "image task failed: "@,
    }
}

/// The detail that an error carries.
pub open spec fn error_detail(e: AssetError) -> Seq<char> {
    match e {
        AssetError::Directory(d) => d@,
        AssetError::Decode(d) => d@,
        AssetError::Fetch(d) => d@,
        AssetError::Write(d) => d@,
        AssetError::Task(d) => d@,
    }
}

/// The message of an error: its kind's opening words, then its detail.
pub open spec fn error_message(e: AssetError) -> Seq<char> {
    error_prefix(e) + error_detail(e)
}

impl AssetError {
    /// The message of this error, as reported among the reasons of a failed save.
    pub fn message(&self) -> (r: String)
        ensures
            r@ == error_message(*self),
    {
        let (prefix, detail) = match self {
            AssetError::Directory(d) => ("cannot prepare directory: ", d),
            AssetError::Decode(d) => ("cannot decode image: ", d),
            AssetError::Fetch(d) => ("cannot fetch image: ", d),
            AssetError::Write(d) => ("cannot write image: ", d),
            AssetError::Task(d) => ("image task failed: ", d),
        };
        let mut text = String::from_str(prefix);
        text.append(detail.as_str());
        text
    }
}

/// The bytes of an image, or where to fetch them.
#[derive(Clone, Debug)]
pub enum Payload {
    Bytes(Vec<u8>),
    Fetch(String),
}

/// A link is handed on to be fetched; inline text is decoded from base64, and
/// fails with a decode error exactly where the text is not valid base64.
pub open spec fn payload_matches(source: ImageData, r: Result<Payload, AssetError>) -> bool {
    match source {
        ImageData::Url(url) => r matches Ok(Payload::Fetch(u)) && u == url,
        ImageData::B64Json(text) => match base64_decoded(text@) {
            Some(bytes) => r matches Ok(Payload::Bytes(b)) && b@ == bytes,
            None => r matches Err(AssetError::Decode(_)),
        },
    }
}

/// What must happen to obtain the bytes of `source`.
pub fn payload_of(source: &ImageData) -> (r: Result<Payload, AssetError>)
    ensures
        payload_matches(*source, r),
{
    match source {
        ImageData::Url(url) => Ok(Payload::Fetch(url.clone())),
        ImageData::B64Json(text) => match decode_base64(text.as_str()) {
            Ok(bytes) => Ok(Payload::Bytes(bytes)),
            Err(e) => Err(AssetError::Decode(decode_error_text(&e))),
        },
    }
}

/// Whether an HTTP status reports success: the 2xx range.
pub open spec fn status_is_success(status: u16) -> bool {
    200 <= status < 300
}

/// The detail of the error for a fetch that was answered with a status
/// other than success.
pub open spec fn status_failure_detail(url: Seq<char>, status: u16) -> Seq<char> {
    url + " answered with status "@ + decimal(status as nat)
}

/// Accepts the answer to a fetch of `url` when its status is a success, and
/// otherwise gives the fetch error that names the link and the status.
pub fn check_fetch_status(url: &str, status: u16) -> (r: Result<(), AssetError>)
    ensures
        r is Ok <==> status_is_success(status),
        !status_is_success(status) ==> (r matches Err(AssetError::Fetch(d)) && d@
            == status_failure_detail(url@, status)),
{
    if 200 <= status && status < 300 {
        Ok(())
    } else {
        let mut detail = String::from_str(url);
        detail.append(" answered with status ");
        let digits = decimal_text(status as usize);
        detail.append(digits.as_str());
        Err(AssetError::Fetch(detail))
    }
}

} // verus!
