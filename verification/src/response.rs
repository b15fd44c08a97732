//! What the answer of the service means for each operation.

use crate::error::Failure;
use crate::listing::{blob_names, ends_malformed, name_views, names_in, xml_steps, Listing};
use vstd::prelude::*;
use vstd::slice::*;
use vstd::string::*;

verus! {

/// Whether a status reports success: 200 to 299.
pub open spec fn is_success(status: u16) -> bool {
    200 <= status <= 299
}

/// Whether a status reports success.
pub fn status_is_success(status: u16) -> (r: bool)
    ensures
        r == is_success(status),
{
    200 <= status && status <= 299
}

/// The outcome of a download: on success the bytes to store, exactly as
/// received; otherwise the rejection, with status and body.
pub fn download_outcome(status: u16, body: Vec<u8>) -> (r: Result<Vec<u8>, Failure>)
    ensures
        is_success(status) ==> r == Ok::<Vec<u8>, Failure>(body),
        !is_success(status) ==> r == Err::<Vec<u8>, Failure>(
            Failure::RemoteRejection { status, body },
        ),
{
    if status_is_success(status) {
        Ok(body)
    } else {
        Err(Failure::RemoteRejection { status, body })
    }
}

/// The outcome of an upload: success, or the rejection, with status and
/// body. The body is never parsed.
pub fn upload_outcome(status: u16, body: Vec<u8>) -> (r: Result<(), Failure>)
    ensures
        is_success(status) ==> r == Ok::<(), Failure>(()),
        !is_success(status) ==> r == Err::<(), Failure>(Failure::RemoteRejection { status, body }),
{
    if status_is_success(status) {
        Ok(())
    } else {
        Err(Failure::RemoteRejection { status, body })
    }
}

/// The outcome of a listing: on success the blob names of the body, with
/// the parse failure if the body is malformed; otherwise the rejection,
/// with status and the bytes of the body, which is then not parsed.
pub fn listing_outcome(status: u16, body: &str) -> (r: Result<Listing, Failure>)
    ensures
        match r {
            Ok(listing) => {
                &&& is_success(status)
                &&& name_views(listing.names@) == names_in(xml_steps(body@), false)
                &&& listing.failure == if ends_malformed(xml_steps(body@)) {
                    Some(Failure::ResponseParseError)
                } else {
                    None
                }
            },
            Err(failure) => {
                &&& !is_success(status)
                &&& failure matches Failure::RemoteRejection { status: s, body: b }
                &&& s == status
                &&& b@ == body.spec_bytes()
            },
        },
{
    if status_is_success(status) {
        Ok(blob_names(body))
    } else {
        Err(Failure::RemoteRejection { status, body: slice_to_vec(body.as_bytes()) })
    }
}

} // verus!
