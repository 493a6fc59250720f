use vstd::prelude::*;

verus! {

use crate::cloud_client::dropbox::responses::list_folder::{
    decode_listing_text,
    spec_listing_names,
};
use crate::errors::AppError;

/// The transport status a successful call answers with.
pub open spec fn spec_success_status(status: u16) -> bool {
    status == 200
}

/// The reason reported for a rejected call, by transport status: a bad
/// request points at the paths, an unauthorized one at the token, and
/// anything else says only that something went wrong.
pub open spec fn spec_status_reason(status: u16) -> Seq<char> {
    if status == 400 {
        "check your input paths"@
    } else if status == 401 {
        "check your access token"@
    } else {
        "something went wrong"@
    }
}

/// Maps a non-success transport status to the error surfaced for it.
pub fn map_error_status(status: u16) -> (r: AppError)
    ensures
        r matches AppError::Request(s) && s@ == spec_status_reason(status),
{
    if status == 400 {
        AppError::Request(String::from_str("check your input paths"))
    } else if status == 401 {
        AppError::Request(String::from_str("check your access token"))
    } else {
        AppError::Request(String::from_str("something went wrong"))
    }
}

/// Decides a call whose success carries no payload (download status, upload,
/// delete): success exactly on the success status, and otherwise the error
/// the status maps to.
pub fn status_outcome(status: u16) -> (r: Result<(), AppError>)
    ensures
        r is Ok <==> spec_success_status(status),
        r matches Err(e) ==> e matches AppError::Request(s) && s@ == spec_status_reason(status),
{
    if status == 200 {
        Result::Ok(())
    } else {
        Result::Err(map_error_status(status))
    }
}

/// Decides a listing call from its transport status and payload text: a
/// non-success status maps to its request error; on the success status the
/// payload's materialized page is returned exactly when the payload decodes,
/// and otherwise the response error.
pub fn list_outcome(status: u16, body: &str) -> (r: Result<Vec<String>, AppError>)
    ensures
        r is Ok ==> spec_success_status(status),
        !spec_success_status(status) ==> (r matches Err(e) && e matches AppError::Request(s)
            && s@ == spec_status_reason(status)),
        spec_success_status(status) ==> match spec_listing_names(body@) {
            Some(names) => r matches Ok(v) && v.deep_view() == names,
            None => r matches Err(e) && e matches AppError::Response(s) && s@
                == "unable to get response content"@,
        },
{
    if status != 200 {
        return Result::Err(map_error_status(status));
    }
    let result = match decode_listing_text(body) {
        Option::Some(l) => l,
        Option::None => {
            return Result::Err(
                AppError::Response(String::from_str("unable to get response content")),
            );
        },
    };
    Result::Ok(result.get_simple_list())
}

/// The authorization header value derived from the access token.
pub fn authorization_header_value(token: &str) -> (r: String)
    ensures
        r@ == "Bearer "@ + token@,
{
    String::from_str("Bearer ").concat(token)
}

/// The name of the header that carries call parameters on content endpoints.
pub fn dropbox_api_header() -> (r: &'static str)
    ensures
        r@ == "Dropbox-API-Arg"@,
{
    "Dropbox-API-Arg"
}

} // verus!
