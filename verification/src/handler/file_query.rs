//! Listing of the files a user has sent.

use crate::dtos::{RequestQueryDto, UserSendFileDto, UserSendFileListResponseDto};
use crate::models::SendFileDetails;
use vstd::prelude::*;
use vstd::string::StringExecFns;

verus! {

/// Page shown where the request names none.
pub const DEFAULT_PAGE: usize = 1;

/// Rows on a page where the request names no number.
pub const DEFAULT_LIMIT: usize = 10;

/// The page and the number of rows that a listing request asks for. The
/// page is cut to 32 bits, as the store takes it.
pub fn paging(query_params: &RequestQueryDto) -> (asked: (u32, usize))
    ensures
        asked.0 == (match query_params.page {
            Some(page) => page,
            None => DEFAULT_PAGE,
        }) as u32,
        asked.1 == (match query_params.limit {
            Some(limit) => limit,
            None => DEFAULT_LIMIT,
        }),
{
    let page = match query_params.page {
        Some(page) => page,
        None => DEFAULT_PAGE,
    };
    let limit = match query_params.limit {
        Some(limit) => limit,
        None => DEFAULT_LIMIT,
    };
    (#[verifier::truncate] (page as u32), limit)
}

/// The body that lists the files a user has sent: each row as shown to the
/// sender, in the order of the rows, with the total that the store counted.
pub fn get_user_shared_files(shared_files: &[SendFileDetails], total_count: i64) -> (body:
    UserSendFileListResponseDto)
    requires
        forall|i: int|
            0 <= i < shared_files@.len() ==> (#[trigger] shared_files@[i]).expiration_date is Some
                && shared_files@[i].created_at is Some,
    ensures
        body.status@ == "successful"@,
        body.results == total_count,
        body.files@.len() == shared_files@.len(),
        forall|i: int|
            0 <= i < shared_files@.len() ==> (#[trigger] body.files@[i]).shows(shared_files@[i]),
{
    UserSendFileListResponseDto {
        status: String::from_str("successful"),
        files: UserSendFileDto::filter_send_user_files(shared_files),
        results: total_count,
    }
}

} // verus!
