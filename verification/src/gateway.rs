//! The gateway that everything is fetched from.

use vstd::prelude::*;
use vstd::string::StringExecFns;

verus! {

/// The address of what is stored under an identifier.
pub open spec fn address(id: Seq<char>) -> Seq<char> {
    "https://arweave.net/"@ + id
}

/// The address of what is stored under an identifier.
pub fn address_of(id: &str) -> (r: String)
    ensures
        r@ == address(id@),
        r@ == "https://arweave.net/"@ + id@,
{
    let mut r: String = "https://arweave.net/".to_string();
    r.append(id);
    r
}

/// What an `http::StatusCode` displays: the number and the reason phrase.
pub uninterp spec fn status_text(code: int) -> Seq<char>;

/// Displays a status code with `http::StatusCode`.
///
/// Claimed: the text depends on the code alone. Codes of three digits are the
/// ones that `http::StatusCode::from_u16` takes.
#[verifier::external_body]
pub(crate) fn display_status(code: u16) -> (r: String)
    requires
        100 <= code <= 999,
    ensures
        r@ == status_text(code as int),
{
    http::StatusCode::from_u16(code).unwrap().to_string()
}

/// Whether a status code says that the request succeeded.
pub open spec fn is_success(code: int) -> bool {
    200 <= code <= 299
}

/// What is reported of a fetch that was answered with a failure.
pub open spec fn fetch_failure(status: Seq<char>) -> Seq<char> {
    "Failed to fetch ZIP from Arweave: "@ + status
}

/// What is reported of a fetch that was answered with a failure.
pub fn fetch_failure_text(status: &str) -> (r: String)
    ensures
        r@ == fetch_failure(status@),
{
    let mut r: String = "Failed to fetch ZIP from Arweave: ".to_string();
    r.append(status);
    r
}

/// Judges the status that the gateway answered the request for an archive with:
/// the body counts if and only if the status is one of success.
pub fn fetch_zip(status: u16) -> (r: Result<(), String>)
    requires
        100 <= status <= 999,
    ensures
        r is Ok <==> is_success(status as int),
        r is Ok <==> 200 <= status <= 299,
        r matches Err(message) ==> message@ == fetch_failure(status_text(status as int)),
        r matches Err(message) ==> message@ == "Failed to fetch ZIP from Arweave: "@ + status_text(
            status as int,
        ),
{
    if 200 <= status && status <= 299 {
        Ok(())
    } else {
        Err(fetch_failure_text(display_status(status).as_str()))
    }
}

/// The address of what is stored under an identifier is the gateway's, followed
/// by the identifier as it is.
pub proof fn law_address_ends_in_identifier(id: Seq<char>)
    ensures
        address(id).len() == 20 + id.len(),
        address(id).take(20) == "https://arweave.net/"@,
        address(id).skip(20) == id,
{
    reveal_strlit("https://arweave.net/");
    assert(address(id).take(20) =~= "https://arweave.net/"@);
    assert(address(id).skip(20) =~= id);
}

/// Different identifiers have different addresses.
pub proof fn law_addresses_differ(id: Seq<char>, other: Seq<char>)
    requires
        address(id) == address(other),
    ensures
        id == other,
{
    law_address_ends_in_identifier(id);
    law_address_ends_in_identifier(other);
}

/// A status is one of success if and only if its first digit of three is a two.
pub proof fn law_success_starts_with_two(code: int)
    requires
        100 <= code <= 999,
    ensures
        is_success(code) <==> code / 100 == 2,
{
}

/// A failed fetch is reported with the whole status.
pub proof fn law_fetch_failure_tells_status(status: Seq<char>)
    ensures
        fetch_failure(status).len() == 34 + status.len(),
        fetch_failure(status).take(34) == "Failed to fetch ZIP from Arweave: "@,
        fetch_failure(status).skip(34) == status,
{
    reveal_strlit("Failed to fetch ZIP from Arweave: ");
    assert(fetch_failure(status).take(34) =~= "Failed to fetch ZIP from Arweave: "@);
    assert(fetch_failure(status).skip(34) =~= status);
}

} // verus!
