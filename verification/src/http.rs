//! The trusted rim around the HTTP library: type declarations, names for what
//! its request construction produces, and the wrappers that call it.

use vstd::prelude::*;

verus! {

#[verifier::external_type_specification]
#[verifier::external_body]
pub struct ExClient(reqwest::Client);

#[verifier::external_type_specification]
#[verifier::external_body]
pub struct ExRequest(reqwest::Request);

#[verifier::external_type_specification]
#[verifier::external_body]
pub struct ExResponse(reqwest::Response);

#[verifier::external_type_specification]
#[verifier::external_body]
pub struct ExError(reqwest::Error);

/// What the HTTP library's url handling makes of a url text: it parses the
/// text, moves any `user:password@` authority part out (into a basic-auth
/// header), and serializes the rest in normalized form. That serialization is
/// what a built request carries for the text.
pub uninterp spec fn url_normalized(url: Seq<char>) -> Seq<char>;

/// Whether the HTTP library's url handling accepts a url text: whether it
/// parses as an absolute url it can send to.
pub uninterp spec fn url_accepted(url: Seq<char>) -> bool;

/// Whether the HTTP library accepts a header name's bytes as a header name.
pub uninterp spec fn header_name_accepted(name: Seq<char>) -> bool;

/// Whether the HTTP library accepts a header value's bytes as a header value.
pub uninterp spec fn header_value_accepted(value: Seq<char>) -> bool;

/// Whether a url text carries a `user:password@` part in its authority; for
/// such a text the HTTP library adds a basic-auth header of its own.
pub uninterp spec fn url_has_userinfo(url: Seq<char>) -> bool;

/// An ASCII uppercase letter lowercased; any other character unchanged.
pub open spec fn ascii_lower_char(c: char) -> char {
    if ('A' as u32) <= (c as u32) && (c as u32) <= ('Z' as u32) {
        ((c as u32) + 32) as char
    } else {
        c
    }
}

/// The canonical spelling the HTTP library stores an accepted header name
/// under: its ASCII-lowercased form.
pub open spec fn header_canon(name: Seq<char>) -> Seq<char> {
    name.map_values(|c: char| ascii_lower_char(c))
}

/// The method of a built request, as text.
pub uninterp spec fn request_method(req: reqwest::Request) -> Seq<char>;

/// The serialized url a built request targets.
pub uninterp spec fn request_url(req: reqwest::Request) -> Seq<char>;

/// The headers a built request carries, as pairs of a canonical name and a
/// value, read as text.
pub uninterp spec fn request_headers(req: reqwest::Request) -> Set<(Seq<char>, Seq<char>)>;

/// The body a built request carries, read as the text it was set from.
pub uninterp spec fn request_body(req: reqwest::Request) -> Seq<char>;

/// Relies on reqwest::Client::new: a fresh transport handle with default
/// settings. Its connection pool is internal to the outside crate; nothing is
/// stated of it.
#[verifier::external_body]
pub(crate) fn new_http_client() -> reqwest::Client {
    reqwest::Client::new()
}

/// Relies on reqwest::Client::post and reqwest::RequestBuilder::{header, body,
/// build}: building succeeds exactly when the url and the header's name and
/// value are accepted (each a deterministic check of the text alone; the body,
/// set from a string, is never refused). On success the built request is a
/// POST targeting the given url (normalized), carries the given header under
/// its canonical name, and carries the given body unchanged; a url without
/// user-info gives it no other header.
#[verifier::external_body]
pub(crate) fn build_post_one_header(
    client: &reqwest::Client,
    url: &String,
    name: &str,
    value: &str,
    body: String,
) -> (r: Result<reqwest::Request, reqwest::Error>)
    ensures
        r is Ok ==> url_accepted(url@) && header_name_accepted(name@) && header_value_accepted(
            value@,
        ),
        r is Err ==> !(url_accepted(url@) && header_name_accepted(name@)
            && header_value_accepted(value@)),
        r matches Ok(req) ==> request_method(req) == "POST"@,
        r matches Ok(req) ==> request_url(req) == url_normalized(url@),
        r matches Ok(req) ==> request_headers(req).contains((header_canon(name@), value@)),
        r matches Ok(req) ==> (!url_has_userinfo(url@) ==> request_headers(req) == set![
            (header_canon(name@), value@),
        ]),
        r matches Ok(req) ==> request_body(req) == body@,
{
    client.post(url.as_str()).header(name, value).body(body).build()
}

/// Relies on the same reqwest request construction as build_post_one_header,
/// with three headers appended in the given order.
#[verifier::external_body]
pub(crate) fn build_post_three_headers(
    client: &reqwest::Client,
    url: &String,
    name1: &str,
    value1: &str,
    name2: &str,
    value2: &str,
    name3: &str,
    value3: &str,
    body: String,
) -> (r: Result<reqwest::Request, reqwest::Error>)
    ensures
        r is Ok ==> url_accepted(url@) && header_name_accepted(name1@) && header_value_accepted(
            value1@,
        ) && header_name_accepted(name2@) && header_value_accepted(value2@)
            && header_name_accepted(name3@) && header_value_accepted(value3@),
        r is Err ==> !(url_accepted(url@) && header_name_accepted(name1@)
            && header_value_accepted(value1@) && header_name_accepted(name2@)
            && header_value_accepted(value2@) && header_name_accepted(name3@)
            && header_value_accepted(value3@)),
        r matches Ok(req) ==> request_method(req) == "POST"@,
        r matches Ok(req) ==> request_url(req) == url_normalized(url@),
        r matches Ok(req) ==> request_headers(req).contains((header_canon(name1@), value1@)),
        r matches Ok(req) ==> request_headers(req).contains((header_canon(name2@), value2@)),
        r matches Ok(req) ==> request_headers(req).contains((header_canon(name3@), value3@)),
        r matches Ok(req) ==> (!url_has_userinfo(url@) ==> request_headers(req) == set![
            (header_canon(name1@), value1@),
            (header_canon(name2@), value2@),
            (header_canon(name3@), value3@),
        ]),
        r matches Ok(req) ==> request_body(req) == body@,
{
    client.post(url.as_str()).header(name1, value1).header(name2, value2).header(
        name3,
        value3,
    ).body(body).build()
}

} // verus!
