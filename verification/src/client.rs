//! The database client: connection identity, authenticated request
//! construction for the write and query paths, and the error taxonomy.

use vstd::prelude::*;
use vstd::string::StringExecFns;

use crate::http::{
    build_post_one_header, build_post_three_headers, header_canon, header_name_accepted,
    header_value_accepted, new_http_client, request_body, request_headers, request_method,
    request_url, url_accepted, url_has_userinfo, url_normalized,
};
use crate::line_protocol::{encode_batch, join_lines, lines_of, Measurement};
use crate::query::Query;

verus! {

/// The write endpoint url: the fixed write-API path with the organization,
/// bucket and millisecond-precision parameters appended to the base url.
pub open spec fn write_url_spec(base: Seq<char>, org: Seq<char>, bucket: Seq<char>) -> Seq<char> {
    base + "/api/v2/write?org="@ + org + "&bucket="@ + bucket + "&precision=ms"@
}

/// The query endpoint url: the fixed query-API path with the organization
/// parameter appended to the base url.
pub open spec fn query_url_spec(base: Seq<char>, org: Seq<char>) -> Seq<char> {
    base + "/api/v2/query?org="@ + org
}

/// The authorization header value: the token scheme word, one space, and the
/// access token, byte for byte.
pub open spec fn auth_header_spec(key: Seq<char>) -> Seq<char> {
    "Token "@ + key
}

/// Whether the transport accepts the write request's pieces: its url, and the
/// authorization header's name and value. Request construction succeeds
/// exactly when this holds.
pub open spec fn write_build_accepted(
    base: Seq<char>,
    org: Seq<char>,
    bucket: Seq<char>,
    key: Seq<char>,
) -> bool {
    url_accepted(write_url_spec(base, org, bucket)) && header_name_accepted("Authorization"@)
        && header_value_accepted(auth_header_spec(key))
}

/// Whether the transport accepts the query request's pieces: its url, the
/// authorization header, and the two fixed content-negotiation headers.
/// Request construction succeeds exactly when this holds.
pub open spec fn query_build_accepted(base: Seq<char>, org: Seq<char>, key: Seq<char>) -> bool {
    url_accepted(query_url_spec(base, org)) && header_name_accepted("Authorization"@)
        && header_value_accepted(auth_header_spec(key)) && header_name_accepted("Content-type"@)
        && header_value_accepted("application/vnd.flux"@) && header_name_accepted("Accept"@)
        && header_value_accepted("application/csv"@)
}

/// A failure surfaced by either path: the underlying transport error, wrapped.
#[derive(Debug)]
pub enum InfluxClientError {
    ReqwestError(reqwest::Error),
}

/// Reserved for construction failures. Building a client cannot fail today —
/// `build` promises success — so the one variant only keeps the typed failure
/// channel open for future identity validation.
#[derive(Debug)]
#[non_exhaustive]
pub enum InfluxClientBuilderError {
    Reserved,
}

impl From<reqwest::Error> for InfluxClientError {
    fn from(err: reqwest::Error) -> (r: InfluxClientError) {
        InfluxClientError::ReqwestError(err)
    }
}

impl vstd::std_specs::convert::FromSpecImpl<reqwest::Error> for InfluxClientError {
    open spec fn obeys_from_spec() -> bool {
        true
    }

    open spec fn from_spec(err: reqwest::Error) -> InfluxClientError {
        InfluxClientError::ReqwestError(err)
    }
}

/// The client: immutable connection identity plus one transport handle.
pub struct InfluxClient {
    url: String,
    key: String,
    org: String,
    http_client: reqwest::Client,
}

impl InfluxClient {
    /// The endpoint base url of the identity.
    pub closed spec fn url_spec(&self) -> Seq<char> {
        self.url@
    }

    /// The access token of the identity.
    pub closed spec fn key_spec(&self) -> Seq<char> {
        self.key@
    }

    /// The organization of the identity.
    pub closed spec fn org_spec(&self) -> Seq<char> {
        self.org@
    }

    fn new(url: String, key: String, org: String, http_client: reqwest::Client) -> (c:
        InfluxClient)
        ensures
            c.url_spec() == url@,
            c.key_spec() == key@,
            c.org_spec() == org@,
    {
        InfluxClient { url, key, org, http_client }
    }

    /// The only supported construction path: a builder holding the identity.
    pub fn builder(url: String, key: String, org: String) -> (b: InfluxClientBuilder)
        ensures
            b.url_spec() == url@,
            b.key_spec() == key@,
            b.org_spec() == org@,
    {
        InfluxClientBuilder::new(url, key, org)
    }

    /// The transport handle, for the caller that dispatches built requests.
    pub fn http_client(&self) -> &reqwest::Client {
        &self.http_client
    }

    /// The url the write path posts to for the given bucket.
    pub fn write_url(&self, bucket: &str) -> (r: String)
        ensures
            r@ == write_url_spec(self.url_spec(), self.org_spec(), bucket@),
    {
        let mut r = self.url.clone();
        r.append("/api/v2/write?org=");
        r.append(self.org.as_str());
        r.append("&bucket=");
        r.append(bucket);
        r.append("&precision=ms");
        r
    }

    /// The url the query path posts to.
    pub fn query_url(&self) -> (r: String)
        ensures
            r@ == query_url_spec(self.url_spec(), self.org_spec()),
    {
        let mut r = self.url.clone();
        r.append("/api/v2/query?org=");
        r.append(self.org.as_str());
        r
    }

    /// The authorization header value presented on every request.
    pub fn auth_header_value(&self) -> (r: String)
        ensures
            r@ == auth_header_spec(self.key_spec()),
    {
        let mut r = "Token ".to_owned();
        r.append(self.key.as_str());
        r
    }

    /// Builds the write-path request for one batch: a POST to the write
    /// endpoint, authorized with the identity's token, whose body is the
    /// batch's newline-joined encoding. Construction succeeds exactly when
    /// the transport accepts the url and the authorization header; a failure
    /// (an unparseable base url, a token the header refuses) is returned as
    /// the wrapping error, never a panic.
    pub fn write_request(&self, bucket: &str, measurements: &[Measurement]) -> (r: Result<
        reqwest::Request,
        InfluxClientError,
    >)
        ensures
            r is Ok ==> write_build_accepted(
                self.url_spec(),
                self.org_spec(),
                bucket@,
                self.key_spec(),
            ),
            r is Err ==> !write_build_accepted(
                self.url_spec(),
                self.org_spec(),
                bucket@,
                self.key_spec(),
            ),
            r matches Ok(req) ==> request_method(req) == "POST"@,
            r matches Ok(req) ==> request_url(req) == url_normalized(
                write_url_spec(self.url_spec(), self.org_spec(), bucket@),
            ),
            r matches Ok(req) ==> request_headers(req).contains(
                (header_canon("Authorization"@), auth_header_spec(self.key_spec())),
            ),
            r matches Ok(req) ==> (!url_has_userinfo(
                write_url_spec(self.url_spec(), self.org_spec(), bucket@),
            ) ==> request_headers(req) == set![
                (header_canon("Authorization"@), auth_header_spec(self.key_spec())),
            ]),
            r matches Ok(req) ==> request_body(req) == join_lines(lines_of(measurements@)),
            r matches Err(e) ==> e is ReqwestError,
    {
        let payload = encode_batch(measurements);
        let url = self.write_url(bucket);
        let auth = self.auth_header_value();
        match build_post_one_header(
            &self.http_client,
            &url,
            "Authorization",
            auth.as_str(),
            payload,
        ) {
            Ok(req) => Ok(req),
            Err(e) => Err(InfluxClientError::ReqwestError(e)),
        }
    }

    /// Builds the query-path request: a POST to the query endpoint, authorized
    /// with the identity's token, announcing the query and answer content
    /// types, whose body is the query's text. Construction succeeds exactly
    /// when the transport accepts the url and the three headers; a failure is
    /// returned as the wrapping error, never a panic.
    pub fn query_request(&self, query: &Query) -> (r: Result<
        reqwest::Request,
        InfluxClientError,
    >)
        ensures
            r is Ok ==> query_build_accepted(self.url_spec(), self.org_spec(), self.key_spec()),
            r is Err ==> !query_build_accepted(self.url_spec(), self.org_spec(), self.key_spec()),
            r matches Ok(req) ==> request_method(req) == "POST"@,
            r matches Ok(req) ==> request_url(req) == url_normalized(
                query_url_spec(self.url_spec(), self.org_spec()),
            ),
            r matches Ok(req) ==> request_headers(req).contains(
                (header_canon("Authorization"@), auth_header_spec(self.key_spec())),
            ),
            r matches Ok(req) ==> request_headers(req).contains(
                (header_canon("Content-type"@), "application/vnd.flux"@),
            ),
            r matches Ok(req) ==> request_headers(req).contains(
                (header_canon("Accept"@), "application/csv"@),
            ),
            r matches Ok(req) ==> (!url_has_userinfo(
                query_url_spec(self.url_spec(), self.org_spec()),
            ) ==> request_headers(req) == set![
                (header_canon("Authorization"@), auth_header_spec(self.key_spec())),
                (header_canon("Content-type"@), "application/vnd.flux"@),
                (header_canon("Accept"@), "application/csv"@),
            ]),
            r matches Ok(req) ==> request_body(req) == query@,
            r matches Err(e) ==> e is ReqwestError,
    {
        let payload = query.to_query_text();
        let url = self.query_url();
        let auth = self.auth_header_value();
        match build_post_three_headers(
            &self.http_client,
            &url,
            "Authorization",
            auth.as_str(),
            "Content-type",
            "application/vnd.flux",
            "Accept",
            "application/csv",
            payload,
        ) {
            Ok(req) => Ok(req),
            Err(e) => Err(InfluxClientError::ReqwestError(e)),
        }
    }
}

/// Classifies the outcome of one dispatched request: a transport success is
/// handed back unchanged, and a transport failure is wrapped as the client
/// error, so that both paths surface failures as recoverable values.
pub fn complete_send(outcome: Result<reqwest::Response, reqwest::Error>) -> (r: Result<
    reqwest::Response,
    InfluxClientError,
>)
    ensures
        outcome matches Ok(resp) ==> r matches Ok(given) && given == resp,
        outcome matches Err(e) ==> r matches Err(wrapped) && wrapped
            == InfluxClientError::ReqwestError(e),
{
    match outcome {
        Ok(resp) => Ok(resp),
        Err(e) => Err(InfluxClientError::from(e)),
    }
}

/// The staged construction path: holds the three identity fields; the
/// transport handle is made only when the client is built.
pub struct InfluxClientBuilder {
    url: String,
    key: String,
    org: String,
}

impl InfluxClientBuilder {
    /// The endpoint base url the builder holds.
    pub closed spec fn url_spec(&self) -> Seq<char> {
        self.url@
    }

    /// The access token the builder holds.
    pub closed spec fn key_spec(&self) -> Seq<char> {
        self.key@
    }

    /// The organization the builder holds.
    pub closed spec fn org_spec(&self) -> Seq<char> {
        self.org@
    }

    pub fn new(url: String, key: String, org: String) -> (b: InfluxClientBuilder)
        ensures
            b.url_spec() == url@,
            b.key_spec() == key@,
            b.org_spec() == org@,
    {
        InfluxClientBuilder { url, key, org }
    }

    /// Consumes the builder, constructs a fresh transport handle, and returns
    /// the client. No identity validation exists today, so this always
    /// succeeds; the error channel is reserved.
    pub fn build(self) -> (r: Result<InfluxClient, InfluxClientBuilderError>)
        ensures
            r is Ok,
            r matches Ok(c) ==> c.url_spec() == self.url_spec() && c.key_spec() == self.key_spec()
                && c.org_spec() == self.org_spec(),
    {
        Ok(InfluxClient::new(self.url, self.key, self.org, new_http_client()))
    }
}

} // verus!
