//! The requests to the upstream service: where each goes and what it
//! carries. Sending them is the caller's part.

use vstd::prelude::*;

verus! {

/// How a request shows who sends it.
#[derive(Debug)]
pub enum Credential {
    /// Nothing: the request carries the credentials in its body.
    Anonymous,
    /// A bearer token in the authorization header.
    Bearer(String),
    /// A key in the header `apiKey`.
    ApiKey(String),
}

/// A request to the upstream service.
#[derive(Debug)]
pub struct UpstreamRequest {
    pub url: String,
    pub credential: Credential,
    pub body: Option<String>,
}

/// The address of the upstream service for the school with the code `url`,
/// and `path` behind it.
pub open spec fn school_address(url: Seq<char>, path: Seq<char>) -> Seq<char> {
    "https://"@ + url + ".e-kreta.hu"@ + path
}

/// Where a token is asked for.
pub open spec fn token_address(url: Seq<char>) -> Seq<char> {
    school_address(url, "/idp/api/v1/Token"@)
}

/// The form that asks for a token.
pub open spec fn token_form(url: Seq<char>, username: Seq<char>, password: Seq<char>) -> Seq<
    char,
> {
    "institute_code="@ + url + "&userName="@ + username + "&password="@ + password
        + "&grant_type=password&client_id=919e0c1c-76a2-4646-a2fb-7085bbbf3c56"@
}

/// Where the schools are listed.
pub open spec fn schools_address() -> Seq<char> {
    "https://kretaglobalmobileapi.ekreta.hu/api/v1/Institute"@
}

/// The key that the list of schools asks for.
pub open spec fn schools_key() -> Seq<char> {
    "7856d350-1fda-45f5-822d-e1a2f3f1acf0"@
}

/// Where the lessons of a span of days are listed.
pub open spec fn schedule_address(url: Seq<char>, from_date: Seq<char>, to_date: Seq<char>) -> Seq<
    char,
> {
    school_address(url, "/mapi/api/v1/Lesson?fromDate="@ + from_date + "&toDate="@ + to_date)
}

/// Where the profile of the student is.
pub open spec fn profile_address(url: Seq<char>) -> Seq<char> {
    school_address(url, "/mapi/api/v1/Student"@)
}

/// Where the tests announced for a span of days are listed.
pub open spec fn tasks_address(url: Seq<char>, from_date: Seq<char>, to_date: Seq<char>) -> Seq<
    char,
> {
    school_address(
        url,
        "/mapi/api/v1/BejelentettSzamonkeres?DatumTol="@ + from_date + "&DatumIg="@ + to_date,
    )
}

/// The address of the upstream service for a school, and `path` behind it.
fn school_address_text(url: &str, path: &str) -> (r: String)
    ensures
        r@ == school_address(url@, path@),
{
    let mut address = String::from_str("https://");
    address.append(url);
    address.append(".e-kreta.hu");
    address.append(path);
    address
}

/// The request for a token: the credentials go in the body.
pub fn token_request(url: &str, username: &str, password: &str) -> (r: UpstreamRequest)
    ensures
        r.url@ == token_address(url@),
        r.credential is Anonymous,
        r.body matches Some(body) && body@ == token_form(url@, username@, password@),
{
    let mut body = String::from_str("institute_code=");
    body.append(url);
    body.append("&userName=");
    body.append(username);
    body.append("&password=");
    body.append(password);
    body.append("&grant_type=password&client_id=919e0c1c-76a2-4646-a2fb-7085bbbf3c56");
    UpstreamRequest {
        url: school_address_text(url, "/idp/api/v1/Token"),
        credential: Credential::Anonymous,
        body: Some(body),
    }
}

/// The request for the list of schools.
pub fn schools_request() -> (r: UpstreamRequest)
    ensures
        r.url@ == schools_address(),
        r.credential matches Credential::ApiKey(key) && key@ == schools_key(),
        r.body is None,
{
    UpstreamRequest {
        url: String::from_str("https://kretaglobalmobileapi.ekreta.hu/api/v1/Institute"),
        credential: Credential::ApiKey(String::from_str("7856d350-1fda-45f5-822d-e1a2f3f1acf0")),
        body: None,
    }
}

/// The request for the lessons of a span of days.
pub fn schedule_request(token: String, url: &str, from_date: &str, to_date: &str) -> (r:
    UpstreamRequest)
    ensures
        r.url@ == schedule_address(url@, from_date@, to_date@),
        r.credential == Credential::Bearer(token),
        r.body is None,
{
    let mut path = String::from_str("/mapi/api/v1/Lesson?fromDate=");
    path.append(from_date);
    path.append("&toDate=");
    path.append(to_date);
    UpstreamRequest {
        url: school_address_text(url, path.as_str()),
        credential: Credential::Bearer(token),
        body: None,
    }
}

/// The request for the profile of the student.
pub fn profile_request(token: String, url: &str) -> (r: UpstreamRequest)
    ensures
        r.url@ == profile_address(url@),
        r.credential == Credential::Bearer(token),
        r.body is None,
{
    UpstreamRequest {
        url: school_address_text(url, "/mapi/api/v1/Student"),
        credential: Credential::Bearer(token),
        body: None,
    }
}

/// The request for the tests announced for a span of days.
pub fn tasks_request(token: String, url: &str, from_date: &str, to_date: &str) -> (r:
    UpstreamRequest)
    ensures
        r.url@ == tasks_address(url@, from_date@, to_date@),
        r.credential == Credential::Bearer(token),
        r.body is None,
{
    let mut path = String::from_str("/mapi/api/v1/BejelentettSzamonkeres?DatumTol=");
    path.append(from_date);
    path.append("&DatumIg=");
    path.append(to_date);
    UpstreamRequest {
        url: school_address_text(url, path.as_str()),
        credential: Credential::Bearer(token),
        body: None,
    }
}

} // verus!
