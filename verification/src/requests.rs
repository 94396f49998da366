//! Assembly of the wire requests the transfer makes, as pure values: the
//! OAuth2 token request, the digest request headers, the headers of every
//! SharePoint Online write, and the classification of a write response.
//!
//! Everything here is a plain function from strings and byte lengths to
//! strings; the surrounding application puts the values on the network.

use vstd::prelude::*;

use crate::model::ChunkOutcome;
use crate::model::Header;
use crate::model::SPOErrorResponse;
use crate::text::dec_str;

verus! {

/// `https://accounts.accesscontrol.windows.net/{tenant}/tokens/OAuth/2`
pub open spec fn spec_token_url(tenant_id: Seq<char>) -> Seq<char> {
    "https://accounts.accesscontrol.windows.net/"@ + tenant_id + "/tokens/OAuth/2"@
}

/// The form-encoded body of the client-credentials exchange, requesting the
/// SharePoint resource audience scoped to `{domain}.sharepoint.com`.
pub open spec fn spec_token_body(
    tenant_id: Seq<char>,
    client_id: Seq<char>,
    client_secret: Seq<char>,
    share_point_domain: Seq<char>,
) -> Seq<char> {
    "grant_type=client_credentials&client_id="@ + client_id + "@"@ + tenant_id
        + "&client_secret="@ + client_secret
        + "&resource=00000003-0000-0ff1-ce00-000000000000/"@ + share_point_domain
        + ".sharepoint.com@"@ + tenant_id
}

/// The token endpoint of the tenant.
pub fn token_request_url(tenant_id: &String) -> (r: String)
    ensures
        r@ == spec_token_url(tenant_id@),
{
    let mut s = String::new();
    s.append("https://accounts.accesscontrol.windows.net/");
    s.append(tenant_id.as_str());
    s.append("/tokens/OAuth/2");
    proof {
        assert(s@ =~= spec_token_url(tenant_id@));
    }
    s
}

/// The form-encoded body of the token request.
pub fn token_request_body(
    tenant_id: &String,
    client_id: &String,
    client_secret: &String,
    share_point_domain: &String,
) -> (r: String)
    ensures
        r@ == spec_token_body(tenant_id@, client_id@, client_secret@, share_point_domain@),
{
    let mut s = String::new();
    s.append("grant_type=client_credentials&client_id=");
    s.append(client_id.as_str());
    s.append("@");
    s.append(tenant_id.as_str());
    s.append("&client_secret=");
    s.append(client_secret.as_str());
    s.append("&resource=00000003-0000-0ff1-ce00-000000000000/");
    s.append(share_point_domain.as_str());
    s.append(".sharepoint.com@");
    s.append(tenant_id.as_str());
    proof {
        assert(s@ =~= spec_token_body(
            tenant_id@,
            client_id@,
            client_secret@,
            share_point_domain@,
        ));
    }
    s
}

fn literal_header(name: &str, value: &str) -> (r: Header)
    ensures
        r.name@ == name@,
        r.value@ == value@,
{
    Header { name: name.to_owned(), value: value.to_owned() }
}

/// `Bearer {access_token}`
pub open spec fn spec_bearer(access_token: Seq<char>) -> Seq<char> {
    "Bearer "@ + access_token
}

fn bearer_header(access_token: &String) -> (r: Header)
    ensures
        r.name@ == "Authorization"@,
        r.value@ == spec_bearer(access_token@),
{
    let mut value = String::new();
    value.append("Bearer ");
    value.append(access_token.as_str());
    proof {
        assert(value@ =~= spec_bearer(access_token@));
    }
    Header { name: "Authorization".to_owned(), value }
}

/// The single header of the token request.
pub fn token_request_headers() -> (r: Vec<Header>)
    ensures
        r@.len() == 1,
        r@[0].name@ == "Content-Type"@,
        r@[0].value@ == "application/x-www-form-urlencoded"@,
{
    let mut headers: Vec<Header> = Vec::new();
    headers.push(literal_header("Content-Type", "application/x-www-form-urlencoded"));
    headers
}

/// The headers of the `contextinfo` request that fetches the form digest:
/// the bearer token and the verbose-OData content negotiation.
pub fn digest_request_headers(access_token: &String) -> (r: Vec<Header>)
    ensures
        r@.len() == 3,
        r@[0].name@ == "Authorization"@,
        r@[0].value@ == spec_bearer(access_token@),
        r@[1].name@ == "Accept"@,
        r@[1].value@ == "application/json;odata=verbose"@,
        r@[2].name@ == "Content-Type"@,
        r@[2].value@ == "application/json;odata=verbose"@,
{
    let mut headers: Vec<Header> = Vec::new();
    headers.push(bearer_header(access_token));
    headers.push(literal_header("Accept", "application/json;odata=verbose"));
    headers.push(literal_header("Content-Type", "application/json;odata=verbose"));
    headers
}

/// The headers of every SharePoint Online write: bearer token, verbose-OData
/// content negotiation, the body length, and the anti-forgery digest.
pub fn write_request_headers(
    access_token: &String,
    form_digest_value: &String,
    content_length: usize,
) -> (r: Vec<Header>)
    ensures
        r@.len() == 5,
        r@[0].name@ == "Authorization"@,
        r@[0].value@ == spec_bearer(access_token@),
        r@[1].name@ == "Content-Type"@,
        r@[1].value@ == "application/json;odata=verbose"@,
        r@[2].name@ == "Accept"@,
        r@[2].value@ == "application/json;odata=verbose"@,
        r@[3].name@ == "Content-Length"@,
        r@[3].value@ == dec_str(content_length as nat),
        r@[4].name@ == "X-RequestDigest"@,
        r@[4].value@ == form_digest_value@,
{
    let mut headers: Vec<Header> = Vec::new();
    headers.push(bearer_header(access_token));
    headers.push(literal_header("Content-Type", "application/json;odata=verbose"));
    headers.push(literal_header("Accept", "application/json;odata=verbose"));
    headers.push(
        Header {
            name: "Content-Length".to_owned(),
            value: crate::text::u64_to_string(content_length as u64),
        },
    );
    headers.push(
        Header { name: "X-RequestDigest".to_owned(), value: form_digest_value.clone() },
    );
    headers
}

/// Whether an HTTP status code reports success.
pub open spec fn spec_is_success_status(status: u16) -> bool {
    200 <= status < 300
}

/// Classifies one write response: a success status is `Accepted`; anything
/// else is `Rejected`, carrying the code and message of the decoded error
/// envelope when one was decoded, and empty strings when none was.
pub fn classify_write_response(status: u16, error: &Option<SPOErrorResponse>) -> (r: ChunkOutcome)
    ensures
        spec_is_success_status(status) ==> r is Accepted,
        !spec_is_success_status(status) ==> match r {
            ChunkOutcome::Rejected { code, message } => match error {
                Some(e) => code@ == e.error.code@ && message@ == e.error.message.value@,
                None => code@ == Seq::<char>::empty() && message@ == Seq::<char>::empty(),
            },
            ChunkOutcome::Accepted => false,
        },
{
    if 200 <= status && status < 300 {
        ChunkOutcome::Accepted
    } else {
        match error {
            Some(e) => ChunkOutcome::Rejected {
                code: e.error.code.clone(),
                message: e.error.message.value.clone(),
            },
            None => ChunkOutcome::Rejected { code: String::new(), message: String::new() },
        }
    }
}

} // verus!
