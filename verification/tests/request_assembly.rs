use blob2spo::classify_write_response;
use blob2spo::digest_request_headers;
use blob2spo::token_request_body;
use blob2spo::token_request_headers;
use blob2spo::token_request_url;
use blob2spo::u64_to_string;
use blob2spo::write_request_headers;
use blob2spo::ChunkOutcome;
use blob2spo::Error;
use blob2spo::Message;
use blob2spo::SPOErrorResponse;

#[test]
fn decimal_rendering() {
    assert_eq!(u64_to_string(0), "0");
    assert_eq!(u64_to_string(7), "7");
    assert_eq!(u64_to_string(10), "10");
    assert_eq!(u64_to_string(67108864), "67108864");
    assert_eq!(u64_to_string(u64::MAX), "18446744073709551615");
}

#[test]
fn token_url_names_the_tenant() {
    assert_eq!(
        token_request_url(&"5612aad0-a1b7-4391-87a7-389e38e63b73".to_string()),
        "https://accounts.accesscontrol.windows.net/5612aad0-a1b7-4391-87a7-389e38e63b73/tokens/OAuth/2"
    );
}

#[test]
fn token_body_is_the_client_credentials_form() {
    let body = token_request_body(
        &"tenant-1".to_string(),
        &"client-1".to_string(),
        &"secret-1".to_string(),
        &"contoso".to_string(),
    );
    assert_eq!(
        body,
        "grant_type=client_credentials&client_id=client-1@tenant-1&client_secret=secret-1\
         &resource=00000003-0000-0ff1-ce00-000000000000/contoso.sharepoint.com@tenant-1"
    );
}

#[test]
fn token_headers_are_form_encoded() {
    let headers = token_request_headers();
    assert_eq!(headers.len(), 1);
    assert_eq!(headers[0].name, "Content-Type");
    assert_eq!(headers[0].value, "application/x-www-form-urlencoded");
}

#[test]
fn digest_headers_carry_the_bearer_token() {
    let headers = digest_request_headers(&"tok-123".to_string());
    assert_eq!(headers.len(), 3);
    assert_eq!(headers[0].name, "Authorization");
    assert_eq!(headers[0].value, "Bearer tok-123");
    assert_eq!(headers[1].name, "Accept");
    assert_eq!(headers[1].value, "application/json;odata=verbose");
    assert_eq!(headers[2].name, "Content-Type");
    assert_eq!(headers[2].value, "application/json;odata=verbose");
}

#[test]
fn write_headers_carry_token_digest_and_length() {
    let headers = write_request_headers(&"tok-123".to_string(), &"0xDIGEST".to_string(), 1048576);
    assert_eq!(headers.len(), 5);
    assert_eq!(headers[0].name, "Authorization");
    assert_eq!(headers[0].value, "Bearer tok-123");
    assert_eq!(headers[1].name, "Content-Type");
    assert_eq!(headers[1].value, "application/json;odata=verbose");
    assert_eq!(headers[2].name, "Accept");
    assert_eq!(headers[2].value, "application/json;odata=verbose");
    assert_eq!(headers[3].name, "Content-Length");
    assert_eq!(headers[3].value, "1048576");
    assert_eq!(headers[4].name, "X-RequestDigest");
    assert_eq!(headers[4].value, "0xDIGEST");
}

fn spo_error(code: &str, message: &str) -> SPOErrorResponse {
    SPOErrorResponse {
        error: Error {
            code: code.to_string(),
            message: Message { lang: "en-US".to_string(), value: message.to_string() },
        },
    }
}

#[test]
fn success_statuses_are_accepted() {
    assert_eq!(classify_write_response(200, &None), ChunkOutcome::Accepted);
    assert_eq!(classify_write_response(204, &None), ChunkOutcome::Accepted);
    assert_eq!(
        classify_write_response(299, &Some(spo_error("x", "y"))),
        ChunkOutcome::Accepted
    );
}

#[test]
fn rejection_carries_the_server_error() {
    let outcome = classify_write_response(
        403,
        &Some(spo_error("-2147024891, System.UnauthorizedAccessException", "Access denied.")),
    );
    assert_eq!(
        outcome,
        ChunkOutcome::Rejected {
            code: "-2147024891, System.UnauthorizedAccessException".to_string(),
            message: "Access denied.".to_string(),
        }
    );
}

#[test]
fn rejection_without_a_decoded_body_is_empty() {
    let outcome = classify_write_response(500, &None);
    assert_eq!(
        outcome,
        ChunkOutcome::Rejected { code: String::new(), message: String::new() }
    );
}

#[test]
fn statuses_outside_the_success_range_are_rejected() {
    for status in [100u16, 199, 300, 301, 400, 401, 403, 404, 500, 503] {
        match classify_write_response(status, &None) {
            ChunkOutcome::Rejected { .. } => (),
            ChunkOutcome::Accepted => panic!("status {} must not be accepted", status),
        }
    }
}
