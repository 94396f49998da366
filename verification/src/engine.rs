//! The SharePoint Online engine: per-transfer authentication state and the
//! assembly of each write request.
//!
//! An [`SPOEngine`] holds the service-principal configuration, the endpoint
//! under construction, and — once the caller has fetched them — the access
//! token and the `contextinfo` digest.  Its methods are pure request
//! assembly: the caller performs the network calls and feeds the decoded
//! responses back in.  The upload session id is the one value produced
//! here, through the `uuid` crate.

use vstd::prelude::*;

use crate::endpoint::spec_continue_upload_url;
use crate::endpoint::spec_digest_url;
use crate::endpoint::spec_finish_upload_url;
use crate::endpoint::spec_one_time_url;
use crate::endpoint::spec_start_upload_url;
use crate::endpoint::EndpointModel;
use crate::endpoint::SPOEndpoint;
use crate::model::Header;
use crate::model::SPOContextInfoResponse;
use crate::model::SPOError;
use crate::model::SPOTokenResponse;
use crate::requests::digest_request_headers;
use crate::requests::spec_bearer;
use crate::requests::spec_token_body;
use crate::requests::spec_token_url;
use crate::requests::token_request_body;
use crate::requests::token_request_headers;
use crate::requests::token_request_url;
use crate::requests::write_request_headers;
use crate::text::dec_str;
use crate::transfer::UploadCall;
use crate::transfer::UploadCallKind;

verus! {

#[verifier::external_type_specification]
#[verifier::external_body]
pub struct ExUuid(uuid::Uuid);

/// Relies on uuid::Uuid::new_v4: a freshly generated random version-4 UUID.
/// Nothing is promised of the value.
#[verifier::external_body]
fn generate_uuid() -> uuid::Uuid {
    uuid::Uuid::new_v4()
}

/// Relies on uuid's Display implementation: the hyphenated form, which is
/// always 36 characters long.
#[verifier::external_body]
fn uuid_to_string(u: &uuid::Uuid) -> (r: String)
    ensures
        r@.len() == 36,
{
    u.to_string()
}

/// Whether a write of this kind addresses an upload session, so that its
/// URL embeds the session id.
pub open spec fn needs_session_id(kind: UploadCallKind) -> bool {
    ||| kind == UploadCallKind::StartUpload
    ||| kind == UploadCallKind::ContinueUpload
    ||| kind == UploadCallKind::FinishUpload
}

/// The URL of a write call of the given kind, rendered from an endpoint
/// model that already carries the call's offset.
pub open spec fn spec_call_url(m: EndpointModel, kind: UploadCallKind) -> Seq<char> {
    match kind {
        UploadCallKind::OneTimeSave => spec_one_time_url(m),
        UploadCallKind::CreateEmpty => spec_one_time_url(m),
        UploadCallKind::StartUpload => spec_start_upload_url(m),
        UploadCallKind::ContinueUpload => spec_continue_upload_url(m),
        UploadCallKind::FinishUpload => spec_finish_upload_url(m),
    }
}

/// Drives authentication and request assembly for one transfer to
/// SharePoint Online.
pub struct SPOEngine {
    tenant_id: String,
    client_id: String,
    client_secret: String,
    share_point_domain: String,
    end_point: SPOEndpoint,
    uuid: Option<String>,
    token: Option<SPOTokenResponse>,
    context_info: Option<SPOContextInfoResponse>,
}

impl SPOEngine {
    pub closed spec fn spec_tenant_id(&self) -> Seq<char> {
        self.tenant_id@
    }

    pub closed spec fn spec_client_id(&self) -> Seq<char> {
        self.client_id@
    }

    pub closed spec fn spec_client_secret(&self) -> Seq<char> {
        self.client_secret@
    }

    pub closed spec fn spec_domain(&self) -> Seq<char> {
        self.share_point_domain@
    }

    /// The endpoint under construction.
    pub closed spec fn spec_endpoint(&self) -> EndpointModel {
        self.end_point@
    }

    /// The upload session id, once one was generated.
    pub closed spec fn spec_uuid(&self) -> Option<Seq<char>> {
        match self.uuid {
            Some(u) => Some(u@),
            None => None,
        }
    }

    /// The access token, once a token response carrying one was adopted.
    pub closed spec fn spec_access_token(&self) -> Option<Seq<char>> {
        match self.token {
            Some(t) => match t.access_token {
                Some(a) => Some(a@),
                None => None,
            },
            None => None,
        }
    }

    /// The form digest value, once a `contextinfo` response was adopted.
    pub closed spec fn spec_digest(&self) -> Option<Seq<char>> {
        match self.context_info {
            Some(c) => Some(c.d.get_context_web_information.form_digest_value@),
            None => None,
        }
    }

    /// Whether everything a write of this kind needs is in place: token,
    /// digest, the full destination, and — for session writes — the id.
    pub open spec fn write_ready(&self, kind: UploadCallKind) -> bool {
        &&& self.spec_access_token() is Some
        &&& self.spec_digest() is Some
        &&& self.spec_endpoint().site is Some
        &&& self.spec_endpoint().path is Some
        &&& self.spec_endpoint().file_name is Some
        &&& (needs_session_id(kind) ==> self.spec_endpoint().uuid is Some)
    }

    /// A fresh engine holding the service-principal configuration, with no
    /// destination, token, digest or session id yet.
    pub fn new(
        tenant_id: &String,
        client_id: &String,
        client_secret: &String,
        share_point_domain: &String,
    ) -> (r: SPOEngine)
        ensures
            r.spec_tenant_id() == tenant_id@,
            r.spec_client_id() == client_id@,
            r.spec_client_secret() == client_secret@,
            r.spec_domain() == share_point_domain@,
            r.spec_endpoint() == (EndpointModel {
                domain: share_point_domain@,
                site: None,
                path: None,
                file_name: None,
                offset: None,
                uuid: None,
            }),
            r.spec_uuid() is None,
            r.spec_access_token() is None,
            r.spec_digest() is None,
    {
        SPOEngine {
            tenant_id: tenant_id.clone(),
            client_id: client_id.clone(),
            client_secret: client_secret.clone(),
            share_point_domain: share_point_domain.clone(),
            end_point: SPOEndpoint::new(share_point_domain),
            uuid: None,
            token: None,
            context_info: None,
        }
    }

    /// Sets the destination: site, server-relative path, and file name.
    pub fn prepare_destination(&mut self, site: &String, path: &String, file_name: &String)
        ensures
            final(self).spec_endpoint() == (EndpointModel {
                site: Some(site@),
                path: Some(path@),
                file_name: Some(file_name@),
                ..old(self).spec_endpoint()
            }),
            final(self).spec_tenant_id() == old(self).spec_tenant_id(),
            final(self).spec_client_id() == old(self).spec_client_id(),
            final(self).spec_client_secret() == old(self).spec_client_secret(),
            final(self).spec_domain() == old(self).spec_domain(),
            final(self).spec_uuid() == old(self).spec_uuid(),
            final(self).spec_access_token() == old(self).spec_access_token(),
            final(self).spec_digest() == old(self).spec_digest(),
    {
        self.end_point.set_site(site);
        self.end_point.set_path(path);
        self.end_point.set_file_name(file_name);
    }

    /// The OAuth2 client-credentials request for this engine's tenant and
    /// domain: URL, headers, and form-encoded body.
    pub fn token_request(&self) -> (r: (String, Vec<Header>, String))
        ensures
            r.0@ == spec_token_url(self.spec_tenant_id()),
            r.1@.len() == 1,
            r.1@[0].name@ == "Content-Type"@,
            r.1@[0].value@ == "application/x-www-form-urlencoded"@,
            r.2@ == spec_token_body(
                self.spec_tenant_id(),
                self.spec_client_id(),
                self.spec_client_secret(),
                self.spec_domain(),
            ),
    {
        let url = token_request_url(&self.tenant_id);
        let headers = token_request_headers();
        let body = token_request_body(
            &self.tenant_id,
            &self.client_id,
            &self.client_secret,
            &self.share_point_domain,
        );
        (url, headers, body)
    }

    /// Adopts a decoded token response.  Succeeds exactly when the response
    /// carries an access token; a response without one is rejected as a
    /// malformed grant.
    pub fn adopt_token(&mut self, token: SPOTokenResponse) -> (r: Result<(), SPOError>)
        ensures
            final(self).spec_tenant_id() == old(self).spec_tenant_id(),
            final(self).spec_client_id() == old(self).spec_client_id(),
            final(self).spec_client_secret() == old(self).spec_client_secret(),
            final(self).spec_domain() == old(self).spec_domain(),
            final(self).spec_endpoint() == old(self).spec_endpoint(),
            final(self).spec_uuid() == old(self).spec_uuid(),
            final(self).spec_digest() == old(self).spec_digest(),
            r is Ok <==> token.access_token is Some,
            token.access_token matches Some(a) ==> final(self).spec_access_token() == Some(a@),
            token.access_token is None ==> final(self).spec_access_token() == old(
                self,
            ).spec_access_token(),
            r matches Err(e) ==> e@ == "token response carries no access token"@,
    {
        match &token.access_token {
            Some(_) => {
                self.token = Some(token);
                Ok(())
            },
            None => Err(SPOError::new(&"token response carries no access token".to_owned())),
        }
    }

    /// The `contextinfo` request that fetches the form digest: URL and
    /// headers.  Fails exactly when the site or the access token is missing.
    pub fn digest_request(&self) -> (r: Result<(String, Vec<Header>), SPOError>)
        ensures
            r is Ok <==> (self.spec_endpoint().site is Some && self.spec_access_token() is Some),
            r matches Ok(parts) ==> {
                &&& parts.0@ == spec_digest_url(self.spec_endpoint())
                &&& parts.1@.len() == 3
                &&& parts.1@[0].name@ == "Authorization"@
                &&& parts.1@[0].value@ == spec_bearer(self.spec_access_token().unwrap())
                &&& parts.1@[1].name@ == "Accept"@
                &&& parts.1@[1].value@ == "application/json;odata=verbose"@
                &&& parts.1@[2].name@ == "Content-Type"@
                &&& parts.1@[2].value@ == "application/json;odata=verbose"@
            },
            r matches Err(e) ==> e@ == "no site or access token for the digest request"@,
    {
        let token = match &self.token {
            Some(t) => match &t.access_token {
                Some(a) => a.clone(),
                None => {
                    return Err(
                        SPOError::new(&"no site or access token for the digest request".to_owned()),
                    );
                },
            },
            None => {
                return Err(
                    SPOError::new(&"no site or access token for the digest request".to_owned()),
                );
            },
        };
        if !self.end_point.has_site() {
            return Err(SPOError::new(&"no site or access token for the digest request".to_owned()));
        }
        let url = self.end_point.to_spo_digest_url();
        let headers = digest_request_headers(&token);
        Ok((url, headers))
    }

    /// Adopts a decoded `contextinfo` response; its digest value is then
    /// attached to every write.
    ///
    /// The digest is fetched once per transfer and never refreshed, even
    /// though the response declares a lifetime (`FormDigestTimeoutSeconds`):
    /// on a transfer that outlives the digest, SharePoint rejects the next
    /// write and the transfer aborts.
    pub fn adopt_context_info(&mut self, context_info: SPOContextInfoResponse)
        ensures
            final(self).spec_tenant_id() == old(self).spec_tenant_id(),
            final(self).spec_client_id() == old(self).spec_client_id(),
            final(self).spec_client_secret() == old(self).spec_client_secret(),
            final(self).spec_domain() == old(self).spec_domain(),
            final(self).spec_endpoint() == old(self).spec_endpoint(),
            final(self).spec_uuid() == old(self).spec_uuid(),
            final(self).spec_access_token() == old(self).spec_access_token(),
            final(self).spec_digest() == Some(
                context_info.d.get_context_web_information.form_digest_value@,
            ),
    {
        self.context_info = Some(context_info);
    }

    /// Generates a fresh upload session id and threads it into the
    /// endpoint.  The id is random; all that is promised is its presence
    /// and its 36-character hyphenated shape.
    pub fn begin_upload_session(&mut self)
        ensures
            final(self).spec_tenant_id() == old(self).spec_tenant_id(),
            final(self).spec_client_id() == old(self).spec_client_id(),
            final(self).spec_client_secret() == old(self).spec_client_secret(),
            final(self).spec_domain() == old(self).spec_domain(),
            final(self).spec_access_token() == old(self).spec_access_token(),
            final(self).spec_digest() == old(self).spec_digest(),
            final(self).spec_uuid() matches Some(u) && u.len() == 36,
            final(self).spec_endpoint() == (EndpointModel {
                uuid: final(self).spec_uuid(),
                ..old(self).spec_endpoint()
            }),
    {
        let id = generate_uuid();
        let rendered = uuid_to_string(&id);
        self.end_point.set_uuid(&rendered);
        self.uuid = Some(rendered);
    }

    /// Assembles the write request for one call of the transfer plan: the
    /// URL for the call's kind and offset, and the standard write headers
    /// carrying the token, the digest, and the body length.  Fails exactly
    /// when something a write of this kind needs is missing.
    pub fn write_request_for(&self, call: &UploadCall) -> (r: Result<(String, Vec<Header>), SPOError>)
        ensures
            r is Ok <==> self.write_ready(call.kind),
            r matches Ok(parts) ==> {
                &&& parts.0@ == spec_call_url(
                    EndpointModel { offset: Some(call.offset), ..self.spec_endpoint() },
                    call.kind,
                )
                &&& parts.1@.len() == 5
                &&& parts.1@[0].name@ == "Authorization"@
                &&& parts.1@[0].value@ == spec_bearer(self.spec_access_token().unwrap())
                &&& parts.1@[1].name@ == "Content-Type"@
                &&& parts.1@[1].value@ == "application/json;odata=verbose"@
                &&& parts.1@[2].name@ == "Accept"@
                &&& parts.1@[2].value@ == "application/json;odata=verbose"@
                &&& parts.1@[3].name@ == "Content-Length"@
                &&& parts.1@[3].value@ == dec_str(call.data@.len())
                &&& parts.1@[4].name@ == "X-RequestDigest"@
                &&& parts.1@[4].value@ == self.spec_digest().unwrap()
            },
            r matches Err(e) ==> e@ == "missing token, digest or destination for this write"@,
    {
        let not_ready: &str = "missing token, digest or destination for this write";
        let token = match &self.token {
            Some(t) => match &t.access_token {
                Some(a) => a.clone(),
                None => {
                    return Err(SPOError::new(&not_ready.to_owned()));
                },
            },
            None => {
                return Err(SPOError::new(&not_ready.to_owned()));
            },
        };
        let digest = match &self.context_info {
            Some(c) => c.d.get_context_web_information.form_digest_value.clone(),
            None => {
                return Err(SPOError::new(&not_ready.to_owned()));
            },
        };
        if !(self.end_point.has_site() && self.end_point.has_path()
            && self.end_point.has_file_name()) {
            return Err(SPOError::new(&not_ready.to_owned()));
        }
        let mut ep = self.end_point.clone();
        ep.set_offset(&call.offset);
        let url = match call.kind {
            UploadCallKind::OneTimeSave => ep.to_file_one_time_upload_endpoint(),
            UploadCallKind::CreateEmpty => ep.to_file_one_time_upload_endpoint(),
            UploadCallKind::StartUpload => {
                if !ep.has_uuid() {
                    return Err(SPOError::new(&not_ready.to_owned()));
                }
                ep.to_file_start_upload_endpoint()
            },
            UploadCallKind::ContinueUpload => {
                if !ep.has_uuid() {
                    return Err(SPOError::new(&not_ready.to_owned()));
                }
                ep.to_file_continue_upload_endpoint()
            },
            UploadCallKind::FinishUpload => {
                if !ep.has_uuid() {
                    return Err(SPOError::new(&not_ready.to_owned()));
                }
                ep.to_file_finish_upload_endpoint()
            },
        };
        let headers = write_request_headers(&token, &digest, call.data.len());
        Ok((url, headers))
    }
}

} // verus!
