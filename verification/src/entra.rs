//! Shapes of Entra ID (Azure AD) discovery and token documents: the OpenID
//! configuration, the JWKS key set, the ID token claims, and the
//! authorization response.  Plain values; the surrounding application decodes
//! wire bytes into them.

use vstd::prelude::*;

verus! {

/// The OpenID Connect discovery document of a tenant.
#[derive(Debug, PartialEq)]
pub struct OpenIDConfigurationV2 {
    pub token_endpoint: Option<String>,
    pub token_endpoint_auth_methods_supported: Option<Vec<String>>,
    pub jwks_uri: Option<String>,
    pub response_modes_supported: Option<Vec<String>>,
    pub subject_types_supported: Option<Vec<String>>,
    pub id_token_signing_alg_values_supported: Option<Vec<String>>,
    pub response_types_supported: Option<Vec<String>>,
    pub scopes_supported: Option<Vec<String>>,
    pub issuer: Option<String>,
    pub request_uri_parameter_supported: Option<bool>,
    pub userinfo_endpoint: Option<String>,
    pub authorization_endpoint: Option<String>,
    pub device_authorization_endpoint: Option<String>,
    pub http_logout_supported: Option<bool>,
    pub frontchannel_logout_supported: Option<bool>,
    pub end_session_endpoint: Option<String>,
    pub claims_supported: Option<Vec<String>>,
    pub kerberos_endpoint: Option<String>,
    pub tenant_region_scope: Option<String>,
    pub cloud_instance_name: Option<String>,
    pub cloud_graph_host_name: Option<String>,
    pub msgraph_host: Option<String>,
    pub rbac_url: Option<String>,
}

/// A JSON Web Key Set.
#[derive(Debug, PartialEq)]
pub struct JWKS {
    pub keys: Option<Vec<JWKSKeyItem>>,
}

/// One key of a JWKS document.
#[derive(Debug, PartialEq)]
pub struct JWKSKeyItem {
    pub kty: Option<String>,
    pub use_field: Option<String>,
    pub kid: Option<String>,
    pub x5t: Option<String>,
    pub n: Option<String>,
    pub e: Option<String>,
    pub x5c: Option<Vec<String>>,
    pub issuer: Option<String>,
}

/// The claims of an Entra ID token.
#[derive(Debug, PartialEq)]
pub struct IDToken {
    pub aud: Option<String>,
    pub iss: Option<String>,
    pub iat: Option<i64>,
    pub nbf: Option<i64>,
    pub exp: Option<i64>,
    pub acct: Option<i64>,
    pub acrs: Option<Vec<String>>,
    pub aio: Option<String>,
    pub auth_time: Option<i64>,
    pub ctry: Option<String>,
    pub email: Option<String>,
    pub family_name: Option<String>,
    pub given_name: Option<String>,
    pub groups: Option<Vec<String>>,
    pub idp: Option<String>,
    pub ipaddr: Option<String>,
    pub login_hint: Option<String>,
    pub name: Option<String>,
    pub nonce: Option<String>,
    pub oid: Option<String>,
    pub preferred_username: Option<String>,
    pub rh: Option<String>,
    pub sid: Option<String>,
    pub sub: Option<String>,
    pub tenant_ctry: Option<String>,
    pub tenant_region_scope: Option<String>,
    pub tid: Option<String>,
    pub uti: Option<String>,
    pub ver: Option<String>,
    pub wids: Option<Vec<String>>,
    pub xms_pl: Option<String>,
    pub xms_tpl: Option<String>,
    pub employee_id: Option<String>,
    pub department: Option<String>,
    pub companyname: Option<String>,
    pub officelocation: Option<String>,
}

/// The fields of an authorization response.
#[derive(Debug)]
pub struct ResponseAuthorized {
    pub code: Option<String>,
    pub session_state: Option<String>,
    pub state: Option<String>,
    pub id_token: Option<String>,
    pub error: Option<String>,
    pub error_description: Option<String>,
    pub access_token: Option<String>,
    pub token_type: Option<String>,
    pub scope: Option<String>,
    pub expires_in: Option<i64>,
}

} // verus!
