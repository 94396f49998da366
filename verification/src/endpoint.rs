//! The SharePoint Online endpoint builder.
//!
//! An [`SPOEndpoint`] is an immutable-by-value description of one destination:
//! domain, site, server-relative path, file name, and — once a chunked upload
//! session exists — the upload session id and the byte offset.  The renderers
//! are pure: each one's `ensures` pins the exact character sequence of the URL,
//! so equal inputs always render the same string.
//!
//! Callers supply path and file-name segments already escaped for a URL; no
//! encoding is performed here.

use vstd::prelude::*;

use crate::text::dec_str;

verus! {

/// The mathematical content of an endpoint: each field as a character
/// sequence (or plain value), optional fields as `Option`.
pub struct EndpointModel {
    pub domain: Seq<char>,
    pub site: Option<Seq<char>>,
    pub path: Option<Seq<char>>,
    pub file_name: Option<Seq<char>>,
    pub offset: Option<u64>,
    pub uuid: Option<Seq<char>>,
}

/// Describes one SharePoint Online destination and renders the REST URLs
/// that write to it.
pub struct SPOEndpoint {
    share_point_domain: String,
    share_point_site: Option<String>,
    path: Option<String>,
    file_name: Option<String>,
    offset: Option<u64>,
    uuid: Option<String>,
}

impl View for SPOEndpoint {
    type V = EndpointModel;

    closed spec fn view(&self) -> EndpointModel {
        EndpointModel {
            domain: self.share_point_domain@,
            site: match self.share_point_site {
                Some(s) => Some(s@),
                None => None,
            },
            path: match self.path {
                Some(s) => Some(s@),
                None => None,
            },
            file_name: match self.file_name {
                Some(s) => Some(s@),
                None => None,
            },
            offset: self.offset,
            uuid: match self.uuid {
                Some(s) => Some(s@),
                None => None,
            },
        }
    }
}

/// `https://{domain}.sharepoint.com`
pub open spec fn spec_domain_url(m: EndpointModel) -> Seq<char> {
    "https://"@ + m.domain + ".sharepoint.com"@
}

/// `https://{domain}.sharepoint.com/sites/{site}`
pub open spec fn spec_web_url(m: EndpointModel) -> Seq<char>
    recommends
        m.site is Some,
{
    spec_domain_url(m) + "/sites/"@ + m.site.unwrap()
}

/// `{web}/_api/ContextInfo`
pub open spec fn spec_digest_url(m: EndpointModel) -> Seq<char>
    recommends
        m.site is Some,
{
    spec_web_url(m) + "/_api/ContextInfo"@
}

/// `{web}/_api/web/GetFolderByServerRelativeUrl('{path}')/Files/add(url='{file}',overwrite=true)`
pub open spec fn spec_one_time_url(m: EndpointModel) -> Seq<char>
    recommends
        m.site is Some,
        m.path is Some,
        m.file_name is Some,
{
    spec_web_url(m) + "/_api/web/GetFolderByServerRelativeUrl('"@ + m.path.unwrap()
        + "')/Files/add(url='"@ + m.file_name.unwrap() + "',overwrite=true)"@
}

/// `{web}/_api/web/GetFileByServerRelativeUrl('{path}/{file}')` — the common
/// prefix of the three chunked-upload endpoints.
pub open spec fn spec_file_url(m: EndpointModel) -> Seq<char>
    recommends
        m.site is Some,
        m.path is Some,
        m.file_name is Some,
{
    spec_web_url(m) + "/_api/web/GetFileByServerRelativeUrl('"@ + m.path.unwrap() + "/"@
        + m.file_name.unwrap() + "')"@
}

/// `{file}/StartUpload(uploadId='{uuid}')`
pub open spec fn spec_start_upload_url(m: EndpointModel) -> Seq<char>
    recommends
        m.site is Some,
        m.path is Some,
        m.file_name is Some,
        m.uuid is Some,
{
    spec_file_url(m) + "/StartUpload(uploadId='"@ + m.uuid.unwrap() + "')"@
}

/// `{file}/ContinueUpload(uploadId='{uuid}',fileOffset={offset})`
pub open spec fn spec_continue_upload_url(m: EndpointModel) -> Seq<char>
    recommends
        m.site is Some,
        m.path is Some,
        m.file_name is Some,
        m.uuid is Some,
        m.offset is Some,
{
    spec_file_url(m) + "/ContinueUpload(uploadId='"@ + m.uuid.unwrap() + "',fileOffset="@
        + dec_str(m.offset.unwrap() as nat) + ")"@
}

/// `{file}/FinishUpload(uploadId='{uuid}',fileOffset={offset})`
pub open spec fn spec_finish_upload_url(m: EndpointModel) -> Seq<char>
    recommends
        m.site is Some,
        m.path is Some,
        m.file_name is Some,
        m.uuid is Some,
        m.offset is Some,
{
    spec_file_url(m) + "/FinishUpload(uploadId='"@ + m.uuid.unwrap() + "',fileOffset="@
        + dec_str(m.offset.unwrap() as nat) + ")"@
}

fn clone_opt_string(o: &Option<String>) -> (r: Option<String>)
    ensures
        r == *o,
{
    match o {
        Some(s) => Some(s.clone()),
        None => None,
    }
}

impl Clone for SPOEndpoint {
    fn clone(&self) -> (r: Self)
        ensures
            r == *self,
    {
        SPOEndpoint {
            share_point_domain: self.share_point_domain.clone(),
            share_point_site: clone_opt_string(&self.share_point_site),
            path: clone_opt_string(&self.path),
            file_name: clone_opt_string(&self.file_name),
            offset: self.offset,
            uuid: clone_opt_string(&self.uuid),
        }
    }
}

impl SPOEndpoint {
    /// A fresh endpoint for one SharePoint domain; every other field is
    /// unset until the corresponding setter supplies it.
    pub fn new(share_point_domain: &String) -> (r: SPOEndpoint)
        ensures
            r@ == (EndpointModel {
                domain: share_point_domain@,
                site: None,
                path: None,
                file_name: None,
                offset: None,
                uuid: None,
            }),
    {
        SPOEndpoint {
            share_point_domain: share_point_domain.clone(),
            share_point_site: None,
            path: None,
            file_name: None,
            offset: None,
            uuid: None,
        }
    }

    pub fn set_site(&mut self, site: &String) -> (r: SPOEndpoint)
        ensures
            final(self)@ == (EndpointModel { site: Some(site@), ..old(self)@ }),
            r == *final(self),
    {
        self.share_point_site = Some(site.clone());
        self.clone()
    }

    pub fn set_path(&mut self, path: &String) -> (r: SPOEndpoint)
        ensures
            final(self)@ == (EndpointModel { path: Some(path@), ..old(self)@ }),
            r == *final(self),
    {
        self.path = Some(path.clone());
        self.clone()
    }

    pub fn set_file_name(&mut self, file_name: &String) -> (r: SPOEndpoint)
        ensures
            final(self)@ == (EndpointModel { file_name: Some(file_name@), ..old(self)@ }),
            r == *final(self),
    {
        self.file_name = Some(file_name.clone());
        self.clone()
    }

    pub fn set_offset(&mut self, offset: &u64) -> (r: SPOEndpoint)
        ensures
            final(self)@ == (EndpointModel { offset: Some(*offset), ..old(self)@ }),
            r == *final(self),
    {
        self.offset = Some(*offset);
        self.clone()
    }

    pub fn set_uuid(&mut self, uuid: &String) -> (r: SPOEndpoint)
        ensures
            final(self)@ == (EndpointModel { uuid: Some(uuid@), ..old(self)@ }),
            r == *final(self),
    {
        self.uuid = Some(uuid.clone());
        self.clone()
    }

    /// Whether a site was set.
    pub fn has_site(&self) -> (r: bool)
        ensures
            r == (self@.site is Some),
    {
        self.share_point_site.is_some()
    }

    /// Whether a server-relative path was set.
    pub fn has_path(&self) -> (r: bool)
        ensures
            r == (self@.path is Some),
    {
        self.path.is_some()
    }

    /// Whether a file name was set.
    pub fn has_file_name(&self) -> (r: bool)
        ensures
            r == (self@.file_name is Some),
    {
        self.file_name.is_some()
    }

    /// Whether an upload session id was set.
    pub fn has_uuid(&self) -> (r: bool)
        ensures
            r == (self@.uuid is Some),
    {
        self.uuid.is_some()
    }

    /// `https://{domain}.sharepoint.com`
    pub fn to_spo_domain_url(&self) -> (r: String)
        ensures
            r@ == spec_domain_url(self@),
    {
        let mut s = String::new();
        s.append("https://");
        s.append(self.share_point_domain.as_str());
        s.append(".sharepoint.com");
        proof {
            assert(s@ =~= spec_domain_url(self@));
        }
        s
    }

    /// `https://{domain}.sharepoint.com/sites/{site}`
    pub fn to_spo_web_url(&self) -> (r: String)
        requires
            self@.site is Some,
        ensures
            r@ == spec_web_url(self@),
    {
        let mut s = self.to_spo_domain_url();
        s.append("/sites/");
        match &self.share_point_site {
            Some(site) => s.append(site.as_str()),
            None => (),
        }
        proof {
            assert(s@ =~= spec_web_url(self@));
        }
        s
    }

    /// The `contextinfo` endpoint that issues the form digest.
    pub fn to_spo_digest_url(&self) -> (r: String)
        requires
            self@.site is Some,
        ensures
            r@ == spec_digest_url(self@),
    {
        let mut s = self.to_spo_web_url();
        s.append("/_api/ContextInfo");
        proof {
            assert(s@ =~= spec_digest_url(self@));
        }
        s
    }

    /// The one-time-save endpoint: a single write that creates (or
    /// overwrites) the destination file with the request body as content.
    pub fn to_file_one_time_upload_endpoint(&self) -> (r: String)
        requires
            self@.site is Some,
            self@.path is Some,
            self@.file_name is Some,
        ensures
            r@ == spec_one_time_url(self@),
    {
        let mut s = self.to_spo_web_url();
        s.append("/_api/web/GetFolderByServerRelativeUrl('");
        match &self.path {
            Some(path) => s.append(path.as_str()),
            None => (),
        }
        s.append("')/Files/add(url='");
        match &self.file_name {
            Some(file_name) => s.append(file_name.as_str()),
            None => (),
        }
        s.append("',overwrite=true)");
        proof {
            assert(s@ =~= spec_one_time_url(self@));
        }
        s
    }

    /// `{path}/{file}` addressed as an existing file — the prefix shared by
    /// the three chunked-upload endpoints.
    fn to_file_url(&self) -> (r: String)
        requires
            self@.site is Some,
            self@.path is Some,
            self@.file_name is Some,
        ensures
            r@ == spec_file_url(self@),
    {
        let mut s = self.to_spo_web_url();
        s.append("/_api/web/GetFileByServerRelativeUrl('");
        match &self.path {
            Some(path) => s.append(path.as_str()),
            None => (),
        }
        s.append("/");
        match &self.file_name {
            Some(file_name) => s.append(file_name.as_str()),
            None => (),
        }
        s.append("')");
        proof {
            assert(s@ =~= spec_file_url(self@));
        }
        s
    }

    /// The `StartUpload` endpoint: first chunk of an upload session.
    pub fn to_file_start_upload_endpoint(&self) -> (r: String)
        requires
            self@.site is Some,
            self@.path is Some,
            self@.file_name is Some,
            self@.uuid is Some,
        ensures
            r@ == spec_start_upload_url(self@),
    {
        let mut s = self.to_file_url();
        s.append("/StartUpload(uploadId='");
        match &self.uuid {
            Some(uuid) => s.append(uuid.as_str()),
            None => (),
        }
        s.append("')");
        proof {
            assert(s@ =~= spec_start_upload_url(self@));
        }
        s
    }

    /// The `ContinueUpload` endpoint: a middle chunk at `offset`.
    pub fn to_file_continue_upload_endpoint(&self) -> (r: String)
        requires
            self@.site is Some,
            self@.path is Some,
            self@.file_name is Some,
            self@.uuid is Some,
            self@.offset is Some,
        ensures
            r@ == spec_continue_upload_url(self@),
    {
        let mut s = self.to_file_url();
        s.append("/ContinueUpload(uploadId='");
        match &self.uuid {
            Some(uuid) => s.append(uuid.as_str()),
            None => (),
        }
        s.append("',fileOffset=");
        match self.offset {
            Some(offset) => {
                let rendered = crate::text::u64_to_string(offset);
                s.append(rendered.as_str());
            },
            None => (),
        }
        s.append(")");
        proof {
            assert(s@ =~= spec_continue_upload_url(self@));
        }
        s
    }

    /// The `FinishUpload` endpoint: the final chunk at `offset`, which
    /// closes the upload session.
    pub fn to_file_finish_upload_endpoint(&self) -> (r: String)
        requires
            self@.site is Some,
            self@.path is Some,
            self@.file_name is Some,
            self@.uuid is Some,
            self@.offset is Some,
        ensures
            r@ == spec_finish_upload_url(self@),
    {
        let mut s = self.to_file_url();
        s.append("/FinishUpload(uploadId='");
        match &self.uuid {
            Some(uuid) => s.append(uuid.as_str()),
            None => (),
        }
        s.append("',fileOffset=");
        match self.offset {
            Some(offset) => {
                let rendered = crate::text::u64_to_string(offset);
                s.append(rendered.as_str());
            },
            None => (),
        }
        s.append(")");
        proof {
            assert(s@ =~= spec_finish_upload_url(self@));
        }
        s
    }

    /// One-time save, under the name used where the endpoint type carries
    /// the whole destination itself.
    pub fn to_spo_one_time_save_endpoint(&self) -> (r: String)
        requires
            self@.site is Some,
            self@.path is Some,
            self@.file_name is Some,
        ensures
            r@ == spec_one_time_url(self@),
    {
        self.to_file_one_time_upload_endpoint()
    }

    /// `StartUpload`, under its alternative name.
    pub fn to_spo_start_upload_endpoint(&self) -> (r: String)
        requires
            self@.site is Some,
            self@.path is Some,
            self@.file_name is Some,
            self@.uuid is Some,
        ensures
            r@ == spec_start_upload_url(self@),
    {
        self.to_file_start_upload_endpoint()
    }

    /// `ContinueUpload`, under its alternative name.
    pub fn to_spo_start_continue_endpoint(&self) -> (r: String)
        requires
            self@.site is Some,
            self@.path is Some,
            self@.file_name is Some,
            self@.uuid is Some,
            self@.offset is Some,
        ensures
            r@ == spec_continue_upload_url(self@),
    {
        self.to_file_continue_upload_endpoint()
    }

    /// `FinishUpload`, under its alternative name.
    pub fn to_spo_start_finish_endpoint(&self) -> (r: String)
        requires
            self@.site is Some,
            self@.path is Some,
            self@.file_name is Some,
            self@.uuid is Some,
            self@.offset is Some,
        ensures
            r@ == spec_finish_upload_url(self@),
    {
        self.to_file_finish_upload_endpoint()
    }
}

/// The endpoint builder is a pure function of its inputs: two endpoints with
/// the same model render the same URL for every operation.
pub proof fn lemma_endpoint_rendering_deterministic(a: EndpointModel, b: EndpointModel)
    requires
        a == b,
    ensures
        spec_domain_url(a) == spec_domain_url(b),
        spec_web_url(a) == spec_web_url(b),
        spec_digest_url(a) == spec_digest_url(b),
        spec_one_time_url(a) == spec_one_time_url(b),
        spec_start_upload_url(a) == spec_start_upload_url(b),
        spec_continue_upload_url(a) == spec_continue_upload_url(b),
        spec_finish_upload_url(a) == spec_finish_upload_url(b),
{
}

} // verus!
