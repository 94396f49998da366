use blob2spo::SPOEndpoint;

fn full_endpoint() -> SPOEndpoint {
    let mut e = SPOEndpoint::new(&"contoso".to_string());
    e.set_site(&"MVP".to_string());
    e.set_path(&"/sites/MVP/Shared%20Documents".to_string());
    e.set_file_name(&"report.pdf".to_string());
    e.set_uuid(&"4d11fc3e-0f04-4b4a-9d5e-0a6b7c1d2e3f".to_string());
    e.set_offset(&67108864u64);
    e
}

#[test]
fn domain_url_is_rendered() {
    let e = SPOEndpoint::new(&"contoso".to_string());
    assert_eq!(e.to_spo_domain_url(), "https://contoso.sharepoint.com");
}

#[test]
fn web_url_is_rendered() {
    let mut e = SPOEndpoint::new(&"contoso".to_string());
    let e = e.set_site(&"MVP".to_string());
    assert_eq!(e.to_spo_web_url(), "https://contoso.sharepoint.com/sites/MVP");
}

#[test]
fn digest_url_is_rendered() {
    let e = full_endpoint();
    assert_eq!(
        e.to_spo_digest_url(),
        "https://contoso.sharepoint.com/sites/MVP/_api/ContextInfo"
    );
}

#[test]
fn one_time_upload_url_is_rendered() {
    let e = full_endpoint();
    assert_eq!(
        e.to_file_one_time_upload_endpoint(),
        "https://contoso.sharepoint.com/sites/MVP/_api/web/GetFolderByServerRelativeUrl\
         ('/sites/MVP/Shared%20Documents')/Files/add(url='report.pdf',overwrite=true)"
    );
}

#[test]
fn start_upload_url_is_rendered() {
    let e = full_endpoint();
    assert_eq!(
        e.to_file_start_upload_endpoint(),
        "https://contoso.sharepoint.com/sites/MVP/_api/web/GetFileByServerRelativeUrl\
         ('/sites/MVP/Shared%20Documents/report.pdf')/StartUpload\
         (uploadId='4d11fc3e-0f04-4b4a-9d5e-0a6b7c1d2e3f')"
    );
}

#[test]
fn continue_upload_url_is_rendered() {
    let e = full_endpoint();
    assert_eq!(
        e.to_file_continue_upload_endpoint(),
        "https://contoso.sharepoint.com/sites/MVP/_api/web/GetFileByServerRelativeUrl\
         ('/sites/MVP/Shared%20Documents/report.pdf')/ContinueUpload\
         (uploadId='4d11fc3e-0f04-4b4a-9d5e-0a6b7c1d2e3f',fileOffset=67108864)"
    );
}

#[test]
fn finish_upload_url_is_rendered() {
    let e = full_endpoint();
    assert_eq!(
        e.to_file_finish_upload_endpoint(),
        "https://contoso.sharepoint.com/sites/MVP/_api/web/GetFileByServerRelativeUrl\
         ('/sites/MVP/Shared%20Documents/report.pdf')/FinishUpload\
         (uploadId='4d11fc3e-0f04-4b4a-9d5e-0a6b7c1d2e3f',fileOffset=67108864)"
    );
}

#[test]
fn alternative_names_render_the_same_urls() {
    let e = full_endpoint();
    assert_eq!(
        e.to_spo_one_time_save_endpoint(),
        e.to_file_one_time_upload_endpoint()
    );
    assert_eq!(
        e.to_spo_start_upload_endpoint(),
        e.to_file_start_upload_endpoint()
    );
    assert_eq!(
        e.to_spo_start_continue_endpoint(),
        e.to_file_continue_upload_endpoint()
    );
    assert_eq!(
        e.to_spo_start_finish_endpoint(),
        e.to_file_finish_upload_endpoint()
    );
}

#[test]
fn rendering_is_deterministic() {
    // the builder is a pure function: equal inputs, equal URL strings
    let a = full_endpoint();
    let b = full_endpoint();
    assert_eq!(a.to_file_one_time_upload_endpoint(), b.to_file_one_time_upload_endpoint());
    assert_eq!(a.to_file_start_upload_endpoint(), b.to_file_start_upload_endpoint());
    assert_eq!(a.to_file_continue_upload_endpoint(), b.to_file_continue_upload_endpoint());
    assert_eq!(a.to_file_finish_upload_endpoint(), b.to_file_finish_upload_endpoint());
    assert_eq!(a.to_file_continue_upload_endpoint(), a.to_file_continue_upload_endpoint());
}

#[test]
fn setters_return_the_updated_endpoint() {
    let mut e = SPOEndpoint::new(&"contoso".to_string());
    let snapshot = e.set_site(&"TeamSite".to_string());
    assert_eq!(snapshot.to_spo_web_url(), "https://contoso.sharepoint.com/sites/TeamSite");
    assert_eq!(e.to_spo_web_url(), "https://contoso.sharepoint.com/sites/TeamSite");
}

#[test]
fn offset_is_rendered_in_decimal() {
    let mut e = full_endpoint();
    e.set_offset(&0u64);
    assert!(e.to_file_continue_upload_endpoint().ends_with("fileOffset=0)"));
    e.set_offset(&18446744073709551615u64);
    assert!(e
        .to_file_finish_upload_endpoint()
        .ends_with("fileOffset=18446744073709551615)"));
}
