use wpe::{
    check_status, page_offset, AccountUser, AccountUserPatch, ApiError, Backup, Config, Domain,
    DomainPatch, Install, InstallPatch, Method, SSHKey, Site, SitePatch, UsageError, User,
    UserPatch, API,
};

fn api() -> API {
    API::new(Config {
        wpengine_user_id: "user".to_string(),
        wpengine_password: "pass".to_string(),
        wpengine_api: "https://api.example/v1".to_string(),
    })
}

#[test]
fn offset_is_page_times_hundred() {
    assert_eq!(page_offset(None), 0);
    assert_eq!(page_offset(Some(0)), 0);
    assert_eq!(page_offset(Some(1)), 100);
    assert_eq!(page_offset(Some(7)), 700);
    assert_eq!(page_offset(Some(u32::MAX)), 429496729500);
}

#[test]
fn list_requests_carry_offset() {
    let a = api();
    assert_eq!(a.get_sites(None).url, "https://api.example/v1/sites?offset=0");
    assert_eq!(a.get_sites(Some(3)).url, "https://api.example/v1/sites?offset=300");
    assert_eq!(a.get_installs(Some(12)).url, "https://api.example/v1/installs?offset=1200");
    assert_eq!(a.get_accounts(Some(0)).url, "https://api.example/v1/accounts?offset=0");
    assert_eq!(a.get_ssh_keys(None).url, "https://api.example/v1/ssh_keys?offset=0");
    assert_eq!(
        a.get_domains("i1", Some(2)).url,
        "https://api.example/v1/installs/i1/domains?offset=200"
    );
}

#[test]
fn every_request_carries_credentials() {
    let r = api().get_sites(None);
    assert_eq!(r.method, Method::Get);
    assert_eq!(r.user, "user");
    assert_eq!(r.password, "pass");
    assert!(r.body.is_none());
}

#[test]
fn item_requests_have_paths_and_verbs() {
    let a = api();
    let r = a.get_site_by_id("s1");
    assert_eq!((r.method, r.url.as_str()), (Method::Get, "https://api.example/v1/sites/s1"));
    let r = a.delete_site("s1");
    assert_eq!((r.method, r.url.as_str()), (Method::Delete, "https://api.example/v1/sites/s1"));
    let r = a.delete_install("i1");
    assert_eq!((r.method, r.url.as_str()), (Method::Delete, "https://api.example/v1/installs/i1"));
    let r = a.get_backup("i1", "b2");
    assert_eq!(r.url, "https://api.example/v1/installs/i1/backups/b2");
    let r = a.get_user_by_id("a1", "u2");
    assert_eq!(r.url, "https://api.example/v1/accounts/a1/account_users/u2");
    let r = a.delete_user("a1", "u2");
    assert_eq!(r.method, Method::Delete);
    let r = a.get_domain_by_id("i1", "d3");
    assert_eq!(r.url, "https://api.example/v1/installs/i1/domains/d3");
    let r = a.delete_domain("i1", "d3");
    assert_eq!(r.method, Method::Delete);
    let r = a.delete_ssh_key("k1");
    assert_eq!(r.url, "https://api.example/v1/ssh_keys/k1");
    assert_eq!(a.status().url, "https://api.example/v1/status");
    assert_eq!(a.swagger().url, "https://api.example/v1/swagger");
    assert_eq!(a.get_user().url, "https://api.example/v1/user");
    assert_eq!(a.get_account_by_id("a1").url, "https://api.example/v1/accounts/a1");
    assert_eq!(a.get_install_by_id("i1").url, "https://api.example/v1/installs/i1");
}

#[test]
fn create_requests_send_json_bodies() {
    let a = api();
    let r = a.add_site(&Site { name: "blog".to_string(), account_id: "a1".to_string() });
    assert_eq!(r.method, Method::Post);
    assert_eq!(r.url, "https://api.example/v1/sites");
    assert_eq!(r.body.as_deref(), Some(r#"{"name":"blog","account_id":"a1"}"#));
    let r = a.add_install(&Install {
        name: "i".to_string(),
        account_id: "a".to_string(),
        site_id: "s".to_string(),
        environment: "staging".to_string(),
    });
    assert_eq!(
        r.body.as_deref(),
        Some(r#"{"name":"i","account_id":"a","site_id":"s","environment":"staging"}"#)
    );
    let r = a.add_ssh_key(&SSHKey { public_key: "ssh-rsa AAA".to_string() });
    assert_eq!(r.body.as_deref(), Some(r#"{"public_key":"ssh-rsa AAA"}"#));
    let r = a.purge_cache("i1", "object".to_string());
    assert_eq!(r.url, "https://api.example/v1/installs/i1/purge_cache");
    assert_eq!(r.body.as_deref(), Some(r#"{"type":"object"}"#));
    let r = a.backup(
        "i1",
        &Backup {
            description: "nightly".to_string(),
            notification_emails: vec!["a@b.c".to_string(), "d@e.f".to_string()],
        },
    );
    assert_eq!(r.url, "https://api.example/v1/installs/i1/backups");
    assert_eq!(
        r.body.as_deref(),
        Some(r#"{"description":"nightly","notification_emails":["a@b.c","d@e.f"]}"#)
    );
    let r = a.add_domain("i1", &Domain { name: "x.com".to_string(), primary: true });
    assert_eq!(r.body.as_deref(), Some(r#"{"name":"x.com","primary":true}"#));
    let r = a.add_user(
        "a1",
        &AccountUser {
            user: User {
                account_id: "a1".to_string(),
                first_name: "F".to_string(),
                last_name: "L".to_string(),
                email: "f@l.x".to_string(),
                roles: "owner".to_string(),
                install_ids: vec![],
            },
        },
    );
    assert_eq!(r.url, "https://api.example/v1/accounts/a1/account_users");
    assert_eq!(
        r.body.as_deref(),
        Some(
            r#"{"user":{"account_id":"a1","first_name":"F","last_name":"L","email":"f@l.x","roles":"owner","install_ids":[]}}"#
        )
    );
}

#[test]
fn patch_bodies_leave_unset_fields_out() {
    let a = api();
    let r = a.update_site("s1", &SitePatch { name: None });
    assert_eq!(r.method, Method::Patch);
    assert_eq!(r.body.as_deref(), Some("{}"));
    let r = a.update_site("s1", &SitePatch { name: Some("new".to_string()) });
    assert_eq!(r.body.as_deref(), Some(r#"{"name":"new"}"#));
    let r = a.update_install(
        "i1",
        &InstallPatch { site_id: Some("s9".to_string()), environment: None },
    );
    assert_eq!(r.body.as_deref(), Some(r#"{"site_id":"s9"}"#));
    let r = a.update_domain(
        "i1",
        "d1",
        &DomainPatch { primary: None, redirect_to: Some("y.com".to_string()) },
    );
    assert_eq!(r.body.as_deref(), Some(r#"{"redirect_to":"y.com"}"#));
    let r = a.update_user(
        "a1",
        "u1",
        &AccountUserPatch { user: UserPatch { roles: None, install_ids: Some(vec!["i".to_string()]) } },
    );
    assert_eq!(r.body.as_deref(), Some(r#"{"user":{"install_ids":["i"]}}"#));
}

#[test]
fn patch_round_trip_through_json_reader() {
    let body = InstallPatch { site_id: Some("s9".to_string()), environment: None }.to_json();
    let v: serde_json::Value = serde_json::from_str(&body).unwrap();
    let obj = v.as_object().unwrap();
    assert_eq!(obj.get("site_id").and_then(|x| x.as_str()), Some("s9"));
    assert!(!obj.contains_key("environment"));
    let body = SitePatch { name: None }.to_json();
    let v: serde_json::Value = serde_json::from_str(&body).unwrap();
    assert!(!v.as_object().unwrap().contains_key("name"));
}

#[test]
fn strings_are_escaped() {
    let body = SitePatch { name: Some("a\"b\\c\nd\u{1}é".to_string()) }.to_json();
    assert_eq!(body, "{\"name\":\"a\\\"b\\\\c\\u000ad\\u0001é\"}");
    let v: serde_json::Value = serde_json::from_str(&body).unwrap();
    assert_eq!(v["name"].as_str(), Some("a\"b\\c\nd\u{1}é"));
}

#[test]
fn unauthorised_answer_is_remote_error() {
    match check_status(401, "denied".to_string()) {
        Err(ApiError::Remote { status, body }) => {
            assert_eq!(status, 401);
            assert_eq!(body, "denied");
        }
        _ => panic!("expected a remote error"),
    }
    let e = check_status(401, "denied".to_string()).unwrap_err();
    assert_eq!(e.message(), "the API answered with status 401: denied");
}

#[test]
fn success_answer_passes_body() {
    assert_eq!(check_status(200, "{}".to_string()).unwrap(), "{}");
    assert_eq!(check_status(399, "x".to_string()).unwrap(), "x");
    assert!(check_status(400, "x".to_string()).is_err());
    assert!(check_status(503, "x".to_string()).is_err());
}

#[test]
fn error_messages() {
    assert_eq!(ApiError::Transport("timeout".to_string()).message(), "could not reach the API: timeout");
    assert_eq!(ApiError::Decode("eof".to_string()).message(), "could not read the API's answer: eof");
    assert_eq!(UsageError::MissingArgument.message(), "a required argument is missing");
    assert_eq!(
        UsageError::InvalidSelection.message(),
        "the selection is not one of the items offered"
    );
    assert_eq!(
        UsageError::InvalidArgument.message(),
        "an argument does not have the expected form"
    );
}
