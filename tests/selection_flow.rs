use wpe::{
    parse_page, Action, Command, Config, Event, Item, Method, Report, Resolver, Resource, Site,
    SitePatch, Stage, UsageError, API,
};

fn api() -> API {
    API::new(Config {
        wpengine_user_id: "user".to_string(),
        wpengine_password: "pass".to_string(),
        wpengine_api: "https://api.example/v1".to_string(),
    })
}

fn item(id: &str, label: &str) -> Item {
    Item { id: id.to_string(), label: label.to_string() }
}

fn two_sites() -> Vec<Item> {
    vec![item("s1", "blog"), item("s2", "shop")]
}

fn expect_fetch(a: Action, url: &str) {
    match a {
        Action::Fetch(r) => {
            assert_eq!(r.method, Method::Get);
            assert_eq!(r.url, url);
        }
        _ => panic!("expected a fetch of {}", url),
    }
}

fn expect_choose(a: Action, prompt: &str, options: &[&str]) {
    match a {
        Action::Choose(p, o) => {
            assert_eq!(p, prompt);
            assert_eq!(o, options.iter().map(|s| s.to_string()).collect::<Vec<_>>());
        }
        _ => panic!("expected a choice under {}", prompt),
    }
}

fn at_menu(resource: Resource, items: Vec<Item>) -> Resolver {
    let (mut r, first) = Resolver::interactive(api(), resource, None);
    assert!(matches!(first, Action::Fetch(_)));
    let _ = r.next(Event::Listed(items));
    r
}

#[test]
fn headless_list_sends_one_get_of_first_page() {
    let (mut r, a) = Resolver::headless(api(), Resource::Sites, None, Command::List(None));
    match a {
        Action::Send(req, Report::Json(prefix)) => {
            assert_eq!(req.method, Method::Get);
            assert_eq!(req.url, "https://api.example/v1/sites?offset=0");
            assert!(req.body.is_none());
            assert_eq!(prefix, "");
        }
        _ => panic!("expected one request"),
    }
    assert_eq!(r.stage(), Stage::Sending);
    assert!(matches!(r.next(Event::Responded), Action::Finish));
    assert!(matches!(r.next(Event::Responded), Action::Finish));
}

#[test]
fn headless_commands_send_exactly_their_request() {
    let (_, a) = Resolver::headless(api(), Resource::Sites, Some(2), Command::Show);
    assert!(matches!(a, Action::Send(ref q, _) if q.url == "https://api.example/v1/sites?offset=200"));
    let (_, a) = Resolver::headless(
        api(),
        Resource::Sites,
        None,
        Command::List(Some("s1".to_string())),
    );
    assert!(matches!(a, Action::Send(ref q, _) if q.url == "https://api.example/v1/sites/s1"));
    let (_, a) = Resolver::headless(
        api(),
        Resource::Sites,
        None,
        Command::AddSite(Site { name: "n".to_string(), account_id: "a".to_string() }),
    );
    assert!(matches!(a, Action::Send(ref q, _) if q.method == Method::Post));
    let (_, a) = Resolver::headless(
        api(),
        Resource::Sites,
        None,
        Command::UpdateSite { id: "s1".to_string(), patch: SitePatch { name: None } },
    );
    assert!(matches!(a, Action::Send(ref q, _) if q.method == Method::Patch && q.body.as_deref() == Some("{}")));
    let (_, a) = Resolver::headless(api(), Resource::SshKeys, None, Command::Delete("k".to_string()));
    assert!(matches!(a, Action::Send(ref q, Report::Nothing) if q.url == "https://api.example/v1/ssh_keys/k"));
}

#[test]
fn headless_command_of_another_domain_fails() {
    let (r, a) = Resolver::headless(
        api(),
        Resource::Installs,
        None,
        Command::AddSite(Site { name: "n".to_string(), account_id: "a".to_string() }),
    );
    assert!(matches!(a, Action::Fail(UsageError::InvalidArgument)));
    assert_eq!(r.stage(), Stage::Done);
    let (_, a) = Resolver::headless(api(), Resource::Accounts, None, Command::Delete("a".to_string()));
    assert!(matches!(a, Action::Fail(UsageError::InvalidArgument)));
}

#[test]
fn interactive_start_fetches_the_page() {
    let (r, a) = Resolver::interactive(api(), Resource::Installs, Some(1));
    expect_fetch(a, "https://api.example/v1/installs?offset=100");
    assert_eq!(r.stage(), Stage::Listing);
}

#[test]
fn menu_offers_four_actions() {
    let (mut r, _) = Resolver::interactive(api(), Resource::Sites, None);
    let a = r.next(Event::Listed(two_sites()));
    expect_choose(a, "Choose an option", &["List All", "Add Site", "Update Site", "Delete Site"]);
}

#[test]
fn list_all_shows_selected_item() {
    let mut r = at_menu(Resource::Sites, two_sites());
    expect_choose(r.next(Event::Chosen(0)), "Select one to view", &["blog", "shop"]);
    match r.next(Event::Chosen(1)) {
        Action::Send(q, Report::Json(p)) => {
            assert_eq!(q.url, "https://api.example/v1/sites/s2");
            assert_eq!(p, "Selection: ");
        }
        _ => panic!("expected a get"),
    }
    assert!(matches!(r.next(Event::Responded), Action::Finish));
}

#[test]
fn empty_collection_still_offers_menu_and_rejects_pick() {
    let mut r = at_menu(Resource::Sites, vec![]);
    expect_choose(r.next(Event::Chosen(0)), "Select one to view", &[]);
    assert!(matches!(r.next(Event::Chosen(0)), Action::Fail(UsageError::InvalidSelection)));
    assert_eq!(r.stage(), Stage::Done);
}

#[test]
fn menu_position_out_of_range_fails() {
    let mut r = at_menu(Resource::SshKeys, vec![]);
    assert!(matches!(r.next(Event::Chosen(3)), Action::Fail(UsageError::InvalidSelection)));
}

#[test]
fn add_site_picks_account_from_fresh_fetch() {
    let mut r = at_menu(Resource::Sites, two_sites());
    assert!(matches!(r.next(Event::Chosen(1)), Action::Ask(ref p, false) if p == "Enter a site name"));
    expect_fetch(r.next(Event::Entered("new".to_string())), "https://api.example/v1/accounts?offset=0");
    let a = r.next(Event::Listed(vec![item("a1", "Acme"), item("a2", "Beta")]));
    expect_choose(a, "Select an account", &["Acme", "Beta"]);
    match r.next(Event::Chosen(1)) {
        Action::Send(q, _) => {
            assert_eq!(q.method, Method::Post);
            assert_eq!(q.url, "https://api.example/v1/sites");
            assert_eq!(q.body.as_deref(), Some(r#"{"name":"new","account_id":"a2"}"#));
        }
        _ => panic!("expected a create"),
    }
}

#[test]
fn add_install_collects_account_site_and_environment() {
    let mut r = at_menu(Resource::Installs, vec![]);
    assert!(matches!(r.next(Event::Chosen(1)), Action::Ask(ref p, false) if p == "Enter an install name"));
    expect_fetch(r.next(Event::Entered("inst".to_string())), "https://api.example/v1/accounts?offset=0");
    let _ = r.next(Event::Listed(vec![item("a1", "Acme")]));
    expect_fetch(r.next(Event::Chosen(0)), "https://api.example/v1/sites?offset=0");
    let _ = r.next(Event::Listed(vec![item("s7", "blog")]));
    expect_choose(
        r.next(Event::Chosen(0)),
        "Select an environment",
        &["development", "staging", "production"],
    );
    match r.next(Event::Chosen(2)) {
        Action::Send(q, _) => {
            assert_eq!(q.url, "https://api.example/v1/installs");
            assert_eq!(
                q.body.as_deref(),
                Some(r#"{"name":"inst","account_id":"a1","site_id":"s7","environment":"production"}"#)
            );
        }
        _ => panic!("expected a create"),
    }
}

#[test]
fn add_ssh_key_sends_key() {
    let mut r = at_menu(Resource::SshKeys, vec![]);
    let _ = r.next(Event::Chosen(1));
    match r.next(Event::Entered("ssh-ed25519 AAAA".to_string())) {
        Action::Send(q, _) => {
            assert_eq!(q.url, "https://api.example/v1/ssh_keys");
            assert_eq!(q.body.as_deref(), Some(r#"{"public_key":"ssh-ed25519 AAAA"}"#));
        }
        _ => panic!("expected a create"),
    }
}

#[test]
fn ssh_list_all_shows_page() {
    let mut r = at_menu(Resource::SshKeys, vec![item("k1", "laptop")]);
    assert!(matches!(r.next(Event::Chosen(0)), Action::ShowListing(ref p) if p == "Selection: "));
    assert_eq!(r.stage(), Stage::Done);
}

#[test]
fn empty_site_name_cancels_update_without_patch() {
    let mut r = at_menu(Resource::Sites, two_sites());
    expect_choose(r.next(Event::Chosen(2)), "Select one to update", &["blog", "shop"]);
    assert!(matches!(r.next(Event::Chosen(0)), Action::Ask(ref p, true) if p == "Enter a site name"));
    match r.next(Event::Entered(String::new())) {
        Action::Say(m) => assert_eq!(m, "cancelling, no value provided."),
        _ => panic!("expected a cancellation"),
    }
    assert_eq!(r.stage(), Stage::Done);
    assert!(matches!(r.next(Event::Confirmed(true)), Action::Finish));
}

#[test]
fn confirmed_update_sends_patch() {
    let mut r = at_menu(Resource::Sites, two_sites());
    let _ = r.next(Event::Chosen(2));
    let _ = r.next(Event::Chosen(1));
    assert!(matches!(
        r.next(Event::Entered("renamed".to_string())),
        Action::Confirm(ref p) if p == "Does this data look right?"
    ));
    match r.next(Event::Confirmed(true)) {
        Action::Send(q, Report::Json(p)) => {
            assert_eq!(q.method, Method::Patch);
            assert_eq!(q.url, "https://api.example/v1/sites/s2");
            assert_eq!(q.body.as_deref(), Some(r#"{"name":"renamed"}"#));
            assert_eq!(p, "Successfully updated: ");
        }
        _ => panic!("expected a patch"),
    }
}

#[test]
fn rejected_update_starts_over() {
    let (mut r, _) = Resolver::interactive(api(), Resource::Sites, Some(4));
    let _ = r.next(Event::Listed(two_sites()));
    let _ = r.next(Event::Chosen(2));
    let _ = r.next(Event::Chosen(0));
    let _ = r.next(Event::Entered("renamed".to_string()));
    expect_fetch(r.next(Event::Confirmed(false)), "https://api.example/v1/sites?offset=400");
    assert_eq!(r.stage(), Stage::Listing);
    let a = r.next(Event::Listed(two_sites()));
    expect_choose(a, "Choose an option", &["List All", "Add Site", "Update Site", "Delete Site"]);
}

#[test]
fn install_update_leaves_empty_answers_out() {
    let mut r = at_menu(Resource::Installs, vec![item("i1", "prod")]);
    let _ = r.next(Event::Chosen(2));
    assert!(matches!(r.next(Event::Chosen(0)), Action::Ask(ref p, true) if p == "Enter a site ID"));
    assert!(matches!(r.next(Event::Entered(String::new())), Action::Ask(_, true)));
    assert!(matches!(r.next(Event::Entered("staging".to_string())), Action::Confirm(_)));
    match r.next(Event::Confirmed(true)) {
        Action::Send(q, _) => {
            assert_eq!(q.url, "https://api.example/v1/installs/i1");
            assert_eq!(q.body.as_deref(), Some(r#"{"environment":"staging"}"#));
        }
        _ => panic!("expected a patch"),
    }
}

#[test]
fn install_update_with_no_answers_cancels() {
    let mut r = at_menu(Resource::Installs, vec![item("i1", "prod")]);
    let _ = r.next(Event::Chosen(2));
    let _ = r.next(Event::Chosen(0));
    let _ = r.next(Event::Entered(String::new()));
    assert!(matches!(r.next(Event::Entered(String::new())), Action::Say(ref m) if m == "cancelling, no value provided."));
}

#[test]
fn rejected_delete_cancels_without_request() {
    let mut r = at_menu(Resource::Sites, two_sites());
    expect_choose(r.next(Event::Chosen(3)), "Select one to delete", &["blog", "shop"]);
    assert!(matches!(r.next(Event::Chosen(1)), Action::Confirm(ref p) if p == "Are you sure?"));
    match r.next(Event::Confirmed(false)) {
        Action::Say(m) => assert_eq!(m, "Cancelling."),
        _ => panic!("expected a cancellation"),
    }
    assert_eq!(r.stage(), Stage::Done);
    assert!(matches!(r.next(Event::Responded), Action::Finish));
}

#[test]
fn confirmed_delete_sends_delete() {
    let mut r = at_menu(Resource::SshKeys, vec![item("k1", "laptop")]);
    expect_choose(r.next(Event::Chosen(2)), "Select one to delete", &["laptop"]);
    let _ = r.next(Event::Chosen(0));
    match r.next(Event::Confirmed(true)) {
        Action::Send(q, Report::Text(t)) => {
            assert_eq!(q.method, Method::Delete);
            assert_eq!(q.url, "https://api.example/v1/ssh_keys/k1");
            assert_eq!(t, "Deleted!");
        }
        _ => panic!("expected a delete"),
    }
}

#[test]
fn accounts_flow_selects_and_shows() {
    let (mut r, a) = Resolver::interactive(api(), Resource::Accounts, None);
    expect_fetch(a, "https://api.example/v1/accounts?offset=0");
    expect_choose(r.next(Event::Listed(vec![item("a1", "Acme")])), "Select one to view", &["Acme"]);
    assert!(matches!(r.next(Event::Chosen(0)), Action::Send(ref q, _) if q.url == "https://api.example/v1/accounts/a1"));
}

#[test]
fn event_out_of_turn_fails() {
    let (mut r, _) = Resolver::interactive(api(), Resource::Sites, None);
    assert!(matches!(r.next(Event::Chosen(0)), Action::Fail(UsageError::InvalidArgument)));
    assert_eq!(r.stage(), Stage::Done);
}

#[test]
fn page_argument_parsing() {
    assert_eq!(parse_page("0"), Ok(0));
    assert_eq!(parse_page("12"), Ok(12));
    assert_eq!(parse_page("007"), Ok(7));
    assert_eq!(parse_page("4294967295"), Ok(4294967295));
    assert_eq!(parse_page("4294967296"), Err(UsageError::InvalidArgument));
    assert_eq!(parse_page(""), Err(UsageError::InvalidArgument));
    assert_eq!(parse_page("-1"), Err(UsageError::InvalidArgument));
    assert_eq!(parse_page("1a"), Err(UsageError::InvalidArgument));
}
