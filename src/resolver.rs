use vstd::prelude::*;
use crate::config::ConfigView;
use crate::error::UsageError;
use crate::gateway::{list_path, opt_string_view, request_to, Method, Request, RequestView, API};
use crate::json::{render_object, FieldView, ScalarView};
use crate::payload::{Install, InstallPatch, SSHKey, Site, SitePatch};

verus! {

/// The resource domains that have an interactive flow.
#[derive(Clone, Copy, Debug, PartialEq, Eq, Structural)]
pub enum Resource {
    Sites,
    Installs,
    SshKeys,
    Accounts,
}

/// What the user asks for from the action menu.
#[derive(Clone, Copy, Debug, PartialEq, Eq, Structural)]
pub enum Choice {
    View,
    Add,
    Update,
    Delete,
}

/// An entry of a fetched collection: its id and the label shown for it.
#[derive(Debug)]
pub struct Item {
    pub id: String,
    pub label: String,
}

pub struct ItemView {
    pub id: Seq<char>,
    pub label: Seq<char>,
}

impl View for Item {
    type V = ItemView;

    open spec fn view(&self) -> ItemView {
        ItemView { id: self.id@, label: self.label@ }
    }
}

pub open spec fn items_view(items: Seq<Item>) -> Seq<ItemView> {
    items.map_values(|i: Item| i@)
}

pub open spec fn labels_of(items: Seq<ItemView>) -> Seq<Seq<char>> {
    items.map_values(|i: ItemView| i.label)
}

/// How the answer to a sent request is shown.
pub enum Report {
    /// Not at all.
    Nothing,
    /// As pretty-printed JSON after this prefix.
    Json(String),
    /// As this line, in place of the answer.
    Text(String),
}

pub enum ReportView {
    Nothing,
    Json(Seq<char>),
    Text(Seq<char>),
}

impl View for Report {
    type V = ReportView;

    open spec fn view(&self) -> ReportView {
        match self {
            Report::Nothing => ReportView::Nothing,
            Report::Json(p) => ReportView::Json(p@),
            Report::Text(t) => ReportView::Text(t@),
        }
    }
}

/// A command given on the command line in headless mode.
pub enum Command {
    /// No subcommand: show the page.
    Show,
    /// Show the page, or the one item with this id.
    List(Option<String>),
    AddSite(Site),
    UpdateSite { id: String, patch: SitePatch },
    AddInstall(Install),
    UpdateInstall { id: String, patch: InstallPatch },
    AddKey(SSHKey),
    Delete(String),
}

/// What the caller hands back after performing an action.
pub enum Event {
    /// The items of the collection that a `Fetch` asked for, in the server's order.
    Listed(Vec<Item>),
    /// The position of the option picked from a `Choose`.
    Chosen(usize),
    /// The text typed at an `Ask`.
    Entered(String),
    /// The answer to a `Confirm`.
    Confirmed(bool),
    /// A `Send` or `ShowListing` was carried out.
    Responded,
}

/// What the flow asks its caller to do next.
pub enum Action {
    /// Send this request and hand back the items of the answer's `results`.
    Fetch(Request),
    /// Send this request and show its answer as the report says.
    Send(Request, Report),
    /// Show the last fetched page, after this prefix.
    ShowListing(String),
    /// Offer these options under this prompt; an empty list is offered as it is.
    Choose(String, Vec<String>),
    /// Prompt for a line of text; `true` where an empty line is accepted.
    Ask(String, bool),
    /// Ask a yes or no question.
    Confirm(String),
    /// Print this line; the flow is over.
    Say(String),
    /// The flow is over.
    Finish,
    /// The flow ends with this error.
    Fail(UsageError),
}

pub enum EventView {
    Listed(Seq<ItemView>),
    Chosen(int),
    Entered(Seq<char>),
    Confirmed(bool),
    Responded,
}

pub enum ActionView {
    Fetch(RequestView),
    Send(RequestView, ReportView),
    ShowListing(Seq<char>),
    Choose(Seq<char>, Seq<Seq<char>>),
    Ask(Seq<char>, bool),
    Confirm(Seq<char>),
    Say(Seq<char>),
    Finish,
    Fail(UsageError),
}

impl View for Event {
    type V = EventView;

    open spec fn view(&self) -> EventView {
        match self {
            Event::Listed(items) => EventView::Listed(items_view(items@)),
            Event::Chosen(i) => EventView::Chosen(*i as int),
            Event::Entered(t) => EventView::Entered(t@),
            Event::Confirmed(b) => EventView::Confirmed(*b),
            Event::Responded => EventView::Responded,
        }
    }
}

impl View for Action {
    type V = ActionView;

    open spec fn view(&self) -> ActionView {
        match self {
            Action::Fetch(r) => ActionView::Fetch(r@),
            Action::Send(r, rep) => ActionView::Send(r@, rep@),
            Action::ShowListing(p) => ActionView::ShowListing(p@),
            Action::Choose(p, o) => ActionView::Choose(p@, o@.map_values(|s: String| s@)),
            Action::Ask(p, e) => ActionView::Ask(p@, *e),
            Action::Confirm(p) => ActionView::Confirm(p@),
            Action::Say(t) => ActionView::Say(t@),
            Action::Finish => ActionView::Finish,
            Action::Fail(e) => ActionView::Fail(*e),
        }
    }
}

/// Where a flow stands, and which event it waits on.
#[derive(Clone, Copy, Debug, PartialEq, Eq, Structural)]
pub enum Stage {
    /// The page of the collection (`Listed`).
    Listing,
    /// The action picked from the menu (`Chosen`).
    Menu,
    /// The item to show (`Chosen`).
    PickToView,
    /// The name or key of the new item (`Entered`).
    AddName,
    /// The accounts to pick from (`Listed`).
    AddListAccounts,
    /// The account of the new item (`Chosen`).
    AddPickAccount,
    /// The sites to pick from (`Listed`).
    AddListSites,
    /// The site of the new install (`Chosen`).
    AddPickSite,
    /// The environment of the new install (`Chosen`).
    AddPickEnv,
    /// The item to change (`Chosen`).
    PickToUpdate,
    /// The first new value, empty for no change (`Entered`).
    UpdateFirst,
    /// The second new value, empty for no change (`Entered`).
    UpdateSecond,
    /// Whether to send the change (`Confirmed`).
    ConfirmUpdate,
    /// The item to delete (`Chosen`).
    PickToDelete,
    /// Whether to delete it (`Confirmed`).
    ConfirmDelete,
    /// The answer to the last request (`Responded`).
    Sending,
    /// Nothing: the flow is over.
    Done,
}

/// One run of the selection flow of a resource domain.
pub struct Resolver {
    api: API,
    resource: Resource,
    page: Option<u32>,
    stage: Stage,
    items: Vec<Item>,
    picks: Vec<Item>,
    name: String,
    account_id: String,
    site_id: String,
    target: String,
    first: String,
    second: String,
}

pub struct ResolverView {
    pub cfg: ConfigView,
    pub resource: Resource,
    pub page: Option<u32>,
    pub stage: Stage,
    pub items: Seq<ItemView>,
    pub picks: Seq<ItemView>,
    pub name: Seq<char>,
    pub account_id: Seq<char>,
    pub site_id: Seq<char>,
    pub target: Seq<char>,
    pub first: Seq<char>,
    pub second: Seq<char>,
}

impl View for Resolver {
    type V = ResolverView;

    closed spec fn view(&self) -> ResolverView {
        ResolverView {
            cfg: self.api@,
            resource: self.resource,
            page: self.page,
            stage: self.stage,
            items: items_view(self.items@),
            picks: items_view(self.picks@),
            name: self.name@,
            account_id: self.account_id@,
            site_id: self.site_id@,
            target: self.target@,
            first: self.first@,
            second: self.second@,
        }
    }
}

pub open spec fn collection_path(r: Resource) -> Seq<char> {
    match r {
        Resource::Sites => "/sites"@,
        Resource::Installs => "/installs"@,
        Resource::SshKeys => "/ssh_keys"@,
        Resource::Accounts => "/accounts"@,
    }
}

/// The path that shows one item; public keys are not shown one by one.
pub open spec fn view_path(r: Resource, id: Seq<char>) -> Option<Seq<char>> {
    match r {
        Resource::Sites => Some("/sites/"@ + id),
        Resource::Installs => Some("/installs/"@ + id),
        Resource::Accounts => Some("/accounts/"@ + id),
        Resource::SshKeys => None,
    }
}

/// The path that deletes one item; accounts are not deleted here.
pub open spec fn delete_path(r: Resource, id: Seq<char>) -> Option<Seq<char>> {
    match r {
        Resource::Sites => Some("/sites/"@ + id),
        Resource::Installs => Some("/installs/"@ + id),
        Resource::SshKeys => Some("/ssh_keys/"@ + id),
        Resource::Accounts => None,
    }
}

/// The request for the page that a flow resolves against.
pub open spec fn listing_request(s: ResolverView) -> RequestView {
    request_to(Method::Get, s.cfg, list_path(collection_path(s.resource), s.page), None)
}

pub open spec fn menu_of(r: Resource) -> Seq<Seq<char>> {
    match r {
        Resource::SshKeys => seq!["List All"@, "Add SSH Key"@, "Delete SSH Key"@],
        Resource::Installs => seq![
            "List All"@,
            "Add Install"@,
            "Update Install"@,
            "Delete Install"@,
        ],
        _ => seq!["List All"@, "Add Site"@, "Update Site"@, "Delete Site"@],
    }
}

/// The action behind a menu position; public keys have no update.
pub open spec fn choice_at(r: Resource, i: int) -> Option<Choice> {
    if r == Resource::SshKeys {
        if i == 0 {
            Some(Choice::View)
        } else if i == 1 {
            Some(Choice::Add)
        } else if i == 2 {
            Some(Choice::Delete)
        } else {
            None
        }
    } else if i == 0 {
        Some(Choice::View)
    } else if i == 1 {
        Some(Choice::Add)
    } else if i == 2 {
        Some(Choice::Update)
    } else if i == 3 {
        Some(Choice::Delete)
    } else {
        None
    }
}

pub open spec fn environments() -> Seq<Seq<char>> {
    seq!["development"@, "staging"@, "production"@]
}

pub open spec fn add_prompt(r: Resource) -> Seq<char> {
    match r {
        Resource::SshKeys => "Enter your public key"@,
        Resource::Installs => "Enter an install name"@,
        _ => "Enter a site name"@,
    }
}

pub open spec fn update_prompt(r: Resource) -> Seq<char> {
    match r {
        Resource::Installs => "Enter a site ID"@,
        _ => "Enter a site name"@,
    }
}

/// One member for a non-empty answer, none for an empty one.
pub open spec fn answer_member(key: Seq<char>, v: Seq<char>) -> Seq<FieldView> {
    if v.len() == 0 {
        Seq::empty()
    } else {
        seq![(key, ScalarView::Str(v))]
    }
}

pub open spec fn str_members4(
    k1: Seq<char>, v1: Seq<char>, k2: Seq<char>, v2: Seq<char>,
    k3: Seq<char>, v3: Seq<char>, k4: Seq<char>, v4: Seq<char>,
) -> Seq<FieldView> {
    seq![
        (k1, ScalarView::Str(v1)),
        (k2, ScalarView::Str(v2)),
        (k3, ScalarView::Str(v3)),
        (k4, ScalarView::Str(v4)),
    ]
}

pub open spec fn cancel_message() -> Seq<char> {
    "cancelling, no value provided."@
}

pub open spec fn confirm_prompt() -> Seq<char> {
    "Does this data look right?"@
}

/// The change that a confirmed update sends.
pub open spec fn update_request(s: ResolverView) -> RequestView {
    if s.resource == Resource::Installs {
        request_to(
            Method::Patch,
            s.cfg,
            "/installs/"@ + s.target,
            Some(render_object(answer_member("site_id"@, s.first) + answer_member("environment"@, s.second))),
        )
    } else {
        request_to(
            Method::Patch,
            s.cfg,
            "/sites/"@ + s.target,
            Some(render_object(seq![("name"@, ScalarView::Str(s.first))])),
        )
    }
}

pub open spec fn with_stage(s: ResolverView, stage: Stage) -> ResolverView {
    ResolverView { stage, ..s }
}

/// An event that the stage does not wait on ends the flow.
pub open spec fn out_of_turn(s: ResolverView) -> (ResolverView, ActionView) {
    (with_stage(s, Stage::Done), ActionView::Fail(UsageError::InvalidArgument))
}

/// A pick outside the offered list ends the flow.
pub open spec fn bad_pick(s: ResolverView) -> (ResolverView, ActionView) {
    (with_stage(s, Stage::Done), ActionView::Fail(UsageError::InvalidSelection))
}

/// One step of the interactive flow.
pub open spec fn resolve_step(s: ResolverView, e: EventView) -> (ResolverView, ActionView) {
    match s.stage {
        Stage::Done => (s, ActionView::Finish),
        Stage::Sending => match e {
            EventView::Responded => (with_stage(s, Stage::Done), ActionView::Finish),
            _ => out_of_turn(s),
        },
        Stage::Listing => match e {
            EventView::Listed(items) => if s.resource == Resource::Accounts {
                (
                    ResolverView { stage: Stage::PickToView, items, ..s },
                    ActionView::Choose("Select one to view"@, labels_of(items)),
                )
            } else {
                (
                    ResolverView { stage: Stage::Menu, items, ..s },
                    ActionView::Choose("Choose an option"@, menu_of(s.resource)),
                )
            },
            _ => out_of_turn(s),
        },
        Stage::Menu => match e {
            EventView::Chosen(i) => match choice_at(s.resource, i) {
                Some(Choice::View) => if s.resource == Resource::SshKeys {
                    (with_stage(s, Stage::Done), ActionView::ShowListing("Selection: "@))
                } else {
                    (
                        with_stage(s, Stage::PickToView),
                        ActionView::Choose("Select one to view"@, labels_of(s.items)),
                    )
                },
                Some(Choice::Add) => (
                    with_stage(s, Stage::AddName),
                    ActionView::Ask(add_prompt(s.resource), false),
                ),
                Some(Choice::Update) => (
                    with_stage(s, Stage::PickToUpdate),
                    ActionView::Choose("Select one to update"@, labels_of(s.items)),
                ),
                Some(Choice::Delete) => (
                    with_stage(s, Stage::PickToDelete),
                    ActionView::Choose("Select one to delete"@, labels_of(s.items)),
                ),
                None => bad_pick(s),
            },
            _ => out_of_turn(s),
        },
        Stage::PickToView => match e {
            EventView::Chosen(i) => if 0 <= i < s.items.len() {
                match view_path(s.resource, s.items[i].id) {
                    Some(path) => (
                        with_stage(s, Stage::Sending),
                        ActionView::Send(
                            request_to(Method::Get, s.cfg, path, None),
                            ReportView::Json("Selection: "@),
                        ),
                    ),
                    None => out_of_turn(s),
                }
            } else {
                bad_pick(s)
            },
            _ => out_of_turn(s),
        },
        Stage::AddName => match e {
            EventView::Entered(t) => if s.resource == Resource::SshKeys {
                (
                    with_stage(s, Stage::Sending),
                    ActionView::Send(
                        request_to(
                            Method::Post,
                            s.cfg,
                            "/ssh_keys"@,
                            Some(render_object(seq![("public_key"@, ScalarView::Str(t))])),
                        ),
                        ReportView::Json("Successfully added: "@),
                    ),
                )
            } else {
                (
                    ResolverView { stage: Stage::AddListAccounts, name: t, ..s },
                    ActionView::Fetch(
                        request_to(Method::Get, s.cfg, list_path("/accounts"@, Some(0u32)), None),
                    ),
                )
            },
            _ => out_of_turn(s),
        },
        Stage::AddListAccounts => match e {
            EventView::Listed(accounts) => (
                ResolverView { stage: Stage::AddPickAccount, picks: accounts, ..s },
                ActionView::Choose("Select an account"@, labels_of(accounts)),
            ),
            _ => out_of_turn(s),
        },
        Stage::AddPickAccount => match e {
            EventView::Chosen(i) => if 0 <= i < s.picks.len() {
                if s.resource == Resource::Installs {
                    (
                        ResolverView {
                            stage: Stage::AddListSites,
                            account_id: s.picks[i].id,
                            ..s
                        },
                        ActionView::Fetch(
                            request_to(Method::Get, s.cfg, list_path("/sites"@, Some(0u32)), None),
                        ),
                    )
                } else {
                    (
                        with_stage(s, Stage::Sending),
                        ActionView::Send(
                            request_to(
                                Method::Post,
                                s.cfg,
                                "/sites"@,
                                Some(
                                    render_object(
                                        seq![
                                            ("name"@, ScalarView::Str(s.name)),
                                            ("account_id"@, ScalarView::Str(s.picks[i].id)),
                                        ],
                                    ),
                                ),
                            ),
                            ReportView::Json("Successfully added: "@),
                        ),
                    )
                }
            } else {
                bad_pick(s)
            },
            _ => out_of_turn(s),
        },
        Stage::AddListSites => match e {
            EventView::Listed(sites) => (
                ResolverView { stage: Stage::AddPickSite, picks: sites, ..s },
                ActionView::Choose("Select a site"@, labels_of(sites)),
            ),
            _ => out_of_turn(s),
        },
        Stage::AddPickSite => match e {
            EventView::Chosen(i) => if 0 <= i < s.picks.len() {
                (
                    ResolverView { stage: Stage::AddPickEnv, site_id: s.picks[i].id, ..s },
                    ActionView::Choose("Select an environment"@, environments()),
                )
            } else {
                bad_pick(s)
            },
            _ => out_of_turn(s),
        },
        Stage::AddPickEnv => match e {
            EventView::Chosen(i) => if 0 <= i < 3 {
                (
                    with_stage(s, Stage::Sending),
                    ActionView::Send(
                        request_to(
                            Method::Post,
                            s.cfg,
                            "/installs"@,
                            Some(
                                render_object(
                                    str_members4(
                                        "name"@,
                                        s.name,
                                        "account_id"@,
                                        s.account_id,
                                        "site_id"@,
                                        s.site_id,
                                        "environment"@,
                                        environments()[i],
                                    ),
                                ),
                            ),
                        ),
                        ReportView::Json("Successfully added: "@),
                    ),
                )
            } else {
                bad_pick(s)
            },
            _ => out_of_turn(s),
        },
        Stage::PickToUpdate => match e {
            EventView::Chosen(i) => if 0 <= i < s.items.len() {
                (
                    ResolverView { stage: Stage::UpdateFirst, target: s.items[i].id, ..s },
                    ActionView::Ask(update_prompt(s.resource), true),
                )
            } else {
                bad_pick(s)
            },
            _ => out_of_turn(s),
        },
        Stage::UpdateFirst => match e {
            EventView::Entered(t) => if s.resource == Resource::Installs {
                (
                    ResolverView { stage: Stage::UpdateSecond, first: t, ..s },
                    ActionView::Ask("Enter an environment name"@, true),
                )
            } else if t.len() == 0 {
                (with_stage(s, Stage::Done), ActionView::Say(cancel_message()))
            } else {
                (
                    ResolverView { stage: Stage::ConfirmUpdate, first: t, ..s },
                    ActionView::Confirm(confirm_prompt()),
                )
            },
            _ => out_of_turn(s),
        },
        Stage::UpdateSecond => match e {
            EventView::Entered(t) => if s.first.len() == 0 && t.len() == 0 {
                (with_stage(s, Stage::Done), ActionView::Say(cancel_message()))
            } else {
                (
                    ResolverView { stage: Stage::ConfirmUpdate, second: t, ..s },
                    ActionView::Confirm(confirm_prompt()),
                )
            },
            _ => out_of_turn(s),
        },
        Stage::ConfirmUpdate => match e {
            EventView::Confirmed(yes) => if yes {
                (
                    with_stage(s, Stage::Sending),
                    ActionView::Send(
                        update_request(s),
                        ReportView::Json("Successfully updated: "@),
                    ),
                )
            } else {
                (with_stage(s, Stage::Listing), ActionView::Fetch(listing_request(s)))
            },
            _ => out_of_turn(s),
        },
        Stage::PickToDelete => match e {
            EventView::Chosen(i) => if 0 <= i < s.items.len() {
                (
                    ResolverView { stage: Stage::ConfirmDelete, target: s.items[i].id, ..s },
                    ActionView::Confirm("Are you sure?"@),
                )
            } else {
                bad_pick(s)
            },
            _ => out_of_turn(s),
        },
        Stage::ConfirmDelete => match e {
            EventView::Confirmed(yes) => if yes {
                match delete_path(s.resource, s.target) {
                    Some(path) => (
                        with_stage(s, Stage::Sending),
                        ActionView::Send(
                            request_to(Method::Delete, s.cfg, path, None),
                            ReportView::Text("Deleted!"@),
                        ),
                    ),
                    None => out_of_turn(s),
                }
            } else {
                (with_stage(s, Stage::Done), ActionView::Say("Cancelling."@))
            },
            _ => out_of_turn(s),
        },
    }
}

/// The state a flow starts in.
pub open spec fn start_view(cfg: ConfigView, resource: Resource, page: Option<u32>) -> ResolverView {
    ResolverView {
        cfg,
        resource,
        page,
        stage: Stage::Listing,
        items: Seq::empty(),
        picks: Seq::empty(),
        name: Seq::empty(),
        account_id: Seq::empty(),
        site_id: Seq::empty(),
        target: Seq::empty(),
        first: Seq::empty(),
        second: Seq::empty(),
    }
}

/// The one request a headless command sends and how its answer is shown, or the
/// error for a command that the domain does not have.
pub open spec fn headless_action(
    cfg: ConfigView,
    r: Resource,
    page: Option<u32>,
    cmd: Command,
) -> ActionView {
    let listing = ActionView::Send(
        request_to(Method::Get, cfg, list_path(collection_path(r), page), None),
        ReportView::Json(Seq::empty()),
    );
    let wrong = ActionView::Fail(UsageError::InvalidArgument);
    match cmd {
        Command::Show => listing,
        Command::List(None) => listing,
        Command::List(Some(id)) => match view_path(r, id@) {
            Some(path) => ActionView::Send(
                request_to(Method::Get, cfg, path, None),
                ReportView::Json(Seq::empty()),
            ),
            None => listing,
        },
        Command::AddSite(site) => if r == Resource::Sites {
            ActionView::Send(
                request_to(Method::Post, cfg, "/sites"@, Some(render_object(site.members()))),
                ReportView::Json(Seq::empty()),
            )
        } else {
            wrong
        },
        Command::UpdateSite { id, patch } => if r == Resource::Sites {
            ActionView::Send(
                request_to(
                    Method::Patch,
                    cfg,
                    "/sites/"@ + id@,
                    Some(render_object(patch.members())),
                ),
                ReportView::Json(Seq::empty()),
            )
        } else {
            wrong
        },
        Command::AddInstall(install) => if r == Resource::Installs {
            ActionView::Send(
                request_to(Method::Post, cfg, "/installs"@, Some(render_object(install.members()))),
                ReportView::Json(Seq::empty()),
            )
        } else {
            wrong
        },
        Command::UpdateInstall { id, patch } => if r == Resource::Installs {
            ActionView::Send(
                request_to(
                    Method::Patch,
                    cfg,
                    "/installs/"@ + id@,
                    Some(render_object(patch.members())),
                ),
                ReportView::Json(Seq::empty()),
            )
        } else {
            wrong
        },
        Command::AddKey(key) => if r == Resource::SshKeys {
            ActionView::Send(
                request_to(Method::Post, cfg, "/ssh_keys"@, Some(render_object(key.members()))),
                ReportView::Json(Seq::empty()),
            )
        } else {
            wrong
        },
        Command::Delete(id) => match delete_path(r, id@) {
            Some(path) => ActionView::Send(
                request_to(Method::Delete, cfg, path, None),
                ReportView::Nothing,
            ),
            None => wrong,
        },
    }
}

fn labels(items: &Vec<Item>) -> (r: Vec<String>)
    ensures
        r@.map_values(|s: String| s@) == labels_of(items_view(items@)),
{
    let mut r: Vec<String> = Vec::new();
    let mut i: usize = 0;
    while i < items.len()
        invariant
            i <= items.len(),
            r.len() == i,
            forall|j: int| 0 <= j < i ==> (#[trigger] r@[j])@ == items@[j].label@,
        decreases items.len() - i,
    {
        r.push(items[i].label.clone());
        i = i + 1;
    }
    assert(r@.map_values(|s: String| s@) =~= labels_of(items_view(items@)));
    r
}

fn menu(r: Resource) -> (v: Vec<String>)
    ensures
        v@.map_values(|s: String| s@) == menu_of(r),
{
    let v = match r {
        Resource::SshKeys => vec![
            String::from_str("List All"),
            String::from_str("Add SSH Key"),
            String::from_str("Delete SSH Key"),
        ],
        Resource::Installs => vec![
            String::from_str("List All"),
            String::from_str("Add Install"),
            String::from_str("Update Install"),
            String::from_str("Delete Install"),
        ],
        _ => vec![
            String::from_str("List All"),
            String::from_str("Add Site"),
            String::from_str("Update Site"),
            String::from_str("Delete Site"),
        ],
    };
    assert(v@.map_values(|s: String| s@) =~= menu_of(r));
    v
}

fn environment_names() -> (v: Vec<String>)
    ensures
        v@.map_values(|s: String| s@) == environments(),
        v.len() == 3,
        forall|i: int| 0 <= i < 3 ==> (#[trigger] v@[i])@ == environments()[i],
{
    let v = vec![
        String::from_str("development"),
        String::from_str("staging"),
        String::from_str("production"),
    ];
    assert(v@.map_values(|s: String| s@) =~= environments());
    v
}

fn choice(r: Resource, i: usize) -> (c: Option<Choice>)
    ensures
        c == choice_at(r, i as int),
{
    if r == Resource::SshKeys {
        if i == 0 {
            Some(Choice::View)
        } else if i == 1 {
            Some(Choice::Add)
        } else if i == 2 {
            Some(Choice::Delete)
        } else {
            None
        }
    } else if i == 0 {
        Some(Choice::View)
    } else if i == 1 {
        Some(Choice::Add)
    } else if i == 2 {
        Some(Choice::Update)
    } else if i == 3 {
        Some(Choice::Delete)
    } else {
        None
    }
}

/// The answer as a patch value: an empty answer leaves the field unset.
fn answer(v: &String) -> (r: Option<String>)
    ensures
        v@.len() == 0 ==> r is None,
        v@.len() != 0 ==> (r matches Some(t) && t@ == v@),
{
    if v.as_str().is_empty() {
        None
    } else {
        Some(v.clone())
    }
}

fn owned(text: &str) -> (r: String)
    ensures
        r@ == text@,
{
    String::from_str(text)
}

impl Resolver {
    /// Starts the interactive flow: the first action fetches the page.
    pub fn interactive(api: API, resource: Resource, page: Option<u32>) -> (r: (Resolver, Action))
        ensures
            r.0@ == start_view(api@, resource, page),
            r.1@ == ActionView::Fetch(listing_request(r.0@)),
    {
        let resolver = Resolver {
            api,
            resource,
            page,
            stage: Stage::Listing,
            items: Vec::new(),
            picks: Vec::new(),
            name: String::new(),
            account_id: String::new(),
            site_id: String::new(),
            target: String::new(),
            first: String::new(),
            second: String::new(),
        };
        assert(items_view(resolver.items@) =~= Seq::<ItemView>::empty());
        assert(items_view(resolver.picks@) =~= Seq::<ItemView>::empty());
        assert(resolver@ == start_view(resolver.api@, resource, page));
        let action = Action::Fetch(resolver.listing());
        (resolver, action)
    }

    /// Runs a headless command: one request, no prompts.
    pub fn headless(api: API, resource: Resource, page: Option<u32>, cmd: Command) -> (r: (
        Resolver,
        Action,
    ))
        ensures
            r.1@ == headless_action(api@, resource, page, cmd),
            r.0@.stage == (if r.1@ is Fail {
                Stage::Done
            } else {
                Stage::Sending
            }),
    {
        let ghost cfg = api@;
        let ghost cmd_copy = cmd;
        let mut resolver = Resolver {
            api,
            resource,
            page,
            stage: Stage::Sending,
            items: Vec::new(),
            picks: Vec::new(),
            name: String::new(),
            account_id: String::new(),
            site_id: String::new(),
            target: String::new(),
            first: String::new(),
            second: String::new(),
        };
        let action = match cmd {
            Command::Show => Action::Send(resolver.listing(), Report::Json(String::new())),
            Command::List(None) => Action::Send(resolver.listing(), Report::Json(String::new())),
            Command::List(Some(id)) => match resolver.view_request(&id) {
                Some(req) => Action::Send(req, Report::Json(String::new())),
                None => Action::Send(resolver.listing(), Report::Json(String::new())),
            },
            Command::AddSite(site) => if resource == Resource::Sites {
                Action::Send(resolver.api.add_site(&site), Report::Json(String::new()))
            } else {
                Action::Fail(UsageError::InvalidArgument)
            },
            Command::UpdateSite { id, patch } => if resource == Resource::Sites {
                Action::Send(resolver.api.update_site(&id, &patch), Report::Json(String::new()))
            } else {
                Action::Fail(UsageError::InvalidArgument)
            },
            Command::AddInstall(install) => if resource == Resource::Installs {
                Action::Send(resolver.api.add_install(&install), Report::Json(String::new()))
            } else {
                Action::Fail(UsageError::InvalidArgument)
            },
            Command::UpdateInstall { id, patch } => if resource == Resource::Installs {
                Action::Send(
                    resolver.api.update_install(&id, &patch),
                    Report::Json(String::new()),
                )
            } else {
                Action::Fail(UsageError::InvalidArgument)
            },
            Command::AddKey(key) => if resource == Resource::SshKeys {
                Action::Send(resolver.api.add_ssh_key(&key), Report::Json(String::new()))
            } else {
                Action::Fail(UsageError::InvalidArgument)
            },
            Command::Delete(id) => match resolver.delete_request(&id) {
                Some(req) => Action::Send(req, Report::Nothing),
                None => Action::Fail(UsageError::InvalidArgument),
            },
        };
        if let Action::Fail(_) = action {
            resolver.stage = Stage::Done;
        }
        (resolver, action)
    }

    pub fn stage(&self) -> (r: Stage)
        ensures
            r == self@.stage,
    {
        self.stage
    }

    fn listing(&self) -> (r: Request)
        ensures
            r@ == listing_request(self@),
    {
        match self.resource {
            Resource::Sites => self.api.get_sites(self.page),
            Resource::Installs => self.api.get_installs(self.page),
            Resource::SshKeys => self.api.get_ssh_keys(self.page),
            Resource::Accounts => self.api.get_accounts(self.page),
        }
    }

    fn view_request(&self, id: &String) -> (r: Option<Request>)
        ensures
            match view_path(self@.resource, id@) {
                Some(path) => r matches Some(q) && q@ == request_to(Method::Get, self@.cfg, path, None),
                None => r is None,
            },
    {
        match self.resource {
            Resource::Sites => Some(self.api.get_site_by_id(id.as_str())),
            Resource::Installs => Some(self.api.get_install_by_id(id.as_str())),
            Resource::Accounts => Some(self.api.get_account_by_id(id.as_str())),
            Resource::SshKeys => None,
        }
    }

    fn delete_request(&self, id: &String) -> (r: Option<Request>)
        ensures
            match delete_path(self@.resource, id@) {
                Some(path) => r matches Some(q) && q@ == request_to(Method::Delete, self@.cfg, path, None),
                None => r is None,
            },
    {
        match self.resource {
            Resource::Sites => Some(self.api.delete_site(id.as_str())),
            Resource::Installs => Some(self.api.delete_install(id.as_str())),
            Resource::SshKeys => Some(self.api.delete_ssh_key(id.as_str())),
            Resource::Accounts => None,
        }
    }

    /// Takes the outcome of the last action and returns the next one.
    pub fn next(&mut self, event: Event) -> (action: Action)
        ensures
            (final(self)@, action@) == resolve_step(old(self)@, event@),
    {
        match self.stage {
            Stage::Done => Action::Finish,
            Stage::Sending => self.on_sending(event),
            Stage::Listing => self.on_listing(event),
            Stage::Menu => self.on_menu(event),
            Stage::PickToView => self.on_pick_to_view(event),
            Stage::AddName => self.on_add_name(event),
            Stage::AddListAccounts => self.on_add_list_accounts(event),
            Stage::AddPickAccount => self.on_add_pick_account(event),
            Stage::AddListSites => self.on_add_list_sites(event),
            Stage::AddPickSite => self.on_add_pick_site(event),
            Stage::AddPickEnv => self.on_add_pick_env(event),
            Stage::PickToUpdate => self.on_pick_to_update(event),
            Stage::UpdateFirst => self.on_update_first(event),
            Stage::UpdateSecond => self.on_update_second(event),
            Stage::ConfirmUpdate => self.on_confirm_update(event),
            Stage::PickToDelete => self.on_pick_to_delete(event),
            Stage::ConfirmDelete => self.on_confirm_delete(event),
        }
    }

    fn on_sending(&mut self, event: Event) -> (action: Action)
        requires
            old(self)@.stage == Stage::Sending,
        ensures
            (final(self)@, action@) == resolve_step(old(self)@, event@),
    {
        match event {
            Event::Responded => {
                self.move_to(Stage::Done);
                Action::Finish
            },
            _ => self.end(UsageError::InvalidArgument),
        }
    }

    fn on_listing(&mut self, event: Event) -> (action: Action)
        requires
            old(self)@.stage == Stage::Listing,
        ensures
            (final(self)@, action@) == resolve_step(old(self)@, event@),
    {
        match event {
            Event::Listed(items) => {
                self.items = items;
                if self.resource == Resource::Accounts {
                    self.stage = Stage::PickToView;
                    Action::Choose(owned("Select one to view"), labels(&self.items))
                } else {
                    self.stage = Stage::Menu;
                    Action::Choose(owned("Choose an option"), menu(self.resource))
                }
            },
            _ => self.end(UsageError::InvalidArgument),
        }
    }

    fn on_menu(&mut self, event: Event) -> (action: Action)
        requires
            old(self)@.stage == Stage::Menu,
        ensures
            (final(self)@, action@) == resolve_step(old(self)@, event@),
    {
        match event {
            Event::Chosen(i) => match choice(self.resource, i) {
                Some(Choice::View) => if self.resource == Resource::SshKeys {
                    self.move_to(Stage::Done);
                    Action::ShowListing(owned("Selection: "))
                } else {
                    self.move_to(Stage::PickToView);
                    Action::Choose(owned("Select one to view"), labels(&self.items))
                },
                Some(Choice::Add) => {
                    self.move_to(Stage::AddName);
                    Action::Ask(self.add_prompt(), false)
                },
                Some(Choice::Update) => {
                    self.move_to(Stage::PickToUpdate);
                    Action::Choose(owned("Select one to update"), labels(&self.items))
                },
                Some(Choice::Delete) => {
                    self.move_to(Stage::PickToDelete);
                    Action::Choose(owned("Select one to delete"), labels(&self.items))
                },
                None => self.end(UsageError::InvalidSelection),
            },
            _ => self.end(UsageError::InvalidArgument),
        }
    }

    fn on_pick_to_view(&mut self, event: Event) -> (action: Action)
        requires
            old(self)@.stage == Stage::PickToView,
        ensures
            (final(self)@, action@) == resolve_step(old(self)@, event@),
    {
        match event {
            Event::Chosen(i) => if i < self.items.len() {
                match self.view_request(&self.items[i].id) {
                    Some(req) => {
                        self.move_to(Stage::Sending);
                        Action::Send(req, Report::Json(owned("Selection: ")))
                    },
                    None => self.end(UsageError::InvalidArgument),
                }
            } else {
                self.end(UsageError::InvalidSelection)
            },
            _ => self.end(UsageError::InvalidArgument),
        }
    }

    fn on_add_name(&mut self, event: Event) -> (action: Action)
        requires
            old(self)@.stage == Stage::AddName,
        ensures
            (final(self)@, action@) == resolve_step(old(self)@, event@),
    {
        match event {
            Event::Entered(t) => if self.resource == Resource::SshKeys {
                let key = SSHKey { public_key: t };
                let req = self.api.add_ssh_key(&key);
                assert(key.members() =~= seq![("public_key"@, ScalarView::Str(key.public_key@))]);
                self.move_to(Stage::Sending);
                Action::Send(req, Report::Json(owned("Successfully added: ")))
            } else {
                self.name = t;
                self.stage = Stage::AddListAccounts;
                Action::Fetch(self.api.get_accounts(Some(0)))
            },
            _ => self.end(UsageError::InvalidArgument),
        }
    }

    fn on_add_list_accounts(&mut self, event: Event) -> (action: Action)
        requires
            old(self)@.stage == Stage::AddListAccounts,
        ensures
            (final(self)@, action@) == resolve_step(old(self)@, event@),
    {
        match event {
            Event::Listed(accounts) => {
                self.picks = accounts;
                self.stage = Stage::AddPickAccount;
                Action::Choose(owned("Select an account"), labels(&self.picks))
            },
            _ => self.end(UsageError::InvalidArgument),
        }
    }

    fn on_add_pick_account(&mut self, event: Event) -> (action: Action)
        requires
            old(self)@.stage == Stage::AddPickAccount,
        ensures
            (final(self)@, action@) == resolve_step(old(self)@, event@),
    {
        match event {
            Event::Chosen(i) => if i < self.picks.len() {
                let account_id = self.picks[i].id.clone();
                if self.resource == Resource::Installs {
                    self.account_id = account_id;
                    self.stage = Stage::AddListSites;
                    Action::Fetch(self.api.get_sites(Some(0)))
                } else {
                    let site = Site { name: self.name.clone(), account_id };
                    let req = self.api.add_site(&site);
                    assert(site.members() =~= seq![
                        ("name"@, ScalarView::Str(site.name@)),
                        ("account_id"@, ScalarView::Str(site.account_id@)),
                    ]);
                    self.move_to(Stage::Sending);
                    Action::Send(req, Report::Json(owned("Successfully added: ")))
                }
            } else {
                self.end(UsageError::InvalidSelection)
            },
            _ => self.end(UsageError::InvalidArgument),
        }
    }

    fn on_add_list_sites(&mut self, event: Event) -> (action: Action)
        requires
            old(self)@.stage == Stage::AddListSites,
        ensures
            (final(self)@, action@) == resolve_step(old(self)@, event@),
    {
        match event {
            Event::Listed(sites) => {
                self.picks = sites;
                self.stage = Stage::AddPickSite;
                Action::Choose(owned("Select a site"), labels(&self.picks))
            },
            _ => self.end(UsageError::InvalidArgument),
        }
    }

    fn on_add_pick_site(&mut self, event: Event) -> (action: Action)
        requires
            old(self)@.stage == Stage::AddPickSite,
        ensures
            (final(self)@, action@) == resolve_step(old(self)@, event@),
    {
        match event {
            Event::Chosen(i) => if i < self.picks.len() {
                self.site_id = self.picks[i].id.clone();
                self.stage = Stage::AddPickEnv;
                Action::Choose(owned("Select an environment"), environment_names())
            } else {
                self.end(UsageError::InvalidSelection)
            },
            _ => self.end(UsageError::InvalidArgument),
        }
    }

    fn on_add_pick_env(&mut self, event: Event) -> (action: Action)
        requires
            old(self)@.stage == Stage::AddPickEnv,
        ensures
            (final(self)@, action@) == resolve_step(old(self)@, event@),
    {
        match event {
            Event::Chosen(i) => if i < 3 {
                let names = environment_names();
                let install = Install {
                    name: self.name.clone(),
                    account_id: self.account_id.clone(),
                    site_id: self.site_id.clone(),
                    environment: names[i].clone(),
                };
                assert(names@[i as int]@ == environments()[i as int]);
                let req = self.api.add_install(&install);
                assert(install.members() =~= str_members4(
                    "name"@,
                    install.name@,
                    "account_id"@,
                    install.account_id@,
                    "site_id"@,
                    install.site_id@,
                    "environment"@,
                    install.environment@,
                ));
                self.move_to(Stage::Sending);
                Action::Send(req, Report::Json(owned("Successfully added: ")))
            } else {
                self.end(UsageError::InvalidSelection)
            },
            _ => self.end(UsageError::InvalidArgument),
        }
    }

    fn on_pick_to_update(&mut self, event: Event) -> (action: Action)
        requires
            old(self)@.stage == Stage::PickToUpdate,
        ensures
            (final(self)@, action@) == resolve_step(old(self)@, event@),
    {
        match event {
            Event::Chosen(i) => if i < self.items.len() {
                self.target = self.items[i].id.clone();
                self.stage = Stage::UpdateFirst;
                Action::Ask(self.update_prompt(), true)
            } else {
                self.end(UsageError::InvalidSelection)
            },
            _ => self.end(UsageError::InvalidArgument),
        }
    }

    fn on_update_first(&mut self, event: Event) -> (action: Action)
        requires
            old(self)@.stage == Stage::UpdateFirst,
        ensures
            (final(self)@, action@) == resolve_step(old(self)@, event@),
    {
        match event {
            Event::Entered(t) => if self.resource == Resource::Installs {
                self.first = t;
                self.stage = Stage::UpdateSecond;
                Action::Ask(owned("Enter an environment name"), true)
            } else if t.as_str().is_empty() {
                self.move_to(Stage::Done);
                Action::Say(owned("cancelling, no value provided."))
            } else {
                self.first = t;
                self.stage = Stage::ConfirmUpdate;
                Action::Confirm(owned("Does this data look right?"))
            },
            _ => self.end(UsageError::InvalidArgument),
        }
    }

    fn on_update_second(&mut self, event: Event) -> (action: Action)
        requires
            old(self)@.stage == Stage::UpdateSecond,
        ensures
            (final(self)@, action@) == resolve_step(old(self)@, event@),
    {
        match event {
            Event::Entered(t) => if self.first.as_str().is_empty() && t.as_str().is_empty() {
                self.move_to(Stage::Done);
                Action::Say(owned("cancelling, no value provided."))
            } else {
                self.second = t;
                self.stage = Stage::ConfirmUpdate;
                Action::Confirm(owned("Does this data look right?"))
            },
            _ => self.end(UsageError::InvalidArgument),
        }
    }

    fn on_confirm_update(&mut self, event: Event) -> (action: Action)
        requires
            old(self)@.stage == Stage::ConfirmUpdate,
        ensures
            (final(self)@, action@) == resolve_step(old(self)@, event@),
    {
        match event {
            Event::Confirmed(yes) => if yes {
                let req = self.update_request();
                self.move_to(Stage::Sending);
                Action::Send(req, Report::Json(owned("Successfully updated: ")))
            } else {
                self.move_to(Stage::Listing);
                Action::Fetch(self.listing())
            },
            _ => self.end(UsageError::InvalidArgument),
        }
    }

    fn on_pick_to_delete(&mut self, event: Event) -> (action: Action)
        requires
            old(self)@.stage == Stage::PickToDelete,
        ensures
            (final(self)@, action@) == resolve_step(old(self)@, event@),
    {
        match event {
            Event::Chosen(i) => if i < self.items.len() {
                self.target = self.items[i].id.clone();
                self.stage = Stage::ConfirmDelete;
                Action::Confirm(owned("Are you sure?"))
            } else {
                self.end(UsageError::InvalidSelection)
            },
            _ => self.end(UsageError::InvalidArgument),
        }
    }

    fn on_confirm_delete(&mut self, event: Event) -> (action: Action)
        requires
            old(self)@.stage == Stage::ConfirmDelete,
        ensures
            (final(self)@, action@) == resolve_step(old(self)@, event@),
    {
        match event {
            Event::Confirmed(yes) => if yes {
                match self.delete_request(&self.target) {
                    Some(req) => {
                        self.move_to(Stage::Sending);
                        Action::Send(req, Report::Text(owned("Deleted!")))
                    },
                    None => self.end(UsageError::InvalidArgument),
                }
            } else {
                self.move_to(Stage::Done);
                Action::Say(owned("Cancelling."))
            },
            _ => self.end(UsageError::InvalidArgument),
        }
    }

    fn add_prompt(&self) -> (r: String)
        ensures
            r@ == add_prompt(self@.resource),
    {
        match self.resource {
            Resource::SshKeys => owned("Enter your public key"),
            Resource::Installs => owned("Enter an install name"),
            _ => owned("Enter a site name"),
        }
    }

    fn update_prompt(&self) -> (r: String)
        ensures
            r@ == update_prompt(self@.resource),
    {
        match self.resource {
            Resource::Installs => owned("Enter a site ID"),
            _ => owned("Enter a site name"),
        }
    }

    fn update_request(&self) -> (r: Request)
        ensures
            r@ == update_request(self@),
    {
        if self.resource == Resource::Installs {
            let patch = InstallPatch {
                site_id: answer(&self.first),
                environment: answer(&self.second),
            };
            assert(patch.members() =~= answer_member("site_id"@, self.first@) + answer_member(
                "environment"@,
                self.second@,
            ));
            self.api.update_install(self.target.as_str(), &patch)
        } else {
            let patch = SitePatch { name: Some(self.first.clone()) };
            assert(patch.members() =~= seq![("name"@, ScalarView::Str(self.first@))]);
            self.api.update_site(self.target.as_str(), &patch)
        }
    }

    fn end(&mut self, e: UsageError) -> (a: Action)
        ensures
            final(self)@ == with_stage(old(self)@, Stage::Done),
            a@ == ActionView::Fail(e),
    {
        self.stage = Stage::Done;
        Action::Fail(e)
    }

    fn move_to(&mut self, stage: Stage)
        ensures
            final(self)@ == with_stage(old(self)@, stage),
    {
        self.stage = stage;
    }
}

/// The actions of a flow over a run of events.
pub open spec fn resolve_run(s: ResolverView, events: Seq<EventView>) -> (ResolverView, Seq<ActionView>)
    decreases events.len(),
{
    if events.len() == 0 {
        (s, Seq::empty())
    } else {
        let (s1, a) = resolve_step(s, events[0]);
        let (s2, rest) = resolve_run(s1, events.drop_first());
        (s2, seq![a] + rest)
    }
}

/// A finished flow stays finished and asks for nothing more: no request, no prompt.
pub proof fn lemma_finished_flow_is_inert(s: ResolverView, events: Seq<EventView>)
    requires
        s.stage == Stage::Done,
    ensures
        resolve_run(s, events).0 == s,
        forall|i: int| 0 <= i < resolve_run(s, events).1.len()
            ==> #[trigger] resolve_run(s, events).1[i] == ActionView::Finish,
    decreases events.len(),
{
    if events.len() > 0 {
        lemma_finished_flow_is_inert(s, events.drop_first());
        let rest = resolve_run(s, events.drop_first()).1;
        assert forall|i: int| 0 <= i < resolve_run(s, events).1.len()
            implies #[trigger] resolve_run(s, events).1[i] == ActionView::Finish by {
            if i > 0 {
                assert(resolve_run(s, events).1[i] == rest[i - 1]);
            }
        }
    }
}

/// Leaving the new site name empty cancels the update: the flow prints the
/// cancellation message and ends, and no change is ever sent.
pub proof fn lemma_empty_site_name_cancels(s: ResolverView, later: Seq<EventView>)
    requires
        s.stage == Stage::UpdateFirst,
        s.resource == Resource::Sites,
    ensures
        ({
            let (s1, actions) = resolve_run(s, seq![EventView::Entered(Seq::empty())] + later);
            &&& actions[0] == ActionView::Say(cancel_message())
            &&& s1.stage == Stage::Done
            &&& forall|i: int| 1 <= i < actions.len() ==> actions[i] == ActionView::Finish
        }),
{
    let events = seq![EventView::Entered(Seq::empty())] + later;
    assert(events.drop_first() =~= later);
    let (s1, a) = resolve_step(s, events[0]);
    lemma_finished_flow_is_inert(s1, later);
    let rest = resolve_run(s1, later).1;
    assert forall|i: int| 1 <= i < resolve_run(s, events).1.len()
        implies resolve_run(s, events).1[i] == ActionView::Finish by {
        assert(resolve_run(s, events).1[i] == rest[i - 1]);
    }
}

/// Leaving both new install values empty cancels the update in the same way.
pub proof fn lemma_empty_install_answers_cancel(s: ResolverView, later: Seq<EventView>)
    requires
        s.stage == Stage::UpdateFirst,
        s.resource == Resource::Installs,
    ensures
        ({
            let events = seq![EventView::Entered(Seq::empty()), EventView::Entered(Seq::empty())]
                + later;
            let (s1, actions) = resolve_run(s, events);
            &&& actions[1] == ActionView::Say(cancel_message())
            &&& s1.stage == Stage::Done
            &&& forall|i: int| 2 <= i < actions.len() ==> actions[i] == ActionView::Finish
        }),
{
    let events = seq![EventView::Entered(Seq::empty()), EventView::Entered(Seq::empty())] + later;
    assert(events.drop_first().drop_first() =~= later);
    let (s1, a1) = resolve_step(s, events[0]);
    assert(events.drop_first()[0] == events[1]);
    let (s2, a2) = resolve_step(s1, events[1]);
    assert(s2.stage == Stage::Done);
    lemma_finished_flow_is_inert(s2, later);
    let rest = resolve_run(s2, later).1;
    let mid = resolve_run(s1, events.drop_first()).1;
    assert(mid[0] == a2);
    assert forall|i: int| 2 <= i < resolve_run(s, events).1.len()
        implies resolve_run(s, events).1[i] == ActionView::Finish by {
        assert(resolve_run(s, events).1[i] == mid[i - 1]);
        assert(mid[i - 1] == rest[i - 2]);
    }
}

/// Turning down a delete prints a cancellation and ends the flow; no delete is sent.
pub proof fn lemma_rejected_delete_sends_nothing(s: ResolverView, later: Seq<EventView>)
    requires
        s.stage == Stage::ConfirmDelete,
    ensures
        ({
            let (s1, actions) = resolve_run(s, seq![EventView::Confirmed(false)] + later);
            &&& actions[0] == ActionView::Say("Cancelling."@)
            &&& s1.stage == Stage::Done
            &&& forall|i: int| 1 <= i < actions.len() ==> actions[i] == ActionView::Finish
        }),
{
    let events = seq![EventView::Confirmed(false)] + later;
    assert(events.drop_first() =~= later);
    let (s1, a) = resolve_step(s, events[0]);
    lemma_finished_flow_is_inert(s1, later);
    let rest = resolve_run(s1, later).1;
    assert forall|i: int| 1 <= i < resolve_run(s, events).1.len()
        implies resolve_run(s, events).1[i] == ActionView::Finish by {
        assert(resolve_run(s, events).1[i] == rest[i - 1]);
    }
}

/// Turning down an update starts the flow over: the same page is fetched again
/// and nothing is changed.
pub proof fn lemma_rejected_update_starts_over(s: ResolverView)
    requires
        s.stage == Stage::ConfirmUpdate,
    ensures
        resolve_step(s, EventView::Confirmed(false)) == (
            with_stage(s, Stage::Listing),
            ActionView::Fetch(listing_request(s)),
        ),
{
}

/// The number written by a string of decimal digits.
pub open spec fn digits_value(t: Seq<char>) -> nat
    decreases t.len(),
{
    if t.len() == 0 {
        0
    } else {
        digits_value(t.drop_last()) * 10 + (t.last() as nat - '0' as nat) as nat
    }
}

pub open spec fn all_digits(t: Seq<char>) -> bool {
    forall|i: int| 0 <= i < t.len() ==> '0' <= #[trigger] t[i] && t[i] <= '9'
}

/// A page argument is a non-empty run of decimal digits whose value fits in 32 bits.
pub open spec fn is_page_text(t: Seq<char>) -> bool {
    t.len() > 0 && all_digits(t) && digits_value(t) <= u32::MAX
}

/// Reads the zero-based page number given on the command line.
pub fn parse_page(text: &str) -> (r: Result<u32, UsageError>)
    ensures
        is_page_text(text@) ==> r == Ok::<u32, UsageError>(digits_value(text@) as u32),
        !is_page_text(text@) ==> r == Err::<u32, UsageError>(UsageError::InvalidArgument),
{
    let n = text.unicode_len();
    if n == 0 {
        return Err(UsageError::InvalidArgument);
    }
    let mut value: u64 = 0;
    let mut i: usize = 0;
    while i < n
        invariant
            n == text@.len(),
            i <= n,
            all_digits(text@.subrange(0, i as int)),
            value == digits_value(text@.subrange(0, i as int)),
            value <= u32::MAX,
        decreases n - i,
    {
        let c = text.get_char(i);
        let ghost prefix = text@.subrange(0, i as int);
        assert(text@.subrange(0, i + 1) =~= prefix.push(c));
        if c < '0' || c > '9' {
            assert(!all_digits(text@)) by {
                assert(text@[i as int] == c);
            }
            return Err(UsageError::InvalidArgument);
        }
        let d = (c as u32 - '0' as u32) as u64;
        let next = value * 10 + d;
        assert(all_digits(text@.subrange(0, i + 1)));
        assert(prefix.push(c).drop_last() =~= prefix);
        assert(next == digits_value(text@.subrange(0, i + 1)));
        if next > u32::MAX as u64 {
            proof {
                lemma_prefix_bound(text@, i as int + 1);
            }
            return Err(UsageError::InvalidArgument);
        }
        value = next;
        i = i + 1;
    }
    assert(text@.subrange(0, n as int) =~= text@);
    Ok(value as u32)
}

/// A number whose leading digits already exceed a bound exceeds it too.
proof fn lemma_prefix_bound(t: Seq<char>, k: int)
    requires
        0 < k <= t.len(),
        all_digits(t.subrange(0, k)),
        digits_value(t.subrange(0, k)) > u32::MAX,
    ensures
        !is_page_text(t),
    decreases t.len() - k,
{
    if k < t.len() && all_digits(t) {
        let p = t.subrange(0, k + 1);
        assert(p.drop_last() =~= t.subrange(0, k));
        assert(all_digits(p));
        assert(digits_value(p) >= digits_value(t.subrange(0, k)) * 10);
        lemma_prefix_bound(t, k + 1);
    } else if k == t.len() {
        assert(t.subrange(0, k) =~= t);
    }
}

} // verus!
