use vstd::prelude::*;
use crate::config::{Config, ConfigView};
use crate::json::render_object;
use crate::payload::{
    AccountUser, AccountUserPatch, Backup, Cache, Domain, DomainPatch, Install, InstallPatch,
    SSHKey, Site, SitePatch,
};

verus! {

/// Number of items the provider returns per page.
pub const PAGE_SIZE: u64 = 100;

pub open spec fn digit_char(d: nat) -> char {
    ('0' as nat + d) as char
}

/// The decimal digits of `n`, without leading zeros.
pub open spec fn decimal(n: nat) -> Seq<char>
    decreases n,
{
    if n < 10 {
        seq![digit_char(n)]
    } else {
        decimal(n / 10).push(digit_char(n % 10))
    }
}

fn digit_str(d: u64) -> (r: &'static str)
    requires
        d < 10,
    ensures
        r@ == seq![digit_char(d as nat)],
{
    proof {
        reveal_strlit("0");
        reveal_strlit("1");
        reveal_strlit("2");
        reveal_strlit("3");
        reveal_strlit("4");
        reveal_strlit("5");
        reveal_strlit("6");
        reveal_strlit("7");
        reveal_strlit("8");
        reveal_strlit("9");
    }
    let r = match d {
        0 => "0",
        1 => "1",
        2 => "2",
        3 => "3",
        4 => "4",
        5 => "5",
        6 => "6",
        7 => "7",
        8 => "8",
        _ => "9",
    };
    assert(r@ =~= seq![digit_char(d as nat)]);
    r
}

/// Appends the decimal digits of `n`.
pub fn append_decimal(out: &mut String, n: u64)
    ensures
        final(out)@ == old(out)@ + decimal(n as nat),
    decreases n,
{
    if n >= 10 {
        append_decimal(out, n / 10);
    }
    out.append(digit_str(n % 10));
    assert(out@ =~= old(out)@ + decimal(n as nat));
}

/// The offset of the first item of a zero-based page; no page means the first.
pub open spec fn offset_of(page: Option<u32>) -> nat {
    match page {
        Some(p) => (p * 100) as nat,
        None => 0,
    }
}

/// The offset of the first item of a zero-based page; no page means the first.
pub fn page_offset(page: Option<u32>) -> (r: u64)
    ensures
        r == offset_of(page),
{
    match page {
        Some(p) => p as u64 * PAGE_SIZE,
        None => 0,
    }
}

/// The HTTP verb of a request.
#[derive(Clone, Copy, Debug, PartialEq, Eq, Structural)]
pub enum Method {
    Get,
    Post,
    Patch,
    Delete,
}

/// One authenticated API request: HTTP Basic authentication with `user` and
/// `password`, and a JSON body where there is one.
#[derive(Clone, Debug)]
pub struct Request {
    pub method: Method,
    pub url: String,
    pub user: String,
    pub password: String,
    pub body: Option<String>,
}

pub struct RequestView {
    pub method: Method,
    pub url: Seq<char>,
    pub user: Seq<char>,
    pub password: Seq<char>,
    pub body: Option<Seq<char>>,
}

pub open spec fn opt_string_view(s: Option<String>) -> Option<Seq<char>> {
    match s {
        Some(t) => Some(t@),
        None => None,
    }
}

impl View for Request {
    type V = RequestView;

    open spec fn view(&self) -> RequestView {
        RequestView {
            method: self.method,
            url: self.url@,
            user: self.user@,
            password: self.password@,
            body: opt_string_view(self.body),
        }
    }
}

/// The request for `path` under the account's API address, with its credentials.
pub open spec fn request_to(
    method: Method,
    cfg: ConfigView,
    path: Seq<char>,
    body: Option<Seq<char>>,
) -> RequestView {
    RequestView { method, url: cfg.api_base + path, user: cfg.user_id, password: cfg.secret, body }
}

/// The path that lists one page of a collection.
pub open spec fn list_path(collection: Seq<char>, page: Option<u32>) -> Seq<char> {
    collection + "?offset="@ + decimal(offset_of(page))
}

/// Builds the requests of every API operation from the stored credentials.
pub struct API {
    config: Config,
}

impl View for API {
    type V = ConfigView;

    closed spec fn view(&self) -> ConfigView {
        self.config@
    }
}

fn join(a: &str, b: &str) -> (r: String)
    ensures
        r@ == a@ + b@,
{
    String::from_str(a).concat(b)
}

fn join4(a: &str, b: &str, c: &str, d: &str) -> (r: String)
    ensures
        r@ == a@ + b@ + c@ + d@,
{
    String::from_str(a).concat(b).concat(c).concat(d)
}

impl API {
    pub fn new(config: Config) -> (r: API)
        ensures
            r@ == config@,
    {
        API { config }
    }

    fn request(&self, method: Method, path: String, body: Option<String>) -> (r: Request)
        ensures
            r@ == request_to(method, self@, path@, opt_string_view(body)),
    {
        Request {
            method,
            url: self.config.wpengine_api.clone().concat(path.as_str()),
            user: self.config.wpengine_user_id.clone(),
            password: self.config.wpengine_password.clone(),
            body,
        }
    }

    fn list(&self, collection: &str, page: Option<u32>) -> (r: Request)
        ensures
            r@ == request_to(Method::Get, self@, list_path(collection@, page), None),
    {
        let mut path = join(collection, "?offset=");
        append_decimal(&mut path, page_offset(page));
        self.request(Method::Get, path, None)
    }

    /// The provider's health report.
    pub fn status(&self) -> (r: Request)
        ensures
            r@ == request_to(Method::Get, self@, "/status"@, None),
    {
        self.request(Method::Get, String::from_str("/status"), None)
    }

    /// The API description.
    pub fn swagger(&self) -> (r: Request)
        ensures
            r@ == request_to(Method::Get, self@, "/swagger"@, None),
    {
        self.request(Method::Get, String::from_str("/swagger"), None)
    }

    /// One page of sites.
    pub fn get_sites(&self, page: Option<u32>) -> (r: Request)
        ensures
            r@ == request_to(Method::Get, self@, list_path("/sites"@, page), None),
    {
        self.list("/sites", page)
    }

    pub fn get_site_by_id(&self, id: &str) -> (r: Request)
        ensures
            r@ == request_to(Method::Get, self@, "/sites/"@ + id@, None),
    {
        self.request(Method::Get, join("/sites/", id), None)
    }

    pub fn add_site(&self, body: &Site) -> (r: Request)
        ensures
            r@ == request_to(Method::Post, self@, "/sites"@, Some(render_object(body.members()))),
    {
        self.request(Method::Post, String::from_str("/sites"), Some(body.to_json()))
    }

    pub fn update_site(&self, id: &str, body: &SitePatch) -> (r: Request)
        ensures
            r@ == request_to(
                Method::Patch,
                self@,
                "/sites/"@ + id@,
                Some(render_object(body.members())),
            ),
    {
        self.request(Method::Patch, join("/sites/", id), Some(body.to_json()))
    }

    pub fn delete_site(&self, id: &str) -> (r: Request)
        ensures
            r@ == request_to(Method::Delete, self@, "/sites/"@ + id@, None),
    {
        self.request(Method::Delete, join("/sites/", id), None)
    }

    /// One page of installs.
    pub fn get_installs(&self, page: Option<u32>) -> (r: Request)
        ensures
            r@ == request_to(Method::Get, self@, list_path("/installs"@, page), None),
    {
        self.list("/installs", page)
    }

    pub fn get_install_by_id(&self, id: &str) -> (r: Request)
        ensures
            r@ == request_to(Method::Get, self@, "/installs/"@ + id@, None),
    {
        self.request(Method::Get, join("/installs/", id), None)
    }

    pub fn add_install(&self, body: &Install) -> (r: Request)
        ensures
            r@ == request_to(
                Method::Post,
                self@,
                "/installs"@,
                Some(render_object(body.members())),
            ),
    {
        self.request(Method::Post, String::from_str("/installs"), Some(body.to_json()))
    }

    pub fn update_install(&self, install_id: &str, body: &InstallPatch) -> (r: Request)
        ensures
            r@ == request_to(
                Method::Patch,
                self@,
                "/installs/"@ + install_id@,
                Some(render_object(body.members())),
            ),
    {
        self.request(Method::Patch, join("/installs/", install_id), Some(body.to_json()))
    }

    pub fn purge_cache(&self, id: &str, body: String) -> (r: Request)
        ensures
            r@ == request_to(
                Method::Post,
                self@,
                "/installs/"@ + id@ + "/purge_cache"@,
                Some(render_object(Cache { kind: body }.members())),
            ),
    {
        let cache = Cache { kind: body };
        let path = join("/installs/", id).concat("/purge_cache");
        self.request(Method::Post, path, Some(cache.to_json()))
    }

    pub fn backup(&self, id: &str, backup: &Backup) -> (r: Request)
        ensures
            r@ == request_to(
                Method::Post,
                self@,
                "/installs/"@ + id@ + "/backups"@,
                Some(render_object(backup.members())),
            ),
    {
        let path = join("/installs/", id).concat("/backups");
        self.request(Method::Post, path, Some(backup.to_json()))
    }

    pub fn get_backup(&self, install_id: &str, backup_id: &str) -> (r: Request)
        ensures
            r@ == request_to(
                Method::Get,
                self@,
                "/installs/"@ + install_id@ + "/backups/"@ + backup_id@,
                None,
            ),
    {
        self.request(Method::Get, join4("/installs/", install_id, "/backups/", backup_id), None)
    }

    pub fn delete_install(&self, id: &str) -> (r: Request)
        ensures
            r@ == request_to(Method::Delete, self@, "/installs/"@ + id@, None),
    {
        self.request(Method::Delete, join("/installs/", id), None)
    }

    /// One page of accounts.
    pub fn get_accounts(&self, page: Option<u32>) -> (r: Request)
        ensures
            r@ == request_to(Method::Get, self@, list_path("/accounts"@, page), None),
    {
        self.list("/accounts", page)
    }

    /// The authenticated user.
    pub fn get_user(&self) -> (r: Request)
        ensures
            r@ == request_to(Method::Get, self@, "/user"@, None),
    {
        self.request(Method::Get, String::from_str("/user"), None)
    }

    pub fn get_account_by_id(&self, id: &str) -> (r: Request)
        ensures
            r@ == request_to(Method::Get, self@, "/accounts/"@ + id@, None),
    {
        self.request(Method::Get, join("/accounts/", id), None)
    }

    pub fn add_user(&self, id: &str, user: &AccountUser) -> (r: Request)
        ensures
            r@ == request_to(
                Method::Post,
                self@,
                "/accounts/"@ + id@ + "/account_users"@,
                Some(crate::json::render_wrapped("user"@, user.user.members())),
            ),
    {
        let path = join("/accounts/", id).concat("/account_users");
        self.request(Method::Post, path, Some(user.to_json()))
    }

    pub fn get_user_by_id(&self, account_id: &str, user_id: &str) -> (r: Request)
        ensures
            r@ == request_to(
                Method::Get,
                self@,
                "/accounts/"@ + account_id@ + "/account_users/"@ + user_id@,
                None,
            ),
    {
        let path = join4("/accounts/", account_id, "/account_users/", user_id);
        self.request(Method::Get, path, None)
    }

    pub fn update_user(&self, account_id: &str, user_id: &str, body: &AccountUserPatch) -> (r:
        Request)
        ensures
            r@ == request_to(
                Method::Patch,
                self@,
                "/accounts/"@ + account_id@ + "/account_users/"@ + user_id@,
                Some(crate::json::render_wrapped("user"@, body.user.members())),
            ),
    {
        let path = join4("/accounts/", account_id, "/account_users/", user_id);
        self.request(Method::Patch, path, Some(body.to_json()))
    }

    pub fn delete_user(&self, account_id: &str, user_id: &str) -> (r: Request)
        ensures
            r@ == request_to(
                Method::Delete,
                self@,
                "/accounts/"@ + account_id@ + "/account_users/"@ + user_id@,
                None,
            ),
    {
        let path = join4("/accounts/", account_id, "/account_users/", user_id);
        self.request(Method::Delete, path, None)
    }

    /// One page of the authorised public keys.
    pub fn get_ssh_keys(&self, page: Option<u32>) -> (r: Request)
        ensures
            r@ == request_to(Method::Get, self@, list_path("/ssh_keys"@, page), None),
    {
        self.list("/ssh_keys", page)
    }

    pub fn add_ssh_key(&self, ssh_key: &SSHKey) -> (r: Request)
        ensures
            r@ == request_to(
                Method::Post,
                self@,
                "/ssh_keys"@,
                Some(render_object(ssh_key.members())),
            ),
    {
        self.request(Method::Post, String::from_str("/ssh_keys"), Some(ssh_key.to_json()))
    }

    pub fn delete_ssh_key(&self, id: &str) -> (r: Request)
        ensures
            r@ == request_to(Method::Delete, self@, "/ssh_keys/"@ + id@, None),
    {
        self.request(Method::Delete, join("/ssh_keys/", id), None)
    }

    /// One page of the domains of an install.
    pub fn get_domains(&self, id: &str, page: Option<u32>) -> (r: Request)
        ensures
            r@ == request_to(
                Method::Get,
                self@,
                list_path("/installs/"@ + id@ + "/domains"@, page),
                None,
            ),
    {
        let collection = join("/installs/", id).concat("/domains");
        self.list(collection.as_str(), page)
    }

    pub fn get_domain_by_id(&self, install_id: &str, domain_id: &str) -> (r: Request)
        ensures
            r@ == request_to(
                Method::Get,
                self@,
                "/installs/"@ + install_id@ + "/domains/"@ + domain_id@,
                None,
            ),
    {
        self.request(Method::Get, join4("/installs/", install_id, "/domains/", domain_id), None)
    }

    pub fn add_domain(&self, id: &str, domain: &Domain) -> (r: Request)
        ensures
            r@ == request_to(
                Method::Post,
                self@,
                "/installs/"@ + id@ + "/domains"@,
                Some(render_object(domain.members())),
            ),
    {
        let path = join("/installs/", id).concat("/domains");
        self.request(Method::Post, path, Some(domain.to_json()))
    }

    pub fn update_domain(&self, install_id: &str, domain_id: &str, data: &DomainPatch) -> (r:
        Request)
        ensures
            r@ == request_to(
                Method::Patch,
                self@,
                "/installs/"@ + install_id@ + "/domains/"@ + domain_id@,
                Some(render_object(data.members())),
            ),
    {
        let path = join4("/installs/", install_id, "/domains/", domain_id);
        self.request(Method::Patch, path, Some(data.to_json()))
    }

    pub fn delete_domain(&self, install_id: &str, domain_id: &str) -> (r: Request)
        ensures
            r@ == request_to(
                Method::Delete,
                self@,
                "/installs/"@ + install_id@ + "/domains/"@ + domain_id@,
                None,
            ),
    {
        let path = join4("/installs/", install_id, "/domains/", domain_id);
        self.request(Method::Delete, path, None)
    }
}

} // verus!
