use vstd::prelude::*;

verus! {

/// The API address that every new login is bound to.
pub const DEFAULT_API_BASE: &'static str = "https://api.wpengineapi.com/v1";

/// The pattern a stored user id must match to count as a login.
pub const CANONICAL_ID_PATTERN: &'static str = "^[0-9a-f]{8}-[0-9a-f]{4}-[0-9a-f]{4}-[0-9a-f]{4}-[0-9a-f]{12}$";

/// A lowercase hexadecimal digit.
pub open spec fn is_lower_hex(c: char) -> bool {
    ('0' <= c && c <= '9') || ('a' <= c && c <= 'f')
}

/// Positions of the hyphens in a canonical id.
pub open spec fn is_hyphen_position(i: int) -> bool {
    i == 8 || i == 13 || i == 18 || i == 23
}

/// Five groups of lowercase hexadecimal digits, of lengths 8, 4, 4, 4 and 12,
/// joined by hyphens, and nothing else.
pub open spec fn is_canonical_id(s: Seq<char>) -> bool {
    &&& s.len() == 36
    &&& forall|i: int|
        0 <= i < 36 ==> if is_hyphen_position(i) {
            #[trigger] s[i] == '-'
        } else {
            is_lower_hex(s[i])
        }
}

/// The persisted credential record.
#[derive(Clone, Debug)]
pub struct Config {
    pub wpengine_user_id: String,
    pub wpengine_password: String,
    pub wpengine_api: String,
}

/// What a stored record holds, as character sequences.
pub struct ConfigView {
    pub user_id: Seq<char>,
    pub secret: Seq<char>,
    pub api_base: Seq<char>,
}

impl View for Config {
    type V = ConfigView;

    open spec fn view(&self) -> ConfigView {
        ConfigView {
            user_id: self.wpengine_user_id@,
            secret: self.wpengine_password@,
            api_base: self.wpengine_api@,
        }
    }
}

/// A stored record counts as a login when its user id has the canonical shape.
pub open spec fn is_logged_in(stored: Option<ConfigView>) -> bool {
    match stored {
        Some(c) => is_canonical_id(c.user_id),
        None => false,
    }
}

pub open spec fn option_view(stored: Option<Config>) -> Option<ConfigView> {
    match stored {
        Some(c) => Some(c@),
        None => None,
    }
}

/// Relies on regex::Regex::new and regex::Regex::is_match: the anchored pattern of
/// canonical ids compiles, and it matches a string exactly when the whole string
/// is five groups of lowercase hexadecimal digits of lengths 8, 4, 4, 4 and 12
/// joined by hyphens.
#[verifier::external_body]
fn matches_id_pattern(pattern: &str, s: &str) -> (r: bool)
    requires
        pattern@ == CANONICAL_ID_PATTERN@,
    ensures
        r == is_canonical_id(s@),
{
    regex::Regex::new(pattern).unwrap().is_match(s)
}

impl Config {
    /// The record written by a login: the entered id and secret, bound to the
    /// default API address.
    pub fn new_login(user_id: String, secret: String) -> (r: Config)
        ensures
            r@.user_id == user_id@,
            r@.secret == secret@,
            r@.api_base == DEFAULT_API_BASE@,
    {
        Config {
            wpengine_user_id: user_id,
            wpengine_password: secret,
            wpengine_api: String::from_str(DEFAULT_API_BASE),
        }
    }

    /// Whether the record's user id has the canonical shape.
    pub fn has_canonical_id(&self) -> (r: bool)
        ensures
            r == is_canonical_id(self@.user_id),
    {
        matches_id_pattern(CANONICAL_ID_PATTERN, self.wpengine_user_id.as_str())
    }
}

/// What the start of a session calls for.
#[derive(Clone, Copy, Debug, PartialEq, Eq, Structural)]
pub enum SessionStart {
    /// A login is stored: go on without prompting.
    Proceed,
    /// No usable login is stored: prompt for one and store it.
    Login,
}

/// Decides, from the stored record (`None` when it is absent or unreadable),
/// whether the user must log in before any API call.
pub fn init(stored: &Option<Config>) -> (r: SessionStart)
    ensures
        r == (if is_logged_in(option_view(*stored)) {
            SessionStart::Proceed
        } else {
            SessionStart::Login
        }),
{
    match stored {
        Some(c) => {
            if c.has_canonical_id() {
                SessionStart::Proceed
            } else {
                SessionStart::Login
            }
        },
        None => SessionStart::Login,
    }
}

} // verus!
