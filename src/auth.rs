use vstd::prelude::*;
use crate::config::{
    init, is_logged_in, option_view, Config, ConfigView, SessionStart, DEFAULT_API_BASE,
};

verus! {

/// Where a login session stands.
#[derive(Clone, Copy, Debug, PartialEq, Eq, Structural)]
pub enum AuthPhase {
    /// Waiting for the stored record to be read.
    Check,
    /// Waiting for the user id that the user types.
    AwaitUserId,
    /// Waiting for the secret that the user types.
    AwaitSecret,
    /// Nothing more to do.
    Done,
}

/// What the caller hands back to a session after performing its last action.
pub enum AuthEvent {
    /// The stored record, `None` when it is absent or unreadable.
    Stored(Option<Config>),
    /// A line the user typed at a prompt.
    Entered(String),
}

/// What a session asks its caller to do next.
pub enum AuthAction {
    /// Read the stored record and hand it back as `AuthEvent::Stored`.
    ReadStored,
    /// Prompt for the user id.
    AskUserId,
    /// Prompt for the secret.
    AskSecret,
    /// Overwrite the stored record with this one.
    Write(Config),
    /// Remove the stored record; a missing record is not an error.
    Erase,
    /// Go on to the API calls.
    Proceed,
}

pub enum AuthEventView {
    Stored(Option<ConfigView>),
    Entered(Seq<char>),
}

pub enum AuthActionView {
    ReadStored,
    AskUserId,
    AskSecret,
    Write(ConfigView),
    Erase,
    Proceed,
}

impl View for AuthEvent {
    type V = AuthEventView;

    open spec fn view(&self) -> AuthEventView {
        match self {
            AuthEvent::Stored(s) => AuthEventView::Stored(option_view(*s)),
            AuthEvent::Entered(t) => AuthEventView::Entered(t@),
        }
    }
}

impl View for AuthAction {
    type V = AuthActionView;

    open spec fn view(&self) -> AuthActionView {
        match self {
            AuthAction::ReadStored => AuthActionView::ReadStored,
            AuthAction::AskUserId => AuthActionView::AskUserId,
            AuthAction::AskSecret => AuthActionView::AskSecret,
            AuthAction::Write(c) => AuthActionView::Write(c@),
            AuthAction::Erase => AuthActionView::Erase,
            AuthAction::Proceed => AuthActionView::Proceed,
        }
    }
}

/// The login flow of one process: check the stored record, and where it is not
/// a login, prompt for an id and a secret and store them.
pub struct AuthSession {
    phase: AuthPhase,
    user_id: String,
}

pub struct AuthSessionView {
    pub phase: AuthPhase,
    pub user_id: Seq<char>,
}

impl View for AuthSession {
    type V = AuthSessionView;

    closed spec fn view(&self) -> AuthSessionView {
        AuthSessionView { phase: self.phase, user_id: self.user_id@ }
    }
}

/// The record a login with these entries stores.
pub open spec fn login_record(user_id: Seq<char>, secret: Seq<char>) -> ConfigView {
    ConfigView { user_id, secret, api_base: DEFAULT_API_BASE@ }
}

/// The action a session in this state still waits on.
pub open spec fn pending_action(s: AuthSessionView) -> AuthActionView {
    match s.phase {
        AuthPhase::Check => AuthActionView::ReadStored,
        AuthPhase::AwaitUserId => AuthActionView::AskUserId,
        AuthPhase::AwaitSecret => AuthActionView::AskSecret,
        AuthPhase::Done => AuthActionView::Proceed,
    }
}

/// One step of the login flow. An event that the state does not wait on leaves
/// the state as it is and repeats what it waits on.
pub open spec fn auth_step(s: AuthSessionView, e: AuthEventView) -> (AuthSessionView, AuthActionView) {
    match (s.phase, e) {
        (AuthPhase::Check, AuthEventView::Stored(stored)) => if is_logged_in(stored) {
            (AuthSessionView { phase: AuthPhase::Done, ..s }, AuthActionView::Proceed)
        } else {
            (AuthSessionView { phase: AuthPhase::AwaitUserId, ..s }, AuthActionView::AskUserId)
        },
        (AuthPhase::AwaitUserId, AuthEventView::Entered(t)) => (
            AuthSessionView { phase: AuthPhase::AwaitSecret, user_id: t },
            AuthActionView::AskSecret,
        ),
        (AuthPhase::AwaitSecret, AuthEventView::Entered(t)) => (
            AuthSessionView { phase: AuthPhase::Done, ..s },
            AuthActionView::Write(login_record(s.user_id, t)),
        ),
        _ => (s, pending_action(s)),
    }
}

/// The state and the actions after a run of events.
pub open spec fn auth_run(s: AuthSessionView, events: Seq<AuthEventView>) -> (AuthSessionView, Seq<AuthActionView>)
    decreases events.len(),
{
    if events.len() == 0 {
        (s, Seq::empty())
    } else {
        let (s1, a) = auth_step(s, events[0]);
        let (s2, rest) = auth_run(s1, events.drop_first());
        (s2, seq![a] + rest)
    }
}

impl AuthSession {
    /// A session that logs in only where no login is stored. Its first action is
    /// to read the stored record.
    pub fn ensure() -> (r: (AuthSession, AuthAction))
        ensures
            r.0@.phase == AuthPhase::Check,
            r.1@ == AuthActionView::ReadStored,
    {
        (AuthSession { phase: AuthPhase::Check, user_id: String::new() }, AuthAction::ReadStored)
    }

    /// A session that prompts for a new login whatever is stored.
    pub fn login() -> (r: (AuthSession, AuthAction))
        ensures
            r.0@.phase == AuthPhase::AwaitUserId,
            r.1@ == AuthActionView::AskUserId,
    {
        (AuthSession { phase: AuthPhase::AwaitUserId, user_id: String::new() }, AuthAction::AskUserId)
    }

    /// Logging out removes the stored record and ends the session.
    pub fn logout() -> (r: (AuthSession, AuthAction))
        ensures
            r.0@.phase == AuthPhase::Done,
            r.1@ == AuthActionView::Erase,
    {
        (AuthSession { phase: AuthPhase::Done, user_id: String::new() }, AuthAction::Erase)
    }

    pub fn phase(&self) -> (r: AuthPhase)
        ensures
            r == self@.phase,
    {
        self.phase
    }

    /// Takes the outcome of the last action and returns the next one.
    pub fn next(&mut self, event: AuthEvent) -> (action: AuthAction)
        ensures
            (final(self)@, action@) == auth_step(old(self)@, event@),
    {
        match event {
            AuthEvent::Stored(stored) => {
                if self.phase == AuthPhase::Check {
                    match init(&stored) {
                        SessionStart::Proceed => {
                            self.phase = AuthPhase::Done;
                            AuthAction::Proceed
                        },
                        SessionStart::Login => {
                            self.phase = AuthPhase::AwaitUserId;
                            AuthAction::AskUserId
                        },
                    }
                } else {
                    self.pending()
                }
            },
            AuthEvent::Entered(text) => {
                if self.phase == AuthPhase::AwaitUserId {
                    self.phase = AuthPhase::AwaitSecret;
                    self.user_id = text;
                    AuthAction::AskSecret
                } else if self.phase == AuthPhase::AwaitSecret {
                    self.phase = AuthPhase::Done;
                    let user_id = self.user_id.clone();
                    AuthAction::Write(Config::new_login(user_id, text))
                } else {
                    self.pending()
                }
            },
        }
    }

    fn pending(&self) -> (r: AuthAction)
        ensures
            r@ == pending_action(self@),
    {
        match self.phase {
            AuthPhase::Check => AuthAction::ReadStored,
            AuthPhase::AwaitUserId => AuthAction::AskUserId,
            AuthPhase::AwaitSecret => AuthAction::AskSecret,
            AuthPhase::Done => AuthAction::Proceed,
        }
    }
}

/// A session started to ensure a login, handed a stored record whose user id has
/// the canonical shape, finishes at once: it prompts for nothing and writes
/// nothing, whatever events follow.
pub proof fn lemma_stored_login_needs_no_prompt(
    s: AuthSessionView,
    stored: ConfigView,
    later: Seq<AuthEventView>,
)
    requires
        s.phase == AuthPhase::Check,
        is_logged_in(Some(stored)),
    ensures
        ({
            let (s1, actions) = auth_run(s, seq![AuthEventView::Stored(Some(stored))] + later);
            &&& s1.phase == AuthPhase::Done
            &&& forall|i: int| 0 <= i < actions.len() ==> actions[i] == AuthActionView::Proceed
        }),
{
    let events = seq![AuthEventView::Stored(Some(stored))] + later;
    assert(events.drop_first() =~= later);
    let (s1, _) = auth_step(s, events[0]);
    lemma_done_stays_done(s1, later);
}

/// A finished session stays finished and only ever says to proceed.
pub proof fn lemma_done_stays_done(s: AuthSessionView, events: Seq<AuthEventView>)
    requires
        s.phase == AuthPhase::Done,
    ensures
        auth_run(s, events).0.phase == AuthPhase::Done,
        forall|i: int| 0 <= i < auth_run(s, events).1.len()
            ==> #[trigger] auth_run(s, events).1[i] == AuthActionView::Proceed,
    decreases events.len(),
{
    if events.len() > 0 {
        let (s1, a) = auth_step(s, events[0]);
        lemma_done_stays_done(s1, events.drop_first());
        let rest = auth_run(s1, events.drop_first()).1;
        assert forall|i: int| 0 <= i < auth_run(s, events).1.len()
            implies #[trigger] auth_run(s, events).1[i] == AuthActionView::Proceed by {
            if i > 0 {
                assert(auth_run(s, events).1[i] == rest[i - 1]);
            }
        }
    }
}

/// A session started to ensure a login, handed no record or one whose user id is
/// not canonical, prompts once for the id and once for the secret, then writes
/// exactly the entered values bound to the default API address, and is done.
pub proof fn lemma_missing_login_prompts_once(
    s: AuthSessionView,
    stored: Option<ConfigView>,
    user_id: Seq<char>,
    secret: Seq<char>,
)
    requires
        s.phase == AuthPhase::Check,
        !is_logged_in(stored),
    ensures
        auth_run(
            s,
            seq![
                AuthEventView::Stored(stored),
                AuthEventView::Entered(user_id),
                AuthEventView::Entered(secret),
            ],
        ) == (
            AuthSessionView { phase: AuthPhase::Done, user_id },
            seq![
                AuthActionView::AskUserId,
                AuthActionView::AskSecret,
                AuthActionView::Write(login_record(user_id, secret)),
            ],
        ),
{
    let events = seq![
        AuthEventView::Stored(stored),
        AuthEventView::Entered(user_id),
        AuthEventView::Entered(secret),
    ];
    let (s1, a1) = auth_step(s, events[0]);
    let (s2, a2) = auth_step(s1, events[1]);
    let (s3, a3) = auth_step(s2, events[2]);
    assert(events.drop_first() =~= seq![events[1], events[2]]);
    assert(events.drop_first().drop_first() =~= seq![events[2]]);
    assert(events.drop_first().drop_first().drop_first() =~= Seq::<AuthEventView>::empty());
    assert(auth_run(s3, Seq::empty()) == (s3, Seq::<AuthActionView>::empty()));
    assert(auth_run(s2, seq![events[2]]).1 =~= seq![a3]);
    assert(auth_run(s1, seq![events[1], events[2]]).1 =~= seq![a2, a3]);
    assert(auth_run(s, events).1 =~= seq![a1, a2, a3]);
}

} // verus!
