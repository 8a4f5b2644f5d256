//! A client library for a hosting provider's REST API: the stored credential
//! record and the login flow around it, authenticated request building for every
//! API operation, JSON payloads that leave unset fields out, response
//! classification, and the selection flow that drives list, add, update and
//! delete actions for each resource domain.

pub mod auth;
pub mod config;
pub mod decode;
pub mod error;
pub mod gateway;
pub mod json;
pub mod payload;
pub mod resolver;

pub use auth::{AuthAction, AuthEvent, AuthPhase, AuthSession};
pub use config::{init, Config, SessionStart, DEFAULT_API_BASE};
pub use error::{check_status, ApiError, UsageError};
pub use gateway::{page_offset, Method, Request, API};
pub use payload::{
    AccountUser, AccountUserPatch, Backup, Cache, Domain, DomainPatch, Install, InstallPatch,
    SSHKey, Site, SitePatch, User, UserPatch,
};
pub use resolver::{parse_page, Action, Command, Event, Item, Report, Resolver, Resource, Stage};
