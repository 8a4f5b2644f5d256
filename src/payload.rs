use vstd::prelude::*;
use crate::json::{
    fields_view, object_to_json, render_object, render_wrapped, wrapped_to_json, Field,
    FieldView, Scalar, ScalarView,
};

verus! {

pub open spec fn views_of(l: Seq<String>) -> Seq<Seq<char>> {
    l.map_values(|s: String| s@)
}

/// One member holding a string.
pub open spec fn str_member(key: Seq<char>, v: Seq<char>) -> Seq<FieldView> {
    seq![(key, ScalarView::Str(v))]
}

/// One member holding a string where the value is set, none where it is not.
pub open spec fn opt_str_member(key: Seq<char>, v: Option<String>) -> Seq<FieldView> {
    match v {
        Some(s) => seq![(key, ScalarView::Str(s@))],
        None => Seq::empty(),
    }
}

pub open spec fn opt_bool_member(key: Seq<char>, v: Option<bool>) -> Seq<FieldView> {
    match v {
        Some(b) => seq![(key, ScalarView::Bool(b))],
        None => Seq::empty(),
    }
}

pub open spec fn opt_list_member(key: Seq<char>, v: Option<Vec<String>>) -> Seq<FieldView> {
    match v {
        Some(l) => seq![(key, ScalarView::StrList(views_of(l@)))],
        None => Seq::empty(),
    }
}

fn copy_strings(v: &Vec<String>) -> (r: Vec<String>)
    ensures
        views_of(r@) == views_of(v@),
{
    let mut r: Vec<String> = Vec::new();
    let mut i: usize = 0;
    while i < v.len()
        invariant
            i <= v.len(),
            r.len() == i,
            forall|j: int| 0 <= j < i ==> (#[trigger] r@[j])@ == v@[j]@,
        decreases v.len() - i,
    {
        let s = v[i].clone();
        r.push(s);
        i = i + 1;
    }
    assert(views_of(r@) =~= views_of(v@));
    r
}

fn push_str(fs: &mut Vec<Field>, key: &str, v: &String)
    ensures
        fields_view(final(fs)@) == fields_view(old(fs)@) + str_member(key@, v@),
{
    fs.push(Field { key: String::from_str(key), value: Scalar::Str(v.clone()) });
    assert(fields_view(fs@) =~= fields_view(old(fs)@) + str_member(key@, v@));
}

fn push_opt_str(fs: &mut Vec<Field>, key: &str, v: &Option<String>)
    ensures
        fields_view(final(fs)@) == fields_view(old(fs)@) + opt_str_member(key@, *v),
{
    match v {
        Some(s) => push_str(fs, key, s),
        None => {
            assert(fields_view(fs@) =~= fields_view(old(fs)@) + opt_str_member(key@, *v));
        },
    }
}

fn push_opt_bool(fs: &mut Vec<Field>, key: &str, v: Option<bool>)
    ensures
        fields_view(final(fs)@) == fields_view(old(fs)@) + opt_bool_member(key@, v),
{
    match v {
        Some(b) => {
            fs.push(Field { key: String::from_str(key), value: Scalar::Bool(b) });
        },
        None => {},
    }
    assert(fields_view(fs@) =~= fields_view(old(fs)@) + opt_bool_member(key@, v));
}

fn push_list(fs: &mut Vec<Field>, key: &str, v: &Vec<String>)
    ensures
        fields_view(final(fs)@) == fields_view(old(fs)@) + seq![(key@, ScalarView::StrList(views_of(v@)))],
{
    fs.push(Field { key: String::from_str(key), value: Scalar::StrList(copy_strings(v)) });
    assert(fields_view(fs@) =~= fields_view(old(fs)@) + seq![(key@, ScalarView::StrList(views_of(v@)))]);
}

fn push_opt_list(fs: &mut Vec<Field>, key: &str, v: &Option<Vec<String>>)
    ensures
        fields_view(final(fs)@) == fields_view(old(fs)@) + opt_list_member(key@, *v),
{
    match v {
        Some(l) => push_list(fs, key, l),
        None => {
            assert(fields_view(fs@) =~= fields_view(old(fs)@) + opt_list_member(key@, *v));
        },
    }
}

/// A site to create.
#[derive(Clone, Debug)]
pub struct Site {
    pub name: String,
    pub account_id: String,
}

/// A change to a site; an unset field is left as it is.
#[derive(Clone, Debug)]
pub struct SitePatch {
    pub name: Option<String>,
}

/// An install to create.
#[derive(Clone, Debug)]
pub struct Install {
    pub name: String,
    pub account_id: String,
    pub site_id: String,
    pub environment: String,
}

/// A change to an install; an unset field is left as it is.
#[derive(Clone, Debug)]
pub struct InstallPatch {
    pub site_id: Option<String>,
    pub environment: Option<String>,
}

/// A user to add to an account.
#[derive(Clone, Debug)]
pub struct User {
    pub account_id: String,
    pub first_name: String,
    pub last_name: String,
    pub email: String,
    pub roles: String,
    pub install_ids: Vec<String>,
}

/// A change to an account user; an unset field is left as it is.
#[derive(Clone, Debug)]
pub struct UserPatch {
    pub roles: Option<String>,
    pub install_ids: Option<Vec<String>>,
}

/// The body that adds a user to an account.
#[derive(Clone, Debug)]
pub struct AccountUser {
    pub user: User,
}

/// The body that changes an account user.
#[derive(Clone, Debug)]
pub struct AccountUserPatch {
    pub user: UserPatch,
}

/// A domain to add to an install.
#[derive(Clone, Debug)]
pub struct Domain {
    pub name: String,
    pub primary: bool,
}

/// A change to a domain; an unset field is left as it is.
#[derive(Clone, Debug)]
pub struct DomainPatch {
    pub primary: Option<bool>,
    pub redirect_to: Option<String>,
}

/// A public key to authorise.
#[derive(Clone, Debug)]
pub struct SSHKey {
    pub public_key: String,
}

/// A cache purge request; `kind` is sent as the member `type`.
#[derive(Clone, Debug)]
pub struct Cache {
    pub kind: String,
}

/// A backup request.
#[derive(Clone, Debug)]
pub struct Backup {
    pub description: String,
    pub notification_emails: Vec<String>,
}

impl Site {
    pub open spec fn members(&self) -> Seq<FieldView> {
        str_member("name"@, self.name@) + str_member("account_id"@, self.account_id@)
    }

    pub fn to_json(&self) -> (r: String)
        ensures
            r@ == render_object(self.members()),
    {
        let mut fs: Vec<Field> = Vec::new();
        push_str(&mut fs, "name", &self.name);
        push_str(&mut fs, "account_id", &self.account_id);
        assert(fields_view(fs@) =~= self.members());
        object_to_json(&fs)
    }
}

impl SitePatch {
    /// The JSON text this change is sent as.
    pub open spec fn to_json_spec(&self) -> Seq<char> {
        render_object(self.members())
    }

    pub open spec fn members(&self) -> Seq<FieldView> {
        opt_str_member("name"@, self.name)
    }

    pub fn to_json(&self) -> (r: String)
        ensures
            r@ == render_object(self.members()),
    {
        let mut fs: Vec<Field> = Vec::new();
        push_opt_str(&mut fs, "name", &self.name);
        assert(fields_view(fs@) =~= self.members());
        object_to_json(&fs)
    }
}

impl Install {
    pub open spec fn members(&self) -> Seq<FieldView> {
        str_member("name"@, self.name@) + str_member("account_id"@, self.account_id@)
            + str_member("site_id"@, self.site_id@) + str_member(
            "environment"@,
            self.environment@,
        )
    }

    pub fn to_json(&self) -> (r: String)
        ensures
            r@ == render_object(self.members()),
    {
        let mut fs: Vec<Field> = Vec::new();
        push_str(&mut fs, "name", &self.name);
        push_str(&mut fs, "account_id", &self.account_id);
        push_str(&mut fs, "site_id", &self.site_id);
        push_str(&mut fs, "environment", &self.environment);
        assert(fields_view(fs@) =~= self.members());
        object_to_json(&fs)
    }
}

impl InstallPatch {
    /// The JSON text this change is sent as.
    pub open spec fn to_json_spec(&self) -> Seq<char> {
        render_object(self.members())
    }

    pub open spec fn members(&self) -> Seq<FieldView> {
        opt_str_member("site_id"@, self.site_id) + opt_str_member("environment"@, self.environment)
    }

    pub fn to_json(&self) -> (r: String)
        ensures
            r@ == render_object(self.members()),
    {
        let mut fs: Vec<Field> = Vec::new();
        push_opt_str(&mut fs, "site_id", &self.site_id);
        push_opt_str(&mut fs, "environment", &self.environment);
        assert(fields_view(fs@) =~= self.members());
        object_to_json(&fs)
    }
}

impl User {
    pub open spec fn members(&self) -> Seq<FieldView> {
        str_member("account_id"@, self.account_id@) + str_member("first_name"@, self.first_name@)
            + str_member("last_name"@, self.last_name@) + str_member("email"@, self.email@)
            + str_member("roles"@, self.roles@) + seq![
            ("install_ids"@, ScalarView::StrList(views_of(self.install_ids@))),
        ]
    }

    fn fields(&self) -> (r: Vec<Field>)
        ensures
            fields_view(r@) == self.members(),
    {
        let mut fs: Vec<Field> = Vec::new();
        push_str(&mut fs, "account_id", &self.account_id);
        push_str(&mut fs, "first_name", &self.first_name);
        push_str(&mut fs, "last_name", &self.last_name);
        push_str(&mut fs, "email", &self.email);
        push_str(&mut fs, "roles", &self.roles);
        push_list(&mut fs, "install_ids", &self.install_ids);
        assert(fields_view(fs@) =~= self.members());
        fs
    }
}

impl UserPatch {
    pub open spec fn members(&self) -> Seq<FieldView> {
        opt_str_member("roles"@, self.roles) + opt_list_member("install_ids"@, self.install_ids)
    }

    fn fields(&self) -> (r: Vec<Field>)
        ensures
            fields_view(r@) == self.members(),
    {
        let mut fs: Vec<Field> = Vec::new();
        push_opt_str(&mut fs, "roles", &self.roles);
        push_opt_list(&mut fs, "install_ids", &self.install_ids);
        assert(fields_view(fs@) =~= self.members());
        fs
    }
}

impl AccountUser {
    pub fn to_json(&self) -> (r: String)
        ensures
            r@ == render_wrapped("user"@, self.user.members()),
    {
        let fs = self.user.fields();
        wrapped_to_json("user", &fs)
    }
}

impl AccountUserPatch {
    /// The JSON text this change is sent as.
    pub open spec fn to_json_spec(&self) -> Seq<char> {
        render_wrapped("user"@, self.user.members())
    }

    pub fn to_json(&self) -> (r: String)
        ensures
            r@ == render_wrapped("user"@, self.user.members()),
    {
        let fs = self.user.fields();
        wrapped_to_json("user", &fs)
    }
}

impl Domain {
    pub open spec fn members(&self) -> Seq<FieldView> {
        seq![("name"@, ScalarView::Str(self.name@)), ("primary"@, ScalarView::Bool(self.primary))]
    }

    pub fn to_json(&self) -> (r: String)
        ensures
            r@ == render_object(self.members()),
    {
        let mut fs: Vec<Field> = Vec::new();
        push_str(&mut fs, "name", &self.name);
        push_opt_bool(&mut fs, "primary", Some(self.primary));
        assert(fields_view(fs@) =~= self.members());
        object_to_json(&fs)
    }
}

impl DomainPatch {
    /// The JSON text this change is sent as.
    pub open spec fn to_json_spec(&self) -> Seq<char> {
        render_object(self.members())
    }

    pub open spec fn members(&self) -> Seq<FieldView> {
        opt_bool_member("primary"@, self.primary) + opt_str_member("redirect_to"@, self.redirect_to)
    }

    pub fn to_json(&self) -> (r: String)
        ensures
            r@ == render_object(self.members()),
    {
        let mut fs: Vec<Field> = Vec::new();
        push_opt_bool(&mut fs, "primary", self.primary);
        push_opt_str(&mut fs, "redirect_to", &self.redirect_to);
        assert(fields_view(fs@) =~= self.members());
        object_to_json(&fs)
    }
}

impl SSHKey {
    pub open spec fn members(&self) -> Seq<FieldView> {
        str_member("public_key"@, self.public_key@)
    }

    pub fn to_json(&self) -> (r: String)
        ensures
            r@ == render_object(self.members()),
    {
        let mut fs: Vec<Field> = Vec::new();
        push_str(&mut fs, "public_key", &self.public_key);
        assert(fields_view(fs@) =~= self.members());
        object_to_json(&fs)
    }
}

impl Cache {
    pub open spec fn members(&self) -> Seq<FieldView> {
        str_member("type"@, self.kind@)
    }

    pub fn to_json(&self) -> (r: String)
        ensures
            r@ == render_object(self.members()),
    {
        let mut fs: Vec<Field> = Vec::new();
        push_str(&mut fs, "type", &self.kind);
        assert(fields_view(fs@) =~= self.members());
        object_to_json(&fs)
    }
}

impl Backup {
    pub open spec fn members(&self) -> Seq<FieldView> {
        str_member("description"@, self.description@) + seq![
            ("notification_emails"@, ScalarView::StrList(views_of(self.notification_emails@))),
        ]
    }

    pub fn to_json(&self) -> (r: String)
        ensures
            r@ == render_object(self.members()),
    {
        let mut fs: Vec<Field> = Vec::new();
        push_str(&mut fs, "description", &self.description);
        push_list(&mut fs, "notification_emails", &self.notification_emails);
        assert(fields_view(fs@) =~= self.members());
        object_to_json(&fs)
    }
}

} // verus!
