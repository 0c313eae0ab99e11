//! Users Rest API Endpoint definitions
//!
//! [Redmine Documentation](https://www.redmine.org/projects/redmine/wiki/Rest_Users)
use vstd::prelude::*;
use vstd::string::StringExecFns;
use crate::Error;
use crate::api::endpoint::{
    BodySpec, BuilderError, Endpoint, HttpMethod, NoPagination, Pageable, RequestBody,
    ReturnsJsonResponse, json_body,
};
use crate::api::json::{
    JsonValue, JsonView, ObjectBuilder, ToJson, member_nullable, member_opt, single_member_object,
};
use crate::api::query::{ParamValue, QueryParams, opt_param_ok, push_opt_spec};
use crate::api::text::{decimal, push_decimal};

use crate::api::query::present;
use crate::api::text::{lemma_decimal_digits, lemma_id_path_injective};
use crate::api::bodies::wrapped_members;
use crate::api::bodies::object_members;
verus! {

/// The user status values that can be used in a filter
#[derive(Debug, Clone, Copy, PartialEq, Eq, Structural)]
pub enum UserStatus {
    /// User can login and use their account (default)
    Active,
    /// User has registered but not yet confirmed their email address or was not yet activated by an administrator. User can not login
    Registered,
    /// User was once active and is now locked, User can not login
    Locked,
    /// Specifies that we want to list users with any status
    AnyStatus,
}

impl UserStatus {
    /// The text of the value.
    pub open spec fn text(&self) -> Seq<char> {
        match self {
            UserStatus::Active => "Active"@,
            UserStatus::Registered => "Registered"@,
            UserStatus::Locked => "Locked"@,
            UserStatus::AnyStatus => ""@,
        }
    }

    /// The text of the value.
    pub fn to_string(&self) -> (r: String)
        ensures
            r@ == self.text(),
    {
        match self {
            UserStatus::Active => String::from_str("Active"),
            UserStatus::Registered => String::from_str("Registered"),
            UserStatus::Locked => String::from_str("Locked"),
            UserStatus::AnyStatus => String::from_str(""),
        }
    }
}

impl ParamValue for UserStatus {
    open spec fn param_text(&self) -> Seq<char> {
        self.text()
    }

    fn as_value(&self) -> (r: String) {
        self.to_string()
    }
}

/// The types of associated data which can be fetched along with a user
#[derive(Debug, Clone, Copy, PartialEq, Eq, Structural)]
pub enum UserInclude {
    /// The projects the user is a member of
    Memberships,
    /// The groups the user is a member of
    Groups,
}

impl UserInclude {
    /// The text of the value.
    pub open spec fn text(&self) -> Seq<char> {
        match self {
            UserInclude::Memberships => "memberships"@,
            UserInclude::Groups => "groups"@,
        }
    }

    /// The text of the value.
    pub fn to_string(&self) -> (r: String)
        ensures
            r@ == self.text(),
    {
        match self {
            UserInclude::Memberships => String::from_str("memberships"),
            UserInclude::Groups => String::from_str("groups"),
        }
    }
}

impl ParamValue for UserInclude {
    open spec fn param_text(&self) -> Seq<char> {
        self.text()
    }

    fn as_value(&self) -> (r: String) {
        self.to_string()
    }
}

/// The kinds of mail notifications a user can receive
#[derive(Debug, Clone, Copy, PartialEq, Eq, Structural)]
pub enum MailNotificationOptions {
    /// Get notified by all events (visible to user)
    All,
    /// This allows to be notified of all events in selected projects only
    Selected,
    /// Get notified of things the user is involved in
    OnlyMyEvents,
    /// Get notified of things the user is assigned to
    OnlyAssigned,
    /// Get notified of things the user is the owner of
    OnlyOwner,
    /// Do not get any mail notifications
    NoMailNotifications,
}

impl MailNotificationOptions {
    /// The text of the value.
    pub open spec fn text(&self) -> Seq<char> {
        match self {
            MailNotificationOptions::All => "all"@,
            MailNotificationOptions::Selected => "selected"@,
            MailNotificationOptions::OnlyMyEvents => "only_my_events"@,
            MailNotificationOptions::OnlyAssigned => "only_assigned"@,
            MailNotificationOptions::OnlyOwner => "only_owner"@,
            MailNotificationOptions::NoMailNotifications => "none"@,
        }
    }

    /// The text of the value.
    pub fn to_string(&self) -> (r: String)
        ensures
            r@ == self.text(),
    {
        match self {
            MailNotificationOptions::All => String::from_str("all"),
            MailNotificationOptions::Selected => String::from_str("selected"),
            MailNotificationOptions::OnlyMyEvents => String::from_str("only_my_events"),
            MailNotificationOptions::OnlyAssigned => String::from_str("only_assigned"),
            MailNotificationOptions::OnlyOwner => String::from_str("only_owner"),
            MailNotificationOptions::NoMailNotifications => String::from_str("none"),
        }
    }
}

impl ToJson for MailNotificationOptions {
    open spec fn json(&self) -> JsonView {
        JsonView::Str(self.text())
    }

    fn to_json(&self) -> (r: JsonValue) {
        JsonValue::Str(self.to_string())
    }
}

/// The endpoint for all users
#[derive(Debug, Clone)]
pub struct ListUsers {
    /// Filter by status
    pub status: Option<UserStatus>,
    /// Filter by the login, firstname, lastname or mail
    pub name: Option<String>,
    /// Filter by the group the user is a member of
    pub group_id: Option<u64>,
}

/// Builder for [`ListUsers`].
#[derive(Debug, Clone)]
pub struct ListUsersBuilder {
    /// Filter by status
    pub status: Option<UserStatus>,
    /// Filter by the login, firstname, lastname or mail
    pub name: Option<String>,
    /// Filter by the group the user is a member of
    pub group_id: Option<u64>,
}

impl ListUsers {
    /// Create a builder for the endpoint.
    pub fn builder() -> (r: ListUsersBuilder)
        ensures
            r.status is None,
            r.name is None,
            r.group_id is None,
    {
        ListUsersBuilder { status: None, name: None, group_id: None }
    }
}

impl ListUsersBuilder {
    /// Sets `status`: filter by status
    pub fn status(self, value: UserStatus) -> (r: ListUsersBuilder)
        ensures
            r.status == Some(value),
            r.name == self.name,
            r.group_id == self.group_id,
    {
        ListUsersBuilder { status: Some(value), name: self.name, group_id: self.group_id }
    }

    /// Sets `name`: filter by the login, firstname, lastname or mail
    pub fn name(self, value: &str) -> (r: ListUsersBuilder)
        ensures
            r.name matches Some(s) && s@ == value@,
            r.status == self.status,
            r.group_id == self.group_id,
    {
        ListUsersBuilder { status: self.status, name: Some(String::from_str(value)), group_id: self.group_id }
    }

    /// Sets `group_id`: filter by the group the user is a member of
    pub fn group_id(self, value: u64) -> (r: ListUsersBuilder)
        ensures
            r.group_id == Some(value),
            r.status == self.status,
            r.name == self.name,
    {
        ListUsersBuilder { status: self.status, name: self.name, group_id: Some(value) }
    }

    /// The first required field that has not been set, if any.
    pub open spec fn missing_field(&self) -> Option<Seq<char>> {
        None
    }

    /// Builds the endpoint; fails on the first required field that has not been set.
    pub fn build(self) -> (r: Result<ListUsers, BuilderError>)
        ensures
            match r {
                Ok(x) => self.missing_field() is None && x == (ListUsers { status: self.status, name: self.name, group_id: self.group_id }),
                Err(BuilderError::UninitializedField(n)) => self.missing_field() == Some(n@),
                Err(_) => false,
            },
    {
        Ok(ListUsers { status: self.status, name: self.name, group_id: self.group_id })
    }
}

impl ReturnsJsonResponse for ListUsers {}

impl Pageable for ListUsers {
    open spec fn wrapper_key_spec(&self) -> Seq<char> {
        "users"@
    }

    fn response_wrapper_key(&self) -> (r: String) {
        String::from_str("users")
    }
}

impl Endpoint for ListUsers {
    open spec fn method_spec(&self) -> HttpMethod {
        HttpMethod::Get
    }

    open spec fn endpoint_spec(&self) -> Seq<char> {
        "users.json"@
    }

    open spec fn parameters_spec(&self) -> Seq<(Seq<char>, Seq<char>)> {
        let p = Seq::<(Seq<char>, Seq<char>)>::empty();
        let p = push_opt_spec(p, "status"@, self.status);
        let p = push_opt_spec(p, "name"@, self.name);
        let p = push_opt_spec(p, "group_id"@, self.group_id);
        p
    }

    open spec fn body_spec(&self) -> Option<BodySpec> {
        None
    }

    fn method(&self) -> (r: HttpMethod) {
        HttpMethod::Get
    }

    fn endpoint(&self) -> (r: String) {
        String::from_str("users.json")
    }

    fn check_writable(&self) -> (r: bool) {
        true
    }

    fn parameters(&self) -> (r: QueryParams) {
        let mut p = QueryParams::new();
        p.push_opt("status", &self.status);
        p.push_opt("name", &self.name);
        p.push_opt("group_id", &self.group_id);
        p
    }

    fn body(&self) -> (r: Result<Option<RequestBody>, Error>) {
        Ok(None)
    }
}

/// The endpoint for a specific user (the current user when no id is given)
#[derive(Debug, Clone)]
pub struct GetUser {
    /// the id of the user to retrieve, the current user when absent
    pub id: Option<u64>,
    /// the types of associated data to include
    pub includes: Option<Vec<UserInclude>>,
}

/// Builder for [`GetUser`].
#[derive(Debug, Clone)]
pub struct GetUserBuilder {
    /// the id of the user to retrieve, the current user when absent
    pub id: Option<u64>,
    /// the types of associated data to include
    pub includes: Option<Vec<UserInclude>>,
}

impl GetUser {
    /// Create a builder for the endpoint.
    pub fn builder() -> (r: GetUserBuilder)
        ensures
            r.id is None,
            r.includes is None,
    {
        GetUserBuilder { id: None, includes: None }
    }
}

impl GetUserBuilder {
    /// Sets `id`: the id of the user to retrieve, the current user when absent
    pub fn id(self, value: u64) -> (r: GetUserBuilder)
        ensures
            r.id == Some(value),
            r.includes == self.includes,
    {
        GetUserBuilder { id: Some(value), includes: self.includes }
    }

    /// Sets `includes`: the types of associated data to include
    pub fn includes(self, value: Vec<UserInclude>) -> (r: GetUserBuilder)
        ensures
            r.includes == Some(value),
            r.id == self.id,
    {
        GetUserBuilder { id: self.id, includes: Some(value) }
    }

    /// The first required field that has not been set, if any.
    pub open spec fn missing_field(&self) -> Option<Seq<char>> {
        None
    }

    /// Builds the endpoint; fails on the first required field that has not been set.
    pub fn build(self) -> (r: Result<GetUser, BuilderError>)
        ensures
            match r {
                Ok(x) => self.missing_field() is None && x == (GetUser { id: self.id, includes: self.includes }),
                Err(BuilderError::UninitializedField(n)) => self.missing_field() == Some(n@),
                Err(_) => false,
            },
    {
        Ok(GetUser { id: self.id, includes: self.includes })
    }
}

impl ReturnsJsonResponse for GetUser {}

impl NoPagination for GetUser {}

impl Endpoint for GetUser {
    open spec fn method_spec(&self) -> HttpMethod {
        HttpMethod::Get
    }

    open spec fn endpoint_spec(&self) -> Seq<char> {
        match self.id {
            Some(id) => "users/"@ + decimal(id as nat) + ".json"@,
            None => "users/current.json"@,
        }
    }

    open spec fn parameters_spec(&self) -> Seq<(Seq<char>, Seq<char>)> {
        let p = Seq::<(Seq<char>, Seq<char>)>::empty();
        let p = push_opt_spec(p, "include"@, self.includes);
        p
    }

    open spec fn body_spec(&self) -> Option<BodySpec> {
        None
    }

    fn method(&self) -> (r: HttpMethod) {
        HttpMethod::Get
    }

    fn endpoint(&self) -> (r: String) {
        match self.id {
            Some(id) => {
                let mut s = String::from_str("users/");
                push_decimal(&mut s, id);
                s.append(".json");
                assert(s@ =~= self.endpoint_spec());
                s
            },
            None => String::from_str("users/current.json"),
        }
    }

    fn check_writable(&self) -> (r: bool) {
        true
    }

    fn parameters(&self) -> (r: QueryParams) {
        let mut p = QueryParams::new();
        p.push_opt("include", &self.includes);
        p
    }

    fn body(&self) -> (r: Result<Option<RequestBody>, Error>) {
        Ok(None)
    }
}

/// The endpoint to create a Redmine user
#[derive(Debug, Clone)]
pub struct CreateUser {
    /// The login for the user
    pub login: String,
    /// The user password
    pub password: Option<String>,
    /// The first name of the user
    pub firstname: String,
    /// The last name of the user
    pub lastname: String,
    /// The email address of the user
    pub mail: String,
    /// the authentication source id
    pub auth_source_id: Option<u64>,
    /// the mail notification setting of the user
    pub mail_notification: Option<MailNotificationOptions>,
    /// Forces the user to change their password on first login
    pub must_change_passwd: Option<bool>,
    /// Generate a random password
    pub generate_password: Option<bool>,
    /// Send the account information to the user
    pub send_information: Option<bool>,
    /// Make the user a Redmine administrator
    pub admin: Option<bool>,
}

/// Builder for [`CreateUser`].
#[derive(Debug, Clone)]
pub struct CreateUserBuilder {
    /// The login for the user
    pub login: Option<String>,
    /// The user password
    pub password: Option<String>,
    /// The first name of the user
    pub firstname: Option<String>,
    /// The last name of the user
    pub lastname: Option<String>,
    /// The email address of the user
    pub mail: Option<String>,
    /// the authentication source id
    pub auth_source_id: Option<u64>,
    /// the mail notification setting of the user
    pub mail_notification: Option<MailNotificationOptions>,
    /// Forces the user to change their password on first login
    pub must_change_passwd: Option<bool>,
    /// Generate a random password
    pub generate_password: Option<bool>,
    /// Send the account information to the user
    pub send_information: Option<bool>,
    /// Make the user a Redmine administrator
    pub admin: Option<bool>,
}

impl CreateUser {
    /// Create a builder for the endpoint.
    pub fn builder() -> (r: CreateUserBuilder)
        ensures
            r.login is None,
            r.password is None,
            r.firstname is None,
            r.lastname is None,
            r.mail is None,
            r.auth_source_id is None,
            r.mail_notification is None,
            r.must_change_passwd is None,
            r.generate_password is None,
            r.send_information is None,
            r.admin is None,
    {
        CreateUserBuilder { login: None, password: None, firstname: None, lastname: None, mail: None, auth_source_id: None, mail_notification: None, must_change_passwd: None, generate_password: None, send_information: None, admin: None }
    }
}

impl CreateUserBuilder {
    /// Sets `login`: the login for the user
    pub fn login(self, value: &str) -> (r: CreateUserBuilder)
        ensures
            r.login matches Some(s) && s@ == value@,
            r.password == self.password,
            r.firstname == self.firstname,
            r.lastname == self.lastname,
            r.mail == self.mail,
            r.auth_source_id == self.auth_source_id,
            r.mail_notification == self.mail_notification,
            r.must_change_passwd == self.must_change_passwd,
            r.generate_password == self.generate_password,
            r.send_information == self.send_information,
            r.admin == self.admin,
    {
        CreateUserBuilder { login: Some(String::from_str(value)), password: self.password, firstname: self.firstname, lastname: self.lastname, mail: self.mail, auth_source_id: self.auth_source_id, mail_notification: self.mail_notification, must_change_passwd: self.must_change_passwd, generate_password: self.generate_password, send_information: self.send_information, admin: self.admin }
    }

    /// Sets `password`: the user password
    pub fn password(self, value: &str) -> (r: CreateUserBuilder)
        ensures
            r.password matches Some(s) && s@ == value@,
            r.login == self.login,
            r.firstname == self.firstname,
            r.lastname == self.lastname,
            r.mail == self.mail,
            r.auth_source_id == self.auth_source_id,
            r.mail_notification == self.mail_notification,
            r.must_change_passwd == self.must_change_passwd,
            r.generate_password == self.generate_password,
            r.send_information == self.send_information,
            r.admin == self.admin,
    {
        CreateUserBuilder { login: self.login, password: Some(String::from_str(value)), firstname: self.firstname, lastname: self.lastname, mail: self.mail, auth_source_id: self.auth_source_id, mail_notification: self.mail_notification, must_change_passwd: self.must_change_passwd, generate_password: self.generate_password, send_information: self.send_information, admin: self.admin }
    }

    /// Sets `firstname`: the first name of the user
    pub fn firstname(self, value: &str) -> (r: CreateUserBuilder)
        ensures
            r.firstname matches Some(s) && s@ == value@,
            r.login == self.login,
            r.password == self.password,
            r.lastname == self.lastname,
            r.mail == self.mail,
            r.auth_source_id == self.auth_source_id,
            r.mail_notification == self.mail_notification,
            r.must_change_passwd == self.must_change_passwd,
            r.generate_password == self.generate_password,
            r.send_information == self.send_information,
            r.admin == self.admin,
    {
        CreateUserBuilder { login: self.login, password: self.password, firstname: Some(String::from_str(value)), lastname: self.lastname, mail: self.mail, auth_source_id: self.auth_source_id, mail_notification: self.mail_notification, must_change_passwd: self.must_change_passwd, generate_password: self.generate_password, send_information: self.send_information, admin: self.admin }
    }

    /// Sets `lastname`: the last name of the user
    pub fn lastname(self, value: &str) -> (r: CreateUserBuilder)
        ensures
            r.lastname matches Some(s) && s@ == value@,
            r.login == self.login,
            r.password == self.password,
            r.firstname == self.firstname,
            r.mail == self.mail,
            r.auth_source_id == self.auth_source_id,
            r.mail_notification == self.mail_notification,
            r.must_change_passwd == self.must_change_passwd,
            r.generate_password == self.generate_password,
            r.send_information == self.send_information,
            r.admin == self.admin,
    {
        CreateUserBuilder { login: self.login, password: self.password, firstname: self.firstname, lastname: Some(String::from_str(value)), mail: self.mail, auth_source_id: self.auth_source_id, mail_notification: self.mail_notification, must_change_passwd: self.must_change_passwd, generate_password: self.generate_password, send_information: self.send_information, admin: self.admin }
    }

    /// Sets `mail`: the email address of the user
    pub fn mail(self, value: &str) -> (r: CreateUserBuilder)
        ensures
            r.mail matches Some(s) && s@ == value@,
            r.login == self.login,
            r.password == self.password,
            r.firstname == self.firstname,
            r.lastname == self.lastname,
            r.auth_source_id == self.auth_source_id,
            r.mail_notification == self.mail_notification,
            r.must_change_passwd == self.must_change_passwd,
            r.generate_password == self.generate_password,
            r.send_information == self.send_information,
            r.admin == self.admin,
    {
        CreateUserBuilder { login: self.login, password: self.password, firstname: self.firstname, lastname: self.lastname, mail: Some(String::from_str(value)), auth_source_id: self.auth_source_id, mail_notification: self.mail_notification, must_change_passwd: self.must_change_passwd, generate_password: self.generate_password, send_information: self.send_information, admin: self.admin }
    }

    /// Sets `auth_source_id`: the authentication source id
    pub fn auth_source_id(self, value: u64) -> (r: CreateUserBuilder)
        ensures
            r.auth_source_id == Some(value),
            r.login == self.login,
            r.password == self.password,
            r.firstname == self.firstname,
            r.lastname == self.lastname,
            r.mail == self.mail,
            r.mail_notification == self.mail_notification,
            r.must_change_passwd == self.must_change_passwd,
            r.generate_password == self.generate_password,
            r.send_information == self.send_information,
            r.admin == self.admin,
    {
        CreateUserBuilder { login: self.login, password: self.password, firstname: self.firstname, lastname: self.lastname, mail: self.mail, auth_source_id: Some(value), mail_notification: self.mail_notification, must_change_passwd: self.must_change_passwd, generate_password: self.generate_password, send_information: self.send_information, admin: self.admin }
    }

    /// Sets `mail_notification`: the mail notification setting of the user
    pub fn mail_notification(self, value: MailNotificationOptions) -> (r: CreateUserBuilder)
        ensures
            r.mail_notification == Some(value),
            r.login == self.login,
            r.password == self.password,
            r.firstname == self.firstname,
            r.lastname == self.lastname,
            r.mail == self.mail,
            r.auth_source_id == self.auth_source_id,
            r.must_change_passwd == self.must_change_passwd,
            r.generate_password == self.generate_password,
            r.send_information == self.send_information,
            r.admin == self.admin,
    {
        CreateUserBuilder { login: self.login, password: self.password, firstname: self.firstname, lastname: self.lastname, mail: self.mail, auth_source_id: self.auth_source_id, mail_notification: Some(value), must_change_passwd: self.must_change_passwd, generate_password: self.generate_password, send_information: self.send_information, admin: self.admin }
    }

    /// Sets `must_change_passwd`: forces the user to change their password on first login
    pub fn must_change_passwd(self, value: bool) -> (r: CreateUserBuilder)
        ensures
            r.must_change_passwd == Some(value),
            r.login == self.login,
            r.password == self.password,
            r.firstname == self.firstname,
            r.lastname == self.lastname,
            r.mail == self.mail,
            r.auth_source_id == self.auth_source_id,
            r.mail_notification == self.mail_notification,
            r.generate_password == self.generate_password,
            r.send_information == self.send_information,
            r.admin == self.admin,
    {
        CreateUserBuilder { login: self.login, password: self.password, firstname: self.firstname, lastname: self.lastname, mail: self.mail, auth_source_id: self.auth_source_id, mail_notification: self.mail_notification, must_change_passwd: Some(value), generate_password: self.generate_password, send_information: self.send_information, admin: self.admin }
    }

    /// Sets `generate_password`: generate a random password
    pub fn generate_password(self, value: bool) -> (r: CreateUserBuilder)
        ensures
            r.generate_password == Some(value),
            r.login == self.login,
            r.password == self.password,
            r.firstname == self.firstname,
            r.lastname == self.lastname,
            r.mail == self.mail,
            r.auth_source_id == self.auth_source_id,
            r.mail_notification == self.mail_notification,
            r.must_change_passwd == self.must_change_passwd,
            r.send_information == self.send_information,
            r.admin == self.admin,
    {
        CreateUserBuilder { login: self.login, password: self.password, firstname: self.firstname, lastname: self.lastname, mail: self.mail, auth_source_id: self.auth_source_id, mail_notification: self.mail_notification, must_change_passwd: self.must_change_passwd, generate_password: Some(value), send_information: self.send_information, admin: self.admin }
    }

    /// Sets `send_information`: send the account information to the user
    pub fn send_information(self, value: bool) -> (r: CreateUserBuilder)
        ensures
            r.send_information == Some(value),
            r.login == self.login,
            r.password == self.password,
            r.firstname == self.firstname,
            r.lastname == self.lastname,
            r.mail == self.mail,
            r.auth_source_id == self.auth_source_id,
            r.mail_notification == self.mail_notification,
            r.must_change_passwd == self.must_change_passwd,
            r.generate_password == self.generate_password,
            r.admin == self.admin,
    {
        CreateUserBuilder { login: self.login, password: self.password, firstname: self.firstname, lastname: self.lastname, mail: self.mail, auth_source_id: self.auth_source_id, mail_notification: self.mail_notification, must_change_passwd: self.must_change_passwd, generate_password: self.generate_password, send_information: Some(value), admin: self.admin }
    }

    /// Sets `admin`: make the user a Redmine administrator
    pub fn admin(self, value: bool) -> (r: CreateUserBuilder)
        ensures
            r.admin == Some(value),
            r.login == self.login,
            r.password == self.password,
            r.firstname == self.firstname,
            r.lastname == self.lastname,
            r.mail == self.mail,
            r.auth_source_id == self.auth_source_id,
            r.mail_notification == self.mail_notification,
            r.must_change_passwd == self.must_change_passwd,
            r.generate_password == self.generate_password,
            r.send_information == self.send_information,
    {
        CreateUserBuilder { login: self.login, password: self.password, firstname: self.firstname, lastname: self.lastname, mail: self.mail, auth_source_id: self.auth_source_id, mail_notification: self.mail_notification, must_change_passwd: self.must_change_passwd, generate_password: self.generate_password, send_information: self.send_information, admin: Some(value) }
    }

    /// The first required field that has not been set, if any.
    pub open spec fn missing_field(&self) -> Option<Seq<char>> {
        if self.login is None {
            Some("login"@)
        } else if self.firstname is None {
            Some("firstname"@)
        } else if self.lastname is None {
            Some("lastname"@)
        } else if self.mail is None {
            Some("mail"@)
        } else {
            None
        }
    }

    /// Builds the endpoint; fails on the first required field that has not been set.
    pub fn build(self) -> (r: Result<CreateUser, BuilderError>)
        ensures
            match r {
                Ok(x) => self.missing_field() is None && x == (CreateUser { login: self.login->0, password: self.password, firstname: self.firstname->0, lastname: self.lastname->0, mail: self.mail->0, auth_source_id: self.auth_source_id, mail_notification: self.mail_notification, must_change_passwd: self.must_change_passwd, generate_password: self.generate_password, send_information: self.send_information, admin: self.admin }),
                Err(BuilderError::UninitializedField(n)) => self.missing_field() == Some(n@),
                Err(_) => false,
            },
    {
        let login = match self.login {
            Some(v) => v,
            None => {
                return Err(BuilderError::UninitializedField("login"));
            },
        };
        let firstname = match self.firstname {
            Some(v) => v,
            None => {
                return Err(BuilderError::UninitializedField("firstname"));
            },
        };
        let lastname = match self.lastname {
            Some(v) => v,
            None => {
                return Err(BuilderError::UninitializedField("lastname"));
            },
        };
        let mail = match self.mail {
            Some(v) => v,
            None => {
                return Err(BuilderError::UninitializedField("mail"));
            },
        };
        Ok(CreateUser { login, password: self.password, firstname, lastname, mail, auth_source_id: self.auth_source_id, mail_notification: self.mail_notification, must_change_passwd: self.must_change_passwd, generate_password: self.generate_password, send_information: self.send_information, admin: self.admin })
    }
}

impl ReturnsJsonResponse for CreateUser {}

impl NoPagination for CreateUser {}

impl Endpoint for CreateUser {
    open spec fn method_spec(&self) -> HttpMethod {
        HttpMethod::Post
    }

    open spec fn endpoint_spec(&self) -> Seq<char> {
        "users.json"@
    }

    open spec fn parameters_spec(&self) -> Seq<(Seq<char>, Seq<char>)> {
        Seq::empty()
    }

    open spec fn body_spec(&self) -> Option<BodySpec> {
        let inner = {
            let m = Seq::<(Seq<char>, JsonView)>::empty();
            let m = m.push(("login"@, self.login.json()));
            let m = member_opt(m, "password"@, self.password);
            let m = m.push(("firstname"@, self.firstname.json()));
            let m = m.push(("lastname"@, self.lastname.json()));
            let m = m.push(("mail"@, self.mail.json()));
            let m = member_opt(m, "auth_source_id"@, self.auth_source_id);
            let m = member_opt(m, "mail_notification"@, self.mail_notification);
            let m = member_opt(m, "must_change_passwd"@, self.must_change_passwd);
            let m = member_opt(m, "generate_password"@, self.generate_password);
            let m = member_opt(m, "admin"@, self.admin);
            m
        };
        let outer = seq![("user"@, JsonView::Object(inner))];
        Some(BodySpec::Json(JsonView::Object(member_opt(outer, "send_information"@, self.send_information))))
    }

    fn method(&self) -> (r: HttpMethod) {
        HttpMethod::Post
    }

    fn endpoint(&self) -> (r: String) {
        String::from_str("users.json")
    }

    fn check_writable(&self) -> (r: bool) {
        true
    }

    fn parameters(&self) -> (r: QueryParams) {
        let mut p = QueryParams::new();
        p
    }

    fn body(&self) -> (r: Result<Option<RequestBody>, Error>) {
        let mut b = ObjectBuilder::new();
        b.insert_value("login", &self.login);
        b.insert_opt("password", &self.password);
        b.insert_value("firstname", &self.firstname);
        b.insert_value("lastname", &self.lastname);
        b.insert_value("mail", &self.mail);
        b.insert_opt("auth_source_id", &self.auth_source_id);
        b.insert_opt("mail_notification", &self.mail_notification);
        b.insert_opt("must_change_passwd", &self.must_change_passwd);
        b.insert_opt("generate_password", &self.generate_password);
        b.insert_opt("admin", &self.admin);
        let mut o = ObjectBuilder::new();
        o.insert("user", b.build());
        o.insert_opt("send_information", &self.send_information);
        let doc = o.build();
        json_body(&doc)
    }
}

/// The endpoint to update an existing Redmine user
#[derive(Debug, Clone)]
pub struct UpdateUser {
    /// the id of the user to update
    pub id: u64,
    /// The login for the user
    pub login: String,
    /// The user password
    pub password: Option<String>,
    /// The first name of the user
    pub firstname: Option<String>,
    /// The last name of the user
    pub lastname: Option<String>,
    /// The email address of the user
    pub mail: Option<String>,
    /// the authentication source id
    pub auth_source_id: Option<u64>,
    /// the mail notification setting of the user
    pub mail_notification: Option<MailNotificationOptions>,
    /// Forces the user to change their password on first login
    pub must_change_passwd: Option<bool>,
    /// Generate a random password
    pub generate_password: Option<bool>,
    /// Send the account information to the user
    pub send_information: Option<bool>,
    /// Make the user a Redmine administrator
    pub admin: Option<bool>,
}

/// Builder for [`UpdateUser`].
#[derive(Debug, Clone)]
pub struct UpdateUserBuilder {
    /// the id of the user to update
    pub id: Option<u64>,
    /// The login for the user
    pub login: Option<String>,
    /// The user password
    pub password: Option<String>,
    /// The first name of the user
    pub firstname: Option<String>,
    /// The last name of the user
    pub lastname: Option<String>,
    /// The email address of the user
    pub mail: Option<String>,
    /// the authentication source id
    pub auth_source_id: Option<u64>,
    /// the mail notification setting of the user
    pub mail_notification: Option<MailNotificationOptions>,
    /// Forces the user to change their password on first login
    pub must_change_passwd: Option<bool>,
    /// Generate a random password
    pub generate_password: Option<bool>,
    /// Send the account information to the user
    pub send_information: Option<bool>,
    /// Make the user a Redmine administrator
    pub admin: Option<bool>,
}

impl UpdateUser {
    /// Create a builder for the endpoint.
    pub fn builder() -> (r: UpdateUserBuilder)
        ensures
            r.id is None,
            r.login is None,
            r.password is None,
            r.firstname is None,
            r.lastname is None,
            r.mail is None,
            r.auth_source_id is None,
            r.mail_notification is None,
            r.must_change_passwd is None,
            r.generate_password is None,
            r.send_information is None,
            r.admin is None,
    {
        UpdateUserBuilder { id: None, login: None, password: None, firstname: None, lastname: None, mail: None, auth_source_id: None, mail_notification: None, must_change_passwd: None, generate_password: None, send_information: None, admin: None }
    }
}

impl UpdateUserBuilder {
    /// Sets `id`: the id of the user to update
    pub fn id(self, value: u64) -> (r: UpdateUserBuilder)
        ensures
            r.id == Some(value),
            r.login == self.login,
            r.password == self.password,
            r.firstname == self.firstname,
            r.lastname == self.lastname,
            r.mail == self.mail,
            r.auth_source_id == self.auth_source_id,
            r.mail_notification == self.mail_notification,
            r.must_change_passwd == self.must_change_passwd,
            r.generate_password == self.generate_password,
            r.send_information == self.send_information,
            r.admin == self.admin,
    {
        UpdateUserBuilder { id: Some(value), login: self.login, password: self.password, firstname: self.firstname, lastname: self.lastname, mail: self.mail, auth_source_id: self.auth_source_id, mail_notification: self.mail_notification, must_change_passwd: self.must_change_passwd, generate_password: self.generate_password, send_information: self.send_information, admin: self.admin }
    }

    /// Sets `login`: the login for the user
    pub fn login(self, value: &str) -> (r: UpdateUserBuilder)
        ensures
            r.login matches Some(s) && s@ == value@,
            r.id == self.id,
            r.password == self.password,
            r.firstname == self.firstname,
            r.lastname == self.lastname,
            r.mail == self.mail,
            r.auth_source_id == self.auth_source_id,
            r.mail_notification == self.mail_notification,
            r.must_change_passwd == self.must_change_passwd,
            r.generate_password == self.generate_password,
            r.send_information == self.send_information,
            r.admin == self.admin,
    {
        UpdateUserBuilder { id: self.id, login: Some(String::from_str(value)), password: self.password, firstname: self.firstname, lastname: self.lastname, mail: self.mail, auth_source_id: self.auth_source_id, mail_notification: self.mail_notification, must_change_passwd: self.must_change_passwd, generate_password: self.generate_password, send_information: self.send_information, admin: self.admin }
    }

    /// Sets `password`: the user password
    pub fn password(self, value: &str) -> (r: UpdateUserBuilder)
        ensures
            r.password matches Some(s) && s@ == value@,
            r.id == self.id,
            r.login == self.login,
            r.firstname == self.firstname,
            r.lastname == self.lastname,
            r.mail == self.mail,
            r.auth_source_id == self.auth_source_id,
            r.mail_notification == self.mail_notification,
            r.must_change_passwd == self.must_change_passwd,
            r.generate_password == self.generate_password,
            r.send_information == self.send_information,
            r.admin == self.admin,
    {
        UpdateUserBuilder { id: self.id, login: self.login, password: Some(String::from_str(value)), firstname: self.firstname, lastname: self.lastname, mail: self.mail, auth_source_id: self.auth_source_id, mail_notification: self.mail_notification, must_change_passwd: self.must_change_passwd, generate_password: self.generate_password, send_information: self.send_information, admin: self.admin }
    }

    /// Sets `firstname`: the first name of the user
    pub fn firstname(self, value: &str) -> (r: UpdateUserBuilder)
        ensures
            r.firstname matches Some(s) && s@ == value@,
            r.id == self.id,
            r.login == self.login,
            r.password == self.password,
            r.lastname == self.lastname,
            r.mail == self.mail,
            r.auth_source_id == self.auth_source_id,
            r.mail_notification == self.mail_notification,
            r.must_change_passwd == self.must_change_passwd,
            r.generate_password == self.generate_password,
            r.send_information == self.send_information,
            r.admin == self.admin,
    {
        UpdateUserBuilder { id: self.id, login: self.login, password: self.password, firstname: Some(String::from_str(value)), lastname: self.lastname, mail: self.mail, auth_source_id: self.auth_source_id, mail_notification: self.mail_notification, must_change_passwd: self.must_change_passwd, generate_password: self.generate_password, send_information: self.send_information, admin: self.admin }
    }

    /// Sets `lastname`: the last name of the user
    pub fn lastname(self, value: &str) -> (r: UpdateUserBuilder)
        ensures
            r.lastname matches Some(s) && s@ == value@,
            r.id == self.id,
            r.login == self.login,
            r.password == self.password,
            r.firstname == self.firstname,
            r.mail == self.mail,
            r.auth_source_id == self.auth_source_id,
            r.mail_notification == self.mail_notification,
            r.must_change_passwd == self.must_change_passwd,
            r.generate_password == self.generate_password,
            r.send_information == self.send_information,
            r.admin == self.admin,
    {
        UpdateUserBuilder { id: self.id, login: self.login, password: self.password, firstname: self.firstname, lastname: Some(String::from_str(value)), mail: self.mail, auth_source_id: self.auth_source_id, mail_notification: self.mail_notification, must_change_passwd: self.must_change_passwd, generate_password: self.generate_password, send_information: self.send_information, admin: self.admin }
    }

    /// Sets `mail`: the email address of the user
    pub fn mail(self, value: &str) -> (r: UpdateUserBuilder)
        ensures
            r.mail matches Some(s) && s@ == value@,
            r.id == self.id,
            r.login == self.login,
            r.password == self.password,
            r.firstname == self.firstname,
            r.lastname == self.lastname,
            r.auth_source_id == self.auth_source_id,
            r.mail_notification == self.mail_notification,
            r.must_change_passwd == self.must_change_passwd,
            r.generate_password == self.generate_password,
            r.send_information == self.send_information,
            r.admin == self.admin,
    {
        UpdateUserBuilder { id: self.id, login: self.login, password: self.password, firstname: self.firstname, lastname: self.lastname, mail: Some(String::from_str(value)), auth_source_id: self.auth_source_id, mail_notification: self.mail_notification, must_change_passwd: self.must_change_passwd, generate_password: self.generate_password, send_information: self.send_information, admin: self.admin }
    }

    /// Sets `auth_source_id`: the authentication source id
    pub fn auth_source_id(self, value: u64) -> (r: UpdateUserBuilder)
        ensures
            r.auth_source_id == Some(value),
            r.id == self.id,
            r.login == self.login,
            r.password == self.password,
            r.firstname == self.firstname,
            r.lastname == self.lastname,
            r.mail == self.mail,
            r.mail_notification == self.mail_notification,
            r.must_change_passwd == self.must_change_passwd,
            r.generate_password == self.generate_password,
            r.send_information == self.send_information,
            r.admin == self.admin,
    {
        UpdateUserBuilder { id: self.id, login: self.login, password: self.password, firstname: self.firstname, lastname: self.lastname, mail: self.mail, auth_source_id: Some(value), mail_notification: self.mail_notification, must_change_passwd: self.must_change_passwd, generate_password: self.generate_password, send_information: self.send_information, admin: self.admin }
    }

    /// Sets `mail_notification`: the mail notification setting of the user
    pub fn mail_notification(self, value: MailNotificationOptions) -> (r: UpdateUserBuilder)
        ensures
            r.mail_notification == Some(value),
            r.id == self.id,
            r.login == self.login,
            r.password == self.password,
            r.firstname == self.firstname,
            r.lastname == self.lastname,
            r.mail == self.mail,
            r.auth_source_id == self.auth_source_id,
            r.must_change_passwd == self.must_change_passwd,
            r.generate_password == self.generate_password,
            r.send_information == self.send_information,
            r.admin == self.admin,
    {
        UpdateUserBuilder { id: self.id, login: self.login, password: self.password, firstname: self.firstname, lastname: self.lastname, mail: self.mail, auth_source_id: self.auth_source_id, mail_notification: Some(value), must_change_passwd: self.must_change_passwd, generate_password: self.generate_password, send_information: self.send_information, admin: self.admin }
    }

    /// Sets `must_change_passwd`: forces the user to change their password on first login
    pub fn must_change_passwd(self, value: bool) -> (r: UpdateUserBuilder)
        ensures
            r.must_change_passwd == Some(value),
            r.id == self.id,
            r.login == self.login,
            r.password == self.password,
            r.firstname == self.firstname,
            r.lastname == self.lastname,
            r.mail == self.mail,
            r.auth_source_id == self.auth_source_id,
            r.mail_notification == self.mail_notification,
            r.generate_password == self.generate_password,
            r.send_information == self.send_information,
            r.admin == self.admin,
    {
        UpdateUserBuilder { id: self.id, login: self.login, password: self.password, firstname: self.firstname, lastname: self.lastname, mail: self.mail, auth_source_id: self.auth_source_id, mail_notification: self.mail_notification, must_change_passwd: Some(value), generate_password: self.generate_password, send_information: self.send_information, admin: self.admin }
    }

    /// Sets `generate_password`: generate a random password
    pub fn generate_password(self, value: bool) -> (r: UpdateUserBuilder)
        ensures
            r.generate_password == Some(value),
            r.id == self.id,
            r.login == self.login,
            r.password == self.password,
            r.firstname == self.firstname,
            r.lastname == self.lastname,
            r.mail == self.mail,
            r.auth_source_id == self.auth_source_id,
            r.mail_notification == self.mail_notification,
            r.must_change_passwd == self.must_change_passwd,
            r.send_information == self.send_information,
            r.admin == self.admin,
    {
        UpdateUserBuilder { id: self.id, login: self.login, password: self.password, firstname: self.firstname, lastname: self.lastname, mail: self.mail, auth_source_id: self.auth_source_id, mail_notification: self.mail_notification, must_change_passwd: self.must_change_passwd, generate_password: Some(value), send_information: self.send_information, admin: self.admin }
    }

    /// Sets `send_information`: send the account information to the user
    pub fn send_information(self, value: bool) -> (r: UpdateUserBuilder)
        ensures
            r.send_information == Some(value),
            r.id == self.id,
            r.login == self.login,
            r.password == self.password,
            r.firstname == self.firstname,
            r.lastname == self.lastname,
            r.mail == self.mail,
            r.auth_source_id == self.auth_source_id,
            r.mail_notification == self.mail_notification,
            r.must_change_passwd == self.must_change_passwd,
            r.generate_password == self.generate_password,
            r.admin == self.admin,
    {
        UpdateUserBuilder { id: self.id, login: self.login, password: self.password, firstname: self.firstname, lastname: self.lastname, mail: self.mail, auth_source_id: self.auth_source_id, mail_notification: self.mail_notification, must_change_passwd: self.must_change_passwd, generate_password: self.generate_password, send_information: Some(value), admin: self.admin }
    }

    /// Sets `admin`: make the user a Redmine administrator
    pub fn admin(self, value: bool) -> (r: UpdateUserBuilder)
        ensures
            r.admin == Some(value),
            r.id == self.id,
            r.login == self.login,
            r.password == self.password,
            r.firstname == self.firstname,
            r.lastname == self.lastname,
            r.mail == self.mail,
            r.auth_source_id == self.auth_source_id,
            r.mail_notification == self.mail_notification,
            r.must_change_passwd == self.must_change_passwd,
            r.generate_password == self.generate_password,
            r.send_information == self.send_information,
    {
        UpdateUserBuilder { id: self.id, login: self.login, password: self.password, firstname: self.firstname, lastname: self.lastname, mail: self.mail, auth_source_id: self.auth_source_id, mail_notification: self.mail_notification, must_change_passwd: self.must_change_passwd, generate_password: self.generate_password, send_information: self.send_information, admin: Some(value) }
    }

    /// The first required field that has not been set, if any.
    pub open spec fn missing_field(&self) -> Option<Seq<char>> {
        if self.id is None {
            Some("id"@)
        } else if self.login is None {
            Some("login"@)
        } else {
            None
        }
    }

    /// Builds the endpoint; fails on the first required field that has not been set.
    pub fn build(self) -> (r: Result<UpdateUser, BuilderError>)
        ensures
            match r {
                Ok(x) => self.missing_field() is None && x == (UpdateUser { id: self.id->0, login: self.login->0, password: self.password, firstname: self.firstname, lastname: self.lastname, mail: self.mail, auth_source_id: self.auth_source_id, mail_notification: self.mail_notification, must_change_passwd: self.must_change_passwd, generate_password: self.generate_password, send_information: self.send_information, admin: self.admin }),
                Err(BuilderError::UninitializedField(n)) => self.missing_field() == Some(n@),
                Err(_) => false,
            },
    {
        let id = match self.id {
            Some(v) => v,
            None => {
                return Err(BuilderError::UninitializedField("id"));
            },
        };
        let login = match self.login {
            Some(v) => v,
            None => {
                return Err(BuilderError::UninitializedField("login"));
            },
        };
        Ok(UpdateUser { id, login, password: self.password, firstname: self.firstname, lastname: self.lastname, mail: self.mail, auth_source_id: self.auth_source_id, mail_notification: self.mail_notification, must_change_passwd: self.must_change_passwd, generate_password: self.generate_password, send_information: self.send_information, admin: self.admin })
    }
}

impl Endpoint for UpdateUser {
    open spec fn method_spec(&self) -> HttpMethod {
        HttpMethod::Put
    }

    open spec fn endpoint_spec(&self) -> Seq<char> {
        "users/"@ + decimal(self.id as nat) + ".json"@
    }

    open spec fn parameters_spec(&self) -> Seq<(Seq<char>, Seq<char>)> {
        Seq::empty()
    }

    open spec fn body_spec(&self) -> Option<BodySpec> {
        let inner = {
            let m = Seq::<(Seq<char>, JsonView)>::empty();
            let m = m.push(("login"@, self.login.json()));
            let m = member_opt(m, "password"@, self.password);
            let m = member_opt(m, "firstname"@, self.firstname);
            let m = member_opt(m, "lastname"@, self.lastname);
            let m = member_opt(m, "mail"@, self.mail);
            let m = member_opt(m, "auth_source_id"@, self.auth_source_id);
            let m = member_opt(m, "mail_notification"@, self.mail_notification);
            let m = member_opt(m, "must_change_passwd"@, self.must_change_passwd);
            let m = member_opt(m, "generate_password"@, self.generate_password);
            let m = member_opt(m, "admin"@, self.admin);
            m
        };
        let outer = seq![("user"@, JsonView::Object(inner))];
        Some(BodySpec::Json(JsonView::Object(member_opt(outer, "send_information"@, self.send_information))))
    }

    fn method(&self) -> (r: HttpMethod) {
        HttpMethod::Put
    }

    fn endpoint(&self) -> (r: String) {
        let mut s = String::new();
        s.append("users/");
        push_decimal(&mut s, self.id);
        s.append(".json");
        assert(s@ =~= self.endpoint_spec());
        s
    }

    fn check_writable(&self) -> (r: bool) {
        true
    }

    fn parameters(&self) -> (r: QueryParams) {
        let mut p = QueryParams::new();
        p
    }

    fn body(&self) -> (r: Result<Option<RequestBody>, Error>) {
        let mut b = ObjectBuilder::new();
        b.insert_value("login", &self.login);
        b.insert_opt("password", &self.password);
        b.insert_opt("firstname", &self.firstname);
        b.insert_opt("lastname", &self.lastname);
        b.insert_opt("mail", &self.mail);
        b.insert_opt("auth_source_id", &self.auth_source_id);
        b.insert_opt("mail_notification", &self.mail_notification);
        b.insert_opt("must_change_passwd", &self.must_change_passwd);
        b.insert_opt("generate_password", &self.generate_password);
        b.insert_opt("admin", &self.admin);
        let mut o = ObjectBuilder::new();
        o.insert("user", b.build());
        o.insert_opt("send_information", &self.send_information);
        let doc = o.build();
        json_body(&doc)
    }
}

/// The endpoint to delete a Redmine user
#[derive(Debug, Clone)]
pub struct DeleteUser {
    /// The id of the user to delete
    pub id: u64,
}

/// Builder for [`DeleteUser`].
#[derive(Debug, Clone)]
pub struct DeleteUserBuilder {
    /// The id of the user to delete
    pub id: Option<u64>,
}

impl DeleteUser {
    /// Create a builder for the endpoint.
    pub fn builder() -> (r: DeleteUserBuilder)
        ensures
            r.id is None,
    {
        DeleteUserBuilder { id: None }
    }
}

impl DeleteUserBuilder {
    /// Sets `id`: the id of the user to delete
    pub fn id(self, value: u64) -> (r: DeleteUserBuilder)
        ensures
            r.id == Some(value),
    {
        DeleteUserBuilder { id: Some(value) }
    }

    /// The first required field that has not been set, if any.
    pub open spec fn missing_field(&self) -> Option<Seq<char>> {
        if self.id is None {
            Some("id"@)
        } else {
            None
        }
    }

    /// Builds the endpoint; fails on the first required field that has not been set.
    pub fn build(self) -> (r: Result<DeleteUser, BuilderError>)
        ensures
            match r {
                Ok(x) => self.missing_field() is None && x == (DeleteUser { id: self.id->0 }),
                Err(BuilderError::UninitializedField(n)) => self.missing_field() == Some(n@),
                Err(_) => false,
            },
    {
        let id = match self.id {
            Some(v) => v,
            None => {
                return Err(BuilderError::UninitializedField("id"));
            },
        };
        Ok(DeleteUser { id })
    }
}

impl Endpoint for DeleteUser {
    open spec fn method_spec(&self) -> HttpMethod {
        HttpMethod::Delete
    }

    open spec fn endpoint_spec(&self) -> Seq<char> {
        "users/"@ + decimal(self.id as nat) + ".json"@
    }

    open spec fn parameters_spec(&self) -> Seq<(Seq<char>, Seq<char>)> {
        Seq::empty()
    }

    open spec fn body_spec(&self) -> Option<BodySpec> {
        None
    }

    fn method(&self) -> (r: HttpMethod) {
        HttpMethod::Delete
    }

    fn endpoint(&self) -> (r: String) {
        let mut s = String::new();
        s.append("users/");
        push_decimal(&mut s, self.id);
        s.append(".json");
        assert(s@ =~= self.endpoint_spec());
        s
    }

    fn check_writable(&self) -> (r: bool) {
        true
    }

    fn parameters(&self) -> (r: QueryParams) {
        let mut p = QueryParams::new();
        p
    }

    fn body(&self) -> (r: Result<Option<RequestBody>, Error>) {
        Ok(None)
    }
}

/// The query of [`ListUsers`] sends each parameter that is set under its Redmine
/// name, with the value's text, and nothing else.
pub proof fn lemma_list_users_parameter_names(x: ListUsers)
    ensures
        x.status matches Some(v) ==> x.parameters_spec().contains(("status"@, v.param_text())),
        x.name matches Some(v) ==> x.parameters_spec().contains(("name"@, v.param_text())),
        x.group_id matches Some(v) ==> x.parameters_spec().contains(("group_id"@, v.param_text())),
        x.parameters_spec().len() == present(x.status) + present(x.name) + present(x.group_id),
{
    broadcast use crate::api::query::lemma_push_opt_contains, crate::api::query::lemma_push_opt_len;
}

/// The query of [`GetUser`] sends each parameter that is set under its Redmine
/// name, with the value's text, and nothing else.
pub proof fn lemma_get_user_parameter_names(x: GetUser)
    ensures
        x.includes matches Some(v) ==> x.parameters_spec().contains(("include"@, v.param_text())),
        x.parameters_spec().len() == present(x.includes),
{
    broadcast use crate::api::query::lemma_push_opt_contains, crate::api::query::lemma_push_opt_len;
}

/// The path of [`GetUser`] names the user by the decimal of its id, and is
/// `users/current.json` exactly when no id is given; two requests share a
/// path only when they ask for the same user.
pub proof fn lemma_get_user_path(x: GetUser, y: GetUser)
    ensures
        x.id matches Some(n) ==> x.endpoint_spec() == "users/"@ + decimal(n as nat) + ".json"@,
        x.endpoint_spec() == "users/current.json"@ <==> x.id is None,
        x.endpoint_spec() == y.endpoint_spec() <==> x.id == y.id,
{
    reveal_strlit("users/");
    reveal_strlit("users/current.json");
    if let Some(n) = x.id {
        lemma_decimal_digits(n as nat);
        let t = "users/"@ + decimal(n as nat) + ".json"@;
        assert(t[6] == decimal(n as nat)[0]);
        assert("users/current.json"@[6] == 'c');
    }
    if let (Some(a), Some(b)) = (x.id, y.id) {
        lemma_id_path_injective("users/"@, ".json"@, a as nat, b as nat);
    }
    if let Some(n) = y.id {
        lemma_decimal_digits(n as nat);
        let t = "users/"@ + decimal(n as nat) + ".json"@;
        assert(t[6] == decimal(n as nat)[0]);
    }
}

/// The path of [`UpdateUser`] names the object by the decimal of its id, and two
/// requests share a path only when they name the same id.
pub proof fn lemma_update_user_path(x: UpdateUser, y: UpdateUser)
    ensures
        x.endpoint_spec() == "users/"@ + decimal(x.id as nat) + ".json"@,
        x.endpoint_spec() == y.endpoint_spec() <==> x.id == y.id,
{
    lemma_id_path_injective("users/"@, ".json"@, x.id as nat, y.id as nat);
}

/// The path of [`DeleteUser`] names the object by the decimal of its id, and two
/// requests share a path only when they name the same id.
pub proof fn lemma_delete_user_path(x: DeleteUser, y: DeleteUser)
    ensures
        x.endpoint_spec() == "users/"@ + decimal(x.id as nat) + ".json"@,
        x.endpoint_spec() == y.endpoint_spec() <==> x.id == y.id,
{
    lemma_id_path_injective("users/"@, ".json"@, x.id as nat, y.id as nat);
}

/// The body of [`CreateUser`] holds, under `user` (and `send_information` beside it when set), each attribute that is set
/// under its Redmine name, with the attribute's document as the value, and
/// nothing else.
pub proof fn lemma_create_user_body_members(x: CreateUser)
    ensures
        x.send_information matches Some(v) ==> object_members(x.body_spec()).contains(("send_information"@, v.json())),
        object_members(x.body_spec()).len() == 1 + present(x.send_information),
        wrapped_members(x.body_spec()).contains(("login"@, x.login.json())),
        x.password matches Some(v) ==> wrapped_members(x.body_spec()).contains(("password"@, v.json())),
        wrapped_members(x.body_spec()).contains(("firstname"@, x.firstname.json())),
        wrapped_members(x.body_spec()).contains(("lastname"@, x.lastname.json())),
        wrapped_members(x.body_spec()).contains(("mail"@, x.mail.json())),
        x.auth_source_id matches Some(v) ==> wrapped_members(x.body_spec()).contains(("auth_source_id"@, v.json())),
        x.mail_notification matches Some(v) ==> wrapped_members(x.body_spec()).contains(("mail_notification"@, v.json())),
        x.must_change_passwd matches Some(v) ==> wrapped_members(x.body_spec()).contains(("must_change_passwd"@, v.json())),
        x.generate_password matches Some(v) ==> wrapped_members(x.body_spec()).contains(("generate_password"@, v.json())),
        x.admin matches Some(v) ==> wrapped_members(x.body_spec()).contains(("admin"@, v.json())),
        wrapped_members(x.body_spec()).len() == 4 + present(x.password) + present(x.auth_source_id) + present(x.mail_notification) + present(x.must_change_passwd) + present(x.generate_password) + present(x.admin),
{
    broadcast use crate::api::json::lemma_member_opt_contains, crate::api::json::lemma_member_opt_len,
        crate::api::json::lemma_member_nullable_contains, crate::api::json::lemma_member_nullable_len,
        crate::api::json::lemma_push_member_contains;
}

/// The body of [`UpdateUser`] holds, under `user` (and `send_information` beside it when set), each attribute that is set
/// under its Redmine name, with the attribute's document as the value, and
/// nothing else.
pub proof fn lemma_update_user_body_members(x: UpdateUser)
    ensures
        x.send_information matches Some(v) ==> object_members(x.body_spec()).contains(("send_information"@, v.json())),
        object_members(x.body_spec()).len() == 1 + present(x.send_information),
        wrapped_members(x.body_spec()).contains(("login"@, x.login.json())),
        x.password matches Some(v) ==> wrapped_members(x.body_spec()).contains(("password"@, v.json())),
        x.firstname matches Some(v) ==> wrapped_members(x.body_spec()).contains(("firstname"@, v.json())),
        x.lastname matches Some(v) ==> wrapped_members(x.body_spec()).contains(("lastname"@, v.json())),
        x.mail matches Some(v) ==> wrapped_members(x.body_spec()).contains(("mail"@, v.json())),
        x.auth_source_id matches Some(v) ==> wrapped_members(x.body_spec()).contains(("auth_source_id"@, v.json())),
        x.mail_notification matches Some(v) ==> wrapped_members(x.body_spec()).contains(("mail_notification"@, v.json())),
        x.must_change_passwd matches Some(v) ==> wrapped_members(x.body_spec()).contains(("must_change_passwd"@, v.json())),
        x.generate_password matches Some(v) ==> wrapped_members(x.body_spec()).contains(("generate_password"@, v.json())),
        x.admin matches Some(v) ==> wrapped_members(x.body_spec()).contains(("admin"@, v.json())),
        wrapped_members(x.body_spec()).len() == 1 + present(x.password) + present(x.firstname) + present(x.lastname) + present(x.mail) + present(x.auth_source_id) + present(x.mail_notification) + present(x.must_change_passwd) + present(x.generate_password) + present(x.admin),
{
    broadcast use crate::api::json::lemma_member_opt_contains, crate::api::json::lemma_member_opt_len,
        crate::api::json::lemma_member_nullable_contains, crate::api::json::lemma_member_nullable_len,
        crate::api::json::lemma_push_member_contains;
}

/// Different values of [`UserStatus`] are sent as different texts.
pub proof fn lemma_user_status_text_injective(x: UserStatus, y: UserStatus)
    ensures
        x.text() == y.text() ==> x == y,
{
    reveal_strlit("");
    reveal_strlit("Active");
    reveal_strlit("Locked");
    reveal_strlit("Registered");
    assert("Active"@.len() != "Registered"@.len());
    assert("Active"@[0] != "Locked"@[0]);
    assert("Active"@.len() != ""@.len());
    assert("Registered"@.len() != "Locked"@.len());
    assert("Registered"@.len() != ""@.len());
    assert("Locked"@.len() != ""@.len());
}

/// Different values of [`UserInclude`] are sent as different texts.
pub proof fn lemma_user_include_text_injective(x: UserInclude, y: UserInclude)
    ensures
        x.text() == y.text() ==> x == y,
{
    reveal_strlit("groups");
    reveal_strlit("memberships");
    assert("memberships"@.len() != "groups"@.len());
}

/// Different values of [`MailNotificationOptions`] are sent as different texts.
pub proof fn lemma_mail_notification_options_text_injective(x: MailNotificationOptions, y: MailNotificationOptions)
    ensures
        x.text() == y.text() ==> x == y,
{
    reveal_strlit("all");
    reveal_strlit("none");
    reveal_strlit("only_assigned");
    reveal_strlit("only_my_events");
    reveal_strlit("only_owner");
    reveal_strlit("selected");
    assert("all"@.len() != "selected"@.len());
    assert("all"@.len() != "only_my_events"@.len());
    assert("all"@.len() != "only_assigned"@.len());
    assert("all"@.len() != "only_owner"@.len());
    assert("all"@.len() != "none"@.len());
    assert("selected"@.len() != "only_my_events"@.len());
    assert("selected"@.len() != "only_assigned"@.len());
    assert("selected"@.len() != "only_owner"@.len());
    assert("selected"@.len() != "none"@.len());
    assert("only_my_events"@.len() != "only_assigned"@.len());
    assert("only_my_events"@.len() != "only_owner"@.len());
    assert("only_my_events"@.len() != "none"@.len());
    assert("only_assigned"@.len() != "only_owner"@.len());
    assert("only_assigned"@.len() != "none"@.len());
    assert("only_owner"@.len() != "none"@.len());
}

/// The requests of this module use the HTTP method that fits what they do:
/// `GET` to read, `POST` to create or add, `PUT` to change and `DELETE` to
/// remove.
pub proof fn lemma_users_methods(list_users: ListUsers, get_user: GetUser, create_user: CreateUser, update_user: UpdateUser, delete_user: DeleteUser)
    ensures
        list_users.method_spec() == HttpMethod::Get,
        get_user.method_spec() == HttpMethod::Get,
        create_user.method_spec() == HttpMethod::Post,
        update_user.method_spec() == HttpMethod::Put,
        delete_user.method_spec() == HttpMethod::Delete,
{
}

/// The requests of this module that address the same collection, or the
/// same object, use the same path: listing and creating share the
/// collection's path, and reading, changing and removing an object share
/// the object's path.
pub proof fn lemma_users_shared_paths(
    list_users: ListUsers,
    create_user: CreateUser,
    get_user: GetUser,
    update_user: UpdateUser,
    delete_user: DeleteUser,
)
    ensures
        list_users.endpoint_spec() == create_user.endpoint_spec(),
        get_user.id == Some(update_user.id) ==> get_user.endpoint_spec() == update_user.endpoint_spec(),
        update_user.id == delete_user.id ==> update_user.endpoint_spec() == delete_user.endpoint_spec(),
{
}

/// The page of [`ListUsers`] holds its values under the name of the
/// collection that ends the request's path.
pub proof fn lemma_list_users_wrapper_key(x: ListUsers)
    ensures
        x.endpoint_spec().len() >= x.wrapper_key_spec().len() + 5,
        x.endpoint_spec().subrange(x.endpoint_spec().len() - x.wrapper_key_spec().len() - 5, x.endpoint_spec().len() as int) == x.wrapper_key_spec() + ".json"@,
{
    reveal_strlit(".json");
    reveal_strlit("users");
    reveal_strlit("users.json");
    assert(x.endpoint_spec().subrange(x.endpoint_spec().len() - x.wrapper_key_spec().len() - 5, x.endpoint_spec().len() as int) =~= x.wrapper_key_spec() + ".json"@);
}

} // verus!
