//! Groups Rest API Endpoint definitions
//!
//! [Redmine Documentation](https://www.redmine.org/projects/redmine/wiki/Rest_Groups)
use vstd::prelude::*;
use vstd::string::StringExecFns;
use crate::Error;
use crate::api::endpoint::{
    BodySpec, BuilderError, Endpoint, HttpMethod, NoPagination, Pageable, RequestBody,
    ReturnsJsonResponse, json_body,
};
use crate::api::json::{
    JsonValue, JsonView, ObjectBuilder, ToJson, member_nullable, member_opt, single_member_object,
};
use crate::api::query::{ParamValue, QueryParams, opt_param_ok, push_opt_spec};
use crate::api::text::{decimal, push_decimal};

use crate::api::query::present;
use crate::api::bodies::wrapped_members;
use crate::api::bodies::object_members;
use crate::api::text::{lemma_id_path_injective};
verus! {

/// The types of associated data which can be fetched along with a group
#[derive(Debug, Clone, Copy, PartialEq, Eq, Structural)]
pub enum GroupInclude {
    /// The users in the group
    Users,
    /// The project memberships of the group
    Memberships,
}

impl GroupInclude {
    /// The text of the value.
    pub open spec fn text(&self) -> Seq<char> {
        match self {
            GroupInclude::Users => "users"@,
            GroupInclude::Memberships => "memberships"@,
        }
    }

    /// The text of the value.
    pub fn to_string(&self) -> (r: String)
        ensures
            r@ == self.text(),
    {
        match self {
            GroupInclude::Users => String::from_str("users"),
            GroupInclude::Memberships => String::from_str("memberships"),
        }
    }
}

impl ParamValue for GroupInclude {
    open spec fn param_text(&self) -> Seq<char> {
        self.text()
    }

    fn as_value(&self) -> (r: String) {
        self.to_string()
    }
}

/// The endpoint for all Redmine groups
#[derive(Debug, Clone)]
pub struct ListGroups {
}

/// Builder for [`ListGroups`].
#[derive(Debug, Clone)]
pub struct ListGroupsBuilder {
}

impl ListGroups {
    /// Create a builder for the endpoint.
    pub fn builder() -> (r: ListGroupsBuilder)
        ensures
    {
        ListGroupsBuilder {}
    }
}

impl ListGroupsBuilder {
    /// The first required field that has not been set, if any.
    pub open spec fn missing_field(&self) -> Option<Seq<char>> {
        None
    }

    /// Builds the endpoint; fails on the first required field that has not been set.
    pub fn build(self) -> (r: Result<ListGroups, BuilderError>)
        ensures
            match r {
                Ok(x) => self.missing_field() is None && x == (ListGroups {  }),
                Err(BuilderError::UninitializedField(n)) => self.missing_field() == Some(n@),
                Err(_) => false,
            },
    {
        Ok(ListGroups {})
    }
}

impl ReturnsJsonResponse for ListGroups {}

impl NoPagination for ListGroups {}

impl Endpoint for ListGroups {
    open spec fn method_spec(&self) -> HttpMethod {
        HttpMethod::Get
    }

    open spec fn endpoint_spec(&self) -> Seq<char> {
        "groups.json"@
    }

    open spec fn parameters_spec(&self) -> Seq<(Seq<char>, Seq<char>)> {
        Seq::empty()
    }

    open spec fn body_spec(&self) -> Option<BodySpec> {
        None
    }

    fn method(&self) -> (r: HttpMethod) {
        HttpMethod::Get
    }

    fn endpoint(&self) -> (r: String) {
        String::from_str("groups.json")
    }

    fn check_writable(&self) -> (r: bool) {
        true
    }

    fn parameters(&self) -> (r: QueryParams) {
        let mut p = QueryParams::new();
        p
    }

    fn body(&self) -> (r: Result<Option<RequestBody>, Error>) {
        Ok(None)
    }
}

/// The endpoint for a specific Redmine group
#[derive(Debug, Clone)]
pub struct GetGroup {
    /// id of the group
    pub id: u64,
    /// associated data to include
    pub includes: Option<Vec<GroupInclude>>,
}

/// Builder for [`GetGroup`].
#[derive(Debug, Clone)]
pub struct GetGroupBuilder {
    /// id of the group
    pub id: Option<u64>,
    /// associated data to include
    pub includes: Option<Vec<GroupInclude>>,
}

impl GetGroup {
    /// Create a builder for the endpoint.
    pub fn builder() -> (r: GetGroupBuilder)
        ensures
            r.id is None,
            r.includes is None,
    {
        GetGroupBuilder { id: None, includes: None }
    }
}

impl GetGroupBuilder {
    /// Sets `id`: id of the group
    pub fn id(self, value: u64) -> (r: GetGroupBuilder)
        ensures
            r.id == Some(value),
            r.includes == self.includes,
    {
        GetGroupBuilder { id: Some(value), includes: self.includes }
    }

    /// Sets `includes`: associated data to include
    pub fn includes(self, value: Vec<GroupInclude>) -> (r: GetGroupBuilder)
        ensures
            r.includes == Some(value),
            r.id == self.id,
    {
        GetGroupBuilder { id: self.id, includes: Some(value) }
    }

    /// The first required field that has not been set, if any.
    pub open spec fn missing_field(&self) -> Option<Seq<char>> {
        if self.id is None {
            Some("id"@)
        } else {
            None
        }
    }

    /// Builds the endpoint; fails on the first required field that has not been set.
    pub fn build(self) -> (r: Result<GetGroup, BuilderError>)
        ensures
            match r {
                Ok(x) => self.missing_field() is None && x == (GetGroup { id: self.id->0, includes: self.includes }),
                Err(BuilderError::UninitializedField(n)) => self.missing_field() == Some(n@),
                Err(_) => false,
            },
    {
        let id = match self.id {
            Some(v) => v,
            None => {
                return Err(BuilderError::UninitializedField("id"));
            },
        };
        Ok(GetGroup { id, includes: self.includes })
    }
}

impl ReturnsJsonResponse for GetGroup {}

impl NoPagination for GetGroup {}

impl Endpoint for GetGroup {
    open spec fn method_spec(&self) -> HttpMethod {
        HttpMethod::Get
    }

    open spec fn endpoint_spec(&self) -> Seq<char> {
        "groups/"@ + decimal(self.id as nat) + ".json"@
    }

    open spec fn parameters_spec(&self) -> Seq<(Seq<char>, Seq<char>)> {
        let p = Seq::<(Seq<char>, Seq<char>)>::empty();
        let p = push_opt_spec(p, "include"@, self.includes);
        p
    }

    open spec fn body_spec(&self) -> Option<BodySpec> {
        None
    }

    fn method(&self) -> (r: HttpMethod) {
        HttpMethod::Get
    }

    fn endpoint(&self) -> (r: String) {
        let mut s = String::new();
        s.append("groups/");
        push_decimal(&mut s, self.id);
        s.append(".json");
        assert(s@ =~= self.endpoint_spec());
        s
    }

    fn check_writable(&self) -> (r: bool) {
        true
    }

    fn parameters(&self) -> (r: QueryParams) {
        let mut p = QueryParams::new();
        p.push_opt("include", &self.includes);
        p
    }

    fn body(&self) -> (r: Result<Option<RequestBody>, Error>) {
        Ok(None)
    }
}

/// The endpoint to create a Redmine group
#[derive(Debug, Clone)]
pub struct CreateGroup {
    /// name of the group
    pub name: String,
    /// user ids of users to put in the group initially
    pub user_ids: Option<Vec<u64>>,
}

/// Builder for [`CreateGroup`].
#[derive(Debug, Clone)]
pub struct CreateGroupBuilder {
    /// name of the group
    pub name: Option<String>,
    /// user ids of users to put in the group initially
    pub user_ids: Option<Vec<u64>>,
}

impl CreateGroup {
    /// Create a builder for the endpoint.
    pub fn builder() -> (r: CreateGroupBuilder)
        ensures
            r.name is None,
            r.user_ids is None,
    {
        CreateGroupBuilder { name: None, user_ids: None }
    }
}

impl CreateGroupBuilder {
    /// Sets `name`: name of the group
    pub fn name(self, value: &str) -> (r: CreateGroupBuilder)
        ensures
            r.name matches Some(s) && s@ == value@,
            r.user_ids == self.user_ids,
    {
        CreateGroupBuilder { name: Some(String::from_str(value)), user_ids: self.user_ids }
    }

    /// Sets `user_ids`: user ids of users to put in the group initially
    pub fn user_ids(self, value: Vec<u64>) -> (r: CreateGroupBuilder)
        ensures
            r.user_ids == Some(value),
            r.name == self.name,
    {
        CreateGroupBuilder { name: self.name, user_ids: Some(value) }
    }

    /// The first required field that has not been set, if any.
    pub open spec fn missing_field(&self) -> Option<Seq<char>> {
        if self.name is None {
            Some("name"@)
        } else {
            None
        }
    }

    /// Builds the endpoint; fails on the first required field that has not been set.
    pub fn build(self) -> (r: Result<CreateGroup, BuilderError>)
        ensures
            match r {
                Ok(x) => self.missing_field() is None && x == (CreateGroup { name: self.name->0, user_ids: self.user_ids }),
                Err(BuilderError::UninitializedField(n)) => self.missing_field() == Some(n@),
                Err(_) => false,
            },
    {
        let name = match self.name {
            Some(v) => v,
            None => {
                return Err(BuilderError::UninitializedField("name"));
            },
        };
        Ok(CreateGroup { name, user_ids: self.user_ids })
    }
}

impl ReturnsJsonResponse for CreateGroup {}

impl NoPagination for CreateGroup {}

impl Endpoint for CreateGroup {
    open spec fn method_spec(&self) -> HttpMethod {
        HttpMethod::Post
    }

    open spec fn endpoint_spec(&self) -> Seq<char> {
        "groups.json"@
    }

    open spec fn parameters_spec(&self) -> Seq<(Seq<char>, Seq<char>)> {
        Seq::empty()
    }

    open spec fn body_spec(&self) -> Option<BodySpec> {
        let inner = {
            let m = Seq::<(Seq<char>, JsonView)>::empty();
            let m = m.push(("name"@, self.name.json()));
            let m = member_nullable(m, "user_ids"@, self.user_ids);
            m
        };
        Some(BodySpec::Json(JsonView::Object(seq![("group"@, JsonView::Object(inner))])))
    }

    fn method(&self) -> (r: HttpMethod) {
        HttpMethod::Post
    }

    fn endpoint(&self) -> (r: String) {
        String::from_str("groups.json")
    }

    fn check_writable(&self) -> (r: bool) {
        true
    }

    fn parameters(&self) -> (r: QueryParams) {
        let mut p = QueryParams::new();
        p
    }

    fn body(&self) -> (r: Result<Option<RequestBody>, Error>) {
        let mut b = ObjectBuilder::new();
        b.insert_value("name", &self.name);
        b.insert_nullable("user_ids", &self.user_ids);
        let doc = single_member_object("group", b.build());
        json_body(&doc)
    }
}

/// The endpoint to update an existing Redmine group
#[derive(Debug, Clone)]
pub struct UpdateGroup {
    /// id of the group to update
    pub id: u64,
    /// name of the group
    pub name: String,
    /// user ids of the group members
    pub user_ids: Option<Vec<u64>>,
}

/// Builder for [`UpdateGroup`].
#[derive(Debug, Clone)]
pub struct UpdateGroupBuilder {
    /// id of the group to update
    pub id: Option<u64>,
    /// name of the group
    pub name: Option<String>,
    /// user ids of the group members
    pub user_ids: Option<Vec<u64>>,
}

impl UpdateGroup {
    /// Create a builder for the endpoint.
    pub fn builder() -> (r: UpdateGroupBuilder)
        ensures
            r.id is None,
            r.name is None,
            r.user_ids is None,
    {
        UpdateGroupBuilder { id: None, name: None, user_ids: None }
    }
}

impl UpdateGroupBuilder {
    /// Sets `id`: id of the group to update
    pub fn id(self, value: u64) -> (r: UpdateGroupBuilder)
        ensures
            r.id == Some(value),
            r.name == self.name,
            r.user_ids == self.user_ids,
    {
        UpdateGroupBuilder { id: Some(value), name: self.name, user_ids: self.user_ids }
    }

    /// Sets `name`: name of the group
    pub fn name(self, value: &str) -> (r: UpdateGroupBuilder)
        ensures
            r.name matches Some(s) && s@ == value@,
            r.id == self.id,
            r.user_ids == self.user_ids,
    {
        UpdateGroupBuilder { id: self.id, name: Some(String::from_str(value)), user_ids: self.user_ids }
    }

    /// Sets `user_ids`: user ids of the group members
    pub fn user_ids(self, value: Vec<u64>) -> (r: UpdateGroupBuilder)
        ensures
            r.user_ids == Some(value),
            r.id == self.id,
            r.name == self.name,
    {
        UpdateGroupBuilder { id: self.id, name: self.name, user_ids: Some(value) }
    }

    /// The first required field that has not been set, if any.
    pub open spec fn missing_field(&self) -> Option<Seq<char>> {
        if self.id is None {
            Some("id"@)
        } else if self.name is None {
            Some("name"@)
        } else {
            None
        }
    }

    /// Builds the endpoint; fails on the first required field that has not been set.
    pub fn build(self) -> (r: Result<UpdateGroup, BuilderError>)
        ensures
            match r {
                Ok(x) => self.missing_field() is None && x == (UpdateGroup { id: self.id->0, name: self.name->0, user_ids: self.user_ids }),
                Err(BuilderError::UninitializedField(n)) => self.missing_field() == Some(n@),
                Err(_) => false,
            },
    {
        let id = match self.id {
            Some(v) => v,
            None => {
                return Err(BuilderError::UninitializedField("id"));
            },
        };
        let name = match self.name {
            Some(v) => v,
            None => {
                return Err(BuilderError::UninitializedField("name"));
            },
        };
        Ok(UpdateGroup { id, name, user_ids: self.user_ids })
    }
}

impl Endpoint for UpdateGroup {
    open spec fn method_spec(&self) -> HttpMethod {
        HttpMethod::Put
    }

    open spec fn endpoint_spec(&self) -> Seq<char> {
        "groups/"@ + decimal(self.id as nat) + ".json"@
    }

    open spec fn parameters_spec(&self) -> Seq<(Seq<char>, Seq<char>)> {
        Seq::empty()
    }

    open spec fn body_spec(&self) -> Option<BodySpec> {
        let inner = {
            let m = Seq::<(Seq<char>, JsonView)>::empty();
            let m = m.push(("name"@, self.name.json()));
            let m = member_nullable(m, "user_ids"@, self.user_ids);
            m
        };
        Some(BodySpec::Json(JsonView::Object(seq![("group"@, JsonView::Object(inner))])))
    }

    fn method(&self) -> (r: HttpMethod) {
        HttpMethod::Put
    }

    fn endpoint(&self) -> (r: String) {
        let mut s = String::new();
        s.append("groups/");
        push_decimal(&mut s, self.id);
        s.append(".json");
        assert(s@ =~= self.endpoint_spec());
        s
    }

    fn check_writable(&self) -> (r: bool) {
        true
    }

    fn parameters(&self) -> (r: QueryParams) {
        let mut p = QueryParams::new();
        p
    }

    fn body(&self) -> (r: Result<Option<RequestBody>, Error>) {
        let mut b = ObjectBuilder::new();
        b.insert_value("name", &self.name);
        b.insert_nullable("user_ids", &self.user_ids);
        let doc = single_member_object("group", b.build());
        json_body(&doc)
    }
}

/// The endpoint to delete a Redmine group
#[derive(Debug, Clone)]
pub struct DeleteGroup {
    /// Id of the group to delete
    pub id: u64,
}

/// Builder for [`DeleteGroup`].
#[derive(Debug, Clone)]
pub struct DeleteGroupBuilder {
    /// Id of the group to delete
    pub id: Option<u64>,
}

impl DeleteGroup {
    /// Create a builder for the endpoint.
    pub fn builder() -> (r: DeleteGroupBuilder)
        ensures
            r.id is None,
    {
        DeleteGroupBuilder { id: None }
    }
}

impl DeleteGroupBuilder {
    /// Sets `id`: id of the group to delete
    pub fn id(self, value: u64) -> (r: DeleteGroupBuilder)
        ensures
            r.id == Some(value),
    {
        DeleteGroupBuilder { id: Some(value) }
    }

    /// The first required field that has not been set, if any.
    pub open spec fn missing_field(&self) -> Option<Seq<char>> {
        if self.id is None {
            Some("id"@)
        } else {
            None
        }
    }

    /// Builds the endpoint; fails on the first required field that has not been set.
    pub fn build(self) -> (r: Result<DeleteGroup, BuilderError>)
        ensures
            match r {
                Ok(x) => self.missing_field() is None && x == (DeleteGroup { id: self.id->0 }),
                Err(BuilderError::UninitializedField(n)) => self.missing_field() == Some(n@),
                Err(_) => false,
            },
    {
        let id = match self.id {
            Some(v) => v,
            None => {
                return Err(BuilderError::UninitializedField("id"));
            },
        };
        Ok(DeleteGroup { id })
    }
}

impl Endpoint for DeleteGroup {
    open spec fn method_spec(&self) -> HttpMethod {
        HttpMethod::Delete
    }

    open spec fn endpoint_spec(&self) -> Seq<char> {
        "groups/"@ + decimal(self.id as nat) + ".json"@
    }

    open spec fn parameters_spec(&self) -> Seq<(Seq<char>, Seq<char>)> {
        Seq::empty()
    }

    open spec fn body_spec(&self) -> Option<BodySpec> {
        None
    }

    fn method(&self) -> (r: HttpMethod) {
        HttpMethod::Delete
    }

    fn endpoint(&self) -> (r: String) {
        let mut s = String::new();
        s.append("groups/");
        push_decimal(&mut s, self.id);
        s.append(".json");
        assert(s@ =~= self.endpoint_spec());
        s
    }

    fn check_writable(&self) -> (r: bool) {
        true
    }

    fn parameters(&self) -> (r: QueryParams) {
        let mut p = QueryParams::new();
        p
    }

    fn body(&self) -> (r: Result<Option<RequestBody>, Error>) {
        Ok(None)
    }
}

/// The endpoint to add a Redmine user to a Redmine group
#[derive(Debug, Clone)]
pub struct AddUserToGroup {
    /// Group Id to add the user to
    pub group_id: u64,
    /// User to add to this group
    pub user_id: u64,
}

/// Builder for [`AddUserToGroup`].
#[derive(Debug, Clone)]
pub struct AddUserToGroupBuilder {
    /// Group Id to add the user to
    pub group_id: Option<u64>,
    /// User to add to this group
    pub user_id: Option<u64>,
}

impl AddUserToGroup {
    /// Create a builder for the endpoint.
    pub fn builder() -> (r: AddUserToGroupBuilder)
        ensures
            r.group_id is None,
            r.user_id is None,
    {
        AddUserToGroupBuilder { group_id: None, user_id: None }
    }
}

impl AddUserToGroupBuilder {
    /// Sets `group_id`: group Id to add the user to
    pub fn group_id(self, value: u64) -> (r: AddUserToGroupBuilder)
        ensures
            r.group_id == Some(value),
            r.user_id == self.user_id,
    {
        AddUserToGroupBuilder { group_id: Some(value), user_id: self.user_id }
    }

    /// Sets `user_id`: user to add to this group
    pub fn user_id(self, value: u64) -> (r: AddUserToGroupBuilder)
        ensures
            r.user_id == Some(value),
            r.group_id == self.group_id,
    {
        AddUserToGroupBuilder { group_id: self.group_id, user_id: Some(value) }
    }

    /// The first required field that has not been set, if any.
    pub open spec fn missing_field(&self) -> Option<Seq<char>> {
        if self.group_id is None {
            Some("group_id"@)
        } else if self.user_id is None {
            Some("user_id"@)
        } else {
            None
        }
    }

    /// Builds the endpoint; fails on the first required field that has not been set.
    pub fn build(self) -> (r: Result<AddUserToGroup, BuilderError>)
        ensures
            match r {
                Ok(x) => self.missing_field() is None && x == (AddUserToGroup { group_id: self.group_id->0, user_id: self.user_id->0 }),
                Err(BuilderError::UninitializedField(n)) => self.missing_field() == Some(n@),
                Err(_) => false,
            },
    {
        let group_id = match self.group_id {
            Some(v) => v,
            None => {
                return Err(BuilderError::UninitializedField("group_id"));
            },
        };
        let user_id = match self.user_id {
            Some(v) => v,
            None => {
                return Err(BuilderError::UninitializedField("user_id"));
            },
        };
        Ok(AddUserToGroup { group_id, user_id })
    }
}

impl Endpoint for AddUserToGroup {
    open spec fn method_spec(&self) -> HttpMethod {
        HttpMethod::Post
    }

    open spec fn endpoint_spec(&self) -> Seq<char> {
        "groups/"@ + decimal(self.group_id as nat) + "/users.json"@
    }

    open spec fn parameters_spec(&self) -> Seq<(Seq<char>, Seq<char>)> {
        Seq::empty()
    }

    open spec fn body_spec(&self) -> Option<BodySpec> {
        let inner = {
            let m = Seq::<(Seq<char>, JsonView)>::empty();
            let m = m.push(("user_id"@, self.user_id.json()));
            m
        };
        Some(BodySpec::Json(JsonView::Object(inner)))
    }

    fn method(&self) -> (r: HttpMethod) {
        HttpMethod::Post
    }

    fn endpoint(&self) -> (r: String) {
        let mut s = String::new();
        s.append("groups/");
        push_decimal(&mut s, self.group_id);
        s.append("/users.json");
        assert(s@ =~= self.endpoint_spec());
        s
    }

    fn check_writable(&self) -> (r: bool) {
        true
    }

    fn parameters(&self) -> (r: QueryParams) {
        let mut p = QueryParams::new();
        p
    }

    fn body(&self) -> (r: Result<Option<RequestBody>, Error>) {
        let mut b = ObjectBuilder::new();
        b.insert_value("user_id", &self.user_id);
        let doc = b.build();
        json_body(&doc)
    }
}

/// The endpoint to remove a Redmine user from a Redmine group
#[derive(Debug, Clone)]
pub struct RemoveUserFromGroup {
    /// Group Id to remove the user from
    pub group_id: u64,
    /// User to remove from the group
    pub user_id: u64,
}

/// Builder for [`RemoveUserFromGroup`].
#[derive(Debug, Clone)]
pub struct RemoveUserFromGroupBuilder {
    /// Group Id to remove the user from
    pub group_id: Option<u64>,
    /// User to remove from the group
    pub user_id: Option<u64>,
}

impl RemoveUserFromGroup {
    /// Create a builder for the endpoint.
    pub fn builder() -> (r: RemoveUserFromGroupBuilder)
        ensures
            r.group_id is None,
            r.user_id is None,
    {
        RemoveUserFromGroupBuilder { group_id: None, user_id: None }
    }
}

impl RemoveUserFromGroupBuilder {
    /// Sets `group_id`: group Id to remove the user from
    pub fn group_id(self, value: u64) -> (r: RemoveUserFromGroupBuilder)
        ensures
            r.group_id == Some(value),
            r.user_id == self.user_id,
    {
        RemoveUserFromGroupBuilder { group_id: Some(value), user_id: self.user_id }
    }

    /// Sets `user_id`: user to remove from the group
    pub fn user_id(self, value: u64) -> (r: RemoveUserFromGroupBuilder)
        ensures
            r.user_id == Some(value),
            r.group_id == self.group_id,
    {
        RemoveUserFromGroupBuilder { group_id: self.group_id, user_id: Some(value) }
    }

    /// The first required field that has not been set, if any.
    pub open spec fn missing_field(&self) -> Option<Seq<char>> {
        if self.group_id is None {
            Some("group_id"@)
        } else if self.user_id is None {
            Some("user_id"@)
        } else {
            None
        }
    }

    /// Builds the endpoint; fails on the first required field that has not been set.
    pub fn build(self) -> (r: Result<RemoveUserFromGroup, BuilderError>)
        ensures
            match r {
                Ok(x) => self.missing_field() is None && x == (RemoveUserFromGroup { group_id: self.group_id->0, user_id: self.user_id->0 }),
                Err(BuilderError::UninitializedField(n)) => self.missing_field() == Some(n@),
                Err(_) => false,
            },
    {
        let group_id = match self.group_id {
            Some(v) => v,
            None => {
                return Err(BuilderError::UninitializedField("group_id"));
            },
        };
        let user_id = match self.user_id {
            Some(v) => v,
            None => {
                return Err(BuilderError::UninitializedField("user_id"));
            },
        };
        Ok(RemoveUserFromGroup { group_id, user_id })
    }
}

impl Endpoint for RemoveUserFromGroup {
    open spec fn method_spec(&self) -> HttpMethod {
        HttpMethod::Delete
    }

    open spec fn endpoint_spec(&self) -> Seq<char> {
        "groups/"@ + decimal(self.group_id as nat) + "/users/"@ + decimal(self.user_id as nat) + ".json"@
    }

    open spec fn parameters_spec(&self) -> Seq<(Seq<char>, Seq<char>)> {
        Seq::empty()
    }

    open spec fn body_spec(&self) -> Option<BodySpec> {
        None
    }

    fn method(&self) -> (r: HttpMethod) {
        HttpMethod::Delete
    }

    fn endpoint(&self) -> (r: String) {
        let mut s = String::new();
        s.append("groups/");
        push_decimal(&mut s, self.group_id);
        s.append("/users/");
        push_decimal(&mut s, self.user_id);
        s.append(".json");
        assert(s@ =~= self.endpoint_spec());
        s
    }

    fn check_writable(&self) -> (r: bool) {
        true
    }

    fn parameters(&self) -> (r: QueryParams) {
        let mut p = QueryParams::new();
        p
    }

    fn body(&self) -> (r: Result<Option<RequestBody>, Error>) {
        Ok(None)
    }
}

/// The query of [`GetGroup`] sends each parameter that is set under its Redmine
/// name, with the value's text, and nothing else.
pub proof fn lemma_get_group_parameter_names(x: GetGroup)
    ensures
        x.includes matches Some(v) ==> x.parameters_spec().contains(("include"@, v.param_text())),
        x.parameters_spec().len() == present(x.includes),
{
    broadcast use crate::api::query::lemma_push_opt_contains, crate::api::query::lemma_push_opt_len;
}

/// The body of [`CreateGroup`] holds, under `group`, each attribute that is set
/// under its Redmine name, with the attribute's document as the value, and
/// nothing else.
pub proof fn lemma_create_group_body_members(x: CreateGroup)
    ensures
        wrapped_members(x.body_spec()).contains(("name"@, x.name.json())),
        x.user_ids matches Some(v) ==> wrapped_members(x.body_spec()).contains(("user_ids"@, v.json())),
        x.user_ids is None ==> wrapped_members(x.body_spec()).contains(("user_ids"@, JsonView::Null)),
        wrapped_members(x.body_spec()).len() == 2,
{
    broadcast use crate::api::json::lemma_member_opt_contains, crate::api::json::lemma_member_opt_len,
        crate::api::json::lemma_member_nullable_contains, crate::api::json::lemma_member_nullable_len,
        crate::api::json::lemma_push_member_contains;
}

/// The body of [`UpdateGroup`] holds, under `group`, each attribute that is set
/// under its Redmine name, with the attribute's document as the value, and
/// nothing else.
pub proof fn lemma_update_group_body_members(x: UpdateGroup)
    ensures
        wrapped_members(x.body_spec()).contains(("name"@, x.name.json())),
        x.user_ids matches Some(v) ==> wrapped_members(x.body_spec()).contains(("user_ids"@, v.json())),
        x.user_ids is None ==> wrapped_members(x.body_spec()).contains(("user_ids"@, JsonView::Null)),
        wrapped_members(x.body_spec()).len() == 2,
{
    broadcast use crate::api::json::lemma_member_opt_contains, crate::api::json::lemma_member_opt_len,
        crate::api::json::lemma_member_nullable_contains, crate::api::json::lemma_member_nullable_len,
        crate::api::json::lemma_push_member_contains;
}

/// The body of [`AddUserToGroup`] holds, in the body, each attribute that is set
/// under its Redmine name, with the attribute's document as the value, and
/// nothing else.
pub proof fn lemma_add_user_to_group_body_members(x: AddUserToGroup)
    ensures
        object_members(x.body_spec()).contains(("user_id"@, x.user_id.json())),
        object_members(x.body_spec()).len() == 1,
{
    broadcast use crate::api::json::lemma_member_opt_contains, crate::api::json::lemma_member_opt_len,
        crate::api::json::lemma_member_nullable_contains, crate::api::json::lemma_member_nullable_len,
        crate::api::json::lemma_push_member_contains;
}

/// The path of [`GetGroup`] names the object by the decimal of its id, and two
/// requests share a path only when they name the same id.
pub proof fn lemma_get_group_path(x: GetGroup, y: GetGroup)
    ensures
        x.endpoint_spec() == "groups/"@ + decimal(x.id as nat) + ".json"@,
        x.endpoint_spec() == y.endpoint_spec() <==> x.id == y.id,
{
    lemma_id_path_injective("groups/"@, ".json"@, x.id as nat, y.id as nat);
}

/// The path of [`UpdateGroup`] names the object by the decimal of its id, and two
/// requests share a path only when they name the same id.
pub proof fn lemma_update_group_path(x: UpdateGroup, y: UpdateGroup)
    ensures
        x.endpoint_spec() == "groups/"@ + decimal(x.id as nat) + ".json"@,
        x.endpoint_spec() == y.endpoint_spec() <==> x.id == y.id,
{
    lemma_id_path_injective("groups/"@, ".json"@, x.id as nat, y.id as nat);
}

/// The path of [`DeleteGroup`] names the object by the decimal of its id, and two
/// requests share a path only when they name the same id.
pub proof fn lemma_delete_group_path(x: DeleteGroup, y: DeleteGroup)
    ensures
        x.endpoint_spec() == "groups/"@ + decimal(x.id as nat) + ".json"@,
        x.endpoint_spec() == y.endpoint_spec() <==> x.id == y.id,
{
    lemma_id_path_injective("groups/"@, ".json"@, x.id as nat, y.id as nat);
}

/// The path of [`AddUserToGroup`] names the object by the decimal of its id, and two
/// requests share a path only when they name the same id.
pub proof fn lemma_add_user_to_group_path(x: AddUserToGroup, y: AddUserToGroup)
    ensures
        x.endpoint_spec() == "groups/"@ + decimal(x.group_id as nat) + "/users.json"@,
        x.endpoint_spec() == y.endpoint_spec() <==> x.group_id == y.group_id,
{
    lemma_id_path_injective("groups/"@, "/users.json"@, x.group_id as nat, y.group_id as nat);
}

/// Different values of [`GroupInclude`] are sent as different texts.
pub proof fn lemma_group_include_text_injective(x: GroupInclude, y: GroupInclude)
    ensures
        x.text() == y.text() ==> x == y,
{
    reveal_strlit("memberships");
    reveal_strlit("users");
    assert("users"@.len() != "memberships"@.len());
}

/// The requests of this module use the HTTP method that fits what they do:
/// `GET` to read, `POST` to create or add, `PUT` to change and `DELETE` to
/// remove.
pub proof fn lemma_groups_methods(list_groups: ListGroups, get_group: GetGroup, create_group: CreateGroup, update_group: UpdateGroup, delete_group: DeleteGroup, add_user_to_group: AddUserToGroup, remove_user_from_group: RemoveUserFromGroup)
    ensures
        list_groups.method_spec() == HttpMethod::Get,
        get_group.method_spec() == HttpMethod::Get,
        create_group.method_spec() == HttpMethod::Post,
        update_group.method_spec() == HttpMethod::Put,
        delete_group.method_spec() == HttpMethod::Delete,
        add_user_to_group.method_spec() == HttpMethod::Post,
        remove_user_from_group.method_spec() == HttpMethod::Delete,
{
}

/// The requests of this module that address the same collection, or the
/// same object, use the same path: listing and creating share the
/// collection's path, and reading, changing and removing an object share
/// the object's path.
pub proof fn lemma_groups_shared_paths(list_groups: ListGroups, create_group: CreateGroup, get_group: GetGroup, update_group: UpdateGroup, delete_group: DeleteGroup)
    ensures
        list_groups.endpoint_spec() == create_group.endpoint_spec(),
        get_group.id == update_group.id ==> get_group.endpoint_spec() == update_group.endpoint_spec(),
        get_group.id == delete_group.id ==> get_group.endpoint_spec() == delete_group.endpoint_spec(),
{
}

} // verus!
