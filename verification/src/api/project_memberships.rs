//! Project Memberships Rest API Endpoint definitions
//!
//! [Redmine Documentation](https://www.redmine.org/projects/redmine/wiki/Rest_Memberships)
use vstd::prelude::*;
use vstd::string::StringExecFns;
use crate::Error;
use crate::api::endpoint::{
    BodySpec, BuilderError, Endpoint, HttpMethod, NoPagination, Pageable, RequestBody,
    ReturnsJsonResponse, json_body,
};
use crate::api::json::{
    JsonValue, JsonView, ObjectBuilder, ToJson, member_nullable, member_opt, single_member_object,
};
use crate::api::query::{ParamValue, QueryParams, opt_param_ok, push_opt_spec};
use crate::api::text::{decimal, push_decimal};

use crate::api::bodies::wrapped_members;
use crate::api::text::{lemma_id_path_injective, lemma_text_path_injective};
verus! {

/// The endpoint for all memberships in a Redmine project
#[derive(Debug, Clone)]
pub struct ListProjectMemberships {
    /// the project id or name as it appears in the URL
    pub project_id_or_name: String,
}

/// Builder for [`ListProjectMemberships`].
#[derive(Debug, Clone)]
pub struct ListProjectMembershipsBuilder {
    /// the project id or name as it appears in the URL
    pub project_id_or_name: Option<String>,
}

impl ListProjectMemberships {
    /// Create a builder for the endpoint.
    pub fn builder() -> (r: ListProjectMembershipsBuilder)
        ensures
            r.project_id_or_name is None,
    {
        ListProjectMembershipsBuilder { project_id_or_name: None }
    }
}

impl ListProjectMembershipsBuilder {
    /// Sets `project_id_or_name`: the project id or name as it appears in the URL
    pub fn project_id_or_name(self, value: &str) -> (r: ListProjectMembershipsBuilder)
        ensures
            r.project_id_or_name matches Some(s) && s@ == value@,
    {
        ListProjectMembershipsBuilder { project_id_or_name: Some(String::from_str(value)) }
    }

    /// The first required field that has not been set, if any.
    pub open spec fn missing_field(&self) -> Option<Seq<char>> {
        if self.project_id_or_name is None {
            Some("project_id_or_name"@)
        } else {
            None
        }
    }

    /// Builds the endpoint; fails on the first required field that has not been set.
    pub fn build(self) -> (r: Result<ListProjectMemberships, BuilderError>)
        ensures
            match r {
                Ok(x) => self.missing_field() is None && x == (ListProjectMemberships { project_id_or_name: self.project_id_or_name->0 }),
                Err(BuilderError::UninitializedField(n)) => self.missing_field() == Some(n@),
                Err(_) => false,
            },
    {
        let project_id_or_name = match self.project_id_or_name {
            Some(v) => v,
            None => {
                return Err(BuilderError::UninitializedField("project_id_or_name"));
            },
        };
        Ok(ListProjectMemberships { project_id_or_name })
    }
}

impl ReturnsJsonResponse for ListProjectMemberships {}

impl Pageable for ListProjectMemberships {
    open spec fn wrapper_key_spec(&self) -> Seq<char> {
        "memberships"@
    }

    fn response_wrapper_key(&self) -> (r: String) {
        String::from_str("memberships")
    }
}

impl Endpoint for ListProjectMemberships {
    open spec fn method_spec(&self) -> HttpMethod {
        HttpMethod::Get
    }

    open spec fn endpoint_spec(&self) -> Seq<char> {
        "projects/"@ + self.project_id_or_name@ + "/memberships.json"@
    }

    open spec fn parameters_spec(&self) -> Seq<(Seq<char>, Seq<char>)> {
        Seq::empty()
    }

    open spec fn body_spec(&self) -> Option<BodySpec> {
        None
    }

    fn method(&self) -> (r: HttpMethod) {
        HttpMethod::Get
    }

    fn endpoint(&self) -> (r: String) {
        let mut s = String::new();
        s.append("projects/");
        s.append(self.project_id_or_name.as_str());
        s.append("/memberships.json");
        assert(s@ =~= self.endpoint_spec());
        s
    }

    fn check_writable(&self) -> (r: bool) {
        true
    }

    fn parameters(&self) -> (r: QueryParams) {
        let mut p = QueryParams::new();
        p
    }

    fn body(&self) -> (r: Result<Option<RequestBody>, Error>) {
        Ok(None)
    }
}

/// The endpoint for a specific Redmine project membership
#[derive(Debug, Clone)]
pub struct GetProjectMembership {
    /// id of the project membership to retrieve
    pub id: u64,
}

/// Builder for [`GetProjectMembership`].
#[derive(Debug, Clone)]
pub struct GetProjectMembershipBuilder {
    /// id of the project membership to retrieve
    pub id: Option<u64>,
}

impl GetProjectMembership {
    /// Create a builder for the endpoint.
    pub fn builder() -> (r: GetProjectMembershipBuilder)
        ensures
            r.id is None,
    {
        GetProjectMembershipBuilder { id: None }
    }
}

impl GetProjectMembershipBuilder {
    /// Sets `id`: id of the project membership to retrieve
    pub fn id(self, value: u64) -> (r: GetProjectMembershipBuilder)
        ensures
            r.id == Some(value),
    {
        GetProjectMembershipBuilder { id: Some(value) }
    }

    /// The first required field that has not been set, if any.
    pub open spec fn missing_field(&self) -> Option<Seq<char>> {
        if self.id is None {
            Some("id"@)
        } else {
            None
        }
    }

    /// Builds the endpoint; fails on the first required field that has not been set.
    pub fn build(self) -> (r: Result<GetProjectMembership, BuilderError>)
        ensures
            match r {
                Ok(x) => self.missing_field() is None && x == (GetProjectMembership { id: self.id->0 }),
                Err(BuilderError::UninitializedField(n)) => self.missing_field() == Some(n@),
                Err(_) => false,
            },
    {
        let id = match self.id {
            Some(v) => v,
            None => {
                return Err(BuilderError::UninitializedField("id"));
            },
        };
        Ok(GetProjectMembership { id })
    }
}

impl ReturnsJsonResponse for GetProjectMembership {}

impl NoPagination for GetProjectMembership {}

impl Endpoint for GetProjectMembership {
    open spec fn method_spec(&self) -> HttpMethod {
        HttpMethod::Get
    }

    open spec fn endpoint_spec(&self) -> Seq<char> {
        "memberships/"@ + decimal(self.id as nat) + ".json"@
    }

    open spec fn parameters_spec(&self) -> Seq<(Seq<char>, Seq<char>)> {
        Seq::empty()
    }

    open spec fn body_spec(&self) -> Option<BodySpec> {
        None
    }

    fn method(&self) -> (r: HttpMethod) {
        HttpMethod::Get
    }

    fn endpoint(&self) -> (r: String) {
        let mut s = String::new();
        s.append("memberships/");
        push_decimal(&mut s, self.id);
        s.append(".json");
        assert(s@ =~= self.endpoint_spec());
        s
    }

    fn check_writable(&self) -> (r: bool) {
        true
    }

    fn parameters(&self) -> (r: QueryParams) {
        let mut p = QueryParams::new();
        p
    }

    fn body(&self) -> (r: Result<Option<RequestBody>, Error>) {
        Ok(None)
    }
}

/// The endpoint to create a Redmine project membership (add a user or group to a project)
#[derive(Debug, Clone)]
pub struct CreateProjectMembership {
    /// the project id or name as it appears in the URL
    pub project_id_or_name: String,
    /// user to add to the project
    pub user_id: u64,
    /// roles for the user to add to the project
    pub role_ids: Vec<u64>,
}

/// Builder for [`CreateProjectMembership`].
#[derive(Debug, Clone)]
pub struct CreateProjectMembershipBuilder {
    /// the project id or name as it appears in the URL
    pub project_id_or_name: Option<String>,
    /// user to add to the project
    pub user_id: Option<u64>,
    /// roles for the user to add to the project
    pub role_ids: Option<Vec<u64>>,
}

impl CreateProjectMembership {
    /// Create a builder for the endpoint.
    pub fn builder() -> (r: CreateProjectMembershipBuilder)
        ensures
            r.project_id_or_name is None,
            r.user_id is None,
            r.role_ids is None,
    {
        CreateProjectMembershipBuilder { project_id_or_name: None, user_id: None, role_ids: None }
    }
}

impl CreateProjectMembershipBuilder {
    /// Sets `project_id_or_name`: the project id or name as it appears in the URL
    pub fn project_id_or_name(self, value: &str) -> (r: CreateProjectMembershipBuilder)
        ensures
            r.project_id_or_name matches Some(s) && s@ == value@,
            r.user_id == self.user_id,
            r.role_ids == self.role_ids,
    {
        CreateProjectMembershipBuilder { project_id_or_name: Some(String::from_str(value)), user_id: self.user_id, role_ids: self.role_ids }
    }

    /// Sets `user_id`: user to add to the project
    pub fn user_id(self, value: u64) -> (r: CreateProjectMembershipBuilder)
        ensures
            r.user_id == Some(value),
            r.project_id_or_name == self.project_id_or_name,
            r.role_ids == self.role_ids,
    {
        CreateProjectMembershipBuilder { project_id_or_name: self.project_id_or_name, user_id: Some(value), role_ids: self.role_ids }
    }

    /// Sets `role_ids`: roles for the user to add to the project
    pub fn role_ids(self, value: Vec<u64>) -> (r: CreateProjectMembershipBuilder)
        ensures
            r.role_ids == Some(value),
            r.project_id_or_name == self.project_id_or_name,
            r.user_id == self.user_id,
    {
        CreateProjectMembershipBuilder { project_id_or_name: self.project_id_or_name, user_id: self.user_id, role_ids: Some(value) }
    }

    /// The first required field that has not been set, if any.
    pub open spec fn missing_field(&self) -> Option<Seq<char>> {
        if self.project_id_or_name is None {
            Some("project_id_or_name"@)
        } else if self.user_id is None {
            Some("user_id"@)
        } else if self.role_ids is None {
            Some("role_ids"@)
        } else {
            None
        }
    }

    /// Builds the endpoint; fails on the first required field that has not been set.
    pub fn build(self) -> (r: Result<CreateProjectMembership, BuilderError>)
        ensures
            match r {
                Ok(x) => self.missing_field() is None && x == (CreateProjectMembership { project_id_or_name: self.project_id_or_name->0, user_id: self.user_id->0, role_ids: self.role_ids->0 }),
                Err(BuilderError::UninitializedField(n)) => self.missing_field() == Some(n@),
                Err(_) => false,
            },
    {
        let project_id_or_name = match self.project_id_or_name {
            Some(v) => v,
            None => {
                return Err(BuilderError::UninitializedField("project_id_or_name"));
            },
        };
        let user_id = match self.user_id {
            Some(v) => v,
            None => {
                return Err(BuilderError::UninitializedField("user_id"));
            },
        };
        let role_ids = match self.role_ids {
            Some(v) => v,
            None => {
                return Err(BuilderError::UninitializedField("role_ids"));
            },
        };
        Ok(CreateProjectMembership { project_id_or_name, user_id, role_ids })
    }
}

impl ReturnsJsonResponse for CreateProjectMembership {}

impl NoPagination for CreateProjectMembership {}

impl Endpoint for CreateProjectMembership {
    open spec fn method_spec(&self) -> HttpMethod {
        HttpMethod::Post
    }

    open spec fn endpoint_spec(&self) -> Seq<char> {
        "projects/"@ + self.project_id_or_name@ + "/memberships.json"@
    }

    open spec fn parameters_spec(&self) -> Seq<(Seq<char>, Seq<char>)> {
        Seq::empty()
    }

    open spec fn body_spec(&self) -> Option<BodySpec> {
        let inner = {
            let m = Seq::<(Seq<char>, JsonView)>::empty();
            let m = m.push(("user_id"@, self.user_id.json()));
            let m = m.push(("role_ids"@, self.role_ids.json()));
            m
        };
        Some(BodySpec::Json(JsonView::Object(seq![("membership"@, JsonView::Object(inner))])))
    }

    fn method(&self) -> (r: HttpMethod) {
        HttpMethod::Post
    }

    fn endpoint(&self) -> (r: String) {
        let mut s = String::new();
        s.append("projects/");
        s.append(self.project_id_or_name.as_str());
        s.append("/memberships.json");
        assert(s@ =~= self.endpoint_spec());
        s
    }

    fn check_writable(&self) -> (r: bool) {
        true
    }

    fn parameters(&self) -> (r: QueryParams) {
        let mut p = QueryParams::new();
        p
    }

    fn body(&self) -> (r: Result<Option<RequestBody>, Error>) {
        let mut b = ObjectBuilder::new();
        b.insert_value("user_id", &self.user_id);
        b.insert_value("role_ids", &self.role_ids);
        let doc = single_member_object("membership", b.build());
        json_body(&doc)
    }
}

/// The endpoint to update an existing Redmine project membership (change roles)
#[derive(Debug, Clone)]
pub struct UpdateProjectMembership {
    /// id of the project membership to update
    pub id: u64,
    /// roles for the user to add to the project
    pub role_ids: Vec<u64>,
}

/// Builder for [`UpdateProjectMembership`].
#[derive(Debug, Clone)]
pub struct UpdateProjectMembershipBuilder {
    /// id of the project membership to update
    pub id: Option<u64>,
    /// roles for the user to add to the project
    pub role_ids: Option<Vec<u64>>,
}

impl UpdateProjectMembership {
    /// Create a builder for the endpoint.
    pub fn builder() -> (r: UpdateProjectMembershipBuilder)
        ensures
            r.id is None,
            r.role_ids is None,
    {
        UpdateProjectMembershipBuilder { id: None, role_ids: None }
    }
}

impl UpdateProjectMembershipBuilder {
    /// Sets `id`: id of the project membership to update
    pub fn id(self, value: u64) -> (r: UpdateProjectMembershipBuilder)
        ensures
            r.id == Some(value),
            r.role_ids == self.role_ids,
    {
        UpdateProjectMembershipBuilder { id: Some(value), role_ids: self.role_ids }
    }

    /// Sets `role_ids`: roles for the user to add to the project
    pub fn role_ids(self, value: Vec<u64>) -> (r: UpdateProjectMembershipBuilder)
        ensures
            r.role_ids == Some(value),
            r.id == self.id,
    {
        UpdateProjectMembershipBuilder { id: self.id, role_ids: Some(value) }
    }

    /// The first required field that has not been set, if any.
    pub open spec fn missing_field(&self) -> Option<Seq<char>> {
        if self.id is None {
            Some("id"@)
        } else if self.role_ids is None {
            Some("role_ids"@)
        } else {
            None
        }
    }

    /// Builds the endpoint; fails on the first required field that has not been set.
    pub fn build(self) -> (r: Result<UpdateProjectMembership, BuilderError>)
        ensures
            match r {
                Ok(x) => self.missing_field() is None && x == (UpdateProjectMembership { id: self.id->0, role_ids: self.role_ids->0 }),
                Err(BuilderError::UninitializedField(n)) => self.missing_field() == Some(n@),
                Err(_) => false,
            },
    {
        let id = match self.id {
            Some(v) => v,
            None => {
                return Err(BuilderError::UninitializedField("id"));
            },
        };
        let role_ids = match self.role_ids {
            Some(v) => v,
            None => {
                return Err(BuilderError::UninitializedField("role_ids"));
            },
        };
        Ok(UpdateProjectMembership { id, role_ids })
    }
}

impl Endpoint for UpdateProjectMembership {
    open spec fn method_spec(&self) -> HttpMethod {
        HttpMethod::Put
    }

    open spec fn endpoint_spec(&self) -> Seq<char> {
        "memberships/"@ + decimal(self.id as nat) + ".json"@
    }

    open spec fn parameters_spec(&self) -> Seq<(Seq<char>, Seq<char>)> {
        Seq::empty()
    }

    open spec fn body_spec(&self) -> Option<BodySpec> {
        let inner = {
            let m = Seq::<(Seq<char>, JsonView)>::empty();
            let m = m.push(("role_ids"@, self.role_ids.json()));
            m
        };
        Some(BodySpec::Json(JsonView::Object(seq![("membership"@, JsonView::Object(inner))])))
    }

    fn method(&self) -> (r: HttpMethod) {
        HttpMethod::Put
    }

    fn endpoint(&self) -> (r: String) {
        let mut s = String::new();
        s.append("memberships/");
        push_decimal(&mut s, self.id);
        s.append(".json");
        assert(s@ =~= self.endpoint_spec());
        s
    }

    fn check_writable(&self) -> (r: bool) {
        true
    }

    fn parameters(&self) -> (r: QueryParams) {
        let mut p = QueryParams::new();
        p
    }

    fn body(&self) -> (r: Result<Option<RequestBody>, Error>) {
        let mut b = ObjectBuilder::new();
        b.insert_value("role_ids", &self.role_ids);
        let doc = single_member_object("membership", b.build());
        json_body(&doc)
    }
}

/// The endpoint to delete a Redmine project membership
#[derive(Debug, Clone)]
pub struct DeleteProjectMembership {
    /// id of the project membership to delete
    pub id: u64,
}

/// Builder for [`DeleteProjectMembership`].
#[derive(Debug, Clone)]
pub struct DeleteProjectMembershipBuilder {
    /// id of the project membership to delete
    pub id: Option<u64>,
}

impl DeleteProjectMembership {
    /// Create a builder for the endpoint.
    pub fn builder() -> (r: DeleteProjectMembershipBuilder)
        ensures
            r.id is None,
    {
        DeleteProjectMembershipBuilder { id: None }
    }
}

impl DeleteProjectMembershipBuilder {
    /// Sets `id`: id of the project membership to delete
    pub fn id(self, value: u64) -> (r: DeleteProjectMembershipBuilder)
        ensures
            r.id == Some(value),
    {
        DeleteProjectMembershipBuilder { id: Some(value) }
    }

    /// The first required field that has not been set, if any.
    pub open spec fn missing_field(&self) -> Option<Seq<char>> {
        if self.id is None {
            Some("id"@)
        } else {
            None
        }
    }

    /// Builds the endpoint; fails on the first required field that has not been set.
    pub fn build(self) -> (r: Result<DeleteProjectMembership, BuilderError>)
        ensures
            match r {
                Ok(x) => self.missing_field() is None && x == (DeleteProjectMembership { id: self.id->0 }),
                Err(BuilderError::UninitializedField(n)) => self.missing_field() == Some(n@),
                Err(_) => false,
            },
    {
        let id = match self.id {
            Some(v) => v,
            None => {
                return Err(BuilderError::UninitializedField("id"));
            },
        };
        Ok(DeleteProjectMembership { id })
    }
}

impl Endpoint for DeleteProjectMembership {
    open spec fn method_spec(&self) -> HttpMethod {
        HttpMethod::Delete
    }

    open spec fn endpoint_spec(&self) -> Seq<char> {
        "memberships/"@ + decimal(self.id as nat) + ".json"@
    }

    open spec fn parameters_spec(&self) -> Seq<(Seq<char>, Seq<char>)> {
        Seq::empty()
    }

    open spec fn body_spec(&self) -> Option<BodySpec> {
        None
    }

    fn method(&self) -> (r: HttpMethod) {
        HttpMethod::Delete
    }

    fn endpoint(&self) -> (r: String) {
        let mut s = String::new();
        s.append("memberships/");
        push_decimal(&mut s, self.id);
        s.append(".json");
        assert(s@ =~= self.endpoint_spec());
        s
    }

    fn check_writable(&self) -> (r: bool) {
        true
    }

    fn parameters(&self) -> (r: QueryParams) {
        let mut p = QueryParams::new();
        p
    }

    fn body(&self) -> (r: Result<Option<RequestBody>, Error>) {
        Ok(None)
    }
}

/// The body of [`CreateProjectMembership`] holds, under `membership`, each attribute that is set
/// under its Redmine name, with the attribute's document as the value, and
/// nothing else.
pub proof fn lemma_create_project_membership_body_members(x: CreateProjectMembership)
    ensures
        wrapped_members(x.body_spec()).contains(("user_id"@, x.user_id.json())),
        wrapped_members(x.body_spec()).contains(("role_ids"@, x.role_ids.json())),
        wrapped_members(x.body_spec()).len() == 2,
{
    broadcast use crate::api::json::lemma_member_opt_contains, crate::api::json::lemma_member_opt_len,
        crate::api::json::lemma_member_nullable_contains, crate::api::json::lemma_member_nullable_len,
        crate::api::json::lemma_push_member_contains;
}

/// The body of [`UpdateProjectMembership`] holds, under `membership`, each attribute that is set
/// under its Redmine name, with the attribute's document as the value, and
/// nothing else.
pub proof fn lemma_update_project_membership_body_members(x: UpdateProjectMembership)
    ensures
        wrapped_members(x.body_spec()).contains(("role_ids"@, x.role_ids.json())),
        wrapped_members(x.body_spec()).len() == 1,
{
    broadcast use crate::api::json::lemma_member_opt_contains, crate::api::json::lemma_member_opt_len,
        crate::api::json::lemma_member_nullable_contains, crate::api::json::lemma_member_nullable_len,
        crate::api::json::lemma_push_member_contains;
}

/// The path of [`ListProjectMemberships`] names the project by its id or name, and two
/// requests share a path only when they name the same project.
pub proof fn lemma_list_project_memberships_path(x: ListProjectMemberships, y: ListProjectMemberships)
    ensures
        x.endpoint_spec() == "projects/"@ + x.project_id_or_name@ + "/memberships.json"@,
        x.endpoint_spec() == y.endpoint_spec() <==> x.project_id_or_name@ == y.project_id_or_name@,
{
    lemma_text_path_injective("projects/"@, "/memberships.json"@, x.project_id_or_name@, y.project_id_or_name@);
}

/// The path of [`GetProjectMembership`] names the object by the decimal of its id, and two
/// requests share a path only when they name the same id.
pub proof fn lemma_get_project_membership_path(x: GetProjectMembership, y: GetProjectMembership)
    ensures
        x.endpoint_spec() == "memberships/"@ + decimal(x.id as nat) + ".json"@,
        x.endpoint_spec() == y.endpoint_spec() <==> x.id == y.id,
{
    lemma_id_path_injective("memberships/"@, ".json"@, x.id as nat, y.id as nat);
}

/// The path of [`CreateProjectMembership`] names the project by its id or name, and two
/// requests share a path only when they name the same project.
pub proof fn lemma_create_project_membership_path(x: CreateProjectMembership, y: CreateProjectMembership)
    ensures
        x.endpoint_spec() == "projects/"@ + x.project_id_or_name@ + "/memberships.json"@,
        x.endpoint_spec() == y.endpoint_spec() <==> x.project_id_or_name@ == y.project_id_or_name@,
{
    lemma_text_path_injective("projects/"@, "/memberships.json"@, x.project_id_or_name@, y.project_id_or_name@);
}

/// The path of [`UpdateProjectMembership`] names the object by the decimal of its id, and two
/// requests share a path only when they name the same id.
pub proof fn lemma_update_project_membership_path(x: UpdateProjectMembership, y: UpdateProjectMembership)
    ensures
        x.endpoint_spec() == "memberships/"@ + decimal(x.id as nat) + ".json"@,
        x.endpoint_spec() == y.endpoint_spec() <==> x.id == y.id,
{
    lemma_id_path_injective("memberships/"@, ".json"@, x.id as nat, y.id as nat);
}

/// The path of [`DeleteProjectMembership`] names the object by the decimal of its id, and two
/// requests share a path only when they name the same id.
pub proof fn lemma_delete_project_membership_path(x: DeleteProjectMembership, y: DeleteProjectMembership)
    ensures
        x.endpoint_spec() == "memberships/"@ + decimal(x.id as nat) + ".json"@,
        x.endpoint_spec() == y.endpoint_spec() <==> x.id == y.id,
{
    lemma_id_path_injective("memberships/"@, ".json"@, x.id as nat, y.id as nat);
}

/// The requests of this module use the HTTP method that fits what they do:
/// `GET` to read, `POST` to create or add, `PUT` to change and `DELETE` to
/// remove.
pub proof fn lemma_project_memberships_methods(list_project_memberships: ListProjectMemberships, get_project_membership: GetProjectMembership, create_project_membership: CreateProjectMembership, update_project_membership: UpdateProjectMembership, delete_project_membership: DeleteProjectMembership)
    ensures
        list_project_memberships.method_spec() == HttpMethod::Get,
        get_project_membership.method_spec() == HttpMethod::Get,
        create_project_membership.method_spec() == HttpMethod::Post,
        update_project_membership.method_spec() == HttpMethod::Put,
        delete_project_membership.method_spec() == HttpMethod::Delete,
{
}

/// The requests of this module that address the same collection, or the
/// same object, use the same path: listing and creating share the
/// collection's path, and reading, changing and removing an object share
/// the object's path.
pub proof fn lemma_project_memberships_shared_paths(list_project_memberships: ListProjectMemberships, create_project_membership: CreateProjectMembership, get_project_membership: GetProjectMembership, update_project_membership: UpdateProjectMembership, delete_project_membership: DeleteProjectMembership)
    ensures
        list_project_memberships.project_id_or_name@ == create_project_membership.project_id_or_name@ ==> list_project_memberships.endpoint_spec() == create_project_membership.endpoint_spec(),
        get_project_membership.id == update_project_membership.id ==> get_project_membership.endpoint_spec() == update_project_membership.endpoint_spec(),
        get_project_membership.id == delete_project_membership.id ==> get_project_membership.endpoint_spec() == delete_project_membership.endpoint_spec(),
{
}

/// The page of [`ListProjectMemberships`] holds its values under the name of the
/// collection that ends the request's path.
pub proof fn lemma_list_project_memberships_wrapper_key(x: ListProjectMemberships)
    ensures
        x.endpoint_spec().len() >= x.wrapper_key_spec().len() + 5,
        x.endpoint_spec().subrange(x.endpoint_spec().len() - x.wrapper_key_spec().len() - 5, x.endpoint_spec().len() as int) == x.wrapper_key_spec() + ".json"@,
{
    reveal_strlit(".json");
    reveal_strlit("/memberships.json");
    reveal_strlit("memberships");
    reveal_strlit("projects/");
    assert(x.endpoint_spec().subrange(x.endpoint_spec().len() - x.wrapper_key_spec().len() - 5, x.endpoint_spec().len() as int) =~= x.wrapper_key_spec() + ".json"@);
}

} // verus!
