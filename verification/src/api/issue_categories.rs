//! Issue Categories Rest API Endpoint definitions
//!
//! [Redmine Documentation](https://www.redmine.org/projects/redmine/wiki/Rest_IssueCategories)
use vstd::prelude::*;
use vstd::string::StringExecFns;
use crate::Error;
use crate::api::endpoint::{
    BodySpec, BuilderError, Endpoint, HttpMethod, NoPagination, Pageable, RequestBody,
    ReturnsJsonResponse, json_body,
};
use crate::api::json::{
    JsonValue, JsonView, ObjectBuilder, ToJson, member_nullable, member_opt, single_member_object,
};
use crate::api::query::{ParamValue, QueryParams, opt_param_ok, push_opt_spec};
use crate::api::text::{decimal, push_decimal};

use crate::api::query::present;
use crate::api::bodies::wrapped_members;
use crate::api::text::{lemma_id_path_injective, lemma_text_path_injective};
verus! {

/// The endpoint for all issue categories in a Redmine project
#[derive(Debug, Clone)]
pub struct ListIssueCategories {
    /// the project id or name as it appears in the URL
    pub project_id_or_name: String,
}

/// Builder for [`ListIssueCategories`].
#[derive(Debug, Clone)]
pub struct ListIssueCategoriesBuilder {
    /// the project id or name as it appears in the URL
    pub project_id_or_name: Option<String>,
}

impl ListIssueCategories {
    /// Create a builder for the endpoint.
    pub fn builder() -> (r: ListIssueCategoriesBuilder)
        ensures
            r.project_id_or_name is None,
    {
        ListIssueCategoriesBuilder { project_id_or_name: None }
    }
}

impl ListIssueCategoriesBuilder {
    /// Sets `project_id_or_name`: the project id or name as it appears in the URL
    pub fn project_id_or_name(self, value: &str) -> (r: ListIssueCategoriesBuilder)
        ensures
            r.project_id_or_name matches Some(s) && s@ == value@,
    {
        ListIssueCategoriesBuilder { project_id_or_name: Some(String::from_str(value)) }
    }

    /// The first required field that has not been set, if any.
    pub open spec fn missing_field(&self) -> Option<Seq<char>> {
        if self.project_id_or_name is None {
            Some("project_id_or_name"@)
        } else {
            None
        }
    }

    /// Builds the endpoint; fails on the first required field that has not been set.
    pub fn build(self) -> (r: Result<ListIssueCategories, BuilderError>)
        ensures
            match r {
                Ok(x) => self.missing_field() is None && x == (ListIssueCategories { project_id_or_name: self.project_id_or_name->0 }),
                Err(BuilderError::UninitializedField(n)) => self.missing_field() == Some(n@),
                Err(_) => false,
            },
    {
        let project_id_or_name = match self.project_id_or_name {
            Some(v) => v,
            None => {
                return Err(BuilderError::UninitializedField("project_id_or_name"));
            },
        };
        Ok(ListIssueCategories { project_id_or_name })
    }
}

impl ReturnsJsonResponse for ListIssueCategories {}

impl NoPagination for ListIssueCategories {}

impl Endpoint for ListIssueCategories {
    open spec fn method_spec(&self) -> HttpMethod {
        HttpMethod::Get
    }

    open spec fn endpoint_spec(&self) -> Seq<char> {
        "projects/"@ + self.project_id_or_name@ + "/issue_categories.json"@
    }

    open spec fn parameters_spec(&self) -> Seq<(Seq<char>, Seq<char>)> {
        Seq::empty()
    }

    open spec fn body_spec(&self) -> Option<BodySpec> {
        None
    }

    fn method(&self) -> (r: HttpMethod) {
        HttpMethod::Get
    }

    fn endpoint(&self) -> (r: String) {
        let mut s = String::new();
        s.append("projects/");
        s.append(self.project_id_or_name.as_str());
        s.append("/issue_categories.json");
        assert(s@ =~= self.endpoint_spec());
        s
    }

    fn check_writable(&self) -> (r: bool) {
        true
    }

    fn parameters(&self) -> (r: QueryParams) {
        let mut p = QueryParams::new();
        p
    }

    fn body(&self) -> (r: Result<Option<RequestBody>, Error>) {
        Ok(None)
    }
}

/// The endpoint for a specific issue category
#[derive(Debug, Clone)]
pub struct GetIssueCategory {
    /// id of the issue category to retrieve
    pub id: u64,
}

/// Builder for [`GetIssueCategory`].
#[derive(Debug, Clone)]
pub struct GetIssueCategoryBuilder {
    /// id of the issue category to retrieve
    pub id: Option<u64>,
}

impl GetIssueCategory {
    /// Create a builder for the endpoint.
    pub fn builder() -> (r: GetIssueCategoryBuilder)
        ensures
            r.id is None,
    {
        GetIssueCategoryBuilder { id: None }
    }
}

impl GetIssueCategoryBuilder {
    /// Sets `id`: id of the issue category to retrieve
    pub fn id(self, value: u64) -> (r: GetIssueCategoryBuilder)
        ensures
            r.id == Some(value),
    {
        GetIssueCategoryBuilder { id: Some(value) }
    }

    /// The first required field that has not been set, if any.
    pub open spec fn missing_field(&self) -> Option<Seq<char>> {
        if self.id is None {
            Some("id"@)
        } else {
            None
        }
    }

    /// Builds the endpoint; fails on the first required field that has not been set.
    pub fn build(self) -> (r: Result<GetIssueCategory, BuilderError>)
        ensures
            match r {
                Ok(x) => self.missing_field() is None && x == (GetIssueCategory { id: self.id->0 }),
                Err(BuilderError::UninitializedField(n)) => self.missing_field() == Some(n@),
                Err(_) => false,
            },
    {
        let id = match self.id {
            Some(v) => v,
            None => {
                return Err(BuilderError::UninitializedField("id"));
            },
        };
        Ok(GetIssueCategory { id })
    }
}

impl ReturnsJsonResponse for GetIssueCategory {}

impl NoPagination for GetIssueCategory {}

impl Endpoint for GetIssueCategory {
    open spec fn method_spec(&self) -> HttpMethod {
        HttpMethod::Get
    }

    open spec fn endpoint_spec(&self) -> Seq<char> {
        "issue_categories/"@ + decimal(self.id as nat) + ".json"@
    }

    open spec fn parameters_spec(&self) -> Seq<(Seq<char>, Seq<char>)> {
        Seq::empty()
    }

    open spec fn body_spec(&self) -> Option<BodySpec> {
        None
    }

    fn method(&self) -> (r: HttpMethod) {
        HttpMethod::Get
    }

    fn endpoint(&self) -> (r: String) {
        let mut s = String::new();
        s.append("issue_categories/");
        push_decimal(&mut s, self.id);
        s.append(".json");
        assert(s@ =~= self.endpoint_spec());
        s
    }

    fn check_writable(&self) -> (r: bool) {
        true
    }

    fn parameters(&self) -> (r: QueryParams) {
        let mut p = QueryParams::new();
        p
    }

    fn body(&self) -> (r: Result<Option<RequestBody>, Error>) {
        Ok(None)
    }
}

/// The endpoint to create a Redmine issue category
#[derive(Debug, Clone)]
pub struct CreateIssueCategory {
    /// the project id or name as it appears in the URL
    pub project_id_or_name: String,
    /// the name of the new issue category
    pub name: String,
    /// issues in this category are assigned to this user by default
    pub assigned_to_id: Option<u64>,
}

/// Builder for [`CreateIssueCategory`].
#[derive(Debug, Clone)]
pub struct CreateIssueCategoryBuilder {
    /// the project id or name as it appears in the URL
    pub project_id_or_name: Option<String>,
    /// the name of the new issue category
    pub name: Option<String>,
    /// issues in this category are assigned to this user by default
    pub assigned_to_id: Option<u64>,
}

impl CreateIssueCategory {
    /// Create a builder for the endpoint.
    pub fn builder() -> (r: CreateIssueCategoryBuilder)
        ensures
            r.project_id_or_name is None,
            r.name is None,
            r.assigned_to_id is None,
    {
        CreateIssueCategoryBuilder { project_id_or_name: None, name: None, assigned_to_id: None }
    }
}

impl CreateIssueCategoryBuilder {
    /// Sets `project_id_or_name`: the project id or name as it appears in the URL
    pub fn project_id_or_name(self, value: &str) -> (r: CreateIssueCategoryBuilder)
        ensures
            r.project_id_or_name matches Some(s) && s@ == value@,
            r.name == self.name,
            r.assigned_to_id == self.assigned_to_id,
    {
        CreateIssueCategoryBuilder { project_id_or_name: Some(String::from_str(value)), name: self.name, assigned_to_id: self.assigned_to_id }
    }

    /// Sets `name`: the name of the new issue category
    pub fn name(self, value: &str) -> (r: CreateIssueCategoryBuilder)
        ensures
            r.name matches Some(s) && s@ == value@,
            r.project_id_or_name == self.project_id_or_name,
            r.assigned_to_id == self.assigned_to_id,
    {
        CreateIssueCategoryBuilder { project_id_or_name: self.project_id_or_name, name: Some(String::from_str(value)), assigned_to_id: self.assigned_to_id }
    }

    /// Sets `assigned_to_id`: issues in this category are assigned to this user by default
    pub fn assigned_to_id(self, value: u64) -> (r: CreateIssueCategoryBuilder)
        ensures
            r.assigned_to_id == Some(value),
            r.project_id_or_name == self.project_id_or_name,
            r.name == self.name,
    {
        CreateIssueCategoryBuilder { project_id_or_name: self.project_id_or_name, name: self.name, assigned_to_id: Some(value) }
    }

    /// The first required field that has not been set, if any.
    pub open spec fn missing_field(&self) -> Option<Seq<char>> {
        if self.project_id_or_name is None {
            Some("project_id_or_name"@)
        } else if self.name is None {
            Some("name"@)
        } else {
            None
        }
    }

    /// Builds the endpoint; fails on the first required field that has not been set.
    pub fn build(self) -> (r: Result<CreateIssueCategory, BuilderError>)
        ensures
            match r {
                Ok(x) => self.missing_field() is None && x == (CreateIssueCategory { project_id_or_name: self.project_id_or_name->0, name: self.name->0, assigned_to_id: self.assigned_to_id }),
                Err(BuilderError::UninitializedField(n)) => self.missing_field() == Some(n@),
                Err(_) => false,
            },
    {
        let project_id_or_name = match self.project_id_or_name {
            Some(v) => v,
            None => {
                return Err(BuilderError::UninitializedField("project_id_or_name"));
            },
        };
        let name = match self.name {
            Some(v) => v,
            None => {
                return Err(BuilderError::UninitializedField("name"));
            },
        };
        Ok(CreateIssueCategory { project_id_or_name, name, assigned_to_id: self.assigned_to_id })
    }
}

impl ReturnsJsonResponse for CreateIssueCategory {}

impl NoPagination for CreateIssueCategory {}

impl Endpoint for CreateIssueCategory {
    open spec fn method_spec(&self) -> HttpMethod {
        HttpMethod::Post
    }

    open spec fn endpoint_spec(&self) -> Seq<char> {
        "projects/"@ + self.project_id_or_name@ + "/issue_categories.json"@
    }

    open spec fn parameters_spec(&self) -> Seq<(Seq<char>, Seq<char>)> {
        Seq::empty()
    }

    open spec fn body_spec(&self) -> Option<BodySpec> {
        let inner = {
            let m = Seq::<(Seq<char>, JsonView)>::empty();
            let m = m.push(("name"@, self.name.json()));
            let m = member_opt(m, "assigned_to_id"@, self.assigned_to_id);
            m
        };
        Some(BodySpec::Json(JsonView::Object(seq![("issue_category"@, JsonView::Object(inner))])))
    }

    fn method(&self) -> (r: HttpMethod) {
        HttpMethod::Post
    }

    fn endpoint(&self) -> (r: String) {
        let mut s = String::new();
        s.append("projects/");
        s.append(self.project_id_or_name.as_str());
        s.append("/issue_categories.json");
        assert(s@ =~= self.endpoint_spec());
        s
    }

    fn check_writable(&self) -> (r: bool) {
        true
    }

    fn parameters(&self) -> (r: QueryParams) {
        let mut p = QueryParams::new();
        p
    }

    fn body(&self) -> (r: Result<Option<RequestBody>, Error>) {
        let mut b = ObjectBuilder::new();
        b.insert_value("name", &self.name);
        b.insert_opt("assigned_to_id", &self.assigned_to_id);
        let doc = single_member_object("issue_category", b.build());
        json_body(&doc)
    }
}

/// The endpoint to update an existing Redmine issue category
#[derive(Debug, Clone)]
pub struct UpdateIssueCategory {
    /// id of the issue category to update
    pub id: u64,
    /// the name of the issue category
    pub name: Option<String>,
    /// issues in this category are assigned to this user by default
    pub assigned_to_id: Option<u64>,
}

/// Builder for [`UpdateIssueCategory`].
#[derive(Debug, Clone)]
pub struct UpdateIssueCategoryBuilder {
    /// id of the issue category to update
    pub id: Option<u64>,
    /// the name of the issue category
    pub name: Option<String>,
    /// issues in this category are assigned to this user by default
    pub assigned_to_id: Option<u64>,
}

impl UpdateIssueCategory {
    /// Create a builder for the endpoint.
    pub fn builder() -> (r: UpdateIssueCategoryBuilder)
        ensures
            r.id is None,
            r.name is None,
            r.assigned_to_id is None,
    {
        UpdateIssueCategoryBuilder { id: None, name: None, assigned_to_id: None }
    }
}

impl UpdateIssueCategoryBuilder {
    /// Sets `id`: id of the issue category to update
    pub fn id(self, value: u64) -> (r: UpdateIssueCategoryBuilder)
        ensures
            r.id == Some(value),
            r.name == self.name,
            r.assigned_to_id == self.assigned_to_id,
    {
        UpdateIssueCategoryBuilder { id: Some(value), name: self.name, assigned_to_id: self.assigned_to_id }
    }

    /// Sets `name`: the name of the issue category
    pub fn name(self, value: &str) -> (r: UpdateIssueCategoryBuilder)
        ensures
            r.name matches Some(s) && s@ == value@,
            r.id == self.id,
            r.assigned_to_id == self.assigned_to_id,
    {
        UpdateIssueCategoryBuilder { id: self.id, name: Some(String::from_str(value)), assigned_to_id: self.assigned_to_id }
    }

    /// Sets `assigned_to_id`: issues in this category are assigned to this user by default
    pub fn assigned_to_id(self, value: u64) -> (r: UpdateIssueCategoryBuilder)
        ensures
            r.assigned_to_id == Some(value),
            r.id == self.id,
            r.name == self.name,
    {
        UpdateIssueCategoryBuilder { id: self.id, name: self.name, assigned_to_id: Some(value) }
    }

    /// The first required field that has not been set, if any.
    pub open spec fn missing_field(&self) -> Option<Seq<char>> {
        if self.id is None {
            Some("id"@)
        } else {
            None
        }
    }

    /// Builds the endpoint; fails on the first required field that has not been set.
    pub fn build(self) -> (r: Result<UpdateIssueCategory, BuilderError>)
        ensures
            match r {
                Ok(x) => self.missing_field() is None && x == (UpdateIssueCategory { id: self.id->0, name: self.name, assigned_to_id: self.assigned_to_id }),
                Err(BuilderError::UninitializedField(n)) => self.missing_field() == Some(n@),
                Err(_) => false,
            },
    {
        let id = match self.id {
            Some(v) => v,
            None => {
                return Err(BuilderError::UninitializedField("id"));
            },
        };
        Ok(UpdateIssueCategory { id, name: self.name, assigned_to_id: self.assigned_to_id })
    }
}

impl Endpoint for UpdateIssueCategory {
    open spec fn method_spec(&self) -> HttpMethod {
        HttpMethod::Put
    }

    open spec fn endpoint_spec(&self) -> Seq<char> {
        "issue_categories/"@ + decimal(self.id as nat) + ".json"@
    }

    open spec fn parameters_spec(&self) -> Seq<(Seq<char>, Seq<char>)> {
        Seq::empty()
    }

    open spec fn body_spec(&self) -> Option<BodySpec> {
        let inner = {
            let m = Seq::<(Seq<char>, JsonView)>::empty();
            let m = member_opt(m, "name"@, self.name);
            let m = member_opt(m, "assigned_to_id"@, self.assigned_to_id);
            m
        };
        Some(BodySpec::Json(JsonView::Object(seq![("issue_category"@, JsonView::Object(inner))])))
    }

    fn method(&self) -> (r: HttpMethod) {
        HttpMethod::Put
    }

    fn endpoint(&self) -> (r: String) {
        let mut s = String::new();
        s.append("issue_categories/");
        push_decimal(&mut s, self.id);
        s.append(".json");
        assert(s@ =~= self.endpoint_spec());
        s
    }

    fn check_writable(&self) -> (r: bool) {
        true
    }

    fn parameters(&self) -> (r: QueryParams) {
        let mut p = QueryParams::new();
        p
    }

    fn body(&self) -> (r: Result<Option<RequestBody>, Error>) {
        let mut b = ObjectBuilder::new();
        b.insert_opt("name", &self.name);
        b.insert_opt("assigned_to_id", &self.assigned_to_id);
        let doc = single_member_object("issue_category", b.build());
        json_body(&doc)
    }
}

/// The endpoint to delete a Redmine issue category
#[derive(Debug, Clone)]
pub struct DeleteIssueCategory {
    /// id of the issue category to delete
    pub id: u64,
}

/// Builder for [`DeleteIssueCategory`].
#[derive(Debug, Clone)]
pub struct DeleteIssueCategoryBuilder {
    /// id of the issue category to delete
    pub id: Option<u64>,
}

impl DeleteIssueCategory {
    /// Create a builder for the endpoint.
    pub fn builder() -> (r: DeleteIssueCategoryBuilder)
        ensures
            r.id is None,
    {
        DeleteIssueCategoryBuilder { id: None }
    }
}

impl DeleteIssueCategoryBuilder {
    /// Sets `id`: id of the issue category to delete
    pub fn id(self, value: u64) -> (r: DeleteIssueCategoryBuilder)
        ensures
            r.id == Some(value),
    {
        DeleteIssueCategoryBuilder { id: Some(value) }
    }

    /// The first required field that has not been set, if any.
    pub open spec fn missing_field(&self) -> Option<Seq<char>> {
        if self.id is None {
            Some("id"@)
        } else {
            None
        }
    }

    /// Builds the endpoint; fails on the first required field that has not been set.
    pub fn build(self) -> (r: Result<DeleteIssueCategory, BuilderError>)
        ensures
            match r {
                Ok(x) => self.missing_field() is None && x == (DeleteIssueCategory { id: self.id->0 }),
                Err(BuilderError::UninitializedField(n)) => self.missing_field() == Some(n@),
                Err(_) => false,
            },
    {
        let id = match self.id {
            Some(v) => v,
            None => {
                return Err(BuilderError::UninitializedField("id"));
            },
        };
        Ok(DeleteIssueCategory { id })
    }
}

impl Endpoint for DeleteIssueCategory {
    open spec fn method_spec(&self) -> HttpMethod {
        HttpMethod::Delete
    }

    open spec fn endpoint_spec(&self) -> Seq<char> {
        "issue_categories/"@ + decimal(self.id as nat) + ".json"@
    }

    open spec fn parameters_spec(&self) -> Seq<(Seq<char>, Seq<char>)> {
        Seq::empty()
    }

    open spec fn body_spec(&self) -> Option<BodySpec> {
        None
    }

    fn method(&self) -> (r: HttpMethod) {
        HttpMethod::Delete
    }

    fn endpoint(&self) -> (r: String) {
        let mut s = String::new();
        s.append("issue_categories/");
        push_decimal(&mut s, self.id);
        s.append(".json");
        assert(s@ =~= self.endpoint_spec());
        s
    }

    fn check_writable(&self) -> (r: bool) {
        true
    }

    fn parameters(&self) -> (r: QueryParams) {
        let mut p = QueryParams::new();
        p
    }

    fn body(&self) -> (r: Result<Option<RequestBody>, Error>) {
        Ok(None)
    }
}

/// The body of [`CreateIssueCategory`] holds, under `issue_category`, each attribute that is set
/// under its Redmine name, with the attribute's document as the value, and
/// nothing else.
pub proof fn lemma_create_issue_category_body_members(x: CreateIssueCategory)
    ensures
        wrapped_members(x.body_spec()).contains(("name"@, x.name.json())),
        x.assigned_to_id matches Some(v) ==> wrapped_members(x.body_spec()).contains(("assigned_to_id"@, v.json())),
        wrapped_members(x.body_spec()).len() == 1 + present(x.assigned_to_id),
{
    broadcast use crate::api::json::lemma_member_opt_contains, crate::api::json::lemma_member_opt_len,
        crate::api::json::lemma_member_nullable_contains, crate::api::json::lemma_member_nullable_len,
        crate::api::json::lemma_push_member_contains;
}

/// The body of [`UpdateIssueCategory`] holds, under `issue_category`, each attribute that is set
/// under its Redmine name, with the attribute's document as the value, and
/// nothing else.
pub proof fn lemma_update_issue_category_body_members(x: UpdateIssueCategory)
    ensures
        x.name matches Some(v) ==> wrapped_members(x.body_spec()).contains(("name"@, v.json())),
        x.assigned_to_id matches Some(v) ==> wrapped_members(x.body_spec()).contains(("assigned_to_id"@, v.json())),
        wrapped_members(x.body_spec()).len() == 0 + present(x.name) + present(x.assigned_to_id),
{
    broadcast use crate::api::json::lemma_member_opt_contains, crate::api::json::lemma_member_opt_len,
        crate::api::json::lemma_member_nullable_contains, crate::api::json::lemma_member_nullable_len,
        crate::api::json::lemma_push_member_contains;
}

/// The path of [`ListIssueCategories`] names the project by its id or name, and two
/// requests share a path only when they name the same project.
pub proof fn lemma_list_issue_categories_path(x: ListIssueCategories, y: ListIssueCategories)
    ensures
        x.endpoint_spec() == "projects/"@ + x.project_id_or_name@ + "/issue_categories.json"@,
        x.endpoint_spec() == y.endpoint_spec() <==> x.project_id_or_name@ == y.project_id_or_name@,
{
    lemma_text_path_injective("projects/"@, "/issue_categories.json"@, x.project_id_or_name@, y.project_id_or_name@);
}

/// The path of [`GetIssueCategory`] names the object by the decimal of its id, and two
/// requests share a path only when they name the same id.
pub proof fn lemma_get_issue_category_path(x: GetIssueCategory, y: GetIssueCategory)
    ensures
        x.endpoint_spec() == "issue_categories/"@ + decimal(x.id as nat) + ".json"@,
        x.endpoint_spec() == y.endpoint_spec() <==> x.id == y.id,
{
    lemma_id_path_injective("issue_categories/"@, ".json"@, x.id as nat, y.id as nat);
}

/// The path of [`CreateIssueCategory`] names the project by its id or name, and two
/// requests share a path only when they name the same project.
pub proof fn lemma_create_issue_category_path(x: CreateIssueCategory, y: CreateIssueCategory)
    ensures
        x.endpoint_spec() == "projects/"@ + x.project_id_or_name@ + "/issue_categories.json"@,
        x.endpoint_spec() == y.endpoint_spec() <==> x.project_id_or_name@ == y.project_id_or_name@,
{
    lemma_text_path_injective("projects/"@, "/issue_categories.json"@, x.project_id_or_name@, y.project_id_or_name@);
}

/// The path of [`UpdateIssueCategory`] names the object by the decimal of its id, and two
/// requests share a path only when they name the same id.
pub proof fn lemma_update_issue_category_path(x: UpdateIssueCategory, y: UpdateIssueCategory)
    ensures
        x.endpoint_spec() == "issue_categories/"@ + decimal(x.id as nat) + ".json"@,
        x.endpoint_spec() == y.endpoint_spec() <==> x.id == y.id,
{
    lemma_id_path_injective("issue_categories/"@, ".json"@, x.id as nat, y.id as nat);
}

/// The path of [`DeleteIssueCategory`] names the object by the decimal of its id, and two
/// requests share a path only when they name the same id.
pub proof fn lemma_delete_issue_category_path(x: DeleteIssueCategory, y: DeleteIssueCategory)
    ensures
        x.endpoint_spec() == "issue_categories/"@ + decimal(x.id as nat) + ".json"@,
        x.endpoint_spec() == y.endpoint_spec() <==> x.id == y.id,
{
    lemma_id_path_injective("issue_categories/"@, ".json"@, x.id as nat, y.id as nat);
}

/// The requests of this module use the HTTP method that fits what they do:
/// `GET` to read, `POST` to create or add, `PUT` to change and `DELETE` to
/// remove.
pub proof fn lemma_issue_categories_methods(list_issue_categories: ListIssueCategories, get_issue_category: GetIssueCategory, create_issue_category: CreateIssueCategory, update_issue_category: UpdateIssueCategory, delete_issue_category: DeleteIssueCategory)
    ensures
        list_issue_categories.method_spec() == HttpMethod::Get,
        get_issue_category.method_spec() == HttpMethod::Get,
        create_issue_category.method_spec() == HttpMethod::Post,
        update_issue_category.method_spec() == HttpMethod::Put,
        delete_issue_category.method_spec() == HttpMethod::Delete,
{
}

/// The requests of this module that address the same collection, or the
/// same object, use the same path: listing and creating share the
/// collection's path, and reading, changing and removing an object share
/// the object's path.
pub proof fn lemma_issue_categories_shared_paths(list_issue_categories: ListIssueCategories, create_issue_category: CreateIssueCategory, get_issue_category: GetIssueCategory, update_issue_category: UpdateIssueCategory, delete_issue_category: DeleteIssueCategory)
    ensures
        list_issue_categories.project_id_or_name@ == create_issue_category.project_id_or_name@ ==> list_issue_categories.endpoint_spec() == create_issue_category.endpoint_spec(),
        get_issue_category.id == update_issue_category.id ==> get_issue_category.endpoint_spec() == update_issue_category.endpoint_spec(),
        get_issue_category.id == delete_issue_category.id ==> get_issue_category.endpoint_spec() == delete_issue_category.endpoint_spec(),
{
}

} // verus!
