//! News Rest API Endpoint definitions
//!
//! [Redmine Documentation](https://www.redmine.org/projects/redmine/wiki/Rest_News)
use vstd::prelude::*;
use vstd::string::StringExecFns;
use crate::Error;
use crate::api::endpoint::{
    BodySpec, BuilderError, Endpoint, HttpMethod, NoPagination, Pageable, RequestBody,
    ReturnsJsonResponse, json_body,
};
use crate::api::json::{
    JsonValue, JsonView, ObjectBuilder, ToJson, member_nullable, member_opt, single_member_object,
};
use crate::api::query::{ParamValue, QueryParams, opt_param_ok, push_opt_spec};
use crate::api::text::{decimal, push_decimal};

use crate::api::query::present;
use crate::api::bodies::wrapped_members;
use crate::api::text::{lemma_id_path_injective, lemma_text_path_injective};
verus! {

/// The endpoint for all Redmine news
#[derive(Debug, Clone)]
pub struct ListNews {
}

/// Builder for [`ListNews`].
#[derive(Debug, Clone)]
pub struct ListNewsBuilder {
}

impl ListNews {
    /// Create a builder for the endpoint.
    pub fn builder() -> (r: ListNewsBuilder)
        ensures
    {
        ListNewsBuilder {}
    }
}

impl ListNewsBuilder {
    /// The first required field that has not been set, if any.
    pub open spec fn missing_field(&self) -> Option<Seq<char>> {
        None
    }

    /// Builds the endpoint; fails on the first required field that has not been set.
    pub fn build(self) -> (r: Result<ListNews, BuilderError>)
        ensures
            match r {
                Ok(x) => self.missing_field() is None && x == (ListNews {  }),
                Err(BuilderError::UninitializedField(n)) => self.missing_field() == Some(n@),
                Err(_) => false,
            },
    {
        Ok(ListNews {})
    }
}

impl ReturnsJsonResponse for ListNews {}

impl Pageable for ListNews {
    open spec fn wrapper_key_spec(&self) -> Seq<char> {
        "news"@
    }

    fn response_wrapper_key(&self) -> (r: String) {
        String::from_str("news")
    }
}

impl Endpoint for ListNews {
    open spec fn method_spec(&self) -> HttpMethod {
        HttpMethod::Get
    }

    open spec fn endpoint_spec(&self) -> Seq<char> {
        "news.json"@
    }

    open spec fn parameters_spec(&self) -> Seq<(Seq<char>, Seq<char>)> {
        Seq::empty()
    }

    open spec fn body_spec(&self) -> Option<BodySpec> {
        None
    }

    fn method(&self) -> (r: HttpMethod) {
        HttpMethod::Get
    }

    fn endpoint(&self) -> (r: String) {
        String::from_str("news.json")
    }

    fn check_writable(&self) -> (r: bool) {
        true
    }

    fn parameters(&self) -> (r: QueryParams) {
        let mut p = QueryParams::new();
        p
    }

    fn body(&self) -> (r: Result<Option<RequestBody>, Error>) {
        Ok(None)
    }
}

/// The endpoint for all news in a Redmine project
#[derive(Debug, Clone)]
pub struct ListProjectNews {
    /// the project id or name as it appears in the URL
    pub project_id_or_name: String,
}

/// Builder for [`ListProjectNews`].
#[derive(Debug, Clone)]
pub struct ListProjectNewsBuilder {
    /// the project id or name as it appears in the URL
    pub project_id_or_name: Option<String>,
}

impl ListProjectNews {
    /// Create a builder for the endpoint.
    pub fn builder() -> (r: ListProjectNewsBuilder)
        ensures
            r.project_id_or_name is None,
    {
        ListProjectNewsBuilder { project_id_or_name: None }
    }
}

impl ListProjectNewsBuilder {
    /// Sets `project_id_or_name`: the project id or name as it appears in the URL
    pub fn project_id_or_name(self, value: &str) -> (r: ListProjectNewsBuilder)
        ensures
            r.project_id_or_name matches Some(s) && s@ == value@,
    {
        ListProjectNewsBuilder { project_id_or_name: Some(String::from_str(value)) }
    }

    /// The first required field that has not been set, if any.
    pub open spec fn missing_field(&self) -> Option<Seq<char>> {
        if self.project_id_or_name is None {
            Some("project_id_or_name"@)
        } else {
            None
        }
    }

    /// Builds the endpoint; fails on the first required field that has not been set.
    pub fn build(self) -> (r: Result<ListProjectNews, BuilderError>)
        ensures
            match r {
                Ok(x) => self.missing_field() is None && x == (ListProjectNews { project_id_or_name: self.project_id_or_name->0 }),
                Err(BuilderError::UninitializedField(n)) => self.missing_field() == Some(n@),
                Err(_) => false,
            },
    {
        let project_id_or_name = match self.project_id_or_name {
            Some(v) => v,
            None => {
                return Err(BuilderError::UninitializedField("project_id_or_name"));
            },
        };
        Ok(ListProjectNews { project_id_or_name })
    }
}

impl ReturnsJsonResponse for ListProjectNews {}

impl Pageable for ListProjectNews {
    open spec fn wrapper_key_spec(&self) -> Seq<char> {
        "news"@
    }

    fn response_wrapper_key(&self) -> (r: String) {
        String::from_str("news")
    }
}

impl Endpoint for ListProjectNews {
    open spec fn method_spec(&self) -> HttpMethod {
        HttpMethod::Get
    }

    open spec fn endpoint_spec(&self) -> Seq<char> {
        "projects/"@ + self.project_id_or_name@ + "/news.json"@
    }

    open spec fn parameters_spec(&self) -> Seq<(Seq<char>, Seq<char>)> {
        Seq::empty()
    }

    open spec fn body_spec(&self) -> Option<BodySpec> {
        None
    }

    fn method(&self) -> (r: HttpMethod) {
        HttpMethod::Get
    }

    fn endpoint(&self) -> (r: String) {
        let mut s = String::new();
        s.append("projects/");
        s.append(self.project_id_or_name.as_str());
        s.append("/news.json");
        assert(s@ =~= self.endpoint_spec());
        s
    }

    fn check_writable(&self) -> (r: bool) {
        true
    }

    fn parameters(&self) -> (r: QueryParams) {
        let mut p = QueryParams::new();
        p
    }

    fn body(&self) -> (r: Result<Option<RequestBody>, Error>) {
        Ok(None)
    }
}

/// The endpoint for a specific Redmine news item
#[derive(Debug, Clone)]
pub struct GetNews {
    /// the id of the news item to retrieve
    pub id: u64,
}

/// Builder for [`GetNews`].
#[derive(Debug, Clone)]
pub struct GetNewsBuilder {
    /// the id of the news item to retrieve
    pub id: Option<u64>,
}

impl GetNews {
    /// Create a builder for the endpoint.
    pub fn builder() -> (r: GetNewsBuilder)
        ensures
            r.id is None,
    {
        GetNewsBuilder { id: None }
    }
}

impl GetNewsBuilder {
    /// Sets `id`: the id of the news item to retrieve
    pub fn id(self, value: u64) -> (r: GetNewsBuilder)
        ensures
            r.id == Some(value),
    {
        GetNewsBuilder { id: Some(value) }
    }

    /// The first required field that has not been set, if any.
    pub open spec fn missing_field(&self) -> Option<Seq<char>> {
        if self.id is None {
            Some("id"@)
        } else {
            None
        }
    }

    /// Builds the endpoint; fails on the first required field that has not been set.
    pub fn build(self) -> (r: Result<GetNews, BuilderError>)
        ensures
            match r {
                Ok(x) => self.missing_field() is None && x == (GetNews { id: self.id->0 }),
                Err(BuilderError::UninitializedField(n)) => self.missing_field() == Some(n@),
                Err(_) => false,
            },
    {
        let id = match self.id {
            Some(v) => v,
            None => {
                return Err(BuilderError::UninitializedField("id"));
            },
        };
        Ok(GetNews { id })
    }
}

impl ReturnsJsonResponse for GetNews {}

impl NoPagination for GetNews {}

impl Endpoint for GetNews {
    open spec fn method_spec(&self) -> HttpMethod {
        HttpMethod::Get
    }

    open spec fn endpoint_spec(&self) -> Seq<char> {
        "news/"@ + decimal(self.id as nat) + ".json"@
    }

    open spec fn parameters_spec(&self) -> Seq<(Seq<char>, Seq<char>)> {
        Seq::empty()
    }

    open spec fn body_spec(&self) -> Option<BodySpec> {
        None
    }

    fn method(&self) -> (r: HttpMethod) {
        HttpMethod::Get
    }

    fn endpoint(&self) -> (r: String) {
        let mut s = String::new();
        s.append("news/");
        push_decimal(&mut s, self.id);
        s.append(".json");
        assert(s@ =~= self.endpoint_spec());
        s
    }

    fn check_writable(&self) -> (r: bool) {
        true
    }

    fn parameters(&self) -> (r: QueryParams) {
        let mut p = QueryParams::new();
        p
    }

    fn body(&self) -> (r: Result<Option<RequestBody>, Error>) {
        Ok(None)
    }
}

/// The endpoint to create a Redmine news item
#[derive(Debug, Clone)]
pub struct CreateNews {
    /// the project id or name as it appears in the URL
    pub project_id_or_name: String,
    /// the title of the news item
    pub title: String,
    /// the summary of the news item
    pub summary: Option<String>,
    /// the description of the news item
    pub description: String,
}

/// Builder for [`CreateNews`].
#[derive(Debug, Clone)]
pub struct CreateNewsBuilder {
    /// the project id or name as it appears in the URL
    pub project_id_or_name: Option<String>,
    /// the title of the news item
    pub title: Option<String>,
    /// the summary of the news item
    pub summary: Option<String>,
    /// the description of the news item
    pub description: Option<String>,
}

impl CreateNews {
    /// Create a builder for the endpoint.
    pub fn builder() -> (r: CreateNewsBuilder)
        ensures
            r.project_id_or_name is None,
            r.title is None,
            r.summary is None,
            r.description is None,
    {
        CreateNewsBuilder { project_id_or_name: None, title: None, summary: None, description: None }
    }
}

impl CreateNewsBuilder {
    /// Sets `project_id_or_name`: the project id or name as it appears in the URL
    pub fn project_id_or_name(self, value: &str) -> (r: CreateNewsBuilder)
        ensures
            r.project_id_or_name matches Some(s) && s@ == value@,
            r.title == self.title,
            r.summary == self.summary,
            r.description == self.description,
    {
        CreateNewsBuilder { project_id_or_name: Some(String::from_str(value)), title: self.title, summary: self.summary, description: self.description }
    }

    /// Sets `title`: the title of the news item
    pub fn title(self, value: &str) -> (r: CreateNewsBuilder)
        ensures
            r.title matches Some(s) && s@ == value@,
            r.project_id_or_name == self.project_id_or_name,
            r.summary == self.summary,
            r.description == self.description,
    {
        CreateNewsBuilder { project_id_or_name: self.project_id_or_name, title: Some(String::from_str(value)), summary: self.summary, description: self.description }
    }

    /// Sets `summary`: the summary of the news item
    pub fn summary(self, value: &str) -> (r: CreateNewsBuilder)
        ensures
            r.summary matches Some(s) && s@ == value@,
            r.project_id_or_name == self.project_id_or_name,
            r.title == self.title,
            r.description == self.description,
    {
        CreateNewsBuilder { project_id_or_name: self.project_id_or_name, title: self.title, summary: Some(String::from_str(value)), description: self.description }
    }

    /// Sets `description`: the description of the news item
    pub fn description(self, value: &str) -> (r: CreateNewsBuilder)
        ensures
            r.description matches Some(s) && s@ == value@,
            r.project_id_or_name == self.project_id_or_name,
            r.title == self.title,
            r.summary == self.summary,
    {
        CreateNewsBuilder { project_id_or_name: self.project_id_or_name, title: self.title, summary: self.summary, description: Some(String::from_str(value)) }
    }

    /// The first required field that has not been set, if any.
    pub open spec fn missing_field(&self) -> Option<Seq<char>> {
        if self.project_id_or_name is None {
            Some("project_id_or_name"@)
        } else if self.title is None {
            Some("title"@)
        } else if self.description is None {
            Some("description"@)
        } else {
            None
        }
    }

    /// Builds the endpoint; fails on the first required field that has not been set.
    pub fn build(self) -> (r: Result<CreateNews, BuilderError>)
        ensures
            match r {
                Ok(x) => self.missing_field() is None && x == (CreateNews { project_id_or_name: self.project_id_or_name->0, title: self.title->0, summary: self.summary, description: self.description->0 }),
                Err(BuilderError::UninitializedField(n)) => self.missing_field() == Some(n@),
                Err(_) => false,
            },
    {
        let project_id_or_name = match self.project_id_or_name {
            Some(v) => v,
            None => {
                return Err(BuilderError::UninitializedField("project_id_or_name"));
            },
        };
        let title = match self.title {
            Some(v) => v,
            None => {
                return Err(BuilderError::UninitializedField("title"));
            },
        };
        let description = match self.description {
            Some(v) => v,
            None => {
                return Err(BuilderError::UninitializedField("description"));
            },
        };
        Ok(CreateNews { project_id_or_name, title, summary: self.summary, description })
    }
}

impl ReturnsJsonResponse for CreateNews {}

impl NoPagination for CreateNews {}

impl Endpoint for CreateNews {
    open spec fn method_spec(&self) -> HttpMethod {
        HttpMethod::Post
    }

    open spec fn endpoint_spec(&self) -> Seq<char> {
        "projects/"@ + self.project_id_or_name@ + "/news.json"@
    }

    open spec fn parameters_spec(&self) -> Seq<(Seq<char>, Seq<char>)> {
        Seq::empty()
    }

    open spec fn body_spec(&self) -> Option<BodySpec> {
        let inner = {
            let m = Seq::<(Seq<char>, JsonView)>::empty();
            let m = m.push(("title"@, self.title.json()));
            let m = member_nullable(m, "summary"@, self.summary);
            let m = m.push(("description"@, self.description.json()));
            m
        };
        Some(BodySpec::Json(JsonView::Object(seq![("news"@, JsonView::Object(inner))])))
    }

    fn method(&self) -> (r: HttpMethod) {
        HttpMethod::Post
    }

    fn endpoint(&self) -> (r: String) {
        let mut s = String::new();
        s.append("projects/");
        s.append(self.project_id_or_name.as_str());
        s.append("/news.json");
        assert(s@ =~= self.endpoint_spec());
        s
    }

    fn check_writable(&self) -> (r: bool) {
        true
    }

    fn parameters(&self) -> (r: QueryParams) {
        let mut p = QueryParams::new();
        p
    }

    fn body(&self) -> (r: Result<Option<RequestBody>, Error>) {
        let mut b = ObjectBuilder::new();
        b.insert_value("title", &self.title);
        b.insert_nullable("summary", &self.summary);
        b.insert_value("description", &self.description);
        let doc = single_member_object("news", b.build());
        json_body(&doc)
    }
}

/// The endpoint to update an existing Redmine news item
#[derive(Debug, Clone)]
pub struct UpdateNews {
    /// the id of the news item to update
    pub id: u64,
    /// the title of the news item
    pub title: Option<String>,
    /// the summary of the news item
    pub summary: Option<String>,
    /// the description of the news item
    pub description: Option<String>,
}

/// Builder for [`UpdateNews`].
#[derive(Debug, Clone)]
pub struct UpdateNewsBuilder {
    /// the id of the news item to update
    pub id: Option<u64>,
    /// the title of the news item
    pub title: Option<String>,
    /// the summary of the news item
    pub summary: Option<String>,
    /// the description of the news item
    pub description: Option<String>,
}

impl UpdateNews {
    /// Create a builder for the endpoint.
    pub fn builder() -> (r: UpdateNewsBuilder)
        ensures
            r.id is None,
            r.title is None,
            r.summary is None,
            r.description is None,
    {
        UpdateNewsBuilder { id: None, title: None, summary: None, description: None }
    }
}

impl UpdateNewsBuilder {
    /// Sets `id`: the id of the news item to update
    pub fn id(self, value: u64) -> (r: UpdateNewsBuilder)
        ensures
            r.id == Some(value),
            r.title == self.title,
            r.summary == self.summary,
            r.description == self.description,
    {
        UpdateNewsBuilder { id: Some(value), title: self.title, summary: self.summary, description: self.description }
    }

    /// Sets `title`: the title of the news item
    pub fn title(self, value: &str) -> (r: UpdateNewsBuilder)
        ensures
            r.title matches Some(s) && s@ == value@,
            r.id == self.id,
            r.summary == self.summary,
            r.description == self.description,
    {
        UpdateNewsBuilder { id: self.id, title: Some(String::from_str(value)), summary: self.summary, description: self.description }
    }

    /// Sets `summary`: the summary of the news item
    pub fn summary(self, value: &str) -> (r: UpdateNewsBuilder)
        ensures
            r.summary matches Some(s) && s@ == value@,
            r.id == self.id,
            r.title == self.title,
            r.description == self.description,
    {
        UpdateNewsBuilder { id: self.id, title: self.title, summary: Some(String::from_str(value)), description: self.description }
    }

    /// Sets `description`: the description of the news item
    pub fn description(self, value: &str) -> (r: UpdateNewsBuilder)
        ensures
            r.description matches Some(s) && s@ == value@,
            r.id == self.id,
            r.title == self.title,
            r.summary == self.summary,
    {
        UpdateNewsBuilder { id: self.id, title: self.title, summary: self.summary, description: Some(String::from_str(value)) }
    }

    /// The first required field that has not been set, if any.
    pub open spec fn missing_field(&self) -> Option<Seq<char>> {
        if self.id is None {
            Some("id"@)
        } else {
            None
        }
    }

    /// Builds the endpoint; fails on the first required field that has not been set.
    pub fn build(self) -> (r: Result<UpdateNews, BuilderError>)
        ensures
            match r {
                Ok(x) => self.missing_field() is None && x == (UpdateNews { id: self.id->0, title: self.title, summary: self.summary, description: self.description }),
                Err(BuilderError::UninitializedField(n)) => self.missing_field() == Some(n@),
                Err(_) => false,
            },
    {
        let id = match self.id {
            Some(v) => v,
            None => {
                return Err(BuilderError::UninitializedField("id"));
            },
        };
        Ok(UpdateNews { id, title: self.title, summary: self.summary, description: self.description })
    }
}

impl Endpoint for UpdateNews {
    open spec fn method_spec(&self) -> HttpMethod {
        HttpMethod::Put
    }

    open spec fn endpoint_spec(&self) -> Seq<char> {
        "news/"@ + decimal(self.id as nat) + ".json"@
    }

    open spec fn parameters_spec(&self) -> Seq<(Seq<char>, Seq<char>)> {
        Seq::empty()
    }

    open spec fn body_spec(&self) -> Option<BodySpec> {
        let inner = {
            let m = Seq::<(Seq<char>, JsonView)>::empty();
            let m = member_opt(m, "title"@, self.title);
            let m = member_opt(m, "summary"@, self.summary);
            let m = member_opt(m, "description"@, self.description);
            m
        };
        Some(BodySpec::Json(JsonView::Object(seq![("news"@, JsonView::Object(inner))])))
    }

    fn method(&self) -> (r: HttpMethod) {
        HttpMethod::Put
    }

    fn endpoint(&self) -> (r: String) {
        let mut s = String::new();
        s.append("news/");
        push_decimal(&mut s, self.id);
        s.append(".json");
        assert(s@ =~= self.endpoint_spec());
        s
    }

    fn check_writable(&self) -> (r: bool) {
        true
    }

    fn parameters(&self) -> (r: QueryParams) {
        let mut p = QueryParams::new();
        p
    }

    fn body(&self) -> (r: Result<Option<RequestBody>, Error>) {
        let mut b = ObjectBuilder::new();
        b.insert_opt("title", &self.title);
        b.insert_opt("summary", &self.summary);
        b.insert_opt("description", &self.description);
        let doc = single_member_object("news", b.build());
        json_body(&doc)
    }
}

/// The endpoint to delete a Redmine news item
#[derive(Debug, Clone)]
pub struct DeleteNews {
    /// the id of the news item to delete
    pub id: u64,
}

/// Builder for [`DeleteNews`].
#[derive(Debug, Clone)]
pub struct DeleteNewsBuilder {
    /// the id of the news item to delete
    pub id: Option<u64>,
}

impl DeleteNews {
    /// Create a builder for the endpoint.
    pub fn builder() -> (r: DeleteNewsBuilder)
        ensures
            r.id is None,
    {
        DeleteNewsBuilder { id: None }
    }
}

impl DeleteNewsBuilder {
    /// Sets `id`: the id of the news item to delete
    pub fn id(self, value: u64) -> (r: DeleteNewsBuilder)
        ensures
            r.id == Some(value),
    {
        DeleteNewsBuilder { id: Some(value) }
    }

    /// The first required field that has not been set, if any.
    pub open spec fn missing_field(&self) -> Option<Seq<char>> {
        if self.id is None {
            Some("id"@)
        } else {
            None
        }
    }

    /// Builds the endpoint; fails on the first required field that has not been set.
    pub fn build(self) -> (r: Result<DeleteNews, BuilderError>)
        ensures
            match r {
                Ok(x) => self.missing_field() is None && x == (DeleteNews { id: self.id->0 }),
                Err(BuilderError::UninitializedField(n)) => self.missing_field() == Some(n@),
                Err(_) => false,
            },
    {
        let id = match self.id {
            Some(v) => v,
            None => {
                return Err(BuilderError::UninitializedField("id"));
            },
        };
        Ok(DeleteNews { id })
    }
}

impl Endpoint for DeleteNews {
    open spec fn method_spec(&self) -> HttpMethod {
        HttpMethod::Delete
    }

    open spec fn endpoint_spec(&self) -> Seq<char> {
        "news/"@ + decimal(self.id as nat) + ".json"@
    }

    open spec fn parameters_spec(&self) -> Seq<(Seq<char>, Seq<char>)> {
        Seq::empty()
    }

    open spec fn body_spec(&self) -> Option<BodySpec> {
        None
    }

    fn method(&self) -> (r: HttpMethod) {
        HttpMethod::Delete
    }

    fn endpoint(&self) -> (r: String) {
        let mut s = String::new();
        s.append("news/");
        push_decimal(&mut s, self.id);
        s.append(".json");
        assert(s@ =~= self.endpoint_spec());
        s
    }

    fn check_writable(&self) -> (r: bool) {
        true
    }

    fn parameters(&self) -> (r: QueryParams) {
        let mut p = QueryParams::new();
        p
    }

    fn body(&self) -> (r: Result<Option<RequestBody>, Error>) {
        Ok(None)
    }
}

/// The body of [`CreateNews`] holds, under `news`, each attribute that is set
/// under its Redmine name, with the attribute's document as the value, and
/// nothing else.
pub proof fn lemma_create_news_body_members(x: CreateNews)
    ensures
        wrapped_members(x.body_spec()).contains(("title"@, x.title.json())),
        x.summary matches Some(v) ==> wrapped_members(x.body_spec()).contains(("summary"@, v.json())),
        x.summary is None ==> wrapped_members(x.body_spec()).contains(("summary"@, JsonView::Null)),
        wrapped_members(x.body_spec()).contains(("description"@, x.description.json())),
        wrapped_members(x.body_spec()).len() == 3,
{
    broadcast use crate::api::json::lemma_member_opt_contains, crate::api::json::lemma_member_opt_len,
        crate::api::json::lemma_member_nullable_contains, crate::api::json::lemma_member_nullable_len,
        crate::api::json::lemma_push_member_contains;
}

/// The body of [`UpdateNews`] holds, under `news`, each attribute that is set
/// under its Redmine name, with the attribute's document as the value, and
/// nothing else.
pub proof fn lemma_update_news_body_members(x: UpdateNews)
    ensures
        x.title matches Some(v) ==> wrapped_members(x.body_spec()).contains(("title"@, v.json())),
        x.summary matches Some(v) ==> wrapped_members(x.body_spec()).contains(("summary"@, v.json())),
        x.description matches Some(v) ==> wrapped_members(x.body_spec()).contains(("description"@, v.json())),
        wrapped_members(x.body_spec()).len() == 0 + present(x.title) + present(x.summary) + present(x.description),
{
    broadcast use crate::api::json::lemma_member_opt_contains, crate::api::json::lemma_member_opt_len,
        crate::api::json::lemma_member_nullable_contains, crate::api::json::lemma_member_nullable_len,
        crate::api::json::lemma_push_member_contains;
}

/// The path of [`ListProjectNews`] names the project by its id or name, and two
/// requests share a path only when they name the same project.
pub proof fn lemma_list_project_news_path(x: ListProjectNews, y: ListProjectNews)
    ensures
        x.endpoint_spec() == "projects/"@ + x.project_id_or_name@ + "/news.json"@,
        x.endpoint_spec() == y.endpoint_spec() <==> x.project_id_or_name@ == y.project_id_or_name@,
{
    lemma_text_path_injective("projects/"@, "/news.json"@, x.project_id_or_name@, y.project_id_or_name@);
}

/// The path of [`GetNews`] names the object by the decimal of its id, and two
/// requests share a path only when they name the same id.
pub proof fn lemma_get_news_path(x: GetNews, y: GetNews)
    ensures
        x.endpoint_spec() == "news/"@ + decimal(x.id as nat) + ".json"@,
        x.endpoint_spec() == y.endpoint_spec() <==> x.id == y.id,
{
    lemma_id_path_injective("news/"@, ".json"@, x.id as nat, y.id as nat);
}

/// The path of [`CreateNews`] names the project by its id or name, and two
/// requests share a path only when they name the same project.
pub proof fn lemma_create_news_path(x: CreateNews, y: CreateNews)
    ensures
        x.endpoint_spec() == "projects/"@ + x.project_id_or_name@ + "/news.json"@,
        x.endpoint_spec() == y.endpoint_spec() <==> x.project_id_or_name@ == y.project_id_or_name@,
{
    lemma_text_path_injective("projects/"@, "/news.json"@, x.project_id_or_name@, y.project_id_or_name@);
}

/// The path of [`UpdateNews`] names the object by the decimal of its id, and two
/// requests share a path only when they name the same id.
pub proof fn lemma_update_news_path(x: UpdateNews, y: UpdateNews)
    ensures
        x.endpoint_spec() == "news/"@ + decimal(x.id as nat) + ".json"@,
        x.endpoint_spec() == y.endpoint_spec() <==> x.id == y.id,
{
    lemma_id_path_injective("news/"@, ".json"@, x.id as nat, y.id as nat);
}

/// The path of [`DeleteNews`] names the object by the decimal of its id, and two
/// requests share a path only when they name the same id.
pub proof fn lemma_delete_news_path(x: DeleteNews, y: DeleteNews)
    ensures
        x.endpoint_spec() == "news/"@ + decimal(x.id as nat) + ".json"@,
        x.endpoint_spec() == y.endpoint_spec() <==> x.id == y.id,
{
    lemma_id_path_injective("news/"@, ".json"@, x.id as nat, y.id as nat);
}

/// The requests of this module use the HTTP method that fits what they do:
/// `GET` to read, `POST` to create or add, `PUT` to change and `DELETE` to
/// remove.
pub proof fn lemma_news_methods(list_news: ListNews, list_project_news: ListProjectNews, get_news: GetNews, create_news: CreateNews, update_news: UpdateNews, delete_news: DeleteNews)
    ensures
        list_news.method_spec() == HttpMethod::Get,
        list_project_news.method_spec() == HttpMethod::Get,
        get_news.method_spec() == HttpMethod::Get,
        create_news.method_spec() == HttpMethod::Post,
        update_news.method_spec() == HttpMethod::Put,
        delete_news.method_spec() == HttpMethod::Delete,
{
}

/// The requests of this module that address the same collection, or the
/// same object, use the same path: listing and creating share the
/// collection's path, and reading, changing and removing an object share
/// the object's path.
pub proof fn lemma_news_shared_paths(list_project_news: ListProjectNews, create_news: CreateNews, get_news: GetNews, update_news: UpdateNews, delete_news: DeleteNews)
    ensures
        list_project_news.project_id_or_name@ == create_news.project_id_or_name@ ==> list_project_news.endpoint_spec() == create_news.endpoint_spec(),
        get_news.id == update_news.id ==> get_news.endpoint_spec() == update_news.endpoint_spec(),
        get_news.id == delete_news.id ==> get_news.endpoint_spec() == delete_news.endpoint_spec(),
{
}

/// The page of [`ListNews`] holds its values under the name of the
/// collection that ends the request's path.
pub proof fn lemma_list_news_wrapper_key(x: ListNews)
    ensures
        x.endpoint_spec().len() >= x.wrapper_key_spec().len() + 5,
        x.endpoint_spec().subrange(x.endpoint_spec().len() - x.wrapper_key_spec().len() - 5, x.endpoint_spec().len() as int) == x.wrapper_key_spec() + ".json"@,
{
    reveal_strlit(".json");
    reveal_strlit("news");
    reveal_strlit("news.json");
    assert(x.endpoint_spec().subrange(x.endpoint_spec().len() - x.wrapper_key_spec().len() - 5, x.endpoint_spec().len() as int) =~= x.wrapper_key_spec() + ".json"@);
}

/// The page of [`ListProjectNews`] holds its values under the name of the
/// collection that ends the request's path.
pub proof fn lemma_list_project_news_wrapper_key(x: ListProjectNews)
    ensures
        x.endpoint_spec().len() >= x.wrapper_key_spec().len() + 5,
        x.endpoint_spec().subrange(x.endpoint_spec().len() - x.wrapper_key_spec().len() - 5, x.endpoint_spec().len() as int) == x.wrapper_key_spec() + ".json"@,
{
    reveal_strlit(".json");
    reveal_strlit("/news.json");
    reveal_strlit("news");
    reveal_strlit("projects/");
    assert(x.endpoint_spec().subrange(x.endpoint_spec().len() - x.wrapper_key_spec().len() - 5, x.endpoint_spec().len() as int) =~= x.wrapper_key_spec() + ".json"@);
}

} // verus!
