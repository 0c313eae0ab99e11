//! Wiki Pages Rest API Endpoint definitions
//!
//! [Redmine Documentation](https://www.redmine.org/projects/redmine/wiki/Rest_WikiPages)
use vstd::prelude::*;
use vstd::string::StringExecFns;
use crate::Error;
use crate::api::endpoint::{
    BodySpec, BuilderError, Endpoint, HttpMethod, NoPagination, Pageable, RequestBody,
    ReturnsJsonResponse, json_body,
};
use crate::api::json::{
    JsonValue, JsonView, ObjectBuilder, ToJson, member_nullable, member_opt, single_member_object,
};
use crate::api::query::{ParamValue, QueryParams, opt_param_ok, push_opt_spec};
use crate::api::text::{decimal, push_decimal};

use crate::api::query::present;
use crate::api::bodies::wrapped_members;
use crate::api::text::{lemma_text_path_injective};
verus! {

/// The types of associated data which can be fetched along with a wiki page
#[derive(Debug, Clone, Copy, PartialEq, Eq, Structural)]
pub enum WikiPageInclude {
    /// Wiki Page Attachments
    Attachments,
}

impl WikiPageInclude {
    /// The text of the value.
    pub open spec fn text(&self) -> Seq<char> {
        match self {
            WikiPageInclude::Attachments => "attachments"@,
        }
    }

    /// The text of the value.
    pub fn to_string(&self) -> (r: String)
        ensures
            r@ == self.text(),
    {
        match self {
            WikiPageInclude::Attachments => String::from_str("attachments"),
        }
    }
}

impl ParamValue for WikiPageInclude {
    open spec fn param_text(&self) -> Seq<char> {
        self.text()
    }

    fn as_value(&self) -> (r: String) {
        self.to_string()
    }
}

/// The endpoint for all wiki pages in a project
#[derive(Debug, Clone)]
pub struct ListProjectWikiPages {
    /// the project id or name as it appears in the URL
    pub project_id_or_name: String,
    /// the types of associated data to include
    pub includes: Option<Vec<WikiPageInclude>>,
}

/// Builder for [`ListProjectWikiPages`].
#[derive(Debug, Clone)]
pub struct ListProjectWikiPagesBuilder {
    /// the project id or name as it appears in the URL
    pub project_id_or_name: Option<String>,
    /// the types of associated data to include
    pub includes: Option<Vec<WikiPageInclude>>,
}

impl ListProjectWikiPages {
    /// Create a builder for the endpoint.
    pub fn builder() -> (r: ListProjectWikiPagesBuilder)
        ensures
            r.project_id_or_name is None,
            r.includes is None,
    {
        ListProjectWikiPagesBuilder { project_id_or_name: None, includes: None }
    }
}

impl ListProjectWikiPagesBuilder {
    /// Sets `project_id_or_name`: the project id or name as it appears in the URL
    pub fn project_id_or_name(self, value: &str) -> (r: ListProjectWikiPagesBuilder)
        ensures
            r.project_id_or_name matches Some(s) && s@ == value@,
            r.includes == self.includes,
    {
        ListProjectWikiPagesBuilder { project_id_or_name: Some(String::from_str(value)), includes: self.includes }
    }

    /// Sets `includes`: the types of associated data to include
    pub fn includes(self, value: Vec<WikiPageInclude>) -> (r: ListProjectWikiPagesBuilder)
        ensures
            r.includes == Some(value),
            r.project_id_or_name == self.project_id_or_name,
    {
        ListProjectWikiPagesBuilder { project_id_or_name: self.project_id_or_name, includes: Some(value) }
    }

    /// The first required field that has not been set, if any.
    pub open spec fn missing_field(&self) -> Option<Seq<char>> {
        if self.project_id_or_name is None {
            Some("project_id_or_name"@)
        } else {
            None
        }
    }

    /// Builds the endpoint; fails on the first required field that has not been set.
    pub fn build(self) -> (r: Result<ListProjectWikiPages, BuilderError>)
        ensures
            match r {
                Ok(x) => self.missing_field() is None && x == (ListProjectWikiPages { project_id_or_name: self.project_id_or_name->0, includes: self.includes }),
                Err(BuilderError::UninitializedField(n)) => self.missing_field() == Some(n@),
                Err(_) => false,
            },
    {
        let project_id_or_name = match self.project_id_or_name {
            Some(v) => v,
            None => {
                return Err(BuilderError::UninitializedField("project_id_or_name"));
            },
        };
        Ok(ListProjectWikiPages { project_id_or_name, includes: self.includes })
    }
}

impl ReturnsJsonResponse for ListProjectWikiPages {}

impl NoPagination for ListProjectWikiPages {}

impl Endpoint for ListProjectWikiPages {
    open spec fn method_spec(&self) -> HttpMethod {
        HttpMethod::Get
    }

    open spec fn endpoint_spec(&self) -> Seq<char> {
        "projects/"@ + self.project_id_or_name@ + "/wiki/index.json"@
    }

    open spec fn parameters_spec(&self) -> Seq<(Seq<char>, Seq<char>)> {
        let p = Seq::<(Seq<char>, Seq<char>)>::empty();
        let p = push_opt_spec(p, "include"@, self.includes);
        p
    }

    open spec fn body_spec(&self) -> Option<BodySpec> {
        None
    }

    fn method(&self) -> (r: HttpMethod) {
        HttpMethod::Get
    }

    fn endpoint(&self) -> (r: String) {
        let mut s = String::new();
        s.append("projects/");
        s.append(self.project_id_or_name.as_str());
        s.append("/wiki/index.json");
        assert(s@ =~= self.endpoint_spec());
        s
    }

    fn check_writable(&self) -> (r: bool) {
        true
    }

    fn parameters(&self) -> (r: QueryParams) {
        let mut p = QueryParams::new();
        p.push_opt("include", &self.includes);
        p
    }

    fn body(&self) -> (r: Result<Option<RequestBody>, Error>) {
        Ok(None)
    }
}

/// The endpoint for a specific wiki page
#[derive(Debug, Clone)]
pub struct GetProjectWikiPage {
    /// the project id or name as it appears in the URL
    pub project_id_or_name: String,
    /// the title of the wiki page
    pub title: String,
    /// the types of associated data to include
    pub includes: Option<Vec<WikiPageInclude>>,
}

/// Builder for [`GetProjectWikiPage`].
#[derive(Debug, Clone)]
pub struct GetProjectWikiPageBuilder {
    /// the project id or name as it appears in the URL
    pub project_id_or_name: Option<String>,
    /// the title of the wiki page
    pub title: Option<String>,
    /// the types of associated data to include
    pub includes: Option<Vec<WikiPageInclude>>,
}

impl GetProjectWikiPage {
    /// Create a builder for the endpoint.
    pub fn builder() -> (r: GetProjectWikiPageBuilder)
        ensures
            r.project_id_or_name is None,
            r.title is None,
            r.includes is None,
    {
        GetProjectWikiPageBuilder { project_id_or_name: None, title: None, includes: None }
    }
}

impl GetProjectWikiPageBuilder {
    /// Sets `project_id_or_name`: the project id or name as it appears in the URL
    pub fn project_id_or_name(self, value: &str) -> (r: GetProjectWikiPageBuilder)
        ensures
            r.project_id_or_name matches Some(s) && s@ == value@,
            r.title == self.title,
            r.includes == self.includes,
    {
        GetProjectWikiPageBuilder { project_id_or_name: Some(String::from_str(value)), title: self.title, includes: self.includes }
    }

    /// Sets `title`: the title of the wiki page
    pub fn title(self, value: &str) -> (r: GetProjectWikiPageBuilder)
        ensures
            r.title matches Some(s) && s@ == value@,
            r.project_id_or_name == self.project_id_or_name,
            r.includes == self.includes,
    {
        GetProjectWikiPageBuilder { project_id_or_name: self.project_id_or_name, title: Some(String::from_str(value)), includes: self.includes }
    }

    /// Sets `includes`: the types of associated data to include
    pub fn includes(self, value: Vec<WikiPageInclude>) -> (r: GetProjectWikiPageBuilder)
        ensures
            r.includes == Some(value),
            r.project_id_or_name == self.project_id_or_name,
            r.title == self.title,
    {
        GetProjectWikiPageBuilder { project_id_or_name: self.project_id_or_name, title: self.title, includes: Some(value) }
    }

    /// The first required field that has not been set, if any.
    pub open spec fn missing_field(&self) -> Option<Seq<char>> {
        if self.project_id_or_name is None {
            Some("project_id_or_name"@)
        } else if self.title is None {
            Some("title"@)
        } else {
            None
        }
    }

    /// Builds the endpoint; fails on the first required field that has not been set.
    pub fn build(self) -> (r: Result<GetProjectWikiPage, BuilderError>)
        ensures
            match r {
                Ok(x) => self.missing_field() is None && x == (GetProjectWikiPage { project_id_or_name: self.project_id_or_name->0, title: self.title->0, includes: self.includes }),
                Err(BuilderError::UninitializedField(n)) => self.missing_field() == Some(n@),
                Err(_) => false,
            },
    {
        let project_id_or_name = match self.project_id_or_name {
            Some(v) => v,
            None => {
                return Err(BuilderError::UninitializedField("project_id_or_name"));
            },
        };
        let title = match self.title {
            Some(v) => v,
            None => {
                return Err(BuilderError::UninitializedField("title"));
            },
        };
        Ok(GetProjectWikiPage { project_id_or_name, title, includes: self.includes })
    }
}

impl ReturnsJsonResponse for GetProjectWikiPage {}

impl NoPagination for GetProjectWikiPage {}

impl Endpoint for GetProjectWikiPage {
    open spec fn method_spec(&self) -> HttpMethod {
        HttpMethod::Get
    }

    open spec fn endpoint_spec(&self) -> Seq<char> {
        "projects/"@ + self.project_id_or_name@ + "/wiki/"@ + self.title@ + ".json"@
    }

    open spec fn parameters_spec(&self) -> Seq<(Seq<char>, Seq<char>)> {
        let p = Seq::<(Seq<char>, Seq<char>)>::empty();
        let p = push_opt_spec(p, "include"@, self.includes);
        p
    }

    open spec fn body_spec(&self) -> Option<BodySpec> {
        None
    }

    fn method(&self) -> (r: HttpMethod) {
        HttpMethod::Get
    }

    fn endpoint(&self) -> (r: String) {
        let mut s = String::new();
        s.append("projects/");
        s.append(self.project_id_or_name.as_str());
        s.append("/wiki/");
        s.append(self.title.as_str());
        s.append(".json");
        assert(s@ =~= self.endpoint_spec());
        s
    }

    fn check_writable(&self) -> (r: bool) {
        true
    }

    fn parameters(&self) -> (r: QueryParams) {
        let mut p = QueryParams::new();
        p.push_opt("include", &self.includes);
        p
    }

    fn body(&self) -> (r: Result<Option<RequestBody>, Error>) {
        Ok(None)
    }
}

/// The endpoint for a specific version of a wiki page
#[derive(Debug, Clone)]
pub struct GetProjectWikiPageVersion {
    /// the project id or name as it appears in the URL
    pub project_id_or_name: String,
    /// the title of the wiki page
    pub title: String,
    /// the version of the wiki page
    pub version: u64,
    /// the types of associated data to include
    pub includes: Option<Vec<WikiPageInclude>>,
}

/// Builder for [`GetProjectWikiPageVersion`].
#[derive(Debug, Clone)]
pub struct GetProjectWikiPageVersionBuilder {
    /// the project id or name as it appears in the URL
    pub project_id_or_name: Option<String>,
    /// the title of the wiki page
    pub title: Option<String>,
    /// the version of the wiki page
    pub version: Option<u64>,
    /// the types of associated data to include
    pub includes: Option<Vec<WikiPageInclude>>,
}

impl GetProjectWikiPageVersion {
    /// Create a builder for the endpoint.
    pub fn builder() -> (r: GetProjectWikiPageVersionBuilder)
        ensures
            r.project_id_or_name is None,
            r.title is None,
            r.version is None,
            r.includes is None,
    {
        GetProjectWikiPageVersionBuilder { project_id_or_name: None, title: None, version: None, includes: None }
    }
}

impl GetProjectWikiPageVersionBuilder {
    /// Sets `project_id_or_name`: the project id or name as it appears in the URL
    pub fn project_id_or_name(self, value: &str) -> (r: GetProjectWikiPageVersionBuilder)
        ensures
            r.project_id_or_name matches Some(s) && s@ == value@,
            r.title == self.title,
            r.version == self.version,
            r.includes == self.includes,
    {
        GetProjectWikiPageVersionBuilder { project_id_or_name: Some(String::from_str(value)), title: self.title, version: self.version, includes: self.includes }
    }

    /// Sets `title`: the title of the wiki page
    pub fn title(self, value: &str) -> (r: GetProjectWikiPageVersionBuilder)
        ensures
            r.title matches Some(s) && s@ == value@,
            r.project_id_or_name == self.project_id_or_name,
            r.version == self.version,
            r.includes == self.includes,
    {
        GetProjectWikiPageVersionBuilder { project_id_or_name: self.project_id_or_name, title: Some(String::from_str(value)), version: self.version, includes: self.includes }
    }

    /// Sets `version`: the version of the wiki page
    pub fn version(self, value: u64) -> (r: GetProjectWikiPageVersionBuilder)
        ensures
            r.version == Some(value),
            r.project_id_or_name == self.project_id_or_name,
            r.title == self.title,
            r.includes == self.includes,
    {
        GetProjectWikiPageVersionBuilder { project_id_or_name: self.project_id_or_name, title: self.title, version: Some(value), includes: self.includes }
    }

    /// Sets `includes`: the types of associated data to include
    pub fn includes(self, value: Vec<WikiPageInclude>) -> (r: GetProjectWikiPageVersionBuilder)
        ensures
            r.includes == Some(value),
            r.project_id_or_name == self.project_id_or_name,
            r.title == self.title,
            r.version == self.version,
    {
        GetProjectWikiPageVersionBuilder { project_id_or_name: self.project_id_or_name, title: self.title, version: self.version, includes: Some(value) }
    }

    /// The first required field that has not been set, if any.
    pub open spec fn missing_field(&self) -> Option<Seq<char>> {
        if self.project_id_or_name is None {
            Some("project_id_or_name"@)
        } else if self.title is None {
            Some("title"@)
        } else if self.version is None {
            Some("version"@)
        } else {
            None
        }
    }

    /// Builds the endpoint; fails on the first required field that has not been set.
    pub fn build(self) -> (r: Result<GetProjectWikiPageVersion, BuilderError>)
        ensures
            match r {
                Ok(x) => self.missing_field() is None && x == (GetProjectWikiPageVersion { project_id_or_name: self.project_id_or_name->0, title: self.title->0, version: self.version->0, includes: self.includes }),
                Err(BuilderError::UninitializedField(n)) => self.missing_field() == Some(n@),
                Err(_) => false,
            },
    {
        let project_id_or_name = match self.project_id_or_name {
            Some(v) => v,
            None => {
                return Err(BuilderError::UninitializedField("project_id_or_name"));
            },
        };
        let title = match self.title {
            Some(v) => v,
            None => {
                return Err(BuilderError::UninitializedField("title"));
            },
        };
        let version = match self.version {
            Some(v) => v,
            None => {
                return Err(BuilderError::UninitializedField("version"));
            },
        };
        Ok(GetProjectWikiPageVersion { project_id_or_name, title, version, includes: self.includes })
    }
}

impl ReturnsJsonResponse for GetProjectWikiPageVersion {}

impl NoPagination for GetProjectWikiPageVersion {}

impl Endpoint for GetProjectWikiPageVersion {
    open spec fn method_spec(&self) -> HttpMethod {
        HttpMethod::Get
    }

    open spec fn endpoint_spec(&self) -> Seq<char> {
        "projects/"@ + self.project_id_or_name@ + "/wiki/"@ + self.title@ + "/"@ + decimal(self.version as nat) + ".json"@
    }

    open spec fn parameters_spec(&self) -> Seq<(Seq<char>, Seq<char>)> {
        let p = Seq::<(Seq<char>, Seq<char>)>::empty();
        let p = push_opt_spec(p, "include"@, self.includes);
        p
    }

    open spec fn body_spec(&self) -> Option<BodySpec> {
        None
    }

    fn method(&self) -> (r: HttpMethod) {
        HttpMethod::Get
    }

    fn endpoint(&self) -> (r: String) {
        let mut s = String::new();
        s.append("projects/");
        s.append(self.project_id_or_name.as_str());
        s.append("/wiki/");
        s.append(self.title.as_str());
        s.append("/");
        push_decimal(&mut s, self.version);
        s.append(".json");
        assert(s@ =~= self.endpoint_spec());
        s
    }

    fn check_writable(&self) -> (r: bool) {
        true
    }

    fn parameters(&self) -> (r: QueryParams) {
        let mut p = QueryParams::new();
        p.push_opt("include", &self.includes);
        p
    }

    fn body(&self) -> (r: Result<Option<RequestBody>, Error>) {
        Ok(None)
    }
}

/// The endpoint to create or update a wiki page
#[derive(Debug, Clone)]
pub struct CreateOrUpdateProjectWikiPage {
    /// the project id or name as it appears in the URL
    pub project_id_or_name: String,
    /// the title of the wiki page
    pub title: String,
    /// the version of the wiki page (to check for conflicts)
    pub version: Option<u64>,
    /// the text of the wiki page
    pub text: String,
    /// the comments for the wiki page change
    pub comments: String,
}

/// Builder for [`CreateOrUpdateProjectWikiPage`].
#[derive(Debug, Clone)]
pub struct CreateOrUpdateProjectWikiPageBuilder {
    /// the project id or name as it appears in the URL
    pub project_id_or_name: Option<String>,
    /// the title of the wiki page
    pub title: Option<String>,
    /// the version of the wiki page (to check for conflicts)
    pub version: Option<u64>,
    /// the text of the wiki page
    pub text: Option<String>,
    /// the comments for the wiki page change
    pub comments: Option<String>,
}

impl CreateOrUpdateProjectWikiPage {
    /// Create a builder for the endpoint.
    pub fn builder() -> (r: CreateOrUpdateProjectWikiPageBuilder)
        ensures
            r.project_id_or_name is None,
            r.title is None,
            r.version is None,
            r.text is None,
            r.comments is None,
    {
        CreateOrUpdateProjectWikiPageBuilder { project_id_or_name: None, title: None, version: None, text: None, comments: None }
    }
}

impl CreateOrUpdateProjectWikiPageBuilder {
    /// Sets `project_id_or_name`: the project id or name as it appears in the URL
    pub fn project_id_or_name(self, value: &str) -> (r: CreateOrUpdateProjectWikiPageBuilder)
        ensures
            r.project_id_or_name matches Some(s) && s@ == value@,
            r.title == self.title,
            r.version == self.version,
            r.text == self.text,
            r.comments == self.comments,
    {
        CreateOrUpdateProjectWikiPageBuilder { project_id_or_name: Some(String::from_str(value)), title: self.title, version: self.version, text: self.text, comments: self.comments }
    }

    /// Sets `title`: the title of the wiki page
    pub fn title(self, value: &str) -> (r: CreateOrUpdateProjectWikiPageBuilder)
        ensures
            r.title matches Some(s) && s@ == value@,
            r.project_id_or_name == self.project_id_or_name,
            r.version == self.version,
            r.text == self.text,
            r.comments == self.comments,
    {
        CreateOrUpdateProjectWikiPageBuilder { project_id_or_name: self.project_id_or_name, title: Some(String::from_str(value)), version: self.version, text: self.text, comments: self.comments }
    }

    /// Sets `version`: the version of the wiki page (to check for conflicts)
    pub fn version(self, value: u64) -> (r: CreateOrUpdateProjectWikiPageBuilder)
        ensures
            r.version == Some(value),
            r.project_id_or_name == self.project_id_or_name,
            r.title == self.title,
            r.text == self.text,
            r.comments == self.comments,
    {
        CreateOrUpdateProjectWikiPageBuilder { project_id_or_name: self.project_id_or_name, title: self.title, version: Some(value), text: self.text, comments: self.comments }
    }

    /// Sets `text`: the text of the wiki page
    pub fn text(self, value: &str) -> (r: CreateOrUpdateProjectWikiPageBuilder)
        ensures
            r.text matches Some(s) && s@ == value@,
            r.project_id_or_name == self.project_id_or_name,
            r.title == self.title,
            r.version == self.version,
            r.comments == self.comments,
    {
        CreateOrUpdateProjectWikiPageBuilder { project_id_or_name: self.project_id_or_name, title: self.title, version: self.version, text: Some(String::from_str(value)), comments: self.comments }
    }

    /// Sets `comments`: the comments for the wiki page change
    pub fn comments(self, value: &str) -> (r: CreateOrUpdateProjectWikiPageBuilder)
        ensures
            r.comments matches Some(s) && s@ == value@,
            r.project_id_or_name == self.project_id_or_name,
            r.title == self.title,
            r.version == self.version,
            r.text == self.text,
    {
        CreateOrUpdateProjectWikiPageBuilder { project_id_or_name: self.project_id_or_name, title: self.title, version: self.version, text: self.text, comments: Some(String::from_str(value)) }
    }

    /// The first required field that has not been set, if any.
    pub open spec fn missing_field(&self) -> Option<Seq<char>> {
        if self.project_id_or_name is None {
            Some("project_id_or_name"@)
        } else if self.title is None {
            Some("title"@)
        } else if self.text is None {
            Some("text"@)
        } else if self.comments is None {
            Some("comments"@)
        } else {
            None
        }
    }

    /// Builds the endpoint; fails on the first required field that has not been set.
    pub fn build(self) -> (r: Result<CreateOrUpdateProjectWikiPage, BuilderError>)
        ensures
            match r {
                Ok(x) => self.missing_field() is None && x == (CreateOrUpdateProjectWikiPage { project_id_or_name: self.project_id_or_name->0, title: self.title->0, version: self.version, text: self.text->0, comments: self.comments->0 }),
                Err(BuilderError::UninitializedField(n)) => self.missing_field() == Some(n@),
                Err(_) => false,
            },
    {
        let project_id_or_name = match self.project_id_or_name {
            Some(v) => v,
            None => {
                return Err(BuilderError::UninitializedField("project_id_or_name"));
            },
        };
        let title = match self.title {
            Some(v) => v,
            None => {
                return Err(BuilderError::UninitializedField("title"));
            },
        };
        let text = match self.text {
            Some(v) => v,
            None => {
                return Err(BuilderError::UninitializedField("text"));
            },
        };
        let comments = match self.comments {
            Some(v) => v,
            None => {
                return Err(BuilderError::UninitializedField("comments"));
            },
        };
        Ok(CreateOrUpdateProjectWikiPage { project_id_or_name, title, version: self.version, text, comments })
    }
}

impl Endpoint for CreateOrUpdateProjectWikiPage {
    open spec fn method_spec(&self) -> HttpMethod {
        HttpMethod::Put
    }

    open spec fn endpoint_spec(&self) -> Seq<char> {
        "projects/"@ + self.project_id_or_name@ + "/wiki/"@ + self.title@ + ".json"@
    }

    open spec fn parameters_spec(&self) -> Seq<(Seq<char>, Seq<char>)> {
        Seq::empty()
    }

    open spec fn body_spec(&self) -> Option<BodySpec> {
        let inner = {
            let m = Seq::<(Seq<char>, JsonView)>::empty();
            let m = member_opt(m, "version"@, self.version);
            let m = m.push(("text"@, self.text.json()));
            let m = m.push(("comments"@, self.comments.json()));
            m
        };
        Some(BodySpec::Json(JsonView::Object(seq![("wiki_page"@, JsonView::Object(inner))])))
    }

    fn method(&self) -> (r: HttpMethod) {
        HttpMethod::Put
    }

    fn endpoint(&self) -> (r: String) {
        let mut s = String::new();
        s.append("projects/");
        s.append(self.project_id_or_name.as_str());
        s.append("/wiki/");
        s.append(self.title.as_str());
        s.append(".json");
        assert(s@ =~= self.endpoint_spec());
        s
    }

    fn check_writable(&self) -> (r: bool) {
        true
    }

    fn parameters(&self) -> (r: QueryParams) {
        let mut p = QueryParams::new();
        p
    }

    fn body(&self) -> (r: Result<Option<RequestBody>, Error>) {
        let mut b = ObjectBuilder::new();
        b.insert_opt("version", &self.version);
        b.insert_value("text", &self.text);
        b.insert_value("comments", &self.comments);
        let doc = single_member_object("wiki_page", b.build());
        json_body(&doc)
    }
}

/// The endpoint to delete a wiki page
#[derive(Debug, Clone)]
pub struct DeleteProjectWikiPage {
    /// the project id or name as it appears in the URL
    pub project_id_or_name: String,
    /// the title of the wiki page
    pub title: String,
}

/// Builder for [`DeleteProjectWikiPage`].
#[derive(Debug, Clone)]
pub struct DeleteProjectWikiPageBuilder {
    /// the project id or name as it appears in the URL
    pub project_id_or_name: Option<String>,
    /// the title of the wiki page
    pub title: Option<String>,
}

impl DeleteProjectWikiPage {
    /// Create a builder for the endpoint.
    pub fn builder() -> (r: DeleteProjectWikiPageBuilder)
        ensures
            r.project_id_or_name is None,
            r.title is None,
    {
        DeleteProjectWikiPageBuilder { project_id_or_name: None, title: None }
    }
}

impl DeleteProjectWikiPageBuilder {
    /// Sets `project_id_or_name`: the project id or name as it appears in the URL
    pub fn project_id_or_name(self, value: &str) -> (r: DeleteProjectWikiPageBuilder)
        ensures
            r.project_id_or_name matches Some(s) && s@ == value@,
            r.title == self.title,
    {
        DeleteProjectWikiPageBuilder { project_id_or_name: Some(String::from_str(value)), title: self.title }
    }

    /// Sets `title`: the title of the wiki page
    pub fn title(self, value: &str) -> (r: DeleteProjectWikiPageBuilder)
        ensures
            r.title matches Some(s) && s@ == value@,
            r.project_id_or_name == self.project_id_or_name,
    {
        DeleteProjectWikiPageBuilder { project_id_or_name: self.project_id_or_name, title: Some(String::from_str(value)) }
    }

    /// The first required field that has not been set, if any.
    pub open spec fn missing_field(&self) -> Option<Seq<char>> {
        if self.project_id_or_name is None {
            Some("project_id_or_name"@)
        } else if self.title is None {
            Some("title"@)
        } else {
            None
        }
    }

    /// Builds the endpoint; fails on the first required field that has not been set.
    pub fn build(self) -> (r: Result<DeleteProjectWikiPage, BuilderError>)
        ensures
            match r {
                Ok(x) => self.missing_field() is None && x == (DeleteProjectWikiPage { project_id_or_name: self.project_id_or_name->0, title: self.title->0 }),
                Err(BuilderError::UninitializedField(n)) => self.missing_field() == Some(n@),
                Err(_) => false,
            },
    {
        let project_id_or_name = match self.project_id_or_name {
            Some(v) => v,
            None => {
                return Err(BuilderError::UninitializedField("project_id_or_name"));
            },
        };
        let title = match self.title {
            Some(v) => v,
            None => {
                return Err(BuilderError::UninitializedField("title"));
            },
        };
        Ok(DeleteProjectWikiPage { project_id_or_name, title })
    }
}

impl Endpoint for DeleteProjectWikiPage {
    open spec fn method_spec(&self) -> HttpMethod {
        HttpMethod::Delete
    }

    open spec fn endpoint_spec(&self) -> Seq<char> {
        "projects/"@ + self.project_id_or_name@ + "/wiki/"@ + self.title@ + ".json"@
    }

    open spec fn parameters_spec(&self) -> Seq<(Seq<char>, Seq<char>)> {
        Seq::empty()
    }

    open spec fn body_spec(&self) -> Option<BodySpec> {
        None
    }

    fn method(&self) -> (r: HttpMethod) {
        HttpMethod::Delete
    }

    fn endpoint(&self) -> (r: String) {
        let mut s = String::new();
        s.append("projects/");
        s.append(self.project_id_or_name.as_str());
        s.append("/wiki/");
        s.append(self.title.as_str());
        s.append(".json");
        assert(s@ =~= self.endpoint_spec());
        s
    }

    fn check_writable(&self) -> (r: bool) {
        true
    }

    fn parameters(&self) -> (r: QueryParams) {
        let mut p = QueryParams::new();
        p
    }

    fn body(&self) -> (r: Result<Option<RequestBody>, Error>) {
        Ok(None)
    }
}

/// The query of [`ListProjectWikiPages`] sends each parameter that is set under its Redmine
/// name, with the value's text, and nothing else.
pub proof fn lemma_list_project_wiki_pages_parameter_names(x: ListProjectWikiPages)
    ensures
        x.includes matches Some(v) ==> x.parameters_spec().contains(("include"@, v.param_text())),
        x.parameters_spec().len() == present(x.includes),
{
    broadcast use crate::api::query::lemma_push_opt_contains, crate::api::query::lemma_push_opt_len;
}

/// The query of [`GetProjectWikiPage`] sends each parameter that is set under its Redmine
/// name, with the value's text, and nothing else.
pub proof fn lemma_get_project_wiki_page_parameter_names(x: GetProjectWikiPage)
    ensures
        x.includes matches Some(v) ==> x.parameters_spec().contains(("include"@, v.param_text())),
        x.parameters_spec().len() == present(x.includes),
{
    broadcast use crate::api::query::lemma_push_opt_contains, crate::api::query::lemma_push_opt_len;
}

/// The query of [`GetProjectWikiPageVersion`] sends each parameter that is set under its Redmine
/// name, with the value's text, and nothing else.
pub proof fn lemma_get_project_wiki_page_version_parameter_names(x: GetProjectWikiPageVersion)
    ensures
        x.includes matches Some(v) ==> x.parameters_spec().contains(("include"@, v.param_text())),
        x.parameters_spec().len() == present(x.includes),
{
    broadcast use crate::api::query::lemma_push_opt_contains, crate::api::query::lemma_push_opt_len;
}

/// The body of [`CreateOrUpdateProjectWikiPage`] holds, under `wiki_page`, each attribute that is set
/// under its Redmine name, with the attribute's document as the value, and
/// nothing else.
pub proof fn lemma_create_or_update_project_wiki_page_body_members(x: CreateOrUpdateProjectWikiPage)
    ensures
        x.version matches Some(v) ==> wrapped_members(x.body_spec()).contains(("version"@, v.json())),
        wrapped_members(x.body_spec()).contains(("text"@, x.text.json())),
        wrapped_members(x.body_spec()).contains(("comments"@, x.comments.json())),
        wrapped_members(x.body_spec()).len() == 2 + present(x.version),
{
    broadcast use crate::api::json::lemma_member_opt_contains, crate::api::json::lemma_member_opt_len,
        crate::api::json::lemma_member_nullable_contains, crate::api::json::lemma_member_nullable_len,
        crate::api::json::lemma_push_member_contains;
}

/// The path of [`ListProjectWikiPages`] names the project by its id or name, and two
/// requests share a path only when they name the same project.
pub proof fn lemma_list_project_wiki_pages_path(x: ListProjectWikiPages, y: ListProjectWikiPages)
    ensures
        x.endpoint_spec() == "projects/"@ + x.project_id_or_name@ + "/wiki/index.json"@,
        x.endpoint_spec() == y.endpoint_spec() <==> x.project_id_or_name@ == y.project_id_or_name@,
{
    lemma_text_path_injective("projects/"@, "/wiki/index.json"@, x.project_id_or_name@, y.project_id_or_name@);
}

/// The requests of this module use the HTTP method that fits what they do:
/// `GET` to read, `POST` to create or add, `PUT` to change and `DELETE` to
/// remove.
pub proof fn lemma_wiki_pages_methods(list_project_wiki_pages: ListProjectWikiPages, get_project_wiki_page: GetProjectWikiPage, get_project_wiki_page_version: GetProjectWikiPageVersion, create_or_update_project_wiki_page: CreateOrUpdateProjectWikiPage, delete_project_wiki_page: DeleteProjectWikiPage)
    ensures
        list_project_wiki_pages.method_spec() == HttpMethod::Get,
        get_project_wiki_page.method_spec() == HttpMethod::Get,
        get_project_wiki_page_version.method_spec() == HttpMethod::Get,
        create_or_update_project_wiki_page.method_spec() == HttpMethod::Put,
        delete_project_wiki_page.method_spec() == HttpMethod::Delete,
{
}

/// The requests of this module that address the same collection, or the
/// same object, use the same path: listing and creating share the
/// collection's path, and reading, changing and removing an object share
/// the object's path.
pub proof fn lemma_wiki_pages_shared_paths(get_project_wiki_page: GetProjectWikiPage, create_or_update_project_wiki_page: CreateOrUpdateProjectWikiPage, delete_project_wiki_page: DeleteProjectWikiPage)
    ensures
        get_project_wiki_page.project_id_or_name@ == create_or_update_project_wiki_page.project_id_or_name@ && get_project_wiki_page.title@ == create_or_update_project_wiki_page.title@ ==> get_project_wiki_page.endpoint_spec() == create_or_update_project_wiki_page.endpoint_spec(),
        get_project_wiki_page.project_id_or_name@ == delete_project_wiki_page.project_id_or_name@ && get_project_wiki_page.title@ == delete_project_wiki_page.title@ ==> get_project_wiki_page.endpoint_spec() == delete_project_wiki_page.endpoint_spec(),
{
}

} // verus!
