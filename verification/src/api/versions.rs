//! Versions Rest API Endpoint definitions
//!
//! [Redmine Documentation](https://www.redmine.org/projects/redmine/wiki/Rest_Versions)
use vstd::prelude::*;
use vstd::string::StringExecFns;
use crate::Error;
use crate::api::endpoint::{
    BodySpec, BuilderError, Endpoint, HttpMethod, NoPagination, Pageable, RequestBody,
    ReturnsJsonResponse, json_body,
};
use crate::api::json::{
    JsonValue, JsonView, ObjectBuilder, ToJson, member_nullable, member_opt, single_member_object,
};
use crate::api::query::{ParamValue, QueryParams, opt_param_ok, push_opt_spec};
use crate::api::text::{decimal, push_decimal};
use crate::api::custom_fields::CustomField;
use crate::api::dates::Date;

use crate::api::query::present;
use crate::api::bodies::wrapped_members;
use crate::api::text::{lemma_id_path_injective, lemma_text_path_injective};
verus! {

/// The endpoint for all versions in a Redmine project
#[derive(Debug, Clone)]
pub struct ListVersions {
    /// the project id or name as it appears in the URL
    pub project_id_or_name: String,
}

/// Builder for [`ListVersions`].
#[derive(Debug, Clone)]
pub struct ListVersionsBuilder {
    /// the project id or name as it appears in the URL
    pub project_id_or_name: Option<String>,
}

impl ListVersions {
    /// Create a builder for the endpoint.
    pub fn builder() -> (r: ListVersionsBuilder)
        ensures
            r.project_id_or_name is None,
    {
        ListVersionsBuilder { project_id_or_name: None }
    }
}

impl ListVersionsBuilder {
    /// Sets `project_id_or_name`: the project id or name as it appears in the URL
    pub fn project_id_or_name(self, value: &str) -> (r: ListVersionsBuilder)
        ensures
            r.project_id_or_name matches Some(s) && s@ == value@,
    {
        ListVersionsBuilder { project_id_or_name: Some(String::from_str(value)) }
    }

    /// The first required field that has not been set, if any.
    pub open spec fn missing_field(&self) -> Option<Seq<char>> {
        if self.project_id_or_name is None {
            Some("project_id_or_name"@)
        } else {
            None
        }
    }

    /// Builds the endpoint; fails on the first required field that has not been set.
    pub fn build(self) -> (r: Result<ListVersions, BuilderError>)
        ensures
            match r {
                Ok(x) => self.missing_field() is None && x == (ListVersions { project_id_or_name: self.project_id_or_name->0 }),
                Err(BuilderError::UninitializedField(n)) => self.missing_field() == Some(n@),
                Err(_) => false,
            },
    {
        let project_id_or_name = match self.project_id_or_name {
            Some(v) => v,
            None => {
                return Err(BuilderError::UninitializedField("project_id_or_name"));
            },
        };
        Ok(ListVersions { project_id_or_name })
    }
}

impl ReturnsJsonResponse for ListVersions {}

impl NoPagination for ListVersions {}

impl Endpoint for ListVersions {
    open spec fn method_spec(&self) -> HttpMethod {
        HttpMethod::Get
    }

    open spec fn endpoint_spec(&self) -> Seq<char> {
        "projects/"@ + self.project_id_or_name@ + "/versions.json"@
    }

    open spec fn parameters_spec(&self) -> Seq<(Seq<char>, Seq<char>)> {
        Seq::empty()
    }

    open spec fn body_spec(&self) -> Option<BodySpec> {
        None
    }

    fn method(&self) -> (r: HttpMethod) {
        HttpMethod::Get
    }

    fn endpoint(&self) -> (r: String) {
        let mut s = String::new();
        s.append("projects/");
        s.append(self.project_id_or_name.as_str());
        s.append("/versions.json");
        assert(s@ =~= self.endpoint_spec());
        s
    }

    fn check_writable(&self) -> (r: bool) {
        true
    }

    fn parameters(&self) -> (r: QueryParams) {
        let mut p = QueryParams::new();
        p
    }

    fn body(&self) -> (r: Result<Option<RequestBody>, Error>) {
        Ok(None)
    }
}

/// The endpoint for a specific Redmine project version
#[derive(Debug, Clone)]
pub struct GetVersion {
    /// the id of the version to retrieve
    pub id: u64,
}

/// Builder for [`GetVersion`].
#[derive(Debug, Clone)]
pub struct GetVersionBuilder {
    /// the id of the version to retrieve
    pub id: Option<u64>,
}

impl GetVersion {
    /// Create a builder for the endpoint.
    pub fn builder() -> (r: GetVersionBuilder)
        ensures
            r.id is None,
    {
        GetVersionBuilder { id: None }
    }
}

impl GetVersionBuilder {
    /// Sets `id`: the id of the version to retrieve
    pub fn id(self, value: u64) -> (r: GetVersionBuilder)
        ensures
            r.id == Some(value),
    {
        GetVersionBuilder { id: Some(value) }
    }

    /// The first required field that has not been set, if any.
    pub open spec fn missing_field(&self) -> Option<Seq<char>> {
        if self.id is None {
            Some("id"@)
        } else {
            None
        }
    }

    /// Builds the endpoint; fails on the first required field that has not been set.
    pub fn build(self) -> (r: Result<GetVersion, BuilderError>)
        ensures
            match r {
                Ok(x) => self.missing_field() is None && x == (GetVersion { id: self.id->0 }),
                Err(BuilderError::UninitializedField(n)) => self.missing_field() == Some(n@),
                Err(_) => false,
            },
    {
        let id = match self.id {
            Some(v) => v,
            None => {
                return Err(BuilderError::UninitializedField("id"));
            },
        };
        Ok(GetVersion { id })
    }
}

impl ReturnsJsonResponse for GetVersion {}

impl NoPagination for GetVersion {}

impl Endpoint for GetVersion {
    open spec fn method_spec(&self) -> HttpMethod {
        HttpMethod::Get
    }

    open spec fn endpoint_spec(&self) -> Seq<char> {
        "versions/"@ + decimal(self.id as nat) + ".json"@
    }

    open spec fn parameters_spec(&self) -> Seq<(Seq<char>, Seq<char>)> {
        Seq::empty()
    }

    open spec fn body_spec(&self) -> Option<BodySpec> {
        None
    }

    fn method(&self) -> (r: HttpMethod) {
        HttpMethod::Get
    }

    fn endpoint(&self) -> (r: String) {
        let mut s = String::new();
        s.append("versions/");
        push_decimal(&mut s, self.id);
        s.append(".json");
        assert(s@ =~= self.endpoint_spec());
        s
    }

    fn check_writable(&self) -> (r: bool) {
        true
    }

    fn parameters(&self) -> (r: QueryParams) {
        let mut p = QueryParams::new();
        p
    }

    fn body(&self) -> (r: Result<Option<RequestBody>, Error>) {
        Ok(None)
    }
}

/// The status of a version restricts if issues can be assigned to this
/// version and if assigned issues can be reopened
#[derive(Debug, Clone, Copy, PartialEq, Eq, Structural)]
pub enum VersionStatus {
    /// no restrictions, default
    Open,
    /// can not assign new issues to the version
    Locked,
    /// can not assign new issues and can not reopen assigned issues
    Closed,
}

impl VersionStatus {
    /// The text of the value.
    pub open spec fn text(&self) -> Seq<char> {
        match self {
            VersionStatus::Open => "open"@,
            VersionStatus::Locked => "locked"@,
            VersionStatus::Closed => "closed"@,
        }
    }

    /// The text of the value.
    pub fn to_string(&self) -> (r: String)
        ensures
            r@ == self.text(),
    {
        match self {
            VersionStatus::Open => String::from_str("open"),
            VersionStatus::Locked => String::from_str("locked"),
            VersionStatus::Closed => String::from_str("closed"),
        }
    }
}

impl ToJson for VersionStatus {
    open spec fn json(&self) -> JsonView {
        JsonView::Str(self.text())
    }

    fn to_json(&self) -> (r: JsonValue) {
        JsonValue::Str(self.to_string())
    }
}

/// Version sharing determines the cross-project visibility of the version
#[derive(Debug, Clone, Copy, PartialEq, Eq, Structural)]
pub enum VersionSharing {
    /// default
    NotShared,
    /// only descendant projects in the hierarchy can see the project's version
    Descendants,
    /// descendant projects and ancestor projects in the hierarchy can see the project's version
    Hierarchy,
    /// descendant projects, ancestor projects and other projects in the same tree can see the project's version
    Tree,
    /// versions can be seen by all projects in the Redmine instance
    System,
}

impl VersionSharing {
    /// The text of the value.
    pub open spec fn text(&self) -> Seq<char> {
        match self {
            VersionSharing::NotShared => "none"@,
            VersionSharing::Descendants => "descendants"@,
            VersionSharing::Hierarchy => "hierarchy"@,
            VersionSharing::Tree => "tree"@,
            VersionSharing::System => "system"@,
        }
    }

    /// The text of the value.
    pub fn to_string(&self) -> (r: String)
        ensures
            r@ == self.text(),
    {
        match self {
            VersionSharing::NotShared => String::from_str("none"),
            VersionSharing::Descendants => String::from_str("descendants"),
            VersionSharing::Hierarchy => String::from_str("hierarchy"),
            VersionSharing::Tree => String::from_str("tree"),
            VersionSharing::System => String::from_str("system"),
        }
    }
}

impl ToJson for VersionSharing {
    open spec fn json(&self) -> JsonView {
        JsonView::Str(self.text())
    }

    fn to_json(&self) -> (r: JsonValue) {
        JsonValue::Str(self.to_string())
    }
}

/// The endpoint to create a Redmine project version
#[derive(Debug, Clone)]
pub struct CreateVersion {
    /// the project id or name as it appears in the URL
    pub project_id_or_name: String,
    /// display name
    pub name: String,
    /// the status of the version
    pub status: Option<VersionStatus>,
    /// how the version is shared with other projects
    pub sharing: Option<VersionSharing>,
    /// when the version is due to be released
    pub due_date: Option<Date>,
    /// Description of the version
    pub description: Option<String>,
    /// The title of the wiki page for this version
    pub wiki_page_title: Option<String>,
    /// custom field values
    pub custom_fields: Option<Vec<CustomField>>,
    /// set this version as the default for the project
    pub default_project_version: Option<bool>,
}

/// Builder for [`CreateVersion`].
#[derive(Debug, Clone)]
pub struct CreateVersionBuilder {
    /// the project id or name as it appears in the URL
    pub project_id_or_name: Option<String>,
    /// display name
    pub name: Option<String>,
    /// the status of the version
    pub status: Option<VersionStatus>,
    /// how the version is shared with other projects
    pub sharing: Option<VersionSharing>,
    /// when the version is due to be released
    pub due_date: Option<Date>,
    /// Description of the version
    pub description: Option<String>,
    /// The title of the wiki page for this version
    pub wiki_page_title: Option<String>,
    /// custom field values
    pub custom_fields: Option<Vec<CustomField>>,
    /// set this version as the default for the project
    pub default_project_version: Option<bool>,
}

impl CreateVersion {
    /// Create a builder for the endpoint.
    pub fn builder() -> (r: CreateVersionBuilder)
        ensures
            r.project_id_or_name is None,
            r.name is None,
            r.status is None,
            r.sharing is None,
            r.due_date is None,
            r.description is None,
            r.wiki_page_title is None,
            r.custom_fields is None,
            r.default_project_version is None,
    {
        CreateVersionBuilder { project_id_or_name: None, name: None, status: None, sharing: None, due_date: None, description: None, wiki_page_title: None, custom_fields: None, default_project_version: None }
    }
}

impl CreateVersionBuilder {
    /// Sets `project_id_or_name`: the project id or name as it appears in the URL
    pub fn project_id_or_name(self, value: &str) -> (r: CreateVersionBuilder)
        ensures
            r.project_id_or_name matches Some(s) && s@ == value@,
            r.name == self.name,
            r.status == self.status,
            r.sharing == self.sharing,
            r.due_date == self.due_date,
            r.description == self.description,
            r.wiki_page_title == self.wiki_page_title,
            r.custom_fields == self.custom_fields,
            r.default_project_version == self.default_project_version,
    {
        CreateVersionBuilder { project_id_or_name: Some(String::from_str(value)), name: self.name, status: self.status, sharing: self.sharing, due_date: self.due_date, description: self.description, wiki_page_title: self.wiki_page_title, custom_fields: self.custom_fields, default_project_version: self.default_project_version }
    }

    /// Sets `name`: display name
    pub fn name(self, value: &str) -> (r: CreateVersionBuilder)
        ensures
            r.name matches Some(s) && s@ == value@,
            r.project_id_or_name == self.project_id_or_name,
            r.status == self.status,
            r.sharing == self.sharing,
            r.due_date == self.due_date,
            r.description == self.description,
            r.wiki_page_title == self.wiki_page_title,
            r.custom_fields == self.custom_fields,
            r.default_project_version == self.default_project_version,
    {
        CreateVersionBuilder { project_id_or_name: self.project_id_or_name, name: Some(String::from_str(value)), status: self.status, sharing: self.sharing, due_date: self.due_date, description: self.description, wiki_page_title: self.wiki_page_title, custom_fields: self.custom_fields, default_project_version: self.default_project_version }
    }

    /// Sets `status`: the status of the version
    pub fn status(self, value: VersionStatus) -> (r: CreateVersionBuilder)
        ensures
            r.status == Some(value),
            r.project_id_or_name == self.project_id_or_name,
            r.name == self.name,
            r.sharing == self.sharing,
            r.due_date == self.due_date,
            r.description == self.description,
            r.wiki_page_title == self.wiki_page_title,
            r.custom_fields == self.custom_fields,
            r.default_project_version == self.default_project_version,
    {
        CreateVersionBuilder { project_id_or_name: self.project_id_or_name, name: self.name, status: Some(value), sharing: self.sharing, due_date: self.due_date, description: self.description, wiki_page_title: self.wiki_page_title, custom_fields: self.custom_fields, default_project_version: self.default_project_version }
    }

    /// Sets `sharing`: how the version is shared with other projects
    pub fn sharing(self, value: VersionSharing) -> (r: CreateVersionBuilder)
        ensures
            r.sharing == Some(value),
            r.project_id_or_name == self.project_id_or_name,
            r.name == self.name,
            r.status == self.status,
            r.due_date == self.due_date,
            r.description == self.description,
            r.wiki_page_title == self.wiki_page_title,
            r.custom_fields == self.custom_fields,
            r.default_project_version == self.default_project_version,
    {
        CreateVersionBuilder { project_id_or_name: self.project_id_or_name, name: self.name, status: self.status, sharing: Some(value), due_date: self.due_date, description: self.description, wiki_page_title: self.wiki_page_title, custom_fields: self.custom_fields, default_project_version: self.default_project_version }
    }

    /// Sets `due_date`: when the version is due to be released
    pub fn due_date(self, value: Date) -> (r: CreateVersionBuilder)
        ensures
            r.due_date == Some(value),
            r.project_id_or_name == self.project_id_or_name,
            r.name == self.name,
            r.status == self.status,
            r.sharing == self.sharing,
            r.description == self.description,
            r.wiki_page_title == self.wiki_page_title,
            r.custom_fields == self.custom_fields,
            r.default_project_version == self.default_project_version,
    {
        CreateVersionBuilder { project_id_or_name: self.project_id_or_name, name: self.name, status: self.status, sharing: self.sharing, due_date: Some(value), description: self.description, wiki_page_title: self.wiki_page_title, custom_fields: self.custom_fields, default_project_version: self.default_project_version }
    }

    /// Sets `description`: description of the version
    pub fn description(self, value: &str) -> (r: CreateVersionBuilder)
        ensures
            r.description matches Some(s) && s@ == value@,
            r.project_id_or_name == self.project_id_or_name,
            r.name == self.name,
            r.status == self.status,
            r.sharing == self.sharing,
            r.due_date == self.due_date,
            r.wiki_page_title == self.wiki_page_title,
            r.custom_fields == self.custom_fields,
            r.default_project_version == self.default_project_version,
    {
        CreateVersionBuilder { project_id_or_name: self.project_id_or_name, name: self.name, status: self.status, sharing: self.sharing, due_date: self.due_date, description: Some(String::from_str(value)), wiki_page_title: self.wiki_page_title, custom_fields: self.custom_fields, default_project_version: self.default_project_version }
    }

    /// Sets `wiki_page_title`: the title of the wiki page for this version
    pub fn wiki_page_title(self, value: &str) -> (r: CreateVersionBuilder)
        ensures
            r.wiki_page_title matches Some(s) && s@ == value@,
            r.project_id_or_name == self.project_id_or_name,
            r.name == self.name,
            r.status == self.status,
            r.sharing == self.sharing,
            r.due_date == self.due_date,
            r.description == self.description,
            r.custom_fields == self.custom_fields,
            r.default_project_version == self.default_project_version,
    {
        CreateVersionBuilder { project_id_or_name: self.project_id_or_name, name: self.name, status: self.status, sharing: self.sharing, due_date: self.due_date, description: self.description, wiki_page_title: Some(String::from_str(value)), custom_fields: self.custom_fields, default_project_version: self.default_project_version }
    }

    /// Sets `custom_fields`: custom field values
    pub fn custom_fields(self, value: Vec<CustomField>) -> (r: CreateVersionBuilder)
        ensures
            r.custom_fields == Some(value),
            r.project_id_or_name == self.project_id_or_name,
            r.name == self.name,
            r.status == self.status,
            r.sharing == self.sharing,
            r.due_date == self.due_date,
            r.description == self.description,
            r.wiki_page_title == self.wiki_page_title,
            r.default_project_version == self.default_project_version,
    {
        CreateVersionBuilder { project_id_or_name: self.project_id_or_name, name: self.name, status: self.status, sharing: self.sharing, due_date: self.due_date, description: self.description, wiki_page_title: self.wiki_page_title, custom_fields: Some(value), default_project_version: self.default_project_version }
    }

    /// Sets `default_project_version`: set this version as the default for the project
    pub fn default_project_version(self, value: bool) -> (r: CreateVersionBuilder)
        ensures
            r.default_project_version == Some(value),
            r.project_id_or_name == self.project_id_or_name,
            r.name == self.name,
            r.status == self.status,
            r.sharing == self.sharing,
            r.due_date == self.due_date,
            r.description == self.description,
            r.wiki_page_title == self.wiki_page_title,
            r.custom_fields == self.custom_fields,
    {
        CreateVersionBuilder { project_id_or_name: self.project_id_or_name, name: self.name, status: self.status, sharing: self.sharing, due_date: self.due_date, description: self.description, wiki_page_title: self.wiki_page_title, custom_fields: self.custom_fields, default_project_version: Some(value) }
    }

    /// The first required field that has not been set, if any.
    pub open spec fn missing_field(&self) -> Option<Seq<char>> {
        if self.project_id_or_name is None {
            Some("project_id_or_name"@)
        } else if self.name is None {
            Some("name"@)
        } else {
            None
        }
    }

    /// Builds the endpoint; fails on the first required field that has not been set.
    pub fn build(self) -> (r: Result<CreateVersion, BuilderError>)
        ensures
            match r {
                Ok(x) => self.missing_field() is None && x == (CreateVersion { project_id_or_name: self.project_id_or_name->0, name: self.name->0, status: self.status, sharing: self.sharing, due_date: self.due_date, description: self.description, wiki_page_title: self.wiki_page_title, custom_fields: self.custom_fields, default_project_version: self.default_project_version }),
                Err(BuilderError::UninitializedField(n)) => self.missing_field() == Some(n@),
                Err(_) => false,
            },
    {
        let project_id_or_name = match self.project_id_or_name {
            Some(v) => v,
            None => {
                return Err(BuilderError::UninitializedField("project_id_or_name"));
            },
        };
        let name = match self.name {
            Some(v) => v,
            None => {
                return Err(BuilderError::UninitializedField("name"));
            },
        };
        Ok(CreateVersion { project_id_or_name, name, status: self.status, sharing: self.sharing, due_date: self.due_date, description: self.description, wiki_page_title: self.wiki_page_title, custom_fields: self.custom_fields, default_project_version: self.default_project_version })
    }
}

impl ReturnsJsonResponse for CreateVersion {}

impl NoPagination for CreateVersion {}

impl Endpoint for CreateVersion {
    open spec fn method_spec(&self) -> HttpMethod {
        HttpMethod::Post
    }

    open spec fn endpoint_spec(&self) -> Seq<char> {
        "projects/"@ + self.project_id_or_name@ + "/versions.json"@
    }

    open spec fn parameters_spec(&self) -> Seq<(Seq<char>, Seq<char>)> {
        Seq::empty()
    }

    open spec fn body_spec(&self) -> Option<BodySpec> {
        let inner = {
            let m = Seq::<(Seq<char>, JsonView)>::empty();
            let m = m.push(("name"@, self.name.json()));
            let m = member_opt(m, "status"@, self.status);
            let m = member_opt(m, "sharing"@, self.sharing);
            let m = member_opt(m, "due_date"@, self.due_date);
            let m = member_opt(m, "description"@, self.description);
            let m = member_opt(m, "wiki_page_title"@, self.wiki_page_title);
            let m = member_opt(m, "custom_fields"@, self.custom_fields);
            let m = member_opt(m, "default_project_version"@, self.default_project_version);
            m
        };
        Some(BodySpec::Json(JsonView::Object(seq![("version"@, JsonView::Object(inner))])))
    }

    fn method(&self) -> (r: HttpMethod) {
        HttpMethod::Post
    }

    fn endpoint(&self) -> (r: String) {
        let mut s = String::new();
        s.append("projects/");
        s.append(self.project_id_or_name.as_str());
        s.append("/versions.json");
        assert(s@ =~= self.endpoint_spec());
        s
    }

    fn check_writable(&self) -> (r: bool) {
        true
    }

    fn parameters(&self) -> (r: QueryParams) {
        let mut p = QueryParams::new();
        p
    }

    fn body(&self) -> (r: Result<Option<RequestBody>, Error>) {
        let mut b = ObjectBuilder::new();
        b.insert_value("name", &self.name);
        b.insert_opt("status", &self.status);
        b.insert_opt("sharing", &self.sharing);
        b.insert_opt("due_date", &self.due_date);
        b.insert_opt("description", &self.description);
        b.insert_opt("wiki_page_title", &self.wiki_page_title);
        b.insert_opt("custom_fields", &self.custom_fields);
        b.insert_opt("default_project_version", &self.default_project_version);
        let doc = single_member_object("version", b.build());
        json_body(&doc)
    }
}

/// The endpoint to update an existing Redmine project version
#[derive(Debug, Clone)]
pub struct UpdateVersion {
    /// The id of the version to update
    pub id: u64,
    /// display name
    pub name: Option<String>,
    /// the status of the version
    pub status: Option<VersionStatus>,
    /// how the version is shared with other projects
    pub sharing: Option<VersionSharing>,
    /// when the version is due to be released
    pub due_date: Option<Date>,
    /// Description of the version
    pub description: Option<String>,
    /// The title of the wiki page for this version
    pub wiki_page_title: Option<String>,
    /// custom field values
    pub custom_fields: Option<Vec<CustomField>>,
    /// set this version as the default for the project
    pub default_project_version: Option<bool>,
}

/// Builder for [`UpdateVersion`].
#[derive(Debug, Clone)]
pub struct UpdateVersionBuilder {
    /// The id of the version to update
    pub id: Option<u64>,
    /// display name
    pub name: Option<String>,
    /// the status of the version
    pub status: Option<VersionStatus>,
    /// how the version is shared with other projects
    pub sharing: Option<VersionSharing>,
    /// when the version is due to be released
    pub due_date: Option<Date>,
    /// Description of the version
    pub description: Option<String>,
    /// The title of the wiki page for this version
    pub wiki_page_title: Option<String>,
    /// custom field values
    pub custom_fields: Option<Vec<CustomField>>,
    /// set this version as the default for the project
    pub default_project_version: Option<bool>,
}

impl UpdateVersion {
    /// Create a builder for the endpoint.
    pub fn builder() -> (r: UpdateVersionBuilder)
        ensures
            r.id is None,
            r.name is None,
            r.status is None,
            r.sharing is None,
            r.due_date is None,
            r.description is None,
            r.wiki_page_title is None,
            r.custom_fields is None,
            r.default_project_version is None,
    {
        UpdateVersionBuilder { id: None, name: None, status: None, sharing: None, due_date: None, description: None, wiki_page_title: None, custom_fields: None, default_project_version: None }
    }
}

impl UpdateVersionBuilder {
    /// Sets `id`: the id of the version to update
    pub fn id(self, value: u64) -> (r: UpdateVersionBuilder)
        ensures
            r.id == Some(value),
            r.name == self.name,
            r.status == self.status,
            r.sharing == self.sharing,
            r.due_date == self.due_date,
            r.description == self.description,
            r.wiki_page_title == self.wiki_page_title,
            r.custom_fields == self.custom_fields,
            r.default_project_version == self.default_project_version,
    {
        UpdateVersionBuilder { id: Some(value), name: self.name, status: self.status, sharing: self.sharing, due_date: self.due_date, description: self.description, wiki_page_title: self.wiki_page_title, custom_fields: self.custom_fields, default_project_version: self.default_project_version }
    }

    /// Sets `name`: display name
    pub fn name(self, value: &str) -> (r: UpdateVersionBuilder)
        ensures
            r.name matches Some(s) && s@ == value@,
            r.id == self.id,
            r.status == self.status,
            r.sharing == self.sharing,
            r.due_date == self.due_date,
            r.description == self.description,
            r.wiki_page_title == self.wiki_page_title,
            r.custom_fields == self.custom_fields,
            r.default_project_version == self.default_project_version,
    {
        UpdateVersionBuilder { id: self.id, name: Some(String::from_str(value)), status: self.status, sharing: self.sharing, due_date: self.due_date, description: self.description, wiki_page_title: self.wiki_page_title, custom_fields: self.custom_fields, default_project_version: self.default_project_version }
    }

    /// Sets `status`: the status of the version
    pub fn status(self, value: VersionStatus) -> (r: UpdateVersionBuilder)
        ensures
            r.status == Some(value),
            r.id == self.id,
            r.name == self.name,
            r.sharing == self.sharing,
            r.due_date == self.due_date,
            r.description == self.description,
            r.wiki_page_title == self.wiki_page_title,
            r.custom_fields == self.custom_fields,
            r.default_project_version == self.default_project_version,
    {
        UpdateVersionBuilder { id: self.id, name: self.name, status: Some(value), sharing: self.sharing, due_date: self.due_date, description: self.description, wiki_page_title: self.wiki_page_title, custom_fields: self.custom_fields, default_project_version: self.default_project_version }
    }

    /// Sets `sharing`: how the version is shared with other projects
    pub fn sharing(self, value: VersionSharing) -> (r: UpdateVersionBuilder)
        ensures
            r.sharing == Some(value),
            r.id == self.id,
            r.name == self.name,
            r.status == self.status,
            r.due_date == self.due_date,
            r.description == self.description,
            r.wiki_page_title == self.wiki_page_title,
            r.custom_fields == self.custom_fields,
            r.default_project_version == self.default_project_version,
    {
        UpdateVersionBuilder { id: self.id, name: self.name, status: self.status, sharing: Some(value), due_date: self.due_date, description: self.description, wiki_page_title: self.wiki_page_title, custom_fields: self.custom_fields, default_project_version: self.default_project_version }
    }

    /// Sets `due_date`: when the version is due to be released
    pub fn due_date(self, value: Date) -> (r: UpdateVersionBuilder)
        ensures
            r.due_date == Some(value),
            r.id == self.id,
            r.name == self.name,
            r.status == self.status,
            r.sharing == self.sharing,
            r.description == self.description,
            r.wiki_page_title == self.wiki_page_title,
            r.custom_fields == self.custom_fields,
            r.default_project_version == self.default_project_version,
    {
        UpdateVersionBuilder { id: self.id, name: self.name, status: self.status, sharing: self.sharing, due_date: Some(value), description: self.description, wiki_page_title: self.wiki_page_title, custom_fields: self.custom_fields, default_project_version: self.default_project_version }
    }

    /// Sets `description`: description of the version
    pub fn description(self, value: &str) -> (r: UpdateVersionBuilder)
        ensures
            r.description matches Some(s) && s@ == value@,
            r.id == self.id,
            r.name == self.name,
            r.status == self.status,
            r.sharing == self.sharing,
            r.due_date == self.due_date,
            r.wiki_page_title == self.wiki_page_title,
            r.custom_fields == self.custom_fields,
            r.default_project_version == self.default_project_version,
    {
        UpdateVersionBuilder { id: self.id, name: self.name, status: self.status, sharing: self.sharing, due_date: self.due_date, description: Some(String::from_str(value)), wiki_page_title: self.wiki_page_title, custom_fields: self.custom_fields, default_project_version: self.default_project_version }
    }

    /// Sets `wiki_page_title`: the title of the wiki page for this version
    pub fn wiki_page_title(self, value: &str) -> (r: UpdateVersionBuilder)
        ensures
            r.wiki_page_title matches Some(s) && s@ == value@,
            r.id == self.id,
            r.name == self.name,
            r.status == self.status,
            r.sharing == self.sharing,
            r.due_date == self.due_date,
            r.description == self.description,
            r.custom_fields == self.custom_fields,
            r.default_project_version == self.default_project_version,
    {
        UpdateVersionBuilder { id: self.id, name: self.name, status: self.status, sharing: self.sharing, due_date: self.due_date, description: self.description, wiki_page_title: Some(String::from_str(value)), custom_fields: self.custom_fields, default_project_version: self.default_project_version }
    }

    /// Sets `custom_fields`: custom field values
    pub fn custom_fields(self, value: Vec<CustomField>) -> (r: UpdateVersionBuilder)
        ensures
            r.custom_fields == Some(value),
            r.id == self.id,
            r.name == self.name,
            r.status == self.status,
            r.sharing == self.sharing,
            r.due_date == self.due_date,
            r.description == self.description,
            r.wiki_page_title == self.wiki_page_title,
            r.default_project_version == self.default_project_version,
    {
        UpdateVersionBuilder { id: self.id, name: self.name, status: self.status, sharing: self.sharing, due_date: self.due_date, description: self.description, wiki_page_title: self.wiki_page_title, custom_fields: Some(value), default_project_version: self.default_project_version }
    }

    /// Sets `default_project_version`: set this version as the default for the project
    pub fn default_project_version(self, value: bool) -> (r: UpdateVersionBuilder)
        ensures
            r.default_project_version == Some(value),
            r.id == self.id,
            r.name == self.name,
            r.status == self.status,
            r.sharing == self.sharing,
            r.due_date == self.due_date,
            r.description == self.description,
            r.wiki_page_title == self.wiki_page_title,
            r.custom_fields == self.custom_fields,
    {
        UpdateVersionBuilder { id: self.id, name: self.name, status: self.status, sharing: self.sharing, due_date: self.due_date, description: self.description, wiki_page_title: self.wiki_page_title, custom_fields: self.custom_fields, default_project_version: Some(value) }
    }

    /// The first required field that has not been set, if any.
    pub open spec fn missing_field(&self) -> Option<Seq<char>> {
        if self.id is None {
            Some("id"@)
        } else {
            None
        }
    }

    /// Builds the endpoint; fails on the first required field that has not been set.
    pub fn build(self) -> (r: Result<UpdateVersion, BuilderError>)
        ensures
            match r {
                Ok(x) => self.missing_field() is None && x == (UpdateVersion { id: self.id->0, name: self.name, status: self.status, sharing: self.sharing, due_date: self.due_date, description: self.description, wiki_page_title: self.wiki_page_title, custom_fields: self.custom_fields, default_project_version: self.default_project_version }),
                Err(BuilderError::UninitializedField(n)) => self.missing_field() == Some(n@),
                Err(_) => false,
            },
    {
        let id = match self.id {
            Some(v) => v,
            None => {
                return Err(BuilderError::UninitializedField("id"));
            },
        };
        Ok(UpdateVersion { id, name: self.name, status: self.status, sharing: self.sharing, due_date: self.due_date, description: self.description, wiki_page_title: self.wiki_page_title, custom_fields: self.custom_fields, default_project_version: self.default_project_version })
    }
}

impl Endpoint for UpdateVersion {
    open spec fn method_spec(&self) -> HttpMethod {
        HttpMethod::Put
    }

    open spec fn endpoint_spec(&self) -> Seq<char> {
        "versions/"@ + decimal(self.id as nat) + ".json"@
    }

    open spec fn parameters_spec(&self) -> Seq<(Seq<char>, Seq<char>)> {
        Seq::empty()
    }

    open spec fn body_spec(&self) -> Option<BodySpec> {
        let inner = {
            let m = Seq::<(Seq<char>, JsonView)>::empty();
            let m = member_opt(m, "name"@, self.name);
            let m = member_opt(m, "status"@, self.status);
            let m = member_opt(m, "sharing"@, self.sharing);
            let m = member_opt(m, "due_date"@, self.due_date);
            let m = member_opt(m, "description"@, self.description);
            let m = member_opt(m, "wiki_page_title"@, self.wiki_page_title);
            let m = member_opt(m, "custom_fields"@, self.custom_fields);
            let m = member_opt(m, "default_project_version"@, self.default_project_version);
            m
        };
        Some(BodySpec::Json(JsonView::Object(seq![("version"@, JsonView::Object(inner))])))
    }

    fn method(&self) -> (r: HttpMethod) {
        HttpMethod::Put
    }

    fn endpoint(&self) -> (r: String) {
        let mut s = String::new();
        s.append("versions/");
        push_decimal(&mut s, self.id);
        s.append(".json");
        assert(s@ =~= self.endpoint_spec());
        s
    }

    fn check_writable(&self) -> (r: bool) {
        true
    }

    fn parameters(&self) -> (r: QueryParams) {
        let mut p = QueryParams::new();
        p
    }

    fn body(&self) -> (r: Result<Option<RequestBody>, Error>) {
        let mut b = ObjectBuilder::new();
        b.insert_opt("name", &self.name);
        b.insert_opt("status", &self.status);
        b.insert_opt("sharing", &self.sharing);
        b.insert_opt("due_date", &self.due_date);
        b.insert_opt("description", &self.description);
        b.insert_opt("wiki_page_title", &self.wiki_page_title);
        b.insert_opt("custom_fields", &self.custom_fields);
        b.insert_opt("default_project_version", &self.default_project_version);
        let doc = single_member_object("version", b.build());
        json_body(&doc)
    }
}

/// The endpoint to delete a version in a Redmine project
#[derive(Debug, Clone)]
pub struct DeleteVersion {
    /// the id of the version to delete
    pub id: u64,
}

/// Builder for [`DeleteVersion`].
#[derive(Debug, Clone)]
pub struct DeleteVersionBuilder {
    /// the id of the version to delete
    pub id: Option<u64>,
}

impl DeleteVersion {
    /// Create a builder for the endpoint.
    pub fn builder() -> (r: DeleteVersionBuilder)
        ensures
            r.id is None,
    {
        DeleteVersionBuilder { id: None }
    }
}

impl DeleteVersionBuilder {
    /// Sets `id`: the id of the version to delete
    pub fn id(self, value: u64) -> (r: DeleteVersionBuilder)
        ensures
            r.id == Some(value),
    {
        DeleteVersionBuilder { id: Some(value) }
    }

    /// The first required field that has not been set, if any.
    pub open spec fn missing_field(&self) -> Option<Seq<char>> {
        if self.id is None {
            Some("id"@)
        } else {
            None
        }
    }

    /// Builds the endpoint; fails on the first required field that has not been set.
    pub fn build(self) -> (r: Result<DeleteVersion, BuilderError>)
        ensures
            match r {
                Ok(x) => self.missing_field() is None && x == (DeleteVersion { id: self.id->0 }),
                Err(BuilderError::UninitializedField(n)) => self.missing_field() == Some(n@),
                Err(_) => false,
            },
    {
        let id = match self.id {
            Some(v) => v,
            None => {
                return Err(BuilderError::UninitializedField("id"));
            },
        };
        Ok(DeleteVersion { id })
    }
}

impl Endpoint for DeleteVersion {
    open spec fn method_spec(&self) -> HttpMethod {
        HttpMethod::Delete
    }

    open spec fn endpoint_spec(&self) -> Seq<char> {
        "versions/"@ + decimal(self.id as nat) + ".json"@
    }

    open spec fn parameters_spec(&self) -> Seq<(Seq<char>, Seq<char>)> {
        Seq::empty()
    }

    open spec fn body_spec(&self) -> Option<BodySpec> {
        None
    }

    fn method(&self) -> (r: HttpMethod) {
        HttpMethod::Delete
    }

    fn endpoint(&self) -> (r: String) {
        let mut s = String::new();
        s.append("versions/");
        push_decimal(&mut s, self.id);
        s.append(".json");
        assert(s@ =~= self.endpoint_spec());
        s
    }

    fn check_writable(&self) -> (r: bool) {
        true
    }

    fn parameters(&self) -> (r: QueryParams) {
        let mut p = QueryParams::new();
        p
    }

    fn body(&self) -> (r: Result<Option<RequestBody>, Error>) {
        Ok(None)
    }
}

/// The endpoint to close all completed versions of a Redmine project
#[derive(Debug, Clone)]
pub struct CloseCompletedVersion {
    /// the id of the version
    pub id: u64,
}

/// Builder for [`CloseCompletedVersion`].
#[derive(Debug, Clone)]
pub struct CloseCompletedVersionBuilder {
    /// the id of the version
    pub id: Option<u64>,
}

impl CloseCompletedVersion {
    /// Create a builder for the endpoint.
    pub fn builder() -> (r: CloseCompletedVersionBuilder)
        ensures
            r.id is None,
    {
        CloseCompletedVersionBuilder { id: None }
    }
}

impl CloseCompletedVersionBuilder {
    /// Sets `id`: the id of the version
    pub fn id(self, value: u64) -> (r: CloseCompletedVersionBuilder)
        ensures
            r.id == Some(value),
    {
        CloseCompletedVersionBuilder { id: Some(value) }
    }

    /// The first required field that has not been set, if any.
    pub open spec fn missing_field(&self) -> Option<Seq<char>> {
        if self.id is None {
            Some("id"@)
        } else {
            None
        }
    }

    /// Builds the endpoint; fails on the first required field that has not been set.
    pub fn build(self) -> (r: Result<CloseCompletedVersion, BuilderError>)
        ensures
            match r {
                Ok(x) => self.missing_field() is None && x == (CloseCompletedVersion { id: self.id->0 }),
                Err(BuilderError::UninitializedField(n)) => self.missing_field() == Some(n@),
                Err(_) => false,
            },
    {
        let id = match self.id {
            Some(v) => v,
            None => {
                return Err(BuilderError::UninitializedField("id"));
            },
        };
        Ok(CloseCompletedVersion { id })
    }
}

impl Endpoint for CloseCompletedVersion {
    open spec fn method_spec(&self) -> HttpMethod {
        HttpMethod::Post
    }

    open spec fn endpoint_spec(&self) -> Seq<char> {
        "versions/"@ + decimal(self.id as nat) + "/close_completed.json"@
    }

    open spec fn parameters_spec(&self) -> Seq<(Seq<char>, Seq<char>)> {
        Seq::empty()
    }

    open spec fn body_spec(&self) -> Option<BodySpec> {
        None
    }

    fn method(&self) -> (r: HttpMethod) {
        HttpMethod::Post
    }

    fn endpoint(&self) -> (r: String) {
        let mut s = String::new();
        s.append("versions/");
        push_decimal(&mut s, self.id);
        s.append("/close_completed.json");
        assert(s@ =~= self.endpoint_spec());
        s
    }

    fn check_writable(&self) -> (r: bool) {
        true
    }

    fn parameters(&self) -> (r: QueryParams) {
        let mut p = QueryParams::new();
        p
    }

    fn body(&self) -> (r: Result<Option<RequestBody>, Error>) {
        Ok(None)
    }
}

/// The body of [`CreateVersion`] holds, under `version`, each attribute that is set
/// under its Redmine name, with the attribute's document as the value, and
/// nothing else.
pub proof fn lemma_create_version_body_members(x: CreateVersion)
    ensures
        wrapped_members(x.body_spec()).contains(("name"@, x.name.json())),
        x.status matches Some(v) ==> wrapped_members(x.body_spec()).contains(("status"@, v.json())),
        x.sharing matches Some(v) ==> wrapped_members(x.body_spec()).contains(("sharing"@, v.json())),
        x.due_date matches Some(v) ==> wrapped_members(x.body_spec()).contains(("due_date"@, v.json())),
        x.description matches Some(v) ==> wrapped_members(x.body_spec()).contains(("description"@, v.json())),
        x.wiki_page_title matches Some(v) ==> wrapped_members(x.body_spec()).contains(("wiki_page_title"@, v.json())),
        x.custom_fields matches Some(v) ==> wrapped_members(x.body_spec()).contains(("custom_fields"@, v.json())),
        x.default_project_version matches Some(v) ==> wrapped_members(x.body_spec()).contains(("default_project_version"@, v.json())),
        wrapped_members(x.body_spec()).len() == 1 + present(x.status) + present(x.sharing) + present(x.due_date) + present(x.description) + present(x.wiki_page_title) + present(x.custom_fields) + present(x.default_project_version),
{
    broadcast use crate::api::json::lemma_member_opt_contains, crate::api::json::lemma_member_opt_len,
        crate::api::json::lemma_member_nullable_contains, crate::api::json::lemma_member_nullable_len,
        crate::api::json::lemma_push_member_contains;
}

/// The body of [`UpdateVersion`] holds, under `version`, each attribute that is set
/// under its Redmine name, with the attribute's document as the value, and
/// nothing else.
pub proof fn lemma_update_version_body_members(x: UpdateVersion)
    ensures
        x.name matches Some(v) ==> wrapped_members(x.body_spec()).contains(("name"@, v.json())),
        x.status matches Some(v) ==> wrapped_members(x.body_spec()).contains(("status"@, v.json())),
        x.sharing matches Some(v) ==> wrapped_members(x.body_spec()).contains(("sharing"@, v.json())),
        x.due_date matches Some(v) ==> wrapped_members(x.body_spec()).contains(("due_date"@, v.json())),
        x.description matches Some(v) ==> wrapped_members(x.body_spec()).contains(("description"@, v.json())),
        x.wiki_page_title matches Some(v) ==> wrapped_members(x.body_spec()).contains(("wiki_page_title"@, v.json())),
        x.custom_fields matches Some(v) ==> wrapped_members(x.body_spec()).contains(("custom_fields"@, v.json())),
        x.default_project_version matches Some(v) ==> wrapped_members(x.body_spec()).contains(("default_project_version"@, v.json())),
        wrapped_members(x.body_spec()).len() == 0 + present(x.name) + present(x.status) + present(x.sharing) + present(x.due_date) + present(x.description) + present(x.wiki_page_title) + present(x.custom_fields) + present(x.default_project_version),
{
    broadcast use crate::api::json::lemma_member_opt_contains, crate::api::json::lemma_member_opt_len,
        crate::api::json::lemma_member_nullable_contains, crate::api::json::lemma_member_nullable_len,
        crate::api::json::lemma_push_member_contains;
}

/// The path of [`ListVersions`] names the project by its id or name, and two
/// requests share a path only when they name the same project.
pub proof fn lemma_list_versions_path(x: ListVersions, y: ListVersions)
    ensures
        x.endpoint_spec() == "projects/"@ + x.project_id_or_name@ + "/versions.json"@,
        x.endpoint_spec() == y.endpoint_spec() <==> x.project_id_or_name@ == y.project_id_or_name@,
{
    lemma_text_path_injective("projects/"@, "/versions.json"@, x.project_id_or_name@, y.project_id_or_name@);
}

/// The path of [`GetVersion`] names the object by the decimal of its id, and two
/// requests share a path only when they name the same id.
pub proof fn lemma_get_version_path(x: GetVersion, y: GetVersion)
    ensures
        x.endpoint_spec() == "versions/"@ + decimal(x.id as nat) + ".json"@,
        x.endpoint_spec() == y.endpoint_spec() <==> x.id == y.id,
{
    lemma_id_path_injective("versions/"@, ".json"@, x.id as nat, y.id as nat);
}

/// The path of [`CreateVersion`] names the project by its id or name, and two
/// requests share a path only when they name the same project.
pub proof fn lemma_create_version_path(x: CreateVersion, y: CreateVersion)
    ensures
        x.endpoint_spec() == "projects/"@ + x.project_id_or_name@ + "/versions.json"@,
        x.endpoint_spec() == y.endpoint_spec() <==> x.project_id_or_name@ == y.project_id_or_name@,
{
    lemma_text_path_injective("projects/"@, "/versions.json"@, x.project_id_or_name@, y.project_id_or_name@);
}

/// The path of [`UpdateVersion`] names the object by the decimal of its id, and two
/// requests share a path only when they name the same id.
pub proof fn lemma_update_version_path(x: UpdateVersion, y: UpdateVersion)
    ensures
        x.endpoint_spec() == "versions/"@ + decimal(x.id as nat) + ".json"@,
        x.endpoint_spec() == y.endpoint_spec() <==> x.id == y.id,
{
    lemma_id_path_injective("versions/"@, ".json"@, x.id as nat, y.id as nat);
}

/// The path of [`DeleteVersion`] names the object by the decimal of its id, and two
/// requests share a path only when they name the same id.
pub proof fn lemma_delete_version_path(x: DeleteVersion, y: DeleteVersion)
    ensures
        x.endpoint_spec() == "versions/"@ + decimal(x.id as nat) + ".json"@,
        x.endpoint_spec() == y.endpoint_spec() <==> x.id == y.id,
{
    lemma_id_path_injective("versions/"@, ".json"@, x.id as nat, y.id as nat);
}

/// The path of [`CloseCompletedVersion`] names the object by the decimal of its id, and two
/// requests share a path only when they name the same id.
pub proof fn lemma_close_completed_version_path(x: CloseCompletedVersion, y: CloseCompletedVersion)
    ensures
        x.endpoint_spec() == "versions/"@ + decimal(x.id as nat) + "/close_completed.json"@,
        x.endpoint_spec() == y.endpoint_spec() <==> x.id == y.id,
{
    lemma_id_path_injective("versions/"@, "/close_completed.json"@, x.id as nat, y.id as nat);
}

/// Different values of [`VersionStatus`] are sent as different texts.
pub proof fn lemma_version_status_text_injective(x: VersionStatus, y: VersionStatus)
    ensures
        x.text() == y.text() ==> x == y,
{
    reveal_strlit("closed");
    reveal_strlit("locked");
    reveal_strlit("open");
    assert("open"@.len() != "locked"@.len());
    assert("open"@.len() != "closed"@.len());
    assert("locked"@[0] != "closed"@[0]);
}

/// Different values of [`VersionSharing`] are sent as different texts.
pub proof fn lemma_version_sharing_text_injective(x: VersionSharing, y: VersionSharing)
    ensures
        x.text() == y.text() ==> x == y,
{
    reveal_strlit("descendants");
    reveal_strlit("hierarchy");
    reveal_strlit("none");
    reveal_strlit("system");
    reveal_strlit("tree");
    assert("none"@.len() != "descendants"@.len());
    assert("none"@.len() != "hierarchy"@.len());
    assert("none"@[0] != "tree"@[0]);
    assert("none"@.len() != "system"@.len());
    assert("descendants"@.len() != "hierarchy"@.len());
    assert("descendants"@.len() != "tree"@.len());
    assert("descendants"@.len() != "system"@.len());
    assert("hierarchy"@.len() != "tree"@.len());
    assert("hierarchy"@.len() != "system"@.len());
    assert("tree"@.len() != "system"@.len());
}

/// The requests of this module use the HTTP method that fits what they do:
/// `GET` to read, `POST` to create or add, `PUT` to change and `DELETE` to
/// remove.
pub proof fn lemma_versions_methods(list_versions: ListVersions, get_version: GetVersion, create_version: CreateVersion, update_version: UpdateVersion, delete_version: DeleteVersion, close_completed_version: CloseCompletedVersion)
    ensures
        list_versions.method_spec() == HttpMethod::Get,
        get_version.method_spec() == HttpMethod::Get,
        create_version.method_spec() == HttpMethod::Post,
        update_version.method_spec() == HttpMethod::Put,
        delete_version.method_spec() == HttpMethod::Delete,
        close_completed_version.method_spec() == HttpMethod::Post,
{
}

/// The requests of this module that address the same collection, or the
/// same object, use the same path: listing and creating share the
/// collection's path, and reading, changing and removing an object share
/// the object's path.
pub proof fn lemma_versions_shared_paths(list_versions: ListVersions, create_version: CreateVersion, get_version: GetVersion, update_version: UpdateVersion, delete_version: DeleteVersion)
    ensures
        list_versions.project_id_or_name@ == create_version.project_id_or_name@ ==> list_versions.endpoint_spec() == create_version.endpoint_spec(),
        get_version.id == update_version.id ==> get_version.endpoint_spec() == update_version.endpoint_spec(),
        get_version.id == delete_version.id ==> get_version.endpoint_spec() == delete_version.endpoint_spec(),
{
}

} // verus!
