//! Projects Rest API Endpoint definitions
//!
//! [Redmine Documentation](https://www.redmine.org/projects/redmine/wiki/Rest_Projects)
use vstd::prelude::*;
use vstd::string::StringExecFns;
use crate::Error;
use crate::api::endpoint::{
    BodySpec, BuilderError, Endpoint, HttpMethod, NoPagination, Pageable, RequestBody,
    ReturnsJsonResponse, json_body,
};
use crate::api::json::{
    JsonValue, JsonView, ObjectBuilder, ToJson, member_nullable, member_opt, single_member_object,
};
use crate::api::query::{ParamValue, QueryParams, opt_param_ok, push_opt_spec};
use crate::api::text::{decimal, push_decimal};
use crate::api::json::string_value;
use crate::api::text::u64_to_string;

use crate::api::query::present;
use crate::api::bodies::wrapped_members;
use crate::api::text::{lemma_text_path_injective};
verus! {

/// The types of associated data which can be fetched along with a project
#[derive(Debug, Clone, Copy, PartialEq, Eq, Structural)]
pub enum ProjectsInclude {
    /// Trackers enabled in the project
    Trackers,
    /// Issue categories in the project
    IssueCategories,
    /// Redmine Modules enabled in the project
    EnabledModules,
}

impl ProjectsInclude {
    /// The text of the value.
    pub open spec fn text(&self) -> Seq<char> {
        match self {
            ProjectsInclude::Trackers => "trackers"@,
            ProjectsInclude::IssueCategories => "issue_categories"@,
            ProjectsInclude::EnabledModules => "enabled_modules"@,
        }
    }

    /// The text of the value.
    pub fn to_string(&self) -> (r: String)
        ensures
            r@ == self.text(),
    {
        match self {
            ProjectsInclude::Trackers => String::from_str("trackers"),
            ProjectsInclude::IssueCategories => String::from_str("issue_categories"),
            ProjectsInclude::EnabledModules => String::from_str("enabled_modules"),
        }
    }
}

impl ParamValue for ProjectsInclude {
    open spec fn param_text(&self) -> Seq<char> {
        self.text()
    }

    fn as_value(&self) -> (r: String) {
        self.to_string()
    }
}

/// The types of associated data which can be fetched along with a project
#[derive(Debug, Clone, Copy, PartialEq, Eq, Structural)]
pub enum ProjectInclude {
    /// Trackers enabled in the project
    Trackers,
    /// Issue categories in the project
    IssueCategories,
    /// Redmine Modules enabled in the project
    EnabledModules,
    /// Time Entry Activities enabled in the project
    TimeEntryActivities,
}

impl ProjectInclude {
    /// The text of the value.
    pub open spec fn text(&self) -> Seq<char> {
        match self {
            ProjectInclude::Trackers => "trackers"@,
            ProjectInclude::IssueCategories => "issue_categories"@,
            ProjectInclude::EnabledModules => "enabled_modules"@,
            ProjectInclude::TimeEntryActivities => "time_entry_activities"@,
        }
    }

    /// The text of the value.
    pub fn to_string(&self) -> (r: String)
        ensures
            r@ == self.text(),
    {
        match self {
            ProjectInclude::Trackers => String::from_str("trackers"),
            ProjectInclude::IssueCategories => String::from_str("issue_categories"),
            ProjectInclude::EnabledModules => String::from_str("enabled_modules"),
            ProjectInclude::TimeEntryActivities => String::from_str("time_entry_activities"),
        }
    }
}

impl ParamValue for ProjectInclude {
    open spec fn param_text(&self) -> Seq<char> {
        self.text()
    }

    fn as_value(&self) -> (r: String) {
        self.to_string()
    }
}

/// Values of custom fields, by the id of the custom field.
///
/// Sent as a JSON object whose member names are the decimal ids.
#[derive(Debug, Clone)]
pub struct CustomFieldValues {
    /// the pairs of custom field id and value
    pub values: Vec<(u64, String)>,
}

impl ToJson for CustomFieldValues {
    open spec fn json(&self) -> JsonView {
        JsonView::Object(
            self.values@.map_values(
                |p: (u64, String)| (decimal(p.0 as nat), JsonView::Str(p.1@)),
            ),
        )
    }

    fn to_json(&self) -> (r: JsonValue) {
        let mut b = ObjectBuilder::new();
        let mut i: usize = 0;
        while i < self.values.len()
            invariant
                i <= self.values.len(),
                b@ == self.values@.take(i as int).map_values(
                    |p: (u64, String)| (decimal(p.0 as nat), JsonView::Str(p.1@)),
                ),
            decreases self.values.len() - i,
        {
            let (id, value) = &self.values[i];
            let key = u64_to_string(*id);
            b.insert(key.as_str(), string_value(value));
            assert(self.values@.take(i + 1) =~= self.values@.take(i as int).push(self.values@[i as int]));
            assert(b@ =~= self.values@.take(i + 1).map_values(
                |p: (u64, String)| (decimal(p.0 as nat), JsonView::Str(p.1@)),
            ));
            i = i + 1;
        }
        assert(self.values@.take(self.values.len() as int) =~= self.values@);
        b.build()
    }
}

/// The endpoint for all Redmine projects
#[derive(Debug, Clone)]
pub struct ListProjects {
    /// the types of associated data to include
    pub includes: Option<Vec<ProjectsInclude>>,
}

/// Builder for [`ListProjects`].
#[derive(Debug, Clone)]
pub struct ListProjectsBuilder {
    /// the types of associated data to include
    pub includes: Option<Vec<ProjectsInclude>>,
}

impl ListProjects {
    /// Create a builder for the endpoint.
    pub fn builder() -> (r: ListProjectsBuilder)
        ensures
            r.includes is None,
    {
        ListProjectsBuilder { includes: None }
    }
}

impl ListProjectsBuilder {
    /// Sets `includes`: the types of associated data to include
    pub fn includes(self, value: Vec<ProjectsInclude>) -> (r: ListProjectsBuilder)
        ensures
            r.includes == Some(value),
    {
        ListProjectsBuilder { includes: Some(value) }
    }

    /// The first required field that has not been set, if any.
    pub open spec fn missing_field(&self) -> Option<Seq<char>> {
        None
    }

    /// Builds the endpoint; fails on the first required field that has not been set.
    pub fn build(self) -> (r: Result<ListProjects, BuilderError>)
        ensures
            match r {
                Ok(x) => self.missing_field() is None && x == (ListProjects { includes: self.includes }),
                Err(BuilderError::UninitializedField(n)) => self.missing_field() == Some(n@),
                Err(_) => false,
            },
    {
        Ok(ListProjects { includes: self.includes })
    }
}

impl ReturnsJsonResponse for ListProjects {}

impl Pageable for ListProjects {
    open spec fn wrapper_key_spec(&self) -> Seq<char> {
        "projects"@
    }

    fn response_wrapper_key(&self) -> (r: String) {
        String::from_str("projects")
    }
}

impl Endpoint for ListProjects {
    open spec fn method_spec(&self) -> HttpMethod {
        HttpMethod::Get
    }

    open spec fn endpoint_spec(&self) -> Seq<char> {
        "projects.json"@
    }

    open spec fn parameters_spec(&self) -> Seq<(Seq<char>, Seq<char>)> {
        let p = Seq::<(Seq<char>, Seq<char>)>::empty();
        let p = push_opt_spec(p, "include"@, self.includes);
        p
    }

    open spec fn body_spec(&self) -> Option<BodySpec> {
        None
    }

    fn method(&self) -> (r: HttpMethod) {
        HttpMethod::Get
    }

    fn endpoint(&self) -> (r: String) {
        String::from_str("projects.json")
    }

    fn check_writable(&self) -> (r: bool) {
        true
    }

    fn parameters(&self) -> (r: QueryParams) {
        let mut p = QueryParams::new();
        p.push_opt("include", &self.includes);
        p
    }

    fn body(&self) -> (r: Result<Option<RequestBody>, Error>) {
        Ok(None)
    }
}

/// The endpoint for a specific Redmine project
#[derive(Debug, Clone)]
pub struct GetProject {
    /// the project id or name as it appears in the URL
    pub project_id_or_name: String,
    /// the types of associated data to include
    pub includes: Option<Vec<ProjectInclude>>,
}

/// Builder for [`GetProject`].
#[derive(Debug, Clone)]
pub struct GetProjectBuilder {
    /// the project id or name as it appears in the URL
    pub project_id_or_name: Option<String>,
    /// the types of associated data to include
    pub includes: Option<Vec<ProjectInclude>>,
}

impl GetProject {
    /// Create a builder for the endpoint.
    pub fn builder() -> (r: GetProjectBuilder)
        ensures
            r.project_id_or_name is None,
            r.includes is None,
    {
        GetProjectBuilder { project_id_or_name: None, includes: None }
    }
}

impl GetProjectBuilder {
    /// Sets `project_id_or_name`: the project id or name as it appears in the URL
    pub fn project_id_or_name(self, value: &str) -> (r: GetProjectBuilder)
        ensures
            r.project_id_or_name matches Some(s) && s@ == value@,
            r.includes == self.includes,
    {
        GetProjectBuilder { project_id_or_name: Some(String::from_str(value)), includes: self.includes }
    }

    /// Sets `includes`: the types of associated data to include
    pub fn includes(self, value: Vec<ProjectInclude>) -> (r: GetProjectBuilder)
        ensures
            r.includes == Some(value),
            r.project_id_or_name == self.project_id_or_name,
    {
        GetProjectBuilder { project_id_or_name: self.project_id_or_name, includes: Some(value) }
    }

    /// The first required field that has not been set, if any.
    pub open spec fn missing_field(&self) -> Option<Seq<char>> {
        if self.project_id_or_name is None {
            Some("project_id_or_name"@)
        } else {
            None
        }
    }

    /// Builds the endpoint; fails on the first required field that has not been set.
    pub fn build(self) -> (r: Result<GetProject, BuilderError>)
        ensures
            match r {
                Ok(x) => self.missing_field() is None && x == (GetProject { project_id_or_name: self.project_id_or_name->0, includes: self.includes }),
                Err(BuilderError::UninitializedField(n)) => self.missing_field() == Some(n@),
                Err(_) => false,
            },
    {
        let project_id_or_name = match self.project_id_or_name {
            Some(v) => v,
            None => {
                return Err(BuilderError::UninitializedField("project_id_or_name"));
            },
        };
        Ok(GetProject { project_id_or_name, includes: self.includes })
    }
}

impl ReturnsJsonResponse for GetProject {}

impl NoPagination for GetProject {}

impl Endpoint for GetProject {
    open spec fn method_spec(&self) -> HttpMethod {
        HttpMethod::Get
    }

    open spec fn endpoint_spec(&self) -> Seq<char> {
        "projects/"@ + self.project_id_or_name@ + ".json"@
    }

    open spec fn parameters_spec(&self) -> Seq<(Seq<char>, Seq<char>)> {
        let p = Seq::<(Seq<char>, Seq<char>)>::empty();
        let p = push_opt_spec(p, "include"@, self.includes);
        p
    }

    open spec fn body_spec(&self) -> Option<BodySpec> {
        None
    }

    fn method(&self) -> (r: HttpMethod) {
        HttpMethod::Get
    }

    fn endpoint(&self) -> (r: String) {
        let mut s = String::new();
        s.append("projects/");
        s.append(self.project_id_or_name.as_str());
        s.append(".json");
        assert(s@ =~= self.endpoint_spec());
        s
    }

    fn check_writable(&self) -> (r: bool) {
        true
    }

    fn parameters(&self) -> (r: QueryParams) {
        let mut p = QueryParams::new();
        p.push_opt("include", &self.includes);
        p
    }

    fn body(&self) -> (r: Result<Option<RequestBody>, Error>) {
        Ok(None)
    }
}

/// The endpoint to archive a Redmine project
#[derive(Debug, Clone)]
pub struct ArchiveProject {
    /// the project id or name as it appears in the URL of the project to archive
    pub project_id_or_name: String,
}

/// Builder for [`ArchiveProject`].
#[derive(Debug, Clone)]
pub struct ArchiveProjectBuilder {
    /// the project id or name as it appears in the URL of the project to archive
    pub project_id_or_name: Option<String>,
}

impl ArchiveProject {
    /// Create a builder for the endpoint.
    pub fn builder() -> (r: ArchiveProjectBuilder)
        ensures
            r.project_id_or_name is None,
    {
        ArchiveProjectBuilder { project_id_or_name: None }
    }
}

impl ArchiveProjectBuilder {
    /// Sets `project_id_or_name`: the project id or name as it appears in the URL of the project to archive
    pub fn project_id_or_name(self, value: &str) -> (r: ArchiveProjectBuilder)
        ensures
            r.project_id_or_name matches Some(s) && s@ == value@,
    {
        ArchiveProjectBuilder { project_id_or_name: Some(String::from_str(value)) }
    }

    /// The first required field that has not been set, if any.
    pub open spec fn missing_field(&self) -> Option<Seq<char>> {
        if self.project_id_or_name is None {
            Some("project_id_or_name"@)
        } else {
            None
        }
    }

    /// Builds the endpoint; fails on the first required field that has not been set.
    pub fn build(self) -> (r: Result<ArchiveProject, BuilderError>)
        ensures
            match r {
                Ok(x) => self.missing_field() is None && x == (ArchiveProject { project_id_or_name: self.project_id_or_name->0 }),
                Err(BuilderError::UninitializedField(n)) => self.missing_field() == Some(n@),
                Err(_) => false,
            },
    {
        let project_id_or_name = match self.project_id_or_name {
            Some(v) => v,
            None => {
                return Err(BuilderError::UninitializedField("project_id_or_name"));
            },
        };
        Ok(ArchiveProject { project_id_or_name })
    }
}

impl Endpoint for ArchiveProject {
    open spec fn method_spec(&self) -> HttpMethod {
        HttpMethod::Put
    }

    open spec fn endpoint_spec(&self) -> Seq<char> {
        "projects/"@ + self.project_id_or_name@ + "/archive.json"@
    }

    open spec fn parameters_spec(&self) -> Seq<(Seq<char>, Seq<char>)> {
        Seq::empty()
    }

    open spec fn body_spec(&self) -> Option<BodySpec> {
        None
    }

    fn method(&self) -> (r: HttpMethod) {
        HttpMethod::Put
    }

    fn endpoint(&self) -> (r: String) {
        let mut s = String::new();
        s.append("projects/");
        s.append(self.project_id_or_name.as_str());
        s.append("/archive.json");
        assert(s@ =~= self.endpoint_spec());
        s
    }

    fn check_writable(&self) -> (r: bool) {
        true
    }

    fn parameters(&self) -> (r: QueryParams) {
        let mut p = QueryParams::new();
        p
    }

    fn body(&self) -> (r: Result<Option<RequestBody>, Error>) {
        Ok(None)
    }
}

/// The endpoint to unarchive a Redmine project
#[derive(Debug, Clone)]
pub struct UnarchiveProject {
    /// the project id or name as it appears in the URL of the project to unarchive
    pub project_id_or_name: String,
}

/// Builder for [`UnarchiveProject`].
#[derive(Debug, Clone)]
pub struct UnarchiveProjectBuilder {
    /// the project id or name as it appears in the URL of the project to unarchive
    pub project_id_or_name: Option<String>,
}

impl UnarchiveProject {
    /// Create a builder for the endpoint.
    pub fn builder() -> (r: UnarchiveProjectBuilder)
        ensures
            r.project_id_or_name is None,
    {
        UnarchiveProjectBuilder { project_id_or_name: None }
    }
}

impl UnarchiveProjectBuilder {
    /// Sets `project_id_or_name`: the project id or name as it appears in the URL of the project to unarchive
    pub fn project_id_or_name(self, value: &str) -> (r: UnarchiveProjectBuilder)
        ensures
            r.project_id_or_name matches Some(s) && s@ == value@,
    {
        UnarchiveProjectBuilder { project_id_or_name: Some(String::from_str(value)) }
    }

    /// The first required field that has not been set, if any.
    pub open spec fn missing_field(&self) -> Option<Seq<char>> {
        if self.project_id_or_name is None {
            Some("project_id_or_name"@)
        } else {
            None
        }
    }

    /// Builds the endpoint; fails on the first required field that has not been set.
    pub fn build(self) -> (r: Result<UnarchiveProject, BuilderError>)
        ensures
            match r {
                Ok(x) => self.missing_field() is None && x == (UnarchiveProject { project_id_or_name: self.project_id_or_name->0 }),
                Err(BuilderError::UninitializedField(n)) => self.missing_field() == Some(n@),
                Err(_) => false,
            },
    {
        let project_id_or_name = match self.project_id_or_name {
            Some(v) => v,
            None => {
                return Err(BuilderError::UninitializedField("project_id_or_name"));
            },
        };
        Ok(UnarchiveProject { project_id_or_name })
    }
}

impl Endpoint for UnarchiveProject {
    open spec fn method_spec(&self) -> HttpMethod {
        HttpMethod::Put
    }

    open spec fn endpoint_spec(&self) -> Seq<char> {
        "projects/"@ + self.project_id_or_name@ + "/unarchive.json"@
    }

    open spec fn parameters_spec(&self) -> Seq<(Seq<char>, Seq<char>)> {
        Seq::empty()
    }

    open spec fn body_spec(&self) -> Option<BodySpec> {
        None
    }

    fn method(&self) -> (r: HttpMethod) {
        HttpMethod::Put
    }

    fn endpoint(&self) -> (r: String) {
        let mut s = String::new();
        s.append("projects/");
        s.append(self.project_id_or_name.as_str());
        s.append("/unarchive.json");
        assert(s@ =~= self.endpoint_spec());
        s
    }

    fn check_writable(&self) -> (r: bool) {
        true
    }

    fn parameters(&self) -> (r: QueryParams) {
        let mut p = QueryParams::new();
        p
    }

    fn body(&self) -> (r: Result<Option<RequestBody>, Error>) {
        Ok(None)
    }
}

/// The endpoint to create a Redmine project
#[derive(Debug, Clone)]
pub struct CreateProject {
    /// the name of the project
    pub name: String,
    /// the identifier of the project as it appears in the URL
    pub identifier: String,
    /// description of the project
    pub description: Option<String>,
    /// the project homepage
    pub homepage: Option<String>,
    /// is the project public (visible to anonymous users)
    pub is_public: Option<bool>,
    /// the parent project id
    pub parent_id: Option<u64>,
    /// will the project inherit members from its ancestors
    pub inherit_members: Option<bool>,
    /// ID of the default user
    pub default_assigned_to_id: Option<u64>,
    /// ID of the default version
    pub default_version_id: Option<u64>,
    /// trackers to enable in the project
    pub tracker_ids: Option<Vec<u64>>,
    /// modules to enable in the project
    pub enabled_module_names: Option<Vec<String>>,
    /// custom issue fields to enable in the project
    pub issue_custom_field_id: Option<Vec<u64>>,
    /// values for custom fields
    pub custom_field_values: Option<CustomFieldValues>,
}

/// Builder for [`CreateProject`].
#[derive(Debug, Clone)]
pub struct CreateProjectBuilder {
    /// the name of the project
    pub name: Option<String>,
    /// the identifier of the project as it appears in the URL
    pub identifier: Option<String>,
    /// description of the project
    pub description: Option<String>,
    /// the project homepage
    pub homepage: Option<String>,
    /// is the project public (visible to anonymous users)
    pub is_public: Option<bool>,
    /// the parent project id
    pub parent_id: Option<u64>,
    /// will the project inherit members from its ancestors
    pub inherit_members: Option<bool>,
    /// ID of the default user
    pub default_assigned_to_id: Option<u64>,
    /// ID of the default version
    pub default_version_id: Option<u64>,
    /// trackers to enable in the project
    pub tracker_ids: Option<Vec<u64>>,
    /// modules to enable in the project
    pub enabled_module_names: Option<Vec<String>>,
    /// custom issue fields to enable in the project
    pub issue_custom_field_id: Option<Vec<u64>>,
    /// values for custom fields
    pub custom_field_values: Option<CustomFieldValues>,
}

impl CreateProject {
    /// Create a builder for the endpoint.
    pub fn builder() -> (r: CreateProjectBuilder)
        ensures
            r.name is None,
            r.identifier is None,
            r.description is None,
            r.homepage is None,
            r.is_public is None,
            r.parent_id is None,
            r.inherit_members is None,
            r.default_assigned_to_id is None,
            r.default_version_id is None,
            r.tracker_ids is None,
            r.enabled_module_names is None,
            r.issue_custom_field_id is None,
            r.custom_field_values is None,
    {
        CreateProjectBuilder { name: None, identifier: None, description: None, homepage: None, is_public: None, parent_id: None, inherit_members: None, default_assigned_to_id: None, default_version_id: None, tracker_ids: None, enabled_module_names: None, issue_custom_field_id: None, custom_field_values: None }
    }
}

impl CreateProjectBuilder {
    /// Sets `name`: the name of the project
    pub fn name(self, value: &str) -> (r: CreateProjectBuilder)
        ensures
            r.name matches Some(s) && s@ == value@,
            r.identifier == self.identifier,
            r.description == self.description,
            r.homepage == self.homepage,
            r.is_public == self.is_public,
            r.parent_id == self.parent_id,
            r.inherit_members == self.inherit_members,
            r.default_assigned_to_id == self.default_assigned_to_id,
            r.default_version_id == self.default_version_id,
            r.tracker_ids == self.tracker_ids,
            r.enabled_module_names == self.enabled_module_names,
            r.issue_custom_field_id == self.issue_custom_field_id,
            r.custom_field_values == self.custom_field_values,
    {
        CreateProjectBuilder { name: Some(String::from_str(value)), identifier: self.identifier, description: self.description, homepage: self.homepage, is_public: self.is_public, parent_id: self.parent_id, inherit_members: self.inherit_members, default_assigned_to_id: self.default_assigned_to_id, default_version_id: self.default_version_id, tracker_ids: self.tracker_ids, enabled_module_names: self.enabled_module_names, issue_custom_field_id: self.issue_custom_field_id, custom_field_values: self.custom_field_values }
    }

    /// Sets `identifier`: the identifier of the project as it appears in the URL
    pub fn identifier(self, value: &str) -> (r: CreateProjectBuilder)
        ensures
            r.identifier matches Some(s) && s@ == value@,
            r.name == self.name,
            r.description == self.description,
            r.homepage == self.homepage,
            r.is_public == self.is_public,
            r.parent_id == self.parent_id,
            r.inherit_members == self.inherit_members,
            r.default_assigned_to_id == self.default_assigned_to_id,
            r.default_version_id == self.default_version_id,
            r.tracker_ids == self.tracker_ids,
            r.enabled_module_names == self.enabled_module_names,
            r.issue_custom_field_id == self.issue_custom_field_id,
            r.custom_field_values == self.custom_field_values,
    {
        CreateProjectBuilder { name: self.name, identifier: Some(String::from_str(value)), description: self.description, homepage: self.homepage, is_public: self.is_public, parent_id: self.parent_id, inherit_members: self.inherit_members, default_assigned_to_id: self.default_assigned_to_id, default_version_id: self.default_version_id, tracker_ids: self.tracker_ids, enabled_module_names: self.enabled_module_names, issue_custom_field_id: self.issue_custom_field_id, custom_field_values: self.custom_field_values }
    }

    /// Sets `description`: description of the project
    pub fn description(self, value: &str) -> (r: CreateProjectBuilder)
        ensures
            r.description matches Some(s) && s@ == value@,
            r.name == self.name,
            r.identifier == self.identifier,
            r.homepage == self.homepage,
            r.is_public == self.is_public,
            r.parent_id == self.parent_id,
            r.inherit_members == self.inherit_members,
            r.default_assigned_to_id == self.default_assigned_to_id,
            r.default_version_id == self.default_version_id,
            r.tracker_ids == self.tracker_ids,
            r.enabled_module_names == self.enabled_module_names,
            r.issue_custom_field_id == self.issue_custom_field_id,
            r.custom_field_values == self.custom_field_values,
    {
        CreateProjectBuilder { name: self.name, identifier: self.identifier, description: Some(String::from_str(value)), homepage: self.homepage, is_public: self.is_public, parent_id: self.parent_id, inherit_members: self.inherit_members, default_assigned_to_id: self.default_assigned_to_id, default_version_id: self.default_version_id, tracker_ids: self.tracker_ids, enabled_module_names: self.enabled_module_names, issue_custom_field_id: self.issue_custom_field_id, custom_field_values: self.custom_field_values }
    }

    /// Sets `homepage`: the project homepage
    pub fn homepage(self, value: &str) -> (r: CreateProjectBuilder)
        ensures
            r.homepage matches Some(s) && s@ == value@,
            r.name == self.name,
            r.identifier == self.identifier,
            r.description == self.description,
            r.is_public == self.is_public,
            r.parent_id == self.parent_id,
            r.inherit_members == self.inherit_members,
            r.default_assigned_to_id == self.default_assigned_to_id,
            r.default_version_id == self.default_version_id,
            r.tracker_ids == self.tracker_ids,
            r.enabled_module_names == self.enabled_module_names,
            r.issue_custom_field_id == self.issue_custom_field_id,
            r.custom_field_values == self.custom_field_values,
    {
        CreateProjectBuilder { name: self.name, identifier: self.identifier, description: self.description, homepage: Some(String::from_str(value)), is_public: self.is_public, parent_id: self.parent_id, inherit_members: self.inherit_members, default_assigned_to_id: self.default_assigned_to_id, default_version_id: self.default_version_id, tracker_ids: self.tracker_ids, enabled_module_names: self.enabled_module_names, issue_custom_field_id: self.issue_custom_field_id, custom_field_values: self.custom_field_values }
    }

    /// Sets `is_public`: is the project public (visible to anonymous users)
    pub fn is_public(self, value: bool) -> (r: CreateProjectBuilder)
        ensures
            r.is_public == Some(value),
            r.name == self.name,
            r.identifier == self.identifier,
            r.description == self.description,
            r.homepage == self.homepage,
            r.parent_id == self.parent_id,
            r.inherit_members == self.inherit_members,
            r.default_assigned_to_id == self.default_assigned_to_id,
            r.default_version_id == self.default_version_id,
            r.tracker_ids == self.tracker_ids,
            r.enabled_module_names == self.enabled_module_names,
            r.issue_custom_field_id == self.issue_custom_field_id,
            r.custom_field_values == self.custom_field_values,
    {
        CreateProjectBuilder { name: self.name, identifier: self.identifier, description: self.description, homepage: self.homepage, is_public: Some(value), parent_id: self.parent_id, inherit_members: self.inherit_members, default_assigned_to_id: self.default_assigned_to_id, default_version_id: self.default_version_id, tracker_ids: self.tracker_ids, enabled_module_names: self.enabled_module_names, issue_custom_field_id: self.issue_custom_field_id, custom_field_values: self.custom_field_values }
    }

    /// Sets `parent_id`: the parent project id
    pub fn parent_id(self, value: u64) -> (r: CreateProjectBuilder)
        ensures
            r.parent_id == Some(value),
            r.name == self.name,
            r.identifier == self.identifier,
            r.description == self.description,
            r.homepage == self.homepage,
            r.is_public == self.is_public,
            r.inherit_members == self.inherit_members,
            r.default_assigned_to_id == self.default_assigned_to_id,
            r.default_version_id == self.default_version_id,
            r.tracker_ids == self.tracker_ids,
            r.enabled_module_names == self.enabled_module_names,
            r.issue_custom_field_id == self.issue_custom_field_id,
            r.custom_field_values == self.custom_field_values,
    {
        CreateProjectBuilder { name: self.name, identifier: self.identifier, description: self.description, homepage: self.homepage, is_public: self.is_public, parent_id: Some(value), inherit_members: self.inherit_members, default_assigned_to_id: self.default_assigned_to_id, default_version_id: self.default_version_id, tracker_ids: self.tracker_ids, enabled_module_names: self.enabled_module_names, issue_custom_field_id: self.issue_custom_field_id, custom_field_values: self.custom_field_values }
    }

    /// Sets `inherit_members`: will the project inherit members from its ancestors
    pub fn inherit_members(self, value: bool) -> (r: CreateProjectBuilder)
        ensures
            r.inherit_members == Some(value),
            r.name == self.name,
            r.identifier == self.identifier,
            r.description == self.description,
            r.homepage == self.homepage,
            r.is_public == self.is_public,
            r.parent_id == self.parent_id,
            r.default_assigned_to_id == self.default_assigned_to_id,
            r.default_version_id == self.default_version_id,
            r.tracker_ids == self.tracker_ids,
            r.enabled_module_names == self.enabled_module_names,
            r.issue_custom_field_id == self.issue_custom_field_id,
            r.custom_field_values == self.custom_field_values,
    {
        CreateProjectBuilder { name: self.name, identifier: self.identifier, description: self.description, homepage: self.homepage, is_public: self.is_public, parent_id: self.parent_id, inherit_members: Some(value), default_assigned_to_id: self.default_assigned_to_id, default_version_id: self.default_version_id, tracker_ids: self.tracker_ids, enabled_module_names: self.enabled_module_names, issue_custom_field_id: self.issue_custom_field_id, custom_field_values: self.custom_field_values }
    }

    /// Sets `default_assigned_to_id`: iD of the default user
    pub fn default_assigned_to_id(self, value: u64) -> (r: CreateProjectBuilder)
        ensures
            r.default_assigned_to_id == Some(value),
            r.name == self.name,
            r.identifier == self.identifier,
            r.description == self.description,
            r.homepage == self.homepage,
            r.is_public == self.is_public,
            r.parent_id == self.parent_id,
            r.inherit_members == self.inherit_members,
            r.default_version_id == self.default_version_id,
            r.tracker_ids == self.tracker_ids,
            r.enabled_module_names == self.enabled_module_names,
            r.issue_custom_field_id == self.issue_custom_field_id,
            r.custom_field_values == self.custom_field_values,
    {
        CreateProjectBuilder { name: self.name, identifier: self.identifier, description: self.description, homepage: self.homepage, is_public: self.is_public, parent_id: self.parent_id, inherit_members: self.inherit_members, default_assigned_to_id: Some(value), default_version_id: self.default_version_id, tracker_ids: self.tracker_ids, enabled_module_names: self.enabled_module_names, issue_custom_field_id: self.issue_custom_field_id, custom_field_values: self.custom_field_values }
    }

    /// Sets `default_version_id`: iD of the default version
    pub fn default_version_id(self, value: u64) -> (r: CreateProjectBuilder)
        ensures
            r.default_version_id == Some(value),
            r.name == self.name,
            r.identifier == self.identifier,
            r.description == self.description,
            r.homepage == self.homepage,
            r.is_public == self.is_public,
            r.parent_id == self.parent_id,
            r.inherit_members == self.inherit_members,
            r.default_assigned_to_id == self.default_assigned_to_id,
            r.tracker_ids == self.tracker_ids,
            r.enabled_module_names == self.enabled_module_names,
            r.issue_custom_field_id == self.issue_custom_field_id,
            r.custom_field_values == self.custom_field_values,
    {
        CreateProjectBuilder { name: self.name, identifier: self.identifier, description: self.description, homepage: self.homepage, is_public: self.is_public, parent_id: self.parent_id, inherit_members: self.inherit_members, default_assigned_to_id: self.default_assigned_to_id, default_version_id: Some(value), tracker_ids: self.tracker_ids, enabled_module_names: self.enabled_module_names, issue_custom_field_id: self.issue_custom_field_id, custom_field_values: self.custom_field_values }
    }

    /// Sets `tracker_ids`: trackers to enable in the project
    pub fn tracker_ids(self, value: Vec<u64>) -> (r: CreateProjectBuilder)
        ensures
            r.tracker_ids == Some(value),
            r.name == self.name,
            r.identifier == self.identifier,
            r.description == self.description,
            r.homepage == self.homepage,
            r.is_public == self.is_public,
            r.parent_id == self.parent_id,
            r.inherit_members == self.inherit_members,
            r.default_assigned_to_id == self.default_assigned_to_id,
            r.default_version_id == self.default_version_id,
            r.enabled_module_names == self.enabled_module_names,
            r.issue_custom_field_id == self.issue_custom_field_id,
            r.custom_field_values == self.custom_field_values,
    {
        CreateProjectBuilder { name: self.name, identifier: self.identifier, description: self.description, homepage: self.homepage, is_public: self.is_public, parent_id: self.parent_id, inherit_members: self.inherit_members, default_assigned_to_id: self.default_assigned_to_id, default_version_id: self.default_version_id, tracker_ids: Some(value), enabled_module_names: self.enabled_module_names, issue_custom_field_id: self.issue_custom_field_id, custom_field_values: self.custom_field_values }
    }

    /// Sets `enabled_module_names`: modules to enable in the project
    pub fn enabled_module_names(self, value: Vec<String>) -> (r: CreateProjectBuilder)
        ensures
            r.enabled_module_names == Some(value),
            r.name == self.name,
            r.identifier == self.identifier,
            r.description == self.description,
            r.homepage == self.homepage,
            r.is_public == self.is_public,
            r.parent_id == self.parent_id,
            r.inherit_members == self.inherit_members,
            r.default_assigned_to_id == self.default_assigned_to_id,
            r.default_version_id == self.default_version_id,
            r.tracker_ids == self.tracker_ids,
            r.issue_custom_field_id == self.issue_custom_field_id,
            r.custom_field_values == self.custom_field_values,
    {
        CreateProjectBuilder { name: self.name, identifier: self.identifier, description: self.description, homepage: self.homepage, is_public: self.is_public, parent_id: self.parent_id, inherit_members: self.inherit_members, default_assigned_to_id: self.default_assigned_to_id, default_version_id: self.default_version_id, tracker_ids: self.tracker_ids, enabled_module_names: Some(value), issue_custom_field_id: self.issue_custom_field_id, custom_field_values: self.custom_field_values }
    }

    /// Sets `issue_custom_field_id`: custom issue fields to enable in the project
    pub fn issue_custom_field_id(self, value: Vec<u64>) -> (r: CreateProjectBuilder)
        ensures
            r.issue_custom_field_id == Some(value),
            r.name == self.name,
            r.identifier == self.identifier,
            r.description == self.description,
            r.homepage == self.homepage,
            r.is_public == self.is_public,
            r.parent_id == self.parent_id,
            r.inherit_members == self.inherit_members,
            r.default_assigned_to_id == self.default_assigned_to_id,
            r.default_version_id == self.default_version_id,
            r.tracker_ids == self.tracker_ids,
            r.enabled_module_names == self.enabled_module_names,
            r.custom_field_values == self.custom_field_values,
    {
        CreateProjectBuilder { name: self.name, identifier: self.identifier, description: self.description, homepage: self.homepage, is_public: self.is_public, parent_id: self.parent_id, inherit_members: self.inherit_members, default_assigned_to_id: self.default_assigned_to_id, default_version_id: self.default_version_id, tracker_ids: self.tracker_ids, enabled_module_names: self.enabled_module_names, issue_custom_field_id: Some(value), custom_field_values: self.custom_field_values }
    }

    /// Sets `custom_field_values`: values for custom fields
    pub fn custom_field_values(self, value: CustomFieldValues) -> (r: CreateProjectBuilder)
        ensures
            r.custom_field_values == Some(value),
            r.name == self.name,
            r.identifier == self.identifier,
            r.description == self.description,
            r.homepage == self.homepage,
            r.is_public == self.is_public,
            r.parent_id == self.parent_id,
            r.inherit_members == self.inherit_members,
            r.default_assigned_to_id == self.default_assigned_to_id,
            r.default_version_id == self.default_version_id,
            r.tracker_ids == self.tracker_ids,
            r.enabled_module_names == self.enabled_module_names,
            r.issue_custom_field_id == self.issue_custom_field_id,
    {
        CreateProjectBuilder { name: self.name, identifier: self.identifier, description: self.description, homepage: self.homepage, is_public: self.is_public, parent_id: self.parent_id, inherit_members: self.inherit_members, default_assigned_to_id: self.default_assigned_to_id, default_version_id: self.default_version_id, tracker_ids: self.tracker_ids, enabled_module_names: self.enabled_module_names, issue_custom_field_id: self.issue_custom_field_id, custom_field_values: Some(value) }
    }

    /// The first required field that has not been set, if any.
    pub open spec fn missing_field(&self) -> Option<Seq<char>> {
        if self.name is None {
            Some("name"@)
        } else if self.identifier is None {
            Some("identifier"@)
        } else {
            None
        }
    }

    /// Builds the endpoint; fails on the first required field that has not been set.
    pub fn build(self) -> (r: Result<CreateProject, BuilderError>)
        ensures
            match r {
                Ok(x) => self.missing_field() is None && x == (CreateProject { name: self.name->0, identifier: self.identifier->0, description: self.description, homepage: self.homepage, is_public: self.is_public, parent_id: self.parent_id, inherit_members: self.inherit_members, default_assigned_to_id: self.default_assigned_to_id, default_version_id: self.default_version_id, tracker_ids: self.tracker_ids, enabled_module_names: self.enabled_module_names, issue_custom_field_id: self.issue_custom_field_id, custom_field_values: self.custom_field_values }),
                Err(BuilderError::UninitializedField(n)) => self.missing_field() == Some(n@),
                Err(_) => false,
            },
    {
        let name = match self.name {
            Some(v) => v,
            None => {
                return Err(BuilderError::UninitializedField("name"));
            },
        };
        let identifier = match self.identifier {
            Some(v) => v,
            None => {
                return Err(BuilderError::UninitializedField("identifier"));
            },
        };
        Ok(CreateProject { name, identifier, description: self.description, homepage: self.homepage, is_public: self.is_public, parent_id: self.parent_id, inherit_members: self.inherit_members, default_assigned_to_id: self.default_assigned_to_id, default_version_id: self.default_version_id, tracker_ids: self.tracker_ids, enabled_module_names: self.enabled_module_names, issue_custom_field_id: self.issue_custom_field_id, custom_field_values: self.custom_field_values })
    }
}

impl ReturnsJsonResponse for CreateProject {}

impl NoPagination for CreateProject {}

impl Endpoint for CreateProject {
    open spec fn method_spec(&self) -> HttpMethod {
        HttpMethod::Post
    }

    open spec fn endpoint_spec(&self) -> Seq<char> {
        "projects.json"@
    }

    open spec fn parameters_spec(&self) -> Seq<(Seq<char>, Seq<char>)> {
        Seq::empty()
    }

    open spec fn body_spec(&self) -> Option<BodySpec> {
        let inner = {
            let m = Seq::<(Seq<char>, JsonView)>::empty();
            let m = m.push(("name"@, self.name.json()));
            let m = m.push(("identifier"@, self.identifier.json()));
            let m = member_opt(m, "description"@, self.description);
            let m = member_opt(m, "homepage"@, self.homepage);
            let m = member_opt(m, "is_public"@, self.is_public);
            let m = member_opt(m, "parent_id"@, self.parent_id);
            let m = member_opt(m, "inherit_members"@, self.inherit_members);
            let m = member_opt(m, "default_assigned_to_id"@, self.default_assigned_to_id);
            let m = member_opt(m, "default_version_id"@, self.default_version_id);
            let m = member_opt(m, "tracker_ids"@, self.tracker_ids);
            let m = member_opt(m, "enabled_module_names"@, self.enabled_module_names);
            let m = member_opt(m, "issue_custom_field_id"@, self.issue_custom_field_id);
            let m = member_opt(m, "custom_field_values"@, self.custom_field_values);
            m
        };
        Some(BodySpec::Json(JsonView::Object(seq![("project"@, JsonView::Object(inner))])))
    }

    fn method(&self) -> (r: HttpMethod) {
        HttpMethod::Post
    }

    fn endpoint(&self) -> (r: String) {
        String::from_str("projects.json")
    }

    fn check_writable(&self) -> (r: bool) {
        true
    }

    fn parameters(&self) -> (r: QueryParams) {
        let mut p = QueryParams::new();
        p
    }

    fn body(&self) -> (r: Result<Option<RequestBody>, Error>) {
        let mut b = ObjectBuilder::new();
        b.insert_value("name", &self.name);
        b.insert_value("identifier", &self.identifier);
        b.insert_opt("description", &self.description);
        b.insert_opt("homepage", &self.homepage);
        b.insert_opt("is_public", &self.is_public);
        b.insert_opt("parent_id", &self.parent_id);
        b.insert_opt("inherit_members", &self.inherit_members);
        b.insert_opt("default_assigned_to_id", &self.default_assigned_to_id);
        b.insert_opt("default_version_id", &self.default_version_id);
        b.insert_opt("tracker_ids", &self.tracker_ids);
        b.insert_opt("enabled_module_names", &self.enabled_module_names);
        b.insert_opt("issue_custom_field_id", &self.issue_custom_field_id);
        b.insert_opt("custom_field_values", &self.custom_field_values);
        let doc = single_member_object("project", b.build());
        json_body(&doc)
    }
}

/// The endpoint to update an existing Redmine project
#[derive(Debug, Clone)]
pub struct UpdateProject {
    /// the project id or name as it appears in the URL of the project to update
    pub project_id_or_name: String,
    /// the name of the project
    pub name: Option<String>,
    /// the identifier of the project as it appears in the URL
    pub identifier: Option<String>,
    /// description of the project
    pub description: Option<String>,
    /// the project homepage
    pub homepage: Option<String>,
    /// is the project public (visible to anonymous users)
    pub is_public: Option<bool>,
    /// the parent project id
    pub parent_id: Option<u64>,
    /// will the project inherit members from its ancestors
    pub inherit_members: Option<bool>,
    /// ID of the default user
    pub default_assigned_to_id: Option<u64>,
    /// ID of the default version
    pub default_version_id: Option<u64>,
    /// trackers to enable in the project
    pub tracker_ids: Option<Vec<u64>>,
    /// modules to enable in the project
    pub enabled_module_names: Option<Vec<String>>,
    /// custom issue fields to enable in the project
    pub issue_custom_field_id: Option<Vec<u64>>,
    /// values for custom fields
    pub custom_field_values: Option<CustomFieldValues>,
}

/// Builder for [`UpdateProject`].
#[derive(Debug, Clone)]
pub struct UpdateProjectBuilder {
    /// the project id or name as it appears in the URL of the project to update
    pub project_id_or_name: Option<String>,
    /// the name of the project
    pub name: Option<String>,
    /// the identifier of the project as it appears in the URL
    pub identifier: Option<String>,
    /// description of the project
    pub description: Option<String>,
    /// the project homepage
    pub homepage: Option<String>,
    /// is the project public (visible to anonymous users)
    pub is_public: Option<bool>,
    /// the parent project id
    pub parent_id: Option<u64>,
    /// will the project inherit members from its ancestors
    pub inherit_members: Option<bool>,
    /// ID of the default user
    pub default_assigned_to_id: Option<u64>,
    /// ID of the default version
    pub default_version_id: Option<u64>,
    /// trackers to enable in the project
    pub tracker_ids: Option<Vec<u64>>,
    /// modules to enable in the project
    pub enabled_module_names: Option<Vec<String>>,
    /// custom issue fields to enable in the project
    pub issue_custom_field_id: Option<Vec<u64>>,
    /// values for custom fields
    pub custom_field_values: Option<CustomFieldValues>,
}

impl UpdateProject {
    /// Create a builder for the endpoint.
    pub fn builder() -> (r: UpdateProjectBuilder)
        ensures
            r.project_id_or_name is None,
            r.name is None,
            r.identifier is None,
            r.description is None,
            r.homepage is None,
            r.is_public is None,
            r.parent_id is None,
            r.inherit_members is None,
            r.default_assigned_to_id is None,
            r.default_version_id is None,
            r.tracker_ids is None,
            r.enabled_module_names is None,
            r.issue_custom_field_id is None,
            r.custom_field_values is None,
    {
        UpdateProjectBuilder { project_id_or_name: None, name: None, identifier: None, description: None, homepage: None, is_public: None, parent_id: None, inherit_members: None, default_assigned_to_id: None, default_version_id: None, tracker_ids: None, enabled_module_names: None, issue_custom_field_id: None, custom_field_values: None }
    }
}

impl UpdateProjectBuilder {
    /// Sets `project_id_or_name`: the project id or name as it appears in the URL of the project to update
    pub fn project_id_or_name(self, value: &str) -> (r: UpdateProjectBuilder)
        ensures
            r.project_id_or_name matches Some(s) && s@ == value@,
            r.name == self.name,
            r.identifier == self.identifier,
            r.description == self.description,
            r.homepage == self.homepage,
            r.is_public == self.is_public,
            r.parent_id == self.parent_id,
            r.inherit_members == self.inherit_members,
            r.default_assigned_to_id == self.default_assigned_to_id,
            r.default_version_id == self.default_version_id,
            r.tracker_ids == self.tracker_ids,
            r.enabled_module_names == self.enabled_module_names,
            r.issue_custom_field_id == self.issue_custom_field_id,
            r.custom_field_values == self.custom_field_values,
    {
        UpdateProjectBuilder { project_id_or_name: Some(String::from_str(value)), name: self.name, identifier: self.identifier, description: self.description, homepage: self.homepage, is_public: self.is_public, parent_id: self.parent_id, inherit_members: self.inherit_members, default_assigned_to_id: self.default_assigned_to_id, default_version_id: self.default_version_id, tracker_ids: self.tracker_ids, enabled_module_names: self.enabled_module_names, issue_custom_field_id: self.issue_custom_field_id, custom_field_values: self.custom_field_values }
    }

    /// Sets `name`: the name of the project
    pub fn name(self, value: &str) -> (r: UpdateProjectBuilder)
        ensures
            r.name matches Some(s) && s@ == value@,
            r.project_id_or_name == self.project_id_or_name,
            r.identifier == self.identifier,
            r.description == self.description,
            r.homepage == self.homepage,
            r.is_public == self.is_public,
            r.parent_id == self.parent_id,
            r.inherit_members == self.inherit_members,
            r.default_assigned_to_id == self.default_assigned_to_id,
            r.default_version_id == self.default_version_id,
            r.tracker_ids == self.tracker_ids,
            r.enabled_module_names == self.enabled_module_names,
            r.issue_custom_field_id == self.issue_custom_field_id,
            r.custom_field_values == self.custom_field_values,
    {
        UpdateProjectBuilder { project_id_or_name: self.project_id_or_name, name: Some(String::from_str(value)), identifier: self.identifier, description: self.description, homepage: self.homepage, is_public: self.is_public, parent_id: self.parent_id, inherit_members: self.inherit_members, default_assigned_to_id: self.default_assigned_to_id, default_version_id: self.default_version_id, tracker_ids: self.tracker_ids, enabled_module_names: self.enabled_module_names, issue_custom_field_id: self.issue_custom_field_id, custom_field_values: self.custom_field_values }
    }

    /// Sets `identifier`: the identifier of the project as it appears in the URL
    pub fn identifier(self, value: &str) -> (r: UpdateProjectBuilder)
        ensures
            r.identifier matches Some(s) && s@ == value@,
            r.project_id_or_name == self.project_id_or_name,
            r.name == self.name,
            r.description == self.description,
            r.homepage == self.homepage,
            r.is_public == self.is_public,
            r.parent_id == self.parent_id,
            r.inherit_members == self.inherit_members,
            r.default_assigned_to_id == self.default_assigned_to_id,
            r.default_version_id == self.default_version_id,
            r.tracker_ids == self.tracker_ids,
            r.enabled_module_names == self.enabled_module_names,
            r.issue_custom_field_id == self.issue_custom_field_id,
            r.custom_field_values == self.custom_field_values,
    {
        UpdateProjectBuilder { project_id_or_name: self.project_id_or_name, name: self.name, identifier: Some(String::from_str(value)), description: self.description, homepage: self.homepage, is_public: self.is_public, parent_id: self.parent_id, inherit_members: self.inherit_members, default_assigned_to_id: self.default_assigned_to_id, default_version_id: self.default_version_id, tracker_ids: self.tracker_ids, enabled_module_names: self.enabled_module_names, issue_custom_field_id: self.issue_custom_field_id, custom_field_values: self.custom_field_values }
    }

    /// Sets `description`: description of the project
    pub fn description(self, value: &str) -> (r: UpdateProjectBuilder)
        ensures
            r.description matches Some(s) && s@ == value@,
            r.project_id_or_name == self.project_id_or_name,
            r.name == self.name,
            r.identifier == self.identifier,
            r.homepage == self.homepage,
            r.is_public == self.is_public,
            r.parent_id == self.parent_id,
            r.inherit_members == self.inherit_members,
            r.default_assigned_to_id == self.default_assigned_to_id,
            r.default_version_id == self.default_version_id,
            r.tracker_ids == self.tracker_ids,
            r.enabled_module_names == self.enabled_module_names,
            r.issue_custom_field_id == self.issue_custom_field_id,
            r.custom_field_values == self.custom_field_values,
    {
        UpdateProjectBuilder { project_id_or_name: self.project_id_or_name, name: self.name, identifier: self.identifier, description: Some(String::from_str(value)), homepage: self.homepage, is_public: self.is_public, parent_id: self.parent_id, inherit_members: self.inherit_members, default_assigned_to_id: self.default_assigned_to_id, default_version_id: self.default_version_id, tracker_ids: self.tracker_ids, enabled_module_names: self.enabled_module_names, issue_custom_field_id: self.issue_custom_field_id, custom_field_values: self.custom_field_values }
    }

    /// Sets `homepage`: the project homepage
    pub fn homepage(self, value: &str) -> (r: UpdateProjectBuilder)
        ensures
            r.homepage matches Some(s) && s@ == value@,
            r.project_id_or_name == self.project_id_or_name,
            r.name == self.name,
            r.identifier == self.identifier,
            r.description == self.description,
            r.is_public == self.is_public,
            r.parent_id == self.parent_id,
            r.inherit_members == self.inherit_members,
            r.default_assigned_to_id == self.default_assigned_to_id,
            r.default_version_id == self.default_version_id,
            r.tracker_ids == self.tracker_ids,
            r.enabled_module_names == self.enabled_module_names,
            r.issue_custom_field_id == self.issue_custom_field_id,
            r.custom_field_values == self.custom_field_values,
    {
        UpdateProjectBuilder { project_id_or_name: self.project_id_or_name, name: self.name, identifier: self.identifier, description: self.description, homepage: Some(String::from_str(value)), is_public: self.is_public, parent_id: self.parent_id, inherit_members: self.inherit_members, default_assigned_to_id: self.default_assigned_to_id, default_version_id: self.default_version_id, tracker_ids: self.tracker_ids, enabled_module_names: self.enabled_module_names, issue_custom_field_id: self.issue_custom_field_id, custom_field_values: self.custom_field_values }
    }

    /// Sets `is_public`: is the project public (visible to anonymous users)
    pub fn is_public(self, value: bool) -> (r: UpdateProjectBuilder)
        ensures
            r.is_public == Some(value),
            r.project_id_or_name == self.project_id_or_name,
            r.name == self.name,
            r.identifier == self.identifier,
            r.description == self.description,
            r.homepage == self.homepage,
            r.parent_id == self.parent_id,
            r.inherit_members == self.inherit_members,
            r.default_assigned_to_id == self.default_assigned_to_id,
            r.default_version_id == self.default_version_id,
            r.tracker_ids == self.tracker_ids,
            r.enabled_module_names == self.enabled_module_names,
            r.issue_custom_field_id == self.issue_custom_field_id,
            r.custom_field_values == self.custom_field_values,
    {
        UpdateProjectBuilder { project_id_or_name: self.project_id_or_name, name: self.name, identifier: self.identifier, description: self.description, homepage: self.homepage, is_public: Some(value), parent_id: self.parent_id, inherit_members: self.inherit_members, default_assigned_to_id: self.default_assigned_to_id, default_version_id: self.default_version_id, tracker_ids: self.tracker_ids, enabled_module_names: self.enabled_module_names, issue_custom_field_id: self.issue_custom_field_id, custom_field_values: self.custom_field_values }
    }

    /// Sets `parent_id`: the parent project id
    pub fn parent_id(self, value: u64) -> (r: UpdateProjectBuilder)
        ensures
            r.parent_id == Some(value),
            r.project_id_or_name == self.project_id_or_name,
            r.name == self.name,
            r.identifier == self.identifier,
            r.description == self.description,
            r.homepage == self.homepage,
            r.is_public == self.is_public,
            r.inherit_members == self.inherit_members,
            r.default_assigned_to_id == self.default_assigned_to_id,
            r.default_version_id == self.default_version_id,
            r.tracker_ids == self.tracker_ids,
            r.enabled_module_names == self.enabled_module_names,
            r.issue_custom_field_id == self.issue_custom_field_id,
            r.custom_field_values == self.custom_field_values,
    {
        UpdateProjectBuilder { project_id_or_name: self.project_id_or_name, name: self.name, identifier: self.identifier, description: self.description, homepage: self.homepage, is_public: self.is_public, parent_id: Some(value), inherit_members: self.inherit_members, default_assigned_to_id: self.default_assigned_to_id, default_version_id: self.default_version_id, tracker_ids: self.tracker_ids, enabled_module_names: self.enabled_module_names, issue_custom_field_id: self.issue_custom_field_id, custom_field_values: self.custom_field_values }
    }

    /// Sets `inherit_members`: will the project inherit members from its ancestors
    pub fn inherit_members(self, value: bool) -> (r: UpdateProjectBuilder)
        ensures
            r.inherit_members == Some(value),
            r.project_id_or_name == self.project_id_or_name,
            r.name == self.name,
            r.identifier == self.identifier,
            r.description == self.description,
            r.homepage == self.homepage,
            r.is_public == self.is_public,
            r.parent_id == self.parent_id,
            r.default_assigned_to_id == self.default_assigned_to_id,
            r.default_version_id == self.default_version_id,
            r.tracker_ids == self.tracker_ids,
            r.enabled_module_names == self.enabled_module_names,
            r.issue_custom_field_id == self.issue_custom_field_id,
            r.custom_field_values == self.custom_field_values,
    {
        UpdateProjectBuilder { project_id_or_name: self.project_id_or_name, name: self.name, identifier: self.identifier, description: self.description, homepage: self.homepage, is_public: self.is_public, parent_id: self.parent_id, inherit_members: Some(value), default_assigned_to_id: self.default_assigned_to_id, default_version_id: self.default_version_id, tracker_ids: self.tracker_ids, enabled_module_names: self.enabled_module_names, issue_custom_field_id: self.issue_custom_field_id, custom_field_values: self.custom_field_values }
    }

    /// Sets `default_assigned_to_id`: iD of the default user
    pub fn default_assigned_to_id(self, value: u64) -> (r: UpdateProjectBuilder)
        ensures
            r.default_assigned_to_id == Some(value),
            r.project_id_or_name == self.project_id_or_name,
            r.name == self.name,
            r.identifier == self.identifier,
            r.description == self.description,
            r.homepage == self.homepage,
            r.is_public == self.is_public,
            r.parent_id == self.parent_id,
            r.inherit_members == self.inherit_members,
            r.default_version_id == self.default_version_id,
            r.tracker_ids == self.tracker_ids,
            r.enabled_module_names == self.enabled_module_names,
            r.issue_custom_field_id == self.issue_custom_field_id,
            r.custom_field_values == self.custom_field_values,
    {
        UpdateProjectBuilder { project_id_or_name: self.project_id_or_name, name: self.name, identifier: self.identifier, description: self.description, homepage: self.homepage, is_public: self.is_public, parent_id: self.parent_id, inherit_members: self.inherit_members, default_assigned_to_id: Some(value), default_version_id: self.default_version_id, tracker_ids: self.tracker_ids, enabled_module_names: self.enabled_module_names, issue_custom_field_id: self.issue_custom_field_id, custom_field_values: self.custom_field_values }
    }

    /// Sets `default_version_id`: iD of the default version
    pub fn default_version_id(self, value: u64) -> (r: UpdateProjectBuilder)
        ensures
            r.default_version_id == Some(value),
            r.project_id_or_name == self.project_id_or_name,
            r.name == self.name,
            r.identifier == self.identifier,
            r.description == self.description,
            r.homepage == self.homepage,
            r.is_public == self.is_public,
            r.parent_id == self.parent_id,
            r.inherit_members == self.inherit_members,
            r.default_assigned_to_id == self.default_assigned_to_id,
            r.tracker_ids == self.tracker_ids,
            r.enabled_module_names == self.enabled_module_names,
            r.issue_custom_field_id == self.issue_custom_field_id,
            r.custom_field_values == self.custom_field_values,
    {
        UpdateProjectBuilder { project_id_or_name: self.project_id_or_name, name: self.name, identifier: self.identifier, description: self.description, homepage: self.homepage, is_public: self.is_public, parent_id: self.parent_id, inherit_members: self.inherit_members, default_assigned_to_id: self.default_assigned_to_id, default_version_id: Some(value), tracker_ids: self.tracker_ids, enabled_module_names: self.enabled_module_names, issue_custom_field_id: self.issue_custom_field_id, custom_field_values: self.custom_field_values }
    }

    /// Sets `tracker_ids`: trackers to enable in the project
    pub fn tracker_ids(self, value: Vec<u64>) -> (r: UpdateProjectBuilder)
        ensures
            r.tracker_ids == Some(value),
            r.project_id_or_name == self.project_id_or_name,
            r.name == self.name,
            r.identifier == self.identifier,
            r.description == self.description,
            r.homepage == self.homepage,
            r.is_public == self.is_public,
            r.parent_id == self.parent_id,
            r.inherit_members == self.inherit_members,
            r.default_assigned_to_id == self.default_assigned_to_id,
            r.default_version_id == self.default_version_id,
            r.enabled_module_names == self.enabled_module_names,
            r.issue_custom_field_id == self.issue_custom_field_id,
            r.custom_field_values == self.custom_field_values,
    {
        UpdateProjectBuilder { project_id_or_name: self.project_id_or_name, name: self.name, identifier: self.identifier, description: self.description, homepage: self.homepage, is_public: self.is_public, parent_id: self.parent_id, inherit_members: self.inherit_members, default_assigned_to_id: self.default_assigned_to_id, default_version_id: self.default_version_id, tracker_ids: Some(value), enabled_module_names: self.enabled_module_names, issue_custom_field_id: self.issue_custom_field_id, custom_field_values: self.custom_field_values }
    }

    /// Sets `enabled_module_names`: modules to enable in the project
    pub fn enabled_module_names(self, value: Vec<String>) -> (r: UpdateProjectBuilder)
        ensures
            r.enabled_module_names == Some(value),
            r.project_id_or_name == self.project_id_or_name,
            r.name == self.name,
            r.identifier == self.identifier,
            r.description == self.description,
            r.homepage == self.homepage,
            r.is_public == self.is_public,
            r.parent_id == self.parent_id,
            r.inherit_members == self.inherit_members,
            r.default_assigned_to_id == self.default_assigned_to_id,
            r.default_version_id == self.default_version_id,
            r.tracker_ids == self.tracker_ids,
            r.issue_custom_field_id == self.issue_custom_field_id,
            r.custom_field_values == self.custom_field_values,
    {
        UpdateProjectBuilder { project_id_or_name: self.project_id_or_name, name: self.name, identifier: self.identifier, description: self.description, homepage: self.homepage, is_public: self.is_public, parent_id: self.parent_id, inherit_members: self.inherit_members, default_assigned_to_id: self.default_assigned_to_id, default_version_id: self.default_version_id, tracker_ids: self.tracker_ids, enabled_module_names: Some(value), issue_custom_field_id: self.issue_custom_field_id, custom_field_values: self.custom_field_values }
    }

    /// Sets `issue_custom_field_id`: custom issue fields to enable in the project
    pub fn issue_custom_field_id(self, value: Vec<u64>) -> (r: UpdateProjectBuilder)
        ensures
            r.issue_custom_field_id == Some(value),
            r.project_id_or_name == self.project_id_or_name,
            r.name == self.name,
            r.identifier == self.identifier,
            r.description == self.description,
            r.homepage == self.homepage,
            r.is_public == self.is_public,
            r.parent_id == self.parent_id,
            r.inherit_members == self.inherit_members,
            r.default_assigned_to_id == self.default_assigned_to_id,
            r.default_version_id == self.default_version_id,
            r.tracker_ids == self.tracker_ids,
            r.enabled_module_names == self.enabled_module_names,
            r.custom_field_values == self.custom_field_values,
    {
        UpdateProjectBuilder { project_id_or_name: self.project_id_or_name, name: self.name, identifier: self.identifier, description: self.description, homepage: self.homepage, is_public: self.is_public, parent_id: self.parent_id, inherit_members: self.inherit_members, default_assigned_to_id: self.default_assigned_to_id, default_version_id: self.default_version_id, tracker_ids: self.tracker_ids, enabled_module_names: self.enabled_module_names, issue_custom_field_id: Some(value), custom_field_values: self.custom_field_values }
    }

    /// Sets `custom_field_values`: values for custom fields
    pub fn custom_field_values(self, value: CustomFieldValues) -> (r: UpdateProjectBuilder)
        ensures
            r.custom_field_values == Some(value),
            r.project_id_or_name == self.project_id_or_name,
            r.name == self.name,
            r.identifier == self.identifier,
            r.description == self.description,
            r.homepage == self.homepage,
            r.is_public == self.is_public,
            r.parent_id == self.parent_id,
            r.inherit_members == self.inherit_members,
            r.default_assigned_to_id == self.default_assigned_to_id,
            r.default_version_id == self.default_version_id,
            r.tracker_ids == self.tracker_ids,
            r.enabled_module_names == self.enabled_module_names,
            r.issue_custom_field_id == self.issue_custom_field_id,
    {
        UpdateProjectBuilder { project_id_or_name: self.project_id_or_name, name: self.name, identifier: self.identifier, description: self.description, homepage: self.homepage, is_public: self.is_public, parent_id: self.parent_id, inherit_members: self.inherit_members, default_assigned_to_id: self.default_assigned_to_id, default_version_id: self.default_version_id, tracker_ids: self.tracker_ids, enabled_module_names: self.enabled_module_names, issue_custom_field_id: self.issue_custom_field_id, custom_field_values: Some(value) }
    }

    /// The first required field that has not been set, if any.
    pub open spec fn missing_field(&self) -> Option<Seq<char>> {
        if self.project_id_or_name is None {
            Some("project_id_or_name"@)
        } else {
            None
        }
    }

    /// Builds the endpoint; fails on the first required field that has not been set.
    pub fn build(self) -> (r: Result<UpdateProject, BuilderError>)
        ensures
            match r {
                Ok(x) => self.missing_field() is None && x == (UpdateProject { project_id_or_name: self.project_id_or_name->0, name: self.name, identifier: self.identifier, description: self.description, homepage: self.homepage, is_public: self.is_public, parent_id: self.parent_id, inherit_members: self.inherit_members, default_assigned_to_id: self.default_assigned_to_id, default_version_id: self.default_version_id, tracker_ids: self.tracker_ids, enabled_module_names: self.enabled_module_names, issue_custom_field_id: self.issue_custom_field_id, custom_field_values: self.custom_field_values }),
                Err(BuilderError::UninitializedField(n)) => self.missing_field() == Some(n@),
                Err(_) => false,
            },
    {
        let project_id_or_name = match self.project_id_or_name {
            Some(v) => v,
            None => {
                return Err(BuilderError::UninitializedField("project_id_or_name"));
            },
        };
        Ok(UpdateProject { project_id_or_name, name: self.name, identifier: self.identifier, description: self.description, homepage: self.homepage, is_public: self.is_public, parent_id: self.parent_id, inherit_members: self.inherit_members, default_assigned_to_id: self.default_assigned_to_id, default_version_id: self.default_version_id, tracker_ids: self.tracker_ids, enabled_module_names: self.enabled_module_names, issue_custom_field_id: self.issue_custom_field_id, custom_field_values: self.custom_field_values })
    }
}

impl Endpoint for UpdateProject {
    open spec fn method_spec(&self) -> HttpMethod {
        HttpMethod::Put
    }

    open spec fn endpoint_spec(&self) -> Seq<char> {
        "projects/"@ + self.project_id_or_name@ + ".json"@
    }

    open spec fn parameters_spec(&self) -> Seq<(Seq<char>, Seq<char>)> {
        Seq::empty()
    }

    open spec fn body_spec(&self) -> Option<BodySpec> {
        let inner = {
            let m = Seq::<(Seq<char>, JsonView)>::empty();
            let m = member_opt(m, "name"@, self.name);
            let m = member_opt(m, "identifier"@, self.identifier);
            let m = member_opt(m, "description"@, self.description);
            let m = member_opt(m, "homepage"@, self.homepage);
            let m = member_opt(m, "is_public"@, self.is_public);
            let m = member_opt(m, "parent_id"@, self.parent_id);
            let m = member_opt(m, "inherit_members"@, self.inherit_members);
            let m = member_opt(m, "default_assigned_to_id"@, self.default_assigned_to_id);
            let m = member_opt(m, "default_version_id"@, self.default_version_id);
            let m = member_opt(m, "tracker_ids"@, self.tracker_ids);
            let m = member_opt(m, "enabled_module_names"@, self.enabled_module_names);
            let m = member_opt(m, "issue_custom_field_id"@, self.issue_custom_field_id);
            let m = member_opt(m, "custom_field_values"@, self.custom_field_values);
            m
        };
        Some(BodySpec::Json(JsonView::Object(seq![("project"@, JsonView::Object(inner))])))
    }

    fn method(&self) -> (r: HttpMethod) {
        HttpMethod::Put
    }

    fn endpoint(&self) -> (r: String) {
        let mut s = String::new();
        s.append("projects/");
        s.append(self.project_id_or_name.as_str());
        s.append(".json");
        assert(s@ =~= self.endpoint_spec());
        s
    }

    fn check_writable(&self) -> (r: bool) {
        true
    }

    fn parameters(&self) -> (r: QueryParams) {
        let mut p = QueryParams::new();
        p
    }

    fn body(&self) -> (r: Result<Option<RequestBody>, Error>) {
        let mut b = ObjectBuilder::new();
        b.insert_opt("name", &self.name);
        b.insert_opt("identifier", &self.identifier);
        b.insert_opt("description", &self.description);
        b.insert_opt("homepage", &self.homepage);
        b.insert_opt("is_public", &self.is_public);
        b.insert_opt("parent_id", &self.parent_id);
        b.insert_opt("inherit_members", &self.inherit_members);
        b.insert_opt("default_assigned_to_id", &self.default_assigned_to_id);
        b.insert_opt("default_version_id", &self.default_version_id);
        b.insert_opt("tracker_ids", &self.tracker_ids);
        b.insert_opt("enabled_module_names", &self.enabled_module_names);
        b.insert_opt("issue_custom_field_id", &self.issue_custom_field_id);
        b.insert_opt("custom_field_values", &self.custom_field_values);
        let doc = single_member_object("project", b.build());
        json_body(&doc)
    }
}

/// The endpoint to delete a Redmine project
#[derive(Debug, Clone)]
pub struct DeleteProject {
    /// the project id or name as it appears in the URL of the project to delete
    pub project_id_or_name: String,
}

/// Builder for [`DeleteProject`].
#[derive(Debug, Clone)]
pub struct DeleteProjectBuilder {
    /// the project id or name as it appears in the URL of the project to delete
    pub project_id_or_name: Option<String>,
}

impl DeleteProject {
    /// Create a builder for the endpoint.
    pub fn builder() -> (r: DeleteProjectBuilder)
        ensures
            r.project_id_or_name is None,
    {
        DeleteProjectBuilder { project_id_or_name: None }
    }
}

impl DeleteProjectBuilder {
    /// Sets `project_id_or_name`: the project id or name as it appears in the URL of the project to delete
    pub fn project_id_or_name(self, value: &str) -> (r: DeleteProjectBuilder)
        ensures
            r.project_id_or_name matches Some(s) && s@ == value@,
    {
        DeleteProjectBuilder { project_id_or_name: Some(String::from_str(value)) }
    }

    /// The first required field that has not been set, if any.
    pub open spec fn missing_field(&self) -> Option<Seq<char>> {
        if self.project_id_or_name is None {
            Some("project_id_or_name"@)
        } else {
            None
        }
    }

    /// Builds the endpoint; fails on the first required field that has not been set.
    pub fn build(self) -> (r: Result<DeleteProject, BuilderError>)
        ensures
            match r {
                Ok(x) => self.missing_field() is None && x == (DeleteProject { project_id_or_name: self.project_id_or_name->0 }),
                Err(BuilderError::UninitializedField(n)) => self.missing_field() == Some(n@),
                Err(_) => false,
            },
    {
        let project_id_or_name = match self.project_id_or_name {
            Some(v) => v,
            None => {
                return Err(BuilderError::UninitializedField("project_id_or_name"));
            },
        };
        Ok(DeleteProject { project_id_or_name })
    }
}

impl Endpoint for DeleteProject {
    open spec fn method_spec(&self) -> HttpMethod {
        HttpMethod::Delete
    }

    open spec fn endpoint_spec(&self) -> Seq<char> {
        "projects/"@ + self.project_id_or_name@ + ".json"@
    }

    open spec fn parameters_spec(&self) -> Seq<(Seq<char>, Seq<char>)> {
        Seq::empty()
    }

    open spec fn body_spec(&self) -> Option<BodySpec> {
        None
    }

    fn method(&self) -> (r: HttpMethod) {
        HttpMethod::Delete
    }

    fn endpoint(&self) -> (r: String) {
        let mut s = String::new();
        s.append("projects/");
        s.append(self.project_id_or_name.as_str());
        s.append(".json");
        assert(s@ =~= self.endpoint_spec());
        s
    }

    fn check_writable(&self) -> (r: bool) {
        true
    }

    fn parameters(&self) -> (r: QueryParams) {
        let mut p = QueryParams::new();
        p
    }

    fn body(&self) -> (r: Result<Option<RequestBody>, Error>) {
        Ok(None)
    }
}

/// The query of [`ListProjects`] sends each parameter that is set under its Redmine
/// name, with the value's text, and nothing else.
pub proof fn lemma_list_projects_parameter_names(x: ListProjects)
    ensures
        x.includes matches Some(v) ==> x.parameters_spec().contains(("include"@, v.param_text())),
        x.parameters_spec().len() == present(x.includes),
{
    broadcast use crate::api::query::lemma_push_opt_contains, crate::api::query::lemma_push_opt_len;
}

/// The query of [`GetProject`] sends each parameter that is set under its Redmine
/// name, with the value's text, and nothing else.
pub proof fn lemma_get_project_parameter_names(x: GetProject)
    ensures
        x.includes matches Some(v) ==> x.parameters_spec().contains(("include"@, v.param_text())),
        x.parameters_spec().len() == present(x.includes),
{
    broadcast use crate::api::query::lemma_push_opt_contains, crate::api::query::lemma_push_opt_len;
}

/// The body of [`CreateProject`] holds, under `project`, each attribute that is set
/// under its Redmine name, with the attribute's document as the value, and
/// nothing else.
pub proof fn lemma_create_project_body_members(x: CreateProject)
    ensures
        wrapped_members(x.body_spec()).contains(("name"@, x.name.json())),
        wrapped_members(x.body_spec()).contains(("identifier"@, x.identifier.json())),
        x.description matches Some(v) ==> wrapped_members(x.body_spec()).contains(("description"@, v.json())),
        x.homepage matches Some(v) ==> wrapped_members(x.body_spec()).contains(("homepage"@, v.json())),
        x.is_public matches Some(v) ==> wrapped_members(x.body_spec()).contains(("is_public"@, v.json())),
        x.parent_id matches Some(v) ==> wrapped_members(x.body_spec()).contains(("parent_id"@, v.json())),
        x.inherit_members matches Some(v) ==> wrapped_members(x.body_spec()).contains(("inherit_members"@, v.json())),
        x.default_assigned_to_id matches Some(v) ==> wrapped_members(x.body_spec()).contains(("default_assigned_to_id"@, v.json())),
        x.default_version_id matches Some(v) ==> wrapped_members(x.body_spec()).contains(("default_version_id"@, v.json())),
        x.tracker_ids matches Some(v) ==> wrapped_members(x.body_spec()).contains(("tracker_ids"@, v.json())),
        x.enabled_module_names matches Some(v) ==> wrapped_members(x.body_spec()).contains(("enabled_module_names"@, v.json())),
        x.issue_custom_field_id matches Some(v) ==> wrapped_members(x.body_spec()).contains(("issue_custom_field_id"@, v.json())),
        x.custom_field_values matches Some(v) ==> wrapped_members(x.body_spec()).contains(("custom_field_values"@, v.json())),
        wrapped_members(x.body_spec()).len() == 2 + present(x.description) + present(x.homepage) + present(x.is_public) + present(x.parent_id) + present(x.inherit_members) + present(x.default_assigned_to_id) + present(x.default_version_id) + present(x.tracker_ids) + present(x.enabled_module_names) + present(x.issue_custom_field_id) + present(x.custom_field_values),
{
    broadcast use crate::api::json::lemma_member_opt_contains, crate::api::json::lemma_member_opt_len,
        crate::api::json::lemma_member_nullable_contains, crate::api::json::lemma_member_nullable_len,
        crate::api::json::lemma_push_member_contains;
}

/// The body of [`UpdateProject`] holds, under `project`, each attribute that is set
/// under its Redmine name, with the attribute's document as the value, and
/// nothing else.
pub proof fn lemma_update_project_body_members(x: UpdateProject)
    ensures
        x.name matches Some(v) ==> wrapped_members(x.body_spec()).contains(("name"@, v.json())),
        x.identifier matches Some(v) ==> wrapped_members(x.body_spec()).contains(("identifier"@, v.json())),
        x.description matches Some(v) ==> wrapped_members(x.body_spec()).contains(("description"@, v.json())),
        x.homepage matches Some(v) ==> wrapped_members(x.body_spec()).contains(("homepage"@, v.json())),
        x.is_public matches Some(v) ==> wrapped_members(x.body_spec()).contains(("is_public"@, v.json())),
        x.parent_id matches Some(v) ==> wrapped_members(x.body_spec()).contains(("parent_id"@, v.json())),
        x.inherit_members matches Some(v) ==> wrapped_members(x.body_spec()).contains(("inherit_members"@, v.json())),
        x.default_assigned_to_id matches Some(v) ==> wrapped_members(x.body_spec()).contains(("default_assigned_to_id"@, v.json())),
        x.default_version_id matches Some(v) ==> wrapped_members(x.body_spec()).contains(("default_version_id"@, v.json())),
        x.tracker_ids matches Some(v) ==> wrapped_members(x.body_spec()).contains(("tracker_ids"@, v.json())),
        x.enabled_module_names matches Some(v) ==> wrapped_members(x.body_spec()).contains(("enabled_module_names"@, v.json())),
        x.issue_custom_field_id matches Some(v) ==> wrapped_members(x.body_spec()).contains(("issue_custom_field_id"@, v.json())),
        x.custom_field_values matches Some(v) ==> wrapped_members(x.body_spec()).contains(("custom_field_values"@, v.json())),
        wrapped_members(x.body_spec()).len() == 0 + present(x.name) + present(x.identifier) + present(x.description) + present(x.homepage) + present(x.is_public) + present(x.parent_id) + present(x.inherit_members) + present(x.default_assigned_to_id) + present(x.default_version_id) + present(x.tracker_ids) + present(x.enabled_module_names) + present(x.issue_custom_field_id) + present(x.custom_field_values),
{
    broadcast use crate::api::json::lemma_member_opt_contains, crate::api::json::lemma_member_opt_len,
        crate::api::json::lemma_member_nullable_contains, crate::api::json::lemma_member_nullable_len,
        crate::api::json::lemma_push_member_contains;
}

/// The path of [`GetProject`] names the project by its id or name, and two
/// requests share a path only when they name the same project.
pub proof fn lemma_get_project_path(x: GetProject, y: GetProject)
    ensures
        x.endpoint_spec() == "projects/"@ + x.project_id_or_name@ + ".json"@,
        x.endpoint_spec() == y.endpoint_spec() <==> x.project_id_or_name@ == y.project_id_or_name@,
{
    lemma_text_path_injective("projects/"@, ".json"@, x.project_id_or_name@, y.project_id_or_name@);
}

/// The path of [`ArchiveProject`] names the project by its id or name, and two
/// requests share a path only when they name the same project.
pub proof fn lemma_archive_project_path(x: ArchiveProject, y: ArchiveProject)
    ensures
        x.endpoint_spec() == "projects/"@ + x.project_id_or_name@ + "/archive.json"@,
        x.endpoint_spec() == y.endpoint_spec() <==> x.project_id_or_name@ == y.project_id_or_name@,
{
    lemma_text_path_injective("projects/"@, "/archive.json"@, x.project_id_or_name@, y.project_id_or_name@);
}

/// The path of [`UnarchiveProject`] names the project by its id or name, and two
/// requests share a path only when they name the same project.
pub proof fn lemma_unarchive_project_path(x: UnarchiveProject, y: UnarchiveProject)
    ensures
        x.endpoint_spec() == "projects/"@ + x.project_id_or_name@ + "/unarchive.json"@,
        x.endpoint_spec() == y.endpoint_spec() <==> x.project_id_or_name@ == y.project_id_or_name@,
{
    lemma_text_path_injective("projects/"@, "/unarchive.json"@, x.project_id_or_name@, y.project_id_or_name@);
}

/// The path of [`UpdateProject`] names the project by its id or name, and two
/// requests share a path only when they name the same project.
pub proof fn lemma_update_project_path(x: UpdateProject, y: UpdateProject)
    ensures
        x.endpoint_spec() == "projects/"@ + x.project_id_or_name@ + ".json"@,
        x.endpoint_spec() == y.endpoint_spec() <==> x.project_id_or_name@ == y.project_id_or_name@,
{
    lemma_text_path_injective("projects/"@, ".json"@, x.project_id_or_name@, y.project_id_or_name@);
}

/// The path of [`DeleteProject`] names the project by its id or name, and two
/// requests share a path only when they name the same project.
pub proof fn lemma_delete_project_path(x: DeleteProject, y: DeleteProject)
    ensures
        x.endpoint_spec() == "projects/"@ + x.project_id_or_name@ + ".json"@,
        x.endpoint_spec() == y.endpoint_spec() <==> x.project_id_or_name@ == y.project_id_or_name@,
{
    lemma_text_path_injective("projects/"@, ".json"@, x.project_id_or_name@, y.project_id_or_name@);
}

/// Different values of [`ProjectsInclude`] are sent as different texts.
pub proof fn lemma_projects_include_text_injective(x: ProjectsInclude, y: ProjectsInclude)
    ensures
        x.text() == y.text() ==> x == y,
{
    reveal_strlit("enabled_modules");
    reveal_strlit("issue_categories");
    reveal_strlit("trackers");
    assert("trackers"@.len() != "issue_categories"@.len());
    assert("trackers"@.len() != "enabled_modules"@.len());
    assert("issue_categories"@.len() != "enabled_modules"@.len());
}

/// Different values of [`ProjectInclude`] are sent as different texts.
pub proof fn lemma_project_include_text_injective(x: ProjectInclude, y: ProjectInclude)
    ensures
        x.text() == y.text() ==> x == y,
{
    reveal_strlit("enabled_modules");
    reveal_strlit("issue_categories");
    reveal_strlit("time_entry_activities");
    reveal_strlit("trackers");
    assert("trackers"@.len() != "issue_categories"@.len());
    assert("trackers"@.len() != "enabled_modules"@.len());
    assert("trackers"@.len() != "time_entry_activities"@.len());
    assert("issue_categories"@.len() != "enabled_modules"@.len());
    assert("issue_categories"@.len() != "time_entry_activities"@.len());
    assert("enabled_modules"@.len() != "time_entry_activities"@.len());
}

/// The requests of this module use the HTTP method that fits what they do:
/// `GET` to read, `POST` to create or add, `PUT` to change and `DELETE` to
/// remove.
pub proof fn lemma_projects_methods(list_projects: ListProjects, get_project: GetProject, archive_project: ArchiveProject, unarchive_project: UnarchiveProject, create_project: CreateProject, update_project: UpdateProject, delete_project: DeleteProject)
    ensures
        list_projects.method_spec() == HttpMethod::Get,
        get_project.method_spec() == HttpMethod::Get,
        archive_project.method_spec() == HttpMethod::Put,
        unarchive_project.method_spec() == HttpMethod::Put,
        create_project.method_spec() == HttpMethod::Post,
        update_project.method_spec() == HttpMethod::Put,
        delete_project.method_spec() == HttpMethod::Delete,
{
}

/// The requests of this module that address the same collection, or the
/// same object, use the same path: listing and creating share the
/// collection's path, and reading, changing and removing an object share
/// the object's path.
pub proof fn lemma_projects_shared_paths(list_projects: ListProjects, create_project: CreateProject, get_project: GetProject, update_project: UpdateProject, delete_project: DeleteProject)
    ensures
        list_projects.endpoint_spec() == create_project.endpoint_spec(),
        get_project.project_id_or_name@ == update_project.project_id_or_name@ ==> get_project.endpoint_spec() == update_project.endpoint_spec(),
        get_project.project_id_or_name@ == delete_project.project_id_or_name@ ==> get_project.endpoint_spec() == delete_project.endpoint_spec(),
{
}

/// The page of [`ListProjects`] holds its values under the name of the
/// collection that ends the request's path.
pub proof fn lemma_list_projects_wrapper_key(x: ListProjects)
    ensures
        x.endpoint_spec().len() >= x.wrapper_key_spec().len() + 5,
        x.endpoint_spec().subrange(x.endpoint_spec().len() - x.wrapper_key_spec().len() - 5, x.endpoint_spec().len() as int) == x.wrapper_key_spec() + ".json"@,
{
    reveal_strlit(".json");
    reveal_strlit("projects");
    reveal_strlit("projects.json");
    assert(x.endpoint_spec().subrange(x.endpoint_spec().len() - x.wrapper_key_spec().len() - 5, x.endpoint_spec().len() as int) =~= x.wrapper_key_spec() + ".json"@);
}

} // verus!
