//! Time Entry Rest API Endpoint definitions
//!
//! [Redmine Documentation](https://www.redmine.org/projects/redmine/wiki/Rest_TimeEntries)
use vstd::prelude::*;
use vstd::string::StringExecFns;
use crate::Error;
use crate::api::endpoint::{
    BodySpec, BuilderError, Endpoint, HttpMethod, NoPagination, Pageable, RequestBody,
    ReturnsJsonResponse, json_body,
};
use crate::api::json::{
    JsonValue, JsonView, ObjectBuilder, ToJson, member_nullable, member_opt, single_member_object,
};
use crate::api::query::{ParamValue, QueryParams, opt_param_ok, push_opt_spec};
use crate::api::text::{decimal, push_decimal};
use crate::api::dates::Date;
use crate::api::filters::{
    ActivityFilter, CustomFieldFilter, DateFilter, FloatFilter, StringFieldFilter, TrackerFilter, VersionFilter,
    custom_filter_params, push_custom_field_filters,
};
use crate::api::json::JsonNumber;

use crate::api::query::present;
use crate::api::bodies::wrapped_members;
use crate::api::text::{lemma_id_path_injective};
verus! {

/// The endpoint for all time entries
#[derive(Debug, Clone)]
pub struct ListTimeEntries {
    /// project id or name as it appears in the URL on which the time was spent
    pub project_id_or_name: Option<String>,
    /// Filter by time entry activity.
    pub activity_id: Option<ActivityFilter>,
    /// day the time was spent on
    pub spent_on: Option<DateFilter>,
    /// comments text search
    pub comments: Option<StringFieldFilter>,
    /// hours spent
    pub hours: Option<FloatFilter>,
    /// Filter by issue tracker.
    pub tracker_id: Option<TrackerFilter>,
    /// Filter by the ID of the target version (milestone) to which the issue is assigned.
    pub fixed_version_id: Option<VersionFilter>,
    /// issue subject text search
    pub subject: Option<StringFieldFilter>,
    /// custom field filters
    pub custom_field_filters: Option<Vec<CustomFieldFilter>>,
}

/// Builder for [`ListTimeEntries`].
#[derive(Debug, Clone)]
pub struct ListTimeEntriesBuilder {
    /// project id or name as it appears in the URL on which the time was spent
    pub project_id_or_name: Option<String>,
    /// Filter by time entry activity.
    pub activity_id: Option<ActivityFilter>,
    /// day the time was spent on
    pub spent_on: Option<DateFilter>,
    /// comments text search
    pub comments: Option<StringFieldFilter>,
    /// hours spent
    pub hours: Option<FloatFilter>,
    /// Filter by issue tracker.
    pub tracker_id: Option<TrackerFilter>,
    /// Filter by the ID of the target version (milestone) to which the issue is assigned.
    pub fixed_version_id: Option<VersionFilter>,
    /// issue subject text search
    pub subject: Option<StringFieldFilter>,
    /// custom field filters
    pub custom_field_filters: Option<Vec<CustomFieldFilter>>,
}

impl ListTimeEntries {
    /// Create a builder for the endpoint.
    pub fn builder() -> (r: ListTimeEntriesBuilder)
        ensures
            r.project_id_or_name is None,
            r.activity_id is None,
            r.spent_on is None,
            r.comments is None,
            r.hours is None,
            r.tracker_id is None,
            r.fixed_version_id is None,
            r.subject is None,
            r.custom_field_filters is None,
    {
        ListTimeEntriesBuilder { project_id_or_name: None, activity_id: None, spent_on: None, comments: None, hours: None, tracker_id: None, fixed_version_id: None, subject: None, custom_field_filters: None }
    }
}

impl ListTimeEntriesBuilder {
    /// Sets `project_id_or_name`: project id or name as it appears in the URL on which the time was spent
    pub fn project_id_or_name(self, value: &str) -> (r: ListTimeEntriesBuilder)
        ensures
            r.project_id_or_name matches Some(s) && s@ == value@,
            r.activity_id == self.activity_id,
            r.spent_on == self.spent_on,
            r.comments == self.comments,
            r.hours == self.hours,
            r.tracker_id == self.tracker_id,
            r.fixed_version_id == self.fixed_version_id,
            r.subject == self.subject,
            r.custom_field_filters == self.custom_field_filters,
    {
        ListTimeEntriesBuilder { project_id_or_name: Some(String::from_str(value)), activity_id: self.activity_id, spent_on: self.spent_on, comments: self.comments, hours: self.hours, tracker_id: self.tracker_id, fixed_version_id: self.fixed_version_id, subject: self.subject, custom_field_filters: self.custom_field_filters }
    }

    /// Sets `activity_id`: filter by time entry activity.
    pub fn activity_id(self, value: ActivityFilter) -> (r: ListTimeEntriesBuilder)
        ensures
            r.activity_id == Some(value),
            r.project_id_or_name == self.project_id_or_name,
            r.spent_on == self.spent_on,
            r.comments == self.comments,
            r.hours == self.hours,
            r.tracker_id == self.tracker_id,
            r.fixed_version_id == self.fixed_version_id,
            r.subject == self.subject,
            r.custom_field_filters == self.custom_field_filters,
    {
        ListTimeEntriesBuilder { project_id_or_name: self.project_id_or_name, activity_id: Some(value), spent_on: self.spent_on, comments: self.comments, hours: self.hours, tracker_id: self.tracker_id, fixed_version_id: self.fixed_version_id, subject: self.subject, custom_field_filters: self.custom_field_filters }
    }

    /// Sets `spent_on`: day the time was spent on
    pub fn spent_on(self, value: DateFilter) -> (r: ListTimeEntriesBuilder)
        ensures
            r.spent_on == Some(value),
            r.project_id_or_name == self.project_id_or_name,
            r.activity_id == self.activity_id,
            r.comments == self.comments,
            r.hours == self.hours,
            r.tracker_id == self.tracker_id,
            r.fixed_version_id == self.fixed_version_id,
            r.subject == self.subject,
            r.custom_field_filters == self.custom_field_filters,
    {
        ListTimeEntriesBuilder { project_id_or_name: self.project_id_or_name, activity_id: self.activity_id, spent_on: Some(value), comments: self.comments, hours: self.hours, tracker_id: self.tracker_id, fixed_version_id: self.fixed_version_id, subject: self.subject, custom_field_filters: self.custom_field_filters }
    }

    /// Sets `comments`: comments text search
    pub fn comments(self, value: StringFieldFilter) -> (r: ListTimeEntriesBuilder)
        ensures
            r.comments == Some(value),
            r.project_id_or_name == self.project_id_or_name,
            r.activity_id == self.activity_id,
            r.spent_on == self.spent_on,
            r.hours == self.hours,
            r.tracker_id == self.tracker_id,
            r.fixed_version_id == self.fixed_version_id,
            r.subject == self.subject,
            r.custom_field_filters == self.custom_field_filters,
    {
        ListTimeEntriesBuilder { project_id_or_name: self.project_id_or_name, activity_id: self.activity_id, spent_on: self.spent_on, comments: Some(value), hours: self.hours, tracker_id: self.tracker_id, fixed_version_id: self.fixed_version_id, subject: self.subject, custom_field_filters: self.custom_field_filters }
    }

    /// Sets `hours`: hours spent
    pub fn hours(self, value: FloatFilter) -> (r: ListTimeEntriesBuilder)
        ensures
            r.hours == Some(value),
            r.project_id_or_name == self.project_id_or_name,
            r.activity_id == self.activity_id,
            r.spent_on == self.spent_on,
            r.comments == self.comments,
            r.tracker_id == self.tracker_id,
            r.fixed_version_id == self.fixed_version_id,
            r.subject == self.subject,
            r.custom_field_filters == self.custom_field_filters,
    {
        ListTimeEntriesBuilder { project_id_or_name: self.project_id_or_name, activity_id: self.activity_id, spent_on: self.spent_on, comments: self.comments, hours: Some(value), tracker_id: self.tracker_id, fixed_version_id: self.fixed_version_id, subject: self.subject, custom_field_filters: self.custom_field_filters }
    }

    /// Sets `tracker_id`: filter by issue tracker.
    pub fn tracker_id(self, value: TrackerFilter) -> (r: ListTimeEntriesBuilder)
        ensures
            r.tracker_id == Some(value),
            r.project_id_or_name == self.project_id_or_name,
            r.activity_id == self.activity_id,
            r.spent_on == self.spent_on,
            r.comments == self.comments,
            r.hours == self.hours,
            r.fixed_version_id == self.fixed_version_id,
            r.subject == self.subject,
            r.custom_field_filters == self.custom_field_filters,
    {
        ListTimeEntriesBuilder { project_id_or_name: self.project_id_or_name, activity_id: self.activity_id, spent_on: self.spent_on, comments: self.comments, hours: self.hours, tracker_id: Some(value), fixed_version_id: self.fixed_version_id, subject: self.subject, custom_field_filters: self.custom_field_filters }
    }

    /// Sets `fixed_version_id`: filter by the ID of the target version (milestone) to which the issue is assigned.
    pub fn fixed_version_id(self, value: VersionFilter) -> (r: ListTimeEntriesBuilder)
        ensures
            r.fixed_version_id == Some(value),
            r.project_id_or_name == self.project_id_or_name,
            r.activity_id == self.activity_id,
            r.spent_on == self.spent_on,
            r.comments == self.comments,
            r.hours == self.hours,
            r.tracker_id == self.tracker_id,
            r.subject == self.subject,
            r.custom_field_filters == self.custom_field_filters,
    {
        ListTimeEntriesBuilder { project_id_or_name: self.project_id_or_name, activity_id: self.activity_id, spent_on: self.spent_on, comments: self.comments, hours: self.hours, tracker_id: self.tracker_id, fixed_version_id: Some(value), subject: self.subject, custom_field_filters: self.custom_field_filters }
    }

    /// Sets `subject`: issue subject text search
    pub fn subject(self, value: StringFieldFilter) -> (r: ListTimeEntriesBuilder)
        ensures
            r.subject == Some(value),
            r.project_id_or_name == self.project_id_or_name,
            r.activity_id == self.activity_id,
            r.spent_on == self.spent_on,
            r.comments == self.comments,
            r.hours == self.hours,
            r.tracker_id == self.tracker_id,
            r.fixed_version_id == self.fixed_version_id,
            r.custom_field_filters == self.custom_field_filters,
    {
        ListTimeEntriesBuilder { project_id_or_name: self.project_id_or_name, activity_id: self.activity_id, spent_on: self.spent_on, comments: self.comments, hours: self.hours, tracker_id: self.tracker_id, fixed_version_id: self.fixed_version_id, subject: Some(value), custom_field_filters: self.custom_field_filters }
    }

    /// Sets `custom_field_filters`: custom field filters
    pub fn custom_field_filters(self, value: Vec<CustomFieldFilter>) -> (r: ListTimeEntriesBuilder)
        ensures
            r.custom_field_filters == Some(value),
            r.project_id_or_name == self.project_id_or_name,
            r.activity_id == self.activity_id,
            r.spent_on == self.spent_on,
            r.comments == self.comments,
            r.hours == self.hours,
            r.tracker_id == self.tracker_id,
            r.fixed_version_id == self.fixed_version_id,
            r.subject == self.subject,
    {
        ListTimeEntriesBuilder { project_id_or_name: self.project_id_or_name, activity_id: self.activity_id, spent_on: self.spent_on, comments: self.comments, hours: self.hours, tracker_id: self.tracker_id, fixed_version_id: self.fixed_version_id, subject: self.subject, custom_field_filters: Some(value) }
    }

    /// The first required field that has not been set, if any.
    pub open spec fn missing_field(&self) -> Option<Seq<char>> {
        None
    }

    /// Builds the endpoint; fails on the first required field that has not been set.
    pub fn build(self) -> (r: Result<ListTimeEntries, BuilderError>)
        ensures
            match r {
                Ok(x) => self.missing_field() is None && x == (ListTimeEntries { project_id_or_name: self.project_id_or_name, activity_id: self.activity_id, spent_on: self.spent_on, comments: self.comments, hours: self.hours, tracker_id: self.tracker_id, fixed_version_id: self.fixed_version_id, subject: self.subject, custom_field_filters: self.custom_field_filters }),
                Err(BuilderError::UninitializedField(n)) => self.missing_field() == Some(n@),
                Err(_) => false,
            },
    {
        Ok(ListTimeEntries { project_id_or_name: self.project_id_or_name, activity_id: self.activity_id, spent_on: self.spent_on, comments: self.comments, hours: self.hours, tracker_id: self.tracker_id, fixed_version_id: self.fixed_version_id, subject: self.subject, custom_field_filters: self.custom_field_filters })
    }
}

impl ReturnsJsonResponse for ListTimeEntries {}

impl Pageable for ListTimeEntries {
    open spec fn wrapper_key_spec(&self) -> Seq<char> {
        "time_entries"@
    }

    fn response_wrapper_key(&self) -> (r: String) {
        String::from_str("time_entries")
    }
}

impl Endpoint for ListTimeEntries {
    open spec fn method_spec(&self) -> HttpMethod {
        HttpMethod::Get
    }

    open spec fn endpoint_spec(&self) -> Seq<char> {
        "time_entries.json"@
    }

    open spec fn parameters_spec(&self) -> Seq<(Seq<char>, Seq<char>)> {
        let p = Seq::<(Seq<char>, Seq<char>)>::empty();
        let p = push_opt_spec(p, "project_id"@, self.project_id_or_name);
        let p = push_opt_spec(p, "activity_id"@, self.activity_id);
        let p = push_opt_spec(p, "spent_on"@, self.spent_on);
        let p = push_opt_spec(p, "comments"@, self.comments);
        let p = push_opt_spec(p, "hours"@, self.hours);
        let p = push_opt_spec(p, "tracker_id"@, self.tracker_id);
        let p = push_opt_spec(p, "fixed_version_id"@, self.fixed_version_id);
        let p = push_opt_spec(p, "subject"@, self.subject);
        p + custom_filter_params(self.custom_field_filters)
    }

    open spec fn body_spec(&self) -> Option<BodySpec> {
        None
    }

    fn method(&self) -> (r: HttpMethod) {
        HttpMethod::Get
    }

    fn endpoint(&self) -> (r: String) {
        String::from_str("time_entries.json")
    }

    fn check_writable(&self) -> (r: bool) {
        true
    }

    fn parameters(&self) -> (r: QueryParams) {
        let mut p = QueryParams::new();
        p.push_opt("project_id", &self.project_id_or_name);
        p.push_opt("activity_id", &self.activity_id);
        p.push_opt("spent_on", &self.spent_on);
        p.push_opt("comments", &self.comments);
        p.push_opt("hours", &self.hours);
        p.push_opt("tracker_id", &self.tracker_id);
        p.push_opt("fixed_version_id", &self.fixed_version_id);
        p.push_opt("subject", &self.subject);
        push_custom_field_filters(&mut p, &self.custom_field_filters);
        p
    }

    fn body(&self) -> (r: Result<Option<RequestBody>, Error>) {
        Ok(None)
    }
}

/// The endpoint to create a Redmine time entry
#[derive(Debug, Clone)]
pub struct CreateTimeEntry {
    /// Issue id is required if project_id is not specified
    pub issue_id: Option<u64>,
    /// Project id is required if issue_id is not specified
    pub project_id: Option<u64>,
    /// The date the time was spent, default is today
    pub spent_on: Option<Date>,
    /// the hours spent
    pub hours: JsonNumber,
    /// This is required unless there is a default activity defined in Redmine
    pub activity_id: Option<u64>,
    /// Short description for the entry (255 characters max)
    pub comments: Option<String>,
    /// User Id is only required when posting time on behalf of another user, defaults to current user
    pub user_id: Option<u64>,
}

/// Builder for [`CreateTimeEntry`].
#[derive(Debug, Clone)]
pub struct CreateTimeEntryBuilder {
    /// Issue id is required if project_id is not specified
    pub issue_id: Option<u64>,
    /// Project id is required if issue_id is not specified
    pub project_id: Option<u64>,
    /// The date the time was spent, default is today
    pub spent_on: Option<Date>,
    /// the hours spent
    pub hours: Option<JsonNumber>,
    /// This is required unless there is a default activity defined in Redmine
    pub activity_id: Option<u64>,
    /// Short description for the entry (255 characters max)
    pub comments: Option<String>,
    /// User Id is only required when posting time on behalf of another user, defaults to current user
    pub user_id: Option<u64>,
}

impl CreateTimeEntry {
    /// Create a builder for the endpoint.
    pub fn builder() -> (r: CreateTimeEntryBuilder)
        ensures
            r.issue_id is None,
            r.project_id is None,
            r.spent_on is None,
            r.hours is None,
            r.activity_id is None,
            r.comments is None,
            r.user_id is None,
    {
        CreateTimeEntryBuilder { issue_id: None, project_id: None, spent_on: None, hours: None, activity_id: None, comments: None, user_id: None }
    }
}

impl CreateTimeEntryBuilder {
    /// Sets `issue_id`: issue id is required if project_id is not specified
    pub fn issue_id(self, value: u64) -> (r: CreateTimeEntryBuilder)
        ensures
            r.issue_id == Some(value),
            r.project_id == self.project_id,
            r.spent_on == self.spent_on,
            r.hours == self.hours,
            r.activity_id == self.activity_id,
            r.comments == self.comments,
            r.user_id == self.user_id,
    {
        CreateTimeEntryBuilder { issue_id: Some(value), project_id: self.project_id, spent_on: self.spent_on, hours: self.hours, activity_id: self.activity_id, comments: self.comments, user_id: self.user_id }
    }

    /// Sets `project_id`: project id is required if issue_id is not specified
    pub fn project_id(self, value: u64) -> (r: CreateTimeEntryBuilder)
        ensures
            r.project_id == Some(value),
            r.issue_id == self.issue_id,
            r.spent_on == self.spent_on,
            r.hours == self.hours,
            r.activity_id == self.activity_id,
            r.comments == self.comments,
            r.user_id == self.user_id,
    {
        CreateTimeEntryBuilder { issue_id: self.issue_id, project_id: Some(value), spent_on: self.spent_on, hours: self.hours, activity_id: self.activity_id, comments: self.comments, user_id: self.user_id }
    }

    /// Sets `spent_on`: the date the time was spent, default is today
    pub fn spent_on(self, value: Date) -> (r: CreateTimeEntryBuilder)
        ensures
            r.spent_on == Some(value),
            r.issue_id == self.issue_id,
            r.project_id == self.project_id,
            r.hours == self.hours,
            r.activity_id == self.activity_id,
            r.comments == self.comments,
            r.user_id == self.user_id,
    {
        CreateTimeEntryBuilder { issue_id: self.issue_id, project_id: self.project_id, spent_on: Some(value), hours: self.hours, activity_id: self.activity_id, comments: self.comments, user_id: self.user_id }
    }

    /// Sets `hours`: the hours spent
    pub fn hours(self, value: JsonNumber) -> (r: CreateTimeEntryBuilder)
        ensures
            r.hours == Some(value),
            r.issue_id == self.issue_id,
            r.project_id == self.project_id,
            r.spent_on == self.spent_on,
            r.activity_id == self.activity_id,
            r.comments == self.comments,
            r.user_id == self.user_id,
    {
        CreateTimeEntryBuilder { issue_id: self.issue_id, project_id: self.project_id, spent_on: self.spent_on, hours: Some(value), activity_id: self.activity_id, comments: self.comments, user_id: self.user_id }
    }

    /// Sets `activity_id`: this is required unless there is a default activity defined in Redmine
    pub fn activity_id(self, value: u64) -> (r: CreateTimeEntryBuilder)
        ensures
            r.activity_id == Some(value),
            r.issue_id == self.issue_id,
            r.project_id == self.project_id,
            r.spent_on == self.spent_on,
            r.hours == self.hours,
            r.comments == self.comments,
            r.user_id == self.user_id,
    {
        CreateTimeEntryBuilder { issue_id: self.issue_id, project_id: self.project_id, spent_on: self.spent_on, hours: self.hours, activity_id: Some(value), comments: self.comments, user_id: self.user_id }
    }

    /// Sets `comments`: short description for the entry (255 characters max)
    pub fn comments(self, value: &str) -> (r: CreateTimeEntryBuilder)
        ensures
            r.comments matches Some(s) && s@ == value@,
            r.issue_id == self.issue_id,
            r.project_id == self.project_id,
            r.spent_on == self.spent_on,
            r.hours == self.hours,
            r.activity_id == self.activity_id,
            r.user_id == self.user_id,
    {
        CreateTimeEntryBuilder { issue_id: self.issue_id, project_id: self.project_id, spent_on: self.spent_on, hours: self.hours, activity_id: self.activity_id, comments: Some(String::from_str(value)), user_id: self.user_id }
    }

    /// Sets `user_id`: user Id is only required when posting time on behalf of another user, defaults to current user
    pub fn user_id(self, value: u64) -> (r: CreateTimeEntryBuilder)
        ensures
            r.user_id == Some(value),
            r.issue_id == self.issue_id,
            r.project_id == self.project_id,
            r.spent_on == self.spent_on,
            r.hours == self.hours,
            r.activity_id == self.activity_id,
            r.comments == self.comments,
    {
        CreateTimeEntryBuilder { issue_id: self.issue_id, project_id: self.project_id, spent_on: self.spent_on, hours: self.hours, activity_id: self.activity_id, comments: self.comments, user_id: Some(value) }
    }

    /// The first required field that has not been set, if any.
    pub open spec fn missing_field(&self) -> Option<Seq<char>> {
        if self.hours is None {
            Some("hours"@)
        } else {
            None
        }
    }

    /// Builds the endpoint; fails on the first required field that has not been set.
    pub fn build(self) -> (r: Result<CreateTimeEntry, BuilderError>)
        ensures
            match r {
                Ok(x) => !(self.issue_id is None && self.project_id is None) && self.missing_field() is None && x == (CreateTimeEntry { issue_id: self.issue_id, project_id: self.project_id, spent_on: self.spent_on, hours: self.hours->0, activity_id: self.activity_id, comments: self.comments, user_id: self.user_id }),
                Err(BuilderError::UninitializedField(n)) => !(self.issue_id is None && self.project_id is None) && self.missing_field() == Some(n@),
                Err(BuilderError::ValidationError(m)) => (self.issue_id is None && self.project_id is None) && m@ == "Either issue_id or project_id need to be specified"@,
            },
    {
        if self.issue_id.is_none() && self.project_id.is_none() {
            return Err(BuilderError::ValidationError(String::from_str("Either issue_id or project_id need to be specified")));
        }
        let hours = match self.hours {
            Some(v) => v,
            None => {
                return Err(BuilderError::UninitializedField("hours"));
            },
        };
        Ok(CreateTimeEntry { issue_id: self.issue_id, project_id: self.project_id, spent_on: self.spent_on, hours, activity_id: self.activity_id, comments: self.comments, user_id: self.user_id })
    }
}

impl ReturnsJsonResponse for CreateTimeEntry {}

impl NoPagination for CreateTimeEntry {}

impl Endpoint for CreateTimeEntry {
    open spec fn method_spec(&self) -> HttpMethod {
        HttpMethod::Post
    }

    open spec fn endpoint_spec(&self) -> Seq<char> {
        "time_entries.json"@
    }

    open spec fn parameters_spec(&self) -> Seq<(Seq<char>, Seq<char>)> {
        Seq::empty()
    }

    open spec fn body_spec(&self) -> Option<BodySpec> {
        let inner = {
            let m = Seq::<(Seq<char>, JsonView)>::empty();
            let m = member_opt(m, "issue_id"@, self.issue_id);
            let m = member_opt(m, "project_id"@, self.project_id);
            let m = member_opt(m, "spent_on"@, self.spent_on);
            let m = m.push(("hours"@, self.hours.json()));
            let m = member_opt(m, "activity_id"@, self.activity_id);
            let m = member_opt(m, "comments"@, self.comments);
            let m = member_opt(m, "user_id"@, self.user_id);
            m
        };
        Some(BodySpec::Json(JsonView::Object(seq![("time_entry"@, JsonView::Object(inner))])))
    }

    fn method(&self) -> (r: HttpMethod) {
        HttpMethod::Post
    }

    fn endpoint(&self) -> (r: String) {
        String::from_str("time_entries.json")
    }

    fn check_writable(&self) -> (r: bool) {
        true
    }

    fn parameters(&self) -> (r: QueryParams) {
        let mut p = QueryParams::new();
        p
    }

    fn body(&self) -> (r: Result<Option<RequestBody>, Error>) {
        let mut b = ObjectBuilder::new();
        b.insert_opt("issue_id", &self.issue_id);
        b.insert_opt("project_id", &self.project_id);
        b.insert_opt("spent_on", &self.spent_on);
        b.insert_value("hours", &self.hours);
        b.insert_opt("activity_id", &self.activity_id);
        b.insert_opt("comments", &self.comments);
        b.insert_opt("user_id", &self.user_id);
        let doc = single_member_object("time_entry", b.build());
        json_body(&doc)
    }
}

/// The endpoint to update an existing Redmine time entry
#[derive(Debug, Clone)]
pub struct UpdateTimeEntry {
    /// the id of the time entry to update
    pub id: u64,
    /// Issue id is required if project_id is not specified
    pub issue_id: Option<u64>,
    /// Project id is required if issue_id is not specified
    pub project_id: Option<u64>,
    /// The date the time was spent, default is today
    pub spent_on: Option<Date>,
    /// the hours spent
    pub hours: Option<JsonNumber>,
    /// This is required unless there is a default activity defined in Redmine
    pub activity_id: Option<u64>,
    /// Short description for the entry (255 characters max)
    pub comments: Option<String>,
    /// User Id is only required when posting time on behalf of another user, defaults to current user
    pub user_id: Option<u64>,
}

/// Builder for [`UpdateTimeEntry`].
#[derive(Debug, Clone)]
pub struct UpdateTimeEntryBuilder {
    /// the id of the time entry to update
    pub id: Option<u64>,
    /// Issue id is required if project_id is not specified
    pub issue_id: Option<u64>,
    /// Project id is required if issue_id is not specified
    pub project_id: Option<u64>,
    /// The date the time was spent, default is today
    pub spent_on: Option<Date>,
    /// the hours spent
    pub hours: Option<JsonNumber>,
    /// This is required unless there is a default activity defined in Redmine
    pub activity_id: Option<u64>,
    /// Short description for the entry (255 characters max)
    pub comments: Option<String>,
    /// User Id is only required when posting time on behalf of another user, defaults to current user
    pub user_id: Option<u64>,
}

impl UpdateTimeEntry {
    /// Create a builder for the endpoint.
    pub fn builder() -> (r: UpdateTimeEntryBuilder)
        ensures
            r.id is None,
            r.issue_id is None,
            r.project_id is None,
            r.spent_on is None,
            r.hours is None,
            r.activity_id is None,
            r.comments is None,
            r.user_id is None,
    {
        UpdateTimeEntryBuilder { id: None, issue_id: None, project_id: None, spent_on: None, hours: None, activity_id: None, comments: None, user_id: None }
    }
}

impl UpdateTimeEntryBuilder {
    /// Sets `id`: the id of the time entry to update
    pub fn id(self, value: u64) -> (r: UpdateTimeEntryBuilder)
        ensures
            r.id == Some(value),
            r.issue_id == self.issue_id,
            r.project_id == self.project_id,
            r.spent_on == self.spent_on,
            r.hours == self.hours,
            r.activity_id == self.activity_id,
            r.comments == self.comments,
            r.user_id == self.user_id,
    {
        UpdateTimeEntryBuilder { id: Some(value), issue_id: self.issue_id, project_id: self.project_id, spent_on: self.spent_on, hours: self.hours, activity_id: self.activity_id, comments: self.comments, user_id: self.user_id }
    }

    /// Sets `issue_id`: issue id is required if project_id is not specified
    pub fn issue_id(self, value: u64) -> (r: UpdateTimeEntryBuilder)
        ensures
            r.issue_id == Some(value),
            r.id == self.id,
            r.project_id == self.project_id,
            r.spent_on == self.spent_on,
            r.hours == self.hours,
            r.activity_id == self.activity_id,
            r.comments == self.comments,
            r.user_id == self.user_id,
    {
        UpdateTimeEntryBuilder { id: self.id, issue_id: Some(value), project_id: self.project_id, spent_on: self.spent_on, hours: self.hours, activity_id: self.activity_id, comments: self.comments, user_id: self.user_id }
    }

    /// Sets `project_id`: project id is required if issue_id is not specified
    pub fn project_id(self, value: u64) -> (r: UpdateTimeEntryBuilder)
        ensures
            r.project_id == Some(value),
            r.id == self.id,
            r.issue_id == self.issue_id,
            r.spent_on == self.spent_on,
            r.hours == self.hours,
            r.activity_id == self.activity_id,
            r.comments == self.comments,
            r.user_id == self.user_id,
    {
        UpdateTimeEntryBuilder { id: self.id, issue_id: self.issue_id, project_id: Some(value), spent_on: self.spent_on, hours: self.hours, activity_id: self.activity_id, comments: self.comments, user_id: self.user_id }
    }

    /// Sets `spent_on`: the date the time was spent, default is today
    pub fn spent_on(self, value: Date) -> (r: UpdateTimeEntryBuilder)
        ensures
            r.spent_on == Some(value),
            r.id == self.id,
            r.issue_id == self.issue_id,
            r.project_id == self.project_id,
            r.hours == self.hours,
            r.activity_id == self.activity_id,
            r.comments == self.comments,
            r.user_id == self.user_id,
    {
        UpdateTimeEntryBuilder { id: self.id, issue_id: self.issue_id, project_id: self.project_id, spent_on: Some(value), hours: self.hours, activity_id: self.activity_id, comments: self.comments, user_id: self.user_id }
    }

    /// Sets `hours`: the hours spent
    pub fn hours(self, value: JsonNumber) -> (r: UpdateTimeEntryBuilder)
        ensures
            r.hours == Some(value),
            r.id == self.id,
            r.issue_id == self.issue_id,
            r.project_id == self.project_id,
            r.spent_on == self.spent_on,
            r.activity_id == self.activity_id,
            r.comments == self.comments,
            r.user_id == self.user_id,
    {
        UpdateTimeEntryBuilder { id: self.id, issue_id: self.issue_id, project_id: self.project_id, spent_on: self.spent_on, hours: Some(value), activity_id: self.activity_id, comments: self.comments, user_id: self.user_id }
    }

    /// Sets `activity_id`: this is required unless there is a default activity defined in Redmine
    pub fn activity_id(self, value: u64) -> (r: UpdateTimeEntryBuilder)
        ensures
            r.activity_id == Some(value),
            r.id == self.id,
            r.issue_id == self.issue_id,
            r.project_id == self.project_id,
            r.spent_on == self.spent_on,
            r.hours == self.hours,
            r.comments == self.comments,
            r.user_id == self.user_id,
    {
        UpdateTimeEntryBuilder { id: self.id, issue_id: self.issue_id, project_id: self.project_id, spent_on: self.spent_on, hours: self.hours, activity_id: Some(value), comments: self.comments, user_id: self.user_id }
    }

    /// Sets `comments`: short description for the entry (255 characters max)
    pub fn comments(self, value: &str) -> (r: UpdateTimeEntryBuilder)
        ensures
            r.comments matches Some(s) && s@ == value@,
            r.id == self.id,
            r.issue_id == self.issue_id,
            r.project_id == self.project_id,
            r.spent_on == self.spent_on,
            r.hours == self.hours,
            r.activity_id == self.activity_id,
            r.user_id == self.user_id,
    {
        UpdateTimeEntryBuilder { id: self.id, issue_id: self.issue_id, project_id: self.project_id, spent_on: self.spent_on, hours: self.hours, activity_id: self.activity_id, comments: Some(String::from_str(value)), user_id: self.user_id }
    }

    /// Sets `user_id`: user Id is only required when posting time on behalf of another user, defaults to current user
    pub fn user_id(self, value: u64) -> (r: UpdateTimeEntryBuilder)
        ensures
            r.user_id == Some(value),
            r.id == self.id,
            r.issue_id == self.issue_id,
            r.project_id == self.project_id,
            r.spent_on == self.spent_on,
            r.hours == self.hours,
            r.activity_id == self.activity_id,
            r.comments == self.comments,
    {
        UpdateTimeEntryBuilder { id: self.id, issue_id: self.issue_id, project_id: self.project_id, spent_on: self.spent_on, hours: self.hours, activity_id: self.activity_id, comments: self.comments, user_id: Some(value) }
    }

    /// The first required field that has not been set, if any.
    pub open spec fn missing_field(&self) -> Option<Seq<char>> {
        if self.id is None {
            Some("id"@)
        } else {
            None
        }
    }

    /// Builds the endpoint; fails on the first required field that has not been set.
    pub fn build(self) -> (r: Result<UpdateTimeEntry, BuilderError>)
        ensures
            match r {
                Ok(x) => self.missing_field() is None && x == (UpdateTimeEntry { id: self.id->0, issue_id: self.issue_id, project_id: self.project_id, spent_on: self.spent_on, hours: self.hours, activity_id: self.activity_id, comments: self.comments, user_id: self.user_id }),
                Err(BuilderError::UninitializedField(n)) => self.missing_field() == Some(n@),
                Err(_) => false,
            },
    {
        let id = match self.id {
            Some(v) => v,
            None => {
                return Err(BuilderError::UninitializedField("id"));
            },
        };
        Ok(UpdateTimeEntry { id, issue_id: self.issue_id, project_id: self.project_id, spent_on: self.spent_on, hours: self.hours, activity_id: self.activity_id, comments: self.comments, user_id: self.user_id })
    }
}

impl Endpoint for UpdateTimeEntry {
    open spec fn method_spec(&self) -> HttpMethod {
        HttpMethod::Put
    }

    open spec fn endpoint_spec(&self) -> Seq<char> {
        "time_entries/"@ + decimal(self.id as nat) + ".json"@
    }

    open spec fn parameters_spec(&self) -> Seq<(Seq<char>, Seq<char>)> {
        Seq::empty()
    }

    open spec fn body_spec(&self) -> Option<BodySpec> {
        let inner = {
            let m = Seq::<(Seq<char>, JsonView)>::empty();
            let m = member_opt(m, "issue_id"@, self.issue_id);
            let m = member_opt(m, "project_id"@, self.project_id);
            let m = member_opt(m, "spent_on"@, self.spent_on);
            let m = member_opt(m, "hours"@, self.hours);
            let m = member_opt(m, "activity_id"@, self.activity_id);
            let m = member_opt(m, "comments"@, self.comments);
            let m = member_opt(m, "user_id"@, self.user_id);
            m
        };
        Some(BodySpec::Json(JsonView::Object(seq![("time_entry"@, JsonView::Object(inner))])))
    }

    fn method(&self) -> (r: HttpMethod) {
        HttpMethod::Put
    }

    fn endpoint(&self) -> (r: String) {
        let mut s = String::new();
        s.append("time_entries/");
        push_decimal(&mut s, self.id);
        s.append(".json");
        assert(s@ =~= self.endpoint_spec());
        s
    }

    fn check_writable(&self) -> (r: bool) {
        true
    }

    fn parameters(&self) -> (r: QueryParams) {
        let mut p = QueryParams::new();
        p
    }

    fn body(&self) -> (r: Result<Option<RequestBody>, Error>) {
        let mut b = ObjectBuilder::new();
        b.insert_opt("issue_id", &self.issue_id);
        b.insert_opt("project_id", &self.project_id);
        b.insert_opt("spent_on", &self.spent_on);
        b.insert_opt("hours", &self.hours);
        b.insert_opt("activity_id", &self.activity_id);
        b.insert_opt("comments", &self.comments);
        b.insert_opt("user_id", &self.user_id);
        let doc = single_member_object("time_entry", b.build());
        json_body(&doc)
    }
}

/// The endpoint for a specific time entry
#[derive(Debug, Clone)]
pub struct GetTimeEntry {
    /// the id of the time entry to retrieve
    pub id: u64,
}

/// Builder for [`GetTimeEntry`].
#[derive(Debug, Clone)]
pub struct GetTimeEntryBuilder {
    /// the id of the time entry to retrieve
    pub id: Option<u64>,
}

impl GetTimeEntry {
    /// Create a builder for the endpoint.
    pub fn builder() -> (r: GetTimeEntryBuilder)
        ensures
            r.id is None,
    {
        GetTimeEntryBuilder { id: None }
    }
}

impl GetTimeEntryBuilder {
    /// Sets `id`: the id of the time entry to retrieve
    pub fn id(self, value: u64) -> (r: GetTimeEntryBuilder)
        ensures
            r.id == Some(value),
    {
        GetTimeEntryBuilder { id: Some(value) }
    }

    /// The first required field that has not been set, if any.
    pub open spec fn missing_field(&self) -> Option<Seq<char>> {
        if self.id is None {
            Some("id"@)
        } else {
            None
        }
    }

    /// Builds the endpoint; fails on the first required field that has not been set.
    pub fn build(self) -> (r: Result<GetTimeEntry, BuilderError>)
        ensures
            match r {
                Ok(x) => self.missing_field() is None && x == (GetTimeEntry { id: self.id->0 }),
                Err(BuilderError::UninitializedField(n)) => self.missing_field() == Some(n@),
                Err(_) => false,
            },
    {
        let id = match self.id {
            Some(v) => v,
            None => {
                return Err(BuilderError::UninitializedField("id"));
            },
        };
        Ok(GetTimeEntry { id })
    }
}

impl ReturnsJsonResponse for GetTimeEntry {}

impl NoPagination for GetTimeEntry {}

impl Endpoint for GetTimeEntry {
    open spec fn method_spec(&self) -> HttpMethod {
        HttpMethod::Get
    }

    open spec fn endpoint_spec(&self) -> Seq<char> {
        "time_entries/"@ + decimal(self.id as nat) + ".json"@
    }

    open spec fn parameters_spec(&self) -> Seq<(Seq<char>, Seq<char>)> {
        Seq::empty()
    }

    open spec fn body_spec(&self) -> Option<BodySpec> {
        None
    }

    fn method(&self) -> (r: HttpMethod) {
        HttpMethod::Get
    }

    fn endpoint(&self) -> (r: String) {
        let mut s = String::new();
        s.append("time_entries/");
        push_decimal(&mut s, self.id);
        s.append(".json");
        assert(s@ =~= self.endpoint_spec());
        s
    }

    fn check_writable(&self) -> (r: bool) {
        true
    }

    fn parameters(&self) -> (r: QueryParams) {
        let mut p = QueryParams::new();
        p
    }

    fn body(&self) -> (r: Result<Option<RequestBody>, Error>) {
        Ok(None)
    }
}

/// The endpoint to delete a Redmine time entry
#[derive(Debug, Clone)]
pub struct DeleteTimeEntry {
    /// the id of the time entry to delete
    pub id: u64,
}

/// Builder for [`DeleteTimeEntry`].
#[derive(Debug, Clone)]
pub struct DeleteTimeEntryBuilder {
    /// the id of the time entry to delete
    pub id: Option<u64>,
}

impl DeleteTimeEntry {
    /// Create a builder for the endpoint.
    pub fn builder() -> (r: DeleteTimeEntryBuilder)
        ensures
            r.id is None,
    {
        DeleteTimeEntryBuilder { id: None }
    }
}

impl DeleteTimeEntryBuilder {
    /// Sets `id`: the id of the time entry to delete
    pub fn id(self, value: u64) -> (r: DeleteTimeEntryBuilder)
        ensures
            r.id == Some(value),
    {
        DeleteTimeEntryBuilder { id: Some(value) }
    }

    /// The first required field that has not been set, if any.
    pub open spec fn missing_field(&self) -> Option<Seq<char>> {
        if self.id is None {
            Some("id"@)
        } else {
            None
        }
    }

    /// Builds the endpoint; fails on the first required field that has not been set.
    pub fn build(self) -> (r: Result<DeleteTimeEntry, BuilderError>)
        ensures
            match r {
                Ok(x) => self.missing_field() is None && x == (DeleteTimeEntry { id: self.id->0 }),
                Err(BuilderError::UninitializedField(n)) => self.missing_field() == Some(n@),
                Err(_) => false,
            },
    {
        let id = match self.id {
            Some(v) => v,
            None => {
                return Err(BuilderError::UninitializedField("id"));
            },
        };
        Ok(DeleteTimeEntry { id })
    }
}

impl Endpoint for DeleteTimeEntry {
    open spec fn method_spec(&self) -> HttpMethod {
        HttpMethod::Delete
    }

    open spec fn endpoint_spec(&self) -> Seq<char> {
        "time_entries/"@ + decimal(self.id as nat) + ".json"@
    }

    open spec fn parameters_spec(&self) -> Seq<(Seq<char>, Seq<char>)> {
        Seq::empty()
    }

    open spec fn body_spec(&self) -> Option<BodySpec> {
        None
    }

    fn method(&self) -> (r: HttpMethod) {
        HttpMethod::Delete
    }

    fn endpoint(&self) -> (r: String) {
        let mut s = String::new();
        s.append("time_entries/");
        push_decimal(&mut s, self.id);
        s.append(".json");
        assert(s@ =~= self.endpoint_spec());
        s
    }

    fn check_writable(&self) -> (r: bool) {
        true
    }

    fn parameters(&self) -> (r: QueryParams) {
        let mut p = QueryParams::new();
        p
    }

    fn body(&self) -> (r: Result<Option<RequestBody>, Error>) {
        Ok(None)
    }
}

/// The body of [`CreateTimeEntry`] holds, under `time_entry`, each attribute that is set
/// under its Redmine name, with the attribute's document as the value, and
/// nothing else.
pub proof fn lemma_create_time_entry_body_members(x: CreateTimeEntry)
    ensures
        x.issue_id matches Some(v) ==> wrapped_members(x.body_spec()).contains(("issue_id"@, v.json())),
        x.project_id matches Some(v) ==> wrapped_members(x.body_spec()).contains(("project_id"@, v.json())),
        x.spent_on matches Some(v) ==> wrapped_members(x.body_spec()).contains(("spent_on"@, v.json())),
        wrapped_members(x.body_spec()).contains(("hours"@, x.hours.json())),
        x.activity_id matches Some(v) ==> wrapped_members(x.body_spec()).contains(("activity_id"@, v.json())),
        x.comments matches Some(v) ==> wrapped_members(x.body_spec()).contains(("comments"@, v.json())),
        x.user_id matches Some(v) ==> wrapped_members(x.body_spec()).contains(("user_id"@, v.json())),
        wrapped_members(x.body_spec()).len() == 1 + present(x.issue_id) + present(x.project_id) + present(x.spent_on) + present(x.activity_id) + present(x.comments) + present(x.user_id),
{
    broadcast use crate::api::json::lemma_member_opt_contains, crate::api::json::lemma_member_opt_len,
        crate::api::json::lemma_member_nullable_contains, crate::api::json::lemma_member_nullable_len,
        crate::api::json::lemma_push_member_contains;
}

/// The body of [`UpdateTimeEntry`] holds, under `time_entry`, each attribute that is set
/// under its Redmine name, with the attribute's document as the value, and
/// nothing else.
pub proof fn lemma_update_time_entry_body_members(x: UpdateTimeEntry)
    ensures
        x.issue_id matches Some(v) ==> wrapped_members(x.body_spec()).contains(("issue_id"@, v.json())),
        x.project_id matches Some(v) ==> wrapped_members(x.body_spec()).contains(("project_id"@, v.json())),
        x.spent_on matches Some(v) ==> wrapped_members(x.body_spec()).contains(("spent_on"@, v.json())),
        x.hours matches Some(v) ==> wrapped_members(x.body_spec()).contains(("hours"@, v.json())),
        x.activity_id matches Some(v) ==> wrapped_members(x.body_spec()).contains(("activity_id"@, v.json())),
        x.comments matches Some(v) ==> wrapped_members(x.body_spec()).contains(("comments"@, v.json())),
        x.user_id matches Some(v) ==> wrapped_members(x.body_spec()).contains(("user_id"@, v.json())),
        wrapped_members(x.body_spec()).len() == 0 + present(x.issue_id) + present(x.project_id) + present(x.spent_on) + present(x.hours) + present(x.activity_id) + present(x.comments) + present(x.user_id),
{
    broadcast use crate::api::json::lemma_member_opt_contains, crate::api::json::lemma_member_opt_len,
        crate::api::json::lemma_member_nullable_contains, crate::api::json::lemma_member_nullable_len,
        crate::api::json::lemma_push_member_contains;
}

/// The path of [`UpdateTimeEntry`] names the object by the decimal of its id, and two
/// requests share a path only when they name the same id.
pub proof fn lemma_update_time_entry_path(x: UpdateTimeEntry, y: UpdateTimeEntry)
    ensures
        x.endpoint_spec() == "time_entries/"@ + decimal(x.id as nat) + ".json"@,
        x.endpoint_spec() == y.endpoint_spec() <==> x.id == y.id,
{
    lemma_id_path_injective("time_entries/"@, ".json"@, x.id as nat, y.id as nat);
}

/// The path of [`GetTimeEntry`] names the object by the decimal of its id, and two
/// requests share a path only when they name the same id.
pub proof fn lemma_get_time_entry_path(x: GetTimeEntry, y: GetTimeEntry)
    ensures
        x.endpoint_spec() == "time_entries/"@ + decimal(x.id as nat) + ".json"@,
        x.endpoint_spec() == y.endpoint_spec() <==> x.id == y.id,
{
    lemma_id_path_injective("time_entries/"@, ".json"@, x.id as nat, y.id as nat);
}

/// The path of [`DeleteTimeEntry`] names the object by the decimal of its id, and two
/// requests share a path only when they name the same id.
pub proof fn lemma_delete_time_entry_path(x: DeleteTimeEntry, y: DeleteTimeEntry)
    ensures
        x.endpoint_spec() == "time_entries/"@ + decimal(x.id as nat) + ".json"@,
        x.endpoint_spec() == y.endpoint_spec() <==> x.id == y.id,
{
    lemma_id_path_injective("time_entries/"@, ".json"@, x.id as nat, y.id as nat);
}

/// The query of [`ListTimeEntries`] sends each filter that is set under its
/// Redmine name (the project as `project_id`, the version as
/// `fixed_version_id`), each custom field filter as `cf_` and the field's
/// id, with the filter's text as the value, and nothing else.
pub proof fn lemma_list_time_entries_parameter_names(x: ListTimeEntries)
    ensures
        x.project_id_or_name matches Some(v) ==> x.parameters_spec().contains(("project_id"@, v.param_text())),
        x.activity_id matches Some(v) ==> x.parameters_spec().contains(("activity_id"@, v.param_text())),
        x.spent_on matches Some(v) ==> x.parameters_spec().contains(("spent_on"@, v.param_text())),
        x.comments matches Some(v) ==> x.parameters_spec().contains(("comments"@, v.param_text())),
        x.hours matches Some(v) ==> x.parameters_spec().contains(("hours"@, v.param_text())),
        x.tracker_id matches Some(v) ==> x.parameters_spec().contains(("tracker_id"@, v.param_text())),
        x.fixed_version_id matches Some(v) ==> x.parameters_spec().contains(("fixed_version_id"@, v.param_text())),
        x.subject matches Some(v) ==> x.parameters_spec().contains(("subject"@, v.param_text())),
        x.custom_field_filters matches Some(v) ==> forall|i: int|
            0 <= i < v@.len() ==> x.parameters_spec().contains(
                ("cf_"@ + decimal((#[trigger] v@[i]).id as nat), v@[i].value.text()),
            ),
        x.parameters_spec().len() == present(x.project_id_or_name) + present(x.activity_id) + present(x.spent_on) + present(x.comments) + present(x.hours) + present(x.tracker_id) + present(x.fixed_version_id) + present(x.subject) + (match x.custom_field_filters {
            Some(v) => v@.len() as int,
            None => 0int,
        }),
{
    broadcast use crate::api::query::lemma_push_opt_contains, crate::api::query::lemma_push_opt_len,
        crate::api::query::lemma_concat_contains;
    if let Some(v) = x.custom_field_filters {
        let b = custom_filter_params(x.custom_field_filters);
        assert forall|i: int| 0 <= i < v@.len() implies x.parameters_spec().contains(
            ("cf_"@ + decimal((#[trigger] v@[i]).id as nat), v@[i].value.text()),
        ) by {
            assert(b[i] == ("cf_"@ + decimal(v@[i].id as nat), v@[i].value.text()));
            assert(b.contains(b[i]));
        }
    }
}

/// The requests of this module use the HTTP method that fits what they do:
/// `GET` to read, `POST` to create or add, `PUT` to change and `DELETE` to
/// remove.
pub proof fn lemma_time_entries_methods(list_time_entries: ListTimeEntries, create_time_entry: CreateTimeEntry, update_time_entry: UpdateTimeEntry, get_time_entry: GetTimeEntry, delete_time_entry: DeleteTimeEntry)
    ensures
        list_time_entries.method_spec() == HttpMethod::Get,
        create_time_entry.method_spec() == HttpMethod::Post,
        update_time_entry.method_spec() == HttpMethod::Put,
        get_time_entry.method_spec() == HttpMethod::Get,
        delete_time_entry.method_spec() == HttpMethod::Delete,
{
}

/// The requests of this module that address the same collection, or the
/// same object, use the same path: listing and creating share the
/// collection's path, and reading, changing and removing an object share
/// the object's path.
pub proof fn lemma_time_entries_shared_paths(list_time_entries: ListTimeEntries, create_time_entry: CreateTimeEntry, update_time_entry: UpdateTimeEntry, get_time_entry: GetTimeEntry, delete_time_entry: DeleteTimeEntry)
    ensures
        list_time_entries.endpoint_spec() == create_time_entry.endpoint_spec(),
        update_time_entry.id == get_time_entry.id ==> update_time_entry.endpoint_spec() == get_time_entry.endpoint_spec(),
        update_time_entry.id == delete_time_entry.id ==> update_time_entry.endpoint_spec() == delete_time_entry.endpoint_spec(),
{
}

/// The page of [`ListTimeEntries`] holds its values under the name of the
/// collection that ends the request's path.
pub proof fn lemma_list_time_entries_wrapper_key(x: ListTimeEntries)
    ensures
        x.endpoint_spec().len() >= x.wrapper_key_spec().len() + 5,
        x.endpoint_spec().subrange(x.endpoint_spec().len() - x.wrapper_key_spec().len() - 5, x.endpoint_spec().len() as int) == x.wrapper_key_spec() + ".json"@,
{
    reveal_strlit(".json");
    reveal_strlit("time_entries");
    reveal_strlit("time_entries.json");
    assert(x.endpoint_spec().subrange(x.endpoint_spec().len() - x.wrapper_key_spec().len() - 5, x.endpoint_spec().len() as int) =~= x.wrapper_key_spec() + ".json"@);
}

} // verus!
