//! Issues Rest API Endpoint definitions
//!
//! [Redmine Documentation](https://www.redmine.org/projects/redmine/wiki/Rest_Issues)
//!
//! [Redmine Documentation Journals](https://www.redmine.org/projects/redmine/wiki/Rest_IssueJournals)
//! (Journals in Redmine terminology are notes/comments and change histories for an issue)
use vstd::prelude::*;
use vstd::string::StringExecFns;
use crate::Error;
use crate::api::endpoint::{
    BodySpec, BuilderError, Endpoint, HttpMethod, NoPagination, Pageable, RequestBody,
    ReturnsJsonResponse, json_body,
};
use crate::api::json::{
    JsonValue, JsonView, ObjectBuilder, ToJson, member_nullable, member_opt, single_member_object,
};
use crate::api::query::{ParamValue, QueryParams, opt_param_ok, present, push_opt_spec};
use crate::api::text::{decimal, push_decimal};
use crate::api::dates::{Date, DateTime};
use crate::api::json::JsonNumber;
use crate::api::text::{id_list_string, id_list_text};
pub use crate::api::custom_fields::CustomField;
pub use crate::api::filters::StringFieldFilter;

use crate::api::bodies::wrapped_members;
use crate::api::bodies::object_members;
use crate::api::text::{join, lemma_id_list_injective, lemma_id_list_negation};
use crate::api::text::{lemma_id_path_injective};
use crate::api::text::lemma_differ_at;
verus! {

/// ways to filter for subproject
#[derive(Debug, Clone)]
pub enum SubProjectFilter {
    /// return no issues from subjects
    OnlyParentProject,
    /// return issues from a specific list of sub project ids
    TheseSubProjects(Vec<u64>),
    /// return issues from any but a specific list of sub project ids
    NotTheseSubProjects(Vec<u64>),
}

impl SubProjectFilter {
    /// The text sent for the filter.
    pub open spec fn text(&self) -> Seq<char> {
        match self {
            SubProjectFilter::OnlyParentProject => "!*"@,
            SubProjectFilter::TheseSubProjects(ids) => id_list_text(ids@, false),
            SubProjectFilter::NotTheseSubProjects(ids) => id_list_text(ids@, true),
        }
    }

    /// The text sent for the filter.
    pub fn to_string(&self) -> (r: String)
        ensures
            r@ == self.text(),
    {
        match self {
            SubProjectFilter::OnlyParentProject => String::from_str("!*"),
            SubProjectFilter::TheseSubProjects(ids) => id_list_string(ids, false),
            SubProjectFilter::NotTheseSubProjects(ids) => id_list_string(ids, true),
        }
    }
}

impl ParamValue for SubProjectFilter {
    open spec fn param_text(&self) -> Seq<char> {
        self.text()
    }

    fn as_value(&self) -> (r: String) {
        self.to_string()
    }
}

/// ways to filter for issue status
#[derive(Debug, Clone)]
pub enum StatusFilter {
    /// match all open statuses (default if no status filter is specified
    Open,
    /// match all closed statuses
    Closed,
    /// match both open and closed statuses
    All,
    /// match a specific list of statuses
    TheseStatuses(Vec<u64>),
    /// match any status but a specific list of statuses
    NotTheseStatuses(Vec<u64>),
}

impl StatusFilter {
    /// The text sent for the filter.
    pub open spec fn text(&self) -> Seq<char> {
        match self {
            StatusFilter::Open => "open"@,
            StatusFilter::Closed => "closed"@,
            StatusFilter::All => "*"@,
            StatusFilter::TheseStatuses(ids) => id_list_text(ids@, false),
            StatusFilter::NotTheseStatuses(ids) => id_list_text(ids@, true),
        }
    }

    /// The text sent for the filter.
    pub fn to_string(&self) -> (r: String)
        ensures
            r@ == self.text(),
    {
        match self {
            StatusFilter::Open => String::from_str("open"),
            StatusFilter::Closed => String::from_str("closed"),
            StatusFilter::All => String::from_str("*"),
            StatusFilter::TheseStatuses(ids) => id_list_string(ids, false),
            StatusFilter::NotTheseStatuses(ids) => id_list_string(ids, true),
        }
    }
}

impl ParamValue for StatusFilter {
    open spec fn param_text(&self) -> Seq<char> {
        self.text()
    }

    fn as_value(&self) -> (r: String) {
        self.to_string()
    }
}

/// ways to filter for users in author (always a user (not group), never !*)
#[derive(Debug, Clone)]
pub enum AuthorFilter {
    /// match any user
    AnyAuthor,
    /// match the current API user
    Me,
    /// match any author but the current API user
    NotMe,
    /// match a specific list of users
    TheseAuthors(Vec<u64>),
    /// match a negated specific list of users
    NotTheseAuthors(Vec<u64>),
}

impl AuthorFilter {
    /// The text sent for the filter.
    pub open spec fn text(&self) -> Seq<char> {
        match self {
            AuthorFilter::AnyAuthor => "*"@,
            AuthorFilter::Me => "me"@,
            AuthorFilter::NotMe => "!me"@,
            AuthorFilter::TheseAuthors(ids) => id_list_text(ids@, false),
            AuthorFilter::NotTheseAuthors(ids) => id_list_text(ids@, true),
        }
    }

    /// The text sent for the filter.
    pub fn to_string(&self) -> (r: String)
        ensures
            r@ == self.text(),
    {
        match self {
            AuthorFilter::AnyAuthor => String::from_str("*"),
            AuthorFilter::Me => String::from_str("me"),
            AuthorFilter::NotMe => String::from_str("!me"),
            AuthorFilter::TheseAuthors(ids) => id_list_string(ids, false),
            AuthorFilter::NotTheseAuthors(ids) => id_list_string(ids, true),
        }
    }
}

impl ParamValue for AuthorFilter {
    open spec fn param_text(&self) -> Seq<char> {
        self.text()
    }

    fn as_value(&self) -> (r: String) {
        self.to_string()
    }
}

/// ways to filter for users or groups in assignee
#[derive(Debug, Clone)]
pub enum AssigneeFilter {
    /// match any user or group
    AnyAssignee,
    /// match the current API user
    Me,
    /// match any assignee but the current API user
    NotMe,
    /// match a specific list of users or groups
    TheseAssignees(Vec<u64>),
    /// match a negated specific list of users or groups
    NotTheseAssignees(Vec<u64>),
    /// match unassigned
    NoAssignee,
}

impl AssigneeFilter {
    /// The text sent for the filter.
    pub open spec fn text(&self) -> Seq<char> {
        match self {
            AssigneeFilter::AnyAssignee => "*"@,
            AssigneeFilter::Me => "me"@,
            AssigneeFilter::NotMe => "!me"@,
            AssigneeFilter::TheseAssignees(ids) => id_list_text(ids@, false),
            AssigneeFilter::NotTheseAssignees(ids) => id_list_text(ids@, true),
            AssigneeFilter::NoAssignee => "!*"@,
        }
    }

    /// The text sent for the filter.
    pub fn to_string(&self) -> (r: String)
        ensures
            r@ == self.text(),
    {
        match self {
            AssigneeFilter::AnyAssignee => String::from_str("*"),
            AssigneeFilter::Me => String::from_str("me"),
            AssigneeFilter::NotMe => String::from_str("!me"),
            AssigneeFilter::TheseAssignees(ids) => id_list_string(ids, false),
            AssigneeFilter::NotTheseAssignees(ids) => id_list_string(ids, true),
            AssigneeFilter::NoAssignee => String::from_str("!*"),
        }
    }
}

impl ParamValue for AssigneeFilter {
    open spec fn param_text(&self) -> Seq<char> {
        self.text()
    }

    fn as_value(&self) -> (r: String) {
        self.to_string()
    }
}

/// Sort by this column
#[derive(Debug, Clone)]
pub enum SortByColumn {
    /// Sort in an ascending direction
    Forward {
        /// the column to sort by
        column_name: String,
    },
    /// Sort in a descending direction
    Reverse {
        /// the column to sort by
        column_name: String,
    },
}

impl SortByColumn {
    /// The text sent for the sort order: the column name, followed by `:desc`
    /// when descending.
    pub open spec fn text(&self) -> Seq<char> {
        match self {
            SortByColumn::Forward { column_name } => column_name@,
            SortByColumn::Reverse { column_name } => column_name@ + ":desc"@,
        }
    }

    /// The text sent for the sort order.
    pub fn to_string(&self) -> (r: String)
        ensures
            r@ == self.text(),
    {
        match self {
            SortByColumn::Forward { column_name } => column_name.clone(),
            SortByColumn::Reverse { column_name } => {
                let mut r = column_name.clone();
                r.append(":desc");
                r
            },
        }
    }
}

impl ParamValue for SortByColumn {
    open spec fn param_text(&self) -> Seq<char> {
        self.text()
    }

    fn as_value(&self) -> (r: String) {
        self.to_string()
    }
}

/// The types of associated data which can be fetched along with a issue
#[derive(Debug, Clone, Copy, PartialEq, Eq, Structural)]
pub enum IssueListInclude {
    /// Issue Attachments
    Attachments,
    /// Issue relations
    Relations,
}

impl IssueListInclude {
    /// The text of the value.
    pub open spec fn text(&self) -> Seq<char> {
        match self {
            IssueListInclude::Attachments => "attachments"@,
            IssueListInclude::Relations => "relations"@,
        }
    }

    /// The text of the value.
    pub fn to_string(&self) -> (r: String)
        ensures
            r@ == self.text(),
    {
        match self {
            IssueListInclude::Attachments => String::from_str("attachments"),
            IssueListInclude::Relations => String::from_str("relations"),
        }
    }
}

impl ParamValue for IssueListInclude {
    open spec fn param_text(&self) -> Seq<char> {
        self.text()
    }

    fn as_value(&self) -> (r: String) {
        self.to_string()
    }
}

/// a trait for comparable filter values, we do not just use Display because
/// one of our main application is dates and we need a specific format
pub trait ComparableFilterValue {
    /// The text of a single value (e.g. a date).
    spec fn value_text(&self) -> Seq<char>;

    /// Whether the value can be written.
    spec fn value_ok(&self) -> bool;

    /// Whether the value can be written.
    fn check_value(&self) -> (r: bool)
        ensures
            r == self.value_ok(),
    ;

    /// returns a string representation of a single value (e.g. a date)
    /// to be combined with the comparison operators of [ComparableFilter]
    fn value_string(&self) -> (r: String)
        requires
            self.value_ok(),
        ensures
            r@ == self.value_text(),
    ;
}

/// A date is written as `[year]-[month]-[day]`.
impl ComparableFilterValue for Date {
    open spec fn value_text(&self) -> Seq<char> {
        self.text()
    }

    open spec fn value_ok(&self) -> bool {
        true
    }

    fn check_value(&self) -> (r: bool) {
        true
    }

    fn value_string(&self) -> (r: String) {
        self.to_text()
    }
}

/// A date-time is written in RFC 3339, which holds years from 0 to 9999 and
/// offsets of less than 24 hours in whole minutes.
impl ComparableFilterValue for DateTime {
    open spec fn value_text(&self) -> Seq<char> {
        self@.rfc3339_text()
    }

    open spec fn value_ok(&self) -> bool {
        self@.rfc3339_ok()
    }

    fn check_value(&self) -> (r: bool) {
        self.is_rfc3339_writable()
    }

    fn value_string(&self) -> (r: String) {
        self.to_rfc3339()
    }
}

/// Filter for a comparable filter (those you can use ranges, less, greater,...) on
#[derive(Debug, Clone)]
pub enum ComparableFilter<V> {
    /// an exact match
    ExactMatch(V),
    /// a range match
    Range(V, V),
    /// we only want values less than the parameter
    LessThan(V),
    /// we only want values less than or equal to the parameter
    LessThanOrEqual(V),
    /// we only want values greater than the parameter
    GreaterThan(V),
    /// we only want values greater than or equal to the parameter
    GreaterThanOrEqual(V),
}

impl<V: ComparableFilterValue> ComparableFilter<V> {
    /// The text sent for the filter: the operator followed by the value, or
    /// `><` and the two values separated by `|` for a range.
    pub open spec fn text(&self) -> Seq<char> {
        match self {
            ComparableFilter::ExactMatch(v) => v.value_text(),
            ComparableFilter::Range(a, b) => "><"@ + a.value_text() + "|"@ + b.value_text(),
            ComparableFilter::LessThan(v) => "<"@ + v.value_text(),
            ComparableFilter::LessThanOrEqual(v) => "<="@ + v.value_text(),
            ComparableFilter::GreaterThan(v) => ">"@ + v.value_text(),
            ComparableFilter::GreaterThanOrEqual(v) => ">="@ + v.value_text(),
        }
    }

    /// Whether every value of the filter can be written.
    pub open spec fn values_ok(&self) -> bool {
        match self {
            ComparableFilter::Range(a, b) => a.value_ok() && b.value_ok(),
            ComparableFilter::ExactMatch(v) => v.value_ok(),
            ComparableFilter::LessThan(v) => v.value_ok(),
            ComparableFilter::LessThanOrEqual(v) => v.value_ok(),
            ComparableFilter::GreaterThan(v) => v.value_ok(),
            ComparableFilter::GreaterThanOrEqual(v) => v.value_ok(),
        }
    }

    /// Whether every value of the filter can be written.
    pub fn check_values(&self) -> (r: bool)
        ensures
            r == self.values_ok(),
    {
        match self {
            ComparableFilter::Range(a, b) => a.check_value() && b.check_value(),
            ComparableFilter::ExactMatch(v) => v.check_value(),
            ComparableFilter::LessThan(v) => v.check_value(),
            ComparableFilter::LessThanOrEqual(v) => v.check_value(),
            ComparableFilter::GreaterThan(v) => v.check_value(),
            ComparableFilter::GreaterThanOrEqual(v) => v.check_value(),
        }
    }

    /// The text sent for the filter.
    pub fn to_string(&self) -> (r: String)
        requires
            self.values_ok(),
        ensures
            r@ == self.text(),
    {
        let mut r = String::new();
        match self {
            ComparableFilter::ExactMatch(v) => {
                r.append(v.value_string().as_str());
            },
            ComparableFilter::Range(a, b) => {
                r.append("><");
                r.append(a.value_string().as_str());
                r.append("|");
                r.append(b.value_string().as_str());
            },
            ComparableFilter::LessThan(v) => {
                r.append("<");
                r.append(v.value_string().as_str());
            },
            ComparableFilter::LessThanOrEqual(v) => {
                r.append("<=");
                r.append(v.value_string().as_str());
            },
            ComparableFilter::GreaterThan(v) => {
                r.append(">");
                r.append(v.value_string().as_str());
            },
            ComparableFilter::GreaterThanOrEqual(v) => {
                r.append(">=");
                r.append(v.value_string().as_str());
            },
        }
        assert(r@ =~= self.text());
        r
    }
}

impl<V: ComparableFilterValue> ParamValue for ComparableFilter<V> {
    open spec fn param_text(&self) -> Seq<char> {
        self.text()
    }

    open spec fn param_ok(&self) -> bool {
        self.values_ok()
    }

    fn as_value(&self) -> (r: String) {
        self.to_string()
    }
}

/// The endpoint for all Redmine issues
#[derive(Debug, Clone)]
pub struct ListIssues {
    /// Include associated data
    pub includes: Option<Vec<IssueListInclude>>,
    /// Sort by column
    pub sort: Option<Vec<SortByColumn>>,
    /// Filter by issue id(s)
    pub issue_id: Option<Vec<u64>>,
    /// Filter by project id
    pub project_id: Option<Vec<u64>>,
    /// Filter by subproject
    pub subproject_id: Option<SubProjectFilter>,
    /// Filter by tracker id
    pub tracker_id: Option<Vec<u64>>,
    /// Filter by priority id
    pub priority_id: Option<Vec<u64>>,
    /// Filter by parent issue id
    pub parent_id: Option<Vec<u64>>,
    /// Filter by issue category id
    pub category_id: Option<Vec<u64>>,
    /// Filter by issue status
    pub status_id: Option<StatusFilter>,
    /// Filter by subject
    pub subject: Option<StringFieldFilter>,
    /// Filter by description
    pub description: Option<StringFieldFilter>,
    /// Filter by author
    pub author: Option<AuthorFilter>,
    /// Filter by assignee
    pub assignee: Option<AssigneeFilter>,
    /// Filter by a saved query
    pub query_id: Option<u64>,
    /// Filter by target version
    pub version_id: Option<Vec<u64>>,
    /// Filter by creation time
    pub created_on: Option<ComparableFilter<DateTime>>,
    /// Filter by update time
    pub updated_on: Option<ComparableFilter<DateTime>>,
    /// Filter by start date
    pub start_date: Option<ComparableFilter<Date>>,
    /// Filter by due date
    pub due_date: Option<ComparableFilter<Date>>,
}

/// Builder for [`ListIssues`].
#[derive(Debug, Clone)]
pub struct ListIssuesBuilder {
    /// Include associated data
    pub includes: Option<Vec<IssueListInclude>>,
    /// Sort by column
    pub sort: Option<Vec<SortByColumn>>,
    /// Filter by issue id(s)
    pub issue_id: Option<Vec<u64>>,
    /// Filter by project id
    pub project_id: Option<Vec<u64>>,
    /// Filter by subproject
    pub subproject_id: Option<SubProjectFilter>,
    /// Filter by tracker id
    pub tracker_id: Option<Vec<u64>>,
    /// Filter by priority id
    pub priority_id: Option<Vec<u64>>,
    /// Filter by parent issue id
    pub parent_id: Option<Vec<u64>>,
    /// Filter by issue category id
    pub category_id: Option<Vec<u64>>,
    /// Filter by issue status
    pub status_id: Option<StatusFilter>,
    /// Filter by subject
    pub subject: Option<StringFieldFilter>,
    /// Filter by description
    pub description: Option<StringFieldFilter>,
    /// Filter by author
    pub author: Option<AuthorFilter>,
    /// Filter by assignee
    pub assignee: Option<AssigneeFilter>,
    /// Filter by a saved query
    pub query_id: Option<u64>,
    /// Filter by target version
    pub version_id: Option<Vec<u64>>,
    /// Filter by creation time
    pub created_on: Option<ComparableFilter<DateTime>>,
    /// Filter by update time
    pub updated_on: Option<ComparableFilter<DateTime>>,
    /// Filter by start date
    pub start_date: Option<ComparableFilter<Date>>,
    /// Filter by due date
    pub due_date: Option<ComparableFilter<Date>>,
}

impl ListIssues {
    /// Create a builder for the endpoint.
    pub fn builder() -> (r: ListIssuesBuilder)
        ensures
            r.includes is None,
            r.sort is None,
            r.issue_id is None,
            r.project_id is None,
            r.subproject_id is None,
            r.tracker_id is None,
            r.priority_id is None,
            r.parent_id is None,
            r.category_id is None,
            r.status_id is None,
            r.subject is None,
            r.description is None,
            r.author is None,
            r.assignee is None,
            r.query_id is None,
            r.version_id is None,
            r.created_on is None,
            r.updated_on is None,
            r.start_date is None,
            r.due_date is None,
    {
        ListIssuesBuilder { includes: None, sort: None, issue_id: None, project_id: None, subproject_id: None, tracker_id: None, priority_id: None, parent_id: None, category_id: None, status_id: None, subject: None, description: None, author: None, assignee: None, query_id: None, version_id: None, created_on: None, updated_on: None, start_date: None, due_date: None }
    }
}

impl ListIssuesBuilder {
    /// Sets `includes`: include associated data
    pub fn includes(self, value: Vec<IssueListInclude>) -> (r: ListIssuesBuilder)
        ensures
            r.includes == Some(value),
            r.sort == self.sort,
            r.issue_id == self.issue_id,
            r.project_id == self.project_id,
            r.subproject_id == self.subproject_id,
            r.tracker_id == self.tracker_id,
            r.priority_id == self.priority_id,
            r.parent_id == self.parent_id,
            r.category_id == self.category_id,
            r.status_id == self.status_id,
            r.subject == self.subject,
            r.description == self.description,
            r.author == self.author,
            r.assignee == self.assignee,
            r.query_id == self.query_id,
            r.version_id == self.version_id,
            r.created_on == self.created_on,
            r.updated_on == self.updated_on,
            r.start_date == self.start_date,
            r.due_date == self.due_date,
    {
        ListIssuesBuilder { includes: Some(value), sort: self.sort, issue_id: self.issue_id, project_id: self.project_id, subproject_id: self.subproject_id, tracker_id: self.tracker_id, priority_id: self.priority_id, parent_id: self.parent_id, category_id: self.category_id, status_id: self.status_id, subject: self.subject, description: self.description, author: self.author, assignee: self.assignee, query_id: self.query_id, version_id: self.version_id, created_on: self.created_on, updated_on: self.updated_on, start_date: self.start_date, due_date: self.due_date }
    }

    /// Sets `sort`: sort by column
    pub fn sort(self, value: Vec<SortByColumn>) -> (r: ListIssuesBuilder)
        ensures
            r.sort == Some(value),
            r.includes == self.includes,
            r.issue_id == self.issue_id,
            r.project_id == self.project_id,
            r.subproject_id == self.subproject_id,
            r.tracker_id == self.tracker_id,
            r.priority_id == self.priority_id,
            r.parent_id == self.parent_id,
            r.category_id == self.category_id,
            r.status_id == self.status_id,
            r.subject == self.subject,
            r.description == self.description,
            r.author == self.author,
            r.assignee == self.assignee,
            r.query_id == self.query_id,
            r.version_id == self.version_id,
            r.created_on == self.created_on,
            r.updated_on == self.updated_on,
            r.start_date == self.start_date,
            r.due_date == self.due_date,
    {
        ListIssuesBuilder { includes: self.includes, sort: Some(value), issue_id: self.issue_id, project_id: self.project_id, subproject_id: self.subproject_id, tracker_id: self.tracker_id, priority_id: self.priority_id, parent_id: self.parent_id, category_id: self.category_id, status_id: self.status_id, subject: self.subject, description: self.description, author: self.author, assignee: self.assignee, query_id: self.query_id, version_id: self.version_id, created_on: self.created_on, updated_on: self.updated_on, start_date: self.start_date, due_date: self.due_date }
    }

    /// Sets `issue_id`: filter by issue id(s)
    pub fn issue_id(self, value: Vec<u64>) -> (r: ListIssuesBuilder)
        ensures
            r.issue_id == Some(value),
            r.includes == self.includes,
            r.sort == self.sort,
            r.project_id == self.project_id,
            r.subproject_id == self.subproject_id,
            r.tracker_id == self.tracker_id,
            r.priority_id == self.priority_id,
            r.parent_id == self.parent_id,
            r.category_id == self.category_id,
            r.status_id == self.status_id,
            r.subject == self.subject,
            r.description == self.description,
            r.author == self.author,
            r.assignee == self.assignee,
            r.query_id == self.query_id,
            r.version_id == self.version_id,
            r.created_on == self.created_on,
            r.updated_on == self.updated_on,
            r.start_date == self.start_date,
            r.due_date == self.due_date,
    {
        ListIssuesBuilder { includes: self.includes, sort: self.sort, issue_id: Some(value), project_id: self.project_id, subproject_id: self.subproject_id, tracker_id: self.tracker_id, priority_id: self.priority_id, parent_id: self.parent_id, category_id: self.category_id, status_id: self.status_id, subject: self.subject, description: self.description, author: self.author, assignee: self.assignee, query_id: self.query_id, version_id: self.version_id, created_on: self.created_on, updated_on: self.updated_on, start_date: self.start_date, due_date: self.due_date }
    }

    /// Sets `project_id`: filter by project id
    pub fn project_id(self, value: Vec<u64>) -> (r: ListIssuesBuilder)
        ensures
            r.project_id == Some(value),
            r.includes == self.includes,
            r.sort == self.sort,
            r.issue_id == self.issue_id,
            r.subproject_id == self.subproject_id,
            r.tracker_id == self.tracker_id,
            r.priority_id == self.priority_id,
            r.parent_id == self.parent_id,
            r.category_id == self.category_id,
            r.status_id == self.status_id,
            r.subject == self.subject,
            r.description == self.description,
            r.author == self.author,
            r.assignee == self.assignee,
            r.query_id == self.query_id,
            r.version_id == self.version_id,
            r.created_on == self.created_on,
            r.updated_on == self.updated_on,
            r.start_date == self.start_date,
            r.due_date == self.due_date,
    {
        ListIssuesBuilder { includes: self.includes, sort: self.sort, issue_id: self.issue_id, project_id: Some(value), subproject_id: self.subproject_id, tracker_id: self.tracker_id, priority_id: self.priority_id, parent_id: self.parent_id, category_id: self.category_id, status_id: self.status_id, subject: self.subject, description: self.description, author: self.author, assignee: self.assignee, query_id: self.query_id, version_id: self.version_id, created_on: self.created_on, updated_on: self.updated_on, start_date: self.start_date, due_date: self.due_date }
    }

    /// Sets `subproject_id`: filter by subproject
    pub fn subproject_id(self, value: SubProjectFilter) -> (r: ListIssuesBuilder)
        ensures
            r.subproject_id == Some(value),
            r.includes == self.includes,
            r.sort == self.sort,
            r.issue_id == self.issue_id,
            r.project_id == self.project_id,
            r.tracker_id == self.tracker_id,
            r.priority_id == self.priority_id,
            r.parent_id == self.parent_id,
            r.category_id == self.category_id,
            r.status_id == self.status_id,
            r.subject == self.subject,
            r.description == self.description,
            r.author == self.author,
            r.assignee == self.assignee,
            r.query_id == self.query_id,
            r.version_id == self.version_id,
            r.created_on == self.created_on,
            r.updated_on == self.updated_on,
            r.start_date == self.start_date,
            r.due_date == self.due_date,
    {
        ListIssuesBuilder { includes: self.includes, sort: self.sort, issue_id: self.issue_id, project_id: self.project_id, subproject_id: Some(value), tracker_id: self.tracker_id, priority_id: self.priority_id, parent_id: self.parent_id, category_id: self.category_id, status_id: self.status_id, subject: self.subject, description: self.description, author: self.author, assignee: self.assignee, query_id: self.query_id, version_id: self.version_id, created_on: self.created_on, updated_on: self.updated_on, start_date: self.start_date, due_date: self.due_date }
    }

    /// Sets `tracker_id`: filter by tracker id
    pub fn tracker_id(self, value: Vec<u64>) -> (r: ListIssuesBuilder)
        ensures
            r.tracker_id == Some(value),
            r.includes == self.includes,
            r.sort == self.sort,
            r.issue_id == self.issue_id,
            r.project_id == self.project_id,
            r.subproject_id == self.subproject_id,
            r.priority_id == self.priority_id,
            r.parent_id == self.parent_id,
            r.category_id == self.category_id,
            r.status_id == self.status_id,
            r.subject == self.subject,
            r.description == self.description,
            r.author == self.author,
            r.assignee == self.assignee,
            r.query_id == self.query_id,
            r.version_id == self.version_id,
            r.created_on == self.created_on,
            r.updated_on == self.updated_on,
            r.start_date == self.start_date,
            r.due_date == self.due_date,
    {
        ListIssuesBuilder { includes: self.includes, sort: self.sort, issue_id: self.issue_id, project_id: self.project_id, subproject_id: self.subproject_id, tracker_id: Some(value), priority_id: self.priority_id, parent_id: self.parent_id, category_id: self.category_id, status_id: self.status_id, subject: self.subject, description: self.description, author: self.author, assignee: self.assignee, query_id: self.query_id, version_id: self.version_id, created_on: self.created_on, updated_on: self.updated_on, start_date: self.start_date, due_date: self.due_date }
    }

    /// Sets `priority_id`: filter by priority id
    pub fn priority_id(self, value: Vec<u64>) -> (r: ListIssuesBuilder)
        ensures
            r.priority_id == Some(value),
            r.includes == self.includes,
            r.sort == self.sort,
            r.issue_id == self.issue_id,
            r.project_id == self.project_id,
            r.subproject_id == self.subproject_id,
            r.tracker_id == self.tracker_id,
            r.parent_id == self.parent_id,
            r.category_id == self.category_id,
            r.status_id == self.status_id,
            r.subject == self.subject,
            r.description == self.description,
            r.author == self.author,
            r.assignee == self.assignee,
            r.query_id == self.query_id,
            r.version_id == self.version_id,
            r.created_on == self.created_on,
            r.updated_on == self.updated_on,
            r.start_date == self.start_date,
            r.due_date == self.due_date,
    {
        ListIssuesBuilder { includes: self.includes, sort: self.sort, issue_id: self.issue_id, project_id: self.project_id, subproject_id: self.subproject_id, tracker_id: self.tracker_id, priority_id: Some(value), parent_id: self.parent_id, category_id: self.category_id, status_id: self.status_id, subject: self.subject, description: self.description, author: self.author, assignee: self.assignee, query_id: self.query_id, version_id: self.version_id, created_on: self.created_on, updated_on: self.updated_on, start_date: self.start_date, due_date: self.due_date }
    }

    /// Sets `parent_id`: filter by parent issue id
    pub fn parent_id(self, value: Vec<u64>) -> (r: ListIssuesBuilder)
        ensures
            r.parent_id == Some(value),
            r.includes == self.includes,
            r.sort == self.sort,
            r.issue_id == self.issue_id,
            r.project_id == self.project_id,
            r.subproject_id == self.subproject_id,
            r.tracker_id == self.tracker_id,
            r.priority_id == self.priority_id,
            r.category_id == self.category_id,
            r.status_id == self.status_id,
            r.subject == self.subject,
            r.description == self.description,
            r.author == self.author,
            r.assignee == self.assignee,
            r.query_id == self.query_id,
            r.version_id == self.version_id,
            r.created_on == self.created_on,
            r.updated_on == self.updated_on,
            r.start_date == self.start_date,
            r.due_date == self.due_date,
    {
        ListIssuesBuilder { includes: self.includes, sort: self.sort, issue_id: self.issue_id, project_id: self.project_id, subproject_id: self.subproject_id, tracker_id: self.tracker_id, priority_id: self.priority_id, parent_id: Some(value), category_id: self.category_id, status_id: self.status_id, subject: self.subject, description: self.description, author: self.author, assignee: self.assignee, query_id: self.query_id, version_id: self.version_id, created_on: self.created_on, updated_on: self.updated_on, start_date: self.start_date, due_date: self.due_date }
    }

    /// Sets `category_id`: filter by issue category id
    pub fn category_id(self, value: Vec<u64>) -> (r: ListIssuesBuilder)
        ensures
            r.category_id == Some(value),
            r.includes == self.includes,
            r.sort == self.sort,
            r.issue_id == self.issue_id,
            r.project_id == self.project_id,
            r.subproject_id == self.subproject_id,
            r.tracker_id == self.tracker_id,
            r.priority_id == self.priority_id,
            r.parent_id == self.parent_id,
            r.status_id == self.status_id,
            r.subject == self.subject,
            r.description == self.description,
            r.author == self.author,
            r.assignee == self.assignee,
            r.query_id == self.query_id,
            r.version_id == self.version_id,
            r.created_on == self.created_on,
            r.updated_on == self.updated_on,
            r.start_date == self.start_date,
            r.due_date == self.due_date,
    {
        ListIssuesBuilder { includes: self.includes, sort: self.sort, issue_id: self.issue_id, project_id: self.project_id, subproject_id: self.subproject_id, tracker_id: self.tracker_id, priority_id: self.priority_id, parent_id: self.parent_id, category_id: Some(value), status_id: self.status_id, subject: self.subject, description: self.description, author: self.author, assignee: self.assignee, query_id: self.query_id, version_id: self.version_id, created_on: self.created_on, updated_on: self.updated_on, start_date: self.start_date, due_date: self.due_date }
    }

    /// Sets `status_id`: filter by issue status
    pub fn status_id(self, value: StatusFilter) -> (r: ListIssuesBuilder)
        ensures
            r.status_id == Some(value),
            r.includes == self.includes,
            r.sort == self.sort,
            r.issue_id == self.issue_id,
            r.project_id == self.project_id,
            r.subproject_id == self.subproject_id,
            r.tracker_id == self.tracker_id,
            r.priority_id == self.priority_id,
            r.parent_id == self.parent_id,
            r.category_id == self.category_id,
            r.subject == self.subject,
            r.description == self.description,
            r.author == self.author,
            r.assignee == self.assignee,
            r.query_id == self.query_id,
            r.version_id == self.version_id,
            r.created_on == self.created_on,
            r.updated_on == self.updated_on,
            r.start_date == self.start_date,
            r.due_date == self.due_date,
    {
        ListIssuesBuilder { includes: self.includes, sort: self.sort, issue_id: self.issue_id, project_id: self.project_id, subproject_id: self.subproject_id, tracker_id: self.tracker_id, priority_id: self.priority_id, parent_id: self.parent_id, category_id: self.category_id, status_id: Some(value), subject: self.subject, description: self.description, author: self.author, assignee: self.assignee, query_id: self.query_id, version_id: self.version_id, created_on: self.created_on, updated_on: self.updated_on, start_date: self.start_date, due_date: self.due_date }
    }

    /// Sets `subject`: filter by subject
    pub fn subject(self, value: StringFieldFilter) -> (r: ListIssuesBuilder)
        ensures
            r.subject == Some(value),
            r.includes == self.includes,
            r.sort == self.sort,
            r.issue_id == self.issue_id,
            r.project_id == self.project_id,
            r.subproject_id == self.subproject_id,
            r.tracker_id == self.tracker_id,
            r.priority_id == self.priority_id,
            r.parent_id == self.parent_id,
            r.category_id == self.category_id,
            r.status_id == self.status_id,
            r.description == self.description,
            r.author == self.author,
            r.assignee == self.assignee,
            r.query_id == self.query_id,
            r.version_id == self.version_id,
            r.created_on == self.created_on,
            r.updated_on == self.updated_on,
            r.start_date == self.start_date,
            r.due_date == self.due_date,
    {
        ListIssuesBuilder { includes: self.includes, sort: self.sort, issue_id: self.issue_id, project_id: self.project_id, subproject_id: self.subproject_id, tracker_id: self.tracker_id, priority_id: self.priority_id, parent_id: self.parent_id, category_id: self.category_id, status_id: self.status_id, subject: Some(value), description: self.description, author: self.author, assignee: self.assignee, query_id: self.query_id, version_id: self.version_id, created_on: self.created_on, updated_on: self.updated_on, start_date: self.start_date, due_date: self.due_date }
    }

    /// Sets `description`: filter by description
    pub fn description(self, value: StringFieldFilter) -> (r: ListIssuesBuilder)
        ensures
            r.description == Some(value),
            r.includes == self.includes,
            r.sort == self.sort,
            r.issue_id == self.issue_id,
            r.project_id == self.project_id,
            r.subproject_id == self.subproject_id,
            r.tracker_id == self.tracker_id,
            r.priority_id == self.priority_id,
            r.parent_id == self.parent_id,
            r.category_id == self.category_id,
            r.status_id == self.status_id,
            r.subject == self.subject,
            r.author == self.author,
            r.assignee == self.assignee,
            r.query_id == self.query_id,
            r.version_id == self.version_id,
            r.created_on == self.created_on,
            r.updated_on == self.updated_on,
            r.start_date == self.start_date,
            r.due_date == self.due_date,
    {
        ListIssuesBuilder { includes: self.includes, sort: self.sort, issue_id: self.issue_id, project_id: self.project_id, subproject_id: self.subproject_id, tracker_id: self.tracker_id, priority_id: self.priority_id, parent_id: self.parent_id, category_id: self.category_id, status_id: self.status_id, subject: self.subject, description: Some(value), author: self.author, assignee: self.assignee, query_id: self.query_id, version_id: self.version_id, created_on: self.created_on, updated_on: self.updated_on, start_date: self.start_date, due_date: self.due_date }
    }

    /// Sets `author`: filter by author
    pub fn author(self, value: AuthorFilter) -> (r: ListIssuesBuilder)
        ensures
            r.author == Some(value),
            r.includes == self.includes,
            r.sort == self.sort,
            r.issue_id == self.issue_id,
            r.project_id == self.project_id,
            r.subproject_id == self.subproject_id,
            r.tracker_id == self.tracker_id,
            r.priority_id == self.priority_id,
            r.parent_id == self.parent_id,
            r.category_id == self.category_id,
            r.status_id == self.status_id,
            r.subject == self.subject,
            r.description == self.description,
            r.assignee == self.assignee,
            r.query_id == self.query_id,
            r.version_id == self.version_id,
            r.created_on == self.created_on,
            r.updated_on == self.updated_on,
            r.start_date == self.start_date,
            r.due_date == self.due_date,
    {
        ListIssuesBuilder { includes: self.includes, sort: self.sort, issue_id: self.issue_id, project_id: self.project_id, subproject_id: self.subproject_id, tracker_id: self.tracker_id, priority_id: self.priority_id, parent_id: self.parent_id, category_id: self.category_id, status_id: self.status_id, subject: self.subject, description: self.description, author: Some(value), assignee: self.assignee, query_id: self.query_id, version_id: self.version_id, created_on: self.created_on, updated_on: self.updated_on, start_date: self.start_date, due_date: self.due_date }
    }

    /// Sets `assignee`: filter by assignee
    pub fn assignee(self, value: AssigneeFilter) -> (r: ListIssuesBuilder)
        ensures
            r.assignee == Some(value),
            r.includes == self.includes,
            r.sort == self.sort,
            r.issue_id == self.issue_id,
            r.project_id == self.project_id,
            r.subproject_id == self.subproject_id,
            r.tracker_id == self.tracker_id,
            r.priority_id == self.priority_id,
            r.parent_id == self.parent_id,
            r.category_id == self.category_id,
            r.status_id == self.status_id,
            r.subject == self.subject,
            r.description == self.description,
            r.author == self.author,
            r.query_id == self.query_id,
            r.version_id == self.version_id,
            r.created_on == self.created_on,
            r.updated_on == self.updated_on,
            r.start_date == self.start_date,
            r.due_date == self.due_date,
    {
        ListIssuesBuilder { includes: self.includes, sort: self.sort, issue_id: self.issue_id, project_id: self.project_id, subproject_id: self.subproject_id, tracker_id: self.tracker_id, priority_id: self.priority_id, parent_id: self.parent_id, category_id: self.category_id, status_id: self.status_id, subject: self.subject, description: self.description, author: self.author, assignee: Some(value), query_id: self.query_id, version_id: self.version_id, created_on: self.created_on, updated_on: self.updated_on, start_date: self.start_date, due_date: self.due_date }
    }

    /// Sets `query_id`: filter by a saved query
    pub fn query_id(self, value: u64) -> (r: ListIssuesBuilder)
        ensures
            r.query_id == Some(value),
            r.includes == self.includes,
            r.sort == self.sort,
            r.issue_id == self.issue_id,
            r.project_id == self.project_id,
            r.subproject_id == self.subproject_id,
            r.tracker_id == self.tracker_id,
            r.priority_id == self.priority_id,
            r.parent_id == self.parent_id,
            r.category_id == self.category_id,
            r.status_id == self.status_id,
            r.subject == self.subject,
            r.description == self.description,
            r.author == self.author,
            r.assignee == self.assignee,
            r.version_id == self.version_id,
            r.created_on == self.created_on,
            r.updated_on == self.updated_on,
            r.start_date == self.start_date,
            r.due_date == self.due_date,
    {
        ListIssuesBuilder { includes: self.includes, sort: self.sort, issue_id: self.issue_id, project_id: self.project_id, subproject_id: self.subproject_id, tracker_id: self.tracker_id, priority_id: self.priority_id, parent_id: self.parent_id, category_id: self.category_id, status_id: self.status_id, subject: self.subject, description: self.description, author: self.author, assignee: self.assignee, query_id: Some(value), version_id: self.version_id, created_on: self.created_on, updated_on: self.updated_on, start_date: self.start_date, due_date: self.due_date }
    }

    /// Sets `version_id`: filter by target version
    pub fn version_id(self, value: Vec<u64>) -> (r: ListIssuesBuilder)
        ensures
            r.version_id == Some(value),
            r.includes == self.includes,
            r.sort == self.sort,
            r.issue_id == self.issue_id,
            r.project_id == self.project_id,
            r.subproject_id == self.subproject_id,
            r.tracker_id == self.tracker_id,
            r.priority_id == self.priority_id,
            r.parent_id == self.parent_id,
            r.category_id == self.category_id,
            r.status_id == self.status_id,
            r.subject == self.subject,
            r.description == self.description,
            r.author == self.author,
            r.assignee == self.assignee,
            r.query_id == self.query_id,
            r.created_on == self.created_on,
            r.updated_on == self.updated_on,
            r.start_date == self.start_date,
            r.due_date == self.due_date,
    {
        ListIssuesBuilder { includes: self.includes, sort: self.sort, issue_id: self.issue_id, project_id: self.project_id, subproject_id: self.subproject_id, tracker_id: self.tracker_id, priority_id: self.priority_id, parent_id: self.parent_id, category_id: self.category_id, status_id: self.status_id, subject: self.subject, description: self.description, author: self.author, assignee: self.assignee, query_id: self.query_id, version_id: Some(value), created_on: self.created_on, updated_on: self.updated_on, start_date: self.start_date, due_date: self.due_date }
    }

    /// Sets `created_on`: filter by creation time
    pub fn created_on(self, value: ComparableFilter<DateTime>) -> (r: ListIssuesBuilder)
        ensures
            r.created_on == Some(value),
            r.includes == self.includes,
            r.sort == self.sort,
            r.issue_id == self.issue_id,
            r.project_id == self.project_id,
            r.subproject_id == self.subproject_id,
            r.tracker_id == self.tracker_id,
            r.priority_id == self.priority_id,
            r.parent_id == self.parent_id,
            r.category_id == self.category_id,
            r.status_id == self.status_id,
            r.subject == self.subject,
            r.description == self.description,
            r.author == self.author,
            r.assignee == self.assignee,
            r.query_id == self.query_id,
            r.version_id == self.version_id,
            r.updated_on == self.updated_on,
            r.start_date == self.start_date,
            r.due_date == self.due_date,
    {
        ListIssuesBuilder { includes: self.includes, sort: self.sort, issue_id: self.issue_id, project_id: self.project_id, subproject_id: self.subproject_id, tracker_id: self.tracker_id, priority_id: self.priority_id, parent_id: self.parent_id, category_id: self.category_id, status_id: self.status_id, subject: self.subject, description: self.description, author: self.author, assignee: self.assignee, query_id: self.query_id, version_id: self.version_id, created_on: Some(value), updated_on: self.updated_on, start_date: self.start_date, due_date: self.due_date }
    }

    /// Sets `updated_on`: filter by update time
    pub fn updated_on(self, value: ComparableFilter<DateTime>) -> (r: ListIssuesBuilder)
        ensures
            r.updated_on == Some(value),
            r.includes == self.includes,
            r.sort == self.sort,
            r.issue_id == self.issue_id,
            r.project_id == self.project_id,
            r.subproject_id == self.subproject_id,
            r.tracker_id == self.tracker_id,
            r.priority_id == self.priority_id,
            r.parent_id == self.parent_id,
            r.category_id == self.category_id,
            r.status_id == self.status_id,
            r.subject == self.subject,
            r.description == self.description,
            r.author == self.author,
            r.assignee == self.assignee,
            r.query_id == self.query_id,
            r.version_id == self.version_id,
            r.created_on == self.created_on,
            r.start_date == self.start_date,
            r.due_date == self.due_date,
    {
        ListIssuesBuilder { includes: self.includes, sort: self.sort, issue_id: self.issue_id, project_id: self.project_id, subproject_id: self.subproject_id, tracker_id: self.tracker_id, priority_id: self.priority_id, parent_id: self.parent_id, category_id: self.category_id, status_id: self.status_id, subject: self.subject, description: self.description, author: self.author, assignee: self.assignee, query_id: self.query_id, version_id: self.version_id, created_on: self.created_on, updated_on: Some(value), start_date: self.start_date, due_date: self.due_date }
    }

    /// Sets `start_date`: filter by start date
    pub fn start_date(self, value: ComparableFilter<Date>) -> (r: ListIssuesBuilder)
        ensures
            r.start_date == Some(value),
            r.includes == self.includes,
            r.sort == self.sort,
            r.issue_id == self.issue_id,
            r.project_id == self.project_id,
            r.subproject_id == self.subproject_id,
            r.tracker_id == self.tracker_id,
            r.priority_id == self.priority_id,
            r.parent_id == self.parent_id,
            r.category_id == self.category_id,
            r.status_id == self.status_id,
            r.subject == self.subject,
            r.description == self.description,
            r.author == self.author,
            r.assignee == self.assignee,
            r.query_id == self.query_id,
            r.version_id == self.version_id,
            r.created_on == self.created_on,
            r.updated_on == self.updated_on,
            r.due_date == self.due_date,
    {
        ListIssuesBuilder { includes: self.includes, sort: self.sort, issue_id: self.issue_id, project_id: self.project_id, subproject_id: self.subproject_id, tracker_id: self.tracker_id, priority_id: self.priority_id, parent_id: self.parent_id, category_id: self.category_id, status_id: self.status_id, subject: self.subject, description: self.description, author: self.author, assignee: self.assignee, query_id: self.query_id, version_id: self.version_id, created_on: self.created_on, updated_on: self.updated_on, start_date: Some(value), due_date: self.due_date }
    }

    /// Sets `due_date`: filter by due date
    pub fn due_date(self, value: ComparableFilter<Date>) -> (r: ListIssuesBuilder)
        ensures
            r.due_date == Some(value),
            r.includes == self.includes,
            r.sort == self.sort,
            r.issue_id == self.issue_id,
            r.project_id == self.project_id,
            r.subproject_id == self.subproject_id,
            r.tracker_id == self.tracker_id,
            r.priority_id == self.priority_id,
            r.parent_id == self.parent_id,
            r.category_id == self.category_id,
            r.status_id == self.status_id,
            r.subject == self.subject,
            r.description == self.description,
            r.author == self.author,
            r.assignee == self.assignee,
            r.query_id == self.query_id,
            r.version_id == self.version_id,
            r.created_on == self.created_on,
            r.updated_on == self.updated_on,
            r.start_date == self.start_date,
    {
        ListIssuesBuilder { includes: self.includes, sort: self.sort, issue_id: self.issue_id, project_id: self.project_id, subproject_id: self.subproject_id, tracker_id: self.tracker_id, priority_id: self.priority_id, parent_id: self.parent_id, category_id: self.category_id, status_id: self.status_id, subject: self.subject, description: self.description, author: self.author, assignee: self.assignee, query_id: self.query_id, version_id: self.version_id, created_on: self.created_on, updated_on: self.updated_on, start_date: self.start_date, due_date: Some(value) }
    }

    /// The first required field that has not been set, if any.
    pub open spec fn missing_field(&self) -> Option<Seq<char>> {
        None
    }

    /// Builds the endpoint; fails on the first required field that has not been set.
    pub fn build(self) -> (r: Result<ListIssues, BuilderError>)
        ensures
            match r {
                Ok(x) => self.missing_field() is None && x == (ListIssues { includes: self.includes, sort: self.sort, issue_id: self.issue_id, project_id: self.project_id, subproject_id: self.subproject_id, tracker_id: self.tracker_id, priority_id: self.priority_id, parent_id: self.parent_id, category_id: self.category_id, status_id: self.status_id, subject: self.subject, description: self.description, author: self.author, assignee: self.assignee, query_id: self.query_id, version_id: self.version_id, created_on: self.created_on, updated_on: self.updated_on, start_date: self.start_date, due_date: self.due_date }),
                Err(BuilderError::UninitializedField(n)) => self.missing_field() == Some(n@),
                Err(_) => false,
            },
    {
        Ok(ListIssues { includes: self.includes, sort: self.sort, issue_id: self.issue_id, project_id: self.project_id, subproject_id: self.subproject_id, tracker_id: self.tracker_id, priority_id: self.priority_id, parent_id: self.parent_id, category_id: self.category_id, status_id: self.status_id, subject: self.subject, description: self.description, author: self.author, assignee: self.assignee, query_id: self.query_id, version_id: self.version_id, created_on: self.created_on, updated_on: self.updated_on, start_date: self.start_date, due_date: self.due_date })
    }
}

impl ReturnsJsonResponse for ListIssues {}

impl Pageable for ListIssues {
    open spec fn wrapper_key_spec(&self) -> Seq<char> {
        "issues"@
    }

    fn response_wrapper_key(&self) -> (r: String) {
        String::from_str("issues")
    }
}

/// Listing issues sends each filter that is set under the name Redmine gives
/// it (the author as `author_id`, the assignee as `assigned_to_id`, the
/// target version as `fixed_version_id`, the includes as `include`), with the
/// filter's text as the value, and nothing for a filter that is not set.
pub proof fn lemma_list_issues_parameter_names(l: ListIssues)
    ensures
        l.includes matches Some(v) ==> l.parameters_spec().contains(("include"@, v.param_text())),
        l.sort matches Some(v) ==> l.parameters_spec().contains(("sort"@, v.param_text())),
        l.issue_id matches Some(v) ==> l.parameters_spec().contains(("issue_id"@, v.param_text())),
        l.project_id matches Some(v) ==> l.parameters_spec().contains(("project_id"@, v.param_text())),
        l.subproject_id matches Some(v) ==> l.parameters_spec().contains(("subproject_id"@, v.param_text())),
        l.tracker_id matches Some(v) ==> l.parameters_spec().contains(("tracker_id"@, v.param_text())),
        l.priority_id matches Some(v) ==> l.parameters_spec().contains(("priority_id"@, v.param_text())),
        l.parent_id matches Some(v) ==> l.parameters_spec().contains(("parent_id"@, v.param_text())),
        l.category_id matches Some(v) ==> l.parameters_spec().contains(("category_id"@, v.param_text())),
        l.status_id matches Some(v) ==> l.parameters_spec().contains(("status_id"@, v.param_text())),
        l.subject matches Some(v) ==> l.parameters_spec().contains(("subject"@, v.param_text())),
        l.description matches Some(v) ==> l.parameters_spec().contains(("description"@, v.param_text())),
        l.author matches Some(v) ==> l.parameters_spec().contains(("author_id"@, v.param_text())),
        l.assignee matches Some(v) ==> l.parameters_spec().contains(("assigned_to_id"@, v.param_text())),
        l.query_id matches Some(v) ==> l.parameters_spec().contains(("query_id"@, v.param_text())),
        l.version_id matches Some(v) ==> l.parameters_spec().contains(("fixed_version_id"@, v.param_text())),
        l.created_on matches Some(v) ==> l.parameters_spec().contains(("created_on"@, v.param_text())),
        l.updated_on matches Some(v) ==> l.parameters_spec().contains(("updated_on"@, v.param_text())),
        l.start_date matches Some(v) ==> l.parameters_spec().contains(("start_date"@, v.param_text())),
        l.due_date matches Some(v) ==> l.parameters_spec().contains(("due_date"@, v.param_text())),
        l.parameters_spec().len() == present(l.includes) + present(l.sort) + present(l.issue_id) + present(l.project_id) + present(l.subproject_id) + present(l.tracker_id) + present(l.priority_id) + present(l.parent_id) + present(l.category_id) + present(l.status_id) + present(l.subject) + present(l.description) + present(l.author) + present(l.assignee) + present(l.query_id) + present(l.version_id) + present(l.created_on) + present(l.updated_on) + present(l.start_date) + present(l.due_date),
{
    broadcast use crate::api::query::lemma_push_opt_contains, crate::api::query::lemma_push_opt_len;
}

impl Endpoint for ListIssues {
    open spec fn method_spec(&self) -> HttpMethod {
        HttpMethod::Get
    }

    open spec fn endpoint_spec(&self) -> Seq<char> {
        "issues.json"@
    }

    open spec fn parameters_spec(&self) -> Seq<(Seq<char>, Seq<char>)> {
        let p = Seq::<(Seq<char>, Seq<char>)>::empty();
        let p = push_opt_spec(p, "include"@, self.includes);
        let p = push_opt_spec(p, "sort"@, self.sort);
        let p = push_opt_spec(p, "issue_id"@, self.issue_id);
        let p = push_opt_spec(p, "project_id"@, self.project_id);
        let p = push_opt_spec(p, "subproject_id"@, self.subproject_id);
        let p = push_opt_spec(p, "tracker_id"@, self.tracker_id);
        let p = push_opt_spec(p, "priority_id"@, self.priority_id);
        let p = push_opt_spec(p, "parent_id"@, self.parent_id);
        let p = push_opt_spec(p, "category_id"@, self.category_id);
        let p = push_opt_spec(p, "status_id"@, self.status_id);
        let p = push_opt_spec(p, "subject"@, self.subject);
        let p = push_opt_spec(p, "description"@, self.description);
        let p = push_opt_spec(p, "author_id"@, self.author);
        let p = push_opt_spec(p, "assigned_to_id"@, self.assignee);
        let p = push_opt_spec(p, "query_id"@, self.query_id);
        let p = push_opt_spec(p, "fixed_version_id"@, self.version_id);
        let p = push_opt_spec(p, "created_on"@, self.created_on);
        let p = push_opt_spec(p, "updated_on"@, self.updated_on);
        let p = push_opt_spec(p, "start_date"@, self.start_date);
        let p = push_opt_spec(p, "due_date"@, self.due_date);
        p
    }

    open spec fn writable(&self) -> bool {
        opt_param_ok(self.created_on) && opt_param_ok(self.updated_on)
    }

    open spec fn body_spec(&self) -> Option<BodySpec> {
        None
    }

    fn method(&self) -> (r: HttpMethod) {
        HttpMethod::Get
    }

    fn endpoint(&self) -> (r: String) {
        String::from_str("issues.json")
    }

    fn check_writable(&self) -> (r: bool) {
        (match &self.created_on {
            Some(f) => f.check_values(),
            None => true,
        }) && (match &self.updated_on {
            Some(f) => f.check_values(),
            None => true,
        })
    }

    fn parameters(&self) -> (r: QueryParams) {
        let mut p = QueryParams::new();
        p.push_opt("include", &self.includes);
        p.push_opt("sort", &self.sort);
        p.push_opt("issue_id", &self.issue_id);
        p.push_opt("project_id", &self.project_id);
        p.push_opt("subproject_id", &self.subproject_id);
        p.push_opt("tracker_id", &self.tracker_id);
        p.push_opt("priority_id", &self.priority_id);
        p.push_opt("parent_id", &self.parent_id);
        p.push_opt("category_id", &self.category_id);
        p.push_opt("status_id", &self.status_id);
        p.push_opt("subject", &self.subject);
        p.push_opt("description", &self.description);
        p.push_opt("author_id", &self.author);
        p.push_opt("assigned_to_id", &self.assignee);
        p.push_opt("query_id", &self.query_id);
        p.push_opt("fixed_version_id", &self.version_id);
        p.push_opt("created_on", &self.created_on);
        p.push_opt("updated_on", &self.updated_on);
        p.push_opt("start_date", &self.start_date);
        p.push_opt("due_date", &self.due_date);
        p
    }

    fn body(&self) -> (r: Result<Option<RequestBody>, Error>) {
        Ok(None)
    }
}

/// The types of associated data which can be fetched along with a issue
#[derive(Debug, Clone, Copy, PartialEq, Eq, Structural)]
pub enum IssueInclude {
    /// Child issues
    Children,
    /// Issue attachments
    Attachments,
    /// Issue relations
    Relations,
    /// VCS changesets
    Changesets,
    /// the notes and changes to the issue
    Journals,
    /// Users watching the issue
    Watchers,
    /// The statuses this issue can transition to
    AllowedStatuses,
}

impl IssueInclude {
    /// The text of the value.
    pub open spec fn text(&self) -> Seq<char> {
        match self {
            IssueInclude::Children => "children"@,
            IssueInclude::Attachments => "attachments"@,
            IssueInclude::Relations => "relations"@,
            IssueInclude::Changesets => "changesets"@,
            IssueInclude::Journals => "journals"@,
            IssueInclude::Watchers => "watchers"@,
            IssueInclude::AllowedStatuses => "allowed_statuses"@,
        }
    }

    /// The text of the value.
    pub fn to_string(&self) -> (r: String)
        ensures
            r@ == self.text(),
    {
        match self {
            IssueInclude::Children => String::from_str("children"),
            IssueInclude::Attachments => String::from_str("attachments"),
            IssueInclude::Relations => String::from_str("relations"),
            IssueInclude::Changesets => String::from_str("changesets"),
            IssueInclude::Journals => String::from_str("journals"),
            IssueInclude::Watchers => String::from_str("watchers"),
            IssueInclude::AllowedStatuses => String::from_str("allowed_statuses"),
        }
    }
}

impl ParamValue for IssueInclude {
    open spec fn param_text(&self) -> Seq<char> {
        self.text()
    }

    fn as_value(&self) -> (r: String) {
        self.to_string()
    }
}

/// The endpoint for a specific Redmine issue
#[derive(Debug, Clone)]
pub struct GetIssue {
    /// id of the issue to retrieve
    pub id: u64,
    /// associated data to include
    pub includes: Option<Vec<IssueInclude>>,
}

/// Builder for [`GetIssue`].
#[derive(Debug, Clone)]
pub struct GetIssueBuilder {
    /// id of the issue to retrieve
    pub id: Option<u64>,
    /// associated data to include
    pub includes: Option<Vec<IssueInclude>>,
}

impl GetIssue {
    /// Create a builder for the endpoint.
    pub fn builder() -> (r: GetIssueBuilder)
        ensures
            r.id is None,
            r.includes is None,
    {
        GetIssueBuilder { id: None, includes: None }
    }
}

impl GetIssueBuilder {
    /// Sets `id`: id of the issue to retrieve
    pub fn id(self, value: u64) -> (r: GetIssueBuilder)
        ensures
            r.id == Some(value),
            r.includes == self.includes,
    {
        GetIssueBuilder { id: Some(value), includes: self.includes }
    }

    /// Sets `includes`: associated data to include
    pub fn includes(self, value: Vec<IssueInclude>) -> (r: GetIssueBuilder)
        ensures
            r.includes == Some(value),
            r.id == self.id,
    {
        GetIssueBuilder { id: self.id, includes: Some(value) }
    }

    /// The first required field that has not been set, if any.
    pub open spec fn missing_field(&self) -> Option<Seq<char>> {
        if self.id is None {
            Some("id"@)
        } else {
            None
        }
    }

    /// Builds the endpoint; fails on the first required field that has not been set.
    pub fn build(self) -> (r: Result<GetIssue, BuilderError>)
        ensures
            match r {
                Ok(x) => self.missing_field() is None && x == (GetIssue { id: self.id->0, includes: self.includes }),
                Err(BuilderError::UninitializedField(n)) => self.missing_field() == Some(n@),
                Err(_) => false,
            },
    {
        let id = match self.id {
            Some(v) => v,
            None => {
                return Err(BuilderError::UninitializedField("id"));
            },
        };
        Ok(GetIssue { id, includes: self.includes })
    }
}

impl ReturnsJsonResponse for GetIssue {}

impl NoPagination for GetIssue {}

impl Endpoint for GetIssue {
    open spec fn method_spec(&self) -> HttpMethod {
        HttpMethod::Get
    }

    open spec fn endpoint_spec(&self) -> Seq<char> {
        "issues/"@ + decimal(self.id as nat) + ".json"@
    }

    open spec fn parameters_spec(&self) -> Seq<(Seq<char>, Seq<char>)> {
        let p = Seq::<(Seq<char>, Seq<char>)>::empty();
        let p = push_opt_spec(p, "include"@, self.includes);
        p
    }

    open spec fn body_spec(&self) -> Option<BodySpec> {
        None
    }

    fn method(&self) -> (r: HttpMethod) {
        HttpMethod::Get
    }

    fn endpoint(&self) -> (r: String) {
        let mut s = String::new();
        s.append("issues/");
        push_decimal(&mut s, self.id);
        s.append(".json");
        assert(s@ =~= self.endpoint_spec());
        s
    }

    fn check_writable(&self) -> (r: bool) {
        true
    }

    fn parameters(&self) -> (r: QueryParams) {
        let mut p = QueryParams::new();
        p.push_opt("include", &self.includes);
        p
    }

    fn body(&self) -> (r: Result<Option<RequestBody>, Error>) {
        Ok(None)
    }
}

/// the information the uploader needs to supply for an attachment
/// in [CreateIssue] or [UpdateIssue]
#[derive(Debug, Clone)]
pub struct UploadedAttachment {
    /// the upload token from [UploadFile|crate::api::uploads::UploadFile]
    pub token: String,
    /// the filename
    pub filename: String,
    /// a description for the file
    pub description: Option<String>,
    /// the MIME content type of the file
    pub content_type: String,
}

impl ToJson for UploadedAttachment {
    open spec fn json(&self) -> JsonView {
        let inner = {
            let m = Seq::<(Seq<char>, JsonView)>::empty();
            let m = m.push(("token"@, self.token.json()));
            let m = m.push(("filename"@, self.filename.json()));
            let m = member_opt(m, "description"@, self.description);
            let m = m.push(("content_type"@, self.content_type.json()));
            m
        };
        JsonView::Object(inner)
    }

    fn to_json(&self) -> (r: JsonValue) {
        let mut b = ObjectBuilder::new();
        b.insert_value("token", &self.token);
        b.insert_value("filename", &self.filename);
        b.insert_opt("description", &self.description);
        b.insert_value("content_type", &self.content_type);
        b.build()
    }
}

/// The endpoint to create a Redmine issue
#[derive(Debug, Clone)]
pub struct CreateIssue {
    /// project for the issue
    pub project_id: u64,
    /// tracker for the issue
    pub tracker_id: Option<u64>,
    /// status of the issue
    pub status_id: Option<u64>,
    /// issue priority
    pub priority_id: Option<u64>,
    /// issue subject
    pub subject: Option<String>,
    /// issue description
    pub description: Option<String>,
    /// issue category
    pub category_id: Option<u64>,
    /// ID of the Target Versions (previously called 'Fixed Version' and still referred to as such in the API)
    pub fixed_version_id: Option<u64>,
    /// user/group id the issue will be assigned to
    pub assigned_to_id: Option<u64>,
    /// Id of the parent issue
    pub parent_issue_id: Option<u64>,
    /// custom field values
    pub custom_fields: Option<Vec<CustomField>>,
    /// user ids of watchers of the issue
    pub watcher_user_ids: Option<Vec<u64>>,
    /// is the issue private (only visible to roles that have the relevant permission enabled)
    pub is_private: Option<bool>,
    /// estimated hours it will take to implement this issue
    pub estimated_hours: Option<JsonNumber>,
    /// attachments (files)
    pub uploads: Option<Vec<UploadedAttachment>>,
}

/// Builder for [`CreateIssue`].
#[derive(Debug, Clone)]
pub struct CreateIssueBuilder {
    /// project for the issue
    pub project_id: Option<u64>,
    /// tracker for the issue
    pub tracker_id: Option<u64>,
    /// status of the issue
    pub status_id: Option<u64>,
    /// issue priority
    pub priority_id: Option<u64>,
    /// issue subject
    pub subject: Option<String>,
    /// issue description
    pub description: Option<String>,
    /// issue category
    pub category_id: Option<u64>,
    /// ID of the Target Versions (previously called 'Fixed Version' and still referred to as such in the API)
    pub fixed_version_id: Option<u64>,
    /// user/group id the issue will be assigned to
    pub assigned_to_id: Option<u64>,
    /// Id of the parent issue
    pub parent_issue_id: Option<u64>,
    /// custom field values
    pub custom_fields: Option<Vec<CustomField>>,
    /// user ids of watchers of the issue
    pub watcher_user_ids: Option<Vec<u64>>,
    /// is the issue private (only visible to roles that have the relevant permission enabled)
    pub is_private: Option<bool>,
    /// estimated hours it will take to implement this issue
    pub estimated_hours: Option<JsonNumber>,
    /// attachments (files)
    pub uploads: Option<Vec<UploadedAttachment>>,
}

impl CreateIssue {
    /// Create a builder for the endpoint.
    pub fn builder() -> (r: CreateIssueBuilder)
        ensures
            r.project_id is None,
            r.tracker_id is None,
            r.status_id is None,
            r.priority_id is None,
            r.subject is None,
            r.description is None,
            r.category_id is None,
            r.fixed_version_id is None,
            r.assigned_to_id is None,
            r.parent_issue_id is None,
            r.custom_fields is None,
            r.watcher_user_ids is None,
            r.is_private is None,
            r.estimated_hours is None,
            r.uploads is None,
    {
        CreateIssueBuilder { project_id: None, tracker_id: None, status_id: None, priority_id: None, subject: None, description: None, category_id: None, fixed_version_id: None, assigned_to_id: None, parent_issue_id: None, custom_fields: None, watcher_user_ids: None, is_private: None, estimated_hours: None, uploads: None }
    }
}

impl CreateIssueBuilder {
    /// Sets `project_id`: project for the issue
    pub fn project_id(self, value: u64) -> (r: CreateIssueBuilder)
        ensures
            r.project_id == Some(value),
            r.tracker_id == self.tracker_id,
            r.status_id == self.status_id,
            r.priority_id == self.priority_id,
            r.subject == self.subject,
            r.description == self.description,
            r.category_id == self.category_id,
            r.fixed_version_id == self.fixed_version_id,
            r.assigned_to_id == self.assigned_to_id,
            r.parent_issue_id == self.parent_issue_id,
            r.custom_fields == self.custom_fields,
            r.watcher_user_ids == self.watcher_user_ids,
            r.is_private == self.is_private,
            r.estimated_hours == self.estimated_hours,
            r.uploads == self.uploads,
    {
        CreateIssueBuilder { project_id: Some(value), tracker_id: self.tracker_id, status_id: self.status_id, priority_id: self.priority_id, subject: self.subject, description: self.description, category_id: self.category_id, fixed_version_id: self.fixed_version_id, assigned_to_id: self.assigned_to_id, parent_issue_id: self.parent_issue_id, custom_fields: self.custom_fields, watcher_user_ids: self.watcher_user_ids, is_private: self.is_private, estimated_hours: self.estimated_hours, uploads: self.uploads }
    }

    /// Sets `tracker_id`: tracker for the issue
    pub fn tracker_id(self, value: u64) -> (r: CreateIssueBuilder)
        ensures
            r.tracker_id == Some(value),
            r.project_id == self.project_id,
            r.status_id == self.status_id,
            r.priority_id == self.priority_id,
            r.subject == self.subject,
            r.description == self.description,
            r.category_id == self.category_id,
            r.fixed_version_id == self.fixed_version_id,
            r.assigned_to_id == self.assigned_to_id,
            r.parent_issue_id == self.parent_issue_id,
            r.custom_fields == self.custom_fields,
            r.watcher_user_ids == self.watcher_user_ids,
            r.is_private == self.is_private,
            r.estimated_hours == self.estimated_hours,
            r.uploads == self.uploads,
    {
        CreateIssueBuilder { project_id: self.project_id, tracker_id: Some(value), status_id: self.status_id, priority_id: self.priority_id, subject: self.subject, description: self.description, category_id: self.category_id, fixed_version_id: self.fixed_version_id, assigned_to_id: self.assigned_to_id, parent_issue_id: self.parent_issue_id, custom_fields: self.custom_fields, watcher_user_ids: self.watcher_user_ids, is_private: self.is_private, estimated_hours: self.estimated_hours, uploads: self.uploads }
    }

    /// Sets `status_id`: status of the issue
    pub fn status_id(self, value: u64) -> (r: CreateIssueBuilder)
        ensures
            r.status_id == Some(value),
            r.project_id == self.project_id,
            r.tracker_id == self.tracker_id,
            r.priority_id == self.priority_id,
            r.subject == self.subject,
            r.description == self.description,
            r.category_id == self.category_id,
            r.fixed_version_id == self.fixed_version_id,
            r.assigned_to_id == self.assigned_to_id,
            r.parent_issue_id == self.parent_issue_id,
            r.custom_fields == self.custom_fields,
            r.watcher_user_ids == self.watcher_user_ids,
            r.is_private == self.is_private,
            r.estimated_hours == self.estimated_hours,
            r.uploads == self.uploads,
    {
        CreateIssueBuilder { project_id: self.project_id, tracker_id: self.tracker_id, status_id: Some(value), priority_id: self.priority_id, subject: self.subject, description: self.description, category_id: self.category_id, fixed_version_id: self.fixed_version_id, assigned_to_id: self.assigned_to_id, parent_issue_id: self.parent_issue_id, custom_fields: self.custom_fields, watcher_user_ids: self.watcher_user_ids, is_private: self.is_private, estimated_hours: self.estimated_hours, uploads: self.uploads }
    }

    /// Sets `priority_id`: issue priority
    pub fn priority_id(self, value: u64) -> (r: CreateIssueBuilder)
        ensures
            r.priority_id == Some(value),
            r.project_id == self.project_id,
            r.tracker_id == self.tracker_id,
            r.status_id == self.status_id,
            r.subject == self.subject,
            r.description == self.description,
            r.category_id == self.category_id,
            r.fixed_version_id == self.fixed_version_id,
            r.assigned_to_id == self.assigned_to_id,
            r.parent_issue_id == self.parent_issue_id,
            r.custom_fields == self.custom_fields,
            r.watcher_user_ids == self.watcher_user_ids,
            r.is_private == self.is_private,
            r.estimated_hours == self.estimated_hours,
            r.uploads == self.uploads,
    {
        CreateIssueBuilder { project_id: self.project_id, tracker_id: self.tracker_id, status_id: self.status_id, priority_id: Some(value), subject: self.subject, description: self.description, category_id: self.category_id, fixed_version_id: self.fixed_version_id, assigned_to_id: self.assigned_to_id, parent_issue_id: self.parent_issue_id, custom_fields: self.custom_fields, watcher_user_ids: self.watcher_user_ids, is_private: self.is_private, estimated_hours: self.estimated_hours, uploads: self.uploads }
    }

    /// Sets `subject`: issue subject
    pub fn subject(self, value: &str) -> (r: CreateIssueBuilder)
        ensures
            r.subject matches Some(s) && s@ == value@,
            r.project_id == self.project_id,
            r.tracker_id == self.tracker_id,
            r.status_id == self.status_id,
            r.priority_id == self.priority_id,
            r.description == self.description,
            r.category_id == self.category_id,
            r.fixed_version_id == self.fixed_version_id,
            r.assigned_to_id == self.assigned_to_id,
            r.parent_issue_id == self.parent_issue_id,
            r.custom_fields == self.custom_fields,
            r.watcher_user_ids == self.watcher_user_ids,
            r.is_private == self.is_private,
            r.estimated_hours == self.estimated_hours,
            r.uploads == self.uploads,
    {
        CreateIssueBuilder { project_id: self.project_id, tracker_id: self.tracker_id, status_id: self.status_id, priority_id: self.priority_id, subject: Some(String::from_str(value)), description: self.description, category_id: self.category_id, fixed_version_id: self.fixed_version_id, assigned_to_id: self.assigned_to_id, parent_issue_id: self.parent_issue_id, custom_fields: self.custom_fields, watcher_user_ids: self.watcher_user_ids, is_private: self.is_private, estimated_hours: self.estimated_hours, uploads: self.uploads }
    }

    /// Sets `description`: issue description
    pub fn description(self, value: &str) -> (r: CreateIssueBuilder)
        ensures
            r.description matches Some(s) && s@ == value@,
            r.project_id == self.project_id,
            r.tracker_id == self.tracker_id,
            r.status_id == self.status_id,
            r.priority_id == self.priority_id,
            r.subject == self.subject,
            r.category_id == self.category_id,
            r.fixed_version_id == self.fixed_version_id,
            r.assigned_to_id == self.assigned_to_id,
            r.parent_issue_id == self.parent_issue_id,
            r.custom_fields == self.custom_fields,
            r.watcher_user_ids == self.watcher_user_ids,
            r.is_private == self.is_private,
            r.estimated_hours == self.estimated_hours,
            r.uploads == self.uploads,
    {
        CreateIssueBuilder { project_id: self.project_id, tracker_id: self.tracker_id, status_id: self.status_id, priority_id: self.priority_id, subject: self.subject, description: Some(String::from_str(value)), category_id: self.category_id, fixed_version_id: self.fixed_version_id, assigned_to_id: self.assigned_to_id, parent_issue_id: self.parent_issue_id, custom_fields: self.custom_fields, watcher_user_ids: self.watcher_user_ids, is_private: self.is_private, estimated_hours: self.estimated_hours, uploads: self.uploads }
    }

    /// Sets `category_id`: issue category
    pub fn category_id(self, value: u64) -> (r: CreateIssueBuilder)
        ensures
            r.category_id == Some(value),
            r.project_id == self.project_id,
            r.tracker_id == self.tracker_id,
            r.status_id == self.status_id,
            r.priority_id == self.priority_id,
            r.subject == self.subject,
            r.description == self.description,
            r.fixed_version_id == self.fixed_version_id,
            r.assigned_to_id == self.assigned_to_id,
            r.parent_issue_id == self.parent_issue_id,
            r.custom_fields == self.custom_fields,
            r.watcher_user_ids == self.watcher_user_ids,
            r.is_private == self.is_private,
            r.estimated_hours == self.estimated_hours,
            r.uploads == self.uploads,
    {
        CreateIssueBuilder { project_id: self.project_id, tracker_id: self.tracker_id, status_id: self.status_id, priority_id: self.priority_id, subject: self.subject, description: self.description, category_id: Some(value), fixed_version_id: self.fixed_version_id, assigned_to_id: self.assigned_to_id, parent_issue_id: self.parent_issue_id, custom_fields: self.custom_fields, watcher_user_ids: self.watcher_user_ids, is_private: self.is_private, estimated_hours: self.estimated_hours, uploads: self.uploads }
    }

    /// Sets `fixed_version_id`: iD of the Target Versions (previously called 'Fixed Version' and still referred to as such in the API)
    pub fn version(self, value: u64) -> (r: CreateIssueBuilder)
        ensures
            r.fixed_version_id == Some(value),
            r.project_id == self.project_id,
            r.tracker_id == self.tracker_id,
            r.status_id == self.status_id,
            r.priority_id == self.priority_id,
            r.subject == self.subject,
            r.description == self.description,
            r.category_id == self.category_id,
            r.assigned_to_id == self.assigned_to_id,
            r.parent_issue_id == self.parent_issue_id,
            r.custom_fields == self.custom_fields,
            r.watcher_user_ids == self.watcher_user_ids,
            r.is_private == self.is_private,
            r.estimated_hours == self.estimated_hours,
            r.uploads == self.uploads,
    {
        CreateIssueBuilder { project_id: self.project_id, tracker_id: self.tracker_id, status_id: self.status_id, priority_id: self.priority_id, subject: self.subject, description: self.description, category_id: self.category_id, fixed_version_id: Some(value), assigned_to_id: self.assigned_to_id, parent_issue_id: self.parent_issue_id, custom_fields: self.custom_fields, watcher_user_ids: self.watcher_user_ids, is_private: self.is_private, estimated_hours: self.estimated_hours, uploads: self.uploads }
    }

    /// Sets `assigned_to_id`: user/group id the issue will be assigned to
    pub fn assigned_to_id(self, value: u64) -> (r: CreateIssueBuilder)
        ensures
            r.assigned_to_id == Some(value),
            r.project_id == self.project_id,
            r.tracker_id == self.tracker_id,
            r.status_id == self.status_id,
            r.priority_id == self.priority_id,
            r.subject == self.subject,
            r.description == self.description,
            r.category_id == self.category_id,
            r.fixed_version_id == self.fixed_version_id,
            r.parent_issue_id == self.parent_issue_id,
            r.custom_fields == self.custom_fields,
            r.watcher_user_ids == self.watcher_user_ids,
            r.is_private == self.is_private,
            r.estimated_hours == self.estimated_hours,
            r.uploads == self.uploads,
    {
        CreateIssueBuilder { project_id: self.project_id, tracker_id: self.tracker_id, status_id: self.status_id, priority_id: self.priority_id, subject: self.subject, description: self.description, category_id: self.category_id, fixed_version_id: self.fixed_version_id, assigned_to_id: Some(value), parent_issue_id: self.parent_issue_id, custom_fields: self.custom_fields, watcher_user_ids: self.watcher_user_ids, is_private: self.is_private, estimated_hours: self.estimated_hours, uploads: self.uploads }
    }

    /// Sets `parent_issue_id`: id of the parent issue
    pub fn parent_issue_id(self, value: u64) -> (r: CreateIssueBuilder)
        ensures
            r.parent_issue_id == Some(value),
            r.project_id == self.project_id,
            r.tracker_id == self.tracker_id,
            r.status_id == self.status_id,
            r.priority_id == self.priority_id,
            r.subject == self.subject,
            r.description == self.description,
            r.category_id == self.category_id,
            r.fixed_version_id == self.fixed_version_id,
            r.assigned_to_id == self.assigned_to_id,
            r.custom_fields == self.custom_fields,
            r.watcher_user_ids == self.watcher_user_ids,
            r.is_private == self.is_private,
            r.estimated_hours == self.estimated_hours,
            r.uploads == self.uploads,
    {
        CreateIssueBuilder { project_id: self.project_id, tracker_id: self.tracker_id, status_id: self.status_id, priority_id: self.priority_id, subject: self.subject, description: self.description, category_id: self.category_id, fixed_version_id: self.fixed_version_id, assigned_to_id: self.assigned_to_id, parent_issue_id: Some(value), custom_fields: self.custom_fields, watcher_user_ids: self.watcher_user_ids, is_private: self.is_private, estimated_hours: self.estimated_hours, uploads: self.uploads }
    }

    /// Sets `custom_fields`: custom field values
    pub fn custom_fields(self, value: Vec<CustomField>) -> (r: CreateIssueBuilder)
        ensures
            r.custom_fields == Some(value),
            r.project_id == self.project_id,
            r.tracker_id == self.tracker_id,
            r.status_id == self.status_id,
            r.priority_id == self.priority_id,
            r.subject == self.subject,
            r.description == self.description,
            r.category_id == self.category_id,
            r.fixed_version_id == self.fixed_version_id,
            r.assigned_to_id == self.assigned_to_id,
            r.parent_issue_id == self.parent_issue_id,
            r.watcher_user_ids == self.watcher_user_ids,
            r.is_private == self.is_private,
            r.estimated_hours == self.estimated_hours,
            r.uploads == self.uploads,
    {
        CreateIssueBuilder { project_id: self.project_id, tracker_id: self.tracker_id, status_id: self.status_id, priority_id: self.priority_id, subject: self.subject, description: self.description, category_id: self.category_id, fixed_version_id: self.fixed_version_id, assigned_to_id: self.assigned_to_id, parent_issue_id: self.parent_issue_id, custom_fields: Some(value), watcher_user_ids: self.watcher_user_ids, is_private: self.is_private, estimated_hours: self.estimated_hours, uploads: self.uploads }
    }

    /// Sets `watcher_user_ids`: user ids of watchers of the issue
    pub fn watcher_user_ids(self, value: Vec<u64>) -> (r: CreateIssueBuilder)
        ensures
            r.watcher_user_ids == Some(value),
            r.project_id == self.project_id,
            r.tracker_id == self.tracker_id,
            r.status_id == self.status_id,
            r.priority_id == self.priority_id,
            r.subject == self.subject,
            r.description == self.description,
            r.category_id == self.category_id,
            r.fixed_version_id == self.fixed_version_id,
            r.assigned_to_id == self.assigned_to_id,
            r.parent_issue_id == self.parent_issue_id,
            r.custom_fields == self.custom_fields,
            r.is_private == self.is_private,
            r.estimated_hours == self.estimated_hours,
            r.uploads == self.uploads,
    {
        CreateIssueBuilder { project_id: self.project_id, tracker_id: self.tracker_id, status_id: self.status_id, priority_id: self.priority_id, subject: self.subject, description: self.description, category_id: self.category_id, fixed_version_id: self.fixed_version_id, assigned_to_id: self.assigned_to_id, parent_issue_id: self.parent_issue_id, custom_fields: self.custom_fields, watcher_user_ids: Some(value), is_private: self.is_private, estimated_hours: self.estimated_hours, uploads: self.uploads }
    }

    /// Sets `is_private`: is the issue private (only visible to roles that have the relevant permission enabled)
    pub fn is_private(self, value: bool) -> (r: CreateIssueBuilder)
        ensures
            r.is_private == Some(value),
            r.project_id == self.project_id,
            r.tracker_id == self.tracker_id,
            r.status_id == self.status_id,
            r.priority_id == self.priority_id,
            r.subject == self.subject,
            r.description == self.description,
            r.category_id == self.category_id,
            r.fixed_version_id == self.fixed_version_id,
            r.assigned_to_id == self.assigned_to_id,
            r.parent_issue_id == self.parent_issue_id,
            r.custom_fields == self.custom_fields,
            r.watcher_user_ids == self.watcher_user_ids,
            r.estimated_hours == self.estimated_hours,
            r.uploads == self.uploads,
    {
        CreateIssueBuilder { project_id: self.project_id, tracker_id: self.tracker_id, status_id: self.status_id, priority_id: self.priority_id, subject: self.subject, description: self.description, category_id: self.category_id, fixed_version_id: self.fixed_version_id, assigned_to_id: self.assigned_to_id, parent_issue_id: self.parent_issue_id, custom_fields: self.custom_fields, watcher_user_ids: self.watcher_user_ids, is_private: Some(value), estimated_hours: self.estimated_hours, uploads: self.uploads }
    }

    /// Sets `estimated_hours`: estimated hours it will take to implement this issue
    pub fn estimated_hours(self, value: JsonNumber) -> (r: CreateIssueBuilder)
        ensures
            r.estimated_hours == Some(value),
            r.project_id == self.project_id,
            r.tracker_id == self.tracker_id,
            r.status_id == self.status_id,
            r.priority_id == self.priority_id,
            r.subject == self.subject,
            r.description == self.description,
            r.category_id == self.category_id,
            r.fixed_version_id == self.fixed_version_id,
            r.assigned_to_id == self.assigned_to_id,
            r.parent_issue_id == self.parent_issue_id,
            r.custom_fields == self.custom_fields,
            r.watcher_user_ids == self.watcher_user_ids,
            r.is_private == self.is_private,
            r.uploads == self.uploads,
    {
        CreateIssueBuilder { project_id: self.project_id, tracker_id: self.tracker_id, status_id: self.status_id, priority_id: self.priority_id, subject: self.subject, description: self.description, category_id: self.category_id, fixed_version_id: self.fixed_version_id, assigned_to_id: self.assigned_to_id, parent_issue_id: self.parent_issue_id, custom_fields: self.custom_fields, watcher_user_ids: self.watcher_user_ids, is_private: self.is_private, estimated_hours: Some(value), uploads: self.uploads }
    }

    /// Sets `uploads`: attachments (files)
    pub fn uploads(self, value: Vec<UploadedAttachment>) -> (r: CreateIssueBuilder)
        ensures
            r.uploads == Some(value),
            r.project_id == self.project_id,
            r.tracker_id == self.tracker_id,
            r.status_id == self.status_id,
            r.priority_id == self.priority_id,
            r.subject == self.subject,
            r.description == self.description,
            r.category_id == self.category_id,
            r.fixed_version_id == self.fixed_version_id,
            r.assigned_to_id == self.assigned_to_id,
            r.parent_issue_id == self.parent_issue_id,
            r.custom_fields == self.custom_fields,
            r.watcher_user_ids == self.watcher_user_ids,
            r.is_private == self.is_private,
            r.estimated_hours == self.estimated_hours,
    {
        CreateIssueBuilder { project_id: self.project_id, tracker_id: self.tracker_id, status_id: self.status_id, priority_id: self.priority_id, subject: self.subject, description: self.description, category_id: self.category_id, fixed_version_id: self.fixed_version_id, assigned_to_id: self.assigned_to_id, parent_issue_id: self.parent_issue_id, custom_fields: self.custom_fields, watcher_user_ids: self.watcher_user_ids, is_private: self.is_private, estimated_hours: self.estimated_hours, uploads: Some(value) }
    }

    /// The first required field that has not been set, if any.
    pub open spec fn missing_field(&self) -> Option<Seq<char>> {
        if self.project_id is None {
            Some("project_id"@)
        } else {
            None
        }
    }

    /// Builds the endpoint; fails on the first required field that has not been set.
    pub fn build(self) -> (r: Result<CreateIssue, BuilderError>)
        ensures
            match r {
                Ok(x) => self.missing_field() is None && x == (CreateIssue { project_id: self.project_id->0, tracker_id: self.tracker_id, status_id: self.status_id, priority_id: self.priority_id, subject: self.subject, description: self.description, category_id: self.category_id, fixed_version_id: self.fixed_version_id, assigned_to_id: self.assigned_to_id, parent_issue_id: self.parent_issue_id, custom_fields: self.custom_fields, watcher_user_ids: self.watcher_user_ids, is_private: self.is_private, estimated_hours: self.estimated_hours, uploads: self.uploads }),
                Err(BuilderError::UninitializedField(n)) => self.missing_field() == Some(n@),
                Err(_) => false,
            },
    {
        let project_id = match self.project_id {
            Some(v) => v,
            None => {
                return Err(BuilderError::UninitializedField("project_id"));
            },
        };
        Ok(CreateIssue { project_id, tracker_id: self.tracker_id, status_id: self.status_id, priority_id: self.priority_id, subject: self.subject, description: self.description, category_id: self.category_id, fixed_version_id: self.fixed_version_id, assigned_to_id: self.assigned_to_id, parent_issue_id: self.parent_issue_id, custom_fields: self.custom_fields, watcher_user_ids: self.watcher_user_ids, is_private: self.is_private, estimated_hours: self.estimated_hours, uploads: self.uploads })
    }
}

impl ReturnsJsonResponse for CreateIssue {}

impl NoPagination for CreateIssue {}

impl Endpoint for CreateIssue {
    open spec fn method_spec(&self) -> HttpMethod {
        HttpMethod::Post
    }

    open spec fn endpoint_spec(&self) -> Seq<char> {
        "issues.json"@
    }

    open spec fn parameters_spec(&self) -> Seq<(Seq<char>, Seq<char>)> {
        Seq::empty()
    }

    open spec fn body_spec(&self) -> Option<BodySpec> {
        let inner = {
            let m = Seq::<(Seq<char>, JsonView)>::empty();
            let m = m.push(("project_id"@, self.project_id.json()));
            let m = member_opt(m, "tracker_id"@, self.tracker_id);
            let m = member_opt(m, "status_id"@, self.status_id);
            let m = member_opt(m, "priority_id"@, self.priority_id);
            let m = member_opt(m, "subject"@, self.subject);
            let m = member_opt(m, "description"@, self.description);
            let m = member_opt(m, "category_id"@, self.category_id);
            let m = member_opt(m, "fixed_version_id"@, self.fixed_version_id);
            let m = member_opt(m, "assigned_to_id"@, self.assigned_to_id);
            let m = member_opt(m, "parent_issue_id"@, self.parent_issue_id);
            let m = member_opt(m, "custom_fields"@, self.custom_fields);
            let m = member_opt(m, "watcher_user_ids"@, self.watcher_user_ids);
            let m = member_opt(m, "is_private"@, self.is_private);
            let m = member_opt(m, "estimated_hours"@, self.estimated_hours);
            let m = member_opt(m, "uploads"@, self.uploads);
            m
        };
        Some(BodySpec::Json(JsonView::Object(seq![("issue"@, JsonView::Object(inner))])))
    }

    fn method(&self) -> (r: HttpMethod) {
        HttpMethod::Post
    }

    fn endpoint(&self) -> (r: String) {
        String::from_str("issues.json")
    }

    fn check_writable(&self) -> (r: bool) {
        true
    }

    fn parameters(&self) -> (r: QueryParams) {
        let mut p = QueryParams::new();
        p
    }

    fn body(&self) -> (r: Result<Option<RequestBody>, Error>) {
        let mut b = ObjectBuilder::new();
        b.insert_value("project_id", &self.project_id);
        b.insert_opt("tracker_id", &self.tracker_id);
        b.insert_opt("status_id", &self.status_id);
        b.insert_opt("priority_id", &self.priority_id);
        b.insert_opt("subject", &self.subject);
        b.insert_opt("description", &self.description);
        b.insert_opt("category_id", &self.category_id);
        b.insert_opt("fixed_version_id", &self.fixed_version_id);
        b.insert_opt("assigned_to_id", &self.assigned_to_id);
        b.insert_opt("parent_issue_id", &self.parent_issue_id);
        b.insert_opt("custom_fields", &self.custom_fields);
        b.insert_opt("watcher_user_ids", &self.watcher_user_ids);
        b.insert_opt("is_private", &self.is_private);
        b.insert_opt("estimated_hours", &self.estimated_hours);
        b.insert_opt("uploads", &self.uploads);
        let doc = single_member_object("issue", b.build());
        json_body(&doc)
    }
}

/// The endpoint to update an existing Redmine issue
#[derive(Debug, Clone)]
pub struct UpdateIssue {
    /// id of the issue to update
    pub id: u64,
    /// project for the issue
    pub project_id: Option<u64>,
    /// tracker for the issue
    pub tracker_id: Option<u64>,
    /// status of the issue
    pub status_id: Option<u64>,
    /// issue priority
    pub priority_id: Option<u64>,
    /// issue subject
    pub subject: Option<String>,
    /// issue description
    pub description: Option<String>,
    /// issue category
    pub category_id: Option<u64>,
    /// ID of the Target Versions (previously called 'Fixed Version' and still referred to as such in the API)
    pub fixed_version_id: Option<u64>,
    /// user/group id the issue will be assigned to
    pub assigned_to_id: Option<u64>,
    /// Id of the parent issue
    pub parent_issue_id: Option<u64>,
    /// custom field values
    pub custom_fields: Option<Vec<CustomField>>,
    /// user ids of watchers of the issue
    pub watcher_user_ids: Option<Vec<u64>>,
    /// is the issue private (only visible to roles that have the relevant permission enabled)
    pub is_private: Option<bool>,
    /// estimated hours it will take to implement this issue
    pub estimated_hours: Option<JsonNumber>,
    /// add a comment (note)
    pub notes: Option<String>,
    /// is the added comment/note private
    pub private_notes: Option<bool>,
    /// attachments (files)
    pub uploads: Option<Vec<UploadedAttachment>>,
}

/// Builder for [`UpdateIssue`].
#[derive(Debug, Clone)]
pub struct UpdateIssueBuilder {
    /// id of the issue to update
    pub id: Option<u64>,
    /// project for the issue
    pub project_id: Option<u64>,
    /// tracker for the issue
    pub tracker_id: Option<u64>,
    /// status of the issue
    pub status_id: Option<u64>,
    /// issue priority
    pub priority_id: Option<u64>,
    /// issue subject
    pub subject: Option<String>,
    /// issue description
    pub description: Option<String>,
    /// issue category
    pub category_id: Option<u64>,
    /// ID of the Target Versions (previously called 'Fixed Version' and still referred to as such in the API)
    pub fixed_version_id: Option<u64>,
    /// user/group id the issue will be assigned to
    pub assigned_to_id: Option<u64>,
    /// Id of the parent issue
    pub parent_issue_id: Option<u64>,
    /// custom field values
    pub custom_fields: Option<Vec<CustomField>>,
    /// user ids of watchers of the issue
    pub watcher_user_ids: Option<Vec<u64>>,
    /// is the issue private (only visible to roles that have the relevant permission enabled)
    pub is_private: Option<bool>,
    /// estimated hours it will take to implement this issue
    pub estimated_hours: Option<JsonNumber>,
    /// add a comment (note)
    pub notes: Option<String>,
    /// is the added comment/note private
    pub private_notes: Option<bool>,
    /// attachments (files)
    pub uploads: Option<Vec<UploadedAttachment>>,
}

impl UpdateIssue {
    /// Create a builder for the endpoint.
    pub fn builder() -> (r: UpdateIssueBuilder)
        ensures
            r.id is None,
            r.project_id is None,
            r.tracker_id is None,
            r.status_id is None,
            r.priority_id is None,
            r.subject is None,
            r.description is None,
            r.category_id is None,
            r.fixed_version_id is None,
            r.assigned_to_id is None,
            r.parent_issue_id is None,
            r.custom_fields is None,
            r.watcher_user_ids is None,
            r.is_private is None,
            r.estimated_hours is None,
            r.notes is None,
            r.private_notes is None,
            r.uploads is None,
    {
        UpdateIssueBuilder { id: None, project_id: None, tracker_id: None, status_id: None, priority_id: None, subject: None, description: None, category_id: None, fixed_version_id: None, assigned_to_id: None, parent_issue_id: None, custom_fields: None, watcher_user_ids: None, is_private: None, estimated_hours: None, notes: None, private_notes: None, uploads: None }
    }
}

impl UpdateIssueBuilder {
    /// Sets `id`: id of the issue to update
    pub fn id(self, value: u64) -> (r: UpdateIssueBuilder)
        ensures
            r.id == Some(value),
            r.project_id == self.project_id,
            r.tracker_id == self.tracker_id,
            r.status_id == self.status_id,
            r.priority_id == self.priority_id,
            r.subject == self.subject,
            r.description == self.description,
            r.category_id == self.category_id,
            r.fixed_version_id == self.fixed_version_id,
            r.assigned_to_id == self.assigned_to_id,
            r.parent_issue_id == self.parent_issue_id,
            r.custom_fields == self.custom_fields,
            r.watcher_user_ids == self.watcher_user_ids,
            r.is_private == self.is_private,
            r.estimated_hours == self.estimated_hours,
            r.notes == self.notes,
            r.private_notes == self.private_notes,
            r.uploads == self.uploads,
    {
        UpdateIssueBuilder { id: Some(value), project_id: self.project_id, tracker_id: self.tracker_id, status_id: self.status_id, priority_id: self.priority_id, subject: self.subject, description: self.description, category_id: self.category_id, fixed_version_id: self.fixed_version_id, assigned_to_id: self.assigned_to_id, parent_issue_id: self.parent_issue_id, custom_fields: self.custom_fields, watcher_user_ids: self.watcher_user_ids, is_private: self.is_private, estimated_hours: self.estimated_hours, notes: self.notes, private_notes: self.private_notes, uploads: self.uploads }
    }

    /// Sets `project_id`: project for the issue
    pub fn project_id(self, value: u64) -> (r: UpdateIssueBuilder)
        ensures
            r.project_id == Some(value),
            r.id == self.id,
            r.tracker_id == self.tracker_id,
            r.status_id == self.status_id,
            r.priority_id == self.priority_id,
            r.subject == self.subject,
            r.description == self.description,
            r.category_id == self.category_id,
            r.fixed_version_id == self.fixed_version_id,
            r.assigned_to_id == self.assigned_to_id,
            r.parent_issue_id == self.parent_issue_id,
            r.custom_fields == self.custom_fields,
            r.watcher_user_ids == self.watcher_user_ids,
            r.is_private == self.is_private,
            r.estimated_hours == self.estimated_hours,
            r.notes == self.notes,
            r.private_notes == self.private_notes,
            r.uploads == self.uploads,
    {
        UpdateIssueBuilder { id: self.id, project_id: Some(value), tracker_id: self.tracker_id, status_id: self.status_id, priority_id: self.priority_id, subject: self.subject, description: self.description, category_id: self.category_id, fixed_version_id: self.fixed_version_id, assigned_to_id: self.assigned_to_id, parent_issue_id: self.parent_issue_id, custom_fields: self.custom_fields, watcher_user_ids: self.watcher_user_ids, is_private: self.is_private, estimated_hours: self.estimated_hours, notes: self.notes, private_notes: self.private_notes, uploads: self.uploads }
    }

    /// Sets `tracker_id`: tracker for the issue
    pub fn tracker_id(self, value: u64) -> (r: UpdateIssueBuilder)
        ensures
            r.tracker_id == Some(value),
            r.id == self.id,
            r.project_id == self.project_id,
            r.status_id == self.status_id,
            r.priority_id == self.priority_id,
            r.subject == self.subject,
            r.description == self.description,
            r.category_id == self.category_id,
            r.fixed_version_id == self.fixed_version_id,
            r.assigned_to_id == self.assigned_to_id,
            r.parent_issue_id == self.parent_issue_id,
            r.custom_fields == self.custom_fields,
            r.watcher_user_ids == self.watcher_user_ids,
            r.is_private == self.is_private,
            r.estimated_hours == self.estimated_hours,
            r.notes == self.notes,
            r.private_notes == self.private_notes,
            r.uploads == self.uploads,
    {
        UpdateIssueBuilder { id: self.id, project_id: self.project_id, tracker_id: Some(value), status_id: self.status_id, priority_id: self.priority_id, subject: self.subject, description: self.description, category_id: self.category_id, fixed_version_id: self.fixed_version_id, assigned_to_id: self.assigned_to_id, parent_issue_id: self.parent_issue_id, custom_fields: self.custom_fields, watcher_user_ids: self.watcher_user_ids, is_private: self.is_private, estimated_hours: self.estimated_hours, notes: self.notes, private_notes: self.private_notes, uploads: self.uploads }
    }

    /// Sets `status_id`: status of the issue
    pub fn status_id(self, value: u64) -> (r: UpdateIssueBuilder)
        ensures
            r.status_id == Some(value),
            r.id == self.id,
            r.project_id == self.project_id,
            r.tracker_id == self.tracker_id,
            r.priority_id == self.priority_id,
            r.subject == self.subject,
            r.description == self.description,
            r.category_id == self.category_id,
            r.fixed_version_id == self.fixed_version_id,
            r.assigned_to_id == self.assigned_to_id,
            r.parent_issue_id == self.parent_issue_id,
            r.custom_fields == self.custom_fields,
            r.watcher_user_ids == self.watcher_user_ids,
            r.is_private == self.is_private,
            r.estimated_hours == self.estimated_hours,
            r.notes == self.notes,
            r.private_notes == self.private_notes,
            r.uploads == self.uploads,
    {
        UpdateIssueBuilder { id: self.id, project_id: self.project_id, tracker_id: self.tracker_id, status_id: Some(value), priority_id: self.priority_id, subject: self.subject, description: self.description, category_id: self.category_id, fixed_version_id: self.fixed_version_id, assigned_to_id: self.assigned_to_id, parent_issue_id: self.parent_issue_id, custom_fields: self.custom_fields, watcher_user_ids: self.watcher_user_ids, is_private: self.is_private, estimated_hours: self.estimated_hours, notes: self.notes, private_notes: self.private_notes, uploads: self.uploads }
    }

    /// Sets `priority_id`: issue priority
    pub fn priority_id(self, value: u64) -> (r: UpdateIssueBuilder)
        ensures
            r.priority_id == Some(value),
            r.id == self.id,
            r.project_id == self.project_id,
            r.tracker_id == self.tracker_id,
            r.status_id == self.status_id,
            r.subject == self.subject,
            r.description == self.description,
            r.category_id == self.category_id,
            r.fixed_version_id == self.fixed_version_id,
            r.assigned_to_id == self.assigned_to_id,
            r.parent_issue_id == self.parent_issue_id,
            r.custom_fields == self.custom_fields,
            r.watcher_user_ids == self.watcher_user_ids,
            r.is_private == self.is_private,
            r.estimated_hours == self.estimated_hours,
            r.notes == self.notes,
            r.private_notes == self.private_notes,
            r.uploads == self.uploads,
    {
        UpdateIssueBuilder { id: self.id, project_id: self.project_id, tracker_id: self.tracker_id, status_id: self.status_id, priority_id: Some(value), subject: self.subject, description: self.description, category_id: self.category_id, fixed_version_id: self.fixed_version_id, assigned_to_id: self.assigned_to_id, parent_issue_id: self.parent_issue_id, custom_fields: self.custom_fields, watcher_user_ids: self.watcher_user_ids, is_private: self.is_private, estimated_hours: self.estimated_hours, notes: self.notes, private_notes: self.private_notes, uploads: self.uploads }
    }

    /// Sets `subject`: issue subject
    pub fn subject(self, value: &str) -> (r: UpdateIssueBuilder)
        ensures
            r.subject matches Some(s) && s@ == value@,
            r.id == self.id,
            r.project_id == self.project_id,
            r.tracker_id == self.tracker_id,
            r.status_id == self.status_id,
            r.priority_id == self.priority_id,
            r.description == self.description,
            r.category_id == self.category_id,
            r.fixed_version_id == self.fixed_version_id,
            r.assigned_to_id == self.assigned_to_id,
            r.parent_issue_id == self.parent_issue_id,
            r.custom_fields == self.custom_fields,
            r.watcher_user_ids == self.watcher_user_ids,
            r.is_private == self.is_private,
            r.estimated_hours == self.estimated_hours,
            r.notes == self.notes,
            r.private_notes == self.private_notes,
            r.uploads == self.uploads,
    {
        UpdateIssueBuilder { id: self.id, project_id: self.project_id, tracker_id: self.tracker_id, status_id: self.status_id, priority_id: self.priority_id, subject: Some(String::from_str(value)), description: self.description, category_id: self.category_id, fixed_version_id: self.fixed_version_id, assigned_to_id: self.assigned_to_id, parent_issue_id: self.parent_issue_id, custom_fields: self.custom_fields, watcher_user_ids: self.watcher_user_ids, is_private: self.is_private, estimated_hours: self.estimated_hours, notes: self.notes, private_notes: self.private_notes, uploads: self.uploads }
    }

    /// Sets `description`: issue description
    pub fn description(self, value: &str) -> (r: UpdateIssueBuilder)
        ensures
            r.description matches Some(s) && s@ == value@,
            r.id == self.id,
            r.project_id == self.project_id,
            r.tracker_id == self.tracker_id,
            r.status_id == self.status_id,
            r.priority_id == self.priority_id,
            r.subject == self.subject,
            r.category_id == self.category_id,
            r.fixed_version_id == self.fixed_version_id,
            r.assigned_to_id == self.assigned_to_id,
            r.parent_issue_id == self.parent_issue_id,
            r.custom_fields == self.custom_fields,
            r.watcher_user_ids == self.watcher_user_ids,
            r.is_private == self.is_private,
            r.estimated_hours == self.estimated_hours,
            r.notes == self.notes,
            r.private_notes == self.private_notes,
            r.uploads == self.uploads,
    {
        UpdateIssueBuilder { id: self.id, project_id: self.project_id, tracker_id: self.tracker_id, status_id: self.status_id, priority_id: self.priority_id, subject: self.subject, description: Some(String::from_str(value)), category_id: self.category_id, fixed_version_id: self.fixed_version_id, assigned_to_id: self.assigned_to_id, parent_issue_id: self.parent_issue_id, custom_fields: self.custom_fields, watcher_user_ids: self.watcher_user_ids, is_private: self.is_private, estimated_hours: self.estimated_hours, notes: self.notes, private_notes: self.private_notes, uploads: self.uploads }
    }

    /// Sets `category_id`: issue category
    pub fn category_id(self, value: u64) -> (r: UpdateIssueBuilder)
        ensures
            r.category_id == Some(value),
            r.id == self.id,
            r.project_id == self.project_id,
            r.tracker_id == self.tracker_id,
            r.status_id == self.status_id,
            r.priority_id == self.priority_id,
            r.subject == self.subject,
            r.description == self.description,
            r.fixed_version_id == self.fixed_version_id,
            r.assigned_to_id == self.assigned_to_id,
            r.parent_issue_id == self.parent_issue_id,
            r.custom_fields == self.custom_fields,
            r.watcher_user_ids == self.watcher_user_ids,
            r.is_private == self.is_private,
            r.estimated_hours == self.estimated_hours,
            r.notes == self.notes,
            r.private_notes == self.private_notes,
            r.uploads == self.uploads,
    {
        UpdateIssueBuilder { id: self.id, project_id: self.project_id, tracker_id: self.tracker_id, status_id: self.status_id, priority_id: self.priority_id, subject: self.subject, description: self.description, category_id: Some(value), fixed_version_id: self.fixed_version_id, assigned_to_id: self.assigned_to_id, parent_issue_id: self.parent_issue_id, custom_fields: self.custom_fields, watcher_user_ids: self.watcher_user_ids, is_private: self.is_private, estimated_hours: self.estimated_hours, notes: self.notes, private_notes: self.private_notes, uploads: self.uploads }
    }

    /// Sets `fixed_version_id`: iD of the Target Versions (previously called 'Fixed Version' and still referred to as such in the API)
    pub fn version(self, value: u64) -> (r: UpdateIssueBuilder)
        ensures
            r.fixed_version_id == Some(value),
            r.id == self.id,
            r.project_id == self.project_id,
            r.tracker_id == self.tracker_id,
            r.status_id == self.status_id,
            r.priority_id == self.priority_id,
            r.subject == self.subject,
            r.description == self.description,
            r.category_id == self.category_id,
            r.assigned_to_id == self.assigned_to_id,
            r.parent_issue_id == self.parent_issue_id,
            r.custom_fields == self.custom_fields,
            r.watcher_user_ids == self.watcher_user_ids,
            r.is_private == self.is_private,
            r.estimated_hours == self.estimated_hours,
            r.notes == self.notes,
            r.private_notes == self.private_notes,
            r.uploads == self.uploads,
    {
        UpdateIssueBuilder { id: self.id, project_id: self.project_id, tracker_id: self.tracker_id, status_id: self.status_id, priority_id: self.priority_id, subject: self.subject, description: self.description, category_id: self.category_id, fixed_version_id: Some(value), assigned_to_id: self.assigned_to_id, parent_issue_id: self.parent_issue_id, custom_fields: self.custom_fields, watcher_user_ids: self.watcher_user_ids, is_private: self.is_private, estimated_hours: self.estimated_hours, notes: self.notes, private_notes: self.private_notes, uploads: self.uploads }
    }

    /// Sets `assigned_to_id`: user/group id the issue will be assigned to
    pub fn assigned_to_id(self, value: u64) -> (r: UpdateIssueBuilder)
        ensures
            r.assigned_to_id == Some(value),
            r.id == self.id,
            r.project_id == self.project_id,
            r.tracker_id == self.tracker_id,
            r.status_id == self.status_id,
            r.priority_id == self.priority_id,
            r.subject == self.subject,
            r.description == self.description,
            r.category_id == self.category_id,
            r.fixed_version_id == self.fixed_version_id,
            r.parent_issue_id == self.parent_issue_id,
            r.custom_fields == self.custom_fields,
            r.watcher_user_ids == self.watcher_user_ids,
            r.is_private == self.is_private,
            r.estimated_hours == self.estimated_hours,
            r.notes == self.notes,
            r.private_notes == self.private_notes,
            r.uploads == self.uploads,
    {
        UpdateIssueBuilder { id: self.id, project_id: self.project_id, tracker_id: self.tracker_id, status_id: self.status_id, priority_id: self.priority_id, subject: self.subject, description: self.description, category_id: self.category_id, fixed_version_id: self.fixed_version_id, assigned_to_id: Some(value), parent_issue_id: self.parent_issue_id, custom_fields: self.custom_fields, watcher_user_ids: self.watcher_user_ids, is_private: self.is_private, estimated_hours: self.estimated_hours, notes: self.notes, private_notes: self.private_notes, uploads: self.uploads }
    }

    /// Sets `parent_issue_id`: id of the parent issue
    pub fn parent_issue_id(self, value: u64) -> (r: UpdateIssueBuilder)
        ensures
            r.parent_issue_id == Some(value),
            r.id == self.id,
            r.project_id == self.project_id,
            r.tracker_id == self.tracker_id,
            r.status_id == self.status_id,
            r.priority_id == self.priority_id,
            r.subject == self.subject,
            r.description == self.description,
            r.category_id == self.category_id,
            r.fixed_version_id == self.fixed_version_id,
            r.assigned_to_id == self.assigned_to_id,
            r.custom_fields == self.custom_fields,
            r.watcher_user_ids == self.watcher_user_ids,
            r.is_private == self.is_private,
            r.estimated_hours == self.estimated_hours,
            r.notes == self.notes,
            r.private_notes == self.private_notes,
            r.uploads == self.uploads,
    {
        UpdateIssueBuilder { id: self.id, project_id: self.project_id, tracker_id: self.tracker_id, status_id: self.status_id, priority_id: self.priority_id, subject: self.subject, description: self.description, category_id: self.category_id, fixed_version_id: self.fixed_version_id, assigned_to_id: self.assigned_to_id, parent_issue_id: Some(value), custom_fields: self.custom_fields, watcher_user_ids: self.watcher_user_ids, is_private: self.is_private, estimated_hours: self.estimated_hours, notes: self.notes, private_notes: self.private_notes, uploads: self.uploads }
    }

    /// Sets `custom_fields`: custom field values
    pub fn custom_fields(self, value: Vec<CustomField>) -> (r: UpdateIssueBuilder)
        ensures
            r.custom_fields == Some(value),
            r.id == self.id,
            r.project_id == self.project_id,
            r.tracker_id == self.tracker_id,
            r.status_id == self.status_id,
            r.priority_id == self.priority_id,
            r.subject == self.subject,
            r.description == self.description,
            r.category_id == self.category_id,
            r.fixed_version_id == self.fixed_version_id,
            r.assigned_to_id == self.assigned_to_id,
            r.parent_issue_id == self.parent_issue_id,
            r.watcher_user_ids == self.watcher_user_ids,
            r.is_private == self.is_private,
            r.estimated_hours == self.estimated_hours,
            r.notes == self.notes,
            r.private_notes == self.private_notes,
            r.uploads == self.uploads,
    {
        UpdateIssueBuilder { id: self.id, project_id: self.project_id, tracker_id: self.tracker_id, status_id: self.status_id, priority_id: self.priority_id, subject: self.subject, description: self.description, category_id: self.category_id, fixed_version_id: self.fixed_version_id, assigned_to_id: self.assigned_to_id, parent_issue_id: self.parent_issue_id, custom_fields: Some(value), watcher_user_ids: self.watcher_user_ids, is_private: self.is_private, estimated_hours: self.estimated_hours, notes: self.notes, private_notes: self.private_notes, uploads: self.uploads }
    }

    /// Sets `watcher_user_ids`: user ids of watchers of the issue
    pub fn watcher_user_ids(self, value: Vec<u64>) -> (r: UpdateIssueBuilder)
        ensures
            r.watcher_user_ids == Some(value),
            r.id == self.id,
            r.project_id == self.project_id,
            r.tracker_id == self.tracker_id,
            r.status_id == self.status_id,
            r.priority_id == self.priority_id,
            r.subject == self.subject,
            r.description == self.description,
            r.category_id == self.category_id,
            r.fixed_version_id == self.fixed_version_id,
            r.assigned_to_id == self.assigned_to_id,
            r.parent_issue_id == self.parent_issue_id,
            r.custom_fields == self.custom_fields,
            r.is_private == self.is_private,
            r.estimated_hours == self.estimated_hours,
            r.notes == self.notes,
            r.private_notes == self.private_notes,
            r.uploads == self.uploads,
    {
        UpdateIssueBuilder { id: self.id, project_id: self.project_id, tracker_id: self.tracker_id, status_id: self.status_id, priority_id: self.priority_id, subject: self.subject, description: self.description, category_id: self.category_id, fixed_version_id: self.fixed_version_id, assigned_to_id: self.assigned_to_id, parent_issue_id: self.parent_issue_id, custom_fields: self.custom_fields, watcher_user_ids: Some(value), is_private: self.is_private, estimated_hours: self.estimated_hours, notes: self.notes, private_notes: self.private_notes, uploads: self.uploads }
    }

    /// Sets `is_private`: is the issue private (only visible to roles that have the relevant permission enabled)
    pub fn is_private(self, value: bool) -> (r: UpdateIssueBuilder)
        ensures
            r.is_private == Some(value),
            r.id == self.id,
            r.project_id == self.project_id,
            r.tracker_id == self.tracker_id,
            r.status_id == self.status_id,
            r.priority_id == self.priority_id,
            r.subject == self.subject,
            r.description == self.description,
            r.category_id == self.category_id,
            r.fixed_version_id == self.fixed_version_id,
            r.assigned_to_id == self.assigned_to_id,
            r.parent_issue_id == self.parent_issue_id,
            r.custom_fields == self.custom_fields,
            r.watcher_user_ids == self.watcher_user_ids,
            r.estimated_hours == self.estimated_hours,
            r.notes == self.notes,
            r.private_notes == self.private_notes,
            r.uploads == self.uploads,
    {
        UpdateIssueBuilder { id: self.id, project_id: self.project_id, tracker_id: self.tracker_id, status_id: self.status_id, priority_id: self.priority_id, subject: self.subject, description: self.description, category_id: self.category_id, fixed_version_id: self.fixed_version_id, assigned_to_id: self.assigned_to_id, parent_issue_id: self.parent_issue_id, custom_fields: self.custom_fields, watcher_user_ids: self.watcher_user_ids, is_private: Some(value), estimated_hours: self.estimated_hours, notes: self.notes, private_notes: self.private_notes, uploads: self.uploads }
    }

    /// Sets `estimated_hours`: estimated hours it will take to implement this issue
    pub fn estimated_hours(self, value: JsonNumber) -> (r: UpdateIssueBuilder)
        ensures
            r.estimated_hours == Some(value),
            r.id == self.id,
            r.project_id == self.project_id,
            r.tracker_id == self.tracker_id,
            r.status_id == self.status_id,
            r.priority_id == self.priority_id,
            r.subject == self.subject,
            r.description == self.description,
            r.category_id == self.category_id,
            r.fixed_version_id == self.fixed_version_id,
            r.assigned_to_id == self.assigned_to_id,
            r.parent_issue_id == self.parent_issue_id,
            r.custom_fields == self.custom_fields,
            r.watcher_user_ids == self.watcher_user_ids,
            r.is_private == self.is_private,
            r.notes == self.notes,
            r.private_notes == self.private_notes,
            r.uploads == self.uploads,
    {
        UpdateIssueBuilder { id: self.id, project_id: self.project_id, tracker_id: self.tracker_id, status_id: self.status_id, priority_id: self.priority_id, subject: self.subject, description: self.description, category_id: self.category_id, fixed_version_id: self.fixed_version_id, assigned_to_id: self.assigned_to_id, parent_issue_id: self.parent_issue_id, custom_fields: self.custom_fields, watcher_user_ids: self.watcher_user_ids, is_private: self.is_private, estimated_hours: Some(value), notes: self.notes, private_notes: self.private_notes, uploads: self.uploads }
    }

    /// Sets `notes`: add a comment (note)
    pub fn notes(self, value: &str) -> (r: UpdateIssueBuilder)
        ensures
            r.notes matches Some(s) && s@ == value@,
            r.id == self.id,
            r.project_id == self.project_id,
            r.tracker_id == self.tracker_id,
            r.status_id == self.status_id,
            r.priority_id == self.priority_id,
            r.subject == self.subject,
            r.description == self.description,
            r.category_id == self.category_id,
            r.fixed_version_id == self.fixed_version_id,
            r.assigned_to_id == self.assigned_to_id,
            r.parent_issue_id == self.parent_issue_id,
            r.custom_fields == self.custom_fields,
            r.watcher_user_ids == self.watcher_user_ids,
            r.is_private == self.is_private,
            r.estimated_hours == self.estimated_hours,
            r.private_notes == self.private_notes,
            r.uploads == self.uploads,
    {
        UpdateIssueBuilder { id: self.id, project_id: self.project_id, tracker_id: self.tracker_id, status_id: self.status_id, priority_id: self.priority_id, subject: self.subject, description: self.description, category_id: self.category_id, fixed_version_id: self.fixed_version_id, assigned_to_id: self.assigned_to_id, parent_issue_id: self.parent_issue_id, custom_fields: self.custom_fields, watcher_user_ids: self.watcher_user_ids, is_private: self.is_private, estimated_hours: self.estimated_hours, notes: Some(String::from_str(value)), private_notes: self.private_notes, uploads: self.uploads }
    }

    /// Sets `private_notes`: is the added comment/note private
    pub fn private_notes(self, value: bool) -> (r: UpdateIssueBuilder)
        ensures
            r.private_notes == Some(value),
            r.id == self.id,
            r.project_id == self.project_id,
            r.tracker_id == self.tracker_id,
            r.status_id == self.status_id,
            r.priority_id == self.priority_id,
            r.subject == self.subject,
            r.description == self.description,
            r.category_id == self.category_id,
            r.fixed_version_id == self.fixed_version_id,
            r.assigned_to_id == self.assigned_to_id,
            r.parent_issue_id == self.parent_issue_id,
            r.custom_fields == self.custom_fields,
            r.watcher_user_ids == self.watcher_user_ids,
            r.is_private == self.is_private,
            r.estimated_hours == self.estimated_hours,
            r.notes == self.notes,
            r.uploads == self.uploads,
    {
        UpdateIssueBuilder { id: self.id, project_id: self.project_id, tracker_id: self.tracker_id, status_id: self.status_id, priority_id: self.priority_id, subject: self.subject, description: self.description, category_id: self.category_id, fixed_version_id: self.fixed_version_id, assigned_to_id: self.assigned_to_id, parent_issue_id: self.parent_issue_id, custom_fields: self.custom_fields, watcher_user_ids: self.watcher_user_ids, is_private: self.is_private, estimated_hours: self.estimated_hours, notes: self.notes, private_notes: Some(value), uploads: self.uploads }
    }

    /// Sets `uploads`: attachments (files)
    pub fn uploads(self, value: Vec<UploadedAttachment>) -> (r: UpdateIssueBuilder)
        ensures
            r.uploads == Some(value),
            r.id == self.id,
            r.project_id == self.project_id,
            r.tracker_id == self.tracker_id,
            r.status_id == self.status_id,
            r.priority_id == self.priority_id,
            r.subject == self.subject,
            r.description == self.description,
            r.category_id == self.category_id,
            r.fixed_version_id == self.fixed_version_id,
            r.assigned_to_id == self.assigned_to_id,
            r.parent_issue_id == self.parent_issue_id,
            r.custom_fields == self.custom_fields,
            r.watcher_user_ids == self.watcher_user_ids,
            r.is_private == self.is_private,
            r.estimated_hours == self.estimated_hours,
            r.notes == self.notes,
            r.private_notes == self.private_notes,
    {
        UpdateIssueBuilder { id: self.id, project_id: self.project_id, tracker_id: self.tracker_id, status_id: self.status_id, priority_id: self.priority_id, subject: self.subject, description: self.description, category_id: self.category_id, fixed_version_id: self.fixed_version_id, assigned_to_id: self.assigned_to_id, parent_issue_id: self.parent_issue_id, custom_fields: self.custom_fields, watcher_user_ids: self.watcher_user_ids, is_private: self.is_private, estimated_hours: self.estimated_hours, notes: self.notes, private_notes: self.private_notes, uploads: Some(value) }
    }

    /// The first required field that has not been set, if any.
    pub open spec fn missing_field(&self) -> Option<Seq<char>> {
        if self.id is None {
            Some("id"@)
        } else {
            None
        }
    }

    /// Builds the endpoint; fails on the first required field that has not been set.
    pub fn build(self) -> (r: Result<UpdateIssue, BuilderError>)
        ensures
            match r {
                Ok(x) => self.missing_field() is None && x == (UpdateIssue { id: self.id->0, project_id: self.project_id, tracker_id: self.tracker_id, status_id: self.status_id, priority_id: self.priority_id, subject: self.subject, description: self.description, category_id: self.category_id, fixed_version_id: self.fixed_version_id, assigned_to_id: self.assigned_to_id, parent_issue_id: self.parent_issue_id, custom_fields: self.custom_fields, watcher_user_ids: self.watcher_user_ids, is_private: self.is_private, estimated_hours: self.estimated_hours, notes: self.notes, private_notes: self.private_notes, uploads: self.uploads }),
                Err(BuilderError::UninitializedField(n)) => self.missing_field() == Some(n@),
                Err(_) => false,
            },
    {
        let id = match self.id {
            Some(v) => v,
            None => {
                return Err(BuilderError::UninitializedField("id"));
            },
        };
        Ok(UpdateIssue { id, project_id: self.project_id, tracker_id: self.tracker_id, status_id: self.status_id, priority_id: self.priority_id, subject: self.subject, description: self.description, category_id: self.category_id, fixed_version_id: self.fixed_version_id, assigned_to_id: self.assigned_to_id, parent_issue_id: self.parent_issue_id, custom_fields: self.custom_fields, watcher_user_ids: self.watcher_user_ids, is_private: self.is_private, estimated_hours: self.estimated_hours, notes: self.notes, private_notes: self.private_notes, uploads: self.uploads })
    }
}

impl Endpoint for UpdateIssue {
    open spec fn method_spec(&self) -> HttpMethod {
        HttpMethod::Put
    }

    open spec fn endpoint_spec(&self) -> Seq<char> {
        "issues/"@ + decimal(self.id as nat) + ".json"@
    }

    open spec fn parameters_spec(&self) -> Seq<(Seq<char>, Seq<char>)> {
        Seq::empty()
    }

    open spec fn body_spec(&self) -> Option<BodySpec> {
        let inner = {
            let m = Seq::<(Seq<char>, JsonView)>::empty();
            let m = member_opt(m, "project_id"@, self.project_id);
            let m = member_opt(m, "tracker_id"@, self.tracker_id);
            let m = member_opt(m, "status_id"@, self.status_id);
            let m = member_opt(m, "priority_id"@, self.priority_id);
            let m = member_opt(m, "subject"@, self.subject);
            let m = member_opt(m, "description"@, self.description);
            let m = member_opt(m, "category_id"@, self.category_id);
            let m = member_opt(m, "fixed_version_id"@, self.fixed_version_id);
            let m = member_opt(m, "assigned_to_id"@, self.assigned_to_id);
            let m = member_opt(m, "parent_issue_id"@, self.parent_issue_id);
            let m = member_opt(m, "custom_fields"@, self.custom_fields);
            let m = member_opt(m, "watcher_user_ids"@, self.watcher_user_ids);
            let m = member_opt(m, "is_private"@, self.is_private);
            let m = member_opt(m, "estimated_hours"@, self.estimated_hours);
            let m = member_opt(m, "notes"@, self.notes);
            let m = member_opt(m, "private_notes"@, self.private_notes);
            let m = member_opt(m, "uploads"@, self.uploads);
            m
        };
        Some(BodySpec::Json(JsonView::Object(seq![("issue"@, JsonView::Object(inner))])))
    }

    fn method(&self) -> (r: HttpMethod) {
        HttpMethod::Put
    }

    fn endpoint(&self) -> (r: String) {
        let mut s = String::new();
        s.append("issues/");
        push_decimal(&mut s, self.id);
        s.append(".json");
        assert(s@ =~= self.endpoint_spec());
        s
    }

    fn check_writable(&self) -> (r: bool) {
        true
    }

    fn parameters(&self) -> (r: QueryParams) {
        let mut p = QueryParams::new();
        p
    }

    fn body(&self) -> (r: Result<Option<RequestBody>, Error>) {
        let mut b = ObjectBuilder::new();
        b.insert_opt("project_id", &self.project_id);
        b.insert_opt("tracker_id", &self.tracker_id);
        b.insert_opt("status_id", &self.status_id);
        b.insert_opt("priority_id", &self.priority_id);
        b.insert_opt("subject", &self.subject);
        b.insert_opt("description", &self.description);
        b.insert_opt("category_id", &self.category_id);
        b.insert_opt("fixed_version_id", &self.fixed_version_id);
        b.insert_opt("assigned_to_id", &self.assigned_to_id);
        b.insert_opt("parent_issue_id", &self.parent_issue_id);
        b.insert_opt("custom_fields", &self.custom_fields);
        b.insert_opt("watcher_user_ids", &self.watcher_user_ids);
        b.insert_opt("is_private", &self.is_private);
        b.insert_opt("estimated_hours", &self.estimated_hours);
        b.insert_opt("notes", &self.notes);
        b.insert_opt("private_notes", &self.private_notes);
        b.insert_opt("uploads", &self.uploads);
        let doc = single_member_object("issue", b.build());
        json_body(&doc)
    }
}

/// The endpoint to delete a Redmine issue
#[derive(Debug, Clone)]
pub struct DeleteIssue {
    /// id of the issue to delete
    pub id: u64,
}

/// Builder for [`DeleteIssue`].
#[derive(Debug, Clone)]
pub struct DeleteIssueBuilder {
    /// id of the issue to delete
    pub id: Option<u64>,
}

impl DeleteIssue {
    /// Create a builder for the endpoint.
    pub fn builder() -> (r: DeleteIssueBuilder)
        ensures
            r.id is None,
    {
        DeleteIssueBuilder { id: None }
    }
}

impl DeleteIssueBuilder {
    /// Sets `id`: id of the issue to delete
    pub fn id(self, value: u64) -> (r: DeleteIssueBuilder)
        ensures
            r.id == Some(value),
    {
        DeleteIssueBuilder { id: Some(value) }
    }

    /// The first required field that has not been set, if any.
    pub open spec fn missing_field(&self) -> Option<Seq<char>> {
        if self.id is None {
            Some("id"@)
        } else {
            None
        }
    }

    /// Builds the endpoint; fails on the first required field that has not been set.
    pub fn build(self) -> (r: Result<DeleteIssue, BuilderError>)
        ensures
            match r {
                Ok(x) => self.missing_field() is None && x == (DeleteIssue { id: self.id->0 }),
                Err(BuilderError::UninitializedField(n)) => self.missing_field() == Some(n@),
                Err(_) => false,
            },
    {
        let id = match self.id {
            Some(v) => v,
            None => {
                return Err(BuilderError::UninitializedField("id"));
            },
        };
        Ok(DeleteIssue { id })
    }
}

impl Endpoint for DeleteIssue {
    open spec fn method_spec(&self) -> HttpMethod {
        HttpMethod::Delete
    }

    open spec fn endpoint_spec(&self) -> Seq<char> {
        "issues/"@ + decimal(self.id as nat) + ".json"@
    }

    open spec fn parameters_spec(&self) -> Seq<(Seq<char>, Seq<char>)> {
        Seq::empty()
    }

    open spec fn body_spec(&self) -> Option<BodySpec> {
        None
    }

    fn method(&self) -> (r: HttpMethod) {
        HttpMethod::Delete
    }

    fn endpoint(&self) -> (r: String) {
        let mut s = String::new();
        s.append("issues/");
        push_decimal(&mut s, self.id);
        s.append(".json");
        assert(s@ =~= self.endpoint_spec());
        s
    }

    fn check_writable(&self) -> (r: bool) {
        true
    }

    fn parameters(&self) -> (r: QueryParams) {
        let mut p = QueryParams::new();
        p
    }

    fn body(&self) -> (r: Result<Option<RequestBody>, Error>) {
        Ok(None)
    }
}

/// The endpoint to add a Redmine user as a watcher on a Redmine issue
#[derive(Debug, Clone)]
pub struct AddWatcher {
    /// id of the issue to add the watcher to
    pub issue_id: u64,
    /// id of the user to add as a watcher
    pub user_id: u64,
}

/// Builder for [`AddWatcher`].
#[derive(Debug, Clone)]
pub struct AddWatcherBuilder {
    /// id of the issue to add the watcher to
    pub issue_id: Option<u64>,
    /// id of the user to add as a watcher
    pub user_id: Option<u64>,
}

impl AddWatcher {
    /// Create a builder for the endpoint.
    pub fn builder() -> (r: AddWatcherBuilder)
        ensures
            r.issue_id is None,
            r.user_id is None,
    {
        AddWatcherBuilder { issue_id: None, user_id: None }
    }
}

impl AddWatcherBuilder {
    /// Sets `issue_id`: id of the issue to add the watcher to
    pub fn issue_id(self, value: u64) -> (r: AddWatcherBuilder)
        ensures
            r.issue_id == Some(value),
            r.user_id == self.user_id,
    {
        AddWatcherBuilder { issue_id: Some(value), user_id: self.user_id }
    }

    /// Sets `user_id`: id of the user to add as a watcher
    pub fn user_id(self, value: u64) -> (r: AddWatcherBuilder)
        ensures
            r.user_id == Some(value),
            r.issue_id == self.issue_id,
    {
        AddWatcherBuilder { issue_id: self.issue_id, user_id: Some(value) }
    }

    /// The first required field that has not been set, if any.
    pub open spec fn missing_field(&self) -> Option<Seq<char>> {
        if self.issue_id is None {
            Some("issue_id"@)
        } else if self.user_id is None {
            Some("user_id"@)
        } else {
            None
        }
    }

    /// Builds the endpoint; fails on the first required field that has not been set.
    pub fn build(self) -> (r: Result<AddWatcher, BuilderError>)
        ensures
            match r {
                Ok(x) => self.missing_field() is None && x == (AddWatcher { issue_id: self.issue_id->0, user_id: self.user_id->0 }),
                Err(BuilderError::UninitializedField(n)) => self.missing_field() == Some(n@),
                Err(_) => false,
            },
    {
        let issue_id = match self.issue_id {
            Some(v) => v,
            None => {
                return Err(BuilderError::UninitializedField("issue_id"));
            },
        };
        let user_id = match self.user_id {
            Some(v) => v,
            None => {
                return Err(BuilderError::UninitializedField("user_id"));
            },
        };
        Ok(AddWatcher { issue_id, user_id })
    }
}

impl Endpoint for AddWatcher {
    open spec fn method_spec(&self) -> HttpMethod {
        HttpMethod::Post
    }

    open spec fn endpoint_spec(&self) -> Seq<char> {
        "issues/"@ + decimal(self.issue_id as nat) + "/watchers.json"@
    }

    open spec fn parameters_spec(&self) -> Seq<(Seq<char>, Seq<char>)> {
        Seq::empty()
    }

    open spec fn body_spec(&self) -> Option<BodySpec> {
        let inner = {
            let m = Seq::<(Seq<char>, JsonView)>::empty();
            let m = m.push(("user_id"@, self.user_id.json()));
            m
        };
        Some(BodySpec::Json(JsonView::Object(inner)))
    }

    fn method(&self) -> (r: HttpMethod) {
        HttpMethod::Post
    }

    fn endpoint(&self) -> (r: String) {
        let mut s = String::new();
        s.append("issues/");
        push_decimal(&mut s, self.issue_id);
        s.append("/watchers.json");
        assert(s@ =~= self.endpoint_spec());
        s
    }

    fn check_writable(&self) -> (r: bool) {
        true
    }

    fn parameters(&self) -> (r: QueryParams) {
        let mut p = QueryParams::new();
        p
    }

    fn body(&self) -> (r: Result<Option<RequestBody>, Error>) {
        let mut b = ObjectBuilder::new();
        b.insert_value("user_id", &self.user_id);
        let doc = b.build();
        json_body(&doc)
    }
}

/// The endpoint to remove a Redmine user from a Redmine issue as a watcher
#[derive(Debug, Clone)]
pub struct RemoveWatcher {
    /// id of the issue to remove the watcher from
    pub issue_id: u64,
    /// id of the user to remove as a watcher
    pub user_id: u64,
}

/// Builder for [`RemoveWatcher`].
#[derive(Debug, Clone)]
pub struct RemoveWatcherBuilder {
    /// id of the issue to remove the watcher from
    pub issue_id: Option<u64>,
    /// id of the user to remove as a watcher
    pub user_id: Option<u64>,
}

impl RemoveWatcher {
    /// Create a builder for the endpoint.
    pub fn builder() -> (r: RemoveWatcherBuilder)
        ensures
            r.issue_id is None,
            r.user_id is None,
    {
        RemoveWatcherBuilder { issue_id: None, user_id: None }
    }
}

impl RemoveWatcherBuilder {
    /// Sets `issue_id`: id of the issue to remove the watcher from
    pub fn issue_id(self, value: u64) -> (r: RemoveWatcherBuilder)
        ensures
            r.issue_id == Some(value),
            r.user_id == self.user_id,
    {
        RemoveWatcherBuilder { issue_id: Some(value), user_id: self.user_id }
    }

    /// Sets `user_id`: id of the user to remove as a watcher
    pub fn user_id(self, value: u64) -> (r: RemoveWatcherBuilder)
        ensures
            r.user_id == Some(value),
            r.issue_id == self.issue_id,
    {
        RemoveWatcherBuilder { issue_id: self.issue_id, user_id: Some(value) }
    }

    /// The first required field that has not been set, if any.
    pub open spec fn missing_field(&self) -> Option<Seq<char>> {
        if self.issue_id is None {
            Some("issue_id"@)
        } else if self.user_id is None {
            Some("user_id"@)
        } else {
            None
        }
    }

    /// Builds the endpoint; fails on the first required field that has not been set.
    pub fn build(self) -> (r: Result<RemoveWatcher, BuilderError>)
        ensures
            match r {
                Ok(x) => self.missing_field() is None && x == (RemoveWatcher { issue_id: self.issue_id->0, user_id: self.user_id->0 }),
                Err(BuilderError::UninitializedField(n)) => self.missing_field() == Some(n@),
                Err(_) => false,
            },
    {
        let issue_id = match self.issue_id {
            Some(v) => v,
            None => {
                return Err(BuilderError::UninitializedField("issue_id"));
            },
        };
        let user_id = match self.user_id {
            Some(v) => v,
            None => {
                return Err(BuilderError::UninitializedField("user_id"));
            },
        };
        Ok(RemoveWatcher { issue_id, user_id })
    }
}

impl Endpoint for RemoveWatcher {
    open spec fn method_spec(&self) -> HttpMethod {
        HttpMethod::Delete
    }

    open spec fn endpoint_spec(&self) -> Seq<char> {
        "issues/"@ + decimal(self.issue_id as nat) + "/watchers/"@ + decimal(self.user_id as nat) + ".json"@
    }

    open spec fn parameters_spec(&self) -> Seq<(Seq<char>, Seq<char>)> {
        Seq::empty()
    }

    open spec fn body_spec(&self) -> Option<BodySpec> {
        None
    }

    fn method(&self) -> (r: HttpMethod) {
        HttpMethod::Delete
    }

    fn endpoint(&self) -> (r: String) {
        let mut s = String::new();
        s.append("issues/");
        push_decimal(&mut s, self.issue_id);
        s.append("/watchers/");
        push_decimal(&mut s, self.user_id);
        s.append(".json");
        assert(s@ =~= self.endpoint_spec());
        s
    }

    fn check_writable(&self) -> (r: bool) {
        true
    }

    fn parameters(&self) -> (r: QueryParams) {
        let mut p = QueryParams::new();
        p
    }

    fn body(&self) -> (r: Result<Option<RequestBody>, Error>) {
        Ok(None)
    }
}

/// The query of [`GetIssue`] sends each parameter that is set under its Redmine
/// name, with the value's text, and nothing else.
pub proof fn lemma_get_issue_parameter_names(x: GetIssue)
    ensures
        x.includes matches Some(v) ==> x.parameters_spec().contains(("include"@, v.param_text())),
        x.parameters_spec().len() == present(x.includes),
{
    broadcast use crate::api::query::lemma_push_opt_contains, crate::api::query::lemma_push_opt_len;
}

/// The body of [`CreateIssue`] holds, under `issue`, each attribute that is set
/// under its Redmine name, with the attribute's document as the value, and
/// nothing else.
pub proof fn lemma_create_issue_body_members(x: CreateIssue)
    ensures
        wrapped_members(x.body_spec()).contains(("project_id"@, x.project_id.json())),
        x.tracker_id matches Some(v) ==> wrapped_members(x.body_spec()).contains(("tracker_id"@, v.json())),
        x.status_id matches Some(v) ==> wrapped_members(x.body_spec()).contains(("status_id"@, v.json())),
        x.priority_id matches Some(v) ==> wrapped_members(x.body_spec()).contains(("priority_id"@, v.json())),
        x.subject matches Some(v) ==> wrapped_members(x.body_spec()).contains(("subject"@, v.json())),
        x.description matches Some(v) ==> wrapped_members(x.body_spec()).contains(("description"@, v.json())),
        x.category_id matches Some(v) ==> wrapped_members(x.body_spec()).contains(("category_id"@, v.json())),
        x.fixed_version_id matches Some(v) ==> wrapped_members(x.body_spec()).contains(("fixed_version_id"@, v.json())),
        x.assigned_to_id matches Some(v) ==> wrapped_members(x.body_spec()).contains(("assigned_to_id"@, v.json())),
        x.parent_issue_id matches Some(v) ==> wrapped_members(x.body_spec()).contains(("parent_issue_id"@, v.json())),
        x.custom_fields matches Some(v) ==> wrapped_members(x.body_spec()).contains(("custom_fields"@, v.json())),
        x.watcher_user_ids matches Some(v) ==> wrapped_members(x.body_spec()).contains(("watcher_user_ids"@, v.json())),
        x.is_private matches Some(v) ==> wrapped_members(x.body_spec()).contains(("is_private"@, v.json())),
        x.estimated_hours matches Some(v) ==> wrapped_members(x.body_spec()).contains(("estimated_hours"@, v.json())),
        x.uploads matches Some(v) ==> wrapped_members(x.body_spec()).contains(("uploads"@, v.json())),
        wrapped_members(x.body_spec()).len() == 1 + present(x.tracker_id) + present(x.status_id) + present(x.priority_id) + present(x.subject) + present(x.description) + present(x.category_id) + present(x.fixed_version_id) + present(x.assigned_to_id) + present(x.parent_issue_id) + present(x.custom_fields) + present(x.watcher_user_ids) + present(x.is_private) + present(x.estimated_hours) + present(x.uploads),
{
    broadcast use crate::api::json::lemma_member_opt_contains, crate::api::json::lemma_member_opt_len,
        crate::api::json::lemma_member_nullable_contains, crate::api::json::lemma_member_nullable_len,
        crate::api::json::lemma_push_member_contains;
}

/// The body of [`UpdateIssue`] holds, under `issue`, each attribute that is set
/// under its Redmine name, with the attribute's document as the value, and
/// nothing else.
pub proof fn lemma_update_issue_body_members(x: UpdateIssue)
    ensures
        x.project_id matches Some(v) ==> wrapped_members(x.body_spec()).contains(("project_id"@, v.json())),
        x.tracker_id matches Some(v) ==> wrapped_members(x.body_spec()).contains(("tracker_id"@, v.json())),
        x.status_id matches Some(v) ==> wrapped_members(x.body_spec()).contains(("status_id"@, v.json())),
        x.priority_id matches Some(v) ==> wrapped_members(x.body_spec()).contains(("priority_id"@, v.json())),
        x.subject matches Some(v) ==> wrapped_members(x.body_spec()).contains(("subject"@, v.json())),
        x.description matches Some(v) ==> wrapped_members(x.body_spec()).contains(("description"@, v.json())),
        x.category_id matches Some(v) ==> wrapped_members(x.body_spec()).contains(("category_id"@, v.json())),
        x.fixed_version_id matches Some(v) ==> wrapped_members(x.body_spec()).contains(("fixed_version_id"@, v.json())),
        x.assigned_to_id matches Some(v) ==> wrapped_members(x.body_spec()).contains(("assigned_to_id"@, v.json())),
        x.parent_issue_id matches Some(v) ==> wrapped_members(x.body_spec()).contains(("parent_issue_id"@, v.json())),
        x.custom_fields matches Some(v) ==> wrapped_members(x.body_spec()).contains(("custom_fields"@, v.json())),
        x.watcher_user_ids matches Some(v) ==> wrapped_members(x.body_spec()).contains(("watcher_user_ids"@, v.json())),
        x.is_private matches Some(v) ==> wrapped_members(x.body_spec()).contains(("is_private"@, v.json())),
        x.estimated_hours matches Some(v) ==> wrapped_members(x.body_spec()).contains(("estimated_hours"@, v.json())),
        x.notes matches Some(v) ==> wrapped_members(x.body_spec()).contains(("notes"@, v.json())),
        x.private_notes matches Some(v) ==> wrapped_members(x.body_spec()).contains(("private_notes"@, v.json())),
        x.uploads matches Some(v) ==> wrapped_members(x.body_spec()).contains(("uploads"@, v.json())),
        wrapped_members(x.body_spec()).len() == 0 + present(x.project_id) + present(x.tracker_id) + present(x.status_id) + present(x.priority_id) + present(x.subject) + present(x.description) + present(x.category_id) + present(x.fixed_version_id) + present(x.assigned_to_id) + present(x.parent_issue_id) + present(x.custom_fields) + present(x.watcher_user_ids) + present(x.is_private) + present(x.estimated_hours) + present(x.notes) + present(x.private_notes) + present(x.uploads),
{
    broadcast use crate::api::json::lemma_member_opt_contains, crate::api::json::lemma_member_opt_len,
        crate::api::json::lemma_member_nullable_contains, crate::api::json::lemma_member_nullable_len,
        crate::api::json::lemma_push_member_contains;
}

/// The body of [`AddWatcher`] holds, in the body, each attribute that is set
/// under its Redmine name, with the attribute's document as the value, and
/// nothing else.
pub proof fn lemma_add_watcher_body_members(x: AddWatcher)
    ensures
        object_members(x.body_spec()).contains(("user_id"@, x.user_id.json())),
        object_members(x.body_spec()).len() == 1,
{
    broadcast use crate::api::json::lemma_member_opt_contains, crate::api::json::lemma_member_opt_len,
        crate::api::json::lemma_member_nullable_contains, crate::api::json::lemma_member_nullable_len,
        crate::api::json::lemma_push_member_contains;
}

/// A list of subprojects is sent as the decimals of the ids joined by commas;
/// excluding them sends each id as `!` followed by its decimal instead, a
/// text that differs from the one selecting them whenever the list is not
/// empty.
pub proof fn lemma_sub_project_filter_id_lists(ids: Vec<u64>)
    ensures
        SubProjectFilter::TheseSubProjects(ids).text() == join(ids@.map_values(|e: u64| decimal(e as nat)), ","@),
        SubProjectFilter::NotTheseSubProjects(ids).text() == join(
            ids@.map_values(|e: u64| "!"@ + decimal(e as nat)),
            ","@,
        ),
        ids@.len() > 0 ==> SubProjectFilter::NotTheseSubProjects(ids).text()[0] == '!',
        ids@.len() > 0 ==> SubProjectFilter::NotTheseSubProjects(ids).text() != SubProjectFilter::TheseSubProjects(ids).text(),
{
    if ids@.len() > 0 {
        lemma_id_list_negation(ids@);
    }
}

/// A list of statuses is sent as the decimals of the ids joined by commas;
/// excluding them sends each id as `!` followed by its decimal instead, a
/// text that differs from the one selecting them whenever the list is not
/// empty.
pub proof fn lemma_status_filter_id_lists(ids: Vec<u64>)
    ensures
        StatusFilter::TheseStatuses(ids).text() == join(ids@.map_values(|e: u64| decimal(e as nat)), ","@),
        StatusFilter::NotTheseStatuses(ids).text() == join(
            ids@.map_values(|e: u64| "!"@ + decimal(e as nat)),
            ","@,
        ),
        ids@.len() > 0 ==> StatusFilter::NotTheseStatuses(ids).text()[0] == '!',
        ids@.len() > 0 ==> StatusFilter::NotTheseStatuses(ids).text() != StatusFilter::TheseStatuses(ids).text(),
{
    if ids@.len() > 0 {
        lemma_id_list_negation(ids@);
    }
}

/// A list of authors is sent as the decimals of the ids joined by commas;
/// excluding them sends each id as `!` followed by its decimal instead, a
/// text that differs from the one selecting them whenever the list is not
/// empty.
pub proof fn lemma_author_filter_id_lists(ids: Vec<u64>)
    ensures
        AuthorFilter::TheseAuthors(ids).text() == join(ids@.map_values(|e: u64| decimal(e as nat)), ","@),
        AuthorFilter::NotTheseAuthors(ids).text() == join(
            ids@.map_values(|e: u64| "!"@ + decimal(e as nat)),
            ","@,
        ),
        ids@.len() > 0 ==> AuthorFilter::NotTheseAuthors(ids).text()[0] == '!',
        ids@.len() > 0 ==> AuthorFilter::NotTheseAuthors(ids).text() != AuthorFilter::TheseAuthors(ids).text(),
{
    if ids@.len() > 0 {
        lemma_id_list_negation(ids@);
    }
}

/// A list of assignees is sent as the decimals of the ids joined by commas;
/// excluding them sends each id as `!` followed by its decimal instead, a
/// text that differs from the one selecting them whenever the list is not
/// empty.
pub proof fn lemma_assignee_filter_id_lists(ids: Vec<u64>)
    ensures
        AssigneeFilter::TheseAssignees(ids).text() == join(ids@.map_values(|e: u64| decimal(e as nat)), ","@),
        AssigneeFilter::NotTheseAssignees(ids).text() == join(
            ids@.map_values(|e: u64| "!"@ + decimal(e as nat)),
            ","@,
        ),
        ids@.len() > 0 ==> AssigneeFilter::NotTheseAssignees(ids).text()[0] == '!',
        ids@.len() > 0 ==> AssigneeFilter::NotTheseAssignees(ids).text() != AssigneeFilter::TheseAssignees(ids).text(),
{
    if ids@.len() > 0 {
        lemma_id_list_negation(ids@);
    }
}

/// The path of [`GetIssue`] names the object by the decimal of its id, and two
/// requests share a path only when they name the same id.
pub proof fn lemma_get_issue_path(x: GetIssue, y: GetIssue)
    ensures
        x.endpoint_spec() == "issues/"@ + decimal(x.id as nat) + ".json"@,
        x.endpoint_spec() == y.endpoint_spec() <==> x.id == y.id,
{
    lemma_id_path_injective("issues/"@, ".json"@, x.id as nat, y.id as nat);
}

/// The path of [`UpdateIssue`] names the object by the decimal of its id, and two
/// requests share a path only when they name the same id.
pub proof fn lemma_update_issue_path(x: UpdateIssue, y: UpdateIssue)
    ensures
        x.endpoint_spec() == "issues/"@ + decimal(x.id as nat) + ".json"@,
        x.endpoint_spec() == y.endpoint_spec() <==> x.id == y.id,
{
    lemma_id_path_injective("issues/"@, ".json"@, x.id as nat, y.id as nat);
}

/// The path of [`DeleteIssue`] names the object by the decimal of its id, and two
/// requests share a path only when they name the same id.
pub proof fn lemma_delete_issue_path(x: DeleteIssue, y: DeleteIssue)
    ensures
        x.endpoint_spec() == "issues/"@ + decimal(x.id as nat) + ".json"@,
        x.endpoint_spec() == y.endpoint_spec() <==> x.id == y.id,
{
    lemma_id_path_injective("issues/"@, ".json"@, x.id as nat, y.id as nat);
}

/// The path of [`AddWatcher`] names the object by the decimal of its id, and two
/// requests share a path only when they name the same id.
pub proof fn lemma_add_watcher_path(x: AddWatcher, y: AddWatcher)
    ensures
        x.endpoint_spec() == "issues/"@ + decimal(x.issue_id as nat) + "/watchers.json"@,
        x.endpoint_spec() == y.endpoint_spec() <==> x.issue_id == y.issue_id,
{
    lemma_id_path_injective("issues/"@, "/watchers.json"@, x.issue_id as nat, y.issue_id as nat);
}

/// Filters of [`StatusFilter`] that differ only in what they compare, or that
/// take no value, are sent as different texts.
pub proof fn lemma_status_filter_texts_differ()
    ensures
        StatusFilter::Open.text() != StatusFilter::Closed.text(),
        StatusFilter::Open.text() != StatusFilter::All.text(),
        StatusFilter::Closed.text() != StatusFilter::All.text(),
{
    reveal_strlit("*");
    reveal_strlit("closed");
    reveal_strlit("open");
    assert("open"@.len() != "closed"@.len());
    assert("open"@.len() != "*"@.len());
    assert("closed"@.len() != "*"@.len());
}

/// Filters of [`AuthorFilter`] that differ only in what they compare, or that
/// take no value, are sent as different texts.
pub proof fn lemma_author_filter_texts_differ()
    ensures
        AuthorFilter::AnyAuthor.text() != AuthorFilter::Me.text(),
        AuthorFilter::AnyAuthor.text() != AuthorFilter::NotMe.text(),
        AuthorFilter::Me.text() != AuthorFilter::NotMe.text(),
{
    reveal_strlit("!me");
    reveal_strlit("*");
    reveal_strlit("me");
    assert("*"@.len() != "me"@.len());
    assert("*"@.len() != "!me"@.len());
    assert("me"@.len() != "!me"@.len());
}

/// Filters of [`AssigneeFilter`] that differ only in what they compare, or that
/// take no value, are sent as different texts.
pub proof fn lemma_assignee_filter_texts_differ()
    ensures
        AssigneeFilter::AnyAssignee.text() != AssigneeFilter::Me.text(),
        AssigneeFilter::AnyAssignee.text() != AssigneeFilter::NotMe.text(),
        AssigneeFilter::AnyAssignee.text() != AssigneeFilter::NoAssignee.text(),
        AssigneeFilter::Me.text() != AssigneeFilter::NotMe.text(),
        AssigneeFilter::Me.text() != AssigneeFilter::NoAssignee.text(),
        AssigneeFilter::NotMe.text() != AssigneeFilter::NoAssignee.text(),
{
    reveal_strlit("!*");
    reveal_strlit("!me");
    reveal_strlit("*");
    reveal_strlit("me");
    assert("*"@.len() != "me"@.len());
    assert("*"@.len() != "!me"@.len());
    assert("*"@.len() != "!*"@.len());
    assert("me"@.len() != "!me"@.len());
    assert("me"@[0] != "!*"@[0]);
    assert("!me"@.len() != "!*"@.len());
}

/// Different values of [`IssueListInclude`] are sent as different texts.
pub proof fn lemma_issue_list_include_text_injective(x: IssueListInclude, y: IssueListInclude)
    ensures
        x.text() == y.text() ==> x == y,
{
    reveal_strlit("attachments");
    reveal_strlit("relations");
    assert("attachments"@.len() != "relations"@.len());
}

/// Filters of [`ComparableFilter`] that differ only in what they compare, or that
/// take no value, are sent as different texts.
pub proof fn lemma_comparable_filter_texts_differ<V: ComparableFilterValue>(v0: V)
    ensures
        ComparableFilter::LessThan(v0).text() != ComparableFilter::GreaterThan(v0).text(),
        ComparableFilter::LessThan(v0).text() != ComparableFilter::GreaterThanOrEqual(v0).text(),
        ComparableFilter::LessThanOrEqual(v0).text() != ComparableFilter::GreaterThan(v0).text(),
        ComparableFilter::LessThanOrEqual(v0).text() != ComparableFilter::GreaterThanOrEqual(v0).text(),
{
    reveal_strlit("<");
    reveal_strlit("<=");
    reveal_strlit(">");
    reveal_strlit(">=");
    lemma_differ_at("<"@, ">"@, ComparableFilter::LessThan(v0).text().skip(1), ComparableFilter::GreaterThan(v0).text().skip(1), 0);
    assert(ComparableFilter::LessThan(v0).text() == "<"@ + ComparableFilter::LessThan(v0).text().skip(1));
    assert(ComparableFilter::GreaterThan(v0).text() == ">"@ + ComparableFilter::GreaterThan(v0).text().skip(1));
    lemma_differ_at("<"@, ">="@, ComparableFilter::LessThan(v0).text().skip(1), ComparableFilter::GreaterThanOrEqual(v0).text().skip(2), 0);
    assert(ComparableFilter::LessThan(v0).text() == "<"@ + ComparableFilter::LessThan(v0).text().skip(1));
    assert(ComparableFilter::GreaterThanOrEqual(v0).text() == ">="@ + ComparableFilter::GreaterThanOrEqual(v0).text().skip(2));
    lemma_differ_at("<="@, ">"@, ComparableFilter::LessThanOrEqual(v0).text().skip(2), ComparableFilter::GreaterThan(v0).text().skip(1), 0);
    assert(ComparableFilter::LessThanOrEqual(v0).text() == "<="@ + ComparableFilter::LessThanOrEqual(v0).text().skip(2));
    assert(ComparableFilter::GreaterThan(v0).text() == ">"@ + ComparableFilter::GreaterThan(v0).text().skip(1));
    lemma_differ_at("<="@, ">="@, ComparableFilter::LessThanOrEqual(v0).text().skip(2), ComparableFilter::GreaterThanOrEqual(v0).text().skip(2), 0);
    assert(ComparableFilter::LessThanOrEqual(v0).text() == "<="@ + ComparableFilter::LessThanOrEqual(v0).text().skip(2));
    assert(ComparableFilter::GreaterThanOrEqual(v0).text() == ">="@ + ComparableFilter::GreaterThanOrEqual(v0).text().skip(2));
}

/// Different values of [`IssueInclude`] are sent as different texts.
pub proof fn lemma_issue_include_text_injective(x: IssueInclude, y: IssueInclude)
    ensures
        x.text() == y.text() ==> x == y,
{
    reveal_strlit("allowed_statuses");
    reveal_strlit("attachments");
    reveal_strlit("changesets");
    reveal_strlit("children");
    reveal_strlit("journals");
    reveal_strlit("relations");
    reveal_strlit("watchers");
    assert("children"@.len() != "attachments"@.len());
    assert("children"@.len() != "relations"@.len());
    assert("children"@.len() != "changesets"@.len());
    assert("children"@[0] != "journals"@[0]);
    assert("children"@[0] != "watchers"@[0]);
    assert("children"@.len() != "allowed_statuses"@.len());
    assert("attachments"@.len() != "relations"@.len());
    assert("attachments"@.len() != "changesets"@.len());
    assert("attachments"@.len() != "journals"@.len());
    assert("attachments"@.len() != "watchers"@.len());
    assert("attachments"@.len() != "allowed_statuses"@.len());
    assert("relations"@.len() != "changesets"@.len());
    assert("relations"@.len() != "journals"@.len());
    assert("relations"@.len() != "watchers"@.len());
    assert("relations"@.len() != "allowed_statuses"@.len());
    assert("changesets"@.len() != "journals"@.len());
    assert("changesets"@.len() != "watchers"@.len());
    assert("changesets"@.len() != "allowed_statuses"@.len());
    assert("journals"@[0] != "watchers"@[0]);
    assert("journals"@.len() != "allowed_statuses"@.len());
    assert("watchers"@.len() != "allowed_statuses"@.len());
}

/// The requests of this module use the HTTP method that fits what they do:
/// `GET` to read, `POST` to create or add, `PUT` to change and `DELETE` to
/// remove.
pub proof fn lemma_issues_methods(list_issues: ListIssues, get_issue: GetIssue, create_issue: CreateIssue, update_issue: UpdateIssue, delete_issue: DeleteIssue, add_watcher: AddWatcher, remove_watcher: RemoveWatcher)
    ensures
        list_issues.method_spec() == HttpMethod::Get,
        get_issue.method_spec() == HttpMethod::Get,
        create_issue.method_spec() == HttpMethod::Post,
        update_issue.method_spec() == HttpMethod::Put,
        delete_issue.method_spec() == HttpMethod::Delete,
        add_watcher.method_spec() == HttpMethod::Post,
        remove_watcher.method_spec() == HttpMethod::Delete,
{
}

/// Two lists of subprojects are sent as the same text only when they are the
/// same list, both selected or both excluded; a selection and an exclusion
/// are sent alike only when both lists are empty.
pub proof fn lemma_sub_project_filter_id_lists_injective(a: Vec<u64>, b: Vec<u64>)
    ensures
        SubProjectFilter::TheseSubProjects(a).text() == SubProjectFilter::TheseSubProjects(b).text() ==> a@ == b@,
        SubProjectFilter::NotTheseSubProjects(a).text() == SubProjectFilter::NotTheseSubProjects(b).text() ==> a@ == b@,
        SubProjectFilter::TheseSubProjects(a).text() == SubProjectFilter::NotTheseSubProjects(b).text() ==> a@.len() == 0 && b@.len() == 0,
{
    if SubProjectFilter::TheseSubProjects(a).text() == SubProjectFilter::TheseSubProjects(b).text() {
        lemma_id_list_injective(a@, b@, false);
    }
    if SubProjectFilter::NotTheseSubProjects(a).text() == SubProjectFilter::NotTheseSubProjects(b).text() {
        lemma_id_list_injective(a@, b@, true);
    }
    if a@.len() > 0 {
        lemma_id_list_negation(a@);
    }
    if b@.len() > 0 {
        lemma_id_list_negation(b@);
    }
}

/// Two lists of statuses are sent as the same text only when they are the
/// same list, both selected or both excluded; a selection and an exclusion
/// are sent alike only when both lists are empty.
pub proof fn lemma_status_filter_id_lists_injective(a: Vec<u64>, b: Vec<u64>)
    ensures
        StatusFilter::TheseStatuses(a).text() == StatusFilter::TheseStatuses(b).text() ==> a@ == b@,
        StatusFilter::NotTheseStatuses(a).text() == StatusFilter::NotTheseStatuses(b).text() ==> a@ == b@,
        StatusFilter::TheseStatuses(a).text() == StatusFilter::NotTheseStatuses(b).text() ==> a@.len() == 0 && b@.len() == 0,
{
    if StatusFilter::TheseStatuses(a).text() == StatusFilter::TheseStatuses(b).text() {
        lemma_id_list_injective(a@, b@, false);
    }
    if StatusFilter::NotTheseStatuses(a).text() == StatusFilter::NotTheseStatuses(b).text() {
        lemma_id_list_injective(a@, b@, true);
    }
    if a@.len() > 0 {
        lemma_id_list_negation(a@);
    }
    if b@.len() > 0 {
        lemma_id_list_negation(b@);
    }
}

/// Two lists of authors are sent as the same text only when they are the
/// same list, both selected or both excluded; a selection and an exclusion
/// are sent alike only when both lists are empty.
pub proof fn lemma_author_filter_id_lists_injective(a: Vec<u64>, b: Vec<u64>)
    ensures
        AuthorFilter::TheseAuthors(a).text() == AuthorFilter::TheseAuthors(b).text() ==> a@ == b@,
        AuthorFilter::NotTheseAuthors(a).text() == AuthorFilter::NotTheseAuthors(b).text() ==> a@ == b@,
        AuthorFilter::TheseAuthors(a).text() == AuthorFilter::NotTheseAuthors(b).text() ==> a@.len() == 0 && b@.len() == 0,
{
    if AuthorFilter::TheseAuthors(a).text() == AuthorFilter::TheseAuthors(b).text() {
        lemma_id_list_injective(a@, b@, false);
    }
    if AuthorFilter::NotTheseAuthors(a).text() == AuthorFilter::NotTheseAuthors(b).text() {
        lemma_id_list_injective(a@, b@, true);
    }
    if a@.len() > 0 {
        lemma_id_list_negation(a@);
    }
    if b@.len() > 0 {
        lemma_id_list_negation(b@);
    }
}

/// Two lists of assignees are sent as the same text only when they are the
/// same list, both selected or both excluded; a selection and an exclusion
/// are sent alike only when both lists are empty.
pub proof fn lemma_assignee_filter_id_lists_injective(a: Vec<u64>, b: Vec<u64>)
    ensures
        AssigneeFilter::TheseAssignees(a).text() == AssigneeFilter::TheseAssignees(b).text() ==> a@ == b@,
        AssigneeFilter::NotTheseAssignees(a).text() == AssigneeFilter::NotTheseAssignees(b).text() ==> a@ == b@,
        AssigneeFilter::TheseAssignees(a).text() == AssigneeFilter::NotTheseAssignees(b).text() ==> a@.len() == 0 && b@.len() == 0,
{
    if AssigneeFilter::TheseAssignees(a).text() == AssigneeFilter::TheseAssignees(b).text() {
        lemma_id_list_injective(a@, b@, false);
    }
    if AssigneeFilter::NotTheseAssignees(a).text() == AssigneeFilter::NotTheseAssignees(b).text() {
        lemma_id_list_injective(a@, b@, true);
    }
    if a@.len() > 0 {
        lemma_id_list_negation(a@);
    }
    if b@.len() > 0 {
        lemma_id_list_negation(b@);
    }
}

/// The requests of this module that address the same collection, or the
/// same object, use the same path: listing and creating share the
/// collection's path, and reading, changing and removing an object share
/// the object's path.
pub proof fn lemma_issues_shared_paths(list_issues: ListIssues, create_issue: CreateIssue, get_issue: GetIssue, update_issue: UpdateIssue, delete_issue: DeleteIssue)
    ensures
        list_issues.endpoint_spec() == create_issue.endpoint_spec(),
        get_issue.id == update_issue.id ==> get_issue.endpoint_spec() == update_issue.endpoint_spec(),
        get_issue.id == delete_issue.id ==> get_issue.endpoint_spec() == delete_issue.endpoint_spec(),
{
}

/// The page of [`ListIssues`] holds its values under the name of the
/// collection that ends the request's path.
pub proof fn lemma_list_issues_wrapper_key(x: ListIssues)
    ensures
        x.endpoint_spec().len() >= x.wrapper_key_spec().len() + 5,
        x.endpoint_spec().subrange(x.endpoint_spec().len() - x.wrapper_key_spec().len() - 5, x.endpoint_spec().len() as int) == x.wrapper_key_spec() + ".json"@,
{
    reveal_strlit(".json");
    reveal_strlit("issues");
    reveal_strlit("issues.json");
    assert(x.endpoint_spec().subrange(x.endpoint_spec().len() - x.wrapper_key_spec().len() - 5, x.endpoint_spec().len() as int) =~= x.wrapper_key_spec() + ".json"@);
}

/// The document of an uploaded attachment holds its token as `token`, its
/// file name as `filename`, its content type as `content_type`, its
/// description as `description` when set, and nothing else.
pub proof fn lemma_uploaded_attachment_members(x: UploadedAttachment)
    ensures
        x.json() is Object,
        x.json()->Object_0.contains(("token"@, JsonView::Str(x.token@))),
        x.json()->Object_0.contains(("filename"@, JsonView::Str(x.filename@))),
        x.description matches Some(d) ==> x.json()->Object_0.contains(("description"@, JsonView::Str(d@))),
        x.json()->Object_0.contains(("content_type"@, JsonView::Str(x.content_type@))),
        x.json()->Object_0.len() == 3 + present(x.description),
{
    broadcast use crate::api::json::lemma_member_opt_contains, crate::api::json::lemma_member_opt_len,
        crate::api::json::lemma_member_nullable_contains, crate::api::json::lemma_member_nullable_len,
        crate::api::json::lemma_push_member_contains;
}

} // verus!
