//! Enumerations Rest API Endpoint definitions
//!
//! [Redmine Documentation](https://www.redmine.org/projects/redmine/wiki/Rest_Enumerations)
use vstd::prelude::*;
use vstd::string::StringExecFns;
use crate::Error;
use crate::api::endpoint::{
    BodySpec, BuilderError, Endpoint, HttpMethod, NoPagination, Pageable, RequestBody,
    ReturnsJsonResponse, json_body,
};
use crate::api::json::{
    JsonValue, JsonView, ObjectBuilder, ToJson, member_nullable, member_opt, single_member_object,
};
use crate::api::query::{ParamValue, QueryParams, opt_param_ok, push_opt_spec};
use crate::api::text::{decimal, push_decimal};

verus! {

/// The endpoint for all issue priorities
#[derive(Debug, Clone)]
pub struct ListIssuePriorities {
}

/// Builder for [`ListIssuePriorities`].
#[derive(Debug, Clone)]
pub struct ListIssuePrioritiesBuilder {
}

impl ListIssuePriorities {
    /// Create a builder for the endpoint.
    pub fn builder() -> (r: ListIssuePrioritiesBuilder)
        ensures
    {
        ListIssuePrioritiesBuilder {}
    }
}

impl ListIssuePrioritiesBuilder {
    /// The first required field that has not been set, if any.
    pub open spec fn missing_field(&self) -> Option<Seq<char>> {
        None
    }

    /// Builds the endpoint; fails on the first required field that has not been set.
    pub fn build(self) -> (r: Result<ListIssuePriorities, BuilderError>)
        ensures
            match r {
                Ok(x) => self.missing_field() is None && x == (ListIssuePriorities {  }),
                Err(BuilderError::UninitializedField(n)) => self.missing_field() == Some(n@),
                Err(_) => false,
            },
    {
        Ok(ListIssuePriorities {})
    }
}

impl ReturnsJsonResponse for ListIssuePriorities {}

impl NoPagination for ListIssuePriorities {}

impl Endpoint for ListIssuePriorities {
    open spec fn method_spec(&self) -> HttpMethod {
        HttpMethod::Get
    }

    open spec fn endpoint_spec(&self) -> Seq<char> {
        "enumerations/issue_priorities.json"@
    }

    open spec fn parameters_spec(&self) -> Seq<(Seq<char>, Seq<char>)> {
        Seq::empty()
    }

    open spec fn body_spec(&self) -> Option<BodySpec> {
        None
    }

    fn method(&self) -> (r: HttpMethod) {
        HttpMethod::Get
    }

    fn endpoint(&self) -> (r: String) {
        String::from_str("enumerations/issue_priorities.json")
    }

    fn check_writable(&self) -> (r: bool) {
        true
    }

    fn parameters(&self) -> (r: QueryParams) {
        let mut p = QueryParams::new();
        p
    }

    fn body(&self) -> (r: Result<Option<RequestBody>, Error>) {
        Ok(None)
    }
}

/// The endpoint for all time entry activities
#[derive(Debug, Clone)]
pub struct ListTimeEntryActivities {
}

/// Builder for [`ListTimeEntryActivities`].
#[derive(Debug, Clone)]
pub struct ListTimeEntryActivitiesBuilder {
}

impl ListTimeEntryActivities {
    /// Create a builder for the endpoint.
    pub fn builder() -> (r: ListTimeEntryActivitiesBuilder)
        ensures
    {
        ListTimeEntryActivitiesBuilder {}
    }
}

impl ListTimeEntryActivitiesBuilder {
    /// The first required field that has not been set, if any.
    pub open spec fn missing_field(&self) -> Option<Seq<char>> {
        None
    }

    /// Builds the endpoint; fails on the first required field that has not been set.
    pub fn build(self) -> (r: Result<ListTimeEntryActivities, BuilderError>)
        ensures
            match r {
                Ok(x) => self.missing_field() is None && x == (ListTimeEntryActivities {  }),
                Err(BuilderError::UninitializedField(n)) => self.missing_field() == Some(n@),
                Err(_) => false,
            },
    {
        Ok(ListTimeEntryActivities {})
    }
}

impl ReturnsJsonResponse for ListTimeEntryActivities {}

impl NoPagination for ListTimeEntryActivities {}

impl Endpoint for ListTimeEntryActivities {
    open spec fn method_spec(&self) -> HttpMethod {
        HttpMethod::Get
    }

    open spec fn endpoint_spec(&self) -> Seq<char> {
        "enumerations/time_entry_activities.json"@
    }

    open spec fn parameters_spec(&self) -> Seq<(Seq<char>, Seq<char>)> {
        Seq::empty()
    }

    open spec fn body_spec(&self) -> Option<BodySpec> {
        None
    }

    fn method(&self) -> (r: HttpMethod) {
        HttpMethod::Get
    }

    fn endpoint(&self) -> (r: String) {
        String::from_str("enumerations/time_entry_activities.json")
    }

    fn check_writable(&self) -> (r: bool) {
        true
    }

    fn parameters(&self) -> (r: QueryParams) {
        let mut p = QueryParams::new();
        p
    }

    fn body(&self) -> (r: Result<Option<RequestBody>, Error>) {
        Ok(None)
    }
}

/// The endpoint for all document categories
#[derive(Debug, Clone)]
pub struct ListDocumentCategories {
}

/// Builder for [`ListDocumentCategories`].
#[derive(Debug, Clone)]
pub struct ListDocumentCategoriesBuilder {
}

impl ListDocumentCategories {
    /// Create a builder for the endpoint.
    pub fn builder() -> (r: ListDocumentCategoriesBuilder)
        ensures
    {
        ListDocumentCategoriesBuilder {}
    }
}

impl ListDocumentCategoriesBuilder {
    /// The first required field that has not been set, if any.
    pub open spec fn missing_field(&self) -> Option<Seq<char>> {
        None
    }

    /// Builds the endpoint; fails on the first required field that has not been set.
    pub fn build(self) -> (r: Result<ListDocumentCategories, BuilderError>)
        ensures
            match r {
                Ok(x) => self.missing_field() is None && x == (ListDocumentCategories {  }),
                Err(BuilderError::UninitializedField(n)) => self.missing_field() == Some(n@),
                Err(_) => false,
            },
    {
        Ok(ListDocumentCategories {})
    }
}

impl ReturnsJsonResponse for ListDocumentCategories {}

impl NoPagination for ListDocumentCategories {}

impl Endpoint for ListDocumentCategories {
    open spec fn method_spec(&self) -> HttpMethod {
        HttpMethod::Get
    }

    open spec fn endpoint_spec(&self) -> Seq<char> {
        "enumerations/document_categories.json"@
    }

    open spec fn parameters_spec(&self) -> Seq<(Seq<char>, Seq<char>)> {
        Seq::empty()
    }

    open spec fn body_spec(&self) -> Option<BodySpec> {
        None
    }

    fn method(&self) -> (r: HttpMethod) {
        HttpMethod::Get
    }

    fn endpoint(&self) -> (r: String) {
        String::from_str("enumerations/document_categories.json")
    }

    fn check_writable(&self) -> (r: bool) {
        true
    }

    fn parameters(&self) -> (r: QueryParams) {
        let mut p = QueryParams::new();
        p
    }

    fn body(&self) -> (r: Result<Option<RequestBody>, Error>) {
        Ok(None)
    }
}

/// The requests of this module use the HTTP method that fits what they do:
/// `GET` to read, `POST` to create or add, `PUT` to change and `DELETE` to
/// remove.
pub proof fn lemma_enumerations_methods(list_issue_priorities: ListIssuePriorities, list_time_entry_activities: ListTimeEntryActivities, list_document_categories: ListDocumentCategories)
    ensures
        list_issue_priorities.method_spec() == HttpMethod::Get,
        list_time_entry_activities.method_spec() == HttpMethod::Get,
        list_document_categories.method_spec() == HttpMethod::Get,
{
}

} // verus!
