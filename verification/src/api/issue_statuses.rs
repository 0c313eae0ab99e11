//! Issue Statuses Rest API Endpoint definitions
//!
//! [Redmine Documentation](https://www.redmine.org/projects/redmine/wiki/Rest_IssueStatuses)
use vstd::prelude::*;
use vstd::string::StringExecFns;
use crate::Error;
use crate::api::endpoint::{
    BodySpec, BuilderError, Endpoint, HttpMethod, NoPagination, Pageable, RequestBody,
    ReturnsJsonResponse, json_body,
};
use crate::api::json::{
    JsonValue, JsonView, ObjectBuilder, ToJson, member_nullable, member_opt, single_member_object,
};
use crate::api::query::{ParamValue, QueryParams, opt_param_ok, push_opt_spec};
use crate::api::text::{decimal, push_decimal};

verus! {

/// The endpoint for all issue statuses
#[derive(Debug, Clone)]
pub struct ListIssueStatuses {
}

/// Builder for [`ListIssueStatuses`].
#[derive(Debug, Clone)]
pub struct ListIssueStatusesBuilder {
}

impl ListIssueStatuses {
    /// Create a builder for the endpoint.
    pub fn builder() -> (r: ListIssueStatusesBuilder)
        ensures
    {
        ListIssueStatusesBuilder {}
    }
}

impl ListIssueStatusesBuilder {
    /// The first required field that has not been set, if any.
    pub open spec fn missing_field(&self) -> Option<Seq<char>> {
        None
    }

    /// Builds the endpoint; fails on the first required field that has not been set.
    pub fn build(self) -> (r: Result<ListIssueStatuses, BuilderError>)
        ensures
            match r {
                Ok(x) => self.missing_field() is None && x == (ListIssueStatuses {  }),
                Err(BuilderError::UninitializedField(n)) => self.missing_field() == Some(n@),
                Err(_) => false,
            },
    {
        Ok(ListIssueStatuses {})
    }
}

impl ReturnsJsonResponse for ListIssueStatuses {}

impl NoPagination for ListIssueStatuses {}

impl Endpoint for ListIssueStatuses {
    open spec fn method_spec(&self) -> HttpMethod {
        HttpMethod::Get
    }

    open spec fn endpoint_spec(&self) -> Seq<char> {
        "issue_statuses.json"@
    }

    open spec fn parameters_spec(&self) -> Seq<(Seq<char>, Seq<char>)> {
        Seq::empty()
    }

    open spec fn body_spec(&self) -> Option<BodySpec> {
        None
    }

    fn method(&self) -> (r: HttpMethod) {
        HttpMethod::Get
    }

    fn endpoint(&self) -> (r: String) {
        String::from_str("issue_statuses.json")
    }

    fn check_writable(&self) -> (r: bool) {
        true
    }

    fn parameters(&self) -> (r: QueryParams) {
        let mut p = QueryParams::new();
        p
    }

    fn body(&self) -> (r: Result<Option<RequestBody>, Error>) {
        Ok(None)
    }
}

/// The requests of this module use the HTTP method that fits what they do:
/// `GET` to read, `POST` to create or add, `PUT` to change and `DELETE` to
/// remove.
pub proof fn lemma_issue_statuses_methods(list_issue_statuses: ListIssueStatuses)
    ensures
        list_issue_statuses.method_spec() == HttpMethod::Get,
{
}

} // verus!
