//! Roles Rest API Endpoint definitions
//!
//! [Redmine Documentation](https://www.redmine.org/projects/redmine/wiki/Rest_Roles)
use vstd::prelude::*;
use vstd::string::StringExecFns;
use crate::Error;
use crate::api::endpoint::{
    BodySpec, BuilderError, Endpoint, HttpMethod, NoPagination, Pageable, RequestBody,
    ReturnsJsonResponse, json_body,
};
use crate::api::json::{
    JsonValue, JsonView, ObjectBuilder, ToJson, member_nullable, member_opt, single_member_object,
};
use crate::api::query::{ParamValue, QueryParams, opt_param_ok, push_opt_spec};
use crate::api::text::{decimal, push_decimal};

use crate::api::query::present;
use crate::api::text::{lemma_id_path_injective};
verus! {

/// The endpoint for all roles
#[derive(Debug, Clone)]
pub struct ListRoles {
    /// Filter for givable roles
    pub givable: Option<bool>,
}

/// Builder for [`ListRoles`].
#[derive(Debug, Clone)]
pub struct ListRolesBuilder {
    /// Filter for givable roles
    pub givable: Option<bool>,
}

impl ListRoles {
    /// Create a builder for the endpoint.
    pub fn builder() -> (r: ListRolesBuilder)
        ensures
            r.givable is None,
    {
        ListRolesBuilder { givable: None }
    }
}

impl ListRolesBuilder {
    /// Sets `givable`: filter for givable roles
    pub fn givable(self, value: bool) -> (r: ListRolesBuilder)
        ensures
            r.givable == Some(value),
    {
        ListRolesBuilder { givable: Some(value) }
    }

    /// The first required field that has not been set, if any.
    pub open spec fn missing_field(&self) -> Option<Seq<char>> {
        None
    }

    /// Builds the endpoint; fails on the first required field that has not been set.
    pub fn build(self) -> (r: Result<ListRoles, BuilderError>)
        ensures
            match r {
                Ok(x) => self.missing_field() is None && x == (ListRoles { givable: self.givable }),
                Err(BuilderError::UninitializedField(n)) => self.missing_field() == Some(n@),
                Err(_) => false,
            },
    {
        Ok(ListRoles { givable: self.givable })
    }
}

impl ReturnsJsonResponse for ListRoles {}

impl NoPagination for ListRoles {}

impl Endpoint for ListRoles {
    open spec fn method_spec(&self) -> HttpMethod {
        HttpMethod::Get
    }

    open spec fn endpoint_spec(&self) -> Seq<char> {
        "roles.json"@
    }

    open spec fn parameters_spec(&self) -> Seq<(Seq<char>, Seq<char>)> {
        let p = Seq::<(Seq<char>, Seq<char>)>::empty();
        let p = push_opt_spec(p, "givable"@, self.givable);
        p
    }

    open spec fn body_spec(&self) -> Option<BodySpec> {
        None
    }

    fn method(&self) -> (r: HttpMethod) {
        HttpMethod::Get
    }

    fn endpoint(&self) -> (r: String) {
        String::from_str("roles.json")
    }

    fn check_writable(&self) -> (r: bool) {
        true
    }

    fn parameters(&self) -> (r: QueryParams) {
        let mut p = QueryParams::new();
        p.push_opt("givable", &self.givable);
        p
    }

    fn body(&self) -> (r: Result<Option<RequestBody>, Error>) {
        Ok(None)
    }
}

/// The endpoint for a specific role
#[derive(Debug, Clone)]
pub struct GetRole {
    /// the id of the role to retrieve
    pub id: u64,
}

/// Builder for [`GetRole`].
#[derive(Debug, Clone)]
pub struct GetRoleBuilder {
    /// the id of the role to retrieve
    pub id: Option<u64>,
}

impl GetRole {
    /// Create a builder for the endpoint.
    pub fn builder() -> (r: GetRoleBuilder)
        ensures
            r.id is None,
    {
        GetRoleBuilder { id: None }
    }
}

impl GetRoleBuilder {
    /// Sets `id`: the id of the role to retrieve
    pub fn id(self, value: u64) -> (r: GetRoleBuilder)
        ensures
            r.id == Some(value),
    {
        GetRoleBuilder { id: Some(value) }
    }

    /// The first required field that has not been set, if any.
    pub open spec fn missing_field(&self) -> Option<Seq<char>> {
        if self.id is None {
            Some("id"@)
        } else {
            None
        }
    }

    /// Builds the endpoint; fails on the first required field that has not been set.
    pub fn build(self) -> (r: Result<GetRole, BuilderError>)
        ensures
            match r {
                Ok(x) => self.missing_field() is None && x == (GetRole { id: self.id->0 }),
                Err(BuilderError::UninitializedField(n)) => self.missing_field() == Some(n@),
                Err(_) => false,
            },
    {
        let id = match self.id {
            Some(v) => v,
            None => {
                return Err(BuilderError::UninitializedField("id"));
            },
        };
        Ok(GetRole { id })
    }
}

impl ReturnsJsonResponse for GetRole {}

impl NoPagination for GetRole {}

impl Endpoint for GetRole {
    open spec fn method_spec(&self) -> HttpMethod {
        HttpMethod::Get
    }

    open spec fn endpoint_spec(&self) -> Seq<char> {
        "roles/"@ + decimal(self.id as nat) + ".json"@
    }

    open spec fn parameters_spec(&self) -> Seq<(Seq<char>, Seq<char>)> {
        Seq::empty()
    }

    open spec fn body_spec(&self) -> Option<BodySpec> {
        None
    }

    fn method(&self) -> (r: HttpMethod) {
        HttpMethod::Get
    }

    fn endpoint(&self) -> (r: String) {
        let mut s = String::new();
        s.append("roles/");
        push_decimal(&mut s, self.id);
        s.append(".json");
        assert(s@ =~= self.endpoint_spec());
        s
    }

    fn check_writable(&self) -> (r: bool) {
        true
    }

    fn parameters(&self) -> (r: QueryParams) {
        let mut p = QueryParams::new();
        p
    }

    fn body(&self) -> (r: Result<Option<RequestBody>, Error>) {
        Ok(None)
    }
}

/// The query of [`ListRoles`] sends each parameter that is set under its Redmine
/// name, with the value's text, and nothing else.
pub proof fn lemma_list_roles_parameter_names(x: ListRoles)
    ensures
        x.givable matches Some(v) ==> x.parameters_spec().contains(("givable"@, v.param_text())),
        x.parameters_spec().len() == present(x.givable),
{
    broadcast use crate::api::query::lemma_push_opt_contains, crate::api::query::lemma_push_opt_len;
}

/// The path of [`GetRole`] names the object by the decimal of its id, and two
/// requests share a path only when they name the same id.
pub proof fn lemma_get_role_path(x: GetRole, y: GetRole)
    ensures
        x.endpoint_spec() == "roles/"@ + decimal(x.id as nat) + ".json"@,
        x.endpoint_spec() == y.endpoint_spec() <==> x.id == y.id,
{
    lemma_id_path_injective("roles/"@, ".json"@, x.id as nat, y.id as nat);
}

/// The requests of this module use the HTTP method that fits what they do:
/// `GET` to read, `POST` to create or add, `PUT` to change and `DELETE` to
/// remove.
pub proof fn lemma_roles_methods(list_roles: ListRoles, get_role: GetRole)
    ensures
        list_roles.method_spec() == HttpMethod::Get,
        get_role.method_spec() == HttpMethod::Get,
{
}

} // verus!
