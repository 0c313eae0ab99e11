//! Files Rest API Endpoint definitions
//!
//! [Redmine Documentation](https://www.redmine.org/projects/redmine/wiki/Rest_Files)
use vstd::prelude::*;
use vstd::string::StringExecFns;
use crate::Error;
use crate::api::endpoint::{
    BodySpec, BuilderError, Endpoint, HttpMethod, NoPagination, Pageable, RequestBody,
    ReturnsJsonResponse, json_body,
};
use crate::api::json::{
    JsonValue, JsonView, ObjectBuilder, ToJson, member_nullable, member_opt, single_member_object,
};
use crate::api::query::{ParamValue, QueryParams, opt_param_ok, push_opt_spec};
use crate::api::text::{decimal, push_decimal};

use crate::api::bodies::wrapped_members;
use crate::api::text::{lemma_text_path_injective};
verus! {

/// The endpoint for all files in a Redmine project
#[derive(Debug, Clone)]
pub struct ListProjectFiles {
    /// the project id or name as it appears in the URL
    pub project_id_or_name: String,
}

/// Builder for [`ListProjectFiles`].
#[derive(Debug, Clone)]
pub struct ListProjectFilesBuilder {
    /// the project id or name as it appears in the URL
    pub project_id_or_name: Option<String>,
}

impl ListProjectFiles {
    /// Create a builder for the endpoint.
    pub fn builder() -> (r: ListProjectFilesBuilder)
        ensures
            r.project_id_or_name is None,
    {
        ListProjectFilesBuilder { project_id_or_name: None }
    }
}

impl ListProjectFilesBuilder {
    /// Sets `project_id_or_name`: the project id or name as it appears in the URL
    pub fn project_id_or_name(self, value: &str) -> (r: ListProjectFilesBuilder)
        ensures
            r.project_id_or_name matches Some(s) && s@ == value@,
    {
        ListProjectFilesBuilder { project_id_or_name: Some(String::from_str(value)) }
    }

    /// The first required field that has not been set, if any.
    pub open spec fn missing_field(&self) -> Option<Seq<char>> {
        if self.project_id_or_name is None {
            Some("project_id_or_name"@)
        } else {
            None
        }
    }

    /// Builds the endpoint; fails on the first required field that has not been set.
    pub fn build(self) -> (r: Result<ListProjectFiles, BuilderError>)
        ensures
            match r {
                Ok(x) => self.missing_field() is None && x == (ListProjectFiles { project_id_or_name: self.project_id_or_name->0 }),
                Err(BuilderError::UninitializedField(n)) => self.missing_field() == Some(n@),
                Err(_) => false,
            },
    {
        let project_id_or_name = match self.project_id_or_name {
            Some(v) => v,
            None => {
                return Err(BuilderError::UninitializedField("project_id_or_name"));
            },
        };
        Ok(ListProjectFiles { project_id_or_name })
    }
}

impl ReturnsJsonResponse for ListProjectFiles {}

impl NoPagination for ListProjectFiles {}

impl Endpoint for ListProjectFiles {
    open spec fn method_spec(&self) -> HttpMethod {
        HttpMethod::Get
    }

    open spec fn endpoint_spec(&self) -> Seq<char> {
        "projects/"@ + self.project_id_or_name@ + "/files.json"@
    }

    open spec fn parameters_spec(&self) -> Seq<(Seq<char>, Seq<char>)> {
        Seq::empty()
    }

    open spec fn body_spec(&self) -> Option<BodySpec> {
        None
    }

    fn method(&self) -> (r: HttpMethod) {
        HttpMethod::Get
    }

    fn endpoint(&self) -> (r: String) {
        let mut s = String::new();
        s.append("projects/");
        s.append(self.project_id_or_name.as_str());
        s.append("/files.json");
        assert(s@ =~= self.endpoint_spec());
        s
    }

    fn check_writable(&self) -> (r: bool) {
        true
    }

    fn parameters(&self) -> (r: QueryParams) {
        let mut p = QueryParams::new();
        p
    }

    fn body(&self) -> (r: Result<Option<RequestBody>, Error>) {
        Ok(None)
    }
}

/// The endpoint to create a file in a Redmine project
#[derive(Debug, Clone)]
pub struct CreateFile {
    /// the project id or name as it appears in the URL
    pub project_id_or_name: String,
    /// the upload token from the upload endpoint
    pub token: String,
    /// the version the file belongs to
    pub version_id: Option<u64>,
    /// the filename
    pub filename: Option<String>,
    /// a description of the file
    pub description: Option<String>,
}

/// Builder for [`CreateFile`].
#[derive(Debug, Clone)]
pub struct CreateFileBuilder {
    /// the project id or name as it appears in the URL
    pub project_id_or_name: Option<String>,
    /// the upload token from the upload endpoint
    pub token: Option<String>,
    /// the version the file belongs to
    pub version_id: Option<u64>,
    /// the filename
    pub filename: Option<String>,
    /// a description of the file
    pub description: Option<String>,
}

impl CreateFile {
    /// Create a builder for the endpoint.
    pub fn builder() -> (r: CreateFileBuilder)
        ensures
            r.project_id_or_name is None,
            r.token is None,
            r.version_id is None,
            r.filename is None,
            r.description is None,
    {
        CreateFileBuilder { project_id_or_name: None, token: None, version_id: None, filename: None, description: None }
    }
}

impl CreateFileBuilder {
    /// Sets `project_id_or_name`: the project id or name as it appears in the URL
    pub fn project_id_or_name(self, value: &str) -> (r: CreateFileBuilder)
        ensures
            r.project_id_or_name matches Some(s) && s@ == value@,
            r.token == self.token,
            r.version_id == self.version_id,
            r.filename == self.filename,
            r.description == self.description,
    {
        CreateFileBuilder { project_id_or_name: Some(String::from_str(value)), token: self.token, version_id: self.version_id, filename: self.filename, description: self.description }
    }

    /// Sets `token`: the upload token from the upload endpoint
    pub fn token(self, value: &str) -> (r: CreateFileBuilder)
        ensures
            r.token matches Some(s) && s@ == value@,
            r.project_id_or_name == self.project_id_or_name,
            r.version_id == self.version_id,
            r.filename == self.filename,
            r.description == self.description,
    {
        CreateFileBuilder { project_id_or_name: self.project_id_or_name, token: Some(String::from_str(value)), version_id: self.version_id, filename: self.filename, description: self.description }
    }

    /// Sets `version_id`: the version the file belongs to
    pub fn version_id(self, value: u64) -> (r: CreateFileBuilder)
        ensures
            r.version_id == Some(value),
            r.project_id_or_name == self.project_id_or_name,
            r.token == self.token,
            r.filename == self.filename,
            r.description == self.description,
    {
        CreateFileBuilder { project_id_or_name: self.project_id_or_name, token: self.token, version_id: Some(value), filename: self.filename, description: self.description }
    }

    /// Sets `filename`: the filename
    pub fn filename(self, value: &str) -> (r: CreateFileBuilder)
        ensures
            r.filename matches Some(s) && s@ == value@,
            r.project_id_or_name == self.project_id_or_name,
            r.token == self.token,
            r.version_id == self.version_id,
            r.description == self.description,
    {
        CreateFileBuilder { project_id_or_name: self.project_id_or_name, token: self.token, version_id: self.version_id, filename: Some(String::from_str(value)), description: self.description }
    }

    /// Sets `description`: a description of the file
    pub fn description(self, value: &str) -> (r: CreateFileBuilder)
        ensures
            r.description matches Some(s) && s@ == value@,
            r.project_id_or_name == self.project_id_or_name,
            r.token == self.token,
            r.version_id == self.version_id,
            r.filename == self.filename,
    {
        CreateFileBuilder { project_id_or_name: self.project_id_or_name, token: self.token, version_id: self.version_id, filename: self.filename, description: Some(String::from_str(value)) }
    }

    /// The first required field that has not been set, if any.
    pub open spec fn missing_field(&self) -> Option<Seq<char>> {
        if self.project_id_or_name is None {
            Some("project_id_or_name"@)
        } else if self.token is None {
            Some("token"@)
        } else {
            None
        }
    }

    /// Builds the endpoint; fails on the first required field that has not been set.
    pub fn build(self) -> (r: Result<CreateFile, BuilderError>)
        ensures
            match r {
                Ok(x) => self.missing_field() is None && x == (CreateFile { project_id_or_name: self.project_id_or_name->0, token: self.token->0, version_id: self.version_id, filename: self.filename, description: self.description }),
                Err(BuilderError::UninitializedField(n)) => self.missing_field() == Some(n@),
                Err(_) => false,
            },
    {
        let project_id_or_name = match self.project_id_or_name {
            Some(v) => v,
            None => {
                return Err(BuilderError::UninitializedField("project_id_or_name"));
            },
        };
        let token = match self.token {
            Some(v) => v,
            None => {
                return Err(BuilderError::UninitializedField("token"));
            },
        };
        Ok(CreateFile { project_id_or_name, token, version_id: self.version_id, filename: self.filename, description: self.description })
    }
}

impl Endpoint for CreateFile {
    open spec fn method_spec(&self) -> HttpMethod {
        HttpMethod::Post
    }

    open spec fn endpoint_spec(&self) -> Seq<char> {
        "projects/"@ + self.project_id_or_name@ + "/files.json"@
    }

    open spec fn parameters_spec(&self) -> Seq<(Seq<char>, Seq<char>)> {
        Seq::empty()
    }

    open spec fn body_spec(&self) -> Option<BodySpec> {
        let inner = {
            let m = Seq::<(Seq<char>, JsonView)>::empty();
            let m = m.push(("token"@, self.token.json()));
            let m = member_nullable(m, "version_id"@, self.version_id);
            let m = member_nullable(m, "filename"@, self.filename);
            let m = member_nullable(m, "description"@, self.description);
            m
        };
        Some(BodySpec::Json(JsonView::Object(seq![("file"@, JsonView::Object(inner))])))
    }

    fn method(&self) -> (r: HttpMethod) {
        HttpMethod::Post
    }

    fn endpoint(&self) -> (r: String) {
        let mut s = String::new();
        s.append("projects/");
        s.append(self.project_id_or_name.as_str());
        s.append("/files.json");
        assert(s@ =~= self.endpoint_spec());
        s
    }

    fn check_writable(&self) -> (r: bool) {
        true
    }

    fn parameters(&self) -> (r: QueryParams) {
        let mut p = QueryParams::new();
        p
    }

    fn body(&self) -> (r: Result<Option<RequestBody>, Error>) {
        let mut b = ObjectBuilder::new();
        b.insert_value("token", &self.token);
        b.insert_nullable("version_id", &self.version_id);
        b.insert_nullable("filename", &self.filename);
        b.insert_nullable("description", &self.description);
        let doc = single_member_object("file", b.build());
        json_body(&doc)
    }
}

/// The body of [`CreateFile`] holds, under `file`, each attribute that is set
/// under its Redmine name, with the attribute's document as the value, and
/// nothing else.
pub proof fn lemma_create_file_body_members(x: CreateFile)
    ensures
        wrapped_members(x.body_spec()).contains(("token"@, x.token.json())),
        x.version_id matches Some(v) ==> wrapped_members(x.body_spec()).contains(("version_id"@, v.json())),
        x.version_id is None ==> wrapped_members(x.body_spec()).contains(("version_id"@, JsonView::Null)),
        x.filename matches Some(v) ==> wrapped_members(x.body_spec()).contains(("filename"@, v.json())),
        x.filename is None ==> wrapped_members(x.body_spec()).contains(("filename"@, JsonView::Null)),
        x.description matches Some(v) ==> wrapped_members(x.body_spec()).contains(("description"@, v.json())),
        x.description is None ==> wrapped_members(x.body_spec()).contains(("description"@, JsonView::Null)),
        wrapped_members(x.body_spec()).len() == 4,
{
    broadcast use crate::api::json::lemma_member_opt_contains, crate::api::json::lemma_member_opt_len,
        crate::api::json::lemma_member_nullable_contains, crate::api::json::lemma_member_nullable_len,
        crate::api::json::lemma_push_member_contains;
}

/// The path of [`ListProjectFiles`] names the project by its id or name, and two
/// requests share a path only when they name the same project.
pub proof fn lemma_list_project_files_path(x: ListProjectFiles, y: ListProjectFiles)
    ensures
        x.endpoint_spec() == "projects/"@ + x.project_id_or_name@ + "/files.json"@,
        x.endpoint_spec() == y.endpoint_spec() <==> x.project_id_or_name@ == y.project_id_or_name@,
{
    lemma_text_path_injective("projects/"@, "/files.json"@, x.project_id_or_name@, y.project_id_or_name@);
}

/// The path of [`CreateFile`] names the project by its id or name, and two
/// requests share a path only when they name the same project.
pub proof fn lemma_create_file_path(x: CreateFile, y: CreateFile)
    ensures
        x.endpoint_spec() == "projects/"@ + x.project_id_or_name@ + "/files.json"@,
        x.endpoint_spec() == y.endpoint_spec() <==> x.project_id_or_name@ == y.project_id_or_name@,
{
    lemma_text_path_injective("projects/"@, "/files.json"@, x.project_id_or_name@, y.project_id_or_name@);
}

/// The requests of this module use the HTTP method that fits what they do:
/// `GET` to read, `POST` to create or add, `PUT` to change and `DELETE` to
/// remove.
pub proof fn lemma_files_methods(list_project_files: ListProjectFiles, create_file: CreateFile)
    ensures
        list_project_files.method_spec() == HttpMethod::Get,
        create_file.method_spec() == HttpMethod::Post,
{
}

/// The requests of this module that address the same collection, or the
/// same object, use the same path: listing and creating share the
/// collection's path, and reading, changing and removing an object share
/// the object's path.
pub proof fn lemma_files_shared_paths(list_project_files: ListProjectFiles, create_file: CreateFile)
    ensures
        list_project_files.project_id_or_name@ == create_file.project_id_or_name@ ==> list_project_files.endpoint_spec() == create_file.endpoint_spec(),
{
}

} // verus!
