//! Uploads Rest API Endpoint definitions
//!
//! [Redmine Documentation](https://www.redmine.org/projects/redmine/wiki/Rest_api#Attaching-files)
use vstd::prelude::*;
use vstd::string::StringExecFns;
use crate::Error;
use crate::api::endpoint::{
    BodySpec, BuilderError, Endpoint, HttpMethod, NoPagination, Pageable, RequestBody,
    ReturnsJsonResponse, json_body,
};
use crate::api::json::{
    JsonValue, JsonView, ObjectBuilder, ToJson, member_nullable, member_opt, single_member_object,
};
use crate::api::query::{ParamValue, QueryParams, opt_param_ok, push_opt_spec};
use crate::api::text::{decimal, push_decimal};

verus! {

/// The name of the last component of a path, if it has one that is valid
/// Unicode (`std::path::Path::file_name` followed by `OsStr::to_str`).
/// How a path is split follows the path rules of the platform the crate is
/// built for: `/` separates components everywhere, and on Windows `\` and a
/// drive prefix do too.
pub uninterp spec fn path_file_name(path: Seq<char>) -> Option<Seq<char>>;

/// The last component of a path.
///
/// Trusted: the result is what `std::path::Path::new(path).file_name()`
/// followed by `to_str()` gives; how a path is split is left to `std` and to
/// the path rules of the target platform.
#[verifier::external_body]
fn file_name_of(path: &str) -> (r: Option<String>)
    ensures
        match r {
            Some(s) => path_file_name(path@) == Some(s@),
            None => path_file_name(path@) is None,
        },
{
    std::path::Path::new(path).file_name().and_then(|n| n.to_str()).map(|s| s.to_string())
}

/// The endpoint to upload a file to Redmine for later attachment to an object
#[derive(Debug, Clone)]
pub struct UploadFile {
    /// the path of the file to upload; it is read when the request is sent
    pub file: String,
    /// the filename to send to Redmine, the last component of the path if absent
    pub filename: Option<String>,
}

/// Builder for [`UploadFile`].
#[derive(Debug, Clone)]
pub struct UploadFileBuilder {
    /// the path of the file to upload; it is read when the request is sent
    pub file: Option<String>,
    /// the filename to send to Redmine, the last component of the path if absent
    pub filename: Option<String>,
}

impl UploadFile {
    /// Create a builder for the endpoint.
    pub fn builder() -> (r: UploadFileBuilder)
        ensures
            r.file is None,
            r.filename is None,
    {
        UploadFileBuilder { file: None, filename: None }
    }
}

impl UploadFileBuilder {
    /// Sets `file`: the path of the file to upload; it is read when the request is sent
    pub fn file(self, value: &str) -> (r: UploadFileBuilder)
        ensures
            r.file matches Some(s) && s@ == value@,
            r.filename == self.filename,
    {
        UploadFileBuilder { file: Some(String::from_str(value)), filename: self.filename }
    }

    /// Sets `filename`: the filename to send to Redmine, the last component of the path if absent
    pub fn filename(self, value: &str) -> (r: UploadFileBuilder)
        ensures
            r.filename matches Some(s) && s@ == value@,
            r.file == self.file,
    {
        UploadFileBuilder { file: self.file, filename: Some(String::from_str(value)) }
    }

    /// The first required field that has not been set, if any.
    pub open spec fn missing_field(&self) -> Option<Seq<char>> {
        if self.file is None {
            Some("file"@)
        } else {
            None
        }
    }

    /// Builds the endpoint; fails on the first required field that has not been set.
    pub fn build(self) -> (r: Result<UploadFile, BuilderError>)
        ensures
            match r {
                Ok(x) => self.missing_field() is None && x == (UploadFile { file: self.file->0, filename: self.filename }),
                Err(BuilderError::UninitializedField(n)) => self.missing_field() == Some(n@),
                Err(_) => false,
            },
    {
        let file = match self.file {
            Some(v) => v,
            None => {
                return Err(BuilderError::UninitializedField("file"));
            },
        };
        Ok(UploadFile { file, filename: self.filename })
    }
}

impl ReturnsJsonResponse for UploadFile {}

impl NoPagination for UploadFile {}

impl Endpoint for UploadFile {
    open spec fn method_spec(&self) -> HttpMethod {
        HttpMethod::Post
    }

    open spec fn endpoint_spec(&self) -> Seq<char> {
        "uploads.json"@
    }

    open spec fn parameters_spec(&self) -> Seq<(Seq<char>, Seq<char>)> {
        match self.filename {
            Some(f) => seq![("filename"@, f@)],
            None => match path_file_name(self.file@) {
                Some(n) => seq![("filename"@, n)],
                None => Seq::empty(),
            },
        }
    }

    open spec fn body_spec(&self) -> Option<BodySpec> {
        Some(BodySpec::File { mime: "application/octet-stream"@, path: self.file@ })
    }

    fn method(&self) -> (r: HttpMethod) {
        HttpMethod::Post
    }

    fn endpoint(&self) -> (r: String) {
        String::from_str("uploads.json")
    }

    fn check_writable(&self) -> (r: bool) {
        true
    }

    fn parameters(&self) -> (r: QueryParams) {
        let mut p = QueryParams::new();
        match &self.filename {
            Some(f) => {
                p.push("filename", f);
            },
            None => {
                let name = file_name_of(self.file.as_str());
                p.push_opt("filename", &name);
            },
        }
        assert(p@ =~= self.parameters_spec());
        p
    }

    fn body(&self) -> (r: Result<Option<RequestBody>, Error>) {
        Ok(Some(RequestBody::File { mime: String::from_str("application/octet-stream"), path: self.file.clone() }))
    }
}

/// An upload sends the file at its path as an octet stream, and names it in
/// the single `filename` parameter: the explicit filename when one is given,
/// else the last component of the path; with neither, no parameter at all.
pub proof fn lemma_upload_file_request(x: UploadFile)
    ensures
        x.body_spec() == Some(BodySpec::File { mime: "application/octet-stream"@, path: x.file@ }),
        x.parameters_spec().len() <= 1,
        forall|i: int| 0 <= i < x.parameters_spec().len() ==> (#[trigger] x.parameters_spec()[i]).0 == "filename"@,
        x.filename matches Some(f) ==> x.parameters_spec() == seq![("filename"@, f@)],
        x.filename is None ==> (x.parameters_spec().len() == 1 <==> path_file_name(x.file@) is Some),
        x.filename is None && path_file_name(x.file@) is Some ==> x.parameters_spec()[0].1 == path_file_name(x.file@)->0,
{
}

/// The requests of this module use the HTTP method that fits what they do:
/// `GET` to read, `POST` to create or add, `PUT` to change and `DELETE` to
/// remove.
pub proof fn lemma_uploads_methods(upload_file: UploadFile)
    ensures
        upload_file.method_spec() == HttpMethod::Post,
{
}

} // verus!
