//! The Redmine container image that integration tests run against.
use vstd::prelude::*;
use vstd::string::StringExecFns;

verus! {

/// Represents a Redmine Docker image with its name and tag.
#[derive(Debug, Clone)]
pub struct RedmineImage {
    name: String,
    tag: String,
}

impl View for RedmineImage {
    type V = (Seq<char>, Seq<char>);

    /// The name and the tag of the image.
    closed spec fn view(&self) -> (Seq<char>, Seq<char>) {
        (self.name@, self.tag@)
    }
}

impl RedmineImage {
    /// Creates a new `RedmineImage` with the given Redmine version: the image
    /// `docker.io/redmine`, tagged with the version.
    pub fn new(version: String) -> (r: RedmineImage)
        ensures
            r@ == ("docker.io/redmine"@, version@),
    {
        RedmineImage { name: String::from_str("docker.io/redmine"), tag: version }
    }

    /// The name of the image.
    pub fn name(&self) -> (r: &str)
        ensures
            r@ == self@.0,
    {
        self.name.as_str()
    }

    /// The tag of the image.
    pub fn tag(&self) -> (r: &str)
        ensures
            r@ == self@.1,
    {
        self.tag.as_str()
    }
}

} // verus!
