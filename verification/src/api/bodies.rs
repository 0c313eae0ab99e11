//! The shape of the bodies that create and update Redmine objects.
use vstd::prelude::*;
use crate::api::attachments::UpdateAttachment;
use crate::api::endpoint::{BodySpec, Endpoint};
use crate::api::files::CreateFile;
use crate::api::groups::{CreateGroup, UpdateGroup};
use crate::api::issue_categories::{CreateIssueCategory, UpdateIssueCategory};
use crate::api::issue_relations::CreateIssueRelation;
use crate::api::issues::{CreateIssue, UpdateIssue};
use crate::api::json::JsonView;
use crate::api::news::{CreateNews, UpdateNews};
use crate::api::project_memberships::{CreateProjectMembership, UpdateProjectMembership};
use crate::api::projects::{CreateProject, UpdateProject};
use crate::api::time_entries::{CreateTimeEntry, UpdateTimeEntry};
use crate::api::users::{CreateUser, UpdateUser};
use crate::api::versions::{CreateVersion, UpdateVersion};
use crate::api::wiki_pages::CreateOrUpdateProjectWikiPage;

verus! {

/// The members of the object that a body wraps under its first member
/// (none for any other body).
pub open spec fn wrapped_members(body: Option<BodySpec>) -> Seq<(Seq<char>, JsonView)> {
    match body {
        Some(BodySpec::Json(JsonView::Object(ms))) => if ms.len() >= 1 {
            match ms[0].1 {
                JsonView::Object(inner) => inner,
                _ => Seq::empty(),
            }
        } else {
            Seq::empty()
        },
        _ => Seq::empty(),
    }
}

/// The members of the object that a body is (none for any other body).
pub open spec fn object_members(body: Option<BodySpec>) -> Seq<(Seq<char>, JsonView)> {
    match body {
        Some(BodySpec::Json(JsonView::Object(ms))) => ms,
        _ => Seq::empty(),
    }
}

/// Whether a body is a JSON object whose first member, named `key`, holds
/// an object, and which has no other member but possibly `extra`.
pub open spec fn wrapped_in(body: Option<BodySpec>, key: Seq<char>, extra: Seq<char>) -> bool {
    match body {
        Some(BodySpec::Json(JsonView::Object(ms))) => {
            &&& 1 <= ms.len() <= 2
            &&& ms[0].0 == key
            &&& ms[0].1 is Object
            &&& ms.len() == 2 ==> ms[1].0 == extra
        },
        _ => false,
    }
}

/// The bodies that create or update a Redmine object wrap its attributes in
/// an object with one member named after the kind of object (users may add
/// `send_information` beside it).
pub proof fn lemma_bodies_are_wrapped(
    attachment: UpdateAttachment,
    file: CreateFile,
    new_group: CreateGroup,
    group: UpdateGroup,
    new_category: CreateIssueCategory,
    category: UpdateIssueCategory,
    relation: CreateIssueRelation,
    new_issue: CreateIssue,
    issue: UpdateIssue,
    new_news: CreateNews,
    news: UpdateNews,
    new_membership: CreateProjectMembership,
    membership: UpdateProjectMembership,
    new_project: CreateProject,
    project: UpdateProject,
    new_time_entry: CreateTimeEntry,
    time_entry: UpdateTimeEntry,
    new_user: CreateUser,
    user: UpdateUser,
    new_version: CreateVersion,
    version: UpdateVersion,
    wiki_page: CreateOrUpdateProjectWikiPage,
)
    ensures
        wrapped_in(attachment.body_spec(), "attachment"@, Seq::empty()),
        wrapped_in(file.body_spec(), "file"@, Seq::empty()),
        wrapped_in(new_group.body_spec(), "group"@, Seq::empty()),
        wrapped_in(group.body_spec(), "group"@, Seq::empty()),
        wrapped_in(new_category.body_spec(), "issue_category"@, Seq::empty()),
        wrapped_in(category.body_spec(), "issue_category"@, Seq::empty()),
        wrapped_in(relation.body_spec(), "relation"@, Seq::empty()),
        wrapped_in(new_issue.body_spec(), "issue"@, Seq::empty()),
        wrapped_in(issue.body_spec(), "issue"@, Seq::empty()),
        wrapped_in(new_news.body_spec(), "news"@, Seq::empty()),
        wrapped_in(news.body_spec(), "news"@, Seq::empty()),
        wrapped_in(new_membership.body_spec(), "membership"@, Seq::empty()),
        wrapped_in(membership.body_spec(), "membership"@, Seq::empty()),
        wrapped_in(new_project.body_spec(), "project"@, Seq::empty()),
        wrapped_in(project.body_spec(), "project"@, Seq::empty()),
        wrapped_in(new_time_entry.body_spec(), "time_entry"@, Seq::empty()),
        wrapped_in(time_entry.body_spec(), "time_entry"@, Seq::empty()),
        wrapped_in(new_user.body_spec(), "user"@, "send_information"@),
        wrapped_in(user.body_spec(), "user"@, "send_information"@),
        wrapped_in(new_version.body_spec(), "version"@, Seq::empty()),
        wrapped_in(version.body_spec(), "version"@, Seq::empty()),
        wrapped_in(wiki_page.body_spec(), "wiki_page"@, Seq::empty()),
{
}

} // verus!
