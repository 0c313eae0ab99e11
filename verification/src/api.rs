//! Redmine API
//!
//! [`Redmine Documentation`](https://www.redmine.org/projects/redmine/wiki/rest_api)
pub mod text;
pub mod json;
pub mod query;
pub mod dates;
pub mod filters;
pub mod endpoint;
pub mod pagination;
pub mod bodies;
pub mod groups;
pub mod attachments;
pub mod custom_fields;
pub mod enumerations;
pub mod files;
pub mod issue_categories;
pub mod issue_relations;
pub mod issue_statuses;
pub mod news;
pub mod project_memberships;
pub mod queries;
pub mod roles;
pub mod time_entries;
pub mod trackers;
pub mod versions;
pub mod wiki_pages;
pub mod issues;
pub mod projects;
pub mod users;
pub mod uploads;
pub mod my_account;
pub mod redmine_image;
