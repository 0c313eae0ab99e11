//! My Account Rest API Endpoint definitions
//!
//! [Redmine Documentation](https://www.redmine.org/projects/redmine/wiki/Rest_MyAccount)
use vstd::prelude::*;
use vstd::string::StringExecFns;
use crate::Error;
use crate::api::endpoint::{
    BodySpec, BuilderError, Endpoint, HttpMethod, NoPagination, Pageable, RequestBody,
    ReturnsJsonResponse, json_body,
};
use crate::api::json::{
    JsonValue, JsonView, ObjectBuilder, ToJson, member_nullable, member_opt, single_member_object,
};
use crate::api::query::{ParamValue, QueryParams, opt_param_ok, push_opt_spec};
use crate::api::text::{decimal, push_decimal};

use crate::api::bodies::object_members;
use crate::api::json::find_member;
use crate::api::query::present;
verus! {

/// Mail notification options for a user.
#[derive(Debug, Clone, Copy, PartialEq, Eq, Structural)]
pub enum MailNotificationOption {
    /// All events.
    All,
    /// Only for selected projects.
    Selected,
    /// Only for my events.
    OnlyMyEvents,
    /// Only for assigned issues.
    OnlyAssigned,
    /// Only for issues I own.
    OnlyOwner,
    /// No notifications.
    NoNotification,
}

impl MailNotificationOption {
    /// The text of the value.
    pub open spec fn text(&self) -> Seq<char> {
        match self {
            MailNotificationOption::All => "all"@,
            MailNotificationOption::Selected => "selected"@,
            MailNotificationOption::OnlyMyEvents => "only_my_events"@,
            MailNotificationOption::OnlyAssigned => "only_assigned"@,
            MailNotificationOption::OnlyOwner => "only_owner"@,
            MailNotificationOption::NoNotification => "none"@,
        }
    }

    /// The text of the value.
    pub fn to_string(&self) -> (r: String)
        ensures
            r@ == self.text(),
    {
        match self {
            MailNotificationOption::All => String::from_str("all"),
            MailNotificationOption::Selected => String::from_str("selected"),
            MailNotificationOption::OnlyMyEvents => String::from_str("only_my_events"),
            MailNotificationOption::OnlyAssigned => String::from_str("only_assigned"),
            MailNotificationOption::OnlyOwner => String::from_str("only_owner"),
            MailNotificationOption::NoNotification => String::from_str("none"),
        }
    }
}

impl ToJson for MailNotificationOption {
    open spec fn json(&self) -> JsonView {
        JsonView::Str(self.text())
    }

    fn to_json(&self) -> (r: JsonValue) {
        JsonValue::Str(self.to_string())
    }
}

/// Comments sorting order.
#[derive(Debug, Clone, Copy, PartialEq, Eq, Structural)]
pub enum CommentsSorting {
    /// Ascending order.
    Asc,
    /// Descending order.
    Desc,
}

impl CommentsSorting {
    /// The text of the value.
    pub open spec fn text(&self) -> Seq<char> {
        match self {
            CommentsSorting::Asc => "asc"@,
            CommentsSorting::Desc => "desc"@,
        }
    }

    /// The text of the value.
    pub fn to_string(&self) -> (r: String)
        ensures
            r@ == self.text(),
    {
        match self {
            CommentsSorting::Asc => String::from_str("asc"),
            CommentsSorting::Desc => String::from_str("desc"),
        }
    }
}

impl ToJson for CommentsSorting {
    open spec fn json(&self) -> JsonView {
        JsonView::Str(self.text())
    }

    fn to_json(&self) -> (r: JsonValue) {
        JsonValue::Str(self.to_string())
    }
}

/// Textarea font options.
#[derive(Debug, Clone, Copy, PartialEq, Eq, Structural)]
pub enum TextareaFont {
    /// Monospace font.
    Monospace,
    /// Proportional font.
    Proportional,
}

impl TextareaFont {
    /// The text of the value.
    pub open spec fn text(&self) -> Seq<char> {
        match self {
            TextareaFont::Monospace => "monospace"@,
            TextareaFont::Proportional => "proportional"@,
        }
    }

    /// The text of the value.
    pub fn to_string(&self) -> (r: String)
        ensures
            r@ == self.text(),
    {
        match self {
            TextareaFont::Monospace => String::from_str("monospace"),
            TextareaFont::Proportional => String::from_str("proportional"),
        }
    }
}

impl ToJson for TextareaFont {
    open spec fn json(&self) -> JsonView {
        JsonView::Str(self.text())
    }

    fn to_json(&self) -> (r: JsonValue) {
        JsonValue::Str(self.to_string())
    }
}

/// Toolbar language options.
#[derive(Debug, Clone, Copy, PartialEq, Eq, Structural)]
pub enum ToolbarLanguage {
    /// C programming language.
    C,
    /// C++ programming language.
    Cpp,
    /// C# programming language.
    Csharp,
    /// CSS stylesheet language.
    Css,
    /// Diff format.
    Diff,
    /// Go programming language.
    Go,
    /// Groovy programming language.
    Groovy,
    /// HTML markup language.
    Html,
    /// Java programming language.
    Java,
    /// Javascript programming language.
    Javascript,
    /// Objective-C programming language.
    Objc,
    /// Perl programming language.
    Perl,
    /// PHP programming language.
    Php,
    /// Python programming language.
    Python,
    /// R programming language.
    R,
    /// Ruby programming language.
    Ruby,
    /// Sass stylesheet language.
    Sass,
    /// Scala programming language.
    Scala,
    /// Shell scripting language.
    Shell,
    /// SQL query language.
    Sql,
    /// Swift programming language.
    Swift,
    /// XML markup language.
    Xml,
    /// YAML data serialization language.
    Yaml,
}

impl ToolbarLanguage {
    /// The text of the value.
    pub open spec fn text(&self) -> Seq<char> {
        match self {
            ToolbarLanguage::C => "c"@,
            ToolbarLanguage::Cpp => "cpp"@,
            ToolbarLanguage::Csharp => "csharp"@,
            ToolbarLanguage::Css => "css"@,
            ToolbarLanguage::Diff => "diff"@,
            ToolbarLanguage::Go => "go"@,
            ToolbarLanguage::Groovy => "groovy"@,
            ToolbarLanguage::Html => "html"@,
            ToolbarLanguage::Java => "java"@,
            ToolbarLanguage::Javascript => "javascript"@,
            ToolbarLanguage::Objc => "objc"@,
            ToolbarLanguage::Perl => "perl"@,
            ToolbarLanguage::Php => "php"@,
            ToolbarLanguage::Python => "python"@,
            ToolbarLanguage::R => "r"@,
            ToolbarLanguage::Ruby => "ruby"@,
            ToolbarLanguage::Sass => "sass"@,
            ToolbarLanguage::Scala => "scala"@,
            ToolbarLanguage::Shell => "shell"@,
            ToolbarLanguage::Sql => "sql"@,
            ToolbarLanguage::Swift => "swift"@,
            ToolbarLanguage::Xml => "xml"@,
            ToolbarLanguage::Yaml => "yaml"@,
        }
    }

    /// The text of the value.
    pub fn to_string(&self) -> (r: String)
        ensures
            r@ == self.text(),
    {
        match self {
            ToolbarLanguage::C => String::from_str("c"),
            ToolbarLanguage::Cpp => String::from_str("cpp"),
            ToolbarLanguage::Csharp => String::from_str("csharp"),
            ToolbarLanguage::Css => String::from_str("css"),
            ToolbarLanguage::Diff => String::from_str("diff"),
            ToolbarLanguage::Go => String::from_str("go"),
            ToolbarLanguage::Groovy => String::from_str("groovy"),
            ToolbarLanguage::Html => String::from_str("html"),
            ToolbarLanguage::Java => String::from_str("java"),
            ToolbarLanguage::Javascript => String::from_str("javascript"),
            ToolbarLanguage::Objc => String::from_str("objc"),
            ToolbarLanguage::Perl => String::from_str("perl"),
            ToolbarLanguage::Php => String::from_str("php"),
            ToolbarLanguage::Python => String::from_str("python"),
            ToolbarLanguage::R => String::from_str("r"),
            ToolbarLanguage::Ruby => String::from_str("ruby"),
            ToolbarLanguage::Sass => String::from_str("sass"),
            ToolbarLanguage::Scala => String::from_str("scala"),
            ToolbarLanguage::Shell => String::from_str("shell"),
            ToolbarLanguage::Sql => String::from_str("sql"),
            ToolbarLanguage::Swift => String::from_str("swift"),
            ToolbarLanguage::Xml => String::from_str("xml"),
            ToolbarLanguage::Yaml => String::from_str("yaml"),
        }
    }
}

impl ParamValue for ToolbarLanguage {
    open spec fn param_text(&self) -> Seq<char> {
        self.text()
    }

    fn as_value(&self) -> (r: String) {
        self.to_string()
    }
}

impl ToJson for ToolbarLanguage {
    open spec fn json(&self) -> JsonView {
        JsonView::Str(self.text())
    }

    fn to_json(&self) -> (r: JsonValue) {
        JsonValue::Str(self.to_string())
    }
}

/// Auto watch actions.
#[derive(Debug, Clone, Copy, PartialEq, Eq, Structural)]
pub enum AutoWatchAction {
    /// Watch issues when created.
    IssueCreated,
    /// Watch issues when contributed to.
    IssueContributedTo,
}

impl AutoWatchAction {
    /// The text of the value.
    pub open spec fn text(&self) -> Seq<char> {
        match self {
            AutoWatchAction::IssueCreated => "issue_created"@,
            AutoWatchAction::IssueContributedTo => "issue_contributed_to"@,
        }
    }

    /// The text of the value.
    pub fn to_string(&self) -> (r: String)
        ensures
            r@ == self.text(),
    {
        match self {
            AutoWatchAction::IssueCreated => String::from_str("issue_created"),
            AutoWatchAction::IssueContributedTo => String::from_str("issue_contributed_to"),
        }
    }
}

impl ParamValue for AutoWatchAction {
    open spec fn param_text(&self) -> Seq<char> {
        self.text()
    }

    fn as_value(&self) -> (r: String) {
        self.to_string()
    }
}

impl ToJson for AutoWatchAction {
    open spec fn json(&self) -> JsonView {
        JsonView::Str(self.text())
    }

    fn to_json(&self) -> (r: JsonValue) {
        JsonValue::Str(self.to_string())
    }
}

/// The endpoint to retrieve the current user's my account settings/data
#[derive(Debug, Clone)]
pub struct GetMyAccount {
}

/// Builder for [`GetMyAccount`].
#[derive(Debug, Clone)]
pub struct GetMyAccountBuilder {
}

impl GetMyAccount {
    /// Create a builder for the endpoint.
    pub fn builder() -> (r: GetMyAccountBuilder)
        ensures
    {
        GetMyAccountBuilder {}
    }
}

impl GetMyAccountBuilder {
    /// The first required field that has not been set, if any.
    pub open spec fn missing_field(&self) -> Option<Seq<char>> {
        None
    }

    /// Builds the endpoint; fails on the first required field that has not been set.
    pub fn build(self) -> (r: Result<GetMyAccount, BuilderError>)
        ensures
            match r {
                Ok(x) => self.missing_field() is None && x == (GetMyAccount {  }),
                Err(BuilderError::UninitializedField(n)) => self.missing_field() == Some(n@),
                Err(_) => false,
            },
    {
        Ok(GetMyAccount {})
    }
}

impl ReturnsJsonResponse for GetMyAccount {}

impl NoPagination for GetMyAccount {}

impl Endpoint for GetMyAccount {
    open spec fn method_spec(&self) -> HttpMethod {
        HttpMethod::Get
    }

    open spec fn endpoint_spec(&self) -> Seq<char> {
        "my/account.json"@
    }

    open spec fn parameters_spec(&self) -> Seq<(Seq<char>, Seq<char>)> {
        Seq::empty()
    }

    open spec fn body_spec(&self) -> Option<BodySpec> {
        None
    }

    fn method(&self) -> (r: HttpMethod) {
        HttpMethod::Get
    }

    fn endpoint(&self) -> (r: String) {
        String::from_str("my/account.json")
    }

    fn check_writable(&self) -> (r: bool) {
        true
    }

    fn parameters(&self) -> (r: QueryParams) {
        let mut p = QueryParams::new();
        p
    }

    fn body(&self) -> (r: Result<Option<RequestBody>, Error>) {
        Ok(None)
    }
}

/// The members with `key: text` appended when the list is present, the text
/// being the comma separated texts of its elements.
pub open spec fn member_opt_text<T: ParamValue>(
    ms: Seq<(Seq<char>, JsonView)>,
    key: Seq<char>,
    value: Option<T>,
) -> Seq<(Seq<char>, JsonView)> {
    match value {
        Some(v) => ms.push((key, JsonView::Str(v.param_text()))),
        None => ms,
    }
}

fn insert_opt_text<T: ParamValue>(b: &mut ObjectBuilder, key: &str, value: &Option<T>)
    requires
        opt_param_ok(*value),
    ensures
        final(b)@ == member_opt_text(old(b)@, key@, *value),
{
    if let Some(v) = value {
        b.insert(key, JsonValue::Str(v.as_value()));
    }
}

/// The endpoint to update the current user's my account settings/data
#[derive(Debug, Clone)]
pub struct UpdateMyAccount {
    /// User's firstname
    pub firstname: Option<String>,
    /// User's lastname
    pub lastname: Option<String>,
    /// Primary email of the user
    pub mail: Option<String>,
    /// Mail notification option
    pub mail_notification: Option<MailNotificationOption>,
    /// Project ids for which the user has explicitly turned mail notifications on
    pub notified_project_ids: Option<Vec<u64>>,
    /// User's language
    pub language: Option<String>,
    /// Hide mail address
    pub hide_mail: Option<bool>,
    /// User's time zone
    pub time_zone: Option<String>,
    /// Comments sorting order
    pub comments_sorting: Option<CommentsSorting>,
    /// Warn on leaving unsaved changes
    pub warn_on_leaving_unsaved: Option<bool>,
    /// No self notified
    pub no_self_notified: Option<bool>,
    /// Notify about high priority issues
    pub notify_about_high_priority_issues: Option<bool>,
    /// Textarea font
    pub textarea_font: Option<TextareaFont>,
    /// Recently used projects
    pub recently_used_projects: Option<u64>,
    /// History default tab
    pub history_default_tab: Option<String>,
    /// Default issue query
    pub default_issue_query: Option<String>,
    /// Default project query
    pub default_project_query: Option<String>,
    /// Toolbar language options (sent as a comma-separated list of languages)
    pub toolbar_language_options: Option<Vec<ToolbarLanguage>>,
    /// Auto watch on (sent as a comma-separated list of actions)
    pub auto_watch_on: Option<Vec<AutoWatchAction>>,
}

/// Builder for [`UpdateMyAccount`].
#[derive(Debug, Clone)]
pub struct UpdateMyAccountBuilder {
    /// User's firstname
    pub firstname: Option<String>,
    /// User's lastname
    pub lastname: Option<String>,
    /// Primary email of the user
    pub mail: Option<String>,
    /// Mail notification option
    pub mail_notification: Option<MailNotificationOption>,
    /// Project ids for which the user has explicitly turned mail notifications on
    pub notified_project_ids: Option<Vec<u64>>,
    /// User's language
    pub language: Option<String>,
    /// Hide mail address
    pub hide_mail: Option<bool>,
    /// User's time zone
    pub time_zone: Option<String>,
    /// Comments sorting order
    pub comments_sorting: Option<CommentsSorting>,
    /// Warn on leaving unsaved changes
    pub warn_on_leaving_unsaved: Option<bool>,
    /// No self notified
    pub no_self_notified: Option<bool>,
    /// Notify about high priority issues
    pub notify_about_high_priority_issues: Option<bool>,
    /// Textarea font
    pub textarea_font: Option<TextareaFont>,
    /// Recently used projects
    pub recently_used_projects: Option<u64>,
    /// History default tab
    pub history_default_tab: Option<String>,
    /// Default issue query
    pub default_issue_query: Option<String>,
    /// Default project query
    pub default_project_query: Option<String>,
    /// Toolbar language options (sent as a comma-separated list of languages)
    pub toolbar_language_options: Option<Vec<ToolbarLanguage>>,
    /// Auto watch on (sent as a comma-separated list of actions)
    pub auto_watch_on: Option<Vec<AutoWatchAction>>,
}

impl UpdateMyAccount {
    /// Create a builder for the endpoint.
    pub fn builder() -> (r: UpdateMyAccountBuilder)
        ensures
            r.firstname is None,
            r.lastname is None,
            r.mail is None,
            r.mail_notification is None,
            r.notified_project_ids is None,
            r.language is None,
            r.hide_mail is None,
            r.time_zone is None,
            r.comments_sorting is None,
            r.warn_on_leaving_unsaved is None,
            r.no_self_notified is None,
            r.notify_about_high_priority_issues is None,
            r.textarea_font is None,
            r.recently_used_projects is None,
            r.history_default_tab is None,
            r.default_issue_query is None,
            r.default_project_query is None,
            r.toolbar_language_options is None,
            r.auto_watch_on is None,
    {
        UpdateMyAccountBuilder { firstname: None, lastname: None, mail: None, mail_notification: None, notified_project_ids: None, language: None, hide_mail: None, time_zone: None, comments_sorting: None, warn_on_leaving_unsaved: None, no_self_notified: None, notify_about_high_priority_issues: None, textarea_font: None, recently_used_projects: None, history_default_tab: None, default_issue_query: None, default_project_query: None, toolbar_language_options: None, auto_watch_on: None }
    }
}

impl UpdateMyAccountBuilder {
    /// Sets `firstname`: user's firstname
    pub fn firstname(self, value: &str) -> (r: UpdateMyAccountBuilder)
        ensures
            r.firstname matches Some(s) && s@ == value@,
            r.lastname == self.lastname,
            r.mail == self.mail,
            r.mail_notification == self.mail_notification,
            r.notified_project_ids == self.notified_project_ids,
            r.language == self.language,
            r.hide_mail == self.hide_mail,
            r.time_zone == self.time_zone,
            r.comments_sorting == self.comments_sorting,
            r.warn_on_leaving_unsaved == self.warn_on_leaving_unsaved,
            r.no_self_notified == self.no_self_notified,
            r.notify_about_high_priority_issues == self.notify_about_high_priority_issues,
            r.textarea_font == self.textarea_font,
            r.recently_used_projects == self.recently_used_projects,
            r.history_default_tab == self.history_default_tab,
            r.default_issue_query == self.default_issue_query,
            r.default_project_query == self.default_project_query,
            r.toolbar_language_options == self.toolbar_language_options,
            r.auto_watch_on == self.auto_watch_on,
    {
        UpdateMyAccountBuilder { firstname: Some(String::from_str(value)), lastname: self.lastname, mail: self.mail, mail_notification: self.mail_notification, notified_project_ids: self.notified_project_ids, language: self.language, hide_mail: self.hide_mail, time_zone: self.time_zone, comments_sorting: self.comments_sorting, warn_on_leaving_unsaved: self.warn_on_leaving_unsaved, no_self_notified: self.no_self_notified, notify_about_high_priority_issues: self.notify_about_high_priority_issues, textarea_font: self.textarea_font, recently_used_projects: self.recently_used_projects, history_default_tab: self.history_default_tab, default_issue_query: self.default_issue_query, default_project_query: self.default_project_query, toolbar_language_options: self.toolbar_language_options, auto_watch_on: self.auto_watch_on }
    }

    /// Sets `lastname`: user's lastname
    pub fn lastname(self, value: &str) -> (r: UpdateMyAccountBuilder)
        ensures
            r.lastname matches Some(s) && s@ == value@,
            r.firstname == self.firstname,
            r.mail == self.mail,
            r.mail_notification == self.mail_notification,
            r.notified_project_ids == self.notified_project_ids,
            r.language == self.language,
            r.hide_mail == self.hide_mail,
            r.time_zone == self.time_zone,
            r.comments_sorting == self.comments_sorting,
            r.warn_on_leaving_unsaved == self.warn_on_leaving_unsaved,
            r.no_self_notified == self.no_self_notified,
            r.notify_about_high_priority_issues == self.notify_about_high_priority_issues,
            r.textarea_font == self.textarea_font,
            r.recently_used_projects == self.recently_used_projects,
            r.history_default_tab == self.history_default_tab,
            r.default_issue_query == self.default_issue_query,
            r.default_project_query == self.default_project_query,
            r.toolbar_language_options == self.toolbar_language_options,
            r.auto_watch_on == self.auto_watch_on,
    {
        UpdateMyAccountBuilder { firstname: self.firstname, lastname: Some(String::from_str(value)), mail: self.mail, mail_notification: self.mail_notification, notified_project_ids: self.notified_project_ids, language: self.language, hide_mail: self.hide_mail, time_zone: self.time_zone, comments_sorting: self.comments_sorting, warn_on_leaving_unsaved: self.warn_on_leaving_unsaved, no_self_notified: self.no_self_notified, notify_about_high_priority_issues: self.notify_about_high_priority_issues, textarea_font: self.textarea_font, recently_used_projects: self.recently_used_projects, history_default_tab: self.history_default_tab, default_issue_query: self.default_issue_query, default_project_query: self.default_project_query, toolbar_language_options: self.toolbar_language_options, auto_watch_on: self.auto_watch_on }
    }

    /// Sets `mail`: primary email of the user
    pub fn mail(self, value: &str) -> (r: UpdateMyAccountBuilder)
        ensures
            r.mail matches Some(s) && s@ == value@,
            r.firstname == self.firstname,
            r.lastname == self.lastname,
            r.mail_notification == self.mail_notification,
            r.notified_project_ids == self.notified_project_ids,
            r.language == self.language,
            r.hide_mail == self.hide_mail,
            r.time_zone == self.time_zone,
            r.comments_sorting == self.comments_sorting,
            r.warn_on_leaving_unsaved == self.warn_on_leaving_unsaved,
            r.no_self_notified == self.no_self_notified,
            r.notify_about_high_priority_issues == self.notify_about_high_priority_issues,
            r.textarea_font == self.textarea_font,
            r.recently_used_projects == self.recently_used_projects,
            r.history_default_tab == self.history_default_tab,
            r.default_issue_query == self.default_issue_query,
            r.default_project_query == self.default_project_query,
            r.toolbar_language_options == self.toolbar_language_options,
            r.auto_watch_on == self.auto_watch_on,
    {
        UpdateMyAccountBuilder { firstname: self.firstname, lastname: self.lastname, mail: Some(String::from_str(value)), mail_notification: self.mail_notification, notified_project_ids: self.notified_project_ids, language: self.language, hide_mail: self.hide_mail, time_zone: self.time_zone, comments_sorting: self.comments_sorting, warn_on_leaving_unsaved: self.warn_on_leaving_unsaved, no_self_notified: self.no_self_notified, notify_about_high_priority_issues: self.notify_about_high_priority_issues, textarea_font: self.textarea_font, recently_used_projects: self.recently_used_projects, history_default_tab: self.history_default_tab, default_issue_query: self.default_issue_query, default_project_query: self.default_project_query, toolbar_language_options: self.toolbar_language_options, auto_watch_on: self.auto_watch_on }
    }

    /// Sets `mail_notification`: mail notification option
    pub fn mail_notification(self, value: MailNotificationOption) -> (r: UpdateMyAccountBuilder)
        ensures
            r.mail_notification == Some(value),
            r.firstname == self.firstname,
            r.lastname == self.lastname,
            r.mail == self.mail,
            r.notified_project_ids == self.notified_project_ids,
            r.language == self.language,
            r.hide_mail == self.hide_mail,
            r.time_zone == self.time_zone,
            r.comments_sorting == self.comments_sorting,
            r.warn_on_leaving_unsaved == self.warn_on_leaving_unsaved,
            r.no_self_notified == self.no_self_notified,
            r.notify_about_high_priority_issues == self.notify_about_high_priority_issues,
            r.textarea_font == self.textarea_font,
            r.recently_used_projects == self.recently_used_projects,
            r.history_default_tab == self.history_default_tab,
            r.default_issue_query == self.default_issue_query,
            r.default_project_query == self.default_project_query,
            r.toolbar_language_options == self.toolbar_language_options,
            r.auto_watch_on == self.auto_watch_on,
    {
        UpdateMyAccountBuilder { firstname: self.firstname, lastname: self.lastname, mail: self.mail, mail_notification: Some(value), notified_project_ids: self.notified_project_ids, language: self.language, hide_mail: self.hide_mail, time_zone: self.time_zone, comments_sorting: self.comments_sorting, warn_on_leaving_unsaved: self.warn_on_leaving_unsaved, no_self_notified: self.no_self_notified, notify_about_high_priority_issues: self.notify_about_high_priority_issues, textarea_font: self.textarea_font, recently_used_projects: self.recently_used_projects, history_default_tab: self.history_default_tab, default_issue_query: self.default_issue_query, default_project_query: self.default_project_query, toolbar_language_options: self.toolbar_language_options, auto_watch_on: self.auto_watch_on }
    }

    /// Sets `notified_project_ids`: project ids for which the user has explicitly turned mail notifications on
    pub fn notified_project_ids(self, value: Vec<u64>) -> (r: UpdateMyAccountBuilder)
        ensures
            r.notified_project_ids == Some(value),
            r.firstname == self.firstname,
            r.lastname == self.lastname,
            r.mail == self.mail,
            r.mail_notification == self.mail_notification,
            r.language == self.language,
            r.hide_mail == self.hide_mail,
            r.time_zone == self.time_zone,
            r.comments_sorting == self.comments_sorting,
            r.warn_on_leaving_unsaved == self.warn_on_leaving_unsaved,
            r.no_self_notified == self.no_self_notified,
            r.notify_about_high_priority_issues == self.notify_about_high_priority_issues,
            r.textarea_font == self.textarea_font,
            r.recently_used_projects == self.recently_used_projects,
            r.history_default_tab == self.history_default_tab,
            r.default_issue_query == self.default_issue_query,
            r.default_project_query == self.default_project_query,
            r.toolbar_language_options == self.toolbar_language_options,
            r.auto_watch_on == self.auto_watch_on,
    {
        UpdateMyAccountBuilder { firstname: self.firstname, lastname: self.lastname, mail: self.mail, mail_notification: self.mail_notification, notified_project_ids: Some(value), language: self.language, hide_mail: self.hide_mail, time_zone: self.time_zone, comments_sorting: self.comments_sorting, warn_on_leaving_unsaved: self.warn_on_leaving_unsaved, no_self_notified: self.no_self_notified, notify_about_high_priority_issues: self.notify_about_high_priority_issues, textarea_font: self.textarea_font, recently_used_projects: self.recently_used_projects, history_default_tab: self.history_default_tab, default_issue_query: self.default_issue_query, default_project_query: self.default_project_query, toolbar_language_options: self.toolbar_language_options, auto_watch_on: self.auto_watch_on }
    }

    /// Sets `language`: user's language
    pub fn language(self, value: &str) -> (r: UpdateMyAccountBuilder)
        ensures
            r.language matches Some(s) && s@ == value@,
            r.firstname == self.firstname,
            r.lastname == self.lastname,
            r.mail == self.mail,
            r.mail_notification == self.mail_notification,
            r.notified_project_ids == self.notified_project_ids,
            r.hide_mail == self.hide_mail,
            r.time_zone == self.time_zone,
            r.comments_sorting == self.comments_sorting,
            r.warn_on_leaving_unsaved == self.warn_on_leaving_unsaved,
            r.no_self_notified == self.no_self_notified,
            r.notify_about_high_priority_issues == self.notify_about_high_priority_issues,
            r.textarea_font == self.textarea_font,
            r.recently_used_projects == self.recently_used_projects,
            r.history_default_tab == self.history_default_tab,
            r.default_issue_query == self.default_issue_query,
            r.default_project_query == self.default_project_query,
            r.toolbar_language_options == self.toolbar_language_options,
            r.auto_watch_on == self.auto_watch_on,
    {
        UpdateMyAccountBuilder { firstname: self.firstname, lastname: self.lastname, mail: self.mail, mail_notification: self.mail_notification, notified_project_ids: self.notified_project_ids, language: Some(String::from_str(value)), hide_mail: self.hide_mail, time_zone: self.time_zone, comments_sorting: self.comments_sorting, warn_on_leaving_unsaved: self.warn_on_leaving_unsaved, no_self_notified: self.no_self_notified, notify_about_high_priority_issues: self.notify_about_high_priority_issues, textarea_font: self.textarea_font, recently_used_projects: self.recently_used_projects, history_default_tab: self.history_default_tab, default_issue_query: self.default_issue_query, default_project_query: self.default_project_query, toolbar_language_options: self.toolbar_language_options, auto_watch_on: self.auto_watch_on }
    }

    /// Sets `hide_mail`: hide mail address
    pub fn hide_mail(self, value: bool) -> (r: UpdateMyAccountBuilder)
        ensures
            r.hide_mail == Some(value),
            r.firstname == self.firstname,
            r.lastname == self.lastname,
            r.mail == self.mail,
            r.mail_notification == self.mail_notification,
            r.notified_project_ids == self.notified_project_ids,
            r.language == self.language,
            r.time_zone == self.time_zone,
            r.comments_sorting == self.comments_sorting,
            r.warn_on_leaving_unsaved == self.warn_on_leaving_unsaved,
            r.no_self_notified == self.no_self_notified,
            r.notify_about_high_priority_issues == self.notify_about_high_priority_issues,
            r.textarea_font == self.textarea_font,
            r.recently_used_projects == self.recently_used_projects,
            r.history_default_tab == self.history_default_tab,
            r.default_issue_query == self.default_issue_query,
            r.default_project_query == self.default_project_query,
            r.toolbar_language_options == self.toolbar_language_options,
            r.auto_watch_on == self.auto_watch_on,
    {
        UpdateMyAccountBuilder { firstname: self.firstname, lastname: self.lastname, mail: self.mail, mail_notification: self.mail_notification, notified_project_ids: self.notified_project_ids, language: self.language, hide_mail: Some(value), time_zone: self.time_zone, comments_sorting: self.comments_sorting, warn_on_leaving_unsaved: self.warn_on_leaving_unsaved, no_self_notified: self.no_self_notified, notify_about_high_priority_issues: self.notify_about_high_priority_issues, textarea_font: self.textarea_font, recently_used_projects: self.recently_used_projects, history_default_tab: self.history_default_tab, default_issue_query: self.default_issue_query, default_project_query: self.default_project_query, toolbar_language_options: self.toolbar_language_options, auto_watch_on: self.auto_watch_on }
    }

    /// Sets `time_zone`: user's time zone
    pub fn time_zone(self, value: &str) -> (r: UpdateMyAccountBuilder)
        ensures
            r.time_zone matches Some(s) && s@ == value@,
            r.firstname == self.firstname,
            r.lastname == self.lastname,
            r.mail == self.mail,
            r.mail_notification == self.mail_notification,
            r.notified_project_ids == self.notified_project_ids,
            r.language == self.language,
            r.hide_mail == self.hide_mail,
            r.comments_sorting == self.comments_sorting,
            r.warn_on_leaving_unsaved == self.warn_on_leaving_unsaved,
            r.no_self_notified == self.no_self_notified,
            r.notify_about_high_priority_issues == self.notify_about_high_priority_issues,
            r.textarea_font == self.textarea_font,
            r.recently_used_projects == self.recently_used_projects,
            r.history_default_tab == self.history_default_tab,
            r.default_issue_query == self.default_issue_query,
            r.default_project_query == self.default_project_query,
            r.toolbar_language_options == self.toolbar_language_options,
            r.auto_watch_on == self.auto_watch_on,
    {
        UpdateMyAccountBuilder { firstname: self.firstname, lastname: self.lastname, mail: self.mail, mail_notification: self.mail_notification, notified_project_ids: self.notified_project_ids, language: self.language, hide_mail: self.hide_mail, time_zone: Some(String::from_str(value)), comments_sorting: self.comments_sorting, warn_on_leaving_unsaved: self.warn_on_leaving_unsaved, no_self_notified: self.no_self_notified, notify_about_high_priority_issues: self.notify_about_high_priority_issues, textarea_font: self.textarea_font, recently_used_projects: self.recently_used_projects, history_default_tab: self.history_default_tab, default_issue_query: self.default_issue_query, default_project_query: self.default_project_query, toolbar_language_options: self.toolbar_language_options, auto_watch_on: self.auto_watch_on }
    }

    /// Sets `comments_sorting`: comments sorting order
    pub fn comments_sorting(self, value: CommentsSorting) -> (r: UpdateMyAccountBuilder)
        ensures
            r.comments_sorting == Some(value),
            r.firstname == self.firstname,
            r.lastname == self.lastname,
            r.mail == self.mail,
            r.mail_notification == self.mail_notification,
            r.notified_project_ids == self.notified_project_ids,
            r.language == self.language,
            r.hide_mail == self.hide_mail,
            r.time_zone == self.time_zone,
            r.warn_on_leaving_unsaved == self.warn_on_leaving_unsaved,
            r.no_self_notified == self.no_self_notified,
            r.notify_about_high_priority_issues == self.notify_about_high_priority_issues,
            r.textarea_font == self.textarea_font,
            r.recently_used_projects == self.recently_used_projects,
            r.history_default_tab == self.history_default_tab,
            r.default_issue_query == self.default_issue_query,
            r.default_project_query == self.default_project_query,
            r.toolbar_language_options == self.toolbar_language_options,
            r.auto_watch_on == self.auto_watch_on,
    {
        UpdateMyAccountBuilder { firstname: self.firstname, lastname: self.lastname, mail: self.mail, mail_notification: self.mail_notification, notified_project_ids: self.notified_project_ids, language: self.language, hide_mail: self.hide_mail, time_zone: self.time_zone, comments_sorting: Some(value), warn_on_leaving_unsaved: self.warn_on_leaving_unsaved, no_self_notified: self.no_self_notified, notify_about_high_priority_issues: self.notify_about_high_priority_issues, textarea_font: self.textarea_font, recently_used_projects: self.recently_used_projects, history_default_tab: self.history_default_tab, default_issue_query: self.default_issue_query, default_project_query: self.default_project_query, toolbar_language_options: self.toolbar_language_options, auto_watch_on: self.auto_watch_on }
    }

    /// Sets `warn_on_leaving_unsaved`: warn on leaving unsaved changes
    pub fn warn_on_leaving_unsaved(self, value: bool) -> (r: UpdateMyAccountBuilder)
        ensures
            r.warn_on_leaving_unsaved == Some(value),
            r.firstname == self.firstname,
            r.lastname == self.lastname,
            r.mail == self.mail,
            r.mail_notification == self.mail_notification,
            r.notified_project_ids == self.notified_project_ids,
            r.language == self.language,
            r.hide_mail == self.hide_mail,
            r.time_zone == self.time_zone,
            r.comments_sorting == self.comments_sorting,
            r.no_self_notified == self.no_self_notified,
            r.notify_about_high_priority_issues == self.notify_about_high_priority_issues,
            r.textarea_font == self.textarea_font,
            r.recently_used_projects == self.recently_used_projects,
            r.history_default_tab == self.history_default_tab,
            r.default_issue_query == self.default_issue_query,
            r.default_project_query == self.default_project_query,
            r.toolbar_language_options == self.toolbar_language_options,
            r.auto_watch_on == self.auto_watch_on,
    {
        UpdateMyAccountBuilder { firstname: self.firstname, lastname: self.lastname, mail: self.mail, mail_notification: self.mail_notification, notified_project_ids: self.notified_project_ids, language: self.language, hide_mail: self.hide_mail, time_zone: self.time_zone, comments_sorting: self.comments_sorting, warn_on_leaving_unsaved: Some(value), no_self_notified: self.no_self_notified, notify_about_high_priority_issues: self.notify_about_high_priority_issues, textarea_font: self.textarea_font, recently_used_projects: self.recently_used_projects, history_default_tab: self.history_default_tab, default_issue_query: self.default_issue_query, default_project_query: self.default_project_query, toolbar_language_options: self.toolbar_language_options, auto_watch_on: self.auto_watch_on }
    }

    /// Sets `no_self_notified`: no self notified
    pub fn no_self_notified(self, value: bool) -> (r: UpdateMyAccountBuilder)
        ensures
            r.no_self_notified == Some(value),
            r.firstname == self.firstname,
            r.lastname == self.lastname,
            r.mail == self.mail,
            r.mail_notification == self.mail_notification,
            r.notified_project_ids == self.notified_project_ids,
            r.language == self.language,
            r.hide_mail == self.hide_mail,
            r.time_zone == self.time_zone,
            r.comments_sorting == self.comments_sorting,
            r.warn_on_leaving_unsaved == self.warn_on_leaving_unsaved,
            r.notify_about_high_priority_issues == self.notify_about_high_priority_issues,
            r.textarea_font == self.textarea_font,
            r.recently_used_projects == self.recently_used_projects,
            r.history_default_tab == self.history_default_tab,
            r.default_issue_query == self.default_issue_query,
            r.default_project_query == self.default_project_query,
            r.toolbar_language_options == self.toolbar_language_options,
            r.auto_watch_on == self.auto_watch_on,
    {
        UpdateMyAccountBuilder { firstname: self.firstname, lastname: self.lastname, mail: self.mail, mail_notification: self.mail_notification, notified_project_ids: self.notified_project_ids, language: self.language, hide_mail: self.hide_mail, time_zone: self.time_zone, comments_sorting: self.comments_sorting, warn_on_leaving_unsaved: self.warn_on_leaving_unsaved, no_self_notified: Some(value), notify_about_high_priority_issues: self.notify_about_high_priority_issues, textarea_font: self.textarea_font, recently_used_projects: self.recently_used_projects, history_default_tab: self.history_default_tab, default_issue_query: self.default_issue_query, default_project_query: self.default_project_query, toolbar_language_options: self.toolbar_language_options, auto_watch_on: self.auto_watch_on }
    }

    /// Sets `notify_about_high_priority_issues`: notify about high priority issues
    pub fn notify_about_high_priority_issues(self, value: bool) -> (r: UpdateMyAccountBuilder)
        ensures
            r.notify_about_high_priority_issues == Some(value),
            r.firstname == self.firstname,
            r.lastname == self.lastname,
            r.mail == self.mail,
            r.mail_notification == self.mail_notification,
            r.notified_project_ids == self.notified_project_ids,
            r.language == self.language,
            r.hide_mail == self.hide_mail,
            r.time_zone == self.time_zone,
            r.comments_sorting == self.comments_sorting,
            r.warn_on_leaving_unsaved == self.warn_on_leaving_unsaved,
            r.no_self_notified == self.no_self_notified,
            r.textarea_font == self.textarea_font,
            r.recently_used_projects == self.recently_used_projects,
            r.history_default_tab == self.history_default_tab,
            r.default_issue_query == self.default_issue_query,
            r.default_project_query == self.default_project_query,
            r.toolbar_language_options == self.toolbar_language_options,
            r.auto_watch_on == self.auto_watch_on,
    {
        UpdateMyAccountBuilder { firstname: self.firstname, lastname: self.lastname, mail: self.mail, mail_notification: self.mail_notification, notified_project_ids: self.notified_project_ids, language: self.language, hide_mail: self.hide_mail, time_zone: self.time_zone, comments_sorting: self.comments_sorting, warn_on_leaving_unsaved: self.warn_on_leaving_unsaved, no_self_notified: self.no_self_notified, notify_about_high_priority_issues: Some(value), textarea_font: self.textarea_font, recently_used_projects: self.recently_used_projects, history_default_tab: self.history_default_tab, default_issue_query: self.default_issue_query, default_project_query: self.default_project_query, toolbar_language_options: self.toolbar_language_options, auto_watch_on: self.auto_watch_on }
    }

    /// Sets `textarea_font`: textarea font
    pub fn textarea_font(self, value: TextareaFont) -> (r: UpdateMyAccountBuilder)
        ensures
            r.textarea_font == Some(value),
            r.firstname == self.firstname,
            r.lastname == self.lastname,
            r.mail == self.mail,
            r.mail_notification == self.mail_notification,
            r.notified_project_ids == self.notified_project_ids,
            r.language == self.language,
            r.hide_mail == self.hide_mail,
            r.time_zone == self.time_zone,
            r.comments_sorting == self.comments_sorting,
            r.warn_on_leaving_unsaved == self.warn_on_leaving_unsaved,
            r.no_self_notified == self.no_self_notified,
            r.notify_about_high_priority_issues == self.notify_about_high_priority_issues,
            r.recently_used_projects == self.recently_used_projects,
            r.history_default_tab == self.history_default_tab,
            r.default_issue_query == self.default_issue_query,
            r.default_project_query == self.default_project_query,
            r.toolbar_language_options == self.toolbar_language_options,
            r.auto_watch_on == self.auto_watch_on,
    {
        UpdateMyAccountBuilder { firstname: self.firstname, lastname: self.lastname, mail: self.mail, mail_notification: self.mail_notification, notified_project_ids: self.notified_project_ids, language: self.language, hide_mail: self.hide_mail, time_zone: self.time_zone, comments_sorting: self.comments_sorting, warn_on_leaving_unsaved: self.warn_on_leaving_unsaved, no_self_notified: self.no_self_notified, notify_about_high_priority_issues: self.notify_about_high_priority_issues, textarea_font: Some(value), recently_used_projects: self.recently_used_projects, history_default_tab: self.history_default_tab, default_issue_query: self.default_issue_query, default_project_query: self.default_project_query, toolbar_language_options: self.toolbar_language_options, auto_watch_on: self.auto_watch_on }
    }

    /// Sets `recently_used_projects`: recently used projects
    pub fn recently_used_projects(self, value: u64) -> (r: UpdateMyAccountBuilder)
        ensures
            r.recently_used_projects == Some(value),
            r.firstname == self.firstname,
            r.lastname == self.lastname,
            r.mail == self.mail,
            r.mail_notification == self.mail_notification,
            r.notified_project_ids == self.notified_project_ids,
            r.language == self.language,
            r.hide_mail == self.hide_mail,
            r.time_zone == self.time_zone,
            r.comments_sorting == self.comments_sorting,
            r.warn_on_leaving_unsaved == self.warn_on_leaving_unsaved,
            r.no_self_notified == self.no_self_notified,
            r.notify_about_high_priority_issues == self.notify_about_high_priority_issues,
            r.textarea_font == self.textarea_font,
            r.history_default_tab == self.history_default_tab,
            r.default_issue_query == self.default_issue_query,
            r.default_project_query == self.default_project_query,
            r.toolbar_language_options == self.toolbar_language_options,
            r.auto_watch_on == self.auto_watch_on,
    {
        UpdateMyAccountBuilder { firstname: self.firstname, lastname: self.lastname, mail: self.mail, mail_notification: self.mail_notification, notified_project_ids: self.notified_project_ids, language: self.language, hide_mail: self.hide_mail, time_zone: self.time_zone, comments_sorting: self.comments_sorting, warn_on_leaving_unsaved: self.warn_on_leaving_unsaved, no_self_notified: self.no_self_notified, notify_about_high_priority_issues: self.notify_about_high_priority_issues, textarea_font: self.textarea_font, recently_used_projects: Some(value), history_default_tab: self.history_default_tab, default_issue_query: self.default_issue_query, default_project_query: self.default_project_query, toolbar_language_options: self.toolbar_language_options, auto_watch_on: self.auto_watch_on }
    }

    /// Sets `history_default_tab`: history default tab
    pub fn history_default_tab(self, value: &str) -> (r: UpdateMyAccountBuilder)
        ensures
            r.history_default_tab matches Some(s) && s@ == value@,
            r.firstname == self.firstname,
            r.lastname == self.lastname,
            r.mail == self.mail,
            r.mail_notification == self.mail_notification,
            r.notified_project_ids == self.notified_project_ids,
            r.language == self.language,
            r.hide_mail == self.hide_mail,
            r.time_zone == self.time_zone,
            r.comments_sorting == self.comments_sorting,
            r.warn_on_leaving_unsaved == self.warn_on_leaving_unsaved,
            r.no_self_notified == self.no_self_notified,
            r.notify_about_high_priority_issues == self.notify_about_high_priority_issues,
            r.textarea_font == self.textarea_font,
            r.recently_used_projects == self.recently_used_projects,
            r.default_issue_query == self.default_issue_query,
            r.default_project_query == self.default_project_query,
            r.toolbar_language_options == self.toolbar_language_options,
            r.auto_watch_on == self.auto_watch_on,
    {
        UpdateMyAccountBuilder { firstname: self.firstname, lastname: self.lastname, mail: self.mail, mail_notification: self.mail_notification, notified_project_ids: self.notified_project_ids, language: self.language, hide_mail: self.hide_mail, time_zone: self.time_zone, comments_sorting: self.comments_sorting, warn_on_leaving_unsaved: self.warn_on_leaving_unsaved, no_self_notified: self.no_self_notified, notify_about_high_priority_issues: self.notify_about_high_priority_issues, textarea_font: self.textarea_font, recently_used_projects: self.recently_used_projects, history_default_tab: Some(String::from_str(value)), default_issue_query: self.default_issue_query, default_project_query: self.default_project_query, toolbar_language_options: self.toolbar_language_options, auto_watch_on: self.auto_watch_on }
    }

    /// Sets `default_issue_query`: default issue query
    pub fn default_issue_query(self, value: &str) -> (r: UpdateMyAccountBuilder)
        ensures
            r.default_issue_query matches Some(s) && s@ == value@,
            r.firstname == self.firstname,
            r.lastname == self.lastname,
            r.mail == self.mail,
            r.mail_notification == self.mail_notification,
            r.notified_project_ids == self.notified_project_ids,
            r.language == self.language,
            r.hide_mail == self.hide_mail,
            r.time_zone == self.time_zone,
            r.comments_sorting == self.comments_sorting,
            r.warn_on_leaving_unsaved == self.warn_on_leaving_unsaved,
            r.no_self_notified == self.no_self_notified,
            r.notify_about_high_priority_issues == self.notify_about_high_priority_issues,
            r.textarea_font == self.textarea_font,
            r.recently_used_projects == self.recently_used_projects,
            r.history_default_tab == self.history_default_tab,
            r.default_project_query == self.default_project_query,
            r.toolbar_language_options == self.toolbar_language_options,
            r.auto_watch_on == self.auto_watch_on,
    {
        UpdateMyAccountBuilder { firstname: self.firstname, lastname: self.lastname, mail: self.mail, mail_notification: self.mail_notification, notified_project_ids: self.notified_project_ids, language: self.language, hide_mail: self.hide_mail, time_zone: self.time_zone, comments_sorting: self.comments_sorting, warn_on_leaving_unsaved: self.warn_on_leaving_unsaved, no_self_notified: self.no_self_notified, notify_about_high_priority_issues: self.notify_about_high_priority_issues, textarea_font: self.textarea_font, recently_used_projects: self.recently_used_projects, history_default_tab: self.history_default_tab, default_issue_query: Some(String::from_str(value)), default_project_query: self.default_project_query, toolbar_language_options: self.toolbar_language_options, auto_watch_on: self.auto_watch_on }
    }

    /// Sets `default_project_query`: default project query
    pub fn default_project_query(self, value: &str) -> (r: UpdateMyAccountBuilder)
        ensures
            r.default_project_query matches Some(s) && s@ == value@,
            r.firstname == self.firstname,
            r.lastname == self.lastname,
            r.mail == self.mail,
            r.mail_notification == self.mail_notification,
            r.notified_project_ids == self.notified_project_ids,
            r.language == self.language,
            r.hide_mail == self.hide_mail,
            r.time_zone == self.time_zone,
            r.comments_sorting == self.comments_sorting,
            r.warn_on_leaving_unsaved == self.warn_on_leaving_unsaved,
            r.no_self_notified == self.no_self_notified,
            r.notify_about_high_priority_issues == self.notify_about_high_priority_issues,
            r.textarea_font == self.textarea_font,
            r.recently_used_projects == self.recently_used_projects,
            r.history_default_tab == self.history_default_tab,
            r.default_issue_query == self.default_issue_query,
            r.toolbar_language_options == self.toolbar_language_options,
            r.auto_watch_on == self.auto_watch_on,
    {
        UpdateMyAccountBuilder { firstname: self.firstname, lastname: self.lastname, mail: self.mail, mail_notification: self.mail_notification, notified_project_ids: self.notified_project_ids, language: self.language, hide_mail: self.hide_mail, time_zone: self.time_zone, comments_sorting: self.comments_sorting, warn_on_leaving_unsaved: self.warn_on_leaving_unsaved, no_self_notified: self.no_self_notified, notify_about_high_priority_issues: self.notify_about_high_priority_issues, textarea_font: self.textarea_font, recently_used_projects: self.recently_used_projects, history_default_tab: self.history_default_tab, default_issue_query: self.default_issue_query, default_project_query: Some(String::from_str(value)), toolbar_language_options: self.toolbar_language_options, auto_watch_on: self.auto_watch_on }
    }

    /// Sets `toolbar_language_options`: toolbar language options (sent as a comma-separated list of languages)
    pub fn toolbar_language_options(self, value: Vec<ToolbarLanguage>) -> (r: UpdateMyAccountBuilder)
        ensures
            r.toolbar_language_options == Some(value),
            r.firstname == self.firstname,
            r.lastname == self.lastname,
            r.mail == self.mail,
            r.mail_notification == self.mail_notification,
            r.notified_project_ids == self.notified_project_ids,
            r.language == self.language,
            r.hide_mail == self.hide_mail,
            r.time_zone == self.time_zone,
            r.comments_sorting == self.comments_sorting,
            r.warn_on_leaving_unsaved == self.warn_on_leaving_unsaved,
            r.no_self_notified == self.no_self_notified,
            r.notify_about_high_priority_issues == self.notify_about_high_priority_issues,
            r.textarea_font == self.textarea_font,
            r.recently_used_projects == self.recently_used_projects,
            r.history_default_tab == self.history_default_tab,
            r.default_issue_query == self.default_issue_query,
            r.default_project_query == self.default_project_query,
            r.auto_watch_on == self.auto_watch_on,
    {
        UpdateMyAccountBuilder { firstname: self.firstname, lastname: self.lastname, mail: self.mail, mail_notification: self.mail_notification, notified_project_ids: self.notified_project_ids, language: self.language, hide_mail: self.hide_mail, time_zone: self.time_zone, comments_sorting: self.comments_sorting, warn_on_leaving_unsaved: self.warn_on_leaving_unsaved, no_self_notified: self.no_self_notified, notify_about_high_priority_issues: self.notify_about_high_priority_issues, textarea_font: self.textarea_font, recently_used_projects: self.recently_used_projects, history_default_tab: self.history_default_tab, default_issue_query: self.default_issue_query, default_project_query: self.default_project_query, toolbar_language_options: Some(value), auto_watch_on: self.auto_watch_on }
    }

    /// Sets `auto_watch_on`: auto watch on (sent as a comma-separated list of actions)
    pub fn auto_watch_on(self, value: Vec<AutoWatchAction>) -> (r: UpdateMyAccountBuilder)
        ensures
            r.auto_watch_on == Some(value),
            r.firstname == self.firstname,
            r.lastname == self.lastname,
            r.mail == self.mail,
            r.mail_notification == self.mail_notification,
            r.notified_project_ids == self.notified_project_ids,
            r.language == self.language,
            r.hide_mail == self.hide_mail,
            r.time_zone == self.time_zone,
            r.comments_sorting == self.comments_sorting,
            r.warn_on_leaving_unsaved == self.warn_on_leaving_unsaved,
            r.no_self_notified == self.no_self_notified,
            r.notify_about_high_priority_issues == self.notify_about_high_priority_issues,
            r.textarea_font == self.textarea_font,
            r.recently_used_projects == self.recently_used_projects,
            r.history_default_tab == self.history_default_tab,
            r.default_issue_query == self.default_issue_query,
            r.default_project_query == self.default_project_query,
            r.toolbar_language_options == self.toolbar_language_options,
    {
        UpdateMyAccountBuilder { firstname: self.firstname, lastname: self.lastname, mail: self.mail, mail_notification: self.mail_notification, notified_project_ids: self.notified_project_ids, language: self.language, hide_mail: self.hide_mail, time_zone: self.time_zone, comments_sorting: self.comments_sorting, warn_on_leaving_unsaved: self.warn_on_leaving_unsaved, no_self_notified: self.no_self_notified, notify_about_high_priority_issues: self.notify_about_high_priority_issues, textarea_font: self.textarea_font, recently_used_projects: self.recently_used_projects, history_default_tab: self.history_default_tab, default_issue_query: self.default_issue_query, default_project_query: self.default_project_query, toolbar_language_options: self.toolbar_language_options, auto_watch_on: Some(value) }
    }

    /// The first required field that has not been set, if any.
    pub open spec fn missing_field(&self) -> Option<Seq<char>> {
        None
    }

    /// Builds the endpoint; fails on the first required field that has not been set.
    pub fn build(self) -> (r: Result<UpdateMyAccount, BuilderError>)
        ensures
            match r {
                Ok(x) => self.missing_field() is None && x == (UpdateMyAccount { firstname: self.firstname, lastname: self.lastname, mail: self.mail, mail_notification: self.mail_notification, notified_project_ids: self.notified_project_ids, language: self.language, hide_mail: self.hide_mail, time_zone: self.time_zone, comments_sorting: self.comments_sorting, warn_on_leaving_unsaved: self.warn_on_leaving_unsaved, no_self_notified: self.no_self_notified, notify_about_high_priority_issues: self.notify_about_high_priority_issues, textarea_font: self.textarea_font, recently_used_projects: self.recently_used_projects, history_default_tab: self.history_default_tab, default_issue_query: self.default_issue_query, default_project_query: self.default_project_query, toolbar_language_options: self.toolbar_language_options, auto_watch_on: self.auto_watch_on }),
                Err(BuilderError::UninitializedField(n)) => self.missing_field() == Some(n@),
                Err(_) => false,
            },
    {
        Ok(UpdateMyAccount { firstname: self.firstname, lastname: self.lastname, mail: self.mail, mail_notification: self.mail_notification, notified_project_ids: self.notified_project_ids, language: self.language, hide_mail: self.hide_mail, time_zone: self.time_zone, comments_sorting: self.comments_sorting, warn_on_leaving_unsaved: self.warn_on_leaving_unsaved, no_self_notified: self.no_self_notified, notify_about_high_priority_issues: self.notify_about_high_priority_issues, textarea_font: self.textarea_font, recently_used_projects: self.recently_used_projects, history_default_tab: self.history_default_tab, default_issue_query: self.default_issue_query, default_project_query: self.default_project_query, toolbar_language_options: self.toolbar_language_options, auto_watch_on: self.auto_watch_on })
    }
}

impl Endpoint for UpdateMyAccount {
    open spec fn method_spec(&self) -> HttpMethod {
        HttpMethod::Put
    }

    open spec fn endpoint_spec(&self) -> Seq<char> {
        "my/account.json"@
    }

    open spec fn parameters_spec(&self) -> Seq<(Seq<char>, Seq<char>)> {
        Seq::empty()
    }

    open spec fn body_spec(&self) -> Option<BodySpec> {
        let user = {
            let m = Seq::<(Seq<char>, JsonView)>::empty();
            let m = member_opt(m, "firstname"@, self.firstname);
            let m = member_opt(m, "language"@, self.language);
            let m = member_opt(m, "lastname"@, self.lastname);
            let m = member_opt(m, "mail"@, self.mail);
            let m = member_opt(m, "mail_notification"@, self.mail_notification);
            let m = member_opt(m, "notified_project_ids"@, self.notified_project_ids);
            m
        };
        let pref = {
            let m = Seq::<(Seq<char>, JsonView)>::empty();
            let m = member_opt_text(m, "auto_watch_on"@, self.auto_watch_on);
            let m = member_opt(m, "comments_sorting"@, self.comments_sorting);
            let m = member_opt(m, "default_issue_query"@, self.default_issue_query);
            let m = member_opt(m, "default_project_query"@, self.default_project_query);
            let m = member_opt(m, "hide_mail"@, self.hide_mail);
            let m = member_opt(m, "history_default_tab"@, self.history_default_tab);
            let m = member_opt(m, "no_self_notified"@, self.no_self_notified);
            let m = member_opt(m, "notify_about_high_priority_issues"@, self.notify_about_high_priority_issues);
            let m = member_opt(m, "recently_used_projects"@, self.recently_used_projects);
            let m = member_opt(m, "textarea_font"@, self.textarea_font);
            let m = member_opt(m, "time_zone"@, self.time_zone);
            let m = member_opt_text(m, "toolbar_language_options"@, self.toolbar_language_options);
            let m = member_opt(m, "warn_on_leaving_unsaved"@, self.warn_on_leaving_unsaved);
            m
        };
        let root = Seq::<(Seq<char>, JsonView)>::empty();
        let root = if pref.len() > 0 { root.push(("pref"@, JsonView::Object(pref))) } else { root };
        let root = if user.len() > 0 { root.push(("user"@, JsonView::Object(user))) } else { root };
        if root.len() == 0 {
            None
        } else {
            Some(BodySpec::Json(JsonView::Object(root)))
        }
    }

    fn method(&self) -> (r: HttpMethod) {
        HttpMethod::Put
    }

    fn endpoint(&self) -> (r: String) {
        String::from_str("my/account.json")
    }

    fn check_writable(&self) -> (r: bool) {
        true
    }

    fn parameters(&self) -> (r: QueryParams) {
        let mut p = QueryParams::new();
        p
    }

    fn body(&self) -> (r: Result<Option<RequestBody>, Error>) {
        let mut user = ObjectBuilder::new();
        user.insert_opt("firstname", &self.firstname);
        user.insert_opt("language", &self.language);
        user.insert_opt("lastname", &self.lastname);
        user.insert_opt("mail", &self.mail);
        user.insert_opt("mail_notification", &self.mail_notification);
        user.insert_opt("notified_project_ids", &self.notified_project_ids);
        let mut pref = ObjectBuilder::new();
        insert_opt_text(&mut pref, "auto_watch_on", &self.auto_watch_on);
        pref.insert_opt("comments_sorting", &self.comments_sorting);
        pref.insert_opt("default_issue_query", &self.default_issue_query);
        pref.insert_opt("default_project_query", &self.default_project_query);
        pref.insert_opt("hide_mail", &self.hide_mail);
        pref.insert_opt("history_default_tab", &self.history_default_tab);
        pref.insert_opt("no_self_notified", &self.no_self_notified);
        pref.insert_opt("notify_about_high_priority_issues", &self.notify_about_high_priority_issues);
        pref.insert_opt("recently_used_projects", &self.recently_used_projects);
        pref.insert_opt("textarea_font", &self.textarea_font);
        pref.insert_opt("time_zone", &self.time_zone);
        insert_opt_text(&mut pref, "toolbar_language_options", &self.toolbar_language_options);
        pref.insert_opt("warn_on_leaving_unsaved", &self.warn_on_leaving_unsaved);
        let mut root = ObjectBuilder::new();
        if !pref.is_empty() {
            root.insert("pref", pref.build());
        }
        if !user.is_empty() {
            root.insert("user", user.build());
        }
        if root.is_empty() {
            Ok(None)
        } else {
            let doc = root.build();
            json_body(&doc)
        }
    }
}

/// Updating the account sends no body at all exactly when no setting is given.
pub proof fn lemma_update_my_account_body_presence(e: UpdateMyAccount)
    ensures
        e.body_spec() is None <==> (e.firstname is None && e.lastname is None && e.mail is None && e.mail_notification is None && e.notified_project_ids is None && e.language is None && e.hide_mail is None && e.time_zone is None && e.comments_sorting is None && e.warn_on_leaving_unsaved is None && e.no_self_notified is None && e.notify_about_high_priority_issues is None && e.textarea_font is None && e.recently_used_projects is None && e.history_default_tab is None && e.default_issue_query is None && e.default_project_query is None && e.toolbar_language_options is None && e.auto_watch_on is None),
{
}

/// The members of the object that the body of an account update holds
/// under `key` (none when there is no such object).
pub open spec fn account_part(body: Option<BodySpec>, key: Seq<char>) -> Seq<(Seq<char>, JsonView)> {
    match find_member(object_members(body), key) {
        Some(JsonView::Object(ms)) => ms,
        _ => Seq::empty(),
    }
}

/// Appending an optional member written as text keeps every member there
/// was, and adds `key` with the value's text when the value is present.
pub broadcast proof fn lemma_member_opt_text_contains<T: ParamValue>(
    ms: Seq<(Seq<char>, JsonView)>,
    key: Seq<char>,
    value: Option<T>,
    x: (Seq<char>, JsonView),
)
    requires
        ms.contains(x) || (value is Some && x == (key, JsonView::Str(value->0.param_text()))),
    ensures
        #[trigger] member_opt_text(ms, key, value).contains(x),
{
    let r = member_opt_text(ms, key, value);
    if ms.contains(x) {
        let i = choose|i: int| 0 <= i < ms.len() && ms[i] == x;
        assert(r[i] == x);
    } else {
        assert(r[ms.len() as int] == x);
    }
}

spec fn account_user(x: UpdateMyAccount) -> Seq<(Seq<char>, JsonView)> {
    let m = Seq::<(Seq<char>, JsonView)>::empty();
    let m = member_opt(m, "firstname"@, x.firstname);
    let m = member_opt(m, "language"@, x.language);
    let m = member_opt(m, "lastname"@, x.lastname);
    let m = member_opt(m, "mail"@, x.mail);
    let m = member_opt(m, "mail_notification"@, x.mail_notification);
    let m = member_opt(m, "notified_project_ids"@, x.notified_project_ids);
    m
}

spec fn account_pref(x: UpdateMyAccount) -> Seq<(Seq<char>, JsonView)> {
    let m = Seq::<(Seq<char>, JsonView)>::empty();
    let m = member_opt_text(m, "auto_watch_on"@, x.auto_watch_on);
    let m = member_opt(m, "comments_sorting"@, x.comments_sorting);
    let m = member_opt(m, "default_issue_query"@, x.default_issue_query);
    let m = member_opt(m, "default_project_query"@, x.default_project_query);
    let m = member_opt(m, "hide_mail"@, x.hide_mail);
    let m = member_opt(m, "history_default_tab"@, x.history_default_tab);
    let m = member_opt(m, "no_self_notified"@, x.no_self_notified);
    let m = member_opt(m, "notify_about_high_priority_issues"@, x.notify_about_high_priority_issues);
    let m = member_opt(m, "recently_used_projects"@, x.recently_used_projects);
    let m = member_opt(m, "textarea_font"@, x.textarea_font);
    let m = member_opt(m, "time_zone"@, x.time_zone);
    let m = member_opt_text(m, "toolbar_language_options"@, x.toolbar_language_options);
    let m = member_opt(m, "warn_on_leaving_unsaved"@, x.warn_on_leaving_unsaved);
    m
}

proof fn lemma_account_parts(x: UpdateMyAccount)
    ensures
        account_part(x.body_spec(), "user"@) == account_user(x),
        account_part(x.body_spec(), "pref"@) == account_pref(x),
        x.body_spec() is None <==> account_user(x).len() + account_pref(x).len() == 0,
{
    reveal_strlit("user");
    reveal_strlit("pref");
    assert("user"@[0] != "pref"@[0]);
    let user = account_user(x);
    let pref = account_pref(x);
    let r0 = Seq::<(Seq<char>, JsonView)>::empty();
    let r1 = if pref.len() > 0 {
        r0.push(("pref"@, JsonView::Object(pref)))
    } else {
        r0
    };
    let r2 = if user.len() > 0 {
        r1.push(("user"@, JsonView::Object(user)))
    } else {
        r1
    };
    assert(object_members(x.body_spec()) == r2);
    reveal_with_fuel(find_member, 3);
    if user.len() == 0 {
        assert(user =~= Seq::<(Seq<char>, JsonView)>::empty());
    }
    if pref.len() == 0 {
        assert(pref =~= Seq::<(Seq<char>, JsonView)>::empty());
    }
    if r2.len() >= 1 {
        assert(r2.drop_first().len() == r2.len() - 1);
        if r2.len() == 2 {
            assert(r2.drop_first()[0] == r2[1]);
            assert(r2.drop_first().drop_first().len() == 0);
        }
    }
}

/// An account update sends each account attribute that is set under its
/// Redmine name inside `user`, each preference that is set under its
/// Redmine name inside `pref`, nothing else, and no body at all when
/// nothing is set.
pub proof fn lemma_update_my_account_body_members(x: UpdateMyAccount)
    ensures
        x.firstname matches Some(v) ==> account_part(x.body_spec(), "user"@).contains(("firstname"@, v.json())),
        x.language matches Some(v) ==> account_part(x.body_spec(), "user"@).contains(("language"@, v.json())),
        x.lastname matches Some(v) ==> account_part(x.body_spec(), "user"@).contains(("lastname"@, v.json())),
        x.mail matches Some(v) ==> account_part(x.body_spec(), "user"@).contains(("mail"@, v.json())),
        x.mail_notification matches Some(v) ==> account_part(x.body_spec(), "user"@).contains(("mail_notification"@, v.json())),
        x.notified_project_ids matches Some(v) ==> account_part(x.body_spec(), "user"@).contains(("notified_project_ids"@, v.json())),
        x.auto_watch_on matches Some(v) ==> account_part(x.body_spec(), "pref"@).contains(("auto_watch_on"@, JsonView::Str(v.param_text()))),
        x.comments_sorting matches Some(v) ==> account_part(x.body_spec(), "pref"@).contains(("comments_sorting"@, v.json())),
        x.default_issue_query matches Some(v) ==> account_part(x.body_spec(), "pref"@).contains(("default_issue_query"@, v.json())),
        x.default_project_query matches Some(v) ==> account_part(x.body_spec(), "pref"@).contains(("default_project_query"@, v.json())),
        x.hide_mail matches Some(v) ==> account_part(x.body_spec(), "pref"@).contains(("hide_mail"@, v.json())),
        x.history_default_tab matches Some(v) ==> account_part(x.body_spec(), "pref"@).contains(("history_default_tab"@, v.json())),
        x.no_self_notified matches Some(v) ==> account_part(x.body_spec(), "pref"@).contains(("no_self_notified"@, v.json())),
        x.notify_about_high_priority_issues matches Some(v) ==> account_part(x.body_spec(), "pref"@).contains(("notify_about_high_priority_issues"@, v.json())),
        x.recently_used_projects matches Some(v) ==> account_part(x.body_spec(), "pref"@).contains(("recently_used_projects"@, v.json())),
        x.textarea_font matches Some(v) ==> account_part(x.body_spec(), "pref"@).contains(("textarea_font"@, v.json())),
        x.time_zone matches Some(v) ==> account_part(x.body_spec(), "pref"@).contains(("time_zone"@, v.json())),
        x.toolbar_language_options matches Some(v) ==> account_part(x.body_spec(), "pref"@).contains(("toolbar_language_options"@, JsonView::Str(v.param_text()))),
        x.warn_on_leaving_unsaved matches Some(v) ==> account_part(x.body_spec(), "pref"@).contains(("warn_on_leaving_unsaved"@, v.json())),
        account_part(x.body_spec(), "user"@).len() == present(x.firstname) + present(x.language) + present(x.lastname) + present(x.mail) + present(x.mail_notification) + present(x.notified_project_ids),
        account_part(x.body_spec(), "pref"@).len() == present(x.auto_watch_on) + present(x.comments_sorting) + present(x.default_issue_query) + present(x.default_project_query) + present(x.hide_mail) + present(x.history_default_tab) + present(x.no_self_notified) + present(x.notify_about_high_priority_issues) + present(x.recently_used_projects) + present(x.textarea_font) + present(x.time_zone) + present(x.toolbar_language_options) + present(x.warn_on_leaving_unsaved),
        x.body_spec() is None <==> present(x.firstname) + present(x.language) + present(x.lastname) + present(x.mail) + present(x.mail_notification) + present(x.notified_project_ids) + present(x.auto_watch_on) + present(x.comments_sorting) + present(x.default_issue_query) + present(x.default_project_query) + present(x.hide_mail) + present(x.history_default_tab) + present(x.no_self_notified) + present(x.notify_about_high_priority_issues) + present(x.recently_used_projects) + present(x.textarea_font) + present(x.time_zone) + present(x.toolbar_language_options) + present(x.warn_on_leaving_unsaved) == 0,
{
    broadcast use crate::api::json::lemma_member_opt_contains, crate::api::json::lemma_member_opt_len,
        lemma_member_opt_text_contains;
    lemma_account_parts(x);
}

/// Different values of [`MailNotificationOption`] are sent as different texts.
pub proof fn lemma_mail_notification_option_text_injective(x: MailNotificationOption, y: MailNotificationOption)
    ensures
        x.text() == y.text() ==> x == y,
{
    reveal_strlit("all");
    reveal_strlit("none");
    reveal_strlit("only_assigned");
    reveal_strlit("only_my_events");
    reveal_strlit("only_owner");
    reveal_strlit("selected");
    assert("all"@.len() != "selected"@.len());
    assert("all"@.len() != "only_my_events"@.len());
    assert("all"@.len() != "only_assigned"@.len());
    assert("all"@.len() != "only_owner"@.len());
    assert("all"@.len() != "none"@.len());
    assert("selected"@.len() != "only_my_events"@.len());
    assert("selected"@.len() != "only_assigned"@.len());
    assert("selected"@.len() != "only_owner"@.len());
    assert("selected"@.len() != "none"@.len());
    assert("only_my_events"@.len() != "only_assigned"@.len());
    assert("only_my_events"@.len() != "only_owner"@.len());
    assert("only_my_events"@.len() != "none"@.len());
    assert("only_assigned"@.len() != "only_owner"@.len());
    assert("only_assigned"@.len() != "none"@.len());
    assert("only_owner"@.len() != "none"@.len());
}

/// Different values of [`CommentsSorting`] are sent as different texts.
pub proof fn lemma_comments_sorting_text_injective(x: CommentsSorting, y: CommentsSorting)
    ensures
        x.text() == y.text() ==> x == y,
{
    reveal_strlit("asc");
    reveal_strlit("desc");
    assert("asc"@.len() != "desc"@.len());
}

/// Different values of [`TextareaFont`] are sent as different texts.
pub proof fn lemma_textarea_font_text_injective(x: TextareaFont, y: TextareaFont)
    ensures
        x.text() == y.text() ==> x == y,
{
    reveal_strlit("monospace");
    reveal_strlit("proportional");
    assert("monospace"@.len() != "proportional"@.len());
}

/// Different values of [`ToolbarLanguage`] are sent as different texts.
pub proof fn lemma_toolbar_language_text_injective(x: ToolbarLanguage, y: ToolbarLanguage)
    ensures
        x.text() == y.text() ==> x == y,
{
    reveal_strlit("c");
    reveal_strlit("cpp");
    reveal_strlit("csharp");
    reveal_strlit("css");
    reveal_strlit("diff");
    reveal_strlit("go");
    reveal_strlit("groovy");
    reveal_strlit("html");
    reveal_strlit("java");
    reveal_strlit("javascript");
    reveal_strlit("objc");
    reveal_strlit("perl");
    reveal_strlit("php");
    reveal_strlit("python");
    reveal_strlit("r");
    reveal_strlit("ruby");
    reveal_strlit("sass");
    reveal_strlit("scala");
    reveal_strlit("shell");
    reveal_strlit("sql");
    reveal_strlit("swift");
    reveal_strlit("xml");
    reveal_strlit("yaml");
    assert("c"@.len() != "cpp"@.len());
    assert("c"@.len() != "csharp"@.len());
    assert("c"@.len() != "css"@.len());
    assert("c"@.len() != "diff"@.len());
    assert("c"@.len() != "go"@.len());
    assert("c"@.len() != "groovy"@.len());
    assert("c"@.len() != "html"@.len());
    assert("c"@.len() != "java"@.len());
    assert("c"@.len() != "javascript"@.len());
    assert("c"@.len() != "objc"@.len());
    assert("c"@.len() != "perl"@.len());
    assert("c"@.len() != "php"@.len());
    assert("c"@.len() != "python"@.len());
    assert("c"@[0] != "r"@[0]);
    assert("c"@.len() != "ruby"@.len());
    assert("c"@.len() != "sass"@.len());
    assert("c"@.len() != "scala"@.len());
    assert("c"@.len() != "shell"@.len());
    assert("c"@.len() != "sql"@.len());
    assert("c"@.len() != "swift"@.len());
    assert("c"@.len() != "xml"@.len());
    assert("c"@.len() != "yaml"@.len());
    assert("cpp"@.len() != "csharp"@.len());
    assert("cpp"@[1] != "css"@[1]);
    assert("cpp"@.len() != "diff"@.len());
    assert("cpp"@.len() != "go"@.len());
    assert("cpp"@.len() != "groovy"@.len());
    assert("cpp"@.len() != "html"@.len());
    assert("cpp"@.len() != "java"@.len());
    assert("cpp"@.len() != "javascript"@.len());
    assert("cpp"@.len() != "objc"@.len());
    assert("cpp"@.len() != "perl"@.len());
    assert("cpp"@[0] != "php"@[0]);
    assert("cpp"@.len() != "python"@.len());
    assert("cpp"@.len() != "r"@.len());
    assert("cpp"@.len() != "ruby"@.len());
    assert("cpp"@.len() != "sass"@.len());
    assert("cpp"@.len() != "scala"@.len());
    assert("cpp"@.len() != "shell"@.len());
    assert("cpp"@[0] != "sql"@[0]);
    assert("cpp"@.len() != "swift"@.len());
    assert("cpp"@[0] != "xml"@[0]);
    assert("cpp"@.len() != "yaml"@.len());
    assert("csharp"@.len() != "css"@.len());
    assert("csharp"@.len() != "diff"@.len());
    assert("csharp"@.len() != "go"@.len());
    assert("csharp"@[0] != "groovy"@[0]);
    assert("csharp"@.len() != "html"@.len());
    assert("csharp"@.len() != "java"@.len());
    assert("csharp"@.len() != "javascript"@.len());
    assert("csharp"@.len() != "objc"@.len());
    assert("csharp"@.len() != "perl"@.len());
    assert("csharp"@.len() != "php"@.len());
    assert("csharp"@[0] != "python"@[0]);
    assert("csharp"@.len() != "r"@.len());
    assert("csharp"@.len() != "ruby"@.len());
    assert("csharp"@.len() != "sass"@.len());
    assert("csharp"@.len() != "scala"@.len());
    assert("csharp"@.len() != "shell"@.len());
    assert("csharp"@.len() != "sql"@.len());
    assert("csharp"@.len() != "swift"@.len());
    assert("csharp"@.len() != "xml"@.len());
    assert("csharp"@.len() != "yaml"@.len());
    assert("css"@.len() != "diff"@.len());
    assert("css"@.len() != "go"@.len());
    assert("css"@.len() != "groovy"@.len());
    assert("css"@.len() != "html"@.len());
    assert("css"@.len() != "java"@.len());
    assert("css"@.len() != "javascript"@.len());
    assert("css"@.len() != "objc"@.len());
    assert("css"@.len() != "perl"@.len());
    assert("css"@[0] != "php"@[0]);
    assert("css"@.len() != "python"@.len());
    assert("css"@.len() != "r"@.len());
    assert("css"@.len() != "ruby"@.len());
    assert("css"@.len() != "sass"@.len());
    assert("css"@.len() != "scala"@.len());
    assert("css"@.len() != "shell"@.len());
    assert("css"@[0] != "sql"@[0]);
    assert("css"@.len() != "swift"@.len());
    assert("css"@[0] != "xml"@[0]);
    assert("css"@.len() != "yaml"@.len());
    assert("diff"@.len() != "go"@.len());
    assert("diff"@.len() != "groovy"@.len());
    assert("diff"@[0] != "html"@[0]);
    assert("diff"@[0] != "java"@[0]);
    assert("diff"@.len() != "javascript"@.len());
    assert("diff"@[0] != "objc"@[0]);
    assert("diff"@[0] != "perl"@[0]);
    assert("diff"@.len() != "php"@.len());
    assert("diff"@.len() != "python"@.len());
    assert("diff"@.len() != "r"@.len());
    assert("diff"@[0] != "ruby"@[0]);
    assert("diff"@[0] != "sass"@[0]);
    assert("diff"@.len() != "scala"@.len());
    assert("diff"@.len() != "shell"@.len());
    assert("diff"@.len() != "sql"@.len());
    assert("diff"@.len() != "swift"@.len());
    assert("diff"@.len() != "xml"@.len());
    assert("diff"@[0] != "yaml"@[0]);
    assert("go"@.len() != "groovy"@.len());
    assert("go"@.len() != "html"@.len());
    assert("go"@.len() != "java"@.len());
    assert("go"@.len() != "javascript"@.len());
    assert("go"@.len() != "objc"@.len());
    assert("go"@.len() != "perl"@.len());
    assert("go"@.len() != "php"@.len());
    assert("go"@.len() != "python"@.len());
    assert("go"@.len() != "r"@.len());
    assert("go"@.len() != "ruby"@.len());
    assert("go"@.len() != "sass"@.len());
    assert("go"@.len() != "scala"@.len());
    assert("go"@.len() != "shell"@.len());
    assert("go"@.len() != "sql"@.len());
    assert("go"@.len() != "swift"@.len());
    assert("go"@.len() != "xml"@.len());
    assert("go"@.len() != "yaml"@.len());
    assert("groovy"@.len() != "html"@.len());
    assert("groovy"@.len() != "java"@.len());
    assert("groovy"@.len() != "javascript"@.len());
    assert("groovy"@.len() != "objc"@.len());
    assert("groovy"@.len() != "perl"@.len());
    assert("groovy"@.len() != "php"@.len());
    assert("groovy"@[0] != "python"@[0]);
    assert("groovy"@.len() != "r"@.len());
    assert("groovy"@.len() != "ruby"@.len());
    assert("groovy"@.len() != "sass"@.len());
    assert("groovy"@.len() != "scala"@.len());
    assert("groovy"@.len() != "shell"@.len());
    assert("groovy"@.len() != "sql"@.len());
    assert("groovy"@.len() != "swift"@.len());
    assert("groovy"@.len() != "xml"@.len());
    assert("groovy"@.len() != "yaml"@.len());
    assert("html"@[0] != "java"@[0]);
    assert("html"@.len() != "javascript"@.len());
    assert("html"@[0] != "objc"@[0]);
    assert("html"@[0] != "perl"@[0]);
    assert("html"@.len() != "php"@.len());
    assert("html"@.len() != "python"@.len());
    assert("html"@.len() != "r"@.len());
    assert("html"@[0] != "ruby"@[0]);
    assert("html"@[0] != "sass"@[0]);
    assert("html"@.len() != "scala"@.len());
    assert("html"@.len() != "shell"@.len());
    assert("html"@.len() != "sql"@.len());
    assert("html"@.len() != "swift"@.len());
    assert("html"@.len() != "xml"@.len());
    assert("html"@[0] != "yaml"@[0]);
    assert("java"@.len() != "javascript"@.len());
    assert("java"@[0] != "objc"@[0]);
    assert("java"@[0] != "perl"@[0]);
    assert("java"@.len() != "php"@.len());
    assert("java"@.len() != "python"@.len());
    assert("java"@.len() != "r"@.len());
    assert("java"@[0] != "ruby"@[0]);
    assert("java"@[0] != "sass"@[0]);
    assert("java"@.len() != "scala"@.len());
    assert("java"@.len() != "shell"@.len());
    assert("java"@.len() != "sql"@.len());
    assert("java"@.len() != "swift"@.len());
    assert("java"@.len() != "xml"@.len());
    assert("java"@[0] != "yaml"@[0]);
    assert("javascript"@.len() != "objc"@.len());
    assert("javascript"@.len() != "perl"@.len());
    assert("javascript"@.len() != "php"@.len());
    assert("javascript"@.len() != "python"@.len());
    assert("javascript"@.len() != "r"@.len());
    assert("javascript"@.len() != "ruby"@.len());
    assert("javascript"@.len() != "sass"@.len());
    assert("javascript"@.len() != "scala"@.len());
    assert("javascript"@.len() != "shell"@.len());
    assert("javascript"@.len() != "sql"@.len());
    assert("javascript"@.len() != "swift"@.len());
    assert("javascript"@.len() != "xml"@.len());
    assert("javascript"@.len() != "yaml"@.len());
    assert("objc"@[0] != "perl"@[0]);
    assert("objc"@.len() != "php"@.len());
    assert("objc"@.len() != "python"@.len());
    assert("objc"@.len() != "r"@.len());
    assert("objc"@[0] != "ruby"@[0]);
    assert("objc"@[0] != "sass"@[0]);
    assert("objc"@.len() != "scala"@.len());
    assert("objc"@.len() != "shell"@.len());
    assert("objc"@.len() != "sql"@.len());
    assert("objc"@.len() != "swift"@.len());
    assert("objc"@.len() != "xml"@.len());
    assert("objc"@[0] != "yaml"@[0]);
    assert("perl"@.len() != "php"@.len());
    assert("perl"@.len() != "python"@.len());
    assert("perl"@.len() != "r"@.len());
    assert("perl"@[0] != "ruby"@[0]);
    assert("perl"@[0] != "sass"@[0]);
    assert("perl"@.len() != "scala"@.len());
    assert("perl"@.len() != "shell"@.len());
    assert("perl"@.len() != "sql"@.len());
    assert("perl"@.len() != "swift"@.len());
    assert("perl"@.len() != "xml"@.len());
    assert("perl"@[0] != "yaml"@[0]);
    assert("php"@.len() != "python"@.len());
    assert("php"@.len() != "r"@.len());
    assert("php"@.len() != "ruby"@.len());
    assert("php"@.len() != "sass"@.len());
    assert("php"@.len() != "scala"@.len());
    assert("php"@.len() != "shell"@.len());
    assert("php"@[0] != "sql"@[0]);
    assert("php"@.len() != "swift"@.len());
    assert("php"@[0] != "xml"@[0]);
    assert("php"@.len() != "yaml"@.len());
    assert("python"@.len() != "r"@.len());
    assert("python"@.len() != "ruby"@.len());
    assert("python"@.len() != "sass"@.len());
    assert("python"@.len() != "scala"@.len());
    assert("python"@.len() != "shell"@.len());
    assert("python"@.len() != "sql"@.len());
    assert("python"@.len() != "swift"@.len());
    assert("python"@.len() != "xml"@.len());
    assert("python"@.len() != "yaml"@.len());
    assert("r"@.len() != "ruby"@.len());
    assert("r"@.len() != "sass"@.len());
    assert("r"@.len() != "scala"@.len());
    assert("r"@.len() != "shell"@.len());
    assert("r"@.len() != "sql"@.len());
    assert("r"@.len() != "swift"@.len());
    assert("r"@.len() != "xml"@.len());
    assert("r"@.len() != "yaml"@.len());
    assert("ruby"@[0] != "sass"@[0]);
    assert("ruby"@.len() != "scala"@.len());
    assert("ruby"@.len() != "shell"@.len());
    assert("ruby"@.len() != "sql"@.len());
    assert("ruby"@.len() != "swift"@.len());
    assert("ruby"@.len() != "xml"@.len());
    assert("ruby"@[0] != "yaml"@[0]);
    assert("sass"@.len() != "scala"@.len());
    assert("sass"@.len() != "shell"@.len());
    assert("sass"@.len() != "sql"@.len());
    assert("sass"@.len() != "swift"@.len());
    assert("sass"@.len() != "xml"@.len());
    assert("sass"@[0] != "yaml"@[0]);
    assert("scala"@[1] != "shell"@[1]);
    assert("scala"@.len() != "sql"@.len());
    assert("scala"@[1] != "swift"@[1]);
    assert("scala"@.len() != "xml"@.len());
    assert("scala"@.len() != "yaml"@.len());
    assert("shell"@.len() != "sql"@.len());
    assert("shell"@[1] != "swift"@[1]);
    assert("shell"@.len() != "xml"@.len());
    assert("shell"@.len() != "yaml"@.len());
    assert("sql"@.len() != "swift"@.len());
    assert("sql"@[0] != "xml"@[0]);
    assert("sql"@.len() != "yaml"@.len());
    assert("swift"@.len() != "xml"@.len());
    assert("swift"@.len() != "yaml"@.len());
    assert("xml"@.len() != "yaml"@.len());
}

/// Different values of [`AutoWatchAction`] are sent as different texts.
pub proof fn lemma_auto_watch_action_text_injective(x: AutoWatchAction, y: AutoWatchAction)
    ensures
        x.text() == y.text() ==> x == y,
{
    reveal_strlit("issue_contributed_to");
    reveal_strlit("issue_created");
    assert("issue_created"@.len() != "issue_contributed_to"@.len());
}

/// The requests of this module use the HTTP method that fits what they do:
/// `GET` to read, `POST` to create or add, `PUT` to change and `DELETE` to
/// remove.
pub proof fn lemma_my_account_methods(get_my_account: GetMyAccount, update_my_account: UpdateMyAccount)
    ensures
        get_my_account.method_spec() == HttpMethod::Get,
        update_my_account.method_spec() == HttpMethod::Put,
{
}

/// The requests of this module that address the same collection, or the
/// same object, use the same path: listing and creating share the
/// collection's path, and reading, changing and removing an object share
/// the object's path.
pub proof fn lemma_my_account_shared_paths(get_my_account: GetMyAccount, update_my_account: UpdateMyAccount)
    ensures
        get_my_account.endpoint_spec() == update_my_account.endpoint_spec(),
{
}

} // verus!
