//! Filters that list endpoints send as query parameter values.
use vstd::prelude::*;
use vstd::string::StringExecFns;
use crate::api::query::{ParamValue, QueryParams};
use crate::api::dates::{Date, DateTime};
use crate::api::text::{decimal, id_list_string, id_list_text, push_decimal};

use crate::api::text::{join, lemma_id_list_injective, lemma_id_list_negation};
use crate::api::text::lemma_differ_at;
verus! {

/// Filter options for subject and description
#[derive(Debug, Clone)]
pub enum StringFieldFilter {
    /// match exactly this value
    ExactMatch(String),
    /// match this substring of the actual value
    SubStringMatch(String),
}

impl StringFieldFilter {
    /// The text sent for the filter.
    pub open spec fn text(&self) -> Seq<char> {
        match self {
            StringFieldFilter::ExactMatch(s) => s@,
            StringFieldFilter::SubStringMatch(s) => "~"@ + s@,
        }
    }

    /// The text sent for the filter.
    pub fn to_string(&self) -> (r: String)
        ensures
            r@ == self.text(),
    {
        match self {
            StringFieldFilter::ExactMatch(s) => s.clone(),
            StringFieldFilter::SubStringMatch(s) => {
                let mut r = String::from_str("~");
                r.append(s.as_str());
                r
            },
        }
    }
}

impl ParamValue for StringFieldFilter {
    open spec fn param_text(&self) -> Seq<char> {
        self.text()
    }

    fn as_value(&self) -> (r: String) {
        self.to_string()
    }
}

/// A filter for a custom field, consisting of its ID and a StringFieldFilter for its value.
#[derive(Debug, Clone)]
pub struct CustomFieldFilter {
    /// The ID of the custom field to filter by.
    pub id: u64,
    /// The value to filter the custom field by, using a `StringFieldFilter`.
    pub value: StringFieldFilter,
}

impl CustomFieldFilter {
    /// The name of the query parameter of the filter: `cf_` and the id.
    pub open spec fn key_text(&self) -> Seq<char> {
        "cf_"@ + decimal(self.id as nat)
    }

    /// The name of the query parameter of the filter: `cf_` and the id.
    pub fn key(&self) -> (r: String)
        ensures
            r@ == self.key_text(),
    {
        let mut r = String::from_str("cf_");
        push_decimal(&mut r, self.id);
        r
    }
}

/// The parameters of a list of custom field filters: `cf_` and the id of
/// the field, with the text of the filter.
pub open spec fn custom_filter_params(filters: Option<Vec<CustomFieldFilter>>) -> Seq<
    (Seq<char>, Seq<char>),
> {
    match filters {
        Some(v) => v@.map_values(|f: CustomFieldFilter| (f.key_text(), f.value.text())),
        None => Seq::empty(),
    }
}

/// Pushes the parameters of a list of custom field filters.
pub fn push_custom_field_filters(p: &mut QueryParams, filters: &Option<Vec<CustomFieldFilter>>)
    ensures
        final(p)@ == old(p)@ + custom_filter_params(*filters),
{
    if let Some(v) = filters {
        let ghost start = p@;
        let ghost all = custom_filter_params(*filters);
        let mut i: usize = 0;
        while i < v.len()
            invariant
                i <= v.len(),
                all == v@.map_values(|f: CustomFieldFilter| (f.key_text(), f.value.text())),
                p@ == start + all.take(i as int),
            decreases v.len() - i,
        {
            let key = v[i].key();
            p.push(key.as_str(), &v[i].value);
            assert(all.take(i + 1) =~= all.take(i as int).push(all[i as int]));
            i = i + 1;
        }
        assert(all.take(v.len() as int) =~= all);
    } else {
        assert(p@ =~= old(p)@ + custom_filter_params(*filters));
    }
}

/// Filter for integer values, supporting various comparison operators.
#[derive(Debug, Clone)]
pub enum IntegerFilter {
    /// An exact match for the integer value.
    ExactMatch(u64),
    /// A range match (inclusive) for two integer values.
    Range(u64, u64),
    /// Values less than or equal to the specified integer.
    LessThanOrEqual(u64),
    /// Values greater than or equal to the specified integer.
    GreaterThanOrEqual(u64),
    /// Any value (equivalent to `> 0`).
    Any,
    /// No value (equivalent to `= 0`).
    Unset,
}

impl IntegerFilter {
    /// The text sent for the filter.
    pub open spec fn text(&self) -> Seq<char> {
        match self {
            IntegerFilter::ExactMatch(v) => decimal(*v as nat),
            IntegerFilter::Range(a, b) => "><"@ + decimal(*a as nat) + "|"@ + decimal(*b as nat),
            IntegerFilter::LessThanOrEqual(v) => "<="@ + decimal(*v as nat),
            IntegerFilter::GreaterThanOrEqual(v) => ">="@ + decimal(*v as nat),
            IntegerFilter::Any => "*"@,
            IntegerFilter::Unset => "!*"@,
        }
    }

    /// The text sent for the filter.
    pub fn to_string(&self) -> (r: String)
        ensures
            r@ == self.text(),
    {
        let mut r = String::new();
        match self {
            IntegerFilter::ExactMatch(v) => {
                push_decimal(&mut r, *v);
            },
            IntegerFilter::Range(a, b) => {
                r.append("><");
                push_decimal(&mut r, *a);
                r.append("|");
                push_decimal(&mut r, *b);
            },
            IntegerFilter::LessThanOrEqual(v) => {
                r.append("<=");
                push_decimal(&mut r, *v);
            },
            IntegerFilter::GreaterThanOrEqual(v) => {
                r.append(">=");
                push_decimal(&mut r, *v);
            },
            IntegerFilter::Any => {
                r.append("*");
            },
            IntegerFilter::Unset => {
                r.append("!*");
            },
        }
        assert(r@ =~= self.text());
        r
    }
}

impl ParamValue for IntegerFilter {
    open spec fn param_text(&self) -> Seq<char> {
        self.text()
    }

    fn as_value(&self) -> (r: String) {
        self.to_string()
    }
}

/// Filter for tracker IDs.
#[derive(Debug, Clone)]
pub enum TrackerFilter {
    /// Match any tracker.
    Any,
    /// Match no tracker.
    Unset,
    /// Match a specific list of trackers.
    TheseTrackers(Vec<u64>),
    /// Match any tracker but a specific list of trackers.
    NotTheseTrackers(Vec<u64>),
}

impl TrackerFilter {
    /// The text sent for the filter.
    pub open spec fn text(&self) -> Seq<char> {
        match self {
            TrackerFilter::Any => "*"@,
            TrackerFilter::Unset => "!*"@,
            TrackerFilter::TheseTrackers(ids) => id_list_text(ids@, false),
            TrackerFilter::NotTheseTrackers(ids) => id_list_text(ids@, true),
        }
    }

    /// The text sent for the filter.
    pub fn to_string(&self) -> (r: String)
        ensures
            r@ == self.text(),
    {
        match self {
            TrackerFilter::Any => String::from_str("*"),
            TrackerFilter::Unset => String::from_str("!*"),
            TrackerFilter::TheseTrackers(ids) => id_list_string(ids, false),
            TrackerFilter::NotTheseTrackers(ids) => id_list_string(ids, true),
        }
    }
}

impl ParamValue for TrackerFilter {
    open spec fn param_text(&self) -> Seq<char> {
        self.text()
    }

    fn as_value(&self) -> (r: String) {
        self.to_string()
    }
}

/// Filter for activity IDs.
#[derive(Debug, Clone)]
pub enum ActivityFilter {
    /// Match any activity.
    Any,
    /// Match no activity.
    Unset,
    /// Match a specific list of activities.
    TheseActivities(Vec<u64>),
    /// Match any activity but a specific list of activities.
    NotTheseActivities(Vec<u64>),
}

impl ActivityFilter {
    /// The text sent for the filter.
    pub open spec fn text(&self) -> Seq<char> {
        match self {
            ActivityFilter::Any => "*"@,
            ActivityFilter::Unset => "!*"@,
            ActivityFilter::TheseActivities(ids) => id_list_text(ids@, false),
            ActivityFilter::NotTheseActivities(ids) => id_list_text(ids@, true),
        }
    }

    /// The text sent for the filter.
    pub fn to_string(&self) -> (r: String)
        ensures
            r@ == self.text(),
    {
        match self {
            ActivityFilter::Any => String::from_str("*"),
            ActivityFilter::Unset => String::from_str("!*"),
            ActivityFilter::TheseActivities(ids) => id_list_string(ids, false),
            ActivityFilter::NotTheseActivities(ids) => id_list_string(ids, true),
        }
    }
}

impl ParamValue for ActivityFilter {
    open spec fn param_text(&self) -> Seq<char> {
        self.text()
    }

    fn as_value(&self) -> (r: String) {
        self.to_string()
    }
}

/// Filter for fixed version IDs.
#[derive(Debug, Clone)]
pub enum VersionFilter {
    /// Match any version.
    Any,
    /// Match no version.
    Unset,
    /// Match a specific list of versions.
    TheseVersions(Vec<u64>),
    /// Match any version but a specific list of versions.
    NotTheseVersions(Vec<u64>),
}

impl VersionFilter {
    /// The text sent for the filter.
    pub open spec fn text(&self) -> Seq<char> {
        match self {
            VersionFilter::Any => "*"@,
            VersionFilter::Unset => "!*"@,
            VersionFilter::TheseVersions(ids) => id_list_text(ids@, false),
            VersionFilter::NotTheseVersions(ids) => id_list_text(ids@, true),
        }
    }

    /// The text sent for the filter.
    pub fn to_string(&self) -> (r: String)
        ensures
            r@ == self.text(),
    {
        match self {
            VersionFilter::Any => String::from_str("*"),
            VersionFilter::Unset => String::from_str("!*"),
            VersionFilter::TheseVersions(ids) => id_list_string(ids, false),
            VersionFilter::NotTheseVersions(ids) => id_list_string(ids, true),
        }
    }
}

impl ParamValue for VersionFilter {
    open spec fn param_text(&self) -> Seq<char> {
        self.text()
    }

    fn as_value(&self) -> (r: String) {
        self.to_string()
    }
}

/// Filter for a comparable date time filters for past
/// used for filters on created_on, updated_on fields
#[derive(Debug, Clone)]
pub enum DateTimeFilterPast {
    /// an exact match
    ExactMatch(DateTime),
    /// a range match (inclusive)
    Range(DateTime, DateTime),
    /// we only want values less than or equal to the parameter
    LessThanOrEqual(DateTime),
    /// we only want values greater than or equal to the parameter
    GreaterThanOrEqual(DateTime),
    /// less than n days ago
    LessThanDaysAgo(u32),
    /// more than n days ago
    MoreThanDaysAgo(u32),
    /// within the past n days
    WithinPastDays(u32),
    /// exactly n days ago
    ExactDaysAgo(u32),
    /// today
    Today,
    /// yesterday
    Yesterday,
    /// this week
    ThisWeek,
    /// last week
    LastWeek,
    /// last 2 weeks
    LastTwoWeeks,
    /// this month
    ThisMonth,
    /// last month
    LastMonth,
    /// this year
    ThisYear,
    /// unset value (NULL in DB)
    Unset,
    /// any value (NOT NULL in DB)
    Any,
}

impl DateTimeFilterPast {
    /// The text sent for the filter; a date-time is written as `[year]-[month]-[day]T[hour]:[minute]:[second]Z`.
    pub open spec fn text(&self) -> Seq<char> {
        match self {
            DateTimeFilterPast::ExactMatch(v) => v@.filter_text(),
            DateTimeFilterPast::Range(a, b) => "><"@ + a@.filter_text() + "|"@ + b@.filter_text(),
            DateTimeFilterPast::LessThanOrEqual(v) => "<="@ + v@.filter_text(),
            DateTimeFilterPast::GreaterThanOrEqual(v) => ">="@ + v@.filter_text(),
            DateTimeFilterPast::LessThanDaysAgo(d) => ">t-"@ + decimal(*d as nat),
            DateTimeFilterPast::MoreThanDaysAgo(d) => "<t-"@ + decimal(*d as nat),
            DateTimeFilterPast::WithinPastDays(d) => "><t-"@ + decimal(*d as nat),
            DateTimeFilterPast::ExactDaysAgo(d) => "t-"@ + decimal(*d as nat),
            DateTimeFilterPast::Today => "t"@,
            DateTimeFilterPast::Yesterday => "ld"@,
            DateTimeFilterPast::ThisWeek => "w"@,
            DateTimeFilterPast::LastWeek => "lw"@,
            DateTimeFilterPast::LastTwoWeeks => "l2w"@,
            DateTimeFilterPast::ThisMonth => "m"@,
            DateTimeFilterPast::LastMonth => "lm"@,
            DateTimeFilterPast::ThisYear => "y"@,
            DateTimeFilterPast::Unset => "!*"@,
            DateTimeFilterPast::Any => "*"@,
        }
    }

    /// The text sent for the filter.
    pub fn to_string(&self) -> (r: String)
        ensures
            r@ == self.text(),
    {
        let mut r = String::new();
        match self {
            DateTimeFilterPast::ExactMatch(v) => {
                r.append(v.to_filter_text().as_str());
            },
            DateTimeFilterPast::Range(a, b) => {
                r.append("><");
                r.append(a.to_filter_text().as_str());
                r.append("|");
                r.append(b.to_filter_text().as_str());
            },
            DateTimeFilterPast::LessThanOrEqual(v) => {
                r.append("<=");
                r.append(v.to_filter_text().as_str());
            },
            DateTimeFilterPast::GreaterThanOrEqual(v) => {
                r.append(">=");
                r.append(v.to_filter_text().as_str());
            },
            DateTimeFilterPast::LessThanDaysAgo(d) => {
                r.append(">t-");
                push_decimal(&mut r, *d as u64);
            },
            DateTimeFilterPast::MoreThanDaysAgo(d) => {
                r.append("<t-");
                push_decimal(&mut r, *d as u64);
            },
            DateTimeFilterPast::WithinPastDays(d) => {
                r.append("><t-");
                push_decimal(&mut r, *d as u64);
            },
            DateTimeFilterPast::ExactDaysAgo(d) => {
                r.append("t-");
                push_decimal(&mut r, *d as u64);
            },
            DateTimeFilterPast::Today => {
                r.append("t");
            },
            DateTimeFilterPast::Yesterday => {
                r.append("ld");
            },
            DateTimeFilterPast::ThisWeek => {
                r.append("w");
            },
            DateTimeFilterPast::LastWeek => {
                r.append("lw");
            },
            DateTimeFilterPast::LastTwoWeeks => {
                r.append("l2w");
            },
            DateTimeFilterPast::ThisMonth => {
                r.append("m");
            },
            DateTimeFilterPast::LastMonth => {
                r.append("lm");
            },
            DateTimeFilterPast::ThisYear => {
                r.append("y");
            },
            DateTimeFilterPast::Unset => {
                r.append("!*");
            },
            DateTimeFilterPast::Any => {
                r.append("*");
            },
        }
        assert(r@ =~= self.text());
        r
    }
}

impl ParamValue for DateTimeFilterPast {
    open spec fn param_text(&self) -> Seq<char> {
        self.text()
    }

    fn as_value(&self) -> (r: String) {
        self.to_string()
    }
}

/// Filter for date values, supporting various comparison operators.
#[derive(Debug, Clone)]
pub enum DateFilter {
    /// an exact match
    ExactMatch(Date),
    /// a range match (inclusive)
    Range(Date, Date),
    /// we only want values less than or equal to the parameter
    LessThanOrEqual(Date),
    /// we only want values greater than or equal to the parameter
    GreaterThanOrEqual(Date),
    /// less than n days ago
    LessThanDaysAgo(u32),
    /// more than n days ago
    MoreThanDaysAgo(u32),
    /// within the past n days
    WithinPastDays(u32),
    /// exactly n days ago
    ExactDaysAgo(u32),
    /// in less than n days
    InLessThanDays(u32),
    /// in more than n days
    InMoreThanDays(u32),
    /// in the next n days
    WithinFutureDays(u32),
    /// in exactly n days
    InExactDays(u32),
    /// today
    Today,
    /// yesterday
    Yesterday,
    /// tomorrow
    Tomorrow,
    /// this week
    ThisWeek,
    /// last week
    LastWeek,
    /// last 2 weeks
    LastTwoWeeks,
    /// next week
    NextWeek,
    /// this month
    ThisMonth,
    /// last month
    LastMonth,
    /// next month
    NextMonth,
    /// this year
    ThisYear,
    /// unset value (NULL in DB)
    Unset,
    /// any value (NOT NULL in DB)
    Any,
}

impl DateFilter {
    /// The text sent for the filter; a date is written as `[year]-[month]-[day]`.
    pub open spec fn text(&self) -> Seq<char> {
        match self {
            DateFilter::ExactMatch(v) => v.text(),
            DateFilter::Range(a, b) => "><"@ + a.text() + "|"@ + b.text(),
            DateFilter::LessThanOrEqual(v) => "<="@ + v.text(),
            DateFilter::GreaterThanOrEqual(v) => ">="@ + v.text(),
            DateFilter::LessThanDaysAgo(d) => ">t-"@ + decimal(*d as nat),
            DateFilter::MoreThanDaysAgo(d) => "<t-"@ + decimal(*d as nat),
            DateFilter::WithinPastDays(d) => "><t-"@ + decimal(*d as nat),
            DateFilter::ExactDaysAgo(d) => "t-"@ + decimal(*d as nat),
            DateFilter::InLessThanDays(d) => "<t+"@ + decimal(*d as nat),
            DateFilter::InMoreThanDays(d) => ">t+"@ + decimal(*d as nat),
            DateFilter::WithinFutureDays(d) => "><t+"@ + decimal(*d as nat),
            DateFilter::InExactDays(d) => "t+"@ + decimal(*d as nat),
            DateFilter::Today => "t"@,
            DateFilter::Yesterday => "ld"@,
            DateFilter::Tomorrow => "nd"@,
            DateFilter::ThisWeek => "w"@,
            DateFilter::LastWeek => "lw"@,
            DateFilter::LastTwoWeeks => "l2w"@,
            DateFilter::NextWeek => "nw"@,
            DateFilter::ThisMonth => "m"@,
            DateFilter::LastMonth => "lm"@,
            DateFilter::NextMonth => "nm"@,
            DateFilter::ThisYear => "y"@,
            DateFilter::Unset => "!*"@,
            DateFilter::Any => "*"@,
        }
    }

    /// The text sent for the filter.
    pub fn to_string(&self) -> (r: String)
        ensures
            r@ == self.text(),
    {
        let mut r = String::new();
        match self {
            DateFilter::ExactMatch(v) => {
                r.append(v.to_text().as_str());
            },
            DateFilter::Range(a, b) => {
                r.append("><");
                r.append(a.to_text().as_str());
                r.append("|");
                r.append(b.to_text().as_str());
            },
            DateFilter::LessThanOrEqual(v) => {
                r.append("<=");
                r.append(v.to_text().as_str());
            },
            DateFilter::GreaterThanOrEqual(v) => {
                r.append(">=");
                r.append(v.to_text().as_str());
            },
            DateFilter::LessThanDaysAgo(d) => {
                r.append(">t-");
                push_decimal(&mut r, *d as u64);
            },
            DateFilter::MoreThanDaysAgo(d) => {
                r.append("<t-");
                push_decimal(&mut r, *d as u64);
            },
            DateFilter::WithinPastDays(d) => {
                r.append("><t-");
                push_decimal(&mut r, *d as u64);
            },
            DateFilter::ExactDaysAgo(d) => {
                r.append("t-");
                push_decimal(&mut r, *d as u64);
            },
            DateFilter::InLessThanDays(d) => {
                r.append("<t+");
                push_decimal(&mut r, *d as u64);
            },
            DateFilter::InMoreThanDays(d) => {
                r.append(">t+");
                push_decimal(&mut r, *d as u64);
            },
            DateFilter::WithinFutureDays(d) => {
                r.append("><t+");
                push_decimal(&mut r, *d as u64);
            },
            DateFilter::InExactDays(d) => {
                r.append("t+");
                push_decimal(&mut r, *d as u64);
            },
            DateFilter::Today => {
                r.append("t");
            },
            DateFilter::Yesterday => {
                r.append("ld");
            },
            DateFilter::Tomorrow => {
                r.append("nd");
            },
            DateFilter::ThisWeek => {
                r.append("w");
            },
            DateFilter::LastWeek => {
                r.append("lw");
            },
            DateFilter::LastTwoWeeks => {
                r.append("l2w");
            },
            DateFilter::NextWeek => {
                r.append("nw");
            },
            DateFilter::ThisMonth => {
                r.append("m");
            },
            DateFilter::LastMonth => {
                r.append("lm");
            },
            DateFilter::NextMonth => {
                r.append("nm");
            },
            DateFilter::ThisYear => {
                r.append("y");
            },
            DateFilter::Unset => {
                r.append("!*");
            },
            DateFilter::Any => {
                r.append("*");
            },
        }
        assert(r@ =~= self.text());
        r
    }
}

impl ParamValue for DateFilter {
    open spec fn param_text(&self) -> Seq<char> {
        self.text()
    }

    fn as_value(&self) -> (r: String) {
        self.to_string()
    }
}

/// Filter for float values, supporting various comparison operators.
///
/// Each number is held as its decimal text, as Rust displays an `f64`
/// (such as `1.5` or `2`).
#[derive(Debug, Clone)]
pub enum FloatFilter {
    /// An exact match for the float value.
    ExactMatch(String),
    /// A range match (inclusive) for two float values.
    Range(String, String),
    /// Values less than or equal to the specified float.
    LessThanOrEqual(String),
    /// Values greater than or equal to the specified float.
    GreaterThanOrEqual(String),
    /// Any value (equivalent to `> 0`).
    Any,
    /// No value (equivalent to `= 0`).
    Unset,
}

impl FloatFilter {
    /// The text sent for the filter.
    pub open spec fn text(&self) -> Seq<char> {
        match self {
            FloatFilter::ExactMatch(v) => v@,
            FloatFilter::Range(a, b) => "><"@ + a@ + "|"@ + b@,
            FloatFilter::LessThanOrEqual(v) => "<="@ + v@,
            FloatFilter::GreaterThanOrEqual(v) => ">="@ + v@,
            FloatFilter::Any => "*"@,
            FloatFilter::Unset => "!*"@,
        }
    }

    /// The text sent for the filter.
    pub fn to_string(&self) -> (r: String)
        ensures
            r@ == self.text(),
    {
        let mut r = String::new();
        match self {
            FloatFilter::ExactMatch(v) => {
                r.append(v.as_str());
            },
            FloatFilter::Range(a, b) => {
                r.append("><");
                r.append(a.as_str());
                r.append("|");
                r.append(b.as_str());
            },
            FloatFilter::LessThanOrEqual(v) => {
                r.append("<=");
                r.append(v.as_str());
            },
            FloatFilter::GreaterThanOrEqual(v) => {
                r.append(">=");
                r.append(v.as_str());
            },
            FloatFilter::Any => {
                r.append("*");
            },
            FloatFilter::Unset => {
                r.append("!*");
            },
        }
        assert(r@ =~= self.text());
        r
    }
}

impl ParamValue for FloatFilter {
    open spec fn param_text(&self) -> Seq<char> {
        self.text()
    }

    fn as_value(&self) -> (r: String) {
        self.to_string()
    }
}

/// A list of trackers is sent as the decimals of the ids joined by commas;
/// excluding them sends each id as `!` followed by its decimal instead, a
/// text that differs from the one selecting them whenever the list is not
/// empty.
pub proof fn lemma_tracker_filter_id_lists(ids: Vec<u64>)
    ensures
        TrackerFilter::TheseTrackers(ids).text() == join(ids@.map_values(|e: u64| decimal(e as nat)), ","@),
        TrackerFilter::NotTheseTrackers(ids).text() == join(
            ids@.map_values(|e: u64| "!"@ + decimal(e as nat)),
            ","@,
        ),
        ids@.len() > 0 ==> TrackerFilter::NotTheseTrackers(ids).text()[0] == '!',
        ids@.len() > 0 ==> TrackerFilter::NotTheseTrackers(ids).text() != TrackerFilter::TheseTrackers(ids).text(),
{
    if ids@.len() > 0 {
        lemma_id_list_negation(ids@);
    }
}

/// A list of activities is sent as the decimals of the ids joined by commas;
/// excluding them sends each id as `!` followed by its decimal instead, a
/// text that differs from the one selecting them whenever the list is not
/// empty.
pub proof fn lemma_activity_filter_id_lists(ids: Vec<u64>)
    ensures
        ActivityFilter::TheseActivities(ids).text() == join(ids@.map_values(|e: u64| decimal(e as nat)), ","@),
        ActivityFilter::NotTheseActivities(ids).text() == join(
            ids@.map_values(|e: u64| "!"@ + decimal(e as nat)),
            ","@,
        ),
        ids@.len() > 0 ==> ActivityFilter::NotTheseActivities(ids).text()[0] == '!',
        ids@.len() > 0 ==> ActivityFilter::NotTheseActivities(ids).text() != ActivityFilter::TheseActivities(ids).text(),
{
    if ids@.len() > 0 {
        lemma_id_list_negation(ids@);
    }
}

/// A list of versions is sent as the decimals of the ids joined by commas;
/// excluding them sends each id as `!` followed by its decimal instead, a
/// text that differs from the one selecting them whenever the list is not
/// empty.
pub proof fn lemma_version_filter_id_lists(ids: Vec<u64>)
    ensures
        VersionFilter::TheseVersions(ids).text() == join(ids@.map_values(|e: u64| decimal(e as nat)), ","@),
        VersionFilter::NotTheseVersions(ids).text() == join(
            ids@.map_values(|e: u64| "!"@ + decimal(e as nat)),
            ","@,
        ),
        ids@.len() > 0 ==> VersionFilter::NotTheseVersions(ids).text()[0] == '!',
        ids@.len() > 0 ==> VersionFilter::NotTheseVersions(ids).text() != VersionFilter::TheseVersions(ids).text(),
{
    if ids@.len() > 0 {
        lemma_id_list_negation(ids@);
    }
}

/// Filters of [`IntegerFilter`] that differ only in what they compare, or that
/// take no value, are sent as different texts.
pub proof fn lemma_integer_filter_texts_differ(v0: u64)
    ensures
        IntegerFilter::Any.text() != IntegerFilter::Unset.text(),
        IntegerFilter::LessThanOrEqual(v0).text() != IntegerFilter::GreaterThanOrEqual(v0).text(),
{
    reveal_strlit("!*");
    reveal_strlit("*");
    reveal_strlit("<=");
    reveal_strlit(">=");
    assert("*"@.len() != "!*"@.len());
    lemma_differ_at("<="@, ">="@, IntegerFilter::LessThanOrEqual(v0).text().skip(2), IntegerFilter::GreaterThanOrEqual(v0).text().skip(2), 0);
    assert(IntegerFilter::LessThanOrEqual(v0).text() == "<="@ + IntegerFilter::LessThanOrEqual(v0).text().skip(2));
    assert(IntegerFilter::GreaterThanOrEqual(v0).text() == ">="@ + IntegerFilter::GreaterThanOrEqual(v0).text().skip(2));
}

/// Filters of [`TrackerFilter`] that differ only in what they compare, or that
/// take no value, are sent as different texts.
pub proof fn lemma_tracker_filter_texts_differ()
    ensures
        TrackerFilter::Any.text() != TrackerFilter::Unset.text(),
{
    reveal_strlit("!*");
    reveal_strlit("*");
    assert("*"@.len() != "!*"@.len());
}

/// Filters of [`ActivityFilter`] that differ only in what they compare, or that
/// take no value, are sent as different texts.
pub proof fn lemma_activity_filter_texts_differ()
    ensures
        ActivityFilter::Any.text() != ActivityFilter::Unset.text(),
{
    reveal_strlit("!*");
    reveal_strlit("*");
    assert("*"@.len() != "!*"@.len());
}

/// Filters of [`VersionFilter`] that differ only in what they compare, or that
/// take no value, are sent as different texts.
pub proof fn lemma_version_filter_texts_differ()
    ensures
        VersionFilter::Any.text() != VersionFilter::Unset.text(),
{
    reveal_strlit("!*");
    reveal_strlit("*");
    assert("*"@.len() != "!*"@.len());
}

/// Filters of [`DateTimeFilterPast`] that differ only in what they compare, or that
/// take no value, are sent as different texts.
pub proof fn lemma_date_time_filter_past_texts_differ(v0: DateTime, v1: u32)
    ensures
        DateTimeFilterPast::Today.text() != DateTimeFilterPast::Yesterday.text(),
        DateTimeFilterPast::Today.text() != DateTimeFilterPast::ThisWeek.text(),
        DateTimeFilterPast::Today.text() != DateTimeFilterPast::LastWeek.text(),
        DateTimeFilterPast::Today.text() != DateTimeFilterPast::LastTwoWeeks.text(),
        DateTimeFilterPast::Today.text() != DateTimeFilterPast::ThisMonth.text(),
        DateTimeFilterPast::Today.text() != DateTimeFilterPast::LastMonth.text(),
        DateTimeFilterPast::Today.text() != DateTimeFilterPast::ThisYear.text(),
        DateTimeFilterPast::Today.text() != DateTimeFilterPast::Unset.text(),
        DateTimeFilterPast::Today.text() != DateTimeFilterPast::Any.text(),
        DateTimeFilterPast::Yesterday.text() != DateTimeFilterPast::ThisWeek.text(),
        DateTimeFilterPast::Yesterday.text() != DateTimeFilterPast::LastWeek.text(),
        DateTimeFilterPast::Yesterday.text() != DateTimeFilterPast::LastTwoWeeks.text(),
        DateTimeFilterPast::Yesterday.text() != DateTimeFilterPast::ThisMonth.text(),
        DateTimeFilterPast::Yesterday.text() != DateTimeFilterPast::LastMonth.text(),
        DateTimeFilterPast::Yesterday.text() != DateTimeFilterPast::ThisYear.text(),
        DateTimeFilterPast::Yesterday.text() != DateTimeFilterPast::Unset.text(),
        DateTimeFilterPast::Yesterday.text() != DateTimeFilterPast::Any.text(),
        DateTimeFilterPast::ThisWeek.text() != DateTimeFilterPast::LastWeek.text(),
        DateTimeFilterPast::ThisWeek.text() != DateTimeFilterPast::LastTwoWeeks.text(),
        DateTimeFilterPast::ThisWeek.text() != DateTimeFilterPast::ThisMonth.text(),
        DateTimeFilterPast::ThisWeek.text() != DateTimeFilterPast::LastMonth.text(),
        DateTimeFilterPast::ThisWeek.text() != DateTimeFilterPast::ThisYear.text(),
        DateTimeFilterPast::ThisWeek.text() != DateTimeFilterPast::Unset.text(),
        DateTimeFilterPast::ThisWeek.text() != DateTimeFilterPast::Any.text(),
        DateTimeFilterPast::LastWeek.text() != DateTimeFilterPast::LastTwoWeeks.text(),
        DateTimeFilterPast::LastWeek.text() != DateTimeFilterPast::ThisMonth.text(),
        DateTimeFilterPast::LastWeek.text() != DateTimeFilterPast::LastMonth.text(),
        DateTimeFilterPast::LastWeek.text() != DateTimeFilterPast::ThisYear.text(),
        DateTimeFilterPast::LastWeek.text() != DateTimeFilterPast::Unset.text(),
        DateTimeFilterPast::LastWeek.text() != DateTimeFilterPast::Any.text(),
        DateTimeFilterPast::LastTwoWeeks.text() != DateTimeFilterPast::ThisMonth.text(),
        DateTimeFilterPast::LastTwoWeeks.text() != DateTimeFilterPast::LastMonth.text(),
        DateTimeFilterPast::LastTwoWeeks.text() != DateTimeFilterPast::ThisYear.text(),
        DateTimeFilterPast::LastTwoWeeks.text() != DateTimeFilterPast::Unset.text(),
        DateTimeFilterPast::LastTwoWeeks.text() != DateTimeFilterPast::Any.text(),
        DateTimeFilterPast::ThisMonth.text() != DateTimeFilterPast::LastMonth.text(),
        DateTimeFilterPast::ThisMonth.text() != DateTimeFilterPast::ThisYear.text(),
        DateTimeFilterPast::ThisMonth.text() != DateTimeFilterPast::Unset.text(),
        DateTimeFilterPast::ThisMonth.text() != DateTimeFilterPast::Any.text(),
        DateTimeFilterPast::LastMonth.text() != DateTimeFilterPast::ThisYear.text(),
        DateTimeFilterPast::LastMonth.text() != DateTimeFilterPast::Unset.text(),
        DateTimeFilterPast::LastMonth.text() != DateTimeFilterPast::Any.text(),
        DateTimeFilterPast::ThisYear.text() != DateTimeFilterPast::Unset.text(),
        DateTimeFilterPast::ThisYear.text() != DateTimeFilterPast::Any.text(),
        DateTimeFilterPast::Unset.text() != DateTimeFilterPast::Any.text(),
        DateTimeFilterPast::LessThanOrEqual(v0).text() != DateTimeFilterPast::GreaterThanOrEqual(v0).text(),
        DateTimeFilterPast::LessThanDaysAgo(v1).text() != DateTimeFilterPast::MoreThanDaysAgo(v1).text(),
        DateTimeFilterPast::LessThanDaysAgo(v1).text() != DateTimeFilterPast::WithinPastDays(v1).text(),
        DateTimeFilterPast::LessThanDaysAgo(v1).text() != DateTimeFilterPast::ExactDaysAgo(v1).text(),
        DateTimeFilterPast::MoreThanDaysAgo(v1).text() != DateTimeFilterPast::WithinPastDays(v1).text(),
        DateTimeFilterPast::MoreThanDaysAgo(v1).text() != DateTimeFilterPast::ExactDaysAgo(v1).text(),
        DateTimeFilterPast::WithinPastDays(v1).text() != DateTimeFilterPast::ExactDaysAgo(v1).text(),
{
    reveal_strlit("!*");
    reveal_strlit("*");
    reveal_strlit("<=");
    reveal_strlit("<t-");
    reveal_strlit("><t-");
    reveal_strlit(">=");
    reveal_strlit(">t-");
    reveal_strlit("l2w");
    reveal_strlit("ld");
    reveal_strlit("lm");
    reveal_strlit("lw");
    reveal_strlit("m");
    reveal_strlit("t");
    reveal_strlit("t-");
    reveal_strlit("w");
    reveal_strlit("y");
    assert("t"@.len() != "ld"@.len());
    assert("t"@[0] != "w"@[0]);
    assert("t"@.len() != "lw"@.len());
    assert("t"@.len() != "l2w"@.len());
    assert("t"@[0] != "m"@[0]);
    assert("t"@.len() != "lm"@.len());
    assert("t"@[0] != "y"@[0]);
    assert("t"@.len() != "!*"@.len());
    assert("t"@[0] != "*"@[0]);
    assert("ld"@.len() != "w"@.len());
    assert("ld"@[1] != "lw"@[1]);
    assert("ld"@.len() != "l2w"@.len());
    assert("ld"@.len() != "m"@.len());
    assert("ld"@[1] != "lm"@[1]);
    assert("ld"@.len() != "y"@.len());
    assert("ld"@[0] != "!*"@[0]);
    assert("ld"@.len() != "*"@.len());
    assert("w"@.len() != "lw"@.len());
    assert("w"@.len() != "l2w"@.len());
    assert("w"@[0] != "m"@[0]);
    assert("w"@.len() != "lm"@.len());
    assert("w"@[0] != "y"@[0]);
    assert("w"@.len() != "!*"@.len());
    assert("w"@[0] != "*"@[0]);
    assert("lw"@.len() != "l2w"@.len());
    assert("lw"@.len() != "m"@.len());
    assert("lw"@[1] != "lm"@[1]);
    assert("lw"@.len() != "y"@.len());
    assert("lw"@[0] != "!*"@[0]);
    assert("lw"@.len() != "*"@.len());
    assert("l2w"@.len() != "m"@.len());
    assert("l2w"@.len() != "lm"@.len());
    assert("l2w"@.len() != "y"@.len());
    assert("l2w"@.len() != "!*"@.len());
    assert("l2w"@.len() != "*"@.len());
    assert("m"@.len() != "lm"@.len());
    assert("m"@[0] != "y"@[0]);
    assert("m"@.len() != "!*"@.len());
    assert("m"@[0] != "*"@[0]);
    assert("lm"@.len() != "y"@.len());
    assert("lm"@[0] != "!*"@[0]);
    assert("lm"@.len() != "*"@.len());
    assert("y"@.len() != "!*"@.len());
    assert("y"@[0] != "*"@[0]);
    assert("!*"@.len() != "*"@.len());
    lemma_differ_at("<="@, ">="@, DateTimeFilterPast::LessThanOrEqual(v0).text().skip(2), DateTimeFilterPast::GreaterThanOrEqual(v0).text().skip(2), 0);
    assert(DateTimeFilterPast::LessThanOrEqual(v0).text() == "<="@ + DateTimeFilterPast::LessThanOrEqual(v0).text().skip(2));
    assert(DateTimeFilterPast::GreaterThanOrEqual(v0).text() == ">="@ + DateTimeFilterPast::GreaterThanOrEqual(v0).text().skip(2));
    lemma_differ_at(">t-"@, "<t-"@, DateTimeFilterPast::LessThanDaysAgo(v1).text().skip(3), DateTimeFilterPast::MoreThanDaysAgo(v1).text().skip(3), 0);
    assert(DateTimeFilterPast::LessThanDaysAgo(v1).text() == ">t-"@ + DateTimeFilterPast::LessThanDaysAgo(v1).text().skip(3));
    assert(DateTimeFilterPast::MoreThanDaysAgo(v1).text() == "<t-"@ + DateTimeFilterPast::MoreThanDaysAgo(v1).text().skip(3));
    lemma_differ_at(">t-"@, "><t-"@, DateTimeFilterPast::LessThanDaysAgo(v1).text().skip(3), DateTimeFilterPast::WithinPastDays(v1).text().skip(4), 1);
    assert(DateTimeFilterPast::LessThanDaysAgo(v1).text() == ">t-"@ + DateTimeFilterPast::LessThanDaysAgo(v1).text().skip(3));
    assert(DateTimeFilterPast::WithinPastDays(v1).text() == "><t-"@ + DateTimeFilterPast::WithinPastDays(v1).text().skip(4));
    lemma_differ_at(">t-"@, "t-"@, DateTimeFilterPast::LessThanDaysAgo(v1).text().skip(3), DateTimeFilterPast::ExactDaysAgo(v1).text().skip(2), 0);
    assert(DateTimeFilterPast::LessThanDaysAgo(v1).text() == ">t-"@ + DateTimeFilterPast::LessThanDaysAgo(v1).text().skip(3));
    assert(DateTimeFilterPast::ExactDaysAgo(v1).text() == "t-"@ + DateTimeFilterPast::ExactDaysAgo(v1).text().skip(2));
    lemma_differ_at("<t-"@, "><t-"@, DateTimeFilterPast::MoreThanDaysAgo(v1).text().skip(3), DateTimeFilterPast::WithinPastDays(v1).text().skip(4), 0);
    assert(DateTimeFilterPast::MoreThanDaysAgo(v1).text() == "<t-"@ + DateTimeFilterPast::MoreThanDaysAgo(v1).text().skip(3));
    assert(DateTimeFilterPast::WithinPastDays(v1).text() == "><t-"@ + DateTimeFilterPast::WithinPastDays(v1).text().skip(4));
    lemma_differ_at("<t-"@, "t-"@, DateTimeFilterPast::MoreThanDaysAgo(v1).text().skip(3), DateTimeFilterPast::ExactDaysAgo(v1).text().skip(2), 0);
    assert(DateTimeFilterPast::MoreThanDaysAgo(v1).text() == "<t-"@ + DateTimeFilterPast::MoreThanDaysAgo(v1).text().skip(3));
    assert(DateTimeFilterPast::ExactDaysAgo(v1).text() == "t-"@ + DateTimeFilterPast::ExactDaysAgo(v1).text().skip(2));
    lemma_differ_at("><t-"@, "t-"@, DateTimeFilterPast::WithinPastDays(v1).text().skip(4), DateTimeFilterPast::ExactDaysAgo(v1).text().skip(2), 0);
    assert(DateTimeFilterPast::WithinPastDays(v1).text() == "><t-"@ + DateTimeFilterPast::WithinPastDays(v1).text().skip(4));
    assert(DateTimeFilterPast::ExactDaysAgo(v1).text() == "t-"@ + DateTimeFilterPast::ExactDaysAgo(v1).text().skip(2));
}

/// Filters of [`DateFilter`] that differ only in what they compare, or that
/// take no value, are sent as different texts.
pub proof fn lemma_date_filter_texts_differ(v0: Date, v1: u32)
    ensures
        DateFilter::Today.text() != DateFilter::Yesterday.text(),
        DateFilter::Today.text() != DateFilter::Tomorrow.text(),
        DateFilter::Today.text() != DateFilter::ThisWeek.text(),
        DateFilter::Today.text() != DateFilter::LastWeek.text(),
        DateFilter::Today.text() != DateFilter::LastTwoWeeks.text(),
        DateFilter::Today.text() != DateFilter::NextWeek.text(),
        DateFilter::Today.text() != DateFilter::ThisMonth.text(),
        DateFilter::Today.text() != DateFilter::LastMonth.text(),
        DateFilter::Today.text() != DateFilter::NextMonth.text(),
        DateFilter::Today.text() != DateFilter::ThisYear.text(),
        DateFilter::Today.text() != DateFilter::Unset.text(),
        DateFilter::Today.text() != DateFilter::Any.text(),
        DateFilter::Yesterday.text() != DateFilter::Tomorrow.text(),
        DateFilter::Yesterday.text() != DateFilter::ThisWeek.text(),
        DateFilter::Yesterday.text() != DateFilter::LastWeek.text(),
        DateFilter::Yesterday.text() != DateFilter::LastTwoWeeks.text(),
        DateFilter::Yesterday.text() != DateFilter::NextWeek.text(),
        DateFilter::Yesterday.text() != DateFilter::ThisMonth.text(),
        DateFilter::Yesterday.text() != DateFilter::LastMonth.text(),
        DateFilter::Yesterday.text() != DateFilter::NextMonth.text(),
        DateFilter::Yesterday.text() != DateFilter::ThisYear.text(),
        DateFilter::Yesterday.text() != DateFilter::Unset.text(),
        DateFilter::Yesterday.text() != DateFilter::Any.text(),
        DateFilter::Tomorrow.text() != DateFilter::ThisWeek.text(),
        DateFilter::Tomorrow.text() != DateFilter::LastWeek.text(),
        DateFilter::Tomorrow.text() != DateFilter::LastTwoWeeks.text(),
        DateFilter::Tomorrow.text() != DateFilter::NextWeek.text(),
        DateFilter::Tomorrow.text() != DateFilter::ThisMonth.text(),
        DateFilter::Tomorrow.text() != DateFilter::LastMonth.text(),
        DateFilter::Tomorrow.text() != DateFilter::NextMonth.text(),
        DateFilter::Tomorrow.text() != DateFilter::ThisYear.text(),
        DateFilter::Tomorrow.text() != DateFilter::Unset.text(),
        DateFilter::Tomorrow.text() != DateFilter::Any.text(),
        DateFilter::ThisWeek.text() != DateFilter::LastWeek.text(),
        DateFilter::ThisWeek.text() != DateFilter::LastTwoWeeks.text(),
        DateFilter::ThisWeek.text() != DateFilter::NextWeek.text(),
        DateFilter::ThisWeek.text() != DateFilter::ThisMonth.text(),
        DateFilter::ThisWeek.text() != DateFilter::LastMonth.text(),
        DateFilter::ThisWeek.text() != DateFilter::NextMonth.text(),
        DateFilter::ThisWeek.text() != DateFilter::ThisYear.text(),
        DateFilter::ThisWeek.text() != DateFilter::Unset.text(),
        DateFilter::ThisWeek.text() != DateFilter::Any.text(),
        DateFilter::LastWeek.text() != DateFilter::LastTwoWeeks.text(),
        DateFilter::LastWeek.text() != DateFilter::NextWeek.text(),
        DateFilter::LastWeek.text() != DateFilter::ThisMonth.text(),
        DateFilter::LastWeek.text() != DateFilter::LastMonth.text(),
        DateFilter::LastWeek.text() != DateFilter::NextMonth.text(),
        DateFilter::LastWeek.text() != DateFilter::ThisYear.text(),
        DateFilter::LastWeek.text() != DateFilter::Unset.text(),
        DateFilter::LastWeek.text() != DateFilter::Any.text(),
        DateFilter::LastTwoWeeks.text() != DateFilter::NextWeek.text(),
        DateFilter::LastTwoWeeks.text() != DateFilter::ThisMonth.text(),
        DateFilter::LastTwoWeeks.text() != DateFilter::LastMonth.text(),
        DateFilter::LastTwoWeeks.text() != DateFilter::NextMonth.text(),
        DateFilter::LastTwoWeeks.text() != DateFilter::ThisYear.text(),
        DateFilter::LastTwoWeeks.text() != DateFilter::Unset.text(),
        DateFilter::LastTwoWeeks.text() != DateFilter::Any.text(),
        DateFilter::NextWeek.text() != DateFilter::ThisMonth.text(),
        DateFilter::NextWeek.text() != DateFilter::LastMonth.text(),
        DateFilter::NextWeek.text() != DateFilter::NextMonth.text(),
        DateFilter::NextWeek.text() != DateFilter::ThisYear.text(),
        DateFilter::NextWeek.text() != DateFilter::Unset.text(),
        DateFilter::NextWeek.text() != DateFilter::Any.text(),
        DateFilter::ThisMonth.text() != DateFilter::LastMonth.text(),
        DateFilter::ThisMonth.text() != DateFilter::NextMonth.text(),
        DateFilter::ThisMonth.text() != DateFilter::ThisYear.text(),
        DateFilter::ThisMonth.text() != DateFilter::Unset.text(),
        DateFilter::ThisMonth.text() != DateFilter::Any.text(),
        DateFilter::LastMonth.text() != DateFilter::NextMonth.text(),
        DateFilter::LastMonth.text() != DateFilter::ThisYear.text(),
        DateFilter::LastMonth.text() != DateFilter::Unset.text(),
        DateFilter::LastMonth.text() != DateFilter::Any.text(),
        DateFilter::NextMonth.text() != DateFilter::ThisYear.text(),
        DateFilter::NextMonth.text() != DateFilter::Unset.text(),
        DateFilter::NextMonth.text() != DateFilter::Any.text(),
        DateFilter::ThisYear.text() != DateFilter::Unset.text(),
        DateFilter::ThisYear.text() != DateFilter::Any.text(),
        DateFilter::Unset.text() != DateFilter::Any.text(),
        DateFilter::LessThanOrEqual(v0).text() != DateFilter::GreaterThanOrEqual(v0).text(),
        DateFilter::LessThanDaysAgo(v1).text() != DateFilter::MoreThanDaysAgo(v1).text(),
        DateFilter::LessThanDaysAgo(v1).text() != DateFilter::WithinPastDays(v1).text(),
        DateFilter::LessThanDaysAgo(v1).text() != DateFilter::ExactDaysAgo(v1).text(),
        DateFilter::LessThanDaysAgo(v1).text() != DateFilter::InLessThanDays(v1).text(),
        DateFilter::LessThanDaysAgo(v1).text() != DateFilter::InMoreThanDays(v1).text(),
        DateFilter::LessThanDaysAgo(v1).text() != DateFilter::WithinFutureDays(v1).text(),
        DateFilter::LessThanDaysAgo(v1).text() != DateFilter::InExactDays(v1).text(),
        DateFilter::MoreThanDaysAgo(v1).text() != DateFilter::WithinPastDays(v1).text(),
        DateFilter::MoreThanDaysAgo(v1).text() != DateFilter::ExactDaysAgo(v1).text(),
        DateFilter::MoreThanDaysAgo(v1).text() != DateFilter::InLessThanDays(v1).text(),
        DateFilter::MoreThanDaysAgo(v1).text() != DateFilter::InMoreThanDays(v1).text(),
        DateFilter::MoreThanDaysAgo(v1).text() != DateFilter::WithinFutureDays(v1).text(),
        DateFilter::MoreThanDaysAgo(v1).text() != DateFilter::InExactDays(v1).text(),
        DateFilter::WithinPastDays(v1).text() != DateFilter::ExactDaysAgo(v1).text(),
        DateFilter::WithinPastDays(v1).text() != DateFilter::InLessThanDays(v1).text(),
        DateFilter::WithinPastDays(v1).text() != DateFilter::InMoreThanDays(v1).text(),
        DateFilter::WithinPastDays(v1).text() != DateFilter::WithinFutureDays(v1).text(),
        DateFilter::WithinPastDays(v1).text() != DateFilter::InExactDays(v1).text(),
        DateFilter::ExactDaysAgo(v1).text() != DateFilter::InLessThanDays(v1).text(),
        DateFilter::ExactDaysAgo(v1).text() != DateFilter::InMoreThanDays(v1).text(),
        DateFilter::ExactDaysAgo(v1).text() != DateFilter::WithinFutureDays(v1).text(),
        DateFilter::ExactDaysAgo(v1).text() != DateFilter::InExactDays(v1).text(),
        DateFilter::InLessThanDays(v1).text() != DateFilter::InMoreThanDays(v1).text(),
        DateFilter::InLessThanDays(v1).text() != DateFilter::WithinFutureDays(v1).text(),
        DateFilter::InLessThanDays(v1).text() != DateFilter::InExactDays(v1).text(),
        DateFilter::InMoreThanDays(v1).text() != DateFilter::WithinFutureDays(v1).text(),
        DateFilter::InMoreThanDays(v1).text() != DateFilter::InExactDays(v1).text(),
        DateFilter::WithinFutureDays(v1).text() != DateFilter::InExactDays(v1).text(),
{
    reveal_strlit("!*");
    reveal_strlit("*");
    reveal_strlit("<=");
    reveal_strlit("<t+");
    reveal_strlit("<t-");
    reveal_strlit("><t+");
    reveal_strlit("><t-");
    reveal_strlit(">=");
    reveal_strlit(">t+");
    reveal_strlit(">t-");
    reveal_strlit("l2w");
    reveal_strlit("ld");
    reveal_strlit("lm");
    reveal_strlit("lw");
    reveal_strlit("m");
    reveal_strlit("nd");
    reveal_strlit("nm");
    reveal_strlit("nw");
    reveal_strlit("t");
    reveal_strlit("t+");
    reveal_strlit("t-");
    reveal_strlit("w");
    reveal_strlit("y");
    assert("t"@.len() != "ld"@.len());
    assert("t"@.len() != "nd"@.len());
    assert("t"@[0] != "w"@[0]);
    assert("t"@.len() != "lw"@.len());
    assert("t"@.len() != "l2w"@.len());
    assert("t"@.len() != "nw"@.len());
    assert("t"@[0] != "m"@[0]);
    assert("t"@.len() != "lm"@.len());
    assert("t"@.len() != "nm"@.len());
    assert("t"@[0] != "y"@[0]);
    assert("t"@.len() != "!*"@.len());
    assert("t"@[0] != "*"@[0]);
    assert("ld"@[0] != "nd"@[0]);
    assert("ld"@.len() != "w"@.len());
    assert("ld"@[1] != "lw"@[1]);
    assert("ld"@.len() != "l2w"@.len());
    assert("ld"@[0] != "nw"@[0]);
    assert("ld"@.len() != "m"@.len());
    assert("ld"@[1] != "lm"@[1]);
    assert("ld"@[0] != "nm"@[0]);
    assert("ld"@.len() != "y"@.len());
    assert("ld"@[0] != "!*"@[0]);
    assert("ld"@.len() != "*"@.len());
    assert("nd"@.len() != "w"@.len());
    assert("nd"@[0] != "lw"@[0]);
    assert("nd"@.len() != "l2w"@.len());
    assert("nd"@[1] != "nw"@[1]);
    assert("nd"@.len() != "m"@.len());
    assert("nd"@[0] != "lm"@[0]);
    assert("nd"@[1] != "nm"@[1]);
    assert("nd"@.len() != "y"@.len());
    assert("nd"@[0] != "!*"@[0]);
    assert("nd"@.len() != "*"@.len());
    assert("w"@.len() != "lw"@.len());
    assert("w"@.len() != "l2w"@.len());
    assert("w"@.len() != "nw"@.len());
    assert("w"@[0] != "m"@[0]);
    assert("w"@.len() != "lm"@.len());
    assert("w"@.len() != "nm"@.len());
    assert("w"@[0] != "y"@[0]);
    assert("w"@.len() != "!*"@.len());
    assert("w"@[0] != "*"@[0]);
    assert("lw"@.len() != "l2w"@.len());
    assert("lw"@[0] != "nw"@[0]);
    assert("lw"@.len() != "m"@.len());
    assert("lw"@[1] != "lm"@[1]);
    assert("lw"@[0] != "nm"@[0]);
    assert("lw"@.len() != "y"@.len());
    assert("lw"@[0] != "!*"@[0]);
    assert("lw"@.len() != "*"@.len());
    assert("l2w"@.len() != "nw"@.len());
    assert("l2w"@.len() != "m"@.len());
    assert("l2w"@.len() != "lm"@.len());
    assert("l2w"@.len() != "nm"@.len());
    assert("l2w"@.len() != "y"@.len());
    assert("l2w"@.len() != "!*"@.len());
    assert("l2w"@.len() != "*"@.len());
    assert("nw"@.len() != "m"@.len());
    assert("nw"@[0] != "lm"@[0]);
    assert("nw"@[1] != "nm"@[1]);
    assert("nw"@.len() != "y"@.len());
    assert("nw"@[0] != "!*"@[0]);
    assert("nw"@.len() != "*"@.len());
    assert("m"@.len() != "lm"@.len());
    assert("m"@.len() != "nm"@.len());
    assert("m"@[0] != "y"@[0]);
    assert("m"@.len() != "!*"@.len());
    assert("m"@[0] != "*"@[0]);
    assert("lm"@[0] != "nm"@[0]);
    assert("lm"@.len() != "y"@.len());
    assert("lm"@[0] != "!*"@[0]);
    assert("lm"@.len() != "*"@.len());
    assert("nm"@.len() != "y"@.len());
    assert("nm"@[0] != "!*"@[0]);
    assert("nm"@.len() != "*"@.len());
    assert("y"@.len() != "!*"@.len());
    assert("y"@[0] != "*"@[0]);
    assert("!*"@.len() != "*"@.len());
    lemma_differ_at("<="@, ">="@, DateFilter::LessThanOrEqual(v0).text().skip(2), DateFilter::GreaterThanOrEqual(v0).text().skip(2), 0);
    assert(DateFilter::LessThanOrEqual(v0).text() == "<="@ + DateFilter::LessThanOrEqual(v0).text().skip(2));
    assert(DateFilter::GreaterThanOrEqual(v0).text() == ">="@ + DateFilter::GreaterThanOrEqual(v0).text().skip(2));
    lemma_differ_at(">t-"@, "<t-"@, DateFilter::LessThanDaysAgo(v1).text().skip(3), DateFilter::MoreThanDaysAgo(v1).text().skip(3), 0);
    assert(DateFilter::LessThanDaysAgo(v1).text() == ">t-"@ + DateFilter::LessThanDaysAgo(v1).text().skip(3));
    assert(DateFilter::MoreThanDaysAgo(v1).text() == "<t-"@ + DateFilter::MoreThanDaysAgo(v1).text().skip(3));
    lemma_differ_at(">t-"@, "><t-"@, DateFilter::LessThanDaysAgo(v1).text().skip(3), DateFilter::WithinPastDays(v1).text().skip(4), 1);
    assert(DateFilter::LessThanDaysAgo(v1).text() == ">t-"@ + DateFilter::LessThanDaysAgo(v1).text().skip(3));
    assert(DateFilter::WithinPastDays(v1).text() == "><t-"@ + DateFilter::WithinPastDays(v1).text().skip(4));
    lemma_differ_at(">t-"@, "t-"@, DateFilter::LessThanDaysAgo(v1).text().skip(3), DateFilter::ExactDaysAgo(v1).text().skip(2), 0);
    assert(DateFilter::LessThanDaysAgo(v1).text() == ">t-"@ + DateFilter::LessThanDaysAgo(v1).text().skip(3));
    assert(DateFilter::ExactDaysAgo(v1).text() == "t-"@ + DateFilter::ExactDaysAgo(v1).text().skip(2));
    lemma_differ_at(">t-"@, "<t+"@, DateFilter::LessThanDaysAgo(v1).text().skip(3), DateFilter::InLessThanDays(v1).text().skip(3), 0);
    assert(DateFilter::LessThanDaysAgo(v1).text() == ">t-"@ + DateFilter::LessThanDaysAgo(v1).text().skip(3));
    assert(DateFilter::InLessThanDays(v1).text() == "<t+"@ + DateFilter::InLessThanDays(v1).text().skip(3));
    lemma_differ_at(">t-"@, ">t+"@, DateFilter::LessThanDaysAgo(v1).text().skip(3), DateFilter::InMoreThanDays(v1).text().skip(3), 2);
    assert(DateFilter::LessThanDaysAgo(v1).text() == ">t-"@ + DateFilter::LessThanDaysAgo(v1).text().skip(3));
    assert(DateFilter::InMoreThanDays(v1).text() == ">t+"@ + DateFilter::InMoreThanDays(v1).text().skip(3));
    lemma_differ_at(">t-"@, "><t+"@, DateFilter::LessThanDaysAgo(v1).text().skip(3), DateFilter::WithinFutureDays(v1).text().skip(4), 1);
    assert(DateFilter::LessThanDaysAgo(v1).text() == ">t-"@ + DateFilter::LessThanDaysAgo(v1).text().skip(3));
    assert(DateFilter::WithinFutureDays(v1).text() == "><t+"@ + DateFilter::WithinFutureDays(v1).text().skip(4));
    lemma_differ_at(">t-"@, "t+"@, DateFilter::LessThanDaysAgo(v1).text().skip(3), DateFilter::InExactDays(v1).text().skip(2), 0);
    assert(DateFilter::LessThanDaysAgo(v1).text() == ">t-"@ + DateFilter::LessThanDaysAgo(v1).text().skip(3));
    assert(DateFilter::InExactDays(v1).text() == "t+"@ + DateFilter::InExactDays(v1).text().skip(2));
    lemma_differ_at("<t-"@, "><t-"@, DateFilter::MoreThanDaysAgo(v1).text().skip(3), DateFilter::WithinPastDays(v1).text().skip(4), 0);
    assert(DateFilter::MoreThanDaysAgo(v1).text() == "<t-"@ + DateFilter::MoreThanDaysAgo(v1).text().skip(3));
    assert(DateFilter::WithinPastDays(v1).text() == "><t-"@ + DateFilter::WithinPastDays(v1).text().skip(4));
    lemma_differ_at("<t-"@, "t-"@, DateFilter::MoreThanDaysAgo(v1).text().skip(3), DateFilter::ExactDaysAgo(v1).text().skip(2), 0);
    assert(DateFilter::MoreThanDaysAgo(v1).text() == "<t-"@ + DateFilter::MoreThanDaysAgo(v1).text().skip(3));
    assert(DateFilter::ExactDaysAgo(v1).text() == "t-"@ + DateFilter::ExactDaysAgo(v1).text().skip(2));
    lemma_differ_at("<t-"@, "<t+"@, DateFilter::MoreThanDaysAgo(v1).text().skip(3), DateFilter::InLessThanDays(v1).text().skip(3), 2);
    assert(DateFilter::MoreThanDaysAgo(v1).text() == "<t-"@ + DateFilter::MoreThanDaysAgo(v1).text().skip(3));
    assert(DateFilter::InLessThanDays(v1).text() == "<t+"@ + DateFilter::InLessThanDays(v1).text().skip(3));
    lemma_differ_at("<t-"@, ">t+"@, DateFilter::MoreThanDaysAgo(v1).text().skip(3), DateFilter::InMoreThanDays(v1).text().skip(3), 0);
    assert(DateFilter::MoreThanDaysAgo(v1).text() == "<t-"@ + DateFilter::MoreThanDaysAgo(v1).text().skip(3));
    assert(DateFilter::InMoreThanDays(v1).text() == ">t+"@ + DateFilter::InMoreThanDays(v1).text().skip(3));
    lemma_differ_at("<t-"@, "><t+"@, DateFilter::MoreThanDaysAgo(v1).text().skip(3), DateFilter::WithinFutureDays(v1).text().skip(4), 0);
    assert(DateFilter::MoreThanDaysAgo(v1).text() == "<t-"@ + DateFilter::MoreThanDaysAgo(v1).text().skip(3));
    assert(DateFilter::WithinFutureDays(v1).text() == "><t+"@ + DateFilter::WithinFutureDays(v1).text().skip(4));
    lemma_differ_at("<t-"@, "t+"@, DateFilter::MoreThanDaysAgo(v1).text().skip(3), DateFilter::InExactDays(v1).text().skip(2), 0);
    assert(DateFilter::MoreThanDaysAgo(v1).text() == "<t-"@ + DateFilter::MoreThanDaysAgo(v1).text().skip(3));
    assert(DateFilter::InExactDays(v1).text() == "t+"@ + DateFilter::InExactDays(v1).text().skip(2));
    lemma_differ_at("><t-"@, "t-"@, DateFilter::WithinPastDays(v1).text().skip(4), DateFilter::ExactDaysAgo(v1).text().skip(2), 0);
    assert(DateFilter::WithinPastDays(v1).text() == "><t-"@ + DateFilter::WithinPastDays(v1).text().skip(4));
    assert(DateFilter::ExactDaysAgo(v1).text() == "t-"@ + DateFilter::ExactDaysAgo(v1).text().skip(2));
    lemma_differ_at("><t-"@, "<t+"@, DateFilter::WithinPastDays(v1).text().skip(4), DateFilter::InLessThanDays(v1).text().skip(3), 0);
    assert(DateFilter::WithinPastDays(v1).text() == "><t-"@ + DateFilter::WithinPastDays(v1).text().skip(4));
    assert(DateFilter::InLessThanDays(v1).text() == "<t+"@ + DateFilter::InLessThanDays(v1).text().skip(3));
    lemma_differ_at("><t-"@, ">t+"@, DateFilter::WithinPastDays(v1).text().skip(4), DateFilter::InMoreThanDays(v1).text().skip(3), 1);
    assert(DateFilter::WithinPastDays(v1).text() == "><t-"@ + DateFilter::WithinPastDays(v1).text().skip(4));
    assert(DateFilter::InMoreThanDays(v1).text() == ">t+"@ + DateFilter::InMoreThanDays(v1).text().skip(3));
    lemma_differ_at("><t-"@, "><t+"@, DateFilter::WithinPastDays(v1).text().skip(4), DateFilter::WithinFutureDays(v1).text().skip(4), 3);
    assert(DateFilter::WithinPastDays(v1).text() == "><t-"@ + DateFilter::WithinPastDays(v1).text().skip(4));
    assert(DateFilter::WithinFutureDays(v1).text() == "><t+"@ + DateFilter::WithinFutureDays(v1).text().skip(4));
    lemma_differ_at("><t-"@, "t+"@, DateFilter::WithinPastDays(v1).text().skip(4), DateFilter::InExactDays(v1).text().skip(2), 0);
    assert(DateFilter::WithinPastDays(v1).text() == "><t-"@ + DateFilter::WithinPastDays(v1).text().skip(4));
    assert(DateFilter::InExactDays(v1).text() == "t+"@ + DateFilter::InExactDays(v1).text().skip(2));
    lemma_differ_at("t-"@, "<t+"@, DateFilter::ExactDaysAgo(v1).text().skip(2), DateFilter::InLessThanDays(v1).text().skip(3), 0);
    assert(DateFilter::ExactDaysAgo(v1).text() == "t-"@ + DateFilter::ExactDaysAgo(v1).text().skip(2));
    assert(DateFilter::InLessThanDays(v1).text() == "<t+"@ + DateFilter::InLessThanDays(v1).text().skip(3));
    lemma_differ_at("t-"@, ">t+"@, DateFilter::ExactDaysAgo(v1).text().skip(2), DateFilter::InMoreThanDays(v1).text().skip(3), 0);
    assert(DateFilter::ExactDaysAgo(v1).text() == "t-"@ + DateFilter::ExactDaysAgo(v1).text().skip(2));
    assert(DateFilter::InMoreThanDays(v1).text() == ">t+"@ + DateFilter::InMoreThanDays(v1).text().skip(3));
    lemma_differ_at("t-"@, "><t+"@, DateFilter::ExactDaysAgo(v1).text().skip(2), DateFilter::WithinFutureDays(v1).text().skip(4), 0);
    assert(DateFilter::ExactDaysAgo(v1).text() == "t-"@ + DateFilter::ExactDaysAgo(v1).text().skip(2));
    assert(DateFilter::WithinFutureDays(v1).text() == "><t+"@ + DateFilter::WithinFutureDays(v1).text().skip(4));
    lemma_differ_at("t-"@, "t+"@, DateFilter::ExactDaysAgo(v1).text().skip(2), DateFilter::InExactDays(v1).text().skip(2), 1);
    assert(DateFilter::ExactDaysAgo(v1).text() == "t-"@ + DateFilter::ExactDaysAgo(v1).text().skip(2));
    assert(DateFilter::InExactDays(v1).text() == "t+"@ + DateFilter::InExactDays(v1).text().skip(2));
    lemma_differ_at("<t+"@, ">t+"@, DateFilter::InLessThanDays(v1).text().skip(3), DateFilter::InMoreThanDays(v1).text().skip(3), 0);
    assert(DateFilter::InLessThanDays(v1).text() == "<t+"@ + DateFilter::InLessThanDays(v1).text().skip(3));
    assert(DateFilter::InMoreThanDays(v1).text() == ">t+"@ + DateFilter::InMoreThanDays(v1).text().skip(3));
    lemma_differ_at("<t+"@, "><t+"@, DateFilter::InLessThanDays(v1).text().skip(3), DateFilter::WithinFutureDays(v1).text().skip(4), 0);
    assert(DateFilter::InLessThanDays(v1).text() == "<t+"@ + DateFilter::InLessThanDays(v1).text().skip(3));
    assert(DateFilter::WithinFutureDays(v1).text() == "><t+"@ + DateFilter::WithinFutureDays(v1).text().skip(4));
    lemma_differ_at("<t+"@, "t+"@, DateFilter::InLessThanDays(v1).text().skip(3), DateFilter::InExactDays(v1).text().skip(2), 0);
    assert(DateFilter::InLessThanDays(v1).text() == "<t+"@ + DateFilter::InLessThanDays(v1).text().skip(3));
    assert(DateFilter::InExactDays(v1).text() == "t+"@ + DateFilter::InExactDays(v1).text().skip(2));
    lemma_differ_at(">t+"@, "><t+"@, DateFilter::InMoreThanDays(v1).text().skip(3), DateFilter::WithinFutureDays(v1).text().skip(4), 1);
    assert(DateFilter::InMoreThanDays(v1).text() == ">t+"@ + DateFilter::InMoreThanDays(v1).text().skip(3));
    assert(DateFilter::WithinFutureDays(v1).text() == "><t+"@ + DateFilter::WithinFutureDays(v1).text().skip(4));
    lemma_differ_at(">t+"@, "t+"@, DateFilter::InMoreThanDays(v1).text().skip(3), DateFilter::InExactDays(v1).text().skip(2), 0);
    assert(DateFilter::InMoreThanDays(v1).text() == ">t+"@ + DateFilter::InMoreThanDays(v1).text().skip(3));
    assert(DateFilter::InExactDays(v1).text() == "t+"@ + DateFilter::InExactDays(v1).text().skip(2));
    lemma_differ_at("><t+"@, "t+"@, DateFilter::WithinFutureDays(v1).text().skip(4), DateFilter::InExactDays(v1).text().skip(2), 0);
    assert(DateFilter::WithinFutureDays(v1).text() == "><t+"@ + DateFilter::WithinFutureDays(v1).text().skip(4));
    assert(DateFilter::InExactDays(v1).text() == "t+"@ + DateFilter::InExactDays(v1).text().skip(2));
}

/// Filters of [`FloatFilter`] that differ only in what they compare, or that
/// take no value, are sent as different texts.
pub proof fn lemma_float_filter_texts_differ(v0: String)
    ensures
        FloatFilter::Any.text() != FloatFilter::Unset.text(),
        FloatFilter::LessThanOrEqual(v0).text() != FloatFilter::GreaterThanOrEqual(v0).text(),
{
    reveal_strlit("!*");
    reveal_strlit("*");
    reveal_strlit("<=");
    reveal_strlit(">=");
    assert("*"@.len() != "!*"@.len());
    lemma_differ_at("<="@, ">="@, FloatFilter::LessThanOrEqual(v0).text().skip(2), FloatFilter::GreaterThanOrEqual(v0).text().skip(2), 0);
    assert(FloatFilter::LessThanOrEqual(v0).text() == "<="@ + FloatFilter::LessThanOrEqual(v0).text().skip(2));
    assert(FloatFilter::GreaterThanOrEqual(v0).text() == ">="@ + FloatFilter::GreaterThanOrEqual(v0).text().skip(2));
}

/// Two lists of trackers are sent as the same text only when they are the
/// same list, both selected or both excluded; a selection and an exclusion
/// are sent alike only when both lists are empty.
pub proof fn lemma_tracker_filter_id_lists_injective(a: Vec<u64>, b: Vec<u64>)
    ensures
        TrackerFilter::TheseTrackers(a).text() == TrackerFilter::TheseTrackers(b).text() ==> a@ == b@,
        TrackerFilter::NotTheseTrackers(a).text() == TrackerFilter::NotTheseTrackers(b).text() ==> a@ == b@,
        TrackerFilter::TheseTrackers(a).text() == TrackerFilter::NotTheseTrackers(b).text() ==> a@.len() == 0 && b@.len() == 0,
{
    if TrackerFilter::TheseTrackers(a).text() == TrackerFilter::TheseTrackers(b).text() {
        lemma_id_list_injective(a@, b@, false);
    }
    if TrackerFilter::NotTheseTrackers(a).text() == TrackerFilter::NotTheseTrackers(b).text() {
        lemma_id_list_injective(a@, b@, true);
    }
    if a@.len() > 0 {
        lemma_id_list_negation(a@);
    }
    if b@.len() > 0 {
        lemma_id_list_negation(b@);
    }
}

/// Two lists of activities are sent as the same text only when they are the
/// same list, both selected or both excluded; a selection and an exclusion
/// are sent alike only when both lists are empty.
pub proof fn lemma_activity_filter_id_lists_injective(a: Vec<u64>, b: Vec<u64>)
    ensures
        ActivityFilter::TheseActivities(a).text() == ActivityFilter::TheseActivities(b).text() ==> a@ == b@,
        ActivityFilter::NotTheseActivities(a).text() == ActivityFilter::NotTheseActivities(b).text() ==> a@ == b@,
        ActivityFilter::TheseActivities(a).text() == ActivityFilter::NotTheseActivities(b).text() ==> a@.len() == 0 && b@.len() == 0,
{
    if ActivityFilter::TheseActivities(a).text() == ActivityFilter::TheseActivities(b).text() {
        lemma_id_list_injective(a@, b@, false);
    }
    if ActivityFilter::NotTheseActivities(a).text() == ActivityFilter::NotTheseActivities(b).text() {
        lemma_id_list_injective(a@, b@, true);
    }
    if a@.len() > 0 {
        lemma_id_list_negation(a@);
    }
    if b@.len() > 0 {
        lemma_id_list_negation(b@);
    }
}

/// Two lists of versions are sent as the same text only when they are the
/// same list, both selected or both excluded; a selection and an exclusion
/// are sent alike only when both lists are empty.
pub proof fn lemma_version_filter_id_lists_injective(a: Vec<u64>, b: Vec<u64>)
    ensures
        VersionFilter::TheseVersions(a).text() == VersionFilter::TheseVersions(b).text() ==> a@ == b@,
        VersionFilter::NotTheseVersions(a).text() == VersionFilter::NotTheseVersions(b).text() ==> a@ == b@,
        VersionFilter::TheseVersions(a).text() == VersionFilter::NotTheseVersions(b).text() ==> a@.len() == 0 && b@.len() == 0,
{
    if VersionFilter::TheseVersions(a).text() == VersionFilter::TheseVersions(b).text() {
        lemma_id_list_injective(a@, b@, false);
    }
    if VersionFilter::NotTheseVersions(a).text() == VersionFilter::NotTheseVersions(b).text() {
        lemma_id_list_injective(a@, b@, true);
    }
    if a@.len() > 0 {
        lemma_id_list_negation(a@);
    }
    if b@.len() > 0 {
        lemma_id_list_negation(b@);
    }
}

} // verus!
