//! The texts that filters send as query parameter values.

use redmine_api::api::dates::{Date, DateTime};
use redmine_api::api::filters::{
    ActivityFilter, CustomFieldFilter, DateFilter, DateTimeFilterPast, FloatFilter, IntegerFilter,
    StringFieldFilter, TrackerFilter, VersionFilter,
};
use redmine_api::api::issues::{
    AssigneeFilter, AuthorFilter, ComparableFilter, SortByColumn, StatusFilter, SubProjectFilter,
};

fn date(y: i32, m: u8, d: u8) -> Date {
    Date::from_calendar_date(y, m, d).unwrap()
}

#[test]
fn string_field_filter_texts() {
    assert_eq!(StringFieldFilter::ExactMatch("abc".to_string()).to_string(), "abc");
    assert_eq!(StringFieldFilter::SubStringMatch("abc".to_string()).to_string(), "~abc");
}

#[test]
fn custom_field_filter_key() {
    let f = CustomFieldFilter { id: 17, value: StringFieldFilter::ExactMatch("x".to_string()) };
    assert_eq!(f.key(), "cf_17");
}

#[test]
fn integer_filter_texts() {
    assert_eq!(IntegerFilter::ExactMatch(5).to_string(), "5");
    assert_eq!(IntegerFilter::Range(1, 10).to_string(), "><1|10");
    assert_eq!(IntegerFilter::LessThanOrEqual(7).to_string(), "<=7");
    assert_eq!(IntegerFilter::GreaterThanOrEqual(7).to_string(), ">=7");
    assert_eq!(IntegerFilter::Any.to_string(), "*");
    assert_eq!(IntegerFilter::Unset.to_string(), "!*");
}

#[test]
fn float_filter_texts() {
    assert_eq!(FloatFilter::ExactMatch("1.5".to_string()).to_string(), "1.5");
    assert_eq!(FloatFilter::Range("1".to_string(), "2.25".to_string()).to_string(), "><1|2.25");
    assert_eq!(FloatFilter::LessThanOrEqual("3".to_string()).to_string(), "<=3");
    assert_eq!(FloatFilter::GreaterThanOrEqual("0.5".to_string()).to_string(), ">=0.5");
    assert_eq!(FloatFilter::Any.to_string(), "*");
    assert_eq!(FloatFilter::Unset.to_string(), "!*");
}

#[test]
fn id_list_filter_texts() {
    assert_eq!(TrackerFilter::Any.to_string(), "*");
    assert_eq!(TrackerFilter::Unset.to_string(), "!*");
    assert_eq!(TrackerFilter::TheseTrackers(vec![1, 2, 3]).to_string(), "1,2,3");
    assert_eq!(TrackerFilter::NotTheseTrackers(vec![1, 2]).to_string(), "!1,!2");
    assert_eq!(ActivityFilter::TheseActivities(vec![9]).to_string(), "9");
    assert_eq!(VersionFilter::NotTheseVersions(vec![]).to_string(), "");
    assert_eq!(SubProjectFilter::OnlyParentProject.to_string(), "!*");
    assert_eq!(SubProjectFilter::NotTheseSubProjects(vec![4, 5]).to_string(), "!4,!5");
    assert_eq!(StatusFilter::Open.to_string(), "open");
    assert_eq!(StatusFilter::Closed.to_string(), "closed");
    assert_eq!(StatusFilter::All.to_string(), "*");
    assert_eq!(StatusFilter::TheseStatuses(vec![1, 3]).to_string(), "1,3");
    assert_eq!(AuthorFilter::Me.to_string(), "me");
    assert_eq!(AuthorFilter::NotMe.to_string(), "!me");
    assert_eq!(AssigneeFilter::NoAssignee.to_string(), "!*");
    assert_eq!(AssigneeFilter::NotTheseAssignees(vec![7]).to_string(), "!7");
}

#[test]
fn sort_by_column_texts() {
    assert_eq!(SortByColumn::Forward { column_name: "id".to_string() }.to_string(), "id");
    assert_eq!(SortByColumn::Reverse { column_name: "id".to_string() }.to_string(), "id:desc");
}

#[test]
fn date_filter_texts() {
    let d = date(2024, 3, 7);
    assert_eq!(DateFilter::ExactMatch(d).to_string(), "2024-03-07");
    assert_eq!(DateFilter::Range(d, date(2024, 12, 31)).to_string(), "><2024-03-07|2024-12-31");
    assert_eq!(DateFilter::LessThanOrEqual(d).to_string(), "<=2024-03-07");
    assert_eq!(DateFilter::GreaterThanOrEqual(d).to_string(), ">=2024-03-07");
    assert_eq!(DateFilter::LessThanDaysAgo(3).to_string(), ">t-3");
    assert_eq!(DateFilter::MoreThanDaysAgo(3).to_string(), "<t-3");
    assert_eq!(DateFilter::WithinPastDays(10).to_string(), "><t-10");
    assert_eq!(DateFilter::ExactDaysAgo(0).to_string(), "t-0");
    assert_eq!(DateFilter::InLessThanDays(2).to_string(), "<t+2");
    assert_eq!(DateFilter::InMoreThanDays(2).to_string(), ">t+2");
    assert_eq!(DateFilter::WithinFutureDays(4).to_string(), "><t+4");
    assert_eq!(DateFilter::InExactDays(4).to_string(), "t+4");
    let texts: Vec<String> = [
        DateFilter::Today,
        DateFilter::Yesterday,
        DateFilter::Tomorrow,
        DateFilter::ThisWeek,
        DateFilter::LastWeek,
        DateFilter::LastTwoWeeks,
        DateFilter::NextWeek,
        DateFilter::ThisMonth,
        DateFilter::LastMonth,
        DateFilter::NextMonth,
        DateFilter::ThisYear,
        DateFilter::Unset,
        DateFilter::Any,
    ]
    .iter()
    .map(|f| f.to_string())
    .collect();
    assert_eq!(texts, vec!["t", "ld", "nd", "w", "lw", "l2w", "nw", "m", "lm", "nm", "y", "!*", "*"]);
}

#[test]
fn date_time_filter_past_texts() {
    let dt = DateTime::new(date(2023, 11, 5), 9, 4, 3, 500, 2, 0, 0).unwrap();
    assert_eq!(DateTimeFilterPast::ExactMatch(dt).to_string(), "2023-11-05T09:04:03Z");
    let end = DateTime::utc(date(2023, 12, 1), 23, 59, 59).unwrap();
    assert_eq!(
        DateTimeFilterPast::Range(dt, end).to_string(),
        "><2023-11-05T09:04:03Z|2023-12-01T23:59:59Z"
    );
    assert_eq!(DateTimeFilterPast::LessThanOrEqual(end).to_string(), "<=2023-12-01T23:59:59Z");
    assert_eq!(DateTimeFilterPast::GreaterThanOrEqual(end).to_string(), ">=2023-12-01T23:59:59Z");
    assert_eq!(DateTimeFilterPast::LessThanDaysAgo(1).to_string(), ">t-1");
    assert_eq!(DateTimeFilterPast::WithinPastDays(7).to_string(), "><t-7");
    assert_eq!(DateTimeFilterPast::LastTwoWeeks.to_string(), "l2w");
    assert_eq!(DateTimeFilterPast::Unset.to_string(), "!*");
}

#[test]
fn comparable_filter_texts() {
    let d = date(2021, 1, 2);
    assert_eq!(ComparableFilter::ExactMatch(d).to_string(), "2021-01-02");
    assert_eq!(ComparableFilter::LessThan(d).to_string(), "<2021-01-02");
    assert_eq!(ComparableFilter::GreaterThan(d).to_string(), ">2021-01-02");
    assert_eq!(ComparableFilter::Range(d, date(2021, 2, 3)).to_string(), "><2021-01-02|2021-02-03");
    let utc = DateTime::utc(d, 8, 30, 0).unwrap();
    assert_eq!(ComparableFilter::GreaterThanOrEqual(utc).to_string(), ">=2021-01-02T08:30:00Z");
    let east = DateTime::new(d, 8, 30, 0, 120_000_000, 5, 30, 0).unwrap();
    assert_eq!(ComparableFilter::LessThanOrEqual(east).to_string(), "<=2021-01-02T08:30:00.12+05:30");
    let west = DateTime::new(d, 8, 30, 0, 0, -3, 0, 0).unwrap();
    assert_eq!(ComparableFilter::ExactMatch(west).to_string(), "2021-01-02T08:30:00-03:00");
}
