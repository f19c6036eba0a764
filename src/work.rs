use crate::text::{decimal, push_char, zero_pad, zero_padded};
use vstd::prelude::*;

verus! {

/// A calendar date known to the year, the month or the day. A day is only
/// present together with a month.
#[derive(Debug, Clone, Copy, PartialEq, Eq, Structural)]
pub struct CalendarDate {
    pub year: u32,
    pub month: Option<u32>,
    pub day: Option<u32>,
}

impl CalendarDate {
    pub open spec fn wf(&self) -> bool {
        self.day is Some ==> self.month is Some
    }

    /// `YYYY-MM-DD`, or `YYYY-MM` or `YYYY` for a date known to the month or
    /// the year; each part has at least its width of digits, zeros in front.
    pub open spec fn spec_text(&self) -> Seq<char> {
        let y = zero_pad(decimal(self.year as nat), 4);
        match (self.month, self.day) {
            (Some(m), Some(d)) => y.push('-') + zero_pad(decimal(m as nat), 2).push('-')
                + zero_pad(decimal(d as nat), 2),
            (Some(m), None) => y.push('-') + zero_pad(decimal(m as nat), 2),
            _ => y,
        }
    }

    /// The date as a filter value renders it; a day without a month is not
    /// rendered.
    pub fn to_text(&self) -> (r: String)
        ensures
            r@ == self.spec_text(),
    {
        let mut r = zero_padded(self.year as usize, 4);
        match self.month {
            Some(m) => {
                push_char(&mut r, '-');
                r.append(zero_padded(m as usize, 2).as_str());
                match self.day {
                    Some(d) => {
                        push_char(&mut r, '-');
                        r.append(zero_padded(d as usize, 2).as_str());
                    },
                    None => {},
                }
            },
            None => {},
        }
        r
    }
}

/// The decoded form of a date-parts value.
#[derive(Debug, Clone, PartialEq, Eq)]
pub enum DateField {
    /// One date.
    Single(CalendarDate),
    /// Two dates, kept in the order given; `from` may come after `to`.
    Range { from: CalendarDate, to: CalendarDate },
    /// Three dates or more.
    Multi(Vec<CalendarDate>),
}

/// The mathematical value of a `DateField`.
pub enum DateValue {
    Single(CalendarDate),
    Range { from: CalendarDate, to: CalendarDate },
    Multi(Seq<CalendarDate>),
}

impl View for DateField {
    type V = DateValue;

    open spec fn view(&self) -> DateValue {
        match self {
            DateField::Single(d) => DateValue::Single(*d),
            DateField::Range { from, to } => DateValue::Range { from: *from, to: *to },
            DateField::Multi(v) => DateValue::Multi(v@),
        }
    }
}

/// The value of an optional `DateField`.
pub open spec fn opt_date_value(r: Option<DateField>) -> Option<DateValue> {
    match r {
        Some(d) => Some(d@),
        None => None,
    }
}

/// One inner sequence read as a date: `[y]`, `[y, m]` or `[y, m, d]` with
/// every component present; anything else reads as no date.
pub open spec fn decode_date(v: Seq<Option<u32>>) -> Option<CalendarDate> {
    if v.len() == 1 && v[0] is Some {
        Some(CalendarDate { year: v[0]->0, month: None, day: None })
    } else if v.len() == 2 && v[0] is Some && v[1] is Some {
        Some(CalendarDate { year: v[0]->0, month: v[1], day: None })
    } else if v.len() == 3 && v[0] is Some && v[1] is Some && v[2] is Some {
        Some(CalendarDate { year: v[0]->0, month: v[1], day: v[2] })
    } else {
        None
    }
}

/// The date-parts value normalized: no date for an empty outer sequence,
/// one date, a range of two, or a list of three or more; no date as soon as
/// any inner sequence reads as no date.
pub open spec fn normalize(parts: Seq<Seq<Option<u32>>>) -> Option<DateValue> {
    if parts.len() == 0 {
        None
    } else if parts.len() == 1 {
        match decode_date(parts[0]) {
            Some(d) => Some(DateValue::Single(d)),
            None => None,
        }
    } else if parts.len() == 2 {
        match (decode_date(parts[0]), decode_date(parts[1])) {
            (Some(from), Some(to)) => Some(DateValue::Range { from, to }),
            _ => None,
        }
    } else if forall|i: int| 0 <= i < parts.len() ==> (#[trigger] decode_date(parts[i])) is Some {
        Some(DateValue::Multi(parts.map_values(|p: Seq<Option<u32>>| decode_date(p)->0)))
    } else {
        None
    }
}

fn decode_inner(v: &Vec<Option<u32>>) -> (r: Option<CalendarDate>)
    ensures
        r == decode_date(v@),
        r matches Some(d) ==> d.wf(),
{
    if v.len() == 1 {
        match v[0] {
            Some(y) => Some(CalendarDate { year: y, month: None, day: None }),
            None => None,
        }
    } else if v.len() == 2 {
        match (v[0], v[1]) {
            (Some(y), Some(m)) => Some(CalendarDate { year: y, month: Some(m), day: None }),
            _ => None,
        }
    } else if v.len() == 3 {
        match (v[0], v[1], v[2]) {
            (Some(y), Some(m), Some(d)) => Some(
                CalendarDate { year: y, month: Some(m), day: Some(d) },
            ),
            _ => None,
        }
    } else {
        None
    }
}

/// Dates as the API writes them: an outer sequence of inner sequences of
/// year, month and day, each inner one a date, any component may be absent.
#[derive(Debug, Clone, PartialEq, Eq)]
pub struct DateParts(pub Vec<Vec<Option<u32>>>);

impl DateParts {
    /// Converts the nested sequences into a `DateField`; a date of a year
    /// alone is allowed.
    pub fn as_date(&self) -> (r: Option<DateField>)
        ensures
            opt_date_value(r) == normalize(self.0.deep_view()),
    {
        let parts = &self.0;
        let ghost dv = parts.deep_view();
        assert(forall|i: int| 0 <= i < parts@.len() ==> #[trigger] dv[i] == parts@[i]@);
        if parts.len() == 0 {
            None
        } else if parts.len() == 1 {
            match decode_inner(&parts[0]) {
                Some(d) => Some(DateField::Single(d)),
                None => None,
            }
        } else if parts.len() == 2 {
            match (decode_inner(&parts[0]), decode_inner(&parts[1])) {
                (Some(from), Some(to)) => Some(DateField::Range { from, to }),
                _ => None,
            }
        } else {
            let mut dates: Vec<CalendarDate> = Vec::new();
            let mut i: usize = 0;
            while i < parts.len()
                invariant
                    i <= parts@.len(),
                    parts@.len() >= 3,
                    dv == self.0.deep_view(),
                    parts == &self.0,
                    dv.len() == parts@.len(),
                    forall|j: int| 0 <= j < parts@.len() ==> #[trigger] dv[j] == parts@[j]@,
                    dates@.len() == i,
                    forall|j: int| 0 <= j < i ==> (#[trigger] decode_date(dv[j])) is Some,
                    forall|j: int| 0 <= j < i ==> dates@[j] == decode_date(dv[j])->0,
                decreases parts@.len() - i,
            {
                match decode_inner(&parts[i]) {
                    Some(d) => dates.push(d),
                    None => {
                        assert(decode_date(dv[i as int]) is None);
                        return None;
                    },
                }
                i = i + 1;
            }
            assert(dates@ =~= dv.map_values(|p: Seq<Option<u32>>| decode_date(p)->0));
            Some(DateField::Multi(dates))
        }
    }
}

/// Three dates or more normalize to a list only when every one of them
/// decodes; a single inner sequence without a year makes the whole value no
/// date, not a shorter list.
pub proof fn lemma_multi_all_or_nothing(parts: Seq<Seq<Option<u32>>>)
    requires
        parts.len() >= 3,
    ensures
        normalize(parts) is Some <==> forall|i: int|
            0 <= i < parts.len() ==> (#[trigger] decode_date(parts[i])) is Some,
        (exists|i: int| 0 <= i < parts.len() && (#[trigger] decode_date(parts[i])) is None)
            ==> normalize(parts) is None,
{
}

/// Full date information of an item.
#[derive(Debug, Clone, PartialEq, Eq)]
pub struct Date {
    /// Year, month and day; only the year is required.
    pub date_parts: DateParts,
    /// Seconds since the UNIX epoch.
    pub timestamp: usize,
    /// ISO 8601 date and time.
    pub date_time: String,
}

impl Date {
    /// The normalized form of the date parts.
    pub fn as_date_field(&self) -> (r: Option<DateField>)
        ensures
            opt_date_value(r) == normalize(self.date_parts.0.deep_view()),
    {
        self.date_parts.as_date()
    }
}

/// A date that may consist of the year, or the year and month, alone.
#[derive(Debug, Clone, PartialEq, Eq)]
pub struct PartialDate {
    /// Year, month and day; only the year is required.
    pub date_parts: DateParts,
}

impl PartialDate {
    /// The normalized form of the date parts.
    pub fn as_date_field(&self) -> (r: Option<DateField>)
        ensures
            opt_date_value(r) == normalize(self.date_parts.0.deep_view()),
    {
        self.date_parts.as_date()
    }
}

/// A publication, the main record of the API.
#[derive(Debug, Clone, PartialEq, Eq)]
pub struct Work {
    /// Titles, including translated titles.
    pub title: Vec<String>,
    pub abstract_: Option<String>,
    /// Count of inbound references.
    pub is_referenced_by_count: i32,
    /// DOI of the work.
    pub doi: String,
    pub issued: PartialDate,
    pub author: Option<Vec<Contributor>>,
    pub reference: Option<Vec<Reference>>,
}

/// A body that funded the work.
#[derive(Debug, Clone, PartialEq, Eq)]
pub struct FundingBody {
    /// Primary name of the funding body.
    pub name: String,
    /// DOI of the funding body in the funder registry.
    pub doi: Option<String>,
    /// Award numbers given by the funding body.
    pub award: Option<Vec<String>>,
    /// Either `crossref` or `publisher`.
    pub doi_asserted_by: Option<String>,
}

/// A clinical trial that the work reports on.
#[derive(Debug, Clone, PartialEq, Eq)]
pub struct ClinicalTrialNumber {
    /// Identifier of the clinical trial.
    pub clinical_trial_number: String,
    /// DOI of the registry that assigned the number.
    pub registry: String,
    /// One of `preResults`, `results` or `postResults`.
    pub type_: Option<String>,
}

/// An author or other contributor.
#[derive(Debug, Clone, PartialEq, Eq)]
pub struct Contributor {
    pub family: Option<String>,
    pub given: Option<String>,
}

/// An affiliation of a contributor.
#[derive(Debug, Clone, PartialEq, Eq)]
pub struct Affiliation {
    /// The affiliation's name.
    pub name: String,
}

/// An update of the work, such as a retraction or a correction.
#[derive(Debug, Clone, PartialEq, Eq)]
pub struct Update {
    /// Date on which the update was published.
    pub updated: PartialDate,
    /// DOI of the updated work.
    pub doi: String,
    /// The type of update.
    pub type_: String,
    /// A display-friendly label for the update type.
    pub label: Option<String>,
}

/// An assertion made about the work.
#[derive(Debug, Clone, PartialEq, Eq)]
pub struct Assertion {
    pub name: String,
    pub value: Option<String>,
    pub url: Option<String>,
    pub explanation: Option<String>,
    pub label: Option<String>,
    pub order: Option<i32>,
    pub group: Option<AssertionGroup>,
}

/// Issue information of a journal article.
#[derive(Debug, Clone, PartialEq, Eq)]
pub struct Issue {
    /// Date on which the work was published in print.
    pub published_print: Option<PartialDate>,
    /// Date on which the work was published online.
    pub published_online: Option<PartialDate>,
    /// Issue number of the journal.
    pub issue: Option<String>,
}

/// The group that an assertion belongs to.
#[derive(Debug, Clone, PartialEq, Eq)]
pub struct AssertionGroup {
    pub name: String,
    pub label: Option<String>,
}

/// The registration agency of a DOI.
#[derive(Debug, Clone, PartialEq, Eq)]
pub struct Agency {
    pub id: String,
    pub label: Option<String>,
}

/// How the work is licensed.
#[derive(Debug, Clone, PartialEq, Eq)]
pub struct License {
    /// Either `vor` (version of record), `am` (accepted manuscript) or `unspecified`.
    pub content_version: String,
    /// Days between the publication of the work and the start of this license.
    pub delay_in_days: i32,
    /// Date on which this license begins to take effect.
    pub start: PartialDate,
    /// Link to a web page describing this license.
    pub url: String,
}

/// A related resource, such as a full-text link.
#[derive(Debug, Clone, PartialEq, Eq)]
pub struct ResourceLink {
    /// Either `text-mining`, `similarity-checking` or `unspecified`.
    pub intended_application: String,
    /// Either `vor` (version of record), `am` (accepted manuscript) or `unspecified`.
    pub content_version: String,
    /// Direct link to a full-text download location.
    pub url: String,
    /// Content type (MIME type) of the full-text object.
    pub content_type: Option<String>,
}

/// A reference made by the work.
#[derive(Debug, Clone, PartialEq, Eq)]
pub struct Reference {
    pub doi: Option<String>,
    pub year: Option<String>,
}

/// ISSN of the work's container.
#[derive(Debug, Clone, PartialEq, Eq)]
pub struct ISSN {
    /// The identifier.
    pub value: String,
    /// One of `eissn`, `pissn` or `lissn`.
    pub type_: String,
}

/// Domains in which the work is shown.
#[derive(Debug, Clone, PartialEq, Eq)]
pub struct ContentDomain {
    pub domain: Vec<String>,
    pub crossmark_restriction: bool,
}

/// A relation of the work to another item.
#[derive(Debug, Clone, PartialEq, Eq)]
pub struct Relation {
    pub id_type: Option<String>,
    pub id: Option<String>,
    pub asserted_by: Option<String>,
}

/// Peer review information.
#[derive(Debug, Clone, PartialEq, Eq)]
pub struct Review {
    pub running_number: Option<String>,
    pub revision_round: Option<String>,
    /// One of `pre-publication` or `post-publication`.
    pub stage: Option<String>,
    /// One of `major-revision`, `minor-revision`, `reject`, `reject-with-resubmit` or `accept`.
    pub recommendation: Option<String>,
    /// One of `referee-report`, `editor-report`, `author-comment`, `community-comment` or `aggregate`.
    pub type_: String,
    pub competing_interest_statement: Option<String>,
    pub language: Option<String>,
}

} // verus!
