//! The local date and time as display segments.

use crate::status::Markup;
use crate::status::StatusData;
use crate::status::StatusDataView;
use crate::time::LocalDateTime;
use crate::time::LocalDateTimeView;
use vstd::prelude::*;

verus! {

/// A segment without colour, named `name`, that shows `text`.
pub open spec fn plain_view(name: Seq<char>, text: Seq<char>) -> StatusDataView {
    StatusDataView { name, color: None, markup: Markup::Pango, full_text: text }
}

/// The time segment.
pub open spec fn time_view(local: LocalDateTimeView) -> StatusDataView {
    plain_view("time_local"@, local.time_text())
}

/// The date segment.
pub open spec fn date_view(local: LocalDateTimeView) -> StatusDataView {
    plain_view("date_local"@, local.date_text())
}

/// The segment of date and time.
pub open spec fn datetime_view(local: LocalDateTimeView) -> StatusDataView {
    plain_view("datetime_local"@, local.datetime_text())
}

/// The local time as `HH:MM:SS`, without colour.
pub fn time_local(local: &LocalDateTime) -> (item: StatusData)
    ensures
        item@ == time_view(local@),
        item@.wf(),
        !item@.is_empty(),
{
    StatusData {
        name: String::from_str("time_local"),
        color: None,
        markup: Markup::Pango,
        full_text: crate::time::time_local(local),
    }
}

/// The local date as `YYYY-MM-DD`, without colour.
pub fn date_local(local: &LocalDateTime) -> (item: StatusData)
    ensures
        item@ == date_view(local@),
        item@.wf(),
        !item@.is_empty(),
{
    StatusData {
        name: String::from_str("date_local"),
        color: None,
        markup: Markup::Pango,
        full_text: crate::time::date_local(local),
    }
}

/// The local date and time as `YYYY-MM-DD HH:MM:SS`, without colour.
pub fn datetime_local(local: &LocalDateTime) -> (item: StatusData)
    ensures
        item@ == datetime_view(local@),
        item@.wf(),
        !item@.is_empty(),
{
    proof {
        reveal_strlit(" ");
    }
    let mut text = crate::time::date_local(local);
    text.append(" ");
    text.append(crate::time::time_local(local).as_str());
    assert(text@ =~= local@.datetime_text());
    StatusData {
        name: String::from_str("datetime_local"),
        color: None,
        markup: Markup::Pango,
        full_text: text,
    }
}

} // verus!
