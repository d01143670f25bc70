//! Display segments and the tick that holds them.

use vstd::prelude::*;

verus! {

/// Whether the text of a segment carries inline markup.
#[derive(Debug, Clone, Copy, PartialEq, Eq, Structural)]
pub enum Markup {
    Plain,
    Pango,
}

impl Markup {
    /// The word that stands for the kind on the wire.
    pub open spec fn word(self) -> Seq<char> {
        match self {
            Markup::Plain => "none"@,
            Markup::Pango => "pango"@,
        }
    }

    /// The word that stands for the kind on the wire.
    pub fn as_str(self) -> (word: &'static str)
        ensures
            word@ == self.word(),
    {
        match self {
            Markup::Plain => "none",
            Markup::Pango => "pango",
        }
    }
}

/// One display segment: a named reading, rendered.
#[derive(Debug)]
pub struct StatusData {
    pub name: String,
    pub color: Option<String>,
    pub markup: Markup,
    pub full_text: String,
}

/// What a segment holds.
pub struct StatusDataView {
    pub name: Seq<char>,
    pub color: Option<Seq<char>>,
    pub markup: Markup,
    pub full_text: Seq<char>,
}

impl StatusDataView {
    /// A segment with neither name nor text stands for no reading.
    pub open spec fn is_empty(self) -> bool {
        self.name.len() == 0 && self.full_text.len() == 0
    }

    /// A named segment has a text.
    pub open spec fn wf(self) -> bool {
        self.name.len() > 0 ==> self.full_text.len() > 0
    }

    /// `self` with `right` joined on: the names with `_` between them, the
    /// texts with `separator` between them, colour and markup those of `self`.
    pub open spec fn attached(self, right: StatusDataView, separator: Seq<char>) -> StatusDataView {
        StatusDataView {
            name: self.name + seq!['_'] + right.name,
            color: self.color,
            markup: self.markup,
            full_text: self.full_text + separator + right.full_text,
        }
    }
}

/// The segments that stand for a reading, in their order: those that are
/// not empty.
pub open spec fn present(items: Seq<StatusDataView>) -> Seq<StatusDataView>
    decreases items.len(),
{
    if items.len() == 0 {
        Seq::empty()
    } else if items.last().is_empty() {
        present(items.drop_last())
    } else {
        present(items.drop_last()).push(items.last())
    }
}

/// A longer part of a tick has no fewer segments that are present.
pub proof fn lemma_present_grows(items: Seq<StatusDataView>, n: int)
    requires
        0 <= n <= items.len(),
    ensures
        present(items.take(n)).len() <= present(items).len(),
    decreases items.len() - n,
{
    if n == items.len() {
        assert(items.take(n) =~= items);
    } else {
        lemma_present_grows(items, n + 1);
        assert(items.take(n + 1).drop_last() =~= items.take(n));
    }
}

impl View for StatusData {
    type V = StatusDataView;

    open spec fn view(&self) -> StatusDataView {
        StatusDataView {
            name: self.name@,
            color: match self.color {
                Some(c) => Some(c@),
                None => None,
            },
            markup: self.markup,
            full_text: self.full_text@,
        }
    }
}

impl StatusData {
    /// Joins `right` onto this segment. Colour and markup stay as they are.
    pub fn attach_right(&mut self, right: StatusData, separator: &str)
        ensures
            final(self)@ == old(self)@.attached(right@, separator@),
            !final(self)@.is_empty(),
            old(self)@.wf() && old(self)@.name.len() > 0 ==> final(self)@.wf(),
    {
        proof {
            reveal_strlit("_");
        }
        self.name.append("_");
        self.name.append(right.name.as_str());
        self.full_text.append(separator);
        self.full_text.append(right.full_text.as_str());
        assert(self.name@ =~= old(self).name@ + seq!['_'] + right.name@);
        assert(self.full_text@ =~= old(self).full_text@ + separator@ + right.full_text@);
    }

    /// Whether the segment has neither name nor text.
    pub fn is_empty(&self) -> (empty: bool)
        ensures
            empty == self@.is_empty(),
    {
        self.name.as_str().is_empty() && self.full_text.as_str().is_empty()
    }
}

impl Default for StatusData {
    /// The empty segment: no name, no colour, no text, markup `Pango`.
    fn default() -> (item: StatusData)
        ensures
            item@ == (StatusDataView {
                name: Seq::empty(),
                color: None,
                markup: Markup::Pango,
                full_text: Seq::empty(),
            }),
    {
        StatusData {
            name: String::new(),
            color: None,
            markup: Markup::Pango,
            full_text: String::new(),
        }
    }
}

/// The segments of one tick, in display order.
#[derive(Debug)]
pub struct Status {
    pub data: Vec<StatusData>,
}

impl View for Status {
    type V = Seq<StatusDataView>;

    open spec fn view(&self) -> Seq<StatusDataView> {
        self.data@.map_values(|item: StatusData| item@)
    }
}

impl Status {
    /// A tick without segments.
    pub fn new() -> (status: Status)
        ensures
            status@ == Seq::<StatusDataView>::empty(),
    {
        Status { data: Vec::new() }
    }
}

impl Default for Status {
    /// A tick without segments.
    fn default() -> (status: Status)
        ensures
            status@ == Seq::<StatusDataView>::empty(),
    {
        Status::new()
    }
}

/// Joining to the right is associative: joining `c` onto `a` with `b`, and
/// joining `b` with `c` onto `a`, give the same name and the same text.
pub proof fn lemma_attach_right_associative(
    a: StatusDataView,
    b: StatusDataView,
    c: StatusDataView,
    separator: Seq<char>,
)
    ensures
        a.attached(b, separator).attached(c, separator).full_text == a.attached(
            b.attached(c, separator),
            separator,
        ).full_text,
        a.attached(b, separator).attached(c, separator).name == a.attached(
            b.attached(c, separator),
            separator,
        ).name,
        a.attached(b, separator).attached(c, separator).full_text == a.full_text + separator
            + b.full_text + separator + c.full_text,
{
    let left = a.attached(b, separator).attached(c, separator);
    let right = a.attached(b.attached(c, separator), separator);
    assert(left.full_text =~= right.full_text);
    assert(left.name =~= right.name);
}

} // verus!
