//! Alarm levels, and the two ways of showing one: as markup around the text,
//! or as a colour of its own beside the text.

use crate::status::Markup;
use crate::status::StatusData;
use crate::status::StatusDataView;
use vstd::prelude::*;
use vstd::std_specs::cmp::PartialOrdIs;
use vstd::std_specs::cmp::PartialOrdSpec;

verus! {

/// Alarm level of a reading. `Red` is the worst.
#[derive(Debug, Clone, Copy, PartialEq, Eq, Structural)]
pub enum Color {
    Clear,
    Yellow,
    Red,
}

impl Color {
    /// The `#RRGGBB` code that shows the level.
    pub open spec fn hex(self) -> Seq<char> {
        match self {
            Color::Clear => "#EBDBB2"@,
            Color::Yellow => "#FAC149"@,
            Color::Red => "#FB5245"@,
        }
    }

    /// The `#RRGGBB` code that shows the level.
    pub fn code(self) -> (code: &'static str)
        ensures
            code@ == self.hex(),
    {
        match self {
            Color::Clear => "#EBDBB2",
            Color::Yellow => "#FAC149",
            Color::Red => "#FB5245",
        }
    }
}

/// `text` inside a span that gives it the colour of `level`.
pub open spec fn span(text: Seq<char>, level: Color) -> Seq<char> {
    "<span foreground=\""@ + level.hex() + "\">"@ + text + "</span>"@
}

/// The level of `v` against the thresholds `range = (red, yellow)`, for a
/// value where smaller is worse: below `red` it is `Red`, else below `yellow`
/// it is `Yellow`, else `Clear`. A value equal to a threshold is not below it.
pub open spec fn level_of<C: PartialOrd>(v: C, range: (C, C)) -> Color {
    if v.is_lt(&range.0) {
        Color::Red
    } else if v.is_lt(&range.1) {
        Color::Yellow
    } else {
        Color::Clear
    }
}

/// What the comparisons say of `level`: it is `Red` where `v < range.0` has
/// answered yes; `Yellow` where that answered no and `v < range.1` yes;
/// `Clear` where both answered no. This holds of every ordering, also of
/// one whose answers are not known beforehand.
pub open spec fn answered<C: PartialOrd>(v: C, range: (C, C), level: Color) -> bool {
    match level {
        Color::Red => call_ensures(C::lt, (&v, &range.0), true),
        Color::Yellow => call_ensures(C::lt, (&v, &range.0), false) && call_ensures(
            C::lt,
            (&v, &range.1),
            true,
        ),
        Color::Clear => call_ensures(C::lt, (&v, &range.0), false) && call_ensures(
            C::lt,
            (&v, &range.1),
            false,
        ),
    }
}

/// Over signed whole numbers, with the red threshold under the yellow one,
/// the three levels are the three bands: red is all that is under the red
/// threshold, yellow all from the red threshold up to, not with, the yellow
/// one, clear all from the yellow threshold up. A value equal to a threshold
/// is in the band above it.
pub proof fn lemma_level_bands(v: i128, red: i128, yellow: i128)
    requires
        red < yellow,
    ensures
        level_of(v, (red, yellow)) == Color::Red <==> v < red,
        level_of(v, (red, yellow)) == Color::Yellow <==> red <= v < yellow,
        level_of(v, (red, yellow)) == Color::Clear <==> v >= yellow,
{
}

/// Over unsigned whole numbers the bands are the same.
pub proof fn lemma_level_bands_unsigned(v: u128, red: u128, yellow: u128)
    requires
        red < yellow,
    ensures
        level_of(v, (red, yellow)) == Color::Red <==> v < red,
        level_of(v, (red, yellow)) == Color::Yellow <==> red <= v < yellow,
        level_of(v, (red, yellow)) == Color::Clear <==> v >= yellow,
{
}

/// Classifies `v` against the thresholds `range = (red, yellow)`.
pub fn classify<C: PartialOrd>(v: &C, range: &(C, C)) -> (level: Color)
    ensures
        C::obeys_partial_cmp_spec() ==> level == level_of(*v, *range),
        answered(*v, *range, level),
{
    if *v < range.0 {
        Color::Red
    } else if *v < range.1 {
        Color::Yellow
    } else {
        Color::Clear
    }
}

/// Colours `s` by the level of `v` against the thresholds `range`: red where
/// `v < range.0`, else yellow where `v < range.1`, else the neutral colour.
pub fn colorize_range<C: PartialOrd>(s: &str, v: C, range: (C, C)) -> (out: String)
    ensures
        C::obeys_partial_cmp_spec() ==> out@ == span(s@, level_of(v, range)),
        exists|level: Color| #[trigger] answered(v, range, level) && out@ == span(s@, level),
{
    let bounds = &range;
    let by_range = |x: C| -> (level: Color)
        ensures
            C::obeys_partial_cmp_spec() ==> level == level_of(x, *bounds),
            answered(x, *bounds, level),
        {
            classify(&x, bounds)
        };
    colorize(s, v, by_range)
}

/// Colours `s` by the level that `f` gives to `v`.
pub fn colorize<C, F>(s: &str, v: C, f: F) -> (out: String) where F: Fn(C) -> Color
    requires
        f.requires((v,)),
    ensures
        exists|level: Color| #[trigger] f.ensures((v,), level) && out@ == span(s@, level),
{
    let level = f(v);
    render_span(s, level)
}

/// Wraps `text` in the span of `level`.
pub fn render_span(text: &str, level: Color) -> (out: String)
    ensures
        out@ == span(text@, level),
{
    let mut out = String::from_str("<span foreground=\"");
    out.append(level.code());
    out.append("\">");
    out.append(text);
    out.append("</span>");
    out
}

/// How a level reaches the display. One is chosen when the program starts.
#[derive(Debug, Clone, Copy, PartialEq, Eq, Structural)]
pub enum Colorizer {
    /// The text is wrapped in a span of the level's colour.
    Inline,
    /// The text stays as it is; the colour stands in a field of its own.
    Field,
}

impl Colorizer {
    /// The text that is shown for `text` at `level`.
    pub open spec fn rendered(self, text: Seq<char>, level: Color) -> Seq<char> {
        match self {
            Colorizer::Inline => span(text, level),
            Colorizer::Field => text,
        }
    }

    /// The colour field for `level`: none with inline markup, and none for
    /// `Clear`, which asks for no colour.
    pub open spec fn field(self, level: Color) -> Option<Seq<char>> {
        match self {
            Colorizer::Inline => None,
            Colorizer::Field => match level {
                Color::Clear => None,
                _ => Some(level.hex()),
            },
        }
    }

    /// The markup that the rendered text carries.
    pub open spec fn declares(self) -> Markup {
        match self {
            Colorizer::Inline => Markup::Pango,
            Colorizer::Field => Markup::Plain,
        }
    }

    /// The segment named `name` that shows `text` at `level`.
    pub open spec fn segment_view(
        self,
        name: Seq<char>,
        text: Seq<char>,
        level: Color,
    ) -> StatusDataView {
        StatusDataView {
            name,
            color: self.field(level),
            markup: self.declares(),
            full_text: self.rendered(text, level),
        }
    }

    /// Renders `text` at `level`.
    pub fn render(self, text: &str, level: Color) -> (out: String)
        ensures
            out@ == self.rendered(text@, level),
    {
        match self {
            Colorizer::Inline => render_span(text, level),
            Colorizer::Field => String::from_str(text),
        }
    }

    /// The colour field for `level`.
    pub fn color(self, level: Color) -> (field: Option<String>)
        ensures
            field is Some <==> self.field(level) is Some,
            field matches Some(code) ==> Some(code@) == self.field(level),
    {
        match self {
            Colorizer::Inline => None,
            Colorizer::Field => match level {
                Color::Clear => None,
                _ => Some(String::from_str(level.code())),
            },
        }
    }

    /// The markup that the rendered text carries.
    pub fn markup(self) -> (markup: Markup)
        ensures
            markup == self.declares(),
    {
        match self {
            Colorizer::Inline => Markup::Pango,
            Colorizer::Field => Markup::Plain,
        }
    }

    /// Builds the segment named `name` that shows `text` at `level`.
    pub fn segment(self, name: &str, text: &str, level: Color) -> (item: StatusData)
        ensures
            item@ == self.segment_view(name@, text@, level),
            text@.len() > 0 ==> item@.wf() && !item@.is_empty(),
    {
        proof {
            if text@.len() > 0 {
                assert(span(text@, level).len() > 0);
            }
        }
        StatusData {
            name: String::from_str(name),
            color: self.color(level),
            markup: self.markup(),
            full_text: self.render(text, level),
        }
    }
}

} // verus!
