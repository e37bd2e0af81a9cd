//! Styled text and the places in which it is shown.

use vstd::prelude::*;

use crate::text::{owned, views};

verus! {

/// A color of the terminal.
#[derive(Clone, Copy, Debug, PartialEq, Eq, Structural)]
pub enum Color {
    Cyan,
    Yellow,
    Green,
    Red,
    Gray,
    DarkGray,
    Magenta,
}

/// How a text is shown.
#[derive(Clone, Copy, Debug, PartialEq, Eq, Structural)]
pub struct Style {
    pub fg: Option<Color>,
    pub bold: bool,
    pub reversed: bool,
    pub underlined: bool,
}

/// The style of plain text.
pub open spec fn plain() -> Style {
    Style { fg: None, bold: false, reversed: false, underlined: false }
}

/// The style of plain text in a color.
pub open spec fn fg(color: Color) -> Style {
    Style { fg: Some(color), ..plain() }
}

/// The style, in bold.
pub open spec fn bold(style: Style) -> Style {
    Style { bold: true, ..style }
}

/// The style, in reverse.
pub open spec fn reversed(style: Style) -> Style {
    Style { reversed: true, ..style }
}

/// The style, underlined.
pub open spec fn underlined(style: Style) -> Style {
    Style { underlined: true, ..style }
}

impl Style {
    /// The style of plain text.
    pub fn plain() -> (r: Self)
        ensures
            r == plain(),
    {
        Style { fg: None, bold: false, reversed: false, underlined: false }
    }

    /// The style of plain text in a color.
    pub fn fg(color: Color) -> (r: Self)
        ensures
            r == fg(color),
    {
        Style { fg: Some(color), bold: false, reversed: false, underlined: false }
    }

    /// The style, in bold.
    pub fn bold(self) -> (r: Self)
        ensures
            r == bold(self),
    {
        Style { fg: self.fg, bold: true, reversed: self.reversed, underlined: self.underlined }
    }

    /// The style, in reverse.
    pub fn reversed(self) -> (r: Self)
        ensures
            r == reversed(self),
    {
        Style { fg: self.fg, bold: self.bold, reversed: true, underlined: self.underlined }
    }

    /// The style, underlined.
    pub fn underlined(self) -> (r: Self)
        ensures
            r == underlined(self),
    {
        Style { fg: self.fg, bold: self.bold, reversed: self.reversed, underlined: true }
    }
}

/// A text in one style.
#[derive(Debug)]
pub struct Span {
    pub text: String,
    pub style: Style,
}

/// What a span says.
#[verifier::ext_equal]
pub struct SpanView {
    pub text: Seq<char>,
    pub style: Style,
}

impl View for Span {
    type V = SpanView;

    open spec fn view(&self) -> SpanView {
        SpanView { text: self.text@, style: self.style }
    }
}

/// A text in the given style.
pub open spec fn span(text: Seq<char>, style: Style) -> SpanView {
    SpanView { text, style }
}

/// A line of spans.
#[derive(Debug)]
pub struct Line {
    pub spans: Vec<Span>,
}

impl View for Line {
    type V = Seq<SpanView>;

    open spec fn view(&self) -> Seq<SpanView> {
        views(self.spans@)
    }
}

/// A line in one style.
pub open spec fn line(text: Seq<char>, style: Style) -> Seq<SpanView> {
    seq![span(text, style)]
}

/// A line of plain text.
pub open spec fn text_line(text: Seq<char>) -> Seq<SpanView> {
    line(text, plain())
}

impl Span {
    /// A text in the given style.
    pub fn styled(text: &str, style: Style) -> (r: Self)
        ensures
            r@ == span(text@, style),
    {
        Span { text: owned(text), style }
    }

    /// A plain text.
    pub fn raw(text: &str) -> (r: Self)
        ensures
            r@ == span(text@, plain()),
    {
        Span::styled(text, Style::plain())
    }
}

impl Line {
    /// A line in one style.
    pub fn styled(text: &str, style: Style) -> (r: Self)
        ensures
            r@ == line(text@, style),
    {
        let spans = vec![Span::styled(text, style)];
        assert(views(spans@) =~= line(text@, style));
        Line { spans }
    }

    /// A line of plain text.
    pub fn raw(text: &str) -> (r: Self)
        ensures
            r@ == text_line(text@),
    {
        Line::styled(text, Style::plain())
    }

    /// A line of two spans.
    pub fn two(a: Span, b: Span) -> (r: Self)
        ensures
            r@ == seq![a@, b@],
    {
        let spans = vec![a, b];
        assert(views(spans@) =~= seq![a@, b@]);
        Line { spans }
    }

    /// A line of three spans.
    pub fn three(a: Span, b: Span, c: Span) -> (r: Self)
        ensures
            r@ == seq![a@, b@, c@],
    {
        let spans = vec![a, b, c];
        assert(views(spans@) =~= seq![a@, b@, c@]);
        Line { spans }
    }
}

/// A titled block of lines.
#[derive(Debug)]
pub struct Panel {
    pub title: String,
    pub lines: Vec<Line>,
}

/// What a panel shows.
#[verifier::ext_equal]
pub struct PanelView {
    pub title: Seq<char>,
    pub lines: Seq<Seq<SpanView>>,
}

impl View for Panel {
    type V = PanelView;

    open spec fn view(&self) -> PanelView {
        PanelView { title: self.title@, lines: views(self.lines@) }
    }
}

/// A rectangle of the screen.
#[derive(Clone, Copy, Debug, PartialEq, Eq, Structural)]
pub struct Area {
    pub x: u16,
    pub y: u16,
    pub width: u16,
    pub height: u16,
}

/// Half of what is left of `total` beside `part`.
pub open spec fn margin(total: u16, part: u16) -> u16 {
    if total > part {
        ((total - part) / 2) as u16
    } else {
        0
    }
}

/// The rectangle of the given size in the middle of the screen.
pub open spec fn centered(screen_width: u16, screen_height: u16, width: u16, height: u16) -> Area {
    Area { x: margin(screen_width, width), y: margin(screen_height, height), width, height }
}

/// The smaller of two lengths.
pub open spec fn at_most(length: u16, limit: u16) -> u16 {
    if length < limit {
        length
    } else {
        limit
    }
}

fn half_rest(total: u16, part: u16) -> (r: u16)
    ensures
        r == margin(total, part),
{
    if total > part {
        (total - part) / 2
    } else {
        0
    }
}

impl Area {
    /// The rectangle of the given size in the middle of the screen.
    pub fn centered(screen_width: u16, screen_height: u16, width: u16, height: u16) -> (r: Self)
        ensures
            r == centered(screen_width, screen_height, width, height),
    {
        Area {
            x: half_rest(screen_width, width),
            y: half_rest(screen_height, height),
            width,
            height,
        }
    }
}

/// The smaller of two lengths.
pub fn shorter(length: u16, limit: u16) -> (r: u16)
    ensures
        r == at_most(length, limit),
{
    if length < limit {
        length
    } else {
        limit
    }
}

/// A rectangle in the middle of the screen lies on it, and its margins on both
/// sides are the same but for one cell.
pub proof fn law_centered_is_on_screen(
    screen_width: u16,
    screen_height: u16,
    width: u16,
    height: u16,
)
    requires
        width <= screen_width,
        height <= screen_height,
    ensures
        ({
            let area = centered(screen_width, screen_height, width, height);
            &&& area.x + area.width <= screen_width
            &&& area.y + area.height <= screen_height
            &&& 0 <= screen_width - (area.x + area.width) - area.x <= 1
            &&& 0 <= screen_height - (area.y + area.height) - area.y <= 1
        }),
{
}

/// A panel that lies over the others.
#[derive(Debug)]
pub struct Popup {
    pub area: Area,
    pub border: Color,
    pub panel: Panel,
}

/// What such a panel shows.
#[verifier::ext_equal]
pub struct PopupView {
    pub area: Area,
    pub border: Color,
    pub panel: PanelView,
}

impl View for Popup {
    type V = PopupView;

    open spec fn view(&self) -> PopupView {
        PopupView { area: self.area, border: self.border, panel: self.panel@ }
    }
}

} // verus!
