//! What the views hand to the painter: text with a style class, rows of
//! cells, and the part of a table that fits on the screen. Colours and
//! widgets are the painter's business.

use vstd::prelude::*;

verus! {

/// A rectangle of the screen, in character cells.
#[derive(Debug, Clone, Copy, PartialEq, Eq, Hash, Structural)]
pub struct Rect {
    pub x: u16,
    pub y: u16,
    pub width: u16,
    pub height: u16,
}

/// What a piece of text is, for the painter to pick colours by.
#[derive(Debug, Clone, Copy, PartialEq, Eq, Hash, Structural)]
pub enum Style {
    /// Ordinary text.
    Normal,
    /// A figure that stands out in the title bar.
    Highlight,
    /// A heading.
    Heading,
    /// The row under the cursor.
    Selected,
    /// The row of a running container.
    Running,
    /// An error message.
    Alert,
    /// A line of standard error.
    StdErr,
}

/// A piece of text with its style.
#[derive(Debug, Clone, PartialEq, Eq)]
pub struct Span {
    pub text: String,
    pub style: Style,
}

impl Span {
    /// The characters of the text, and the style.
    pub open spec fn view(&self) -> (Seq<char>, Style) {
        (self.text@, self.style)
    }
}

/// A row of a table.
#[derive(Debug, Clone, PartialEq, Eq)]
pub struct Row {
    pub cells: Vec<String>,
    pub style: Style,
}

impl Row {
    /// The characters of each cell, and the style.
    pub open spec fn view(&self) -> (Seq<Seq<char>>, Style) {
        (self.cells@.map_values(|cell: String| cell@), self.style)
    }
}

/// The mathematical value of a list of spans.
pub open spec fn spans_view(spans: Seq<Span>) -> Seq<(Seq<char>, Style)> {
    spans.map_values(|span: Span| span@)
}

/// The mathematical value of a list of rows.
pub open spec fn rows_view(rows: Seq<Row>) -> Seq<(Seq<Seq<char>>, Style)> {
    rows.map_values(|row: Row| row@)
}

/// How many lines of a table's rectangle go to its border and its header.
pub const TABLE_CHROME: u16 = 4;

/// The index of the first row that a table shows, so that the row under
/// the cursor is on the screen: rows scroll out at the top once the cursor
/// has passed the last line that the rectangle has room for.
pub open spec fn first_visible_row(selected: nat, rect_height: nat) -> nat
    recommends
        rect_height >= TABLE_CHROME,
{
    let room = rect_height - TABLE_CHROME;
    if selected >= room {
        (selected - room + 1) as nat
    } else {
        0
    }
}

/// Whether the first visible row can be computed for a rectangle of
/// `rect_height` lines: the rectangle has to hold the border and the header
/// of the table, and the row has to be a number of the machine.
pub open spec fn table_fits(selected: nat, rect_height: nat) -> bool {
    rect_height >= TABLE_CHROME && first_visible_row(selected, rect_height) <= usize::MAX
}

/// Tests [`table_fits`].
pub fn can_place_table(selected: usize, rect_height: u16) -> (possible: bool)
    ensures
        possible == table_fits(selected as nat, rect_height as nat),
{
    rect_height > TABLE_CHROME || (rect_height == TABLE_CHROME && selected < usize::MAX)
}

/// Computes [`first_visible_row`].
pub fn table_offset(selected: usize, rect_height: u16) -> (offset: usize)
    requires
        table_fits(selected as nat, rect_height as nat),
    ensures
        offset == first_visible_row(selected as nat, rect_height as nat),
{
    let room = (rect_height - TABLE_CHROME) as usize;
    if selected >= room {
        selected - room + 1
    } else {
        0
    }
}

/// The text `label`, `value` and `end` in a row, in style `style`.
pub(crate) fn span_of(label: &str, value: &str, end: &str, style: Style) -> (span: Span)
    ensures
        span@ == (label@ + value@ + end@, style),
{
    Span { text: String::from_str(label).concat(value).concat(end), style }
}

} // verus!
