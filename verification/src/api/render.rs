//! Rendering: table layout and colour are the work of outside crates. The
//! rows handed to them are computed, and verified, elsewhere.

use vstd::prelude::*;
use owo_colors::OwoColorize;
use tabled::builder::Builder;
use tabled::settings::Alignment;
use tabled::settings::Style;
use crate::api::text::texts;

verus! {

/// The text that `tabled` lays out for a header and its records, with centred
/// cells and the sharp border style. The layout itself is not described here:
/// it is whatever `tabled` prints for these cells.
pub uninterp spec fn sharp_table(header: Seq<Seq<char>>, records: Seq<Seq<Seq<char>>>) -> Seq<char>;

/// The cells of a list of rows, as texts.
pub open spec fn grid(rows: Seq<Vec<String>>) -> Seq<Seq<Seq<char>>> {
    Seq::new(rows.len(), |i: int| texts(rows[i]@))
}

/// The escape sequence that switches the foreground to green.
pub open spec fn green_on() -> Seq<char> {
    seq!['\u{1b}', '[', '3', '2', 'm']
}

/// The escape sequence that switches the foreground to red.
pub open spec fn red_on() -> Seq<char> {
    seq!['\u{1b}', '[', '3', '1', 'm']
}

/// The escape sequence that restores the default foreground.
pub open spec fn colour_off() -> Seq<char> {
    seq!['\u{1b}', '[', '3', '9', 'm']
}

/// Prints a table with `tabled`: a `Builder` is filled from the records
/// (`Builder::from_iter`, which pushes each with `push_record`) and given the
/// header (`set_header`); the `Table` it builds gets `Alignment::center()` and
/// `Style::sharp()` and is printed with `to_string`. Assumed, not proved: the
/// text is the one that `tabled` prints for these cells, and depends on
/// nothing else.
#[verifier::external_body]
pub(crate) fn render_table(header: Vec<String>, records: Vec<Vec<String>>) -> (text: String)
    ensures
        text@ == sharp_table(texts(header@), grid(records@)),
{
    let mut builder = Builder::from_iter(records);
    builder.set_header(header);
    builder.build().with(Alignment::center()).with(Style::sharp()).to_string()
}

/// `OwoColorize::green` printed: the text between the green escape sequence
/// and the one that restores the default foreground. Assumed, not proved.
#[verifier::external_body]
pub(crate) fn green(text: &str) -> (painted: String)
    ensures
        painted@ == green_on() + text@ + colour_off(),
{
    text.green().to_string()
}

/// `OwoColorize::red` printed: the text between the red escape sequence and
/// the one that restores the default foreground. Assumed, not proved.
#[verifier::external_body]
pub(crate) fn red(text: &str) -> (painted: String)
    ensures
        painted@ == red_on() + text@ + colour_off(),
{
    text.red().to_string()
}

} // verus!
