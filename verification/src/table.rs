//! Text tables, drawn by the `tabled` crate.
use vstd::prelude::*;
use crate::text::views;

verus! {

/// The views of rows of texts.
pub open spec fn row_views(rows: Seq<Vec<String>>) -> Seq<Seq<Seq<char>>> {
    Seq::new(rows.len(), |i: int| views(rows[i]@))
}

/// The text of `tabled::Table` in its default style, the first row being the
/// header.
pub uninterp spec fn ascii_table_text(rows: Seq<Seq<Seq<char>>>) -> Seq<char>;

/// The text of `tabled::Table` in the style `Style::modern`.
pub uninterp spec fn modern_table_text(rows: Seq<Seq<Seq<char>>>) -> Seq<char>;

/// The text of `tabled::Table` in the style `Style::markdown`.
pub uninterp spec fn markdown_table_text(rows: Seq<Seq<Seq<char>>>) -> Seq<char>;

/// Draws a table by `tabled::builder::Builder` and the text form of
/// `tabled::Table`. The text is a function of the cells.
#[verifier::external_body]
pub(crate) fn draw_ascii_table(rows: Vec<Vec<String>>) -> (r: String)
    ensures
        r@ == ascii_table_text(row_views(rows@)),
{
    tabled::builder::Builder::from(rows).build().to_string()
}

/// Draws a table by `tabled::builder::Builder` and the text form of
/// `tabled::Table` in the style `Style::modern`. The text is a function of the
/// cells.
#[verifier::external_body]
pub(crate) fn draw_modern_table(rows: Vec<Vec<String>>) -> (r: String)
    ensures
        r@ == modern_table_text(row_views(rows@)),
{
    tabled::builder::Builder::from(rows).build().with(tabled::settings::Style::modern()).to_string()
}

/// Draws a table by `tabled::builder::Builder` and the text form of
/// `tabled::Table` in the style `Style::markdown`. The text is a function of
/// the cells.
#[verifier::external_body]
pub(crate) fn draw_markdown_table(rows: Vec<Vec<String>>) -> (r: String)
    ensures
        r@ == markdown_table_text(row_views(rows@)),
{
    tabled::builder::Builder::from(rows).build().with(tabled::settings::Style::markdown()).to_string()
}

/// Adds a cell to a row.
pub fn push_cell(cells: &mut Vec<String>, cell: String)
    ensures
        views(final(cells)@) == views(old(cells)@).push(cell@),
{
    let ghost before = views(cells@);
    cells.push(cell);
    assert(views(cells@) =~= before.push(cell@));
}

/// Adds a row to a table.
pub fn push_row(rows: &mut Vec<Vec<String>>, row: Vec<String>)
    ensures
        row_views(final(rows)@) == row_views(old(rows)@).push(views(row@)),
{
    let ghost before = row_views(rows@);
    rows.push(row);
    assert(row_views(rows@) =~= before.push(views(row@)));
}

} // verus!
