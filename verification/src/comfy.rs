//! Text tables laid out by the `comfy-table` crate.
use vstd::prelude::*;

use comfy_table::{CellAlignment, ColumnConstraint, Table, Width};

verus! {

/// How the cells of a column are aligned.
#[derive(Clone, Copy, Debug, PartialEq, Eq, Structural)]
pub enum CellAlign {
    Left,
    Right,
}

/// The lines of a table that `comfy-table` lays out with the given preset,
/// optional header, rows, and, for every column, the given left and right
/// padding, minimum width and alignment (`true` for right-aligned).
pub uninterp spec fn comfy_table_lines(
    preset: Seq<char>,
    header: Option<Seq<Seq<char>>>,
    rows: Seq<Seq<Seq<char>>>,
    padding: u16,
    min_width: u16,
    right_aligned: bool,
) -> Seq<Seq<char>>;

/// Lays out a table with a header row and returns its lines.
///
/// Builds a `comfy_table::Table` with `load_preset`, `set_header` and
/// `add_rows`, sets padding, a lower width boundary and the alignment on
/// every column, and collects `Table::lines`. The contract names the lines
/// as a function of those settings and contents.
#[verifier::external_body]
pub(crate) fn headed_table_lines(
    preset: &str,
    header: &Vec<String>,
    rows: &Vec<Vec<String>>,
    padding: u16,
    min_width: u16,
    align: CellAlign,
) -> (lines: Vec<String>)
    ensures
        lines.deep_view() == comfy_table_lines(
            preset@,
            Some(header.deep_view()),
            rows.deep_view(),
            padding,
            min_width,
            align == CellAlign::Right,
        ),
{
    let mut table = Table::new();
    table.load_preset(preset).set_header(header.clone()).add_rows(rows.clone());
    let alignment = match align {
        CellAlign::Left => CellAlignment::Left,
        CellAlign::Right => CellAlignment::Right,
    };
    for column in table.column_iter_mut() {
        column.set_padding((padding, padding)).set_cell_alignment(alignment);
        column.set_constraint(ColumnConstraint::LowerBoundary(Width::Fixed(min_width)));
    }
    table.lines().collect()
}

/// Lays out a table without a header row and returns its lines.
///
/// As [`headed_table_lines`], without `set_header`.
#[verifier::external_body]
pub(crate) fn plain_table_lines(
    preset: &str,
    rows: &Vec<Vec<String>>,
    padding: u16,
    min_width: u16,
    align: CellAlign,
) -> (lines: Vec<String>)
    ensures
        lines.deep_view() == comfy_table_lines(
            preset@,
            None,
            rows.deep_view(),
            padding,
            min_width,
            align == CellAlign::Right,
        ),
{
    let mut table = Table::new();
    table.load_preset(preset).add_rows(rows.clone());
    let alignment = match align {
        CellAlign::Left => CellAlignment::Left,
        CellAlign::Right => CellAlignment::Right,
    };
    for column in table.column_iter_mut() {
        column.set_padding((padding, padding)).set_cell_alignment(alignment);
        column.set_constraint(ColumnConstraint::LowerBoundary(Width::Fixed(min_width)));
    }
    table.lines().collect()
}

} // verus!
