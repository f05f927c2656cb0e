//! Tables of text, laid out by the `tabular` crate.
//!
//! Which layouts the crate accepts, and with how many columns, is stated
//! here. What it makes of a layout and of rows is not worked out: the text
//! has a name, [`table_text`], and this module says which layout and which
//! rows it is for.

use vstd::prelude::*;
use vstd::string::*;

verus! {

/// `tabular::Table`, a table under construction.
#[verifier::external_type_specification]
#[verifier::external_body]
pub struct ExTable(tabular::Table);

/// `tabular::Row`, a row under construction.
#[verifier::external_type_specification]
#[verifier::external_body]
pub struct ExRow(tabular::Row);

/// The cells that were added to a row, in order.
pub uninterp spec fn row_cells(row: tabular::Row) -> Seq<Seq<char>>;

/// The rows that were added to a table, in order, each as its cells.
pub uninterp spec fn table_rows(table: tabular::Table) -> Seq<Seq<Seq<char>>>;

/// The layout that a table was made with.
pub uninterp spec fn table_layout(table: tabular::Table) -> Seq<char>;

/// The number of columns in the part of a layout from place `from` on, or
/// `None` where that part is not well formed. `{:<}`, `{:>}` and `{:^}` are
/// columns; `{{` and `}}` stand for a brace; any other brace is ill formed;
/// every other character stands for itself.
pub open spec fn columns_from(layout: Seq<char>, from: int) -> Option<nat>
    decreases layout.len() - from,
{
    if from < 0 || from >= layout.len() {
        Some(0)
    } else if layout[from] == '{' {
        if from + 1 < layout.len() && layout[from + 1] == '{' {
            columns_from(layout, from + 2)
        } else if from + 3 < layout.len() && layout[from + 1] == ':' && (layout[from + 2] == '<'
            || layout[from + 2] == '>' || layout[from + 2] == '^') && layout[from + 3] == '}' {
            match columns_from(layout, from + 4) {
                Some(n) => Some(n + 1),
                None => None,
            }
        } else {
            None
        }
    } else if layout[from] == '}' {
        if from + 1 < layout.len() && layout[from + 1] == '}' {
            columns_from(layout, from + 2)
        } else {
            None
        }
    } else {
        columns_from(layout, from + 1)
    }
}

/// Whether `tabular::Table::new_safe` accepts the layout: whether the layout
/// is well formed.
pub open spec fn layout_accepted(layout: Seq<char>) -> bool {
    columns_from(layout, 0) is Some
}

/// The number of columns of a table that was made with the layout, as
/// `tabular::Table::column_count` gives it: the number of columns in the
/// layout.
pub open spec fn layout_columns(layout: Seq<char>) -> nat {
    match columns_from(layout, 0) {
        Some(n) => n,
        None => 0,
    }
}

/// The text of a table with the layout and the rows, as the crate's
/// `Display` for `Table` writes it.
pub uninterp spec fn table_text(layout: Seq<char>, rows: Seq<Seq<Seq<char>>>) -> Seq<char>;

/// `tabular::Table::new_safe`: a table of the layout, without rows, where
/// the layout is well formed; `None` where the crate gives an error, which
/// it does for every other layout.
#[verifier::external_body]
fn table_new(layout: &str) -> (r: Option<tabular::Table>)
    ensures
        r is Some <==> layout_accepted(layout@),
        r is Some ==> table_layout(r->Some_0) == layout@,
        r is Some ==> table_rows(r->Some_0) == Seq::<Seq<Seq<char>>>::empty(),
{
    tabular::Table::new_safe(layout).ok()
}

/// `tabular::Table::column_count`: the number of columns, which the layout
/// decides.
#[verifier::external_body]
fn table_column_count(table: &tabular::Table) -> (r: usize)
    ensures
        r == layout_columns(table_layout(*table)),
{
    table.column_count()
}

/// `tabular::Row::new`: a row without cells.
#[verifier::external_body]
fn row_new() -> (r: tabular::Row)
    ensures
        row_cells(r) == Seq::<Seq<char>>::empty(),
{
    tabular::Row::new()
}

/// `tabular::Row::add_cell` with a string: the row has one more cell, which
/// holds the string.
#[verifier::external_body]
fn row_add_cell(row: &mut tabular::Row, value: &str)
    ensures
        row_cells(*final(row)) == row_cells(*old(row)).push(value@),
{
    row.add_cell(value);
}

/// `tabular::Table::add_row`: the table has one more row, and the layout
/// that it had. The crate panics on a row with another number of cells than
/// the table has columns, so such a row is not admitted.
#[verifier::external_body]
fn table_add_row(table: &mut tabular::Table, row: tabular::Row)
    requires
        row_cells(row).len() == layout_columns(table_layout(*old(table))),
    ensures
        table_rows(*final(table)) == table_rows(*old(table)).push(row_cells(row)),
        table_layout(*final(table)) == table_layout(*old(table)),
{
    table.add_row(row);
}

/// `to_string` of a `tabular::Table`: the text of the table.
#[verifier::external_body]
fn table_to_string(table: &tabular::Table) -> (r: String)
    ensures
        r@ == table_text(table_layout(*table), table_rows(*table)),
{
    table.to_string()
}

/// Whether every row has `columns` cells.
pub open spec fn all_of_width(rows: Seq<Seq<Seq<char>>>, columns: nat) -> bool {
    forall|i: int| 0 <= i < rows.len() ==> (#[trigger] rows[i]).len() == columns
}

/// The text of a table of the layout with the rows. `None` where the layout
/// is not accepted, or where a row has another number of cells than the
/// layout has columns, and in no other case.
pub fn render(layout: &str, rows: &Vec<Vec<String>>) -> (r: Option<String>)
    ensures
        r is Some <==> layout_accepted(layout@) && all_of_width(
            rows.deep_view(),
            layout_columns(layout@),
        ),
        r is Some ==> r->Some_0@ == table_text(layout@, rows.deep_view()),
{
    let mut table = match table_new(layout) {
        Some(t) => t,
        None => {
            return None;
        },
    };
    let columns = table_column_count(&table);
    let n = rows.len();
    let ghost all = rows.deep_view();
    let mut i: usize = 0;
    assert(all.take(0) =~= Seq::<Seq<Seq<char>>>::empty());
    while i < n
        invariant
            i <= n,
            n == rows@.len(),
            all == rows.deep_view(),
            columns == layout_columns(layout@),
            table_layout(table) == layout@,
            table_rows(table) == all.take(i as int),
            all_of_width(all.take(i as int), columns as nat),
        decreases n - i,
    {
        let cells = &rows[i];
        assert(all[i as int] == cells.deep_view());
        if cells.len() != columns {
            assert(all[i as int].len() != columns);
            return None;
        }
        let mut row = row_new();
        let mut j: usize = 0;
        assert(cells.deep_view().take(0) =~= Seq::<Seq<char>>::empty());
        while j < cells.len()
            invariant
                j <= cells@.len(),
                row_cells(row) == cells.deep_view().take(j as int),
            decreases cells@.len() - j,
        {
            row_add_cell(&mut row, cells[j].as_str());
            assert(cells.deep_view().take(j + 1) =~= cells.deep_view().take(j as int).push(
                cells@[j as int]@,
            ));
            j += 1;
        }
        assert(cells.deep_view().take(j as int) =~= cells.deep_view());
        table_add_row(&mut table, row);
        assert(all.take(i + 1) =~= all.take(i as int).push(all[i as int]));
        i += 1;
    }
    assert(all.take(n as int) =~= all);
    Some(table_to_string(&table))
}

/// A layout of columns that are flush left, with a blank between each two,
/// is accepted and has that many columns. The layout is given piece by
/// piece: what is left of it from place `from` on has `count` columns.
pub proof fn lemma_flush_left_columns(layout: Seq<char>, from: int, count: nat)
    requires
        0 <= from,
        layout.len() == from + 5 * count - (if count > 0 {
            1int
        } else {
            0int
        }),
        forall|k: int|
            0 <= k < count ==> #[trigger] layout[from + 5 * k] == '{' && layout[from + 5 * k + 1]
                == ':' && layout[from + 5 * k + 2] == '<' && layout[from + 5 * k + 3] == '}',
        forall|k: int| 0 <= k < count - 1 ==> #[trigger] layout[from + 5 * k + 4] == ' ',
    ensures
        columns_from(layout, from) == Some(count),
    decreases count,
{
    if count == 0 {
    } else {
        assert(layout[from + 5 * 0] == '{');
        if count == 1 {
            assert(columns_from(layout, from + 4) == Some(0nat));
        } else {
            assert(layout[from + 5 * 0 + 4] == ' ');
            assert forall|k: int| 0 <= k < count - 1 implies #[trigger] layout[from + 5 + 5 * k]
                == '{' && layout[from + 5 + 5 * k + 1] == ':' && layout[from + 5 + 5 * k + 2]
                == '<' && layout[from + 5 + 5 * k + 3] == '}' by {
                assert(layout[from + 5 * (k + 1)] == '{');
            }
            assert forall|k: int| 0 <= k < count - 2 implies #[trigger] layout[from + 5 + 5 * k
                + 4] == ' ' by {
                assert(layout[from + 5 * (k + 1) + 4] == ' ');
            }
            lemma_flush_left_columns(layout, from + 5, (count - 1) as nat);
            assert(columns_from(layout, from + 4) == columns_from(layout, from + 5));
        }
    }
}

} // verus!
