//! Columns of unequal length as a rectangular table.
//!
//! The table has as many rows as the longest column has entries. A column
//! that has ended leaves its cell empty in every later row; in the text of
//! the table an empty cell is written as `NAN`.

use vstd::prelude::*;
use vstd::string::StringExecFns;
use crate::views::{nested, texts};

verus! {

/// Why columns give no table.
#[derive(Debug, Clone, Copy, PartialEq, Eq)]
pub enum TableError {
    /// There is no column, so no longest one.
    NoColumns,
}

/// The rows of a table, each with one cell per column. A cell refers to the
/// entry of its column, or is empty.
#[derive(Debug, Clone, PartialEq)]
pub struct TableGrid<'a, T> {
    pub rows: Vec<Vec<Option<&'a T>>>,
}

/// What a cell holds.
pub open spec fn cell_value<T>(cell: Option<&T>) -> Option<T> {
    match cell {
        Some(v) => Some(*v),
        None => None,
    }
}

/// What the cells of a row hold.
pub open spec fn row_values<T>(row: Seq<Option<&T>>) -> Seq<Option<T>> {
    Seq::new(row.len(), |i: int| cell_value(row[i]))
}

impl<'a, T> View for TableGrid<'a, T> {
    type V = Seq<Seq<Option<T>>>;

    open spec fn view(&self) -> Seq<Seq<Option<T>>> {
        Seq::new(self.rows@.len(), |j: int| row_values(self.rows@[j]@))
    }
}

/// The length of the longest column; zero where there is no column.
pub open spec fn longest<T>(cols: Seq<Seq<T>>) -> nat
    decreases cols.len(),
{
    if cols.len() == 0 {
        0
    } else {
        let before = longest(cols.drop_last());
        if cols.last().len() > before {
            cols.last().len()
        } else {
            before
        }
    }
}

/// The cell of column `i` in row `j`: the column's entry `j`, or nothing
/// where the column is too short.
pub open spec fn cell_of<T>(cols: Seq<Seq<T>>, i: int, j: int) -> Option<T> {
    if j < cols[i].len() {
        Some(cols[i][j])
    } else {
        None
    }
}

/// The table of the columns, row by row.
pub open spec fn grid_of<T>(cols: Seq<Seq<T>>) -> Seq<Seq<Option<T>>> {
    Seq::new(longest(cols), |j: int| Seq::new(cols.len(), |i: int| cell_of(cols, i, j)))
}

/// The text of a cell: its entry, or `NAN` for an empty cell.
pub open spec fn cell_text(cell: Option<Seq<char>>) -> Seq<char> {
    match cell {
        Some(s) => s,
        None => "NAN"@,
    }
}

/// The text of a row: the texts of its cells with one space between each
/// two of them.
pub open spec fn row_text(cells: Seq<Option<Seq<char>>>) -> Seq<char>
    decreases cells.len(),
{
    if cells.len() == 0 {
        Seq::empty()
    } else if cells.len() == 1 {
        cell_text(cells[0])
    } else {
        row_text(cells.drop_last()) + " "@ + cell_text(cells.last())
    }
}

/// The cells of a row of texts, as sequences of characters.
pub open spec fn text_cells(row: Seq<Option<String>>) -> Seq<Option<Seq<char>>> {
    Seq::new(
        row.len(),
        |i: int|
            match row[i] {
                Some(s) => Some(s@),
                None => None,
            },
    )
}

/// The lines of the table of columns of texts: the text of each row, ended
/// by a line feed.
pub open spec fn table_lines(cols: Seq<Seq<String>>) -> Seq<Seq<char>> {
    Seq::new(longest(cols), |j: int| row_text(text_cells(grid_of(cols)[j])) + "\n"@)
}

/// The three texts of which a table is made, beside its entries, character
/// by character: the mark of an empty cell, the space between two cells and
/// the line feed that ends a row.
pub proof fn lemma_table_marks()
    ensures
        "NAN"@ == seq!['N', 'A', 'N'],
        " "@ == seq![' '],
        "\n"@ == seq!['\n'],
{
    reveal_strlit("NAN");
    reveal_strlit(" ");
    reveal_strlit("\n");
    assert("NAN"@ =~= seq!['N', 'A', 'N']);
    assert(" "@ =~= seq![' ']);
    assert("\n"@ =~= seq!['\n']);
}

/// No column is longer than the longest, and one is as long.
pub proof fn lemma_longest<T>(cols: Seq<Seq<T>>)
    ensures
        forall|i: int| 0 <= i < cols.len() ==> (#[trigger] cols[i]).len() <= longest(cols),
        cols.len() > 0 ==> exists|i: int| 0 <= i < cols.len() && (#[trigger] cols[i]).len() == longest(cols),
        cols.len() == 0 ==> longest(cols) == 0,
    decreases cols.len(),
{
    if cols.len() > 0 {
        let before = cols.drop_last();
        lemma_longest(before);
        assert forall|i: int| 0 <= i < cols.len() implies (#[trigger] cols[i]).len() <= longest(
            cols,
        ) by {
            if i < cols.len() - 1 {
                assert(before[i] == cols[i]);
            }
        }
        if cols.last().len() > longest(before) || before.len() == 0 {
            assert(cols[cols.len() - 1].len() == longest(cols));
        } else {
            let i = choose|i: int| 0 <= i < before.len() && (#[trigger] before[i]).len() == longest(before);
            assert(cols[i] == before[i]);
            assert(cols[i].len() == longest(cols));
        }
    }
}

/// The table is rectangular: it has as many rows as the longest column has
/// entries, each row has a cell for each column, and a cell is empty exactly
/// where its column has ended before the row.
pub proof fn lemma_grid_shape<T>(cols: Seq<Seq<T>>)
    ensures
        grid_of(cols).len() == longest(cols),
        forall|j: int| 0 <= j < longest(cols) ==> (#[trigger] grid_of(cols)[j]).len() == cols.len(),
        forall|j: int, i: int|
            0 <= j < longest(cols) && 0 <= i < cols.len() ==> ((#[trigger] grid_of(
                cols,
            )[j][i]) is None <==> cols[i].len() <= j),
        forall|j: int, i: int|
            0 <= j < longest(cols) && 0 <= i < cols.len() && j < cols[i].len() ==> #[trigger] grid_of(
                cols,
            )[j][i] == Some(cols[i][j]),
{
}

/// Columns that all have the length `len` give a table of `len` rows in
/// which no cell is empty.
pub proof fn lemma_equal_columns_fill_grid<T>(cols: Seq<Seq<T>>, len: nat)
    requires
        cols.len() > 0,
        forall|i: int| 0 <= i < cols.len() ==> (#[trigger] cols[i]).len() == len,
    ensures
        grid_of(cols).len() == len,
        forall|j: int, i: int|
            0 <= j < len && 0 <= i < cols.len() ==> #[trigger] grid_of(cols)[j][i] == Some(
                cols[i][j],
            ),
{
    lemma_longest(cols);
    let i = choose|i: int| 0 <= i < cols.len() && (#[trigger] cols[i]).len() == longest(cols);
    assert(cols[i].len() == len);
}

/// The length of the longest column.
pub fn longest_column<T>(columns: &Vec<Vec<T>>) -> (n: usize)
    ensures
        n == longest(nested(columns)),
{
    let mut n: usize = 0;
    let mut i: usize = 0;
    while i < columns.len()
        invariant
            i <= columns.len(),
            n == longest(nested(columns).subrange(0, i as int)),
        decreases columns.len() - i,
    {
        assert(nested(columns).subrange(0, i + 1).drop_last() =~= nested(
            columns,
        ).subrange(0, i as int));
        if columns[i].len() > n {
            n = columns[i].len();
        }
        i += 1;
    }
    assert(nested(columns).subrange(0, i as int) =~= nested(columns));
    n
}

/// The table of the columns: row `j` holds, for each column in order, its
/// entry `j` or an empty cell.
pub fn align_columns<'a, T>(columns: &'a Vec<Vec<T>>) -> (r: Result<TableGrid<'a, T>, TableError>)
    ensures
        match r {
            Ok(grid) => columns.len() > 0 && grid@ == grid_of(nested(columns)),
            Err(e) => columns.len() == 0 && e == TableError::NoColumns,
        },
{
    if columns.len() == 0 {
        return Err(TableError::NoColumns);
    }
    let n_rows: usize = longest_column(columns);
    let ghost cols = nested(columns);
    let mut rows: Vec<Vec<Option<&'a T>>> = Vec::new();
    let mut j: usize = 0;
    while j < n_rows
        invariant
            j <= n_rows,
            n_rows == longest(cols),
            cols == nested(columns),
            rows@.len() == j,
            forall|k: int| 0 <= k < j ==> row_values((#[trigger] rows@[k])@) == grid_of(cols)[k],
        decreases n_rows - j,
    {
        let mut row: Vec<Option<&'a T>> = Vec::new();
        let mut i: usize = 0;
        while i < columns.len()
            invariant
                i <= columns.len(),
                j < n_rows,
                cols == nested(columns),
                row@.len() == i,
                forall|k: int| 0 <= k < i ==> cell_value(#[trigger] row@[k]) == cell_of(cols, k, j as int),
            decreases columns.len() - i,
        {
            if j < columns[i].len() {
                row.push(Some(&columns[i][j]));
            } else {
                row.push(None);
            }
            i += 1;
        }
        assert(row_values(row@) =~= grid_of(cols)[j as int]);
        rows.push(row);
        j += 1;
    }
    let grid = TableGrid { rows };
    assert(grid@ =~= grid_of(cols));
    Ok(grid)
}

/// The text of a row of cells: the entries, `NAN` for each empty cell, one
/// space between each two.
pub fn format_row(cells: &Vec<Option<&String>>) -> (text: String)
    ensures
        text@ == row_text(text_cells(row_values(cells@))),
{
    let ghost row = text_cells(row_values(cells@));
    let mut text = String::new();
    let mut i: usize = 0;
    while i < cells.len()
        invariant
            i <= cells.len(),
            row == text_cells(row_values(cells@)),
            text@ == row_text(row.subrange(0, i as int)),
        decreases cells.len() - i,
    {
        assert(row.subrange(0, i + 1).drop_last() =~= row.subrange(0, i as int));
        if i > 0 {
            text.append(" ");
        }
        match cells[i] {
            Some(s) => {
                text.append(s.as_str());
            },
            None => {
                text.append("NAN");
            },
        }
        i += 1;
        assert(text@ =~= row_text(row.subrange(0, i as int)));
    }
    assert(row.subrange(0, i as int) =~= row);
    text
}

/// The lines of the table of the columns, top to bottom, each ended by a
/// line feed.
pub fn format_table(columns: &Vec<Vec<String>>) -> (r: Result<Vec<String>, TableError>)
    ensures
        match r {
            Ok(lines) => {
                &&& columns.len() > 0
                &&& texts(lines@) == table_lines(nested(columns))
            },
            Err(e) => columns.len() == 0 && e == TableError::NoColumns,
        },
{
    let grid = match align_columns(columns) {
        Ok(grid) => grid,
        Err(e) => {
            return Err(e);
        },
    };
    let ghost cols = nested(columns);
    assert(grid@.len() == grid.rows@.len());
    let mut lines: Vec<String> = Vec::new();
    let mut j: usize = 0;
    while j < grid.rows.len()
        invariant
            j <= grid.rows.len(),
            grid@ == grid_of(cols),
            grid.rows@.len() == longest(cols),
            lines@.len() == j,
            forall|k: int| 0 <= k < j ==> (#[trigger] lines@[k])@ == table_lines(cols)[k],
        decreases grid.rows.len() - j,
    {
        assert(grid@[j as int] == row_values(grid.rows@[j as int]@));
        let mut line = format_row(&grid.rows[j]);
        line.append("\n");
        lines.push(line);
        j += 1;
    }
    assert(texts(lines@) =~= table_lines(cols));
    Ok(lines)
}

} // verus!
