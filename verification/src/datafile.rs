//! Reading a table back: the fields of a line of text, and the columns of a
//! list of rows.

use vstd::prelude::*;
use vstd::string::StrSliceExecFns;
use crate::table::{cell_of, cell_text, grid_of, longest, row_text};
use crate::views::{nested, texts};

verus! {

/// What counts as white space at the ends of a field: the characters with
/// the Unicode property `White_Space`.
pub open spec fn is_blank(c: char) -> bool {
    let u = c as u32;
    ||| 0x09 <= u <= 0x0d
    ||| u == 0x20
    ||| u == 0x85
    ||| u == 0xa0
    ||| u == 0x1680
    ||| 0x2000 <= u <= 0x200a
    ||| u == 0x2028
    ||| u == 0x2029
    ||| u == 0x202f
    ||| u == 0x205f
    ||| u == 0x3000
}

/// The pieces into which the separators cut a text: one more than there are
/// separators in it, each the stretch between two of them or between one
/// and an end of the text.
pub open spec fn pieces(s: Seq<char>, seps: Seq<char>) -> Seq<Seq<char>>
    decreases s.len(),
{
    if s.len() == 0 {
        seq![Seq::empty()]
    } else {
        let before = pieces(s.drop_last(), seps);
        if seps.contains(s.last()) {
            before.push(Seq::empty())
        } else {
            before.drop_last().push(before.last().push(s.last()))
        }
    }
}

/// A text without the white space at its start.
pub open spec fn trim_start(s: Seq<char>) -> Seq<char>
    decreases s.len(),
{
    if s.len() > 0 && is_blank(s[0]) {
        trim_start(s.drop_first())
    } else {
        s
    }
}

/// A text without the white space at its end.
pub open spec fn trim_end(s: Seq<char>) -> Seq<char>
    decreases s.len(),
{
    if s.len() > 0 && is_blank(s.last()) {
        trim_end(s.drop_last())
    } else {
        s
    }
}

/// A text without the white space at its two ends.
pub open spec fn trim(s: Seq<char>) -> Seq<char> {
    trim_end(trim_start(s))
}

/// The pieces, each without the white space at its ends, but for those of
/// which nothing is left.
pub open spec fn trimmed_fields(ps: Seq<Seq<char>>) -> Seq<Seq<char>>
    decreases ps.len(),
{
    if ps.len() == 0 {
        Seq::empty()
    } else {
        let before = trimmed_fields(ps.drop_last());
        let field = trim(ps.last());
        if field.len() > 0 {
            before.push(field)
        } else {
            before
        }
    }
}

/// The fields of a line: what stands between the separators, without white
/// space at its ends, where that is not empty.
pub open spec fn fields_of(s: Seq<char>, seps: Seq<char>) -> Seq<Seq<char>> {
    trimmed_fields(pieces(s, seps))
}

/// The number of separators in a text.
pub open spec fn count_separators(s: Seq<char>, seps: Seq<char>) -> nat
    decreases s.len(),
{
    if s.len() == 0 {
        0
    } else if seps.contains(s.last()) {
        count_separators(s.drop_last(), seps) + 1
    } else {
        count_separators(s.drop_last(), seps)
    }
}

/// There is one piece more than there are separators, no piece holds a
/// separator, and the pieces have all the other characters between them.
pub proof fn lemma_pieces(s: Seq<char>, seps: Seq<char>)
    ensures
        pieces(s, seps).len() == count_separators(s, seps) + 1,
        forall|i: int, k: int|
            0 <= i < pieces(s, seps).len() && 0 <= k < pieces(s, seps)[i].len()
                ==> !seps.contains(#[trigger] pieces(s, seps)[i][k]),
        pieces(s, seps).flatten().len() + count_separators(s, seps) == s.len(),
    decreases s.len(),
{
    if s.len() == 0 {
        let none = Seq::<Seq<char>>::empty();
        none.lemma_flatten_push(Seq::<char>::empty());
        assert(none.push(Seq::<char>::empty()) =~= pieces(s, seps));
    } else {
        let head = s.drop_last();
        lemma_pieces(head, seps);
        let before = pieces(head, seps);
        if seps.contains(s.last()) {
            before.lemma_flatten_push(Seq::<char>::empty());
        } else {
            let grown = before.last().push(s.last());
            before.drop_last().lemma_flatten_push(before.last());
            before.drop_last().lemma_flatten_push(grown);
            assert(before.drop_last().push(before.last()) =~= before);
            let ps = pieces(s, seps);
            assert forall|i: int, k: int| 0 <= i < ps.len() && 0 <= k < ps[i].len() implies !seps.contains(
                #[trigger] ps[i][k],
            ) by {
                if i < ps.len() - 1 {
                    assert(ps[i] == before[i]);
                } else if k < before.last().len() {
                    assert(ps[i][k] == before[before.len() - 1][k]);
                }
            }
        }
    }
}

/// A text that is blank before `a` and from `b` on, and not at `a` nor just
/// before `b`, is trimmed to what lies between the two.
pub proof fn lemma_trim_between(s: Seq<char>, a: int, b: int)
    requires
        0 <= a <= b <= s.len(),
        forall|k: int| 0 <= k < a ==> is_blank(#[trigger] s[k]),
        forall|k: int| b <= k < s.len() ==> is_blank(#[trigger] s[k]),
        a < b ==> !is_blank(s[a]) && !is_blank(s[b - 1]),
    ensures
        trim(s) == s.subrange(a, b),
{
    if a < b {
        lemma_trim_start_at(s, a);
        let t = s.subrange(a, s.len() as int);
        lemma_trim_end_at(t, b - a);
        assert(t.subrange(0, b - a) =~= s.subrange(a, b));
    } else {
        lemma_trim_start_at(s, s.len() as int);
        assert(s.subrange(s.len() as int, s.len() as int) =~= s.subrange(a, b));
    }
}

proof fn lemma_trim_start_at(s: Seq<char>, a: int)
    requires
        0 <= a <= s.len(),
        forall|k: int| 0 <= k < a ==> is_blank(#[trigger] s[k]),
        a < s.len() ==> !is_blank(s[a]),
    ensures
        trim_start(s) == s.subrange(a, s.len() as int),
    decreases a,
{
    if a == 0 {
        assert(s.subrange(0, s.len() as int) =~= s);
    } else {
        assert(is_blank(s[0]));
        let rest = s.drop_first();
        assert forall|k: int| 0 <= k < a - 1 implies is_blank(#[trigger] rest[k]) by {
            assert(rest[k] == s[k + 1]);
        }
        lemma_trim_start_at(rest, a - 1);
        assert(rest.subrange(a - 1, rest.len() as int) =~= s.subrange(a, s.len() as int));
    }
}

proof fn lemma_trim_end_at(s: Seq<char>, b: int)
    requires
        0 <= b <= s.len(),
        forall|k: int| b <= k < s.len() ==> is_blank(#[trigger] s[k]),
        0 < b ==> !is_blank(s[b - 1]),
    ensures
        trim_end(s) == s.subrange(0, b),
    decreases s.len() - b,
{
    if b == s.len() {
        assert(s.subrange(0, b) =~= s);
    } else {
        assert(is_blank(s[s.len() - 1]));
        let rest = s.drop_last();
        assert forall|k: int| b <= k < rest.len() implies is_blank(#[trigger] rest[k]) by {
            assert(rest[k] == s[k]);
        }
        lemma_trim_end_at(rest, b);
        assert(rest.subrange(0, b) =~= s.subrange(0, b));
    }
}

/// Whether `c` is white space.
pub fn blank(c: char) -> (b: bool)
    ensures
        b == is_blank(c),
{
    let u: u32 = c as u32;
    (0x09 <= u && u <= 0x0d) || u == 0x20 || u == 0x85 || u == 0xa0 || u == 0x1680 || (0x2000 <= u
        && u <= 0x200a) || u == 0x2028 || u == 0x2029 || u == 0x202f || u == 0x205f || u
        == 0x3000
}

/// Whether `c` is one of the characters of `chars`.
pub fn occurs_in(c: char, chars: &str) -> (b: bool)
    ensures
        b == chars@.contains(c),
{
    let n: usize = chars.unicode_len();
    let mut k: usize = 0;
    while k < n
        invariant
            k <= n,
            n == chars@.len(),
            forall|j: int| 0 <= j < k ==> chars@[j] != c,
        decreases n - k,
    {
        if chars.get_char(k) == c {
            return true;
        }
        k += 1;
    }
    false
}

/// The fields of a line of a table: what stands between the characters of
/// `separators`, without the white space at its ends, where anything is
/// left of it.
pub fn split_fields(line: &str, separators: &str) -> (fields: Vec<String>)
    ensures
        texts(fields@) == fields_of(line@, separators@),
{
    let n: usize = line.unicode_len();
    let mut fields: Vec<String> = Vec::new();
    let ghost mut done: Seq<Seq<char>> = Seq::empty();
    let ghost mut start: int = 0;
    let mut lo: usize = 0;
    let mut hi: usize = 0;
    let mut i: usize = 0;
    assert(line@.subrange(0, 0) =~= Seq::<char>::empty());
    assert(pieces(line@.subrange(0, 0), separators@) =~= done.push(line@.subrange(0, 0)));
    for c in it: line.chars()
        invariant
            i == it.index(),
            it.seq() == line@,
            n == line@.len(),
            0 <= start <= lo <= hi <= i <= n,
            pieces(line@.subrange(0, i as int), separators@) == done.push(
                line@.subrange(start, i as int),
            ),
            texts(fields@) == trimmed_fields(done),
            forall|k: int| start <= k < lo ==> is_blank(#[trigger] line@[k]),
            forall|k: int| hi <= k < i ==> is_blank(#[trigger] line@[k]),
            lo < hi ==> !is_blank(line@[lo as int]) && !is_blank(line@[hi - 1]),
    {
        assert(c == line@[i as int]);
        assert(line@.subrange(0, i + 1).drop_last() =~= line@.subrange(0, i as int));
        if occurs_in(c, separators) {
            proof {
                let piece = line@.subrange(start, i as int);
                lemma_trim_between(piece, lo - start, hi - start);
                assert(piece.subrange(lo - start, hi - start) =~= line@.subrange(
                    lo as int,
                    hi as int,
                ));
                assert(done.push(piece).drop_last() =~= done);
            }
            if lo < hi {
                fields.push(line.substring_char(lo, hi).to_owned());
                assert(texts(fields@) =~= trimmed_fields(done).push(
                    line@.subrange(lo as int, hi as int),
                ));
            }
            proof {
                done = done.push(line@.subrange(start, i as int));
                start = i + 1;
            }
            lo = i + 1;
            hi = i + 1;
            assert(line@.subrange(start, i + 1) =~= Seq::<char>::empty());
        } else {
            assert(done.push(line@.subrange(start, i as int)).drop_last() =~= done);
            assert(line@.subrange(start, i as int).push(c) =~= line@.subrange(start, i + 1));
            if !blank(c) {
                if lo == hi {
                    lo = i;
                }
                hi = i + 1;
            }
        }
        i += 1;
    }
    proof {
        assert(line@.subrange(0, i as int) =~= line@);
        let piece = line@.subrange(start, i as int);
        lemma_trim_between(piece, lo - start, hi - start);
        assert(piece.subrange(lo - start, hi - start) =~= line@.subrange(lo as int, hi as int));
        assert(done.push(piece).drop_last() =~= done);
    }
    if lo < hi {
        fields.push(line.substring_char(lo, hi).to_owned());
        assert(texts(fields@) =~= trimmed_fields(done).push(line@.subrange(lo as int, hi as int)));
    }
    fields
}

/// Why rows give no columns.
#[derive(Debug, Clone, Copy, PartialEq, Eq)]
pub enum DataError {
    /// There are fewer than two rows, so no second row to count the
    /// columns by.
    TooFewRows { rows: usize },
    /// The row has more fields than there are columns.
    RowTooLong { row: usize },
}

/// The column `i` of the rows: the field `i` of each row that has one, in
/// the order of the rows.
pub open spec fn column_of<T>(rows: Seq<Seq<T>>, i: int) -> Seq<T>
    decreases rows.len(),
{
    if rows.len() == 0 {
        Seq::empty()
    } else {
        let before = column_of(rows.drop_last(), i);
        if i < rows.last().len() {
            before.push(rows.last()[i])
        } else {
            before
        }
    }
}

/// The columns of the rows. There are as many as the second row has fields.
pub open spec fn columns_from<T>(rows: Seq<Seq<T>>) -> Seq<Seq<T>>
    recommends
        rows.len() >= 2,
{
    Seq::new(rows[1].len(), |i: int| column_of(rows, i))
}

/// The rows can be gathered into columns: there are two of them or more,
/// and none has more fields than the second.
pub open spec fn gatherable<T>(rows: Seq<Seq<T>>) -> bool {
    &&& rows.len() >= 2
    &&& forall|j: int| 0 <= j < rows.len() ==> (#[trigger] rows[j]).len() <= rows[1].len()
}

/// The row `j` has more fields than the second row, and no row before it
/// has.
pub open spec fn is_first_long_row<T>(rows: Seq<Seq<T>>, j: int) -> bool {
    &&& 2 <= rows.len()
    &&& 0 <= j < rows.len()
    &&& rows[j].len() > rows[1].len()
    &&& forall|k: int| 0 <= k < j ==> (#[trigger] rows[k]).len() <= rows[1].len()
}

/// `e` is the fault that is reported of the rows.
pub open spec fn is_data_fault<T>(rows: Seq<Seq<T>>, e: DataError) -> bool {
    match e {
        DataError::TooFewRows { rows: n } => rows.len() < 2 && n == rows.len(),
        DataError::RowTooLong { row } => is_first_long_row(rows, row as int),
    }
}

/// The column `i` of a list of rows.
fn gather_column<T: Copy>(rows: &Vec<Vec<T>>, i: usize) -> (column: Vec<T>)
    ensures
        column@ == column_of(nested(rows), i as int),
{
    let mut column: Vec<T> = Vec::new();
    let mut j: usize = 0;
    while j < rows.len()
        invariant
            j <= rows.len(),
            column@ == column_of(nested(rows).subrange(0, j as int), i as int),
        decreases rows.len() - j,
    {
        assert(nested(rows).subrange(0, j + 1).drop_last() =~= nested(rows).subrange(
            0,
            j as int,
        ));
        if i < rows[j].len() {
            column.push(rows[j][i]);
        }
        j += 1;
    }
    assert(nested(rows).subrange(0, j as int) =~= nested(rows));
    column
}

/// The columns of a table that is given row by row. The second row says
/// how many columns there are; a shorter row leaves the columns beyond its
/// end without an entry, so that they come out shorter.
pub fn rows_to_columns<T: Copy>(rows: &Vec<Vec<T>>) -> (r: Result<Vec<Vec<T>>, DataError>)
    ensures
        match r {
            Ok(columns) => {
                &&& gatherable(nested(rows))
                &&& nested(&columns) == columns_from(nested(rows))
            },
            Err(e) => is_data_fault(nested(rows), e),
        },
{
    if rows.len() < 2 {
        return Err(DataError::TooFewRows { rows: rows.len() });
    }
    let n_columns: usize = rows[1].len();
    let mut j: usize = 0;
    while j < rows.len()
        invariant
            j <= rows.len(),
            2 <= rows.len(),
            n_columns == rows[1].len(),
            forall|k: int| 0 <= k < j ==> (#[trigger] nested(rows)[k]).len() <= n_columns,
        decreases rows.len() - j,
    {
        if rows[j].len() > n_columns {
            assert(is_first_long_row(nested(rows), j as int));
            return Err(DataError::RowTooLong { row: j });
        }
        j += 1;
    }
    let mut columns: Vec<Vec<T>> = Vec::new();
    let mut i: usize = 0;
    while i < n_columns
        invariant
            i <= n_columns,
            columns@.len() == i,
            forall|k: int|
                0 <= k < i ==> (#[trigger] columns@[k])@ == column_of(nested(rows), k),
        decreases n_columns - i,
    {
        columns.push(gather_column(rows, i));
        i += 1;
    }
    assert(nested(&columns) =~= columns_from(nested(rows)));
    Ok(columns)
}

/// Rows that all have `width` fields give `width` columns, each with one
/// entry per row: the entry `j` of the column `i` is the field `i` of the
/// row `j`.
pub proof fn lemma_columns_of_full_rows<T>(rows: Seq<Seq<T>>, width: nat)
    requires
        forall|j: int| 0 <= j < rows.len() ==> (#[trigger] rows[j]).len() == width,
    ensures
        forall|i: int|
            0 <= i < width ==> (#[trigger] column_of(rows, i)).len() == rows.len(),
        forall|i: int, j: int|
            0 <= i < width && 0 <= j < rows.len() ==> (#[trigger] column_of(rows, i)[j])
                == rows[j][i],
        rows.len() >= 2 ==> gatherable(rows) && columns_from(rows).len() == width,
    decreases rows.len(),
{
    if rows.len() > 0 {
        let before = rows.drop_last();
        assert forall|j: int| 0 <= j < before.len() implies (#[trigger] before[j]).len()
            == width by {
            assert(before[j] == rows[j]);
        }
        lemma_columns_of_full_rows(before, width);
        assert forall|i: int, j: int| 0 <= i < width && 0 <= j < rows.len() implies (
        #[trigger] column_of(rows, i)[j]) == rows[j][i] by {
            assert(column_of(rows, i) == column_of(before, i).push(rows.last()[i]));
            if j < before.len() {
                assert(column_of(before, i)[j] == before[j][i]);
            }
        }
        assert forall|i: int| 0 <= i < width implies (#[trigger] column_of(rows, i)).len()
            == rows.len() by {
            assert(column_of(rows, i) == column_of(before, i).push(rows.last()[i]));
            assert(column_of(before, i).len() == before.len());
        }
    }
    if rows.len() >= 2 {
        assert(rows[1].len() == width);
    }
}

/// The columns of the rows of a table are the columns that the table was
/// made of, each filled up with empty cells to the length of the longest.
pub proof fn lemma_table_reads_back<T>(cols: Seq<Seq<T>>)
    requires
        longest(cols) >= 2,
    ensures
        gatherable(grid_of(cols)),
        columns_from(grid_of(cols)).len() == cols.len(),
        forall|i: int|
            0 <= i < cols.len() ==> (#[trigger] columns_from(grid_of(cols))[i]).len() == longest(
                cols,
            ),
        forall|i: int, j: int|
            0 <= i < cols.len() && 0 <= j < longest(cols) ==> (#[trigger] columns_from(
                grid_of(cols),
            )[i][j]) == cell_of(cols, i, j),
{
    let rows = grid_of(cols);
    lemma_columns_of_full_rows(rows, cols.len());
    assert forall|i: int, j: int| 0 <= i < cols.len() && 0 <= j < longest(cols) implies (
    #[trigger] columns_from(rows)[i][j]) == cell_of(cols, i, j) by {
        assert(column_of(rows, i)[j] == rows[j][i]);
    }
    assert forall|i: int| 0 <= i < cols.len() implies (#[trigger] columns_from(rows)[i]).len()
        == longest(cols) by {
        assert(column_of(rows, i).len() == rows.len());
    }
}

/// A text that comes back as one field whole: it is not empty, holds none
/// of the separators, and neither starts nor ends with white space.
pub open spec fn is_plain_field(t: Seq<char>, seps: Seq<char>) -> bool {
    &&& t.len() > 0
    &&& !is_blank(t[0])
    &&& !is_blank(t.last())
    &&& forall|k: int| 0 <= k < t.len() ==> !seps.contains(#[trigger] t[k])
}

/// The texts of the cells of a row.
pub open spec fn cell_texts(cells: Seq<Option<Seq<char>>>) -> Seq<Seq<char>> {
    Seq::new(cells.len(), |i: int| cell_text(cells[i]))
}

proof fn lemma_pieces_not_empty(s: Seq<char>, seps: Seq<char>)
    ensures
        pieces(s, seps).len() >= 1,
    decreases s.len(),
{
    if s.len() > 0 {
        lemma_pieces_not_empty(s.drop_last(), seps);
    }
}

/// Text without separators, added to the end of a line, is added to the
/// line's last piece.
proof fn lemma_pieces_append_plain(s: Seq<char>, t: Seq<char>, seps: Seq<char>)
    requires
        forall|k: int| 0 <= k < t.len() ==> !seps.contains(#[trigger] t[k]),
    ensures
        pieces(s + t, seps) == pieces(s, seps).drop_last().push(pieces(s, seps).last() + t),
    decreases t.len(),
{
    lemma_pieces_not_empty(s, seps);
    let ps = pieces(s, seps);
    if t.len() == 0 {
        assert(s + t =~= s);
        assert(ps.last() + t =~= ps.last());
        assert(ps.drop_last().push(ps.last()) =~= ps);
    } else {
        let head = t.drop_last();
        assert forall|k: int| 0 <= k < head.len() implies !seps.contains(#[trigger] head[k]) by {
            assert(head[k] == t[k]);
        }
        lemma_pieces_append_plain(s, head, seps);
        assert((s + t).drop_last() =~= s + head);
        assert((s + t).last() == t.last());
        assert(!seps.contains(t[t.len() - 1]));
        let before = pieces(s + head, seps);
        assert(before.drop_last() =~= ps.drop_last());
        assert(before.last().push(t.last()) =~= ps.last() + t);
    }
}

/// A separator at the end of a line starts a new, empty piece.
proof fn lemma_pieces_push_separator(s: Seq<char>, c: char, seps: Seq<char>)
    requires
        seps.contains(c),
    ensures
        pieces(s.push(c), seps) == pieces(s, seps).push(Seq::empty()),
{
    assert(s.push(c).drop_last() =~= s);
}

/// Plain fields stay as they are when they are trimmed, and all are kept.
proof fn lemma_plain_fields_kept(ts: Seq<Seq<char>>, seps: Seq<char>)
    requires
        forall|i: int| 0 <= i < ts.len() ==> is_plain_field(#[trigger] ts[i], seps),
    ensures
        trimmed_fields(ts) == ts,
    decreases ts.len(),
{
    if ts.len() > 0 {
        let head = ts.drop_last();
        assert forall|i: int| 0 <= i < head.len() implies is_plain_field(
            #[trigger] head[i],
            seps,
        ) by {
            assert(head[i] == ts[i]);
        }
        lemma_plain_fields_kept(head, seps);
        let t = ts.last();
        assert(is_plain_field(ts[ts.len() - 1], seps));
        lemma_trim_between(t, 0, t.len() as int);
        assert(t.subrange(0, t.len() as int) =~= t);
        assert(head.push(t) =~= ts);
    } else {
        assert(ts =~= Seq::<Seq<char>>::empty());
    }
}

/// The separators can set the cells of a written row apart: the space that
/// is written between two cells is one of them, and neither a character
/// of the mark of an empty cell nor the line feed is.
pub open spec fn can_part_cells(seps: Seq<char>) -> bool {
    &&& seps.contains(' ')
    &&& !seps.contains('N')
    &&& !seps.contains('A')
    &&& !seps.contains('\n')
}

/// A space alone can set the cells apart, and so can space, tab and comma
/// together.
pub proof fn lemma_usual_separators()
    ensures
        can_part_cells(" "@),
        can_part_cells(" \t,"@),
{
    reveal_strlit(" ");
    reveal_strlit(" \t,");
    assert(" "@ =~= seq![' ']);
    assert(" \t,"@ =~= seq![' ', '\t', ',']);
    assert(" "@[0] == ' ');
    assert(" \t,"@[0] == ' ');
}

/// The pieces of the text of a row are the texts of its cells, where none
/// of them holds a separator.
proof fn lemma_row_text_pieces(cells: Seq<Option<Seq<char>>>, seps: Seq<char>)
    requires
        cells.len() > 0,
        seps.contains(' '),
        forall|i: int|
            0 <= i < cells.len() ==> forall|k: int|
                0 <= k < cell_text(#[trigger] cells[i]).len() ==> !seps.contains(
                    cell_text(cells[i])[k],
                ),
    ensures
        pieces(row_text(cells), seps) == cell_texts(cells),
    decreases cells.len(),
{
    reveal_strlit(" ");
    let space = " "@;
    assert(space =~= seq![' ']);
    let last = cell_text(cells.last());
    assert(cells.last() == cells[cells.len() - 1]);
    assert forall|k: int| 0 <= k < last.len() implies !seps.contains(#[trigger] last[k]) by {}
    if cells.len() == 1 {
        let none = Seq::<char>::empty();
        lemma_pieces_append_plain(none, last, seps);
        assert(none + last =~= last);
        assert(pieces(none, seps) =~= seq![none]);
        assert(row_text(cells) == last);
        assert(pieces(row_text(cells), seps) =~= cell_texts(cells));
    } else {
        let head = cells.drop_last();
        assert forall|i: int| 0 <= i < head.len() implies forall|k: int|
            0 <= k < cell_text(#[trigger] head[i]).len() ==> !seps.contains(
                cell_text(head[i])[k],
            ) by {
            assert(head[i] == cells[i]);
        }
        lemma_row_text_pieces(head, seps);
        let start = row_text(head);
        lemma_pieces_push_separator(start, ' ', seps);
        assert(start + space =~= start.push(' '));
        lemma_pieces_append_plain(start + space, last, seps);
        assert(row_text(cells) == start + space + last);
        assert(Seq::<char>::empty() + last =~= last);
        assert(pieces(row_text(cells), seps) =~= cell_texts(cells));
    }
}

/// What is written is read back: the fields of the text of a row, and of
/// that text ended by a line feed, are the texts of the row's cells, entry
/// or `NAN`. This holds for all separators that can set the cells apart, as
/// long as each entry is a plain field for them.
pub proof fn lemma_row_reads_back(cells: Seq<Option<Seq<char>>>, seps: Seq<char>)
    requires
        can_part_cells(seps),
        forall|i: int|
            0 <= i < cells.len() ==> match #[trigger] cells[i] {
                Some(t) => is_plain_field(t, seps),
                None => true,
            },
    ensures
        fields_of(row_text(cells), seps) == cell_texts(cells),
        fields_of(row_text(cells) + "\n"@, seps) == cell_texts(cells),
{
    reveal_strlit("NAN");
    reveal_strlit("\n");
    let feed = "\n"@;
    let ts = cell_texts(cells);
    assert(feed =~= seq!['\n']);
    assert("NAN"@ =~= seq!['N', 'A', 'N']);
    assert(is_plain_field("NAN"@, seps));
    assert forall|i: int| 0 <= i < ts.len() implies is_plain_field(#[trigger] ts[i], seps) by {
        assert(ts[i] == cell_text(cells[i]));
    }
    if cells.len() == 0 {
        let none = Seq::<char>::empty();
        assert(row_text(cells) =~= none);
        assert(pieces(none, seps) =~= seq![none]);
        assert(seq![none].drop_last() =~= Seq::<Seq<char>>::empty());
        assert(seq![none].last() == none);
        assert(trim_start(none) == none);
        assert(trim(none) == none);
        assert(trimmed_fields(Seq::<Seq<char>>::empty()) =~= Seq::<Seq<char>>::empty());
        assert(trimmed_fields(seq![none]) =~= Seq::<Seq<char>>::empty());
        assert(none + feed =~= feed);
        lemma_pieces_append_plain(none, feed, seps);
        let ps = pieces(feed, seps);
        assert(ps =~= seq![feed]);
        lemma_trim_between(feed, 0, 0);
        assert(ps.drop_last() =~= Seq::<Seq<char>>::empty());
        assert(trimmed_fields(ps) =~= Seq::<Seq<char>>::empty());
        assert(ts =~= Seq::<Seq<char>>::empty());
    } else {
        assert forall|i: int| 0 <= i < cells.len() implies forall|k: int|
            0 <= k < cell_text(#[trigger] cells[i]).len() ==> !seps.contains(
                cell_text(cells[i])[k],
            ) by {
            assert(is_plain_field(ts[i], seps));
        }
        lemma_row_text_pieces(cells, seps);
        lemma_plain_fields_kept(ts, seps);
        let text = row_text(cells);
        lemma_pieces_append_plain(text, feed, seps);
        let last = ts.last();
        let ended = ts.drop_last().push(last + feed);
        assert(pieces(text + feed, seps) == ended);
        assert(ended.drop_last() =~= ts.drop_last());
        assert forall|i: int| 0 <= i < ts.drop_last().len() implies is_plain_field(
            #[trigger] ts.drop_last()[i],
            seps,
        ) by {
            assert(ts.drop_last()[i] == ts[i]);
        }
        lemma_plain_fields_kept(ts.drop_last(), seps);
        assert(is_plain_field(ts[ts.len() - 1], seps));
        lemma_trim_between(last + feed, 0, last.len() as int);
        assert((last + feed).subrange(0, last.len() as int) =~= last);
        assert(ts.drop_last().push(last) =~= ts);
    }
}

} // verus!
