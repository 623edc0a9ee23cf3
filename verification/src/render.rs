//! The text that the viewer writes: tables as tab-separated lines, shapes and
//! field lists.

use vstd::prelude::*;
use vstd::string::*;
use crate::listing::{FieldTag, TagView};
use crate::reader::{DataReader, ReaderView};
use crate::text::{decimal, index_to_string, join, joined};

verus! {

/// The number of rows that the viewer pages through a table at a time.
pub const CHUNK_SIZE: usize = 1000;

/// The values of row `row`, one from each column.
pub open spec fn row_of(columns: Seq<Seq<Seq<char>>>, row: int) -> Seq<Seq<char>> {
    Seq::new(columns.len(), |f: int| columns[f][row])
}

/// The first `rows` rows of `columns`, each as one line with tabs between
/// its values.
pub open spec fn row_lines(columns: Seq<Seq<Seq<char>>>, rows: nat) -> Seq<Seq<char>> {
    Seq::new(rows, |row: int| joined(row_of(columns, row), "\t"@))
}

/// The header line of a table: its field names with tabs between them.
pub open spec fn header_text(reader: ReaderView) -> Seq<char> {
    joined(reader.headers(), "\t"@)
}

/// The number of rows that the head of a table shows when asked for `lines`.
pub open spec fn head_rows(reader: ReaderView, lines: nat) -> nat {
    if lines <= reader.total_rows {
        lines
    } else {
        reader.total_rows
    }
}

/// The number of rows of a chunk, taken from its first column.
pub open spec fn rows_in(columns: Seq<Seq<Seq<char>>>) -> nat {
    if columns.len() == 0 {
        0
    } else {
        columns[0].len()
    }
}

/// Where the chunk after the one of `size` rows at `start` begins, if the
/// table goes on. Chunks of no rows make no progress and are not followed.
pub open spec fn following(reader: ReaderView, start: nat, size: nat) -> Option<nat> {
    if size > 0 && start + size < reader.total_rows {
        Some(start + size)
    } else {
        None
    }
}

/// The two lines that tell the row counts of the tables `obs` and `var`.
pub open spec fn shapes_text(obs_rows: nat, var_rows: nat) -> Seq<Seq<char>> {
    seq!["obs shape: "@ + decimal(obs_rows as int), "var shape: "@ + decimal(var_rows as int)]
}

/// The line of one field in a field list.
pub open spec fn field_line(entry: TagView) -> Seq<char> {
    "\t"@ + entry.name + " ("@ + entry.tag + ")"@
}

/// The lines of the fields of one table.
pub open spec fn field_lines(entries: Seq<TagView>) -> Seq<Seq<char>> {
    Seq::new(entries.len(), |i: int| field_line(entries[i]))
}

/// The field lists of the tables `obs` and `var`, each under its title, with
/// an empty line between them.
pub open spec fn fields_text(obs: Seq<TagView>, var: Seq<TagView>) -> Seq<Seq<char>> {
    seq!["obs fields:"@] + field_lines(obs) + seq![Seq::<char>::empty(), "var fields:"@]
        + field_lines(var)
}

/// Lines to write, and where to read on.
#[derive(Debug, Clone, PartialEq, Eq)]
pub struct Page {
    /// The lines, in the order in which they are written.
    pub lines: Vec<String>,
    /// The row at which the next chunk begins, if there is one.
    pub next: Option<usize>,
}

/// The header line of a table.
pub fn header_line(reader: &DataReader) -> (line: String)
    ensures
        line@ == header_text(reader@),
{
    let headers = reader.get_headers();
    join(&headers, "\t")
}

fn line_of_row(columns: &Vec<Vec<String>>, row: usize) -> (line: String)
    requires
        forall|f: int| 0 <= f < columns.len() ==> row < (#[trigger] columns[f]).len(),
    ensures
        line@ == joined(row_of(columns.deep_view(), row as int), "\t"@),
{
    let mut values: Vec<String> = Vec::new();
    let mut f: usize = 0;
    while f < columns.len()
        invariant
            f <= columns.len(),
            values.len() == f,
            forall|g: int| 0 <= g < columns.len() ==> row < (#[trigger] columns[g]).len(),
            forall|g: int| 0 <= g < f ==> (#[trigger] values[g])@ == columns[g][row as int]@,
        decreases columns.len() - f,
    {
        values.push(columns[f][row].clone());
        f = f + 1;
    }
    proof {
        assert(values.deep_view() =~= row_of(columns.deep_view(), row as int));
    }
    join(&values, "\t")
}

fn push_rows(lines: &mut Vec<String>, columns: &Vec<Vec<String>>, rows: usize)
    requires
        forall|f: int| 0 <= f < columns.len() ==> rows <= (#[trigger] columns[f]).len(),
    ensures
        final(lines).deep_view() == old(lines).deep_view() + row_lines(
            columns.deep_view(),
            rows as nat,
        ),
{
    let ghost before = lines.deep_view();
    let mut row: usize = 0;
    while row < rows
        invariant
            row <= rows,
            forall|f: int| 0 <= f < columns.len() ==> rows <= (#[trigger] columns[f]).len(),
            lines.deep_view() == before + row_lines(columns.deep_view(), row as nat),
        decreases rows - row,
    {
        let ghost so_far = lines.deep_view();
        let line = line_of_row(columns, row);
        lines.push(line);
        proof {
            assert(lines.deep_view() =~= so_far.push(line@));
            assert(so_far.push(line@) =~= before + row_lines(
                columns.deep_view(),
                (row + 1) as nat,
            ));
        }
        row = row + 1;
    }
}

/// The head of a table as lines of text, to go under the header line: the
/// first `lines` rows, or every row where the table has fewer. `chunk` holds
/// the rows from the first one on, one column for each field.
pub fn show_head(reader: &DataReader, chunk: &Vec<Vec<String>>, lines: usize) -> (text: Vec<String>)
    requires
        forall|f: int|
            0 <= f < chunk.len() ==> head_rows(reader@, lines as nat) <= (#[trigger] chunk[f]).len(),
    ensures
        text.deep_view() == row_lines(chunk.deep_view(), head_rows(reader@, lines as nat)),
{
    let total = reader.total_rows();
    let rows = if lines <= total {
        lines
    } else {
        total
    };
    let mut text: Vec<String> = Vec::new();
    proof {
        assert(text.deep_view() =~= Seq::<Seq<char>>::empty());
        assert(Seq::<Seq<char>>::empty() + row_lines(chunk.deep_view(), rows as nat)
            =~= row_lines(chunk.deep_view(), rows as nat));
    }
    push_rows(&mut text, chunk, rows);
    text
}

/// The page that opens a table shown in full: the header line, and the first
/// row to read from where the table has any row.
pub fn show_less_header(reader: &DataReader) -> (page: Page)
    ensures
        page.lines.deep_view() == seq![header_text(reader@)],
        page.next == if reader@.total_rows > 0 {
            Some(0usize)
        } else {
            None
        },
{
    let mut lines: Vec<String> = Vec::new();
    let header = header_line(reader);
    lines.push(header);
    proof {
        assert(lines.deep_view() =~= seq![header_text(reader@)]);
    }
    let next = if reader.total_rows() > 0 {
        Some(0)
    } else {
        None
    };
    Page { lines, next }
}

/// The page of a table shown in full that holds the chunk read at `start`:
/// one line for each row of the chunk, and the row at which the next chunk
/// begins, `chunk_size` rows on, where the table reaches that far.
pub fn show_less(reader: &DataReader, start: usize, chunk_size: usize, chunk: &Vec<Vec<String>>)
    -> (page: Page)
    requires
        forall|f: int|
            0 <= f < chunk.len() ==> rows_in(chunk.deep_view()) <= (#[trigger] chunk[f]).len(),
    ensures
        page.lines.deep_view() == row_lines(chunk.deep_view(), rows_in(chunk.deep_view())),
        match following(reader@, start as nat, chunk_size as nat) {
            Some(next) => page.next == Some(next as usize),
            None => page.next is None,
        },
{
    let rows = if chunk.len() == 0 {
        0
    } else {
        chunk[0].len()
    };
    let mut lines: Vec<String> = Vec::new();
    proof {
        assert(chunk.len() > 0 ==> chunk.deep_view()[0].len() == chunk[0].len());
        assert(lines.deep_view() =~= Seq::<Seq<char>>::empty());
    }
    push_rows(&mut lines, chunk, rows);
    proof {
        assert(Seq::<Seq<char>>::empty() + row_lines(chunk.deep_view(), rows as nat)
            =~= row_lines(chunk.deep_view(), rows as nat));
    }
    let total = reader.total_rows();
    let next = if chunk_size > 0 && total > chunk_size && start < total - chunk_size {
        Some(start + chunk_size)
    } else {
        None
    };
    Page { lines, next }
}

/// The row counts of the tables `obs` and `var`, one line each.
pub fn show_shapes(obs_rows: usize, var_rows: usize) -> (text: Vec<String>)
    ensures
        text.deep_view() == shapes_text(obs_rows as nat, var_rows as nat),
{
    let obs = String::from_str("obs shape: ").concat(index_to_string(obs_rows).as_str());
    let var = String::from_str("var shape: ").concat(index_to_string(var_rows).as_str());
    let mut text: Vec<String> = Vec::new();
    text.push(obs);
    text.push(var);
    proof {
        assert(text.deep_view() =~= shapes_text(obs_rows as nat, var_rows as nat));
    }
    text
}

fn push_fields(lines: &mut Vec<String>, entries: &Vec<FieldTag>)
    ensures
        final(lines).deep_view() == old(lines).deep_view() + field_lines(entries.deep_view()),
{
    let ghost before = lines.deep_view();
    let mut i: usize = 0;
    while i < entries.len()
        invariant
            i <= entries.len(),
            lines.deep_view() == before + field_lines(entries.deep_view().take(i as int)),
        decreases entries.len() - i,
    {
        let ghost so_far = lines.deep_view();
        let mut line = String::from_str("\t");
        line.append(entries[i].name.as_str());
        line.append(" (");
        line.append(entries[i].tag.as_str());
        line.append(")");
        lines.push(line);
        proof {
            assert(line@ == field_line(entries[i as int]@));
            assert(lines.deep_view() =~= so_far.push(line@));
            assert(so_far.push(line@) =~= before + field_lines(
                entries.deep_view().take(i as int + 1),
            ));
        }
        i = i + 1;
    }
    proof {
        assert(entries.deep_view().take(i as int) =~= entries.deep_view());
    }
}

/// The fields of the tables `obs` and `var` with their encoding tags: each
/// list under its title, one line for each field, an empty line between the
/// two lists.
pub fn show_fields(obs: &Vec<FieldTag>, var: &Vec<FieldTag>) -> (text: Vec<String>)
    ensures
        text.deep_view() == fields_text(obs.deep_view(), var.deep_view()),
{
    let mut text: Vec<String> = Vec::new();
    let title = String::from_str("obs fields:");
    text.push(title);
    proof {
        assert(text.deep_view() =~= seq!["obs fields:"@]);
    }
    push_fields(&mut text, obs);
    let ghost listed = text.deep_view();
    let gap = String::new();
    let second = String::from_str("var fields:");
    text.push(gap);
    text.push(second);
    proof {
        assert(text.deep_view() =~= listed + seq![Seq::<char>::empty(), "var fields:"@]);
    }
    push_fields(&mut text, var);
    text
}

} // verus!
