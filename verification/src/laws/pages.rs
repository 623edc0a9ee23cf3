//! Laws of paging: a table shown page by page is shown whole.

use vstd::prelude::*;
use crate::error::ErrorView;
use crate::laws::chunks::{appended, lemma_columns_lengths, lemma_columns_split, rest};
use crate::model::Store;
use crate::reader::ReaderView;
use crate::render::{following, row_lines, row_of, rows_in};

verus! {

/// The lines of the pages of a table shown in full, from the page that
/// begins at `start` on, chunk by chunk in steps of `size` rows; or the
/// failure of the first chunk that cannot be read.
pub open spec fn paged(store: Store, reader: ReaderView, start: nat, size: nat) -> Result<
    Seq<Seq<char>>,
    ErrorView,
>
    decreases
        (if start < reader.total_rows {
            reader.total_rows - start
        } else {
            0
        }),
{
    if start >= reader.total_rows {
        Ok(Seq::empty())
    } else {
        match store.chunk(reader, start, size) {
            Err(error) => Err(error),
            Ok(columns) => {
                let lines = row_lines(columns, rows_in(columns));
                match following(reader, start, size) {
                    None => Ok(lines),
                    Some(next) => match paged(store, reader, next, size) {
                        Err(error) => Err(error),
                        Ok(rest) => Ok(lines + rest),
                    },
                }
            },
        }
    }
}

proof fn lemma_row_lines_append(
    head: Seq<Seq<Seq<char>>>,
    tail: Seq<Seq<Seq<char>>>,
    head_rows: nat,
    tail_rows: nat,
)
    requires
        head.len() == tail.len(),
        forall|f: int| 0 <= f < head.len() ==> (#[trigger] head[f]).len() == head_rows,
        forall|f: int| 0 <= f < tail.len() ==> (#[trigger] tail[f]).len() == tail_rows,
    ensures
        row_lines(appended(head, tail), head_rows + tail_rows) == row_lines(head, head_rows)
            + row_lines(tail, tail_rows),
{
    let both = appended(head, tail);
    assert forall|row: int| 0 <= row < head_rows + tail_rows implies row_of(both, row) == if row
        < head_rows {
        row_of(head, row)
    } else {
        row_of(tail, row - head_rows)
    } by {
        if row < head_rows {
            assert(row_of(both, row) =~= row_of(head, row));
        } else {
            assert(row_of(both, row) =~= row_of(tail, row - head_rows));
        }
    }
    assert(row_lines(both, head_rows + tail_rows) =~= row_lines(head, head_rows) + row_lines(
        tail,
        tail_rows,
    ));
}

proof fn lemma_paged_is_rest(store: Store, reader: ReaderView, start: nat, size: nat)
    requires
        size > 0,
        reader.fields.len() > 0,
        start <= reader.total_rows,
        rest(store, reader, start) is Ok,
    ensures
        paged(store, reader, start, size) == Ok::<Seq<Seq<char>>, ErrorView>(
            row_lines(rest(store, reader, start)->Ok_0, (reader.total_rows - start) as nat),
        ),
    decreases reader.total_rows - start,
{
    let rows = reader.total_rows;
    let fields = reader.fields.len();
    if start < rows {
        let end = reader.chunk_end(start, size);
        lemma_columns_split(store, reader, start, end, rows, fields);
        let head = store.columns(reader, start, end, fields)->Ok_0;
        lemma_columns_lengths(store, reader, start, end, fields);
        assert(rows_in(head) == end - start);
        if end < rows {
            let tail = store.columns(reader, end, rows, fields)->Ok_0;
            lemma_columns_lengths(store, reader, end, rows, fields);
            lemma_paged_is_rest(store, reader, end, size);
            lemma_row_lines_append(head, tail, (end - start) as nat, (rows - end) as nat);
        }
    } else {
        assert(row_lines(reader.empty_columns(), 0) =~= Seq::<Seq<char>>::empty());
    }
}

/// Shown in full, a table is shown whole: the lines of its pages, one page
/// after the other, are the lines of all its rows, each row once and in
/// order, whatever the number of rows to a page.
pub proof fn lemma_pages_show_every_row(store: Store, reader: ReaderView, size: nat)
    requires
        size > 0,
        reader.fields.len() > 0,
        store.whole(reader) is Ok,
    ensures
        paged(store, reader, 0, size) == Ok::<Seq<Seq<char>>, ErrorView>(
            row_lines(store.whole(reader)->Ok_0, reader.total_rows),
        ),
{
    lemma_paged_is_rest(store, reader, 0, size);
}

} // verus!
