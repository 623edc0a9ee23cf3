//! Laws of reads: what a chunk read comes to against a container, and how
//! chunks make up the table.

use vstd::prelude::*;
use crate::container::{Outcome, ReplyView};
use crate::decode::lemma_looked_up_splits;
use crate::error::ErrorView;
use crate::field::{ColumnView, FieldView};
use crate::model::Store;
use crate::reader::{ChunkView, ReaderView};

verus! {

/// Where a chunk read ends when `store` answers each of its requests, if it
/// ends within `fuel` requests.
pub open spec fn chunk_run(
    store: Store,
    reader: ReaderView,
    step: Outcome<ChunkView, Seq<Seq<Seq<char>>>>,
    fuel: nat,
) -> Option<Result<Seq<Seq<Seq<char>>>, ErrorView>>
    decreases fuel,
{
    match step {
        Outcome::Done(columns) => Some(Ok(columns)),
        Outcome::Failed(error) => Some(Err(error)),
        Outcome::Ask(state, request) => if fuel == 0 {
            None
        } else {
            chunk_run(
                store,
                reader,
                reader.resume_chunk(state, store.answer(request)),
                (fuel - 1) as nat,
            )
        },
    }
}

/// Once a field cannot be read, the columns of every longer prefix of the
/// fields fail in the same way.
pub proof fn lemma_columns_fail(
    store: Store,
    reader: ReaderView,
    start: nat,
    end: nat,
    failed: nat,
    upto: nat,
)
    requires
        store.columns(reader, start, end, failed) is Err,
        failed <= upto,
    ensures
        store.columns(reader, start, end, upto) == store.columns(reader, start, end, failed),
    decreases upto,
{
    if upto > failed {
        lemma_columns_fail(store, reader, start, end, failed, (upto - 1) as nat);
    }
}

proof fn lemma_columns_run(store: Store, reader: ReaderView, state: ChunkView, fuel: nat)
    requires
        state.columns.len() <= reader.fields.len(),
        store.columns(reader, state.start, state.end, state.columns.len()) == Ok::<
            Seq<Seq<Seq<char>>>,
            ErrorView,
        >(state.columns),
        fuel >= reader.fields.len() - state.columns.len(),
    ensures
        chunk_run(store, reader, reader.continue_chunk(state), fuel) == Some(
            store.columns(reader, state.start, state.end, reader.fields.len()),
        ),
    decreases reader.fields.len() - state.columns.len(),
{
    let next = state.columns.len();
    let run = chunk_run(store, reader, reader.continue_chunk(state), fuel);
    let all = store.columns(reader, state.start, state.end, reader.fields.len());
    if next < reader.fields.len() {
        let field = reader.fields[next as int];
        let texts = store.range(reader, field, state.start, state.end);
        assert(store.columns(reader, state.start, state.end, next + 1) == match texts {
            Err(error) => Err::<Seq<Seq<Seq<char>>>, ErrorView>(error),
            Ok(t) => Ok(state.columns.push(t)),
        });
        let after = ChunkView { columns: state.columns.push(texts->Ok_0), ..state };
        if texts is Err {
            lemma_columns_fail(store, reader, state.start, state.end, next + 1, reader.fields.len());
        }
        match reader.begin_range(field, state.start, state.end) {
            Outcome::Ask(_, request) => {
                // The field waits for the container: one request is spent on it.
                let reply = store.answer(request);
                assert(reader.continue_chunk(state) == Outcome::<
                    ChunkView,
                    Seq<Seq<Seq<char>>>,
                >::Ask(state, request));
                assert(texts == reader.finish_range(field, state.start, state.end, reply));
                if texts is Ok {
                    assert(reader.resume_chunk(state, reply) == reader.continue_chunk(after));
                    lemma_columns_run(store, reader, after, (fuel - 1) as nat);
                } else {
                    assert(reader.resume_chunk(state, reply) == Outcome::<
                        ChunkView,
                        Seq<Seq<Seq<char>>>,
                    >::Failed(texts->Err_0));
                }
                assert(run == Some(all));
            },
            Outcome::Done(_) => {
                // The field is decoded from the catalogue: the read goes on at once.
                assert(reader.continue_chunk(state) == reader.continue_chunk(after));
                lemma_columns_run(store, reader, after, fuel);
                assert(run == Some(all));
            },
            Outcome::Failed(error) => {
                assert(reader.continue_chunk(state) == Outcome::<
                    ChunkView,
                    Seq<Seq<Seq<char>>>,
                >::Failed(error));
                assert(run == Some(all));
            },
        }
    }
}

/// Run against a container, a chunk read ends, and ends with the chunk that
/// the container's contents define: the same columns, or the same failure.
pub proof fn lemma_chunk_read_gives_chunk(
    store: Store,
    reader: ReaderView,
    start: nat,
    count: nat,
    fuel: nat,
)
    requires
        fuel >= reader.fields.len(),
    ensures
        chunk_run(store, reader, reader.begin_chunk(start, count), fuel) == Some(
            store.chunk(reader, start, count),
        ),
{
    if start < reader.total_rows {
        let state = ChunkView {
            start,
            end: reader.chunk_end(start, count),
            columns: Seq::empty(),
        };
        lemma_columns_run(store, reader, state, fuel);
    }
}

/// A chunk that begins at the last row or after it has an empty column for
/// every field, whatever the fields are, and asks the container nothing.
pub proof fn lemma_chunk_past_end_is_empty(
    store: Store,
    reader: ReaderView,
    start: nat,
    count: nat,
)
    requires
        start >= reader.total_rows,
    ensures
        reader.begin_chunk(start, count) == Outcome::<ChunkView, Seq<Seq<Seq<char>>>>::Done(
            reader.empty_columns(),
        ),
        store.chunk(reader, start, count) == Ok::<Seq<Seq<Seq<char>>>, ErrorView>(
            reader.empty_columns(),
        ),
        reader.empty_columns().len() == reader.fields.len(),
        forall|f: int| 0 <= f < reader.fields.len() ==> (#[trigger] reader.empty_columns()[f]).len()
            == 0,
{
}

/// A read of a range has no memory: it leaves the catalogue as it was, asks
/// the container the same thing each time, and from the same answer makes
/// the same values.
pub proof fn lemma_range_read_repeats(
    reader: ReaderView,
    field: FieldView,
    start: nat,
    end: nat,
    first_reply: ReplyView,
    second_reply: ReplyView,
)
    requires
        first_reply == second_reply,
    ensures
        reader.finish_range(field, start, end, first_reply) == reader.finish_range(
            field,
            start,
            end,
            second_reply,
        ),
{
}

/// Two sets of columns, field by field one after the other.
pub open spec fn appended(head: Seq<Seq<Seq<char>>>, tail: Seq<Seq<Seq<char>>>) -> Seq<
    Seq<Seq<char>>,
> {
    Seq::new(head.len(), |f: int| head[f] + tail[f])
}

/// The chunks of `count` rows from `start` on, read one after the other up to
/// the last row and put together field by field; or the failure of the first
/// chunk that fails.
pub open spec fn stitched(store: Store, reader: ReaderView, start: nat, count: nat) -> Result<
    Seq<Seq<Seq<char>>>,
    ErrorView,
>
    decreases
        (if start < reader.total_rows {
            reader.total_rows - start
        } else {
            0
        }),
{
    if start >= reader.total_rows || count == 0 {
        Ok(reader.empty_columns())
    } else {
        match store.chunk(reader, start, count) {
            Err(error) => Err(error),
            Ok(head) => match stitched(store, reader, start + count, count) {
                Err(error) => Err(error),
                Ok(tail) => Ok(appended(head, tail)),
            },
        }
    }
}

/// A range read in two parts gives what the range read at once gives: both
/// parts succeed exactly when the whole does, and their values, one part
/// after the other, are those of the whole.
pub proof fn lemma_range_splits(
    store: Store,
    reader: ReaderView,
    field: FieldView,
    start: nat,
    at: nat,
    end: nat,
)
    requires
        start <= at <= end,
    ensures
        store.range(reader, field, start, end) is Ok <==> store.range(reader, field, start, at)
            is Ok && store.range(reader, field, at, end) is Ok,
        store.range(reader, field, start, end) is Ok ==> store.range(
            reader,
            field,
            start,
            end,
        )->Ok_0 == store.range(reader, field, start, at)->Ok_0 + store.range(
            reader,
            field,
            at,
            end,
        )->Ok_0,
{
    let whole = store.range(reader, field, start, end);
    let head = store.range(reader, field, start, at);
    let tail = store.range(reader, field, at, end);
    match field.column {
        ColumnView::Categorical { categories, codes } => {
            if end <= codes.len() {
                let wanted = codes.subrange(start as int, end as int);
                lemma_looked_up_splits(categories, wanted, at - start);
                assert(wanted.take(at - start) =~= codes.subrange(start as int, at as int));
                assert(wanted.skip(at - start) =~= codes.subrange(at as int, end as int));
            }
        },
        ColumnView::StringArray => {
            if whole is Ok {
                assert(whole->Ok_0 =~= head->Ok_0 + tail->Ok_0);
            }
        },
        ColumnView::IntArray => {
            if whole is Ok {
                assert(whole->Ok_0 =~= head->Ok_0 + tail->Ok_0);
            }
        },
        ColumnView::Unrecognized { .. } => {},
    }
}

/// Every column of a range that is read has one value for each of its rows.
pub proof fn lemma_columns_lengths(
    store: Store,
    reader: ReaderView,
    start: nat,
    end: nat,
    upto: nat,
)
    requires
        store.columns(reader, start, end, upto) is Ok,
    ensures
        store.columns(reader, start, end, upto)->Ok_0.len() == upto,
        forall|f: int|
            0 <= f < upto ==> (#[trigger] store.columns(reader, start, end, upto)->Ok_0[f]).len()
                == end - start,
    decreases upto,
{
    if upto > 0 {
        lemma_columns_lengths(store, reader, start, end, (upto - 1) as nat);
        let field = reader.fields[upto - 1];
        match reader.begin_range(field, start, end) {
            Outcome::Ask(_, request) => {
                reader.lemma_range_length(field, start, end, store.answer(request));
            },
            _ => {
                reader.lemma_range_length(field, start, end, ReplyView::Failed);
            },
        }
    }
}

/// Columns read in two parts give what the columns read at once give.
pub proof fn lemma_columns_split(
    store: Store,
    reader: ReaderView,
    start: nat,
    at: nat,
    end: nat,
    upto: nat,
)
    requires
        start <= at <= end,
        upto <= reader.fields.len(),
    ensures
        store.columns(reader, start, end, upto) is Ok <==> store.columns(reader, start, at, upto)
            is Ok && store.columns(reader, at, end, upto) is Ok,
        store.columns(reader, start, end, upto) is Ok ==> store.columns(
            reader,
            start,
            end,
            upto,
        )->Ok_0 == appended(
            store.columns(reader, start, at, upto)->Ok_0,
            store.columns(reader, at, end, upto)->Ok_0,
        ),
    decreases upto,
{
    if upto > 0 {
        let before = (upto - 1) as nat;
        lemma_columns_split(store, reader, start, at, end, before);
        lemma_range_splits(store, reader, reader.fields[upto - 1], start, at, end);
        let whole = store.columns(reader, start, end, upto);
        let head = store.columns(reader, start, at, upto);
        let tail = store.columns(reader, at, end, upto);
        if whole is Ok {
            lemma_columns_lengths(store, reader, start, end, upto);
            lemma_columns_lengths(store, reader, start, at, upto);
            lemma_columns_lengths(store, reader, at, end, upto);
            lemma_columns_lengths(store, reader, start, end, before);
            lemma_columns_lengths(store, reader, start, at, before);
            lemma_columns_lengths(store, reader, at, end, before);
            assert(whole->Ok_0 =~= appended(head->Ok_0, tail->Ok_0));
        }
    } else {
        assert(store.columns(reader, start, end, upto)->Ok_0 =~= appended(
            store.columns(reader, start, at, upto)->Ok_0,
            store.columns(reader, at, end, upto)->Ok_0,
        ));
    }
}

/// The rows from `start` to the last one, for every field.
pub open spec fn rest(store: Store, reader: ReaderView, start: nat) -> Result<
    Seq<Seq<Seq<char>>>,
    ErrorView,
> {
    if start >= reader.total_rows {
        Ok(reader.empty_columns())
    } else {
        store.columns(reader, start, reader.total_rows, reader.fields.len())
    }
}

proof fn lemma_stitched_is_rest(store: Store, reader: ReaderView, start: nat, count: nat)
    requires
        count > 0,
    ensures
        stitched(store, reader, start, count) is Ok <==> rest(store, reader, start) is Ok,
        rest(store, reader, start) is Ok ==> stitched(store, reader, start, count) == rest(
            store,
            reader,
            start,
        ),
    decreases
        (if start < reader.total_rows {
            reader.total_rows - start
        } else {
            0
        }),
{
    let rows = reader.total_rows;
    let fields = reader.fields.len();
    if start < rows {
        let end = reader.chunk_end(start, count);
        lemma_stitched_is_rest(store, reader, start + count, count);
        lemma_columns_split(store, reader, start, end, rows, fields);
        let head = store.columns(reader, start, end, fields);
        if end == rows {
            // The last chunk: nothing follows it.
            if head is Ok {
                lemma_columns_lengths(store, reader, start, end, fields);
                assert(appended(head->Ok_0, reader.empty_columns()) =~= head->Ok_0);
            }
        }
    }
}

/// Reading a table chunk by chunk, from the first row on in steps of `count`
/// rows until the last row is passed, gives, chunk after chunk and field by
/// field, exactly what reading every row at once gives. The one succeeds
/// exactly when the other does.
pub proof fn lemma_chunks_cover_table(store: Store, reader: ReaderView, count: nat)
    requires
        count > 0,
    ensures
        stitched(store, reader, 0, count) is Ok <==> store.whole(reader) is Ok,
        store.whole(reader) is Ok ==> stitched(store, reader, 0, count) == store.whole(reader),
{
    lemma_stitched_is_rest(store, reader, 0, count);
}

} // verus!
