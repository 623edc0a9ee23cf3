//! The catalogue of a table and the reads it serves.

use vstd::prelude::*;
use vstd::string::*;
use crate::container::{Outcome, Reply, ReplyView, Request, RequestView};
use crate::decode::{decode_codes, decode_integers, looked_up, numerals};
use crate::error::{Error, ErrorView};
use crate::field::{Column, ColumnView, Field, FieldView};
use crate::text::{member_path, path_of};

verus! {

/// The catalogue of one table: its fields in column order and its row count.
///
/// Category tables and codes are held in the fields; everything else is read
/// from the container each time it is asked for.
#[derive(Debug, Clone, PartialEq, Eq)]
pub struct DataReader {
    group: String,
    fields: Vec<Field>,
    total_rows: usize,
}

/// A `DataReader` with its texts as character sequences.
pub struct ReaderView {
    /// The path of the table's group.
    pub group: Seq<char>,
    /// The fields, in the order in which the container lists them.
    pub fields: Seq<FieldView>,
    /// The number of rows, as the first field gave it.
    pub total_rows: nat,
}

impl View for DataReader {
    type V = ReaderView;

    closed spec fn view(&self) -> ReaderView {
        ReaderView {
            group: self.group@,
            fields: self.fields.deep_view(),
            total_rows: self.total_rows as nat,
        }
    }
}

/// The rows that a chunk read is after, and the columns decoded so far.
pub struct ChunkView {
    /// The first row that the read is after.
    pub start: nat,
    /// The row after the last one that the read is after.
    pub end: nat,
    /// The columns of the fields before the one that waits, in field order.
    pub columns: Seq<Seq<Seq<char>>>,
}

impl ChunkView {
    /// The number of rows that the read is after.
    pub open spec fn rows(self) -> int {
        self.end - self.start
    }

    /// Whether the state can stand: every column decoded so far has one value
    /// for each row that the read is after.
    pub open spec fn wf(self) -> bool {
        &&& self.start <= self.end
        &&& forall|f: int|
            0 <= f < self.columns.len() ==> (#[trigger] self.columns[f]).len() == self.rows()
    }
}

/// Whether a move of a chunk read of `rows` rows has the shape it must have:
/// at the end one column for each field and `rows` values in each; on the way
/// `rows` values in each column decoded so far, and a field still waiting.
pub open spec fn shaped(
    reader: ReaderView,
    step: Outcome<ChunkView, Seq<Seq<Seq<char>>>>,
    rows: int,
) -> bool {
    match step {
        Outcome::Done(columns) => {
            &&& columns.len() == reader.fields.len()
            &&& forall|f: int| 0 <= f < columns.len() ==> (#[trigger] columns[f]).len() == rows
        },
        Outcome::Ask(state, _) => {
            &&& state.wf()
            &&& state.rows() == rows
            &&& state.columns.len() < reader.fields.len()
        },
        Outcome::Failed(_) => true,
    }
}

/// A chunk read that waits for the container: the columns of the fields
/// before the one whose values were asked for.
#[derive(Debug)]
pub struct ChunkRead {
    start: usize,
    end: usize,
    columns: Vec<Vec<String>>,
}

impl View for ChunkRead {
    type V = ChunkView;

    closed spec fn view(&self) -> ChunkView {
        ChunkView {
            start: self.start as nat,
            end: self.end as nat,
            columns: self.columns.deep_view(),
        }
    }
}

impl ChunkRead {
    #[verifier::type_invariant]
    spec fn inv(self) -> bool {
        self@.wf()
    }
}

/// One move of a read of one field.
#[derive(Debug)]
pub enum RangeStep {
    /// Perform the request and hand the reply to `DataReader::finish_range`.
    Ask(Request),
    /// The values of the range, as text.
    Done(Vec<String>),
    /// The read failed.
    Failed(Error),
}

impl View for RangeStep {
    type V = Outcome<(), Seq<Seq<char>>>;

    open spec fn view(&self) -> Outcome<(), Seq<Seq<char>>> {
        match self {
            RangeStep::Ask(request) => Outcome::Ask((), request@),
            RangeStep::Done(texts) => Outcome::Done(texts.deep_view()),
            RangeStep::Failed(error) => Outcome::Failed(error@),
        }
    }
}

/// One move of a read of a chunk of rows.
#[derive(Debug)]
pub enum ChunkStep {
    /// Perform the request and hand the reply to `DataReader::resume_chunk`.
    Ask(ChunkRead, Request),
    /// One column per field, in field order.
    Done(Vec<Vec<String>>),
    /// The read failed.
    Failed(Error),
}

impl View for ChunkStep {
    type V = Outcome<ChunkView, Seq<Seq<Seq<char>>>>;

    open spec fn view(&self) -> Outcome<ChunkView, Seq<Seq<Seq<char>>>> {
        match self {
            ChunkStep::Ask(state, request) => Outcome::Ask(state@, request@),
            ChunkStep::Done(columns) => Outcome::Done(columns.deep_view()),
            ChunkStep::Failed(error) => Outcome::Failed(error@),
        }
    }
}

impl ReaderView {
    /// The field names, in column order.
    pub open spec fn headers(self) -> Seq<Seq<char>> {
        Seq::new(self.fields.len(), |i: int| self.fields[i].name)
    }

    /// The path of the node that stores `field`.
    pub open spec fn node(self, field: FieldView) -> Seq<char> {
        member_path(self.group, field.name)
    }

    /// The first move of a read of the rows `start..end` of `field`.
    ///
    /// A string or integer field asks the container for the slice. A
    /// categorical field is decoded from its own codes. A field with any other
    /// tag fails.
    pub open spec fn begin_range(self, field: FieldView, start: nat, end: nat) -> Outcome<
        (),
        Seq<Seq<char>>,
    > {
        match field.column {
            ColumnView::StringArray => Outcome::Ask(
                (),
                RequestView::ReadStringSlice { dataset: self.node(field), start, end },
            ),
            ColumnView::IntArray => Outcome::Ask(
                (),
                RequestView::ReadIntegerSlice { dataset: self.node(field), start, end },
            ),
            ColumnView::Categorical { categories, codes } => {
                if start <= end <= codes.len() {
                    match looked_up(categories, codes.subrange(start as int, end as int)) {
                        Ok(texts) => Outcome::Done(texts),
                        Err(code) => Outcome::Failed(
                            ErrorView::OutOfRangeCategory { field: field.name, code },
                        ),
                    }
                } else {
                    Outcome::Failed(
                        ErrorView::ContainerReadFailure {
                            path: member_path(self.node(field), "codes"@),
                        },
                    )
                }
            },
            ColumnView::Unrecognized { tag } => Outcome::Failed(
                ErrorView::UnsupportedEncoding { tag, field: field.name },
            ),
        }
    }

    /// The values of the rows `start..end` of `field`, given the container's
    /// reply to what `begin_range` asked.
    ///
    /// Strings come back as they were read, integers as decimal numerals. A
    /// reply of the wrong kind or length is a failed read. Where `begin_range`
    /// asked nothing, the reply has no say.
    pub open spec fn finish_range(self, field: FieldView, start: nat, end: nat, reply: ReplyView)
        -> Result<Seq<Seq<char>>, ErrorView> {
        match self.begin_range(field, start, end) {
            Outcome::Done(texts) => Ok(texts),
            Outcome::Failed(error) => Err(error),
            Outcome::Ask(_, _) => match (field.column, reply) {
                (ColumnView::StringArray, ReplyView::Strings(texts)) if start <= end && texts.len()
                    == end - start => Ok(texts),
                (ColumnView::IntArray, ReplyView::Integers(values)) if start <= end && values.len()
                    == end - start => Ok(numerals(values)),
                _ => Err(ErrorView::ContainerReadFailure { path: self.node(field) }),
            },
        }
    }

    /// The number of rows in the chunk of `count` rows from `start`: what is
    /// left of the table from `start` on, and no more than `count`.
    pub open spec fn chunk_rows(self, start: nat, count: nat) -> int {
        if start >= self.total_rows {
            0
        } else {
            self.chunk_end(start, count) - start
        }
    }

    /// A range that is read has one value for each of its rows.
    pub proof fn lemma_range_length(self, field: FieldView, start: nat, end: nat, reply: ReplyView)
        ensures
            self.begin_range(field, start, end) matches Outcome::Done(texts) ==> start <= end
                && texts.len() == end - start,
            self.finish_range(field, start, end, reply) matches Ok(texts) ==> start <= end
                && texts.len() == end - start,
    {
    }

    /// A chunk read that goes on from a state that stands keeps its shape.
    pub proof fn lemma_continue_shaped(self, state: ChunkView)
        requires
            state.wf(),
            state.columns.len() <= self.fields.len(),
        ensures
            shaped(self, self.continue_chunk(state), state.rows()),
        decreases self.fields.len() - state.columns.len(),
    {
        let next = state.columns.len() as int;
        if next < self.fields.len() {
            self.lemma_range_length(self.fields[next], state.start, state.end, ReplyView::Failed);
            match self.begin_range(self.fields[next], state.start, state.end) {
                Outcome::Done(texts) => {
                    self.lemma_continue_shaped(
                        ChunkView { columns: state.columns.push(texts), ..state },
                    );
                },
                _ => {},
            }
        }
    }

    /// One empty column for each field.
    pub open spec fn empty_columns(self) -> Seq<Seq<Seq<char>>> {
        Seq::new(self.fields.len(), |i: int| Seq::<Seq<char>>::empty())
    }

    /// The end of the chunk of `count` rows from `start`: it stops at the last row.
    pub open spec fn chunk_end(self, start: nat, count: nat) -> nat {
        if start + count <= self.total_rows {
            start + count
        } else {
            self.total_rows
        }
    }

    /// A chunk read, taken up at the first field that has no column yet, run
    /// until it needs the container, fails or has a column for every field.
    pub open spec fn continue_chunk(self, state: ChunkView) -> Outcome<
        ChunkView,
        Seq<Seq<Seq<char>>>,
    >
        decreases self.fields.len() - state.columns.len(),
    {
        let next = state.columns.len() as int;
        if next >= self.fields.len() {
            Outcome::Done(state.columns)
        } else {
            match self.begin_range(self.fields[next], state.start, state.end) {
                Outcome::Ask(_, request) => Outcome::Ask(state, request),
                Outcome::Failed(error) => Outcome::Failed(error),
                Outcome::Done(texts) => self.continue_chunk(
                    ChunkView { columns: state.columns.push(texts), ..state },
                ),
            }
        }
    }

    /// The first move of a read of `count` rows from `start`.
    ///
    /// From the last row on there is nothing to read: every column is empty
    /// and no field is looked at.
    pub open spec fn begin_chunk(self, start: nat, count: nat) -> Outcome<
        ChunkView,
        Seq<Seq<Seq<char>>>,
    > {
        if start >= self.total_rows {
            Outcome::Done(self.empty_columns())
        } else {
            self.continue_chunk(
                ChunkView { start, end: self.chunk_end(start, count), columns: Seq::empty() },
            )
        }
    }

    /// The move of a chunk read after the container's reply for the field that
    /// waited.
    pub open spec fn resume_chunk(self, state: ChunkView, reply: ReplyView) -> Outcome<
        ChunkView,
        Seq<Seq<Seq<char>>>,
    > {
        let next = state.columns.len() as int;
        if next >= self.fields.len() {
            Outcome::Done(state.columns)
        } else {
            match self.finish_range(self.fields[next], state.start, state.end, reply) {
                Ok(texts) => self.continue_chunk(
                    ChunkView { columns: state.columns.push(texts), ..state },
                ),
                Err(error) => Outcome::Failed(error),
            }
        }
    }
}

impl DataReader {
    /// The catalogue of the table at `group` with the fields `fields` and
    /// `total_rows` rows.
    pub fn from_parts(group: String, fields: Vec<Field>, total_rows: usize) -> (reader: DataReader)
        ensures
            reader@ == (ReaderView {
                group: group@,
                fields: fields.deep_view(),
                total_rows: total_rows as nat,
            }),
    {
        DataReader { group, fields, total_rows }
    }

    /// The path of the table's group.
    pub fn group(&self) -> (group: &String)
        ensures
            group@ == self@.group,
    {
        &self.group
    }

    /// The fields, in column order.
    pub fn fields(&self) -> (fields: &Vec<Field>)
        ensures
            fields.deep_view() == self@.fields,
    {
        &self.fields
    }

    /// The field names, in column order.
    pub fn get_headers(&self) -> (headers: Vec<String>)
        ensures
            headers.deep_view() == self@.headers(),
    {
        let mut headers: Vec<String> = Vec::new();
        let mut i: usize = 0;
        while i < self.fields.len()
            invariant
                i <= self.fields.len(),
                headers.len() == i,
                forall|j: int| 0 <= j < i ==> (#[trigger] headers[j])@ == self.fields[j].name@,
            decreases self.fields.len() - i,
        {
            headers.push(self.fields[i].name.clone());
            i = i + 1;
        }
        proof {
            assert(headers.deep_view() =~= self@.headers());
        }
        headers
    }

    /// The number of rows of the table.
    pub fn total_rows(&self) -> (rows: usize)
        ensures
            rows == self@.total_rows,
    {
        self.total_rows
    }

    /// Begins a read of the rows `start..end` of `field`.
    pub fn read_range(&self, field: &Field, start: usize, end: usize) -> (step: RangeStep)
        ensures
            step@ == self@.begin_range(field@, start as nat, end as nat),
    {
        match &field.column {
            Column::StringArray => RangeStep::Ask(
                Request::ReadStringSlice {
                    dataset: path_of(self.group.as_str(), field.name.as_str()),
                    start,
                    end,
                },
            ),
            Column::IntArray => RangeStep::Ask(
                Request::ReadIntegerSlice {
                    dataset: path_of(self.group.as_str(), field.name.as_str()),
                    start,
                    end,
                },
            ),
            Column::Categorical { categories, codes } => {
                if start <= end && end <= codes.len() {
                    match decode_codes(categories, codes, start, end) {
                        Ok(texts) => RangeStep::Done(texts),
                        Err(code) => RangeStep::Failed(
                            Error::OutOfRangeCategory { field: field.name.clone(), code },
                        ),
                    }
                } else {
                    let node = path_of(self.group.as_str(), field.name.as_str());
                    RangeStep::Failed(
                        Error::ContainerReadFailure { path: path_of(node.as_str(), "codes") },
                    )
                }
            },
            Column::Unrecognized { tag } => RangeStep::Failed(
                Error::UnsupportedEncoding { tag: tag.clone(), field: field.name.clone() },
            ),
        }
    }

    /// Completes a read of the rows `start..end` of `field` with the
    /// container's reply to the request of `read_range`.
    pub fn finish_range(&self, field: &Field, start: usize, end: usize, reply: Reply) -> (out:
        Result<Vec<String>, Error>)
        ensures
            match self@.finish_range(field@, start as nat, end as nat, reply@) {
                Ok(texts) => out matches Ok(v) && v.deep_view() == texts,
                Err(error) => out matches Err(e) && e@ == error,
            },
    {
        match self.read_range(field, start, end) {
            RangeStep::Done(texts) => Ok(texts),
            RangeStep::Failed(error) => Err(error),
            RangeStep::Ask(_) => {
                match (&field.column, reply) {
                    (Column::StringArray, Reply::Strings(texts)) => {
                        if start <= end && texts.len() == end - start {
                            return Ok(texts);
                        }
                    },
                    (Column::IntArray, Reply::Integers(values)) => {
                        if start <= end && values.len() == end - start {
                            return Ok(decode_integers(&values));
                        }
                    },
                    _ => {},
                }
                Err(
                    Error::ContainerReadFailure {
                        path: path_of(self.group.as_str(), field.name.as_str()),
                    },
                )
            },
        }
    }

    fn continue_chunk(&self, start: usize, end: usize, decoded: Vec<Vec<String>>) -> (step:
        ChunkStep)
        requires
            (ChunkView {
                start: start as nat,
                end: end as nat,
                columns: decoded.deep_view(),
            }).wf(),
        ensures
            step@ == self@.continue_chunk(
                ChunkView { start: start as nat, end: end as nat, columns: decoded.deep_view() },
            ),
    {
        let ghost entry = ChunkView {
            start: start as nat,
            end: end as nat,
            columns: decoded.deep_view(),
        };
        let mut columns = decoded;
        loop
            invariant
                entry == (ChunkView {
                    start: start as nat,
                    end: end as nat,
                    columns: decoded.deep_view(),
                }),
                (ChunkView {
                    start: start as nat,
                    end: end as nat,
                    columns: columns.deep_view(),
                }).wf(),
                self@.continue_chunk(
                    ChunkView {
                        start: start as nat,
                        end: end as nat,
                        columns: columns.deep_view(),
                    },
                ) == self@.continue_chunk(entry),
            decreases self.fields.len() - columns.len(),
        {
            let next = columns.len();
            if next >= self.fields.len() {
                return ChunkStep::Done(columns);
            }
            let ghost before = columns.deep_view();
            proof {
                assert(self@.fields[next as int] == self.fields[next as int]@);
                self@.lemma_range_length(
                    self.fields[next as int]@,
                    start as nat,
                    end as nat,
                    ReplyView::Failed,
                );
            }
            match self.read_range(&self.fields[next], start, end) {
                RangeStep::Ask(request) => {
                    return ChunkStep::Ask(ChunkRead { start, end, columns }, request);
                },
                RangeStep::Failed(error) => {
                    return ChunkStep::Failed(error);
                },
                RangeStep::Done(texts) => {
                    columns.push(texts);
                    proof {
                        assert(columns.deep_view() =~= before.push(texts.deep_view()));
                    }
                },
            }
        }
    }

    /// Begins a read of `count` rows from `start`, one column for each field.
    ///
    /// The read is after the rows from `start` up to `start + count` or the
    /// last row, whichever comes first. From the last row on it is done at
    /// once, with an empty column for every field.
    pub fn read_chunk(&self, start: usize, count: usize) -> (step: ChunkStep)
        ensures
            step@ == self@.begin_chunk(start as nat, count as nat),
            shaped(self@, step@, self@.chunk_rows(start as nat, count as nat)),
    {
        if start >= self.total_rows {
            let mut columns: Vec<Vec<String>> = Vec::new();
            let mut i: usize = 0;
            while i < self.fields.len()
                invariant
                    i <= self.fields.len(),
                    columns.len() == i,
                    forall|j: int| 0 <= j < i ==> (#[trigger] columns[j]).len() == 0,
                decreases self.fields.len() - i,
            {
                columns.push(Vec::new());
                i = i + 1;
            }
            proof {
                assert forall|j: int| 0 <= j < columns.len() implies columns.deep_view()[j]
                    == Seq::<Seq<char>>::empty() by {
                    assert(columns[j].deep_view() =~= Seq::<Seq<char>>::empty());
                }
                assert(columns.deep_view() =~= self@.empty_columns());
            }
            ChunkStep::Done(columns)
        } else {
            let end = if count <= self.total_rows - start {
                start + count
            } else {
                self.total_rows
            };
            let columns: Vec<Vec<String>> = Vec::new();
            proof {
                assert(columns.deep_view() =~= Seq::<Seq<Seq<char>>>::empty());
                self@.lemma_continue_shaped(
                    ChunkView { start: start as nat, end: end as nat, columns: Seq::empty() },
                );
            }
            self.continue_chunk(start, end, columns)
        }
    }

    /// Goes on with a chunk read: `reply` is the container's answer to the
    /// request that came with `waiting`.
    pub fn resume_chunk(&self, waiting: ChunkRead, reply: Reply) -> (step: ChunkStep)
        ensures
            step@ == self@.resume_chunk(waiting@, reply@),
            waiting@.columns.len() < self@.fields.len() ==> shaped(
                self@,
                step@,
                waiting@.rows(),
            ),
    {
        proof {
            use_type_invariant(&waiting);
        }
        let ChunkRead { start, end, columns } = waiting;
        let mut columns = columns;
        let next = columns.len();
        if next >= self.fields.len() {
            return ChunkStep::Done(columns);
        }
        let ghost before = columns.deep_view();
        proof {
            assert(self@.fields[next as int] == self.fields[next as int]@);
            self@.lemma_range_length(
                self.fields[next as int]@,
                start as nat,
                end as nat,
                reply@,
            );
        }
        match self.finish_range(&self.fields[next], start, end, reply) {
            Ok(texts) => {
                columns.push(texts);
                proof {
                    assert(columns.deep_view() =~= before.push(texts.deep_view()));
                    self@.lemma_continue_shaped(
                        ChunkView {
                            start: start as nat,
                            end: end as nat,
                            columns: columns.deep_view(),
                        },
                    );
                }
                self.continue_chunk(start, end, columns)
            },
            Err(error) => ChunkStep::Failed(error),
        }
    }

    /// Begins a read of every row of the table.
    pub fn read_all(&self) -> (step: ChunkStep)
        ensures
            step@ == self@.begin_chunk(0, self@.total_rows),
            shaped(self@, step@, self@.total_rows as int),
    {
        self.read_chunk(0, self.total_rows)
    }
}

} // verus!
