//! Laws of the catalogue: what its construction comes to against a container.

use vstd::prelude::*;
use crate::builder::{BuilderView, Phase};
use crate::container::{NodeKind, Outcome, ReplyView, RequestView};
use crate::error::ErrorView;
use crate::field::{ColumnView, Encoding, FieldView, encoding_of};
use crate::model::Store;
use crate::reader::ReaderView;
use crate::text::member_path;

verus! {

/// Where the construction of a catalogue ends when `store` answers each of
/// its requests, if it ends within `fuel` requests.
pub open spec fn build_run(store: Store, step: Outcome<BuilderView, ReaderView>, fuel: nat)
    -> Option<Result<ReaderView, ErrorView>>
    decreases fuel,
{
    match step {
        Outcome::Done(reader) => Some(Ok(reader)),
        Outcome::Failed(error) => Some(Err(error)),
        Outcome::Ask(state, request) => if fuel == 0 {
            None
        } else {
            build_run(store, state.resume(store.answer(request)), (fuel - 1) as nat)
        },
    }
}

/// A catalogue asks at most this many requests for a table of `members` members.
pub open spec fn build_bound(members: nat) -> nat {
    2 + 7 * members
}

/// The catalogue of a table with the members `names`, once they are listed.
pub open spec fn listed(store: Store, group: Seq<char>, names: Seq<Seq<char>>) -> Result<
    ReaderView,
    ErrorView,
> {
    match store.fields_of(group, names, names.len()) {
        Err(error) => Err(error),
        Ok(fields) => Ok(ReaderView { group, fields, total_rows: store.row_count(group, names) }),
    }
}

proof fn lemma_build_step(store: Store, state: BuilderView, request: RequestView, fuel: nat)
    requires
        fuel > 0,
    ensures
        build_run(store, Outcome::Ask(state, request), fuel) == build_run(
            store,
            state.resume(store.answer(request)),
            (fuel - 1) as nat,
        ),
{
}

/// Once a member fails to make a field, the fields of every longer prefix
/// fail in the same way.
pub proof fn lemma_fields_fail(
    store: Store,
    group: Seq<char>,
    names: Seq<Seq<char>>,
    failed: nat,
    upto: nat,
)
    requires
        store.fields_of(group, names, failed) is Err,
        failed <= upto,
    ensures
        store.fields_of(group, names, upto) == store.fields_of(group, names, failed),
    decreases upto,
{
    if upto > failed {
        lemma_fields_fail(store, group, names, failed, (upto - 1) as nat);
    }
}

proof fn lemma_members(store: Store, state: BuilderView, fuel: nat)
    requires
        state.fields.len() <= state.names.len(),
        store.fields_of(state.group, state.names, state.fields.len()) == Ok::<
            Seq<FieldView>,
            ErrorView,
        >(state.fields),
        state.total_rows == if state.fields.len() == 0 {
            0
        } else {
            store.row_count(state.group, state.names)
        },
        state.categories == Seq::<Seq<char>>::empty(),
        fuel >= 7 * (state.names.len() - state.fields.len()),
    ensures
        build_run(store, state.next_member(), fuel) == Some(
            listed(store, state.group, state.names),
        ),
    decreases state.names.len() - state.fields.len(),
{
    let group = state.group;
    let names = state.names;
    let done = state.fields.len();
    if done < names.len() {
        let name = names[done as int];
        let node = member_path(group, name);
        let first = done == 0;
        let field = store.field_of(group, name, first);
        assert(store.fields_of(group, names, done + 1) == match field {
            Err(error) => Err::<Seq<FieldView>, ErrorView>(error),
            Ok(f) => Ok(state.fields.push(f)),
        });
        if field is Err {
            lemma_fields_fail(store, group, names, done + 1, names.len());
        }
        // The probe: as a dataset, then as a group.
        let probing = BuilderView { phase: Phase::Dataset, ..state };
        lemma_build_step(store, probing, probing.pending(), fuel);
        let spent_probe: nat = if store.is_dataset(node) {
            1
        } else {
            2
        };
        if !store.is_dataset(node) {
            let opening = BuilderView { phase: Phase::Group, ..state };
            lemma_build_step(store, opening, opening.pending(), (fuel - 1) as nat);
        }
        if store.kind_of(node) is Some {
            let kind = store.kind_of(node)->Some_0;
            // The row count, asked of the first member only.
            let rows = store.rows_of(node, kind);
            if first {
                let counting = BuilderView {
                    phase: if kind == NodeKind::Dataset {
                        Phase::DatasetRows
                    } else {
                        Phase::GroupRows
                    },
                    ..state
                };
                lemma_build_step(store, counting, counting.pending(), (fuel - spent_probe) as nat);
            }
            if !first || rows is Ok {
                let spent_rows: nat = if first {
                    spent_probe + 1
                } else {
                    spent_probe
                };
                let total_rows = if first {
                    rows->Ok_0
                } else {
                    state.total_rows
                };
                assert(total_rows == store.row_count(group, names));
                // The encoding tag.
                let tagging = BuilderView {
                    phase: if kind == NodeKind::Dataset {
                        Phase::DatasetTag
                    } else {
                        Phase::GroupTag
                    },
                    total_rows,
                    ..state
                };
                lemma_build_step(store, tagging, tagging.pending(), (fuel - spent_rows) as nat);
                assert(build_run(store, state.next_member(), fuel) == build_run(
                    store,
                    tagging.with_tag_reply(store.answer(tagging.pending())),
                    (fuel - spent_rows - 1) as nat,
                ));
                if store.tag_of(node, kind) is Ok {
                    let tag = store.tag_of(node, kind)->Ok_0;
                    lemma_tagged(store, state, tagging, tag, (fuel - spent_rows - 1) as nat);
                }
            }
        }
    }
}

proof fn lemma_tagged(
    store: Store,
    state: BuilderView,
    tagging: BuilderView,
    tag: Seq<char>,
    left: nat,
)
    requires
        state.fields.len() < state.names.len(),
        store.fields_of(state.group, state.names, state.fields.len()) == Ok::<
            Seq<FieldView>,
            ErrorView,
        >(state.fields),
        state.categories == Seq::<Seq<char>>::empty(),
        tagging == (BuilderView { phase: tagging.phase, total_rows: tagging.total_rows, ..state }),
        tagging.total_rows == store.row_count(state.group, state.names),
        left + 4 >= 7 * (state.names.len() - state.fields.len()),
        match store.column_of(tagging.node(), tag) {
            Err(error) => store.fields_of(state.group, state.names, state.names.len()) == Err::<
                Seq<FieldView>,
                ErrorView,
            >(error),
            Ok(column) => store.fields_of(state.group, state.names, state.fields.len() + 1) == Ok::<
                Seq<FieldView>,
                ErrorView,
            >(state.fields.push(FieldView { name: state.member(), column })),
        },
    ensures
        build_run(store, tagging.with_tag(tag), left) == Some(
            listed(store, state.group, state.names),
        ),
    decreases state.names.len() - state.fields.len(), 0nat,
{
    let node = tagging.node();
    let column = store.column_of(node, tag);
    if encoding_of(tag) != Encoding::Categorical {
        let after = BuilderView {
            fields: state.fields.push(FieldView { name: state.member(), column: column->Ok_0 }),
            categories: Seq::empty(),
            ..tagging
        };
        assert(tagging.with_tag(tag) == after.next_member());
        lemma_members(store, after, left);
    } else {
        // The category table and the codes.
        let opening = BuilderView { phase: Phase::CategoricalGroup, ..tagging };
        lemma_build_step(store, opening, opening.pending(), left);
        if store.is_group(node) {
            let reading = BuilderView { phase: Phase::Categories, ..tagging };
            lemma_build_step(store, reading, reading.pending(), (left - 1) as nat);
            let categories = store.answer(reading.pending());
            if categories is Strings {
                let coding = BuilderView {
                    phase: Phase::Codes,
                    categories: categories->Strings_0,
                    ..tagging
                };
                lemma_build_step(store, coding, coding.pending(), (left - 2) as nat);
                let codes = store.answer(coding.pending());
                if codes is Codes {
                    let after = BuilderView {
                        fields: state.fields.push(
                            FieldView { name: state.member(), column: column->Ok_0 },
                        ),
                        categories: Seq::empty(),
                        ..tagging
                    };
                    assert(coding.resume(codes) == after.next_member());
                    lemma_members(store, after, (left - 3) as nat);
                }
            }
        }
    }
}

/// Run against a container, the construction of a catalogue ends, and ends
/// with the catalogue that the container's contents define: the same fields
/// in the same order, the same row count, or the same failure.
pub proof fn lemma_build_gives_catalogue(store: Store, group: Seq<char>, fuel: nat)
    requires
        store.answer(RequestView::ListChildren { group }) matches ReplyView::Names(names)
            ==> fuel >= build_bound(names.len()),
        fuel >= build_bound(0),
    ensures
        build_run(store, BuilderView::start(group).ask(Phase::Table), fuel) == Some(
            store.catalogue(group),
        ),
{
    let opening = BuilderView::start(group);
    lemma_build_step(store, opening, opening.pending(), fuel);
    if store.is_group(group) {
        let listing = BuilderView { phase: Phase::Listing, ..opening };
        lemma_build_step(store, listing, listing.pending(), (fuel - 1) as nat);
        match store.answer(RequestView::ListChildren { group }) {
            ReplyView::Names(names) => {
                let state = BuilderView { names, ..listing };
                lemma_members(store, state, (fuel - 2) as nat);
            },
            _ => {},
        }
    }
}

/// The fields of a prefix of the members are as many as the members, and
/// carry their names in order.
pub proof fn lemma_fields_follow_names(
    store: Store,
    group: Seq<char>,
    names: Seq<Seq<char>>,
    upto: nat,
)
    requires
        upto <= names.len(),
        store.fields_of(group, names, upto) is Ok,
    ensures
        store.fields_of(group, names, upto)->Ok_0.len() == upto,
        forall|i: int|
            0 <= i < upto ==> (#[trigger] store.fields_of(group, names, upto)->Ok_0[i]).name
                == names[i],
    decreases upto,
{
    if upto > 0 {
        lemma_fields_follow_names(store, group, names, (upto - 1) as nat);
    }
}

/// The headers of a catalogue are the names of the table's members, in the
/// order in which the container lists them.
pub proof fn lemma_headers_follow_listing(store: Store, group: Seq<char>)
    requires
        store.catalogue(group) is Ok,
    ensures
        store.answer(RequestView::ListChildren { group }) == ReplyView::Names(
            store.catalogue(group)->Ok_0.headers(),
        ),
{
    let names = store.answer(RequestView::ListChildren { group })->Names_0;
    lemma_fields_follow_names(store, group, names, names.len());
    assert(store.catalogue(group)->Ok_0.headers() =~= names);
}

/// The row count of a catalogue is the length of the first member where that
/// is a dataset, the length of its codes where it is a group, and zero for a
/// table without members. No later member has a say.
pub proof fn lemma_rows_follow_first_field(store: Store, group: Seq<char>)
    requires
        store.catalogue(group) is Ok,
    ensures
        ({
            let reader = store.catalogue(group)->Ok_0;
            let names = reader.headers();
            let first = member_path(group, names[0]);
            let codes = member_path(first, "codes"@);
            if names.len() == 0 {
                reader.total_rows == 0
            } else if store.is_dataset(first) {
                reader.total_rows == store.dataset(first)->Some_0.rows
            } else {
                store.is_dataset(codes) && reader.total_rows == store.dataset(codes)->Some_0.rows
            }
        }),
{
    lemma_headers_follow_listing(store, group);
    let names = store.catalogue(group)->Ok_0.headers();
    if names.len() > 0 {
        if store.fields_of(group, names, 1) is Err {
            lemma_fields_fail(store, group, names, 1, names.len());
        }
        assert(store.fields_of(group, names, 0) is Ok);
    }
}

/// A tag that has no decoder never stands in the way of a catalogue: the
/// member becomes a field that keeps the tag. Only a read of that field
/// fails, over whatever rows, and the failure names the tag and the field.
pub proof fn lemma_unknown_tag_fails_late(
    store: Store,
    reader: ReaderView,
    node: Seq<char>,
    name: Seq<char>,
    tag: Seq<char>,
    start: nat,
    end: nat,
)
    requires
        encoding_of(tag) == Encoding::Unrecognized,
    ensures
        store.column_of(node, tag) == Ok::<ColumnView, ErrorView>(
            ColumnView::Unrecognized { tag },
        ),
        store.range(
            reader,
            FieldView { name, column: ColumnView::Unrecognized { tag } },
            start,
            end,
        ) == Err::<Seq<Seq<char>>, ErrorView>(
            ErrorView::UnsupportedEncoding { tag, field: name },
        ),
{
}

} // verus!
