//! Laws of field lists and row counts taken without a catalogue.

use vstd::prelude::*;
use crate::container::{NodeKind, Outcome, RequestView, ReplyView};
use crate::error::ErrorView;
use crate::extent::{CountPhase, CounterView};
use crate::listing::{ListPhase, ListerView, TagView};
use crate::model::Store;
use crate::text::member_path;

verus! {

/// Where a listing ends when `store` answers each of its requests, if it
/// ends within `fuel` requests.
pub open spec fn list_run(store: Store, step: Outcome<ListerView, Seq<TagView>>, fuel: nat)
    -> Option<Result<Seq<TagView>, ErrorView>>
    decreases fuel,
{
    match step {
        Outcome::Done(tags) => Some(Ok(tags)),
        Outcome::Failed(error) => Some(Err(error)),
        Outcome::Ask(state, request) => if fuel == 0 {
            None
        } else {
            list_run(store, state.resume(store.answer(request)), (fuel - 1) as nat)
        },
    }
}

/// A listing asks at most this many requests for a table of `members` members.
pub open spec fn list_bound(members: nat) -> nat {
    2 + 3 * members
}

proof fn lemma_list_step(store: Store, state: ListerView, request: RequestView, fuel: nat)
    requires
        fuel > 0,
    ensures
        list_run(store, Outcome::Ask(state, request), fuel) == list_run(
            store,
            state.resume(store.answer(request)),
            (fuel - 1) as nat,
        ),
{
}

/// Once the tag of a member cannot be read, the tags of every longer prefix
/// fail in the same way.
pub proof fn lemma_tags_fail(
    store: Store,
    group: Seq<char>,
    names: Seq<Seq<char>>,
    failed: nat,
    upto: nat,
)
    requires
        store.tags_of(group, names, failed) is Err,
        failed <= upto,
    ensures
        store.tags_of(group, names, upto) == store.tags_of(group, names, failed),
    decreases upto,
{
    if upto > failed {
        lemma_tags_fail(store, group, names, failed, (upto - 1) as nat);
    }
}

proof fn lemma_listed_members(store: Store, state: ListerView, fuel: nat)
    requires
        state.tags.len() <= state.names.len(),
        store.tags_of(state.group, state.names, state.tags.len()) == Ok::<
            Seq<TagView>,
            ErrorView,
        >(state.tags),
        fuel >= 3 * (state.names.len() - state.tags.len()),
    ensures
        list_run(store, state.next_member(), fuel) == Some(
            store.tags_of(state.group, state.names, state.names.len()),
        ),
    decreases state.names.len() - state.tags.len(),
{
    let group = state.group;
    let names = state.names;
    let done = state.tags.len();
    if done < names.len() {
        let name = names[done as int];
        let node = member_path(group, name);
        let entry = store.tag_entry(group, name);
        assert(store.tags_of(group, names, done + 1) == match entry {
            Err(error) => Err::<Seq<TagView>, ErrorView>(error),
            Ok(e) => Ok(state.tags.push(e)),
        });
        if entry is Err {
            lemma_tags_fail(store, group, names, done + 1, names.len());
        }
        let probing = ListerView { phase: ListPhase::Dataset, ..state };
        lemma_list_step(store, probing, probing.pending(), fuel);
        let spent: nat = if store.is_dataset(node) {
            1
        } else {
            2
        };
        if !store.is_dataset(node) {
            let opening = ListerView { phase: ListPhase::Group, ..state };
            lemma_list_step(store, opening, opening.pending(), (fuel - 1) as nat);
        }
        if store.kind_of(node) is Some {
            let kind = store.kind_of(node)->Some_0;
            let tagging = ListerView {
                phase: if kind == NodeKind::Dataset {
                    ListPhase::DatasetTag
                } else {
                    ListPhase::GroupTag
                },
                ..state
            };
            lemma_list_step(store, tagging, tagging.pending(), (fuel - spent) as nat);
            if entry is Ok {
                let after = ListerView { tags: state.tags.push(entry->Ok_0), ..tagging };
                assert(tagging.resume(store.answer(tagging.pending())) == after.next_member());
                lemma_listed_members(store, after, (fuel - spent - 1) as nat);
            }
        }
    }
}

/// Run against a container, a listing ends, and ends with the names and tags
/// that the container's contents define, in the container's order, or with
/// the same failure.
pub proof fn lemma_listing_gives_tags(store: Store, group: Seq<char>, fuel: nat)
    requires
        store.answer(RequestView::ListChildren { group }) matches ReplyView::Names(names)
            ==> fuel >= list_bound(names.len()),
        fuel >= list_bound(0),
    ensures
        list_run(store, ListerView::start(group).ask(ListPhase::Table), fuel) == Some(
            store.field_tags(group),
        ),
{
    let opening = ListerView::start(group);
    lemma_list_step(store, opening, opening.pending(), fuel);
    if store.is_group(group) {
        let listing = ListerView { phase: ListPhase::Listing, ..opening };
        lemma_list_step(store, listing, listing.pending(), (fuel - 1) as nat);
        match store.answer(RequestView::ListChildren { group }) {
            ReplyView::Names(names) => {
                let state = ListerView { names, ..listing };
                lemma_listed_members(store, state, (fuel - 2) as nat);
            },
            _ => {},
        }
    }
}

/// Where a count of rows ends when `store` answers each of its requests, if
/// it ends within `fuel` requests.
pub open spec fn count_run(store: Store, step: Outcome<CounterView, nat>, fuel: nat) -> Option<
    Result<nat, ErrorView>,
>
    decreases fuel,
{
    match step {
        Outcome::Done(rows) => Some(Ok(rows)),
        Outcome::Failed(error) => Some(Err(error)),
        Outcome::Ask(state, request) => if fuel == 0 {
            None
        } else {
            count_run(store, state.resume(store.answer(request)), (fuel - 1) as nat)
        },
    }
}

/// Run against a container, a count of rows ends within three requests, and
/// ends with the length of the table's index column, or with the failure
/// that the container's contents define.
pub proof fn lemma_count_gives_rows(store: Store, group: Seq<char>, fuel: nat)
    requires
        fuel >= 3,
    ensures
        count_run(store, CounterView::start(group).ask(CountPhase::Table), fuel) == Some(
            store.indexed_rows(group),
        ),
{
    reveal_with_fuel(count_run, 4);
}

} // verus!
