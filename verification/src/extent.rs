//! Finding the number of rows of a table from its index column, without a
//! catalogue.

use vstd::prelude::*;
use vstd::string::*;
use crate::container::{NodeKind, Outcome, Reply, ReplyView, Request, RequestView};
use crate::error::{Error, ErrorView};
use crate::text::{member_path, path_of};

verus! {

/// The name of the attribute of a table's group that names its index column.
pub open spec fn index_key() -> Seq<char> {
    "_index"@
}

/// The container operation whose reply a `RowCounter` waits for.
#[derive(Debug, Clone, Copy, PartialEq, Eq, Structural)]
pub enum CountPhase {
    /// Opening the table's group.
    Table,
    /// Reading the name of the index column.
    Index,
    /// Asking the length of the index column.
    Rows,
}

/// A count under way, with its texts as character sequences.
pub struct CounterView {
    /// The path of the table's group.
    pub group: Seq<char>,
    /// The name of the index column, once it is read.
    pub index: Seq<char>,
    /// What the pending request is about.
    pub phase: CountPhase,
}

impl CounterView {
    /// The state before anything was asked.
    pub open spec fn start(group: Seq<char>) -> CounterView {
        CounterView { group, index: Seq::empty(), phase: CountPhase::Table }
    }

    /// The path of the index column.
    pub open spec fn column(self) -> Seq<char> {
        member_path(self.group, self.index)
    }

    /// The request that this state waits on.
    pub open spec fn pending(self) -> RequestView {
        match self.phase {
            CountPhase::Table => RequestView::OpenGroup { path: self.group },
            CountPhase::Index => RequestView::ReadAttribute {
                node: self.group,
                kind: NodeKind::Group,
                key: index_key(),
            },
            CountPhase::Rows => RequestView::Shape { dataset: self.column() },
        }
    }

    /// Goes to `phase` and asks what that phase waits on.
    pub open spec fn ask(self, phase: CountPhase) -> Outcome<CounterView, nat> {
        let next = CounterView { phase, ..self };
        Outcome::Ask(next, next.pending())
    }

    /// The move that follows the container's reply to the pending request.
    ///
    /// The group's index attribute names a dataset of the group; the length
    /// of that dataset is the number of rows.
    pub open spec fn resume(self, reply: ReplyView) -> Outcome<CounterView, nat> {
        match self.phase {
            CountPhase::Table => match reply {
                ReplyView::Opened => self.ask(CountPhase::Index),
                ReplyView::NotFound => Outcome::Failed(
                    ErrorView::GroupNotFound { path: self.group },
                ),
                _ => Outcome::Failed(ErrorView::ContainerReadFailure { path: self.group }),
            },
            CountPhase::Index => match reply {
                ReplyView::Text(index) => CounterView { index, ..self }.ask(CountPhase::Rows),
                ReplyView::AttributeMissing => Outcome::Failed(
                    ErrorView::AttributeMissing { node: self.group, key: index_key() },
                ),
                ReplyView::AttributeTypeMismatch => Outcome::Failed(
                    ErrorView::AttributeTypeMismatch { node: self.group, key: index_key() },
                ),
                _ => Outcome::Failed(ErrorView::ContainerReadFailure { path: self.group }),
            },
            CountPhase::Rows => match reply {
                ReplyView::Length(rows) => Outcome::Done(rows),
                _ => Outcome::Failed(ErrorView::ContainerReadFailure { path: self.column() }),
            },
        }
    }
}

/// A count under way that waits for the container.
#[derive(Debug)]
pub struct RowCounter {
    group: String,
    index: String,
    phase: CountPhase,
}

impl View for RowCounter {
    type V = CounterView;

    closed spec fn view(&self) -> CounterView {
        CounterView { group: self.group@, index: self.index@, phase: self.phase }
    }
}

/// One move of a count.
#[derive(Debug)]
pub enum Counting {
    /// Perform the request and hand the reply to `RowCounter::resume`.
    Ask(RowCounter, Request),
    /// The number of rows.
    Done(usize),
    /// The count failed.
    Failed(Error),
}

impl View for Counting {
    type V = Outcome<CounterView, nat>;

    open spec fn view(&self) -> Outcome<CounterView, nat> {
        match self {
            Counting::Ask(counter, request) => Outcome::Ask(counter@, request@),
            Counting::Done(rows) => Outcome::Done(*rows as nat),
            Counting::Failed(error) => Outcome::Failed(error@),
        }
    }
}

impl RowCounter {
    /// Begins the count of the rows of the table whose group is at `group_name`.
    pub fn new(group_name: &str) -> (step: Counting)
        ensures
            step@ == CounterView::start(group_name@).ask(CountPhase::Table),
    {
        let counter = RowCounter {
            group: String::from_str(group_name),
            index: String::new(),
            phase: CountPhase::Table,
        };
        Counting::Ask(counter, Request::OpenGroup { path: String::from_str(group_name) })
    }

    /// Goes on with the count: `reply` is the container's answer to the
    /// pending request.
    pub fn resume(self, reply: Reply) -> (step: Counting)
        ensures
            step@ == self@.resume(reply@),
    {
        let RowCounter { group, index, phase } = self;
        match phase {
            CountPhase::Table => match reply {
                Reply::Opened => {
                    let request = Request::ReadAttribute {
                        node: group.clone(),
                        kind: NodeKind::Group,
                        key: String::from_str("_index"),
                    };
                    Counting::Ask(RowCounter { group, index, phase: CountPhase::Index }, request)
                },
                Reply::NotFound => Counting::Failed(Error::GroupNotFound { path: group }),
                _ => Counting::Failed(Error::ContainerReadFailure { path: group }),
            },
            CountPhase::Index => match reply {
                Reply::Text(named) => {
                    let request = Request::Shape {
                        dataset: path_of(group.as_str(), named.as_str()),
                    };
                    Counting::Ask(
                        RowCounter { group, index: named, phase: CountPhase::Rows },
                        request,
                    )
                },
                Reply::AttributeMissing => Counting::Failed(
                    Error::AttributeMissing { node: group, key: String::from_str("_index") },
                ),
                Reply::AttributeTypeMismatch => Counting::Failed(
                    Error::AttributeTypeMismatch { node: group, key: String::from_str("_index") },
                ),
                _ => Counting::Failed(Error::ContainerReadFailure { path: group }),
            },
            CountPhase::Rows => match reply {
                Reply::Length(rows) => Counting::Done(rows),
                _ => Counting::Failed(
                    Error::ContainerReadFailure { path: path_of(group.as_str(), index.as_str()) },
                ),
            },
        }
    }
}

} // verus!
