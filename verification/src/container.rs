//! The exchange with the container that holds the tables.
//!
//! The library never touches the container itself. It names each operation it
//! needs as a `Request`; whoever owns the container performs it and hands back
//! the `Reply`. Nodes are named by their path from the container's root.

use vstd::prelude::*;
use crate::error::ErrorView;

verus! {

/// The two kinds of node that can carry attributes.
#[derive(Debug, Clone, Copy, PartialEq, Eq, Structural)]
pub enum NodeKind {
    Dataset,
    Group,
}

/// One operation on the container.
#[derive(Debug, Clone, PartialEq, Eq)]
pub enum Request {
    /// Open the group at `path`.
    OpenGroup { path: String },
    /// Open the leaf dataset at `path`.
    OpenDataset { path: String },
    /// List the names of the immediate members of the group at `group`, in the
    /// container's own order.
    ListChildren { group: String },
    /// Read the attribute `key` of the node of kind `kind` at `node`, as text.
    ReadAttribute { node: String, kind: NodeKind, key: String },
    /// Tell the first extent of the dataset at `dataset`.
    Shape { dataset: String },
    /// Read every element of the dataset at `dataset`, as text.
    ReadStrings { dataset: String },
    /// Read every element of the dataset at `dataset`, as unsigned category codes.
    ReadCodes { dataset: String },
    /// Read the elements `start..end` of the dataset at `dataset`, as text.
    ReadStringSlice { dataset: String, start: usize, end: usize },
    /// Read the elements `start..end` of the dataset at `dataset`, as signed integers.
    ReadIntegerSlice { dataset: String, start: usize, end: usize },
}

/// A `Request` with its paths as character sequences.
pub enum RequestView {
    OpenGroup { path: Seq<char> },
    OpenDataset { path: Seq<char> },
    ListChildren { group: Seq<char> },
    ReadAttribute { node: Seq<char>, kind: NodeKind, key: Seq<char> },
    Shape { dataset: Seq<char> },
    ReadStrings { dataset: Seq<char> },
    ReadCodes { dataset: Seq<char> },
    ReadStringSlice { dataset: Seq<char>, start: nat, end: nat },
    ReadIntegerSlice { dataset: Seq<char>, start: nat, end: nat },
}

impl View for Request {
    type V = RequestView;

    open spec fn view(&self) -> RequestView {
        match self {
            Request::OpenGroup { path } => RequestView::OpenGroup { path: path@ },
            Request::OpenDataset { path } => RequestView::OpenDataset { path: path@ },
            Request::ListChildren { group } => RequestView::ListChildren { group: group@ },
            Request::ReadAttribute { node, kind, key } => RequestView::ReadAttribute {
                node: node@,
                kind: *kind,
                key: key@,
            },
            Request::Shape { dataset } => RequestView::Shape { dataset: dataset@ },
            Request::ReadStrings { dataset } => RequestView::ReadStrings { dataset: dataset@ },
            Request::ReadCodes { dataset } => RequestView::ReadCodes { dataset: dataset@ },
            Request::ReadStringSlice { dataset, start, end } => RequestView::ReadStringSlice {
                dataset: dataset@,
                start: *start as nat,
                end: *end as nat,
            },
            Request::ReadIntegerSlice { dataset, start, end } => RequestView::ReadIntegerSlice {
                dataset: dataset@,
                start: *start as nat,
                end: *end as nat,
            },
        }
    }
}

/// What the container answered to one `Request`.
#[derive(Debug, Clone, PartialEq, Eq)]
pub enum Reply {
    /// The node was opened.
    Opened,
    /// There is no node of the wanted kind at the path.
    NotFound,
    /// The member names of a group, in the container's order.
    Names(Vec<String>),
    /// The text of an attribute.
    Text(String),
    /// The node has no attribute of that name.
    AttributeMissing,
    /// The attribute is there and is not readable as text.
    AttributeTypeMismatch,
    /// The first extent of a dataset.
    Length(usize),
    /// Elements read as text.
    Strings(Vec<String>),
    /// Elements read as signed integers.
    Integers(Vec<i64>),
    /// Elements read as unsigned category codes.
    Codes(Vec<u32>),
    /// The container could not perform the operation.
    Failed,
}

/// A `Reply` with its texts as character sequences.
pub enum ReplyView {
    Opened,
    NotFound,
    Names(Seq<Seq<char>>),
    Text(Seq<char>),
    AttributeMissing,
    AttributeTypeMismatch,
    Length(nat),
    Strings(Seq<Seq<char>>),
    Integers(Seq<i64>),
    Codes(Seq<u32>),
    Failed,
}

impl View for Reply {
    type V = ReplyView;

    open spec fn view(&self) -> ReplyView {
        match self {
            Reply::Opened => ReplyView::Opened,
            Reply::NotFound => ReplyView::NotFound,
            Reply::Names(names) => ReplyView::Names(names.deep_view()),
            Reply::Text(text) => ReplyView::Text(text@),
            Reply::AttributeMissing => ReplyView::AttributeMissing,
            Reply::AttributeTypeMismatch => ReplyView::AttributeTypeMismatch,
            Reply::Length(n) => ReplyView::Length(*n as nat),
            Reply::Strings(items) => ReplyView::Strings(items.deep_view()),
            Reply::Integers(items) => ReplyView::Integers(items@),
            Reply::Codes(items) => ReplyView::Codes(items@),
            Reply::Failed => ReplyView::Failed,
        }
    }
}

/// Where a piece of work stands after one move: it needs the container, it is
/// done, or it has failed.
pub enum Outcome<S, T> {
    /// The work goes on from the state `S` once the request is answered.
    Ask(S, RequestView),
    /// The work is complete.
    Done(T),
    /// The work is over and nothing is returned.
    Failed(ErrorView),
}

} // verus!
