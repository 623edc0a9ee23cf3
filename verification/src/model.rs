//! A container as a mathematical value, and what a catalogue and its reads
//! are when taken from it.
//!
//! Nothing here runs. The model says what a container that answers every
//! request from fixed contents returns, and, over those answers, what the
//! catalogue of a table and the chunks read through it must be.

use vstd::prelude::*;
use crate::builder::tag_key;
use crate::container::{NodeKind, Outcome, ReplyView, RequestView};
use crate::error::ErrorView;
use crate::extent::index_key;
use crate::field::{plain_column, ColumnView, Encoding, FieldView, encoding_of};
use crate::listing::TagView;
use crate::reader::ReaderView;
use crate::text::member_path;

verus! {

/// An attribute of a node.
pub enum Attribute {
    /// An attribute that reads as this text.
    Text(Seq<char>),
    /// An attribute that does not read as text.
    Unreadable,
}

/// A leaf dataset: its attributes, its first extent, and its elements under
/// each type that they can be read as.
pub struct DatasetContent {
    /// The attributes, by name.
    pub attributes: Map<Seq<char>, Attribute>,
    /// The first extent.
    pub rows: nat,
    /// The elements as text, where they read as text.
    pub strings: Option<Seq<Seq<char>>>,
    /// The elements as signed integers, where they read as such.
    pub integers: Option<Seq<i64>>,
    /// The elements as unsigned category codes, where they read as such.
    pub codes: Option<Seq<u32>>,
}

/// A group: its attributes and, where it can be listed, its member names.
pub struct GroupContent {
    /// The attributes, by name.
    pub attributes: Map<Seq<char>, Attribute>,
    /// The names of the members in the container's order, where the group
    /// can be listed.
    pub members: Option<Seq<Seq<char>>>,
}

/// A node of the container.
pub enum Node {
    Dataset(DatasetContent),
    Group(GroupContent),
}

/// A container: its nodes by their paths.
pub struct Store {
    /// The nodes, by path.
    pub nodes: Map<Seq<char>, Node>,
}

impl Store {
    /// Whether a group is at `path`.
    pub open spec fn is_group(self, path: Seq<char>) -> bool {
        self.nodes.contains_key(path) && self.nodes[path] is Group
    }

    /// Whether a dataset is at `path`.
    pub open spec fn is_dataset(self, path: Seq<char>) -> bool {
        self.nodes.contains_key(path) && self.nodes[path] is Dataset
    }

    /// The attributes of the node of kind `kind` at `node`, if there is such a node.
    pub open spec fn attributes(self, node: Seq<char>, kind: NodeKind) -> Option<
        Map<Seq<char>, Attribute>,
    > {
        if !self.nodes.contains_key(node) {
            None
        } else {
            match (self.nodes[node], kind) {
                (Node::Dataset(d), NodeKind::Dataset) => Some(d.attributes),
                (Node::Group(g), NodeKind::Group) => Some(g.attributes),
                _ => None,
            }
        }
    }

    /// The elements `start..end` of `all`, where there are that many.
    pub open spec fn slice<T>(all: Option<Seq<T>>, start: nat, end: nat) -> Option<Seq<T>> {
        match all {
            Some(items) if start <= end <= items.len() => Some(
                items.subrange(start as int, end as int),
            ),
            _ => None,
        }
    }

    /// The dataset at `path`, if there is one.
    pub open spec fn dataset(self, path: Seq<char>) -> Option<DatasetContent> {
        if self.is_dataset(path) {
            Some(self.nodes[path]->Dataset_0)
        } else {
            None
        }
    }

    /// What the container answers to `request`.
    pub open spec fn answer(self, request: RequestView) -> ReplyView {
        match request {
            RequestView::OpenGroup { path } => if self.is_group(path) {
                ReplyView::Opened
            } else {
                ReplyView::NotFound
            },
            RequestView::OpenDataset { path } => if self.is_dataset(path) {
                ReplyView::Opened
            } else {
                ReplyView::NotFound
            },
            RequestView::ListChildren { group } => if self.is_group(group) {
                match self.nodes[group]->Group_0.members {
                    Some(names) => ReplyView::Names(names),
                    None => ReplyView::Failed,
                }
            } else {
                ReplyView::Failed
            },
            RequestView::ReadAttribute { node, kind, key } => match self.attributes(node, kind) {
                None => ReplyView::Failed,
                Some(attributes) => if !attributes.contains_key(key) {
                    ReplyView::AttributeMissing
                } else {
                    match attributes[key] {
                        Attribute::Text(text) => ReplyView::Text(text),
                        Attribute::Unreadable => ReplyView::AttributeTypeMismatch,
                    }
                },
            },
            RequestView::Shape { dataset } => match self.dataset(dataset) {
                Some(content) => ReplyView::Length(content.rows),
                None => ReplyView::Failed,
            },
            RequestView::ReadStrings { dataset } => match self.dataset(dataset) {
                Some(DatasetContent { strings: Some(items), .. }) => ReplyView::Strings(items),
                _ => ReplyView::Failed,
            },
            RequestView::ReadCodes { dataset } => match self.dataset(dataset) {
                Some(DatasetContent { codes: Some(items), .. }) => ReplyView::Codes(items),
                _ => ReplyView::Failed,
            },
            RequestView::ReadStringSlice { dataset, start, end } => match self.dataset(dataset) {
                Some(content) => match Self::slice(content.strings, start, end) {
                    Some(items) => ReplyView::Strings(items),
                    None => ReplyView::Failed,
                },
                None => ReplyView::Failed,
            },
            RequestView::ReadIntegerSlice { dataset, start, end } => match self.dataset(dataset) {
                Some(content) => match Self::slice(content.integers, start, end) {
                    Some(items) => ReplyView::Integers(items),
                    None => ReplyView::Failed,
                },
                None => ReplyView::Failed,
            },
        }
    }

    /// The kind under which a member is taken: a dataset where one opens, else
    /// a group where one opens.
    pub open spec fn kind_of(self, node: Seq<char>) -> Option<NodeKind> {
        if self.is_dataset(node) {
            Some(NodeKind::Dataset)
        } else if self.is_group(node) {
            Some(NodeKind::Group)
        } else {
            None
        }
    }

    /// The dataset whose length counts as the row count of a member: the
    /// member itself, or the codes of a member that is a group.
    pub open spec fn rows_source(node: Seq<char>, kind: NodeKind) -> Seq<char> {
        match kind {
            NodeKind::Dataset => node,
            NodeKind::Group => member_path(node, "codes"@),
        }
    }

    /// The row count that a member of kind `kind` gives.
    pub open spec fn rows_of(self, node: Seq<char>, kind: NodeKind) -> Result<nat, ErrorView> {
        let source = Self::rows_source(node, kind);
        match self.answer(RequestView::Shape { dataset: source }) {
            ReplyView::Length(rows) => Ok(rows),
            _ => Err(ErrorView::ContainerReadFailure { path: source }),
        }
    }

    /// The encoding tag of a member of kind `kind`.
    pub open spec fn tag_of(self, node: Seq<char>, kind: NodeKind) -> Result<Seq<char>, ErrorView> {
        match self.answer(RequestView::ReadAttribute { node, kind, key: tag_key() }) {
            ReplyView::Text(tag) => Ok(tag),
            ReplyView::AttributeMissing => Err(
                ErrorView::AttributeMissing { node, key: tag_key() },
            ),
            ReplyView::AttributeTypeMismatch => Err(
                ErrorView::AttributeTypeMismatch { node, key: tag_key() },
            ),
            _ => Err(ErrorView::ContainerReadFailure { path: node }),
        }
    }

    /// The column of a member stored under `tag`. A categorical member must be
    /// a group with readable categories and codes, which the column holds in
    /// full. Any other tag makes a column at once, decodable or not.
    pub open spec fn column_of(self, node: Seq<char>, tag: Seq<char>) -> Result<
        ColumnView,
        ErrorView,
    > {
        let categories_at = member_path(node, "categories"@);
        let codes_at = member_path(node, "codes"@);
        if encoding_of(tag) != Encoding::Categorical {
            Ok(plain_column(tag))
        } else if !self.is_group(node) {
            Err(ErrorView::GroupNotFound { path: node })
        } else {
            match self.answer(RequestView::ReadStrings { dataset: categories_at }) {
                ReplyView::Strings(categories) => match self.answer(
                    RequestView::ReadCodes { dataset: codes_at },
                ) {
                    ReplyView::Codes(codes) => Ok(ColumnView::Categorical { categories, codes }),
                    _ => Err(ErrorView::ContainerReadFailure { path: codes_at }),
                },
                _ => Err(ErrorView::ContainerReadFailure { path: categories_at }),
            }
        }
    }

    /// The field that the member `name` of the table at `group` makes. The
    /// first member must also give a row count.
    pub open spec fn field_of(self, group: Seq<char>, name: Seq<char>, first: bool) -> Result<
        FieldView,
        ErrorView,
    > {
        let node = member_path(group, name);
        match self.kind_of(node) {
            None => Err(ErrorView::GroupNotFound { path: node }),
            Some(kind) => match self.rows_of(node, kind) {
                Err(error) if first => Err(error),
                _ => match self.tag_of(node, kind) {
                    Err(error) => Err(error),
                    Ok(tag) => match self.column_of(node, tag) {
                        Err(error) => Err(error),
                        Ok(column) => Ok(FieldView { name, column }),
                    },
                },
            },
        }
    }

    /// The fields of the first `upto` of `names`, in order; or the failure of
    /// the first member that makes no field.
    pub open spec fn fields_of(self, group: Seq<char>, names: Seq<Seq<char>>, upto: nat) -> Result<
        Seq<FieldView>,
        ErrorView,
    >
        decreases upto,
    {
        if upto == 0 {
            Ok(Seq::empty())
        } else {
            match self.fields_of(group, names, (upto - 1) as nat) {
                Err(error) => Err(error),
                Ok(fields) => match self.field_of(group, names[upto - 1], upto == 1) {
                    Err(error) => Err(error),
                    Ok(field) => Ok(fields.push(field)),
                },
            }
        }
    }

    /// The row count of the table at `group` with the members `names`: what
    /// the first member gives, and zero for a table without members.
    pub open spec fn row_count(self, group: Seq<char>, names: Seq<Seq<char>>) -> nat {
        if names.len() == 0 {
            0
        } else {
            let node = member_path(group, names[0]);
            match self.kind_of(node) {
                Some(kind) => match self.rows_of(node, kind) {
                    Ok(rows) => rows,
                    Err(_) => 0,
                },
                None => 0,
            }
        }
    }

    /// The catalogue of the table at `group`: its members in listing order,
    /// each as a field, and the row count of the first.
    pub open spec fn catalogue(self, group: Seq<char>) -> Result<ReaderView, ErrorView> {
        if !self.is_group(group) {
            Err(ErrorView::GroupNotFound { path: group })
        } else {
            match self.answer(RequestView::ListChildren { group }) {
                ReplyView::Names(names) => match self.fields_of(group, names, names.len()) {
                    Err(error) => Err(error),
                    Ok(fields) => Ok(
                        ReaderView { group, fields, total_rows: self.row_count(group, names) },
                    ),
                },
                _ => Err(ErrorView::ContainerReadFailure { path: group }),
            }
        }
    }

    /// The name and encoding tag of the member `name` of the table at `group`.
    pub open spec fn tag_entry(self, group: Seq<char>, name: Seq<char>) -> Result<
        TagView,
        ErrorView,
    > {
        let node = member_path(group, name);
        match self.kind_of(node) {
            None => Err(ErrorView::GroupNotFound { path: node }),
            Some(kind) => match self.tag_of(node, kind) {
                Err(error) => Err(error),
                Ok(tag) => Ok(TagView { name, tag }),
            },
        }
    }

    /// The names and tags of the first `upto` of `names`, in order; or the
    /// failure of the first member whose tag cannot be read.
    pub open spec fn tags_of(self, group: Seq<char>, names: Seq<Seq<char>>, upto: nat) -> Result<
        Seq<TagView>,
        ErrorView,
    >
        decreases upto,
    {
        if upto == 0 {
            Ok(Seq::empty())
        } else {
            match self.tags_of(group, names, (upto - 1) as nat) {
                Err(error) => Err(error),
                Ok(tags) => match self.tag_entry(group, names[upto - 1]) {
                    Err(error) => Err(error),
                    Ok(entry) => Ok(tags.push(entry)),
                },
            }
        }
    }

    /// The fields of the table at `group` with their encoding tags, in
    /// listing order.
    pub open spec fn field_tags(self, group: Seq<char>) -> Result<Seq<TagView>, ErrorView> {
        if !self.is_group(group) {
            Err(ErrorView::GroupNotFound { path: group })
        } else {
            match self.answer(RequestView::ListChildren { group }) {
                ReplyView::Names(names) => self.tags_of(group, names, names.len()),
                _ => Err(ErrorView::ContainerReadFailure { path: group }),
            }
        }
    }

    /// The number of rows of the table at `group`, taken from the column that
    /// the group names as its index.
    pub open spec fn indexed_rows(self, group: Seq<char>) -> Result<nat, ErrorView> {
        if !self.is_group(group) {
            Err(ErrorView::GroupNotFound { path: group })
        } else {
            match self.answer(
                RequestView::ReadAttribute { node: group, kind: NodeKind::Group, key: index_key() },
            ) {
                ReplyView::Text(index) => self.rows_of(
                    member_path(group, index),
                    NodeKind::Dataset,
                ),
                ReplyView::AttributeMissing => Err(
                    ErrorView::AttributeMissing { node: group, key: index_key() },
                ),
                ReplyView::AttributeTypeMismatch => Err(
                    ErrorView::AttributeTypeMismatch { node: group, key: index_key() },
                ),
                _ => Err(ErrorView::ContainerReadFailure { path: group }),
            }
        }
    }

    /// The rows `start..end` of `field`, as text.
    pub open spec fn range(self, reader: ReaderView, field: FieldView, start: nat, end: nat)
        -> Result<Seq<Seq<char>>, ErrorView> {
        match reader.begin_range(field, start, end) {
            Outcome::Done(texts) => Ok(texts),
            Outcome::Failed(error) => Err(error),
            Outcome::Ask(_, request) => reader.finish_range(
                field,
                start,
                end,
                self.answer(request),
            ),
        }
    }

    /// The rows `start..end` of the first `upto` fields, one column each; or
    /// the failure of the first field that cannot be read.
    pub open spec fn columns(self, reader: ReaderView, start: nat, end: nat, upto: nat) -> Result<
        Seq<Seq<Seq<char>>>,
        ErrorView,
    >
        decreases upto,
    {
        if upto == 0 {
            Ok(Seq::empty())
        } else {
            match self.columns(reader, start, end, (upto - 1) as nat) {
                Err(error) => Err(error),
                Ok(columns) => match self.range(reader, reader.fields[upto - 1], start, end) {
                    Err(error) => Err(error),
                    Ok(texts) => Ok(columns.push(texts)),
                },
            }
        }
    }

    /// The chunk of `count` rows from `start`: the rows up to the last one,
    /// for every field, and empty columns from the last row on.
    pub open spec fn chunk(self, reader: ReaderView, start: nat, count: nat) -> Result<
        Seq<Seq<Seq<char>>>,
        ErrorView,
    > {
        if start >= reader.total_rows {
            Ok(reader.empty_columns())
        } else {
            self.columns(reader, start, reader.chunk_end(start, count), reader.fields.len())
        }
    }

    /// Every row of the table, for every field.
    pub open spec fn whole(self, reader: ReaderView) -> Result<Seq<Seq<Seq<char>>>, ErrorView> {
        self.chunk(reader, 0, reader.total_rows)
    }
}

} // verus!
