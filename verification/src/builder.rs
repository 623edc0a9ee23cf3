//! Building the catalogue of a table, one container operation at a time.

use vstd::prelude::*;
use vstd::string::*;
use crate::container::{NodeKind, Outcome, Reply, ReplyView, Request, RequestView};
use crate::error::{Error, ErrorView};
use crate::field::{plain_column, Column, ColumnView, Encoding, Field, FieldView, encoding_of};
use crate::reader::{DataReader, ReaderView};
use crate::text::{member_path, path_of};

verus! {

/// The container operation whose reply a `Builder` waits for.
#[derive(Debug, Clone, Copy, PartialEq, Eq, Structural)]
pub enum Phase {
    /// Opening the table's group.
    Table,
    /// Listing the table's members.
    Listing,
    /// Opening the current member as a dataset.
    Dataset,
    /// Asking the length of the current member, a dataset.
    DatasetRows,
    /// Reading the encoding tag of the current member, a dataset.
    DatasetTag,
    /// Opening the current member as a group.
    Group,
    /// Asking the length of the codes of the current member, a group.
    GroupRows,
    /// Reading the encoding tag of the current member, a group.
    GroupTag,
    /// Opening the group of the current member, which is categorical.
    CategoricalGroup,
    /// Reading the categories of the current member.
    Categories,
    /// Reading the codes of the current member.
    Codes,
}

/// A catalogue under construction, with its texts as character sequences.
///
/// The current member is the one after the fields that are complete.
pub struct BuilderView {
    /// The path of the table's group.
    pub group: Seq<char>,
    /// The names of the table's members, once they are listed.
    pub names: Seq<Seq<char>>,
    /// The fields that are complete, one for each member before the current.
    pub fields: Seq<FieldView>,
    /// The row count, once the first member has given it.
    pub total_rows: nat,
    /// What the pending request is about.
    pub phase: Phase,
    /// The categories of the current member, while its codes are awaited.
    pub categories: Seq<Seq<char>>,
}

/// The name of the attribute that holds a node's encoding tag.
pub open spec fn tag_key() -> Seq<char> {
    "encoding-type"@
}

/// The request that a builder in `phase` waits on, for the table at `group`
/// and the current member `member`.
pub open spec fn request_at(group: Seq<char>, member: Seq<char>, phase: Phase) -> RequestView {
    let node = member_path(group, member);
    match phase {
        Phase::Table => RequestView::OpenGroup { path: group },
        Phase::Listing => RequestView::ListChildren { group },
        Phase::Dataset => RequestView::OpenDataset { path: node },
        Phase::DatasetRows => RequestView::Shape { dataset: node },
        Phase::DatasetTag => RequestView::ReadAttribute {
            node,
            kind: NodeKind::Dataset,
            key: tag_key(),
        },
        Phase::Group => RequestView::OpenGroup { path: node },
        Phase::GroupRows => RequestView::Shape { dataset: member_path(node, "codes"@) },
        Phase::GroupTag => RequestView::ReadAttribute {
            node,
            kind: NodeKind::Group,
            key: tag_key(),
        },
        Phase::CategoricalGroup => RequestView::OpenGroup { path: node },
        Phase::Categories => RequestView::ReadStrings {
            dataset: member_path(node, "categories"@),
        },
        Phase::Codes => RequestView::ReadCodes { dataset: member_path(node, "codes"@) },
    }
}

impl BuilderView {
    /// The state before anything was asked.
    pub open spec fn start(group: Seq<char>) -> BuilderView {
        BuilderView {
            group,
            names: Seq::empty(),
            fields: Seq::empty(),
            total_rows: 0,
            phase: Phase::Table,
            categories: Seq::empty(),
        }
    }

    /// The name of the current member.
    pub open spec fn member(self) -> Seq<char> {
        self.names[self.fields.len() as int]
    }

    /// The path of the current member.
    pub open spec fn node(self) -> Seq<char> {
        member_path(self.group, self.member())
    }

    /// The path of the dataset `part` inside the current member.
    pub open spec fn part(self, part: Seq<char>) -> Seq<char> {
        member_path(self.node(), part)
    }

    /// Whether the current member is the table's first, which sets the row count.
    pub open spec fn first(self) -> bool {
        self.fields.len() == 0
    }

    /// Whether the state can stand: while a member is being looked at, there is one.
    pub open spec fn wf(self) -> bool {
        match self.phase {
            Phase::Table | Phase::Listing => self.fields.len() == 0,
            _ => self.fields.len() < self.names.len(),
        }
    }

    /// The request that this state waits on.
    pub open spec fn pending(self) -> RequestView {
        request_at(self.group, self.member(), self.phase)
    }

    /// Goes to `phase` and asks what that phase waits on.
    pub open spec fn ask(self, phase: Phase) -> Outcome<BuilderView, ReaderView> {
        let next = BuilderView { phase, ..self };
        Outcome::Ask(next, next.pending())
    }

    /// Turns to the member after the complete fields: probes it as a dataset,
    /// or ends with the catalogue when every member has its field.
    pub open spec fn next_member(self) -> Outcome<BuilderView, ReaderView> {
        if self.fields.len() >= self.names.len() {
            Outcome::Done(
                ReaderView { group: self.group, fields: self.fields, total_rows: self.total_rows },
            )
        } else {
            self.ask(Phase::Dataset)
        }
    }

    /// Completes the current member as a field stored in `column`.
    pub open spec fn with_field(self, column: ColumnView) -> Outcome<BuilderView, ReaderView> {
        BuilderView {
            fields: self.fields.push(FieldView { name: self.member(), column }),
            categories: Seq::empty(),
            ..self
        }.next_member()
    }

    /// Takes the encoding tag of the current member: a categorical member has
    /// its group opened for the category table, any other is complete.
    pub open spec fn with_tag(self, tag: Seq<char>) -> Outcome<BuilderView, ReaderView> {
        if encoding_of(tag) == Encoding::Categorical {
            self.ask(Phase::CategoricalGroup)
        } else {
            self.with_field(plain_column(tag))
        }
    }

    /// Takes the reply to a read of the current member's encoding tag.
    pub open spec fn with_tag_reply(self, reply: ReplyView) -> Outcome<BuilderView, ReaderView> {
        match reply {
            ReplyView::Text(tag) => self.with_tag(tag),
            ReplyView::AttributeMissing => Outcome::Failed(
                ErrorView::AttributeMissing { node: self.node(), key: tag_key() },
            ),
            ReplyView::AttributeTypeMismatch => Outcome::Failed(
                ErrorView::AttributeTypeMismatch { node: self.node(), key: tag_key() },
            ),
            _ => Outcome::Failed(ErrorView::ContainerReadFailure { path: self.node() }),
        }
    }

    /// The move that follows the container's reply to the pending request.
    ///
    /// A member is probed as a dataset first and as a group if that fails. The
    /// first member gives the row count: its own length if it is a dataset,
    /// the length of its codes if it is a group. Then its encoding tag is
    /// read, and for a categorical member its categories and codes. A reply
    /// that does not answer the pending request is a failed read.
    pub open spec fn resume(self, reply: ReplyView) -> Outcome<BuilderView, ReaderView> {
        match self.phase {
            Phase::Table => match reply {
                ReplyView::Opened => self.ask(Phase::Listing),
                ReplyView::NotFound => Outcome::Failed(
                    ErrorView::GroupNotFound { path: self.group },
                ),
                _ => Outcome::Failed(ErrorView::ContainerReadFailure { path: self.group }),
            },
            Phase::Listing => match reply {
                ReplyView::Names(names) => BuilderView { names, ..self }.next_member(),
                _ => Outcome::Failed(ErrorView::ContainerReadFailure { path: self.group }),
            },
            Phase::Dataset => match reply {
                ReplyView::Opened => if self.first() {
                    self.ask(Phase::DatasetRows)
                } else {
                    self.ask(Phase::DatasetTag)
                },
                _ => self.ask(Phase::Group),
            },
            Phase::DatasetRows => match reply {
                ReplyView::Length(rows) => BuilderView { total_rows: rows, ..self }.ask(
                    Phase::DatasetTag,
                ),
                _ => Outcome::Failed(ErrorView::ContainerReadFailure { path: self.node() }),
            },
            Phase::DatasetTag => self.with_tag_reply(reply),
            Phase::Group => match reply {
                ReplyView::Opened => if self.first() {
                    self.ask(Phase::GroupRows)
                } else {
                    self.ask(Phase::GroupTag)
                },
                _ => Outcome::Failed(ErrorView::GroupNotFound { path: self.node() }),
            },
            Phase::GroupRows => match reply {
                ReplyView::Length(rows) => BuilderView { total_rows: rows, ..self }.ask(
                    Phase::GroupTag,
                ),
                _ => Outcome::Failed(
                    ErrorView::ContainerReadFailure { path: self.part("codes"@) },
                ),
            },
            Phase::GroupTag => self.with_tag_reply(reply),
            Phase::CategoricalGroup => match reply {
                ReplyView::Opened => self.ask(Phase::Categories),
                _ => Outcome::Failed(ErrorView::GroupNotFound { path: self.node() }),
            },
            Phase::Categories => match reply {
                ReplyView::Strings(categories) => BuilderView { categories, ..self }.ask(
                    Phase::Codes,
                ),
                _ => Outcome::Failed(
                    ErrorView::ContainerReadFailure { path: self.part("categories"@) },
                ),
            },
            Phase::Codes => match reply {
                ReplyView::Codes(codes) => self.with_field(
                    ColumnView::Categorical { categories: self.categories, codes },
                ),
                _ => Outcome::Failed(
                    ErrorView::ContainerReadFailure { path: self.part("codes"@) },
                ),
            },
        }
    }
}

/// A catalogue under construction that waits for the container.
#[derive(Debug)]
pub struct Builder {
    group: String,
    names: Vec<String>,
    fields: Vec<Field>,
    total_rows: usize,
    phase: Phase,
    categories: Vec<String>,
}

impl View for Builder {
    type V = BuilderView;

    closed spec fn view(&self) -> BuilderView {
        BuilderView {
            group: self.group@,
            names: self.names.deep_view(),
            fields: self.fields.deep_view(),
            total_rows: self.total_rows as nat,
            phase: self.phase,
            categories: self.categories.deep_view(),
        }
    }
}

/// One move of the construction of a catalogue.
#[derive(Debug)]
pub enum Build {
    /// Perform the request and hand the reply to `Builder::resume`.
    Ask(Builder, Request),
    /// The catalogue.
    Done(DataReader),
    /// The construction failed; there is no catalogue.
    Failed(Error),
}

impl View for Build {
    type V = Outcome<BuilderView, ReaderView>;

    open spec fn view(&self) -> Outcome<BuilderView, ReaderView> {
        match self {
            Build::Ask(builder, request) => Outcome::Ask(builder@, request@),
            Build::Done(reader) => Outcome::Done(reader@),
            Build::Failed(error) => Outcome::Failed(error@),
        }
    }
}

impl Builder {
    #[verifier::type_invariant]
    spec fn inv(self) -> bool {
        self@.wf()
    }

    /// Begins the catalogue of the table whose group is at `group_name`.
    pub fn new(group_name: &str) -> (step: Build)
        ensures
            step@ == BuilderView::start(group_name@).ask(Phase::Table),
    {
        let builder = Builder {
            group: String::from_str(group_name),
            names: Vec::new(),
            fields: Vec::new(),
            total_rows: 0,
            phase: Phase::Table,
            categories: Vec::new(),
        };
        proof {
            assert(builder@.names =~= Seq::empty());
            assert(builder@.fields =~= Seq::empty());
            assert(builder@.categories =~= Seq::empty());
            assert(builder@ == BuilderView::start(group_name@));
        }
        Build::Ask(builder, Request::OpenGroup { path: String::from_str(group_name) })
    }

    /// Goes on with the construction: `reply` is the container's answer to
    /// the pending request.
    pub fn resume(self, reply: Reply) -> (step: Build)
        ensures
            step@ == self@.resume(reply@),
    {
        proof {
            use_type_invariant(&self);
        }
        let Builder { group, names, fields, total_rows, phase, categories } = self;
        match phase {
            Phase::Table => match reply {
                Reply::Opened => ask(group, names, fields, total_rows, Phase::Listing, categories),
                Reply::NotFound => Build::Failed(Error::GroupNotFound { path: group }),
                _ => Build::Failed(Error::ContainerReadFailure { path: group }),
            },
            Phase::Listing => match reply {
                Reply::Names(listed) => next_member(group, listed, fields, total_rows, categories),
                _ => Build::Failed(Error::ContainerReadFailure { path: group }),
            },
            Phase::Dataset => match reply {
                Reply::Opened => if fields.len() == 0 {
                    ask(group, names, fields, total_rows, Phase::DatasetRows, categories)
                } else {
                    ask(group, names, fields, total_rows, Phase::DatasetTag, categories)
                },
                _ => ask(group, names, fields, total_rows, Phase::Group, categories),
            },
            Phase::DatasetRows => match reply {
                Reply::Length(rows) => ask(
                    group,
                    names,
                    fields,
                    rows,
                    Phase::DatasetTag,
                    categories,
                ),
                _ => Build::Failed(
                    Error::ContainerReadFailure { path: node_of(&group, &names, fields.len()) },
                ),
            },
            Phase::DatasetTag => with_tag_reply(group, names, fields, total_rows, categories, reply),
            Phase::Group => match reply {
                Reply::Opened => if fields.len() == 0 {
                    ask(group, names, fields, total_rows, Phase::GroupRows, categories)
                } else {
                    ask(group, names, fields, total_rows, Phase::GroupTag, categories)
                },
                _ => Build::Failed(
                    Error::GroupNotFound { path: node_of(&group, &names, fields.len()) },
                ),
            },
            Phase::GroupRows => match reply {
                Reply::Length(rows) => ask(group, names, fields, rows, Phase::GroupTag, categories),
                _ => Build::Failed(
                    Error::ContainerReadFailure {
                        path: part_of(&group, &names, fields.len(), "codes"),
                    },
                ),
            },
            Phase::GroupTag => with_tag_reply(group, names, fields, total_rows, categories, reply),
            Phase::CategoricalGroup => match reply {
                Reply::Opened => ask(
                    group,
                    names,
                    fields,
                    total_rows,
                    Phase::Categories,
                    categories,
                ),
                _ => Build::Failed(
                    Error::GroupNotFound { path: node_of(&group, &names, fields.len()) },
                ),
            },
            Phase::Categories => match reply {
                Reply::Strings(table) => ask(group, names, fields, total_rows, Phase::Codes, table),
                _ => Build::Failed(
                    Error::ContainerReadFailure {
                        path: part_of(&group, &names, fields.len(), "categories"),
                    },
                ),
            },
            Phase::Codes => match reply {
                Reply::Codes(codes) => with_field(
                    group,
                    names,
                    fields,
                    total_rows,
                    Column::Categorical { categories, codes },
                ),
                _ => Build::Failed(
                    Error::ContainerReadFailure {
                        path: part_of(&group, &names, fields.len(), "codes"),
                    },
                ),
            },
        }
    }
}

/// The state that a builder's parts make up.
spec fn state_of(
    group: String,
    names: Vec<String>,
    fields: Vec<Field>,
    total_rows: usize,
    phase: Phase,
    categories: Seq<Seq<char>>,
) -> BuilderView {
    BuilderView {
        group: group@,
        names: names.deep_view(),
        fields: fields.deep_view(),
        total_rows: total_rows as nat,
        phase,
        categories,
    }
}

pub(crate) fn node_of(group: &String, names: &Vec<String>, index: usize) -> (path: String)
    requires
        index < names.len(),
    ensures
        path@ == member_path(group@, names.deep_view()[index as int]),
{
    path_of(group.as_str(), names[index].as_str())
}

fn part_of(group: &String, names: &Vec<String>, index: usize, part: &str) -> (path: String)
    requires
        index < names.len(),
    ensures
        path@ == member_path(member_path(group@, names.deep_view()[index as int]), part@),
{
    let node = node_of(group, names, index);
    path_of(node.as_str(), part)
}

fn pending_of(group: &String, names: &Vec<String>, index: usize, phase: Phase) -> (request: Request)
    requires
        phase != Phase::Table && phase != Phase::Listing ==> index < names.len(),
    ensures
        request@ == request_at(group@, names.deep_view()[index as int], phase),
{
    match phase {
        Phase::Table => Request::OpenGroup { path: group.clone() },
        Phase::Listing => Request::ListChildren { group: group.clone() },
        Phase::Dataset => Request::OpenDataset { path: node_of(group, names, index) },
        Phase::DatasetRows => Request::Shape { dataset: node_of(group, names, index) },
        Phase::DatasetTag => Request::ReadAttribute {
            node: node_of(group, names, index),
            kind: NodeKind::Dataset,
            key: String::from_str("encoding-type"),
        },
        Phase::Group => Request::OpenGroup { path: node_of(group, names, index) },
        Phase::GroupRows => Request::Shape { dataset: part_of(group, names, index, "codes") },
        Phase::GroupTag => Request::ReadAttribute {
            node: node_of(group, names, index),
            kind: NodeKind::Group,
            key: String::from_str("encoding-type"),
        },
        Phase::CategoricalGroup => Request::OpenGroup { path: node_of(group, names, index) },
        Phase::Categories => Request::ReadStrings {
            dataset: part_of(group, names, index, "categories"),
        },
        Phase::Codes => Request::ReadCodes { dataset: part_of(group, names, index, "codes") },
    }
}

fn ask(
    group: String,
    names: Vec<String>,
    fields: Vec<Field>,
    total_rows: usize,
    phase: Phase,
    categories: Vec<String>,
) -> (step: Build)
    requires
        state_of(group, names, fields, total_rows, phase, categories.deep_view()).wf(),
    ensures
        step@ == state_of(
            group,
            names,
            fields,
            total_rows,
            Phase::Table,
            categories.deep_view(),
        ).ask(phase),
{
    let request = pending_of(&group, &names, fields.len(), phase);
    Build::Ask(Builder { group, names, fields, total_rows, phase, categories }, request)
}

fn next_member(
    group: String,
    names: Vec<String>,
    fields: Vec<Field>,
    total_rows: usize,
    categories: Vec<String>,
) -> (step: Build)
    requires
        fields.len() <= names.len(),
    ensures
        step@ == state_of(
            group,
            names,
            fields,
            total_rows,
            Phase::Table,
            categories.deep_view(),
        ).next_member(),
{
    if fields.len() >= names.len() {
        Build::Done(DataReader::from_parts(group, fields, total_rows))
    } else {
        ask(group, names, fields, total_rows, Phase::Dataset, categories)
    }
}

fn with_field(
    group: String,
    names: Vec<String>,
    fields: Vec<Field>,
    total_rows: usize,
    column: Column,
) -> (step: Build)
    requires
        fields.len() < names.len(),
    ensures
        step@ == state_of(
            group,
            names,
            fields,
            total_rows,
            Phase::Table,
            Seq::empty(),
        ).with_field(column@),
{
    let mut fields = fields;
    let ghost before = fields.deep_view();
    let field = Field { name: names[fields.len()].clone(), column };
    fields.push(field);
    let categories: Vec<String> = Vec::new();
    proof {
        assert(fields.deep_view() =~= before.push(field@));
        assert(categories.deep_view() =~= Seq::empty());
    }
    next_member(group, names, fields, total_rows, categories)
}

fn with_tag_reply(
    group: String,
    names: Vec<String>,
    fields: Vec<Field>,
    total_rows: usize,
    categories: Vec<String>,
    reply: Reply,
) -> (step: Build)
    requires
        fields.len() < names.len(),
    ensures
        step@ == state_of(
            group,
            names,
            fields,
            total_rows,
            Phase::Table,
            categories.deep_view(),
        ).with_tag_reply(reply@),
{
    match reply {
        Reply::Text(tag) => {
            match Encoding::of_tag(tag.as_str()) {
                Encoding::Categorical => ask(
                    group,
                    names,
                    fields,
                    total_rows,
                    Phase::CategoricalGroup,
                    categories,
                ),
                _ => with_field(group, names, fields, total_rows, Column::plain(tag)),
            }
        },
        Reply::AttributeMissing => Build::Failed(
            Error::AttributeMissing {
                node: node_of(&group, &names, fields.len()),
                key: String::from_str("encoding-type"),
            },
        ),
        Reply::AttributeTypeMismatch => Build::Failed(
            Error::AttributeTypeMismatch {
                node: node_of(&group, &names, fields.len()),
                key: String::from_str("encoding-type"),
            },
        ),
        _ => Build::Failed(
            Error::ContainerReadFailure { path: node_of(&group, &names, fields.len()) },
        ),
    }
}

} // verus!
