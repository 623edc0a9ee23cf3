//! Listing the fields of a table with their encoding tags, without reading
//! any of their values.

use vstd::prelude::*;
use vstd::string::*;
use crate::builder::{node_of, request_at, tag_key, Phase};
use crate::container::{NodeKind, Outcome, Reply, ReplyView, Request, RequestView};
use crate::error::{Error, ErrorView};
use crate::text::member_path;

verus! {

/// A field's name and the encoding tag stored with it.
#[derive(Debug, Clone, PartialEq, Eq)]
pub struct FieldTag {
    /// The field's name.
    pub name: String,
    /// The encoding tag on the field's node, as it is stored.
    pub tag: String,
}

/// A `FieldTag` with its texts as character sequences.
pub struct TagView {
    pub name: Seq<char>,
    pub tag: Seq<char>,
}

impl View for FieldTag {
    type V = TagView;

    open spec fn view(&self) -> TagView {
        TagView { name: self.name@, tag: self.tag@ }
    }
}

impl DeepView for FieldTag {
    type V = TagView;

    open spec fn deep_view(&self) -> TagView {
        self@
    }
}

/// The container operation whose reply a `Lister` waits for.
#[derive(Debug, Clone, Copy, PartialEq, Eq, Structural)]
pub enum ListPhase {
    /// Opening the table's group.
    Table,
    /// Listing the table's members.
    Listing,
    /// Opening the current member as a dataset.
    Dataset,
    /// Reading the encoding tag of the current member, a dataset.
    DatasetTag,
    /// Opening the current member as a group.
    Group,
    /// Reading the encoding tag of the current member, a group.
    GroupTag,
}

impl ListPhase {
    /// The phase of a catalogue builder that waits on the same request.
    pub open spec fn of_builder(self) -> Phase {
        match self {
            ListPhase::Table => Phase::Table,
            ListPhase::Listing => Phase::Listing,
            ListPhase::Dataset => Phase::Dataset,
            ListPhase::DatasetTag => Phase::DatasetTag,
            ListPhase::Group => Phase::Group,
            ListPhase::GroupTag => Phase::GroupTag,
        }
    }
}

/// A listing under way, with its texts as character sequences.
///
/// The current member is the one after those whose tags are known.
pub struct ListerView {
    /// The path of the table's group.
    pub group: Seq<char>,
    /// The names of the table's members, once they are listed.
    pub names: Seq<Seq<char>>,
    /// The names and tags of the members before the current.
    pub tags: Seq<TagView>,
    /// What the pending request is about.
    pub phase: ListPhase,
}

impl ListerView {
    /// The state before anything was asked.
    pub open spec fn start(group: Seq<char>) -> ListerView {
        ListerView { group, names: Seq::empty(), tags: Seq::empty(), phase: ListPhase::Table }
    }

    /// The name of the current member.
    pub open spec fn member(self) -> Seq<char> {
        self.names[self.tags.len() as int]
    }

    /// The path of the current member.
    pub open spec fn node(self) -> Seq<char> {
        member_path(self.group, self.member())
    }

    /// Whether the state can stand: while a member is being looked at, there is one.
    pub open spec fn wf(self) -> bool {
        match self.phase {
            ListPhase::Table | ListPhase::Listing => self.tags.len() == 0,
            _ => self.tags.len() < self.names.len(),
        }
    }

    /// The request that this state waits on.
    pub open spec fn pending(self) -> RequestView {
        request_at(self.group, self.member(), self.phase.of_builder())
    }

    /// Goes to `phase` and asks what that phase waits on.
    pub open spec fn ask(self, phase: ListPhase) -> Outcome<ListerView, Seq<TagView>> {
        let next = ListerView { phase, ..self };
        Outcome::Ask(next, next.pending())
    }

    /// Turns to the member after those whose tags are known: probes it as a
    /// dataset, or ends with the tags when every member has its own.
    pub open spec fn next_member(self) -> Outcome<ListerView, Seq<TagView>> {
        if self.tags.len() >= self.names.len() {
            Outcome::Done(self.tags)
        } else {
            self.ask(ListPhase::Dataset)
        }
    }

    /// Takes the reply to a read of the current member's encoding tag.
    pub open spec fn with_tag_reply(self, reply: ReplyView) -> Outcome<ListerView, Seq<TagView>> {
        match reply {
            ReplyView::Text(tag) => ListerView {
                tags: self.tags.push(TagView { name: self.member(), tag }),
                ..self
            }.next_member(),
            ReplyView::AttributeMissing => Outcome::Failed(
                ErrorView::AttributeMissing { node: self.node(), key: tag_key() },
            ),
            ReplyView::AttributeTypeMismatch => Outcome::Failed(
                ErrorView::AttributeTypeMismatch { node: self.node(), key: tag_key() },
            ),
            _ => Outcome::Failed(ErrorView::ContainerReadFailure { path: self.node() }),
        }
    }

    /// The move that follows the container's reply to the pending request.
    ///
    /// A member is probed as a dataset first and as a group if that fails;
    /// then its encoding tag is read, whatever the tag is.
    pub open spec fn resume(self, reply: ReplyView) -> Outcome<ListerView, Seq<TagView>> {
        match self.phase {
            ListPhase::Table => match reply {
                ReplyView::Opened => self.ask(ListPhase::Listing),
                ReplyView::NotFound => Outcome::Failed(
                    ErrorView::GroupNotFound { path: self.group },
                ),
                _ => Outcome::Failed(ErrorView::ContainerReadFailure { path: self.group }),
            },
            ListPhase::Listing => match reply {
                ReplyView::Names(names) => ListerView { names, ..self }.next_member(),
                _ => Outcome::Failed(ErrorView::ContainerReadFailure { path: self.group }),
            },
            ListPhase::Dataset => match reply {
                ReplyView::Opened => self.ask(ListPhase::DatasetTag),
                _ => self.ask(ListPhase::Group),
            },
            ListPhase::Group => match reply {
                ReplyView::Opened => self.ask(ListPhase::GroupTag),
                _ => Outcome::Failed(ErrorView::GroupNotFound { path: self.node() }),
            },
            ListPhase::DatasetTag | ListPhase::GroupTag => self.with_tag_reply(reply),
        }
    }
}

/// A listing under way that waits for the container.
#[derive(Debug)]
pub struct Lister {
    group: String,
    names: Vec<String>,
    tags: Vec<FieldTag>,
    phase: ListPhase,
}

impl View for Lister {
    type V = ListerView;

    closed spec fn view(&self) -> ListerView {
        ListerView {
            group: self.group@,
            names: self.names.deep_view(),
            tags: self.tags.deep_view(),
            phase: self.phase,
        }
    }
}

/// One move of a listing.
#[derive(Debug)]
pub enum Listing {
    /// Perform the request and hand the reply to `Lister::resume`.
    Ask(Lister, Request),
    /// The fields with their tags, in the container's order.
    Done(Vec<FieldTag>),
    /// The listing failed.
    Failed(Error),
}

impl View for Listing {
    type V = Outcome<ListerView, Seq<TagView>>;

    open spec fn view(&self) -> Outcome<ListerView, Seq<TagView>> {
        match self {
            Listing::Ask(lister, request) => Outcome::Ask(lister@, request@),
            Listing::Done(tags) => Outcome::Done(tags.deep_view()),
            Listing::Failed(error) => Outcome::Failed(error@),
        }
    }
}

spec fn state_of(group: String, names: Vec<String>, tags: Vec<FieldTag>, phase: ListPhase)
    -> ListerView {
    ListerView { group: group@, names: names.deep_view(), tags: tags.deep_view(), phase }
}

fn ask(group: String, names: Vec<String>, tags: Vec<FieldTag>, phase: ListPhase) -> (step: Listing)
    requires
        state_of(group, names, tags, phase).wf(),
    ensures
        step@ == state_of(group, names, tags, ListPhase::Table).ask(phase),
{
    let request = match phase {
        ListPhase::Table => Request::OpenGroup { path: group.clone() },
        ListPhase::Listing => Request::ListChildren { group: group.clone() },
        ListPhase::Dataset => Request::OpenDataset { path: node_of(&group, &names, tags.len()) },
        ListPhase::DatasetTag => Request::ReadAttribute {
            node: node_of(&group, &names, tags.len()),
            kind: NodeKind::Dataset,
            key: String::from_str("encoding-type"),
        },
        ListPhase::Group => Request::OpenGroup { path: node_of(&group, &names, tags.len()) },
        ListPhase::GroupTag => Request::ReadAttribute {
            node: node_of(&group, &names, tags.len()),
            kind: NodeKind::Group,
            key: String::from_str("encoding-type"),
        },
    };
    Listing::Ask(Lister { group, names, tags, phase }, request)
}

fn next_member(group: String, names: Vec<String>, tags: Vec<FieldTag>) -> (step: Listing)
    requires
        tags.len() <= names.len(),
    ensures
        step@ == state_of(group, names, tags, ListPhase::Table).next_member(),
{
    if tags.len() >= names.len() {
        Listing::Done(tags)
    } else {
        ask(group, names, tags, ListPhase::Dataset)
    }
}

fn with_tag_reply(group: String, names: Vec<String>, tags: Vec<FieldTag>, reply: Reply) -> (step:
    Listing)
    requires
        tags.len() < names.len(),
    ensures
        step@ == state_of(group, names, tags, ListPhase::Table).with_tag_reply(reply@),
{
    match reply {
        Reply::Text(tag) => {
            let mut tags = tags;
            let ghost before = tags.deep_view();
            let entry = FieldTag { name: names[tags.len()].clone(), tag };
            tags.push(entry);
            proof {
                assert(tags.deep_view() =~= before.push(entry@));
            }
            next_member(group, names, tags)
        },
        Reply::AttributeMissing => Listing::Failed(
            Error::AttributeMissing {
                node: node_of(&group, &names, tags.len()),
                key: String::from_str("encoding-type"),
            },
        ),
        Reply::AttributeTypeMismatch => Listing::Failed(
            Error::AttributeTypeMismatch {
                node: node_of(&group, &names, tags.len()),
                key: String::from_str("encoding-type"),
            },
        ),
        _ => Listing::Failed(
            Error::ContainerReadFailure { path: node_of(&group, &names, tags.len()) },
        ),
    }
}

impl Lister {
    #[verifier::type_invariant]
    spec fn inv(self) -> bool {
        self@.wf()
    }

    /// Begins the listing of the table whose group is at `group_name`.
    pub fn new(group_name: &str) -> (step: Listing)
        ensures
            step@ == ListerView::start(group_name@).ask(ListPhase::Table),
    {
        let names: Vec<String> = Vec::new();
        let tags: Vec<FieldTag> = Vec::new();
        proof {
            assert(names.deep_view() =~= Seq::empty());
            assert(tags.deep_view() =~= Seq::empty());
        }
        ask(String::from_str(group_name), names, tags, ListPhase::Table)
    }

    /// Goes on with the listing: `reply` is the container's answer to the
    /// pending request.
    pub fn resume(self, reply: Reply) -> (step: Listing)
        ensures
            step@ == self@.resume(reply@),
    {
        proof {
            use_type_invariant(&self);
        }
        let Lister { group, names, tags, phase } = self;
        match phase {
            ListPhase::Table => match reply {
                Reply::Opened => ask(group, names, tags, ListPhase::Listing),
                Reply::NotFound => Listing::Failed(Error::GroupNotFound { path: group }),
                _ => Listing::Failed(Error::ContainerReadFailure { path: group }),
            },
            ListPhase::Listing => match reply {
                Reply::Names(listed) => next_member(group, listed, tags),
                _ => Listing::Failed(Error::ContainerReadFailure { path: group }),
            },
            ListPhase::Dataset => match reply {
                Reply::Opened => ask(group, names, tags, ListPhase::DatasetTag),
                _ => ask(group, names, tags, ListPhase::Group),
            },
            ListPhase::Group => match reply {
                Reply::Opened => ask(group, names, tags, ListPhase::GroupTag),
                _ => Listing::Failed(
                    Error::GroupNotFound { path: node_of(&group, &names, tags.len()) },
                ),
            },
            ListPhase::DatasetTag => with_tag_reply(group, names, tags, reply),
            ListPhase::GroupTag => with_tag_reply(group, names, tags, reply),
        }
    }
}

} // verus!
