//! The ways in which cataloguing or reading a table can fail.

use vstd::prelude::*;
use vstd::string::*;
use crate::text::{decimal, integer_to_string};

verus! {

/// A failure of catalogue construction or of a read.
#[derive(Debug, Clone, PartialEq, Eq)]
pub enum Error {
    /// No group could be opened at `path`.
    GroupNotFound { path: String },
    /// The node at `node` has no attribute `key`.
    AttributeMissing { node: String, key: String },
    /// The attribute `key` of the node at `node` is not readable as text.
    AttributeTypeMismatch { node: String, key: String },
    /// The field `field` is stored under the encoding tag `tag`, which has no decoder.
    UnsupportedEncoding { tag: String, field: String },
    /// The categorical field `field` holds `code`, which indexes no category.
    OutOfRangeCategory { field: String, code: u32 },
    /// The container could not serve a read of the node at `path`.
    ContainerReadFailure { path: String },
}

/// What an `Error` says, with its texts as character sequences.
pub enum ErrorView {
    GroupNotFound { path: Seq<char> },
    AttributeMissing { node: Seq<char>, key: Seq<char> },
    AttributeTypeMismatch { node: Seq<char>, key: Seq<char> },
    UnsupportedEncoding { tag: Seq<char>, field: Seq<char> },
    OutOfRangeCategory { field: Seq<char>, code: u32 },
    ContainerReadFailure { path: Seq<char> },
}

impl View for Error {
    type V = ErrorView;

    open spec fn view(&self) -> ErrorView {
        match self {
            Error::GroupNotFound { path } => ErrorView::GroupNotFound { path: path@ },
            Error::AttributeMissing { node, key } => ErrorView::AttributeMissing {
                node: node@,
                key: key@,
            },
            Error::AttributeTypeMismatch { node, key } => ErrorView::AttributeTypeMismatch {
                node: node@,
                key: key@,
            },
            Error::UnsupportedEncoding { tag, field } => ErrorView::UnsupportedEncoding {
                tag: tag@,
                field: field@,
            },
            Error::OutOfRangeCategory { field, code } => ErrorView::OutOfRangeCategory {
                field: field@,
                code: *code,
            },
            Error::ContainerReadFailure { path } => ErrorView::ContainerReadFailure { path: path@ },
        }
    }
}

/// The one-line message of a failure.
pub open spec fn message_text(e: ErrorView) -> Seq<char> {
    match e {
        ErrorView::GroupNotFound { path } => "Group not found: "@ + path,
        ErrorView::AttributeMissing { node, key } => "Missing attribute "@ + key + " on "@ + node,
        ErrorView::AttributeTypeMismatch { node, key } => "Attribute "@ + key + " on "@ + node
            + " is not text"@,
        ErrorView::UnsupportedEncoding { tag, field } => "Unsupported encoding-type: "@ + tag
            + " (field "@ + field + ")"@,
        ErrorView::OutOfRangeCategory { field, code } => "Category code "@ + decimal(code as int)
            + " out of range in field "@ + field,
        ErrorView::ContainerReadFailure { path } => "Failed to read "@ + path,
    }
}

impl Error {
    /// The one-line message of this failure, naming the node, tag or code at fault.
    pub fn message(&self) -> (text: String)
        ensures
            text@ == message_text(self@),
    {
        match self {
            Error::GroupNotFound { path } => {
                String::from_str("Group not found: ").concat(path.as_str())
            },
            Error::AttributeMissing { node, key } => {
                let mut text = String::from_str("Missing attribute ");
                text.append(key.as_str());
                text.append(" on ");
                text.append(node.as_str());
                text
            },
            Error::AttributeTypeMismatch { node, key } => {
                let mut text = String::from_str("Attribute ");
                text.append(key.as_str());
                text.append(" on ");
                text.append(node.as_str());
                text.append(" is not text");
                text
            },
            Error::UnsupportedEncoding { tag, field } => {
                let mut text = String::from_str("Unsupported encoding-type: ");
                text.append(tag.as_str());
                text.append(" (field ");
                text.append(field.as_str());
                text.append(")");
                text
            },
            Error::OutOfRangeCategory { field, code } => {
                let number = integer_to_string(*code as i64);
                let mut text = String::from_str("Category code ");
                text.append(number.as_str());
                text.append(" out of range in field ");
                text.append(field.as_str());
                text
            },
            Error::ContainerReadFailure { path } => {
                String::from_str("Failed to read ").concat(path.as_str())
            },
        }
    }
}

} // verus!
