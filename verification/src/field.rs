//! Fields of a table and the encodings under which their values are stored.

use vstd::prelude::*;
use vstd::string::*;

verus! {

/// The storage scheme of a field, as its encoding tag names it.
#[derive(Debug, Clone, Copy, PartialEq, Eq, Structural)]
pub enum Encoding {
    /// One variable-length string per row.
    StringArray,
    /// A table of categories and one code per row that indexes it.
    Categorical,
    /// One integer per row.
    IntArray,
    /// Any tag that has no decoder.
    Unrecognized,
}

/// The encoding that the tag `tag` stands for.
pub open spec fn encoding_of(tag: Seq<char>) -> Encoding {
    if tag == "string-array"@ {
        Encoding::StringArray
    } else if tag == "categorical"@ {
        Encoding::Categorical
    } else if tag == "array"@ {
        Encoding::IntArray
    } else {
        Encoding::Unrecognized
    }
}

/// Whether two texts hold the same characters.
pub fn same_text(a: &str, b: &str) -> (same: bool)
    ensures
        same == (a@ == b@),
{
    let left = String::from_str(a);
    let right = String::from_str(b);
    left == right
}

impl Encoding {
    /// Maps an encoding tag to the encoding it stands for.
    pub fn of_tag(tag: &str) -> (encoding: Encoding)
        ensures
            encoding == encoding_of(tag@),
    {
        if same_text(tag, "string-array") {
            Encoding::StringArray
        } else if same_text(tag, "categorical") {
            Encoding::Categorical
        } else if same_text(tag, "array") {
            Encoding::IntArray
        } else {
            Encoding::Unrecognized
        }
    }
}

/// How a field is stored, with what a read of it needs besides the container.
#[derive(Debug, Clone, PartialEq, Eq)]
pub enum Column {
    /// Strings, read from the field's dataset on every request.
    StringArray,
    /// Category codes and the table they index, both held in memory.
    Categorical { categories: Vec<String>, codes: Vec<u32> },
    /// Integers, read from the field's dataset on every request.
    IntArray,
    /// A field whose tag has no decoder; the tag is kept for the failure message.
    Unrecognized { tag: String },
}

/// A `Column` with its texts as character sequences.
pub enum ColumnView {
    StringArray,
    Categorical { categories: Seq<Seq<char>>, codes: Seq<u32> },
    IntArray,
    Unrecognized { tag: Seq<char> },
}

impl View for Column {
    type V = ColumnView;

    open spec fn view(&self) -> ColumnView {
        match self {
            Column::StringArray => ColumnView::StringArray,
            Column::Categorical { categories, codes } => ColumnView::Categorical {
                categories: categories.deep_view(),
                codes: codes@,
            },
            Column::IntArray => ColumnView::IntArray,
            Column::Unrecognized { tag } => ColumnView::Unrecognized { tag: tag@ },
        }
    }
}

/// The column of a field stored under `tag`, for a tag that asks for no
/// category table.
pub open spec fn plain_column(tag: Seq<char>) -> ColumnView {
    match encoding_of(tag) {
        Encoding::StringArray => ColumnView::StringArray,
        Encoding::IntArray => ColumnView::IntArray,
        _ => ColumnView::Unrecognized { tag },
    }
}

impl ColumnView {
    /// The encoding of the column.
    pub open spec fn encoding(self) -> Encoding {
        match self {
            ColumnView::StringArray => Encoding::StringArray,
            ColumnView::Categorical { .. } => Encoding::Categorical,
            ColumnView::IntArray => Encoding::IntArray,
            ColumnView::Unrecognized { .. } => Encoding::Unrecognized,
        }
    }

    /// The encoding tag under which the column is stored.
    pub open spec fn tag(self) -> Seq<char> {
        match self {
            ColumnView::StringArray => "string-array"@,
            ColumnView::Categorical { .. } => "categorical"@,
            ColumnView::IntArray => "array"@,
            ColumnView::Unrecognized { tag } => tag,
        }
    }
}

impl Column {
    /// The encoding of the column.
    pub fn encoding(&self) -> (encoding: Encoding)
        ensures
            encoding == self@.encoding(),
    {
        match self {
            Column::StringArray => Encoding::StringArray,
            Column::Categorical { .. } => Encoding::Categorical,
            Column::IntArray => Encoding::IntArray,
            Column::Unrecognized { .. } => Encoding::Unrecognized,
        }
    }

    /// The encoding tag under which the column is stored.
    pub fn tag(&self) -> (tag: String)
        ensures
            tag@ == self@.tag(),
    {
        match self {
            Column::StringArray => String::from_str("string-array"),
            Column::Categorical { .. } => String::from_str("categorical"),
            Column::IntArray => String::from_str("array"),
            Column::Unrecognized { tag } => tag.clone(),
        }
    }

    /// The column of a field stored under `tag`, for a tag that asks for no
    /// category table: a string or integer column, or the tag kept as it is.
    pub fn plain(tag: String) -> (column: Column)
        ensures
            column@ == plain_column(tag@),
    {
        match Encoding::of_tag(tag.as_str()) {
            Encoding::StringArray => Column::StringArray,
            Encoding::IntArray => Column::IntArray,
            _ => Column::Unrecognized { tag },
        }
    }
}

/// A named column of a table.
#[derive(Debug, Clone, PartialEq, Eq)]
pub struct Field {
    /// The field's name, unique within its table.
    pub name: String,
    /// How the field is stored.
    pub column: Column,
}

/// A `Field` with its texts as character sequences.
pub struct FieldView {
    pub name: Seq<char>,
    pub column: ColumnView,
}

impl View for Field {
    type V = FieldView;

    open spec fn view(&self) -> FieldView {
        FieldView { name: self.name@, column: self.column@ }
    }
}

impl DeepView for Field {
    type V = FieldView;

    open spec fn deep_view(&self) -> FieldView {
        self@
    }
}

} // verus!
