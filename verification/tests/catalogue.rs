use adview::builder::{Build, Builder};
use adview::container::{NodeKind, Reply, Request};
use adview::error::Error;
use adview::field::{Column, Encoding, Field};
use adview::reader::{ChunkStep, DataReader, RangeStep};
use adview::render::{header_line, show_head, show_less, show_less_header};

/// A node of a container kept in memory.
enum Node {
    Group { tag: Option<String>, members: Vec<String> },
    Strings { tag: Option<String>, items: Vec<String> },
    Integers { tag: Option<String>, items: Vec<i64> },
    Codes { items: Vec<u32> },
    Unreadable { items: usize },
}

struct Container {
    nodes: Vec<(String, Node)>,
    asked: std::cell::RefCell<Vec<Request>>,
}

fn s(text: &str) -> String {
    text.to_string()
}

fn texts(items: &[&str]) -> Vec<String> {
    items.iter().map(|item| item.to_string()).collect()
}

impl Container {
    fn new(nodes: Vec<(String, Node)>) -> Container {
        Container { nodes, asked: std::cell::RefCell::new(Vec::new()) }
    }

    fn node(&self, path: &str) -> Option<&Node> {
        self.nodes.iter().find(|(at, _)| at == path).map(|(_, node)| node)
    }

    fn answer(&self, request: &Request) -> Reply {
        self.asked.borrow_mut().push(request.clone());
        match request {
            Request::OpenGroup { path } => match self.node(path) {
                Some(Node::Group { .. }) => Reply::Opened,
                _ => Reply::NotFound,
            },
            Request::OpenDataset { path } => match self.node(path) {
                Some(Node::Group { .. }) | None => Reply::NotFound,
                Some(_) => Reply::Opened,
            },
            Request::ListChildren { group } => match self.node(group) {
                Some(Node::Group { members, .. }) => Reply::Names(members.clone()),
                _ => Reply::Failed,
            },
            Request::ReadAttribute { node, kind, key } => {
                let tag = match (self.node(node), kind) {
                    (Some(Node::Group { tag, .. }), NodeKind::Group) => tag,
                    (Some(Node::Strings { tag, .. }), NodeKind::Dataset) => tag,
                    (Some(Node::Integers { tag, .. }), NodeKind::Dataset) => tag,
                    (Some(Node::Unreadable { .. }), NodeKind::Dataset) => {
                        return Reply::AttributeTypeMismatch
                    }
                    _ => return Reply::Failed,
                };
                match tag {
                    Some(text) if key == "encoding-type" => Reply::Text(text.clone()),
                    _ => Reply::AttributeMissing,
                }
            }
            Request::Shape { dataset } => match self.node(dataset) {
                Some(Node::Strings { items, .. }) => Reply::Length(items.len()),
                Some(Node::Integers { items, .. }) => Reply::Length(items.len()),
                Some(Node::Codes { items }) => Reply::Length(items.len()),
                Some(Node::Unreadable { items }) => Reply::Length(*items),
                _ => Reply::Failed,
            },
            Request::ReadStrings { dataset } => match self.node(dataset) {
                Some(Node::Strings { items, .. }) => Reply::Strings(items.clone()),
                _ => Reply::Failed,
            },
            Request::ReadCodes { dataset } => match self.node(dataset) {
                Some(Node::Codes { items }) => Reply::Codes(items.clone()),
                _ => Reply::Failed,
            },
            Request::ReadStringSlice { dataset, start, end } => match self.node(dataset) {
                Some(Node::Strings { items, .. }) if start <= end && *end <= items.len() => {
                    Reply::Strings(items[*start..*end].to_vec())
                }
                _ => Reply::Failed,
            },
            Request::ReadIntegerSlice { dataset, start, end } => match self.node(dataset) {
                Some(Node::Integers { items, .. }) if start <= end && *end <= items.len() => {
                    Reply::Integers(items[*start..*end].to_vec())
                }
                _ => Reply::Failed,
            },
        }
    }
}

fn build(container: &Container, group: &str) -> Result<DataReader, Error> {
    let mut step = Builder::new(group);
    loop {
        match step {
            Build::Ask(builder, request) => step = builder.resume(container.answer(&request)),
            Build::Done(reader) => return Ok(reader),
            Build::Failed(error) => return Err(error),
        }
    }
}

fn finish(
    container: &Container,
    reader: &DataReader,
    first: ChunkStep,
) -> Result<Vec<Vec<String>>, Error> {
    let mut step = first;
    loop {
        match step {
            ChunkStep::Ask(state, request) => {
                step = reader.resume_chunk(state, container.answer(&request));
            }
            ChunkStep::Done(columns) => return Ok(columns),
            ChunkStep::Failed(error) => return Err(error),
        }
    }
}

fn chunk(
    container: &Container,
    reader: &DataReader,
    start: usize,
    count: usize,
) -> Result<Vec<Vec<String>>, Error> {
    finish(container, reader, reader.read_chunk(start, count))
}

fn range(
    container: &Container,
    reader: &DataReader,
    field: &Field,
    start: usize,
    end: usize,
) -> Result<Vec<String>, Error> {
    match reader.read_range(field, start, end) {
        RangeStep::Ask(request) => {
            reader.finish_range(field, start, end, container.answer(&request))
        }
        RangeStep::Done(values) => Ok(values),
        RangeStep::Failed(error) => Err(error),
    }
}

/// A table `obs` of five rows: strings, a categorical field, integers and a
/// field under a tag that has no decoder.
fn sample() -> Container {
    Container::new(vec![
        (
            s("obs"),
            Node::Group { tag: Some(s("dataframe")), members: texts(&["barcode", "cluster", "depth"]) },
        ),
        (
            s("obs/barcode"),
            Node::Strings { tag: Some(s("string-array")), items: texts(&["b0", "b1", "b2", "b3", "b4"]) },
        ),
        (s("obs/cluster"), Node::Group { tag: Some(s("categorical")), members: texts(&["categories", "codes"]) }),
        (s("obs/cluster/categories"), Node::Strings { tag: None, items: texts(&["T", "B", "NK"]) }),
        (s("obs/cluster/codes"), Node::Codes { items: vec![2, 0, 1, 0, 2] }),
        (
            s("obs/depth"),
            Node::Integers { tag: Some(s("array")), items: vec![10, -3, 0, 9223372036854775807, -9223372036854775808] },
        ),
    ])
}

fn categorical(name: &str, categories: &[&str], codes: &[u32]) -> Field {
    Field {
        name: s(name),
        column: Column::Categorical { categories: texts(categories), codes: codes.to_vec() },
    }
}

fn reader_of(fields: Vec<Field>, total_rows: usize) -> DataReader {
    DataReader::from_parts(s("obs"), fields, total_rows)
}

#[test]
fn build_lists_fields_in_container_order() {
    let container = sample();
    let reader = build(&container, "obs").unwrap();
    assert_eq!(reader.get_headers(), texts(&["barcode", "cluster", "depth"]));
    assert_eq!(reader.get_headers(), reader.get_headers());
    assert_eq!(reader.total_rows(), 5);
    assert_eq!(reader.group(), "obs");
    assert_eq!(reader.fields()[0].column, Column::StringArray);
    assert_eq!(
        reader.fields()[1].column,
        Column::Categorical { categories: texts(&["T", "B", "NK"]), codes: vec![2, 0, 1, 0, 2] }
    );
    assert_eq!(reader.fields()[2].column, Column::IntArray);
}

#[test]
fn build_asks_the_container_in_order() {
    let container = sample();
    build(&container, "obs").unwrap();
    let tag = |node: &str, kind: NodeKind| Request::ReadAttribute {
        node: s(node),
        kind,
        key: s("encoding-type"),
    };
    let expected = vec![
        Request::OpenGroup { path: s("obs") },
        Request::ListChildren { group: s("obs") },
        Request::OpenDataset { path: s("obs/barcode") },
        Request::Shape { dataset: s("obs/barcode") },
        tag("obs/barcode", NodeKind::Dataset),
        Request::OpenDataset { path: s("obs/cluster") },
        Request::OpenGroup { path: s("obs/cluster") },
        tag("obs/cluster", NodeKind::Group),
        Request::OpenGroup { path: s("obs/cluster") },
        Request::ReadStrings { dataset: s("obs/cluster/categories") },
        Request::ReadCodes { dataset: s("obs/cluster/codes") },
        Request::OpenDataset { path: s("obs/depth") },
        tag("obs/depth", NodeKind::Dataset),
    ];
    assert_eq!(*container.asked.borrow(), expected);
}

#[test]
fn row_count_of_group_backed_first_field_is_codes_length() {
    let container = Container::new(vec![
        (s("var"), Node::Group { tag: None, members: texts(&["kind", "name"]) }),
        (s("var/kind"), Node::Group { tag: Some(s("categorical")), members: texts(&["categories", "codes"]) }),
        (s("var/kind/categories"), Node::Strings { tag: None, items: texts(&["gene"]) }),
        (s("var/kind/codes"), Node::Codes { items: vec![0, 0, 0, 0] }),
        (s("var/name"), Node::Strings { tag: Some(s("string-array")), items: texts(&["a", "b"]) }),
    ]);
    let reader = build(&container, "var").unwrap();
    assert_eq!(reader.total_rows(), 4);
    assert_eq!(reader.get_headers(), texts(&["kind", "name"]));
}

#[test]
fn row_count_ignores_later_fields() {
    let container = Container::new(vec![
        (s("obs"), Node::Group { tag: None, members: texts(&["a", "b"]) }),
        (s("obs/a"), Node::Integers { tag: Some(s("array")), items: vec![1, 2] }),
        (s("obs/b"), Node::Integers { tag: Some(s("array")), items: vec![1, 2, 3, 4] }),
    ]);
    let reader = build(&container, "obs").unwrap();
    assert_eq!(reader.total_rows(), 2);
    assert_eq!(chunk(&container, &reader, 0, 10).unwrap(), vec![texts(&["1", "2"]), texts(&["1", "2"])]);
}

#[test]
fn empty_table_has_no_rows() {
    let container = Container::new(vec![(s("obs"), Node::Group { tag: None, members: vec![] })]);
    let reader = build(&container, "obs").unwrap();
    assert_eq!(reader.total_rows(), 0);
    assert_eq!(reader.get_headers(), Vec::<String>::new());
    assert_eq!(chunk(&container, &reader, 0, 10).unwrap(), Vec::<Vec<String>>::new());
}

#[test]
fn missing_group_is_group_not_found() {
    let container = sample();
    assert_eq!(build(&container, "var"), Err(Error::GroupNotFound { path: s("var") }));
}

#[test]
fn member_that_is_neither_dataset_nor_group_is_group_not_found() {
    let container = Container::new(vec![(s("obs"), Node::Group { tag: None, members: texts(&["ghost"]) })]);
    assert_eq!(build(&container, "obs"), Err(Error::GroupNotFound { path: s("obs/ghost") }));
}

#[test]
fn missing_tag_is_attribute_missing() {
    let container = Container::new(vec![
        (s("obs"), Node::Group { tag: None, members: texts(&["a"]) }),
        (s("obs/a"), Node::Strings { tag: None, items: texts(&["x"]) }),
    ]);
    assert_eq!(
        build(&container, "obs"),
        Err(Error::AttributeMissing { node: s("obs/a"), key: s("encoding-type") })
    );
}

#[test]
fn unreadable_tag_is_attribute_type_mismatch() {
    let container = Container::new(vec![
        (s("obs"), Node::Group { tag: None, members: texts(&["a"]) }),
        (s("obs/a"), Node::Unreadable { items: 3 }),
    ]);
    assert_eq!(
        build(&container, "obs"),
        Err(Error::AttributeTypeMismatch { node: s("obs/a"), key: s("encoding-type") })
    );
}

#[test]
fn unlistable_group_is_read_failure() {
    let mut step = Builder::new("obs");
    if let Build::Ask(builder, _) = step {
        step = builder.resume(Reply::Opened);
    }
    let end = match step {
        Build::Ask(builder, request) => {
            assert_eq!(request, Request::ListChildren { group: s("obs") });
            builder.resume(Reply::Failed)
        }
        _ => panic!("the listing was not asked for"),
    };
    assert!(matches!(end, Build::Failed(Error::ContainerReadFailure { path }) if path == "obs"));
}

#[test]
fn categorical_dataset_without_group_fails() {
    let container = Container::new(vec![
        (s("obs"), Node::Group { tag: None, members: texts(&["a"]) }),
        (s("obs/a"), Node::Strings { tag: Some(s("categorical")), items: texts(&["x"]) }),
    ]);
    assert_eq!(build(&container, "obs"), Err(Error::GroupNotFound { path: s("obs/a") }));
}

#[test]
fn categorical_without_categories_fails() {
    let container = Container::new(vec![
        (s("obs"), Node::Group { tag: None, members: texts(&["a"]) }),
        (s("obs/a"), Node::Group { tag: Some(s("categorical")), members: texts(&["codes"]) }),
        (s("obs/a/codes"), Node::Codes { items: vec![0] }),
    ]);
    assert_eq!(
        build(&container, "obs"),
        Err(Error::ContainerReadFailure { path: s("obs/a/categories") })
    );
}

#[test]
fn categorical_without_codes_fails() {
    let container = Container::new(vec![
        (s("obs"), Node::Group { tag: None, members: texts(&["n", "a"]) }),
        (s("obs/n"), Node::Integers { tag: Some(s("array")), items: vec![7] }),
        (s("obs/a"), Node::Group { tag: Some(s("categorical")), members: texts(&["categories"]) }),
        (s("obs/a/categories"), Node::Strings { tag: None, items: texts(&["x"]) }),
    ]);
    assert_eq!(build(&container, "obs"), Err(Error::ContainerReadFailure { path: s("obs/a/codes") }));
}

#[test]
fn first_group_without_codes_fails_before_its_tag_is_read() {
    let container = Container::new(vec![
        (s("obs"), Node::Group { tag: None, members: texts(&["a"]) }),
        (s("obs/a"), Node::Group { tag: None, members: vec![] }),
    ]);
    assert_eq!(build(&container, "obs"), Err(Error::ContainerReadFailure { path: s("obs/a/codes") }));
}

#[test]
fn categorical_round_trip() {
    let container = Container::new(vec![]);
    let field = categorical("f", &["a", "b", "c"], &[2, 0, 1, 0]);
    let reader = reader_of(vec![field.clone()], 4);
    assert_eq!(range(&container, &reader, &field, 0, 4), Ok(texts(&["c", "a", "b", "a"])));
    assert_eq!(range(&container, &reader, &field, 1, 3), Ok(texts(&["a", "b"])));
    assert_eq!(range(&container, &reader, &field, 2, 2), Ok(vec![]));
    assert!(container.asked.borrow().is_empty());
}

#[test]
fn out_of_range_code() {
    let container = Container::new(vec![]);
    let field = categorical("f", &["x", "y"], &[0, 1, 5, 7]);
    let reader = reader_of(vec![field.clone()], 4);
    assert_eq!(
        range(&container, &reader, &field, 0, 4),
        Err(Error::OutOfRangeCategory { field: s("f"), code: 5 })
    );
    assert_eq!(
        range(&container, &reader, &field, 3, 4),
        Err(Error::OutOfRangeCategory { field: s("f"), code: 7 })
    );
    assert_eq!(range(&container, &reader, &field, 0, 2), Ok(texts(&["x", "y"])));
    assert_eq!(
        chunk(&container, &reader, 0, 4),
        Err(Error::OutOfRangeCategory { field: s("f"), code: 5 })
    );
}

#[test]
fn codes_shorter_than_the_range_fail() {
    let container = Container::new(vec![]);
    let field = categorical("f", &["x", "y"], &[0, 1]);
    let reader = reader_of(vec![field.clone()], 4);
    assert_eq!(
        range(&container, &reader, &field, 0, 4),
        Err(Error::ContainerReadFailure { path: s("obs/f/codes") })
    );
    assert_eq!(
        range(&container, &reader, &field, 2, 1),
        Err(Error::ContainerReadFailure { path: s("obs/f/codes") })
    );
}

#[test]
fn unsupported_encoding() {
    let container = Container::new(vec![
        (s("obs"), Node::Group { tag: None, members: texts(&["n", "odd"]) }),
        (s("obs/n"), Node::Integers { tag: Some(s("array")), items: vec![1, 2, 3] }),
        (s("obs/odd"), Node::Strings { tag: Some(s("mystery-type")), items: texts(&["a", "b", "c"]) }),
    ]);
    let reader = build(&container, "obs").unwrap();
    assert_eq!(reader.fields()[1].column, Column::Unrecognized { tag: s("mystery-type") });
    let failure = Error::UnsupportedEncoding { tag: s("mystery-type"), field: s("odd") };
    assert_eq!(range(&container, &reader, &reader.fields()[1], 0, 3), Err(failure.clone()));
    assert_eq!(range(&container, &reader, &reader.fields()[1], 1, 1), Err(failure.clone()));
    assert_eq!(chunk(&container, &reader, 0, 2), Err(failure.clone()));
    assert_eq!(failure.message(), "Unsupported encoding-type: mystery-type (field odd)");
}

#[test]
fn boundary_chunk() {
    let container = sample();
    let reader = build(&container, "obs").unwrap();
    let asked = container.asked.borrow().len();
    let empty: Vec<Vec<String>> = vec![vec![], vec![], vec![]];
    assert_eq!(chunk(&container, &reader, 5, 10), Ok(empty.clone()));
    assert_eq!(chunk(&container, &reader, 6, 10), Ok(empty.clone()));
    assert_eq!(chunk(&container, &reader, usize::MAX, usize::MAX), Ok(empty));
    assert_eq!(container.asked.borrow().len(), asked);
}

#[test]
fn boundary_chunk_ignores_undecodable_fields() {
    let field = Field { name: s("odd"), column: Column::Unrecognized { tag: s("mystery-type") } };
    let reader = reader_of(vec![field], 3);
    let container = Container::new(vec![]);
    assert_eq!(chunk(&container, &reader, 3, 10), Ok(vec![vec![]]));
}

#[test]
fn chunk_reads_each_field_over_the_same_rows() {
    let container = sample();
    let reader = build(&container, "obs").unwrap();
    assert_eq!(
        chunk(&container, &reader, 1, 3),
        Ok(vec![texts(&["b1", "b2", "b3"]), texts(&["T", "B", "T"]), texts(&["-3", "0", "9223372036854775807"])])
    );
    assert_eq!(
        chunk(&container, &reader, 3, 10),
        Ok(vec![texts(&["b3", "b4"]), texts(&["T", "NK"]), texts(&["9223372036854775807", "-9223372036854775808"])])
    );
    assert_eq!(
        chunk(&container, &reader, 4, usize::MAX),
        Ok(vec![texts(&["b4"]), texts(&["NK"]), texts(&["-9223372036854775808"])])
    );
    assert_eq!(chunk(&container, &reader, 2, 0), Ok(vec![vec![], vec![], vec![]]));
}

#[test]
fn chunk_asks_for_the_clamped_slice() {
    let container = sample();
    let reader = build(&container, "obs").unwrap();
    container.asked.borrow_mut().clear();
    chunk(&container, &reader, 3, 10).unwrap();
    assert_eq!(
        *container.asked.borrow(),
        vec![
            Request::ReadStringSlice { dataset: s("obs/barcode"), start: 3, end: 5 },
            Request::ReadIntegerSlice { dataset: s("obs/depth"), start: 3, end: 5 },
        ]
    );
}

#[test]
fn chunks_cover_the_table() {
    let container = sample();
    let reader = build(&container, "obs").unwrap();
    let whole = finish(&container, &reader, reader.read_all()).unwrap();
    for count in 1..8 {
        let mut stitched: Vec<Vec<String>> = vec![vec![]; reader.fields().len()];
        let mut start = 0;
        while start < reader.total_rows() {
            let part = chunk(&container, &reader, start, count).unwrap();
            for (column, values) in stitched.iter_mut().zip(part) {
                column.extend(values);
            }
            start += count;
        }
        assert_eq!(stitched, whole);
    }
    assert_eq!(whole[0], texts(&["b0", "b1", "b2", "b3", "b4"]));
    assert_eq!(whole[1], texts(&["NK", "T", "B", "T", "NK"]));
}

#[test]
fn repeated_range_reads_agree() {
    let container = sample();
    let reader = build(&container, "obs").unwrap();
    for field in [&reader.fields()[0], &reader.fields()[2]] {
        let once = range(&container, &reader, field, 1, 4);
        let twice = range(&container, &reader, field, 1, 4);
        assert!(once.is_ok());
        assert_eq!(once, twice);
    }
    assert_eq!(range(&container, &reader, &reader.fields()[0], 1, 4), Ok(texts(&["b1", "b2", "b3"])));
    assert_eq!(range(&container, &reader, &reader.fields()[2], 0, 2), Ok(texts(&["10", "-3"])));
}

#[test]
fn short_dataset_is_read_failure() {
    let container = Container::new(vec![
        (s("obs"), Node::Group { tag: None, members: texts(&["a", "b"]) }),
        (s("obs/a"), Node::Integers { tag: Some(s("array")), items: vec![1, 2, 3] }),
        (s("obs/b"), Node::Strings { tag: Some(s("string-array")), items: texts(&["x"]) }),
    ]);
    let reader = build(&container, "obs").unwrap();
    assert_eq!(chunk(&container, &reader, 0, 3), Err(Error::ContainerReadFailure { path: s("obs/b") }));
    assert_eq!(chunk(&container, &reader, 0, 1), Ok(vec![texts(&["1"]), texts(&["x"])]));
}

#[test]
fn reply_of_the_wrong_kind_or_length_is_read_failure() {
    let reader = reader_of(vec![Field { name: s("a"), column: Column::StringArray }], 3);
    let field = &reader.fields()[0];
    let failure = Err(Error::ContainerReadFailure { path: s("obs/a") });
    assert_eq!(reader.finish_range(field, 0, 2, Reply::Integers(vec![1, 2])), failure);
    assert_eq!(reader.finish_range(field, 0, 2, Reply::Strings(texts(&["x"]))), failure);
    assert_eq!(reader.finish_range(field, 0, 2, Reply::Failed), failure);
    assert_eq!(reader.finish_range(field, 2, 0, Reply::Strings(vec![])), failure);
    assert_eq!(reader.finish_range(field, 0, 2, Reply::Strings(texts(&["x", "y"]))), Ok(texts(&["x", "y"])));
}

#[test]
fn tags_map_to_encodings() {
    assert_eq!(Encoding::of_tag("string-array"), Encoding::StringArray);
    assert_eq!(Encoding::of_tag("categorical"), Encoding::Categorical);
    assert_eq!(Encoding::of_tag("array"), Encoding::IntArray);
    assert_eq!(Encoding::of_tag("mystery-type"), Encoding::Unrecognized);
    assert_eq!(Encoding::of_tag(""), Encoding::Unrecognized);
    assert_eq!(Encoding::of_tag("Array"), Encoding::Unrecognized);
    assert_eq!(Column::plain(s("array")), Column::IntArray);
    assert_eq!(Column::plain(s("string-array")), Column::StringArray);
    assert_eq!(Column::plain(s("csr_matrix")), Column::Unrecognized { tag: s("csr_matrix") });
    assert_eq!(Column::plain(s("csr_matrix")).tag(), "csr_matrix");
    assert_eq!(Column::IntArray.tag(), "array");
    assert_eq!(Column::StringArray.encoding(), Encoding::StringArray);
}

#[test]
fn pages_show_every_row() {
    let container = sample();
    let reader = build(&container, "obs").unwrap();
    let whole = finish(&container, &reader, reader.read_all()).unwrap();
    let mut expected = vec![header_line(&reader)];
    expected.extend(show_head(&reader, &whole, reader.total_rows()));
    assert_eq!(
        expected,
        texts(&[
            "barcode\tcluster\tdepth",
            "b0\tNK\t10",
            "b1\tT\t-3",
            "b2\tB\t0",
            "b3\tT\t9223372036854775807",
            "b4\tNK\t-9223372036854775808",
        ])
    );
    for size in 1..8 {
        let mut page = show_less_header(&reader);
        let mut shown = Vec::new();
        let mut reads = 0;
        loop {
            shown.extend(page.lines);
            let Some(start) = page.next else { break };
            let part = chunk(&container, &reader, start, size).unwrap();
            page = show_less(&reader, start, size, &part);
            reads += 1;
        }
        assert_eq!(shown, expected);
        assert_eq!(reads, (reader.total_rows() + size - 1) / size);
    }
}

#[test]
fn work_ends_within_its_bound() {
    let container = sample();
    let reader = build(&container, "obs").unwrap();
    let members = reader.fields().len();
    assert!(container.asked.borrow().len() <= 2 + 7 * members);
    container.asked.borrow_mut().clear();
    chunk(&container, &reader, 0, 5).unwrap();
    assert!(container.asked.borrow().len() <= members);
}
