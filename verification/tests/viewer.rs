use adview::container::{NodeKind, Reply, Request};
use adview::error::Error;
use adview::extent::{Counting, RowCounter};
use adview::field::{Column, Field};
use adview::listing::{FieldTag, Lister, Listing};
use adview::reader::DataReader;
use adview::render::{
    header_line, show_fields, show_head, show_less, show_less_header, show_shapes, Page,
    CHUNK_SIZE,
};

fn s(text: &str) -> String {
    text.to_string()
}

fn texts(items: &[&str]) -> Vec<String> {
    items.iter().map(|item| item.to_string()).collect()
}

fn tagged(name: &str, tag: &str) -> FieldTag {
    FieldTag { name: s(name), tag: s(tag) }
}

fn reader(names: &[&str], total_rows: usize) -> DataReader {
    let fields =
        names.iter().map(|name| Field { name: s(name), column: Column::StringArray }).collect();
    DataReader::from_parts(s("obs"), fields, total_rows)
}

/// Runs a listing against scripted replies and returns what it asked and how
/// it ended.
fn list(replies: Vec<Reply>) -> (Vec<Request>, Result<Vec<FieldTag>, Error>) {
    let mut asked = Vec::new();
    let mut replies = replies.into_iter();
    let mut step = Lister::new("var");
    loop {
        match step {
            Listing::Ask(lister, request) => {
                asked.push(request);
                step = lister.resume(replies.next().expect("a reply for every request"));
            }
            Listing::Done(tags) => return (asked, Ok(tags)),
            Listing::Failed(error) => return (asked, Err(error)),
        }
    }
}

fn count(replies: Vec<Reply>) -> (Vec<Request>, Result<usize, Error>) {
    let mut asked = Vec::new();
    let mut replies = replies.into_iter();
    let mut step = RowCounter::new("obs");
    loop {
        match step {
            Counting::Ask(counter, request) => {
                asked.push(request);
                step = counter.resume(replies.next().expect("a reply for every request"));
            }
            Counting::Done(rows) => return (asked, Ok(rows)),
            Counting::Failed(error) => return (asked, Err(error)),
        }
    }
}

fn tag_of(node: &str, kind: NodeKind) -> Request {
    Request::ReadAttribute { node: s(node), kind, key: s("encoding-type") }
}

#[test]
fn listing_reads_each_tag_in_order() {
    let (asked, tags) = list(vec![
        Reply::Opened,
        Reply::Names(texts(&["gene", "kind"])),
        Reply::Opened,
        Reply::Text(s("string-array")),
        Reply::NotFound,
        Reply::Opened,
        Reply::Text(s("categorical")),
    ]);
    assert_eq!(tags, Ok(vec![tagged("gene", "string-array"), tagged("kind", "categorical")]));
    assert_eq!(
        asked,
        vec![
            Request::OpenGroup { path: s("var") },
            Request::ListChildren { group: s("var") },
            Request::OpenDataset { path: s("var/gene") },
            tag_of("var/gene", NodeKind::Dataset),
            Request::OpenDataset { path: s("var/kind") },
            Request::OpenGroup { path: s("var/kind") },
            tag_of("var/kind", NodeKind::Group),
        ]
    );
}

#[test]
fn listing_keeps_tags_without_decoder() {
    let (_, tags) = list(vec![
        Reply::Opened,
        Reply::Names(texts(&["X"])),
        Reply::Opened,
        Reply::Text(s("mystery-type")),
    ]);
    assert_eq!(tags, Ok(vec![tagged("X", "mystery-type")]));
}

#[test]
fn listing_of_empty_table_is_empty() {
    let (asked, tags) = list(vec![Reply::Opened, Reply::Names(vec![])]);
    assert_eq!(tags, Ok(vec![]));
    assert_eq!(asked.len(), 2);
}

#[test]
fn listing_failures() {
    let (_, tags) = list(vec![Reply::NotFound]);
    assert_eq!(tags, Err(Error::GroupNotFound { path: s("var") }));
    let (_, tags) = list(vec![Reply::Failed]);
    assert_eq!(tags, Err(Error::ContainerReadFailure { path: s("var") }));
    let (_, tags) = list(vec![Reply::Opened, Reply::Failed]);
    assert_eq!(tags, Err(Error::ContainerReadFailure { path: s("var") }));
    let names = || Reply::Names(texts(&["a"]));
    let (_, tags) = list(vec![Reply::Opened, names(), Reply::NotFound, Reply::NotFound]);
    assert_eq!(tags, Err(Error::GroupNotFound { path: s("var/a") }));
    let (_, tags) = list(vec![Reply::Opened, names(), Reply::Opened, Reply::AttributeMissing]);
    assert_eq!(tags, Err(Error::AttributeMissing { node: s("var/a"), key: s("encoding-type") }));
    let (_, tags) =
        list(vec![Reply::Opened, names(), Reply::Failed, Reply::Opened, Reply::AttributeTypeMismatch]);
    assert_eq!(
        tags,
        Err(Error::AttributeTypeMismatch { node: s("var/a"), key: s("encoding-type") })
    );
    let (_, tags) = list(vec![Reply::Opened, names(), Reply::Opened, Reply::Length(3)]);
    assert_eq!(tags, Err(Error::ContainerReadFailure { path: s("var/a") }));
}

#[test]
fn count_follows_the_index_column() {
    let (asked, rows) = count(vec![Reply::Opened, Reply::Text(s("cell_id")), Reply::Length(2638)]);
    assert_eq!(rows, Ok(2638));
    assert_eq!(
        asked,
        vec![
            Request::OpenGroup { path: s("obs") },
            Request::ReadAttribute { node: s("obs"), kind: NodeKind::Group, key: s("_index") },
            Request::Shape { dataset: s("obs/cell_id") },
        ]
    );
}

#[test]
fn count_failures() {
    assert_eq!(count(vec![Reply::NotFound]).1, Err(Error::GroupNotFound { path: s("obs") }));
    assert_eq!(count(vec![Reply::Failed]).1, Err(Error::ContainerReadFailure { path: s("obs") }));
    assert_eq!(
        count(vec![Reply::Opened, Reply::AttributeMissing]).1,
        Err(Error::AttributeMissing { node: s("obs"), key: s("_index") })
    );
    assert_eq!(
        count(vec![Reply::Opened, Reply::AttributeTypeMismatch]).1,
        Err(Error::AttributeTypeMismatch { node: s("obs"), key: s("_index") })
    );
    assert_eq!(
        count(vec![Reply::Opened, Reply::Failed]).1,
        Err(Error::ContainerReadFailure { path: s("obs") })
    );
    assert_eq!(
        count(vec![Reply::Opened, Reply::Text(s("i")), Reply::Failed]).1,
        Err(Error::ContainerReadFailure { path: s("obs/i") })
    );
}

#[test]
fn shapes_are_written_one_to_a_line() {
    assert_eq!(show_shapes(2638, 1838), texts(&["obs shape: 2638", "var shape: 1838"]));
    assert_eq!(show_shapes(0, 7), texts(&["obs shape: 0", "var shape: 7"]));
}

#[test]
fn fields_are_listed_under_their_titles() {
    let obs = vec![tagged("cell", "string-array"), tagged("cluster", "categorical")];
    let var = vec![tagged("count", "array")];
    assert_eq!(
        show_fields(&obs, &var),
        texts(&[
            "obs fields:",
            "\tcell (string-array)",
            "\tcluster (categorical)",
            "",
            "var fields:",
            "\tcount (array)",
        ])
    );
    assert_eq!(show_fields(&vec![], &vec![]), texts(&["obs fields:", "", "var fields:"]));
}

#[test]
fn header_is_tab_separated() {
    assert_eq!(header_line(&reader(&["cell", "cluster", "depth"], 2)), "cell\tcluster\tdepth");
    assert_eq!(header_line(&reader(&["cell"], 2)), "cell");
    assert_eq!(header_line(&reader(&[], 0)), "");
}

#[test]
fn head_shows_the_first_rows() {
    let catalogue = reader(&["cell", "cluster"], 3);
    let chunk = vec![texts(&["c0", "c1", "c2"]), texts(&["T", "B", "T"])];
    assert_eq!(show_head(&catalogue, &chunk, 2), texts(&["c0\tT", "c1\tB"]));
    assert_eq!(show_head(&catalogue, &chunk, 3), texts(&["c0\tT", "c1\tB", "c2\tT"]));
    assert_eq!(show_head(&catalogue, &chunk, 10), texts(&["c0\tT", "c1\tB", "c2\tT"]));
    assert_eq!(show_head(&catalogue, &chunk, 0), Vec::<String>::new());
}

#[test]
fn head_of_table_without_fields_is_empty_lines() {
    let catalogue = reader(&[], 0);
    assert_eq!(show_head(&catalogue, &vec![], 5), Vec::<String>::new());
}

#[test]
fn less_opens_with_the_header() {
    assert_eq!(
        show_less_header(&reader(&["cell", "cluster"], 3)),
        Page { lines: texts(&["cell\tcluster"]), next: Some(0) }
    );
    assert_eq!(
        show_less_header(&reader(&["cell"], 0)),
        Page { lines: texts(&["cell"]), next: None }
    );
}

#[test]
fn less_pages_through_the_table() {
    let catalogue = reader(&["cell", "cluster"], 2500);
    let chunk = vec![texts(&["c0", "c1"]), texts(&["T", "B"])];
    assert_eq!(
        show_less(&catalogue, 0, CHUNK_SIZE, &chunk),
        Page { lines: texts(&["c0\tT", "c1\tB"]), next: Some(1000) }
    );
    assert_eq!(show_less(&catalogue, 1000, CHUNK_SIZE, &chunk).next, Some(2000));
    assert_eq!(show_less(&catalogue, 2000, CHUNK_SIZE, &chunk).next, None);
    assert_eq!(show_less(&catalogue, 1499, CHUNK_SIZE, &chunk).next, Some(2499));
    assert_eq!(show_less(&catalogue, 1500, CHUNK_SIZE, &chunk).next, None);
    assert_eq!(show_less(&catalogue, usize::MAX, CHUNK_SIZE, &chunk).next, None);
    assert_eq!(show_less(&catalogue, 0, 7, &chunk).next, Some(7));
    assert_eq!(show_less(&catalogue, 0, 0, &chunk).next, None);
    assert_eq!(show_less(&catalogue, 0, usize::MAX, &chunk).next, None);
    assert_eq!(show_less(&catalogue, 0, CHUNK_SIZE, &vec![]).lines, Vec::<String>::new());
    assert_eq!(CHUNK_SIZE, 1000);
}
