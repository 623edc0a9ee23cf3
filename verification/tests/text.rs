use adview::decode::{decode_codes, decode_integers};
use adview::error::Error;
use adview::text::{index_to_string, integer_to_string, join, path_of, unsigned_to_string};

fn texts(items: &[&str]) -> Vec<String> {
    items.iter().map(|item| item.to_string()).collect()
}

#[test]
fn integers_are_written_in_base_ten() {
    assert_eq!(integer_to_string(0), "0");
    assert_eq!(integer_to_string(7), "7");
    assert_eq!(integer_to_string(10), "10");
    assert_eq!(integer_to_string(-1), "-1");
    assert_eq!(integer_to_string(-120), "-120");
    assert_eq!(integer_to_string(i64::MAX), "9223372036854775807");
    assert_eq!(integer_to_string(i64::MIN), "-9223372036854775808");
    assert_eq!(unsigned_to_string(u64::MAX), "18446744073709551615");
    assert_eq!(unsigned_to_string(1000), "1000");
    assert_eq!(index_to_string(2638), "2638");
}

#[test]
fn integers_are_written_as_std_writes_them() {
    let mut n: i64 = 1;
    for round in 0..63 {
        for value in [n, -n, n - 1, 1 - n, n + round] {
            assert_eq!(integer_to_string(value), value.to_string());
        }
        n *= 2;
    }
}

#[test]
fn join_puts_the_separator_between_neighbours() {
    assert_eq!(join(&texts(&[]), "\t"), "");
    assert_eq!(join(&texts(&["a"]), "\t"), "a");
    assert_eq!(join(&texts(&["a", "b", "c"]), "\t"), "a\tb\tc");
    assert_eq!(join(&texts(&["", ""]), ", "), ", ");
}

#[test]
fn paths_are_joined_with_a_slash() {
    assert_eq!(path_of("obs", "cell_type"), "obs/cell_type");
    assert_eq!(path_of("obs/cell_type", "codes"), "obs/cell_type/codes");
}

#[test]
fn codes_are_looked_up_in_order() {
    let categories = texts(&["a", "b", "c"]);
    assert_eq!(decode_codes(&categories, &vec![2, 0, 1, 0], 0, 4), Ok(texts(&["c", "a", "b", "a"])));
    assert_eq!(decode_codes(&categories, &vec![2, 0, 1, 0], 1, 2), Ok(texts(&["a"])));
    assert_eq!(decode_codes(&categories, &vec![2, 3, 9, 0], 0, 4), Err(3));
    assert_eq!(decode_codes(&categories, &vec![2, 3, 9, 0], 2, 4), Err(9));
    assert_eq!(decode_codes(&categories, &vec![2, 3, 9, 0], 3, 4), Ok(texts(&["a"])));
    assert_eq!(decode_codes(&vec![], &vec![0], 0, 1), Err(0));
    assert_eq!(decode_codes(&vec![], &vec![0], 1, 1), Ok(vec![]));
}

#[test]
fn integers_are_decoded_in_order() {
    assert_eq!(decode_integers(&vec![3, -14, 0]), texts(&["3", "-14", "0"]));
    assert_eq!(decode_integers(&vec![]), Vec::<String>::new());
}

#[test]
fn every_failure_has_its_message() {
    let s = |text: &str| text.to_string();
    assert_eq!(Error::GroupNotFound { path: s("obs") }.message(), "Group not found: obs");
    assert_eq!(
        Error::AttributeMissing { node: s("obs/a"), key: s("encoding-type") }.message(),
        "Missing attribute encoding-type on obs/a"
    );
    assert_eq!(
        Error::AttributeTypeMismatch { node: s("obs/a"), key: s("encoding-type") }.message(),
        "Attribute encoding-type on obs/a is not text"
    );
    assert_eq!(
        Error::UnsupportedEncoding { tag: s("csr_matrix"), field: s("X") }.message(),
        "Unsupported encoding-type: csr_matrix (field X)"
    );
    assert_eq!(
        Error::OutOfRangeCategory { field: s("cluster"), code: 4294967295 }.message(),
        "Category code 4294967295 out of range in field cluster"
    );
    assert_eq!(Error::ContainerReadFailure { path: s("obs/a") }.message(), "Failed to read obs/a");
}
