use pngsize::query::{decode_component, extract_url, lookup_query};

fn extracted(query: &[u8]) -> Option<Vec<u8>> {
    extract_url(query)
}

#[test]
fn plain_url_parameter_is_extracted() {
    assert_eq!(
        extracted(b"url=http://example.com/pic.png"),
        Some(b"http://example.com/pic.png".to_vec())
    );
}

#[test]
fn absent_query_and_absent_key_yield_none() {
    assert_eq!(extracted(b""), None);
    assert_eq!(extracted(b"foo=bar"), None);
    assert_eq!(extracted(b"u=1&r=2&l=3"), None);
}

#[test]
fn empty_value_is_treated_as_missing() {
    assert_eq!(extracted(b"url="), None);
    assert_eq!(extracted(b"url=&foo=bar"), None);
    assert_eq!(extracted(b"url"), None);
}

#[test]
fn same_query_yields_same_result() {
    let q = b"url=http%3A%2F%2Fexample.com";
    assert_eq!(extracted(q), extracted(q));
}

#[test]
fn percent_escapes_are_decoded() {
    assert_eq!(
        extracted(b"url=http%3A%2F%2Fexample.com%2Fa.png"),
        Some(b"http://example.com/a.png".to_vec())
    );
}

#[test]
fn both_hex_cases_decode_alike() {
    assert_eq!(extracted(b"url=%2F"), extracted(b"url=%2f"));
    assert_eq!(extracted(b"url=%2F"), Some(b"/".to_vec()));
}

#[test]
fn plus_decodes_to_space() {
    assert_eq!(extracted(b"url=a+b"), Some(b"a b".to_vec()));
}

#[test]
fn malformed_escapes_pass_through() {
    assert_eq!(extracted(b"url=a%2"), Some(b"a%2".to_vec()));
    assert_eq!(extracted(b"url=%zz"), Some(b"%zz".to_vec()));
    assert_eq!(extracted(b"url=%"), Some(b"%".to_vec()));
}

#[test]
fn last_occurrence_wins() {
    assert_eq!(extracted(b"url=first&url=second"), Some(b"second".to_vec()));
    assert_eq!(extracted(b"url=first&url="), None);
}

#[test]
fn empty_pieces_are_skipped() {
    assert_eq!(extracted(b"&&url=x&&"), Some(b"x".to_vec()));
}

#[test]
fn value_keeps_equals_signs_after_the_first() {
    assert_eq!(extracted(b"url=a=b"), Some(b"a=b".to_vec()));
}

#[test]
fn encoded_key_is_recognised() {
    assert_eq!(extracted(b"%75rl=x"), Some(b"x".to_vec()));
}

#[test]
fn other_parameters_are_looked_up_too() {
    assert_eq!(lookup_query(b"a=1&b=2", b"b"), Some(b"2".to_vec()));
    assert_eq!(lookup_query(b"a=1&b=2", b"c"), None);
    assert_eq!(lookup_query(b"flag", b"flag"), Some(Vec::new()));
}

#[test]
fn component_decoding_is_exact() {
    assert_eq!(decode_component(b"a+b%20c%41"), b"a b cA".to_vec());
    assert_eq!(decode_component(b""), Vec::<u8>::new());
    assert_eq!(decode_component(b"%00"), vec![0u8]);
    assert_eq!(decode_component(b"%FF"), vec![0xFFu8]);
}
