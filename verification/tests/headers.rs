use route_controller::headers::merge_content_type;
use route_controller::headers::merge_headers;
use route_controller::headers::write_headers;

fn pairs(items: &[(&str, &str)]) -> Vec<(String, String)> {
    items.iter().map(|(n, v)| (n.to_string(), v.to_string())).collect()
}

fn sorted(mut v: Vec<(String, String)>) -> Vec<(String, String)> {
    v.sort();
    v
}

#[test]
fn route_headers_win_over_controller_headers() {
    let merged = merge_headers(&pairs(&[("A", "1"), ("B", "2")]), &pairs(&[("A", "3"), ("C", "4")]));
    assert_eq!(merged, pairs(&[("A", "3"), ("B", "2"), ("C", "4")]));
}

#[test]
fn merge_is_order_independent_for_distinct_names() {
    let one = merge_headers(&pairs(&[("A", "1"), ("B", "2")]), &pairs(&[("A", "3"), ("C", "4")]));
    let two = merge_headers(&pairs(&[("B", "2"), ("A", "1")]), &pairs(&[("C", "4"), ("A", "3")]));
    assert_eq!(sorted(one), sorted(two.clone()));
    assert_eq!(two, pairs(&[("B", "2"), ("A", "3"), ("C", "4")]));
}

#[test]
fn the_last_write_of_a_name_wins_within_one_list() {
    assert_eq!(
        merge_headers(&pairs(&[("A", "1"), ("B", "2"), ("A", "9")]), &vec![]),
        pairs(&[("A", "9"), ("B", "2")])
    );
    assert_eq!(
        merge_headers(&vec![], &pairs(&[("X", "1"), ("X", "2"), ("X", "3")])),
        pairs(&[("X", "3")])
    );
}

#[test]
fn header_names_are_matched_exactly() {
    assert_eq!(
        merge_headers(&pairs(&[("x-a", "1")]), &pairs(&[("X-A", "2")])),
        pairs(&[("x-a", "1"), ("X-A", "2")])
    );
}

#[test]
fn merging_with_nothing_changes_nothing() {
    assert_eq!(merge_headers(&vec![], &vec![]), vec![]);
    assert_eq!(merge_headers(&pairs(&[("A", "1")]), &vec![]), pairs(&[("A", "1")]));
    assert_eq!(merge_headers(&vec![], &pairs(&[("A", "1")])), pairs(&[("A", "1")]));
}

#[test]
fn writing_headers_replaces_in_place_and_appends_new_names() {
    let mut acc = pairs(&[("A", "1"), ("B", "2")]);
    write_headers(&mut acc, &pairs(&[("B", "x"), ("C", "y"), ("A", "z")]));
    assert_eq!(acc, pairs(&[("A", "z"), ("B", "x"), ("C", "y")]));
}

#[test]
fn route_content_type_replaces_outright() {
    let json = Some("application/json".to_string());
    let plain = Some("text/plain".to_string());
    assert_eq!(merge_content_type(&json, &plain), plain);
    assert_eq!(merge_content_type(&json, &None), json);
    assert_eq!(merge_content_type(&None, &plain), plain);
    assert_eq!(merge_content_type(&None, &None), None);
}
