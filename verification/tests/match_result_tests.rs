use renert::parser::match_result::resolve_spans;

#[test]
fn resolve_spans_prefers_longest_from_same_start() {
    let resolved = resolve_spans(vec![(0, 1), (0, 2), (3, 4)]);
    assert_eq!(resolved, vec![(0, 2), (3, 4)]);
}

#[test]
fn resolve_spans_sorts_and_replaces_by_later_stop() {
    let resolved = resolve_spans(vec![(5, 9), (0, 3), (2, 6), (2, 4), (10, 11)]);
    assert_eq!(resolved, vec![(5, 9), (10, 11)]);
    assert_eq!(resolve_spans(Vec::new()), Vec::new());
    let resolved = resolve_spans(vec![(0, 2), (2, 4)]);
    assert_eq!(resolved, vec![(0, 2), (2, 4)]);
}
