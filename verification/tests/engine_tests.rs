use renert::parser::chart::{Chart, Column, State};
use renert::parser::engine::{build_chart, Parser, Production, Rule, RuleRegistry, Term};
use renert::span::Span;
use renert::token::{Token, TokenType, Tokenizer};

fn words(ws: &[&str]) -> Production {
    Production { terms: ws.iter().map(|w| Term::Word(w.to_string())).collect() }
}

fn rule_of(prods: Vec<Production>) -> Rule {
    Rule { productions: prods }
}

fn make_token(value: &'static str, start: usize) -> Token {
    Token::new(value, Span::new(start, start + value.len()), TokenType::Russian)
}

/// Rule 0 is rule 1; rule 1 is the word "a"; rule 2 is the word "b".
fn make_registry() -> (RuleRegistry, usize, usize, usize) {
    let mut registry = RuleRegistry::new();
    let rule0 = registry.add(rule_of(vec![Production { terms: vec![Term::Rule(1)] }]));
    let rule1 = registry.add(rule_of(vec![words(&["a"])]));
    let rule2 = registry.add(rule_of(vec![words(&["b"])]));
    (registry, rule0, rule1, rule2)
}

fn strings(v: &[&str]) -> Vec<String> {
    v.iter().map(|s| s.to_string()).collect()
}

#[test]
fn api_example_style_geo_with_republic_variant() {
    let text = "Russian republic";
    let mut registry = RuleRegistry::new();
    let geo_id = registry.add(rule_of(vec![words(&["Russian", "republic"])]));
    let parser = Parser::new(&registry, geo_id);
    let values = parser.find_text(text).expect("expected geo match");
    assert_eq!(values, strings(&["Russian", "republic"]));
}

#[test]
fn find_text_matches_find_into_token_strings() {
    let text = "hello world";
    let mut registry = RuleRegistry::new();
    let root_id = registry.next_id();
    registry.add(rule_of(vec![words(&["hello", "world"])]));
    let parser = Parser::new(&registry, root_id);

    let a = parser.findall_text(text).into_iter().next().expect("find");
    let b = parser.find_text(text).expect("find_text");
    assert_eq!(a, b);
}

#[test]
fn parse_find_and_findall_for_token_inputs_work() {
    let text = "hello world";
    let tokens = Tokenizer::new().tokenize(text);

    let mut registry = RuleRegistry::new();
    let root_id = registry.next_id();
    registry.add(rule_of(vec![words(&["hello", "world"])]));
    let parser = Parser::new(&registry, root_id);

    let all = parser.findall_ranges(&tokens);
    assert_eq!(all, vec![(0, 2)]);
    assert_eq!(all.len(), 1);
    assert_eq!(tokens[all[0].0].value, "hello");
    assert_eq!(tokens[all[0].0 + 1].value, "world");
    assert_eq!(parser.whole_match(text), Some((0, 2)));
}

#[test]
fn chart_matches_extract_and_match_methods_work_together() {
    let mut registry = RuleRegistry::new();
    let root_id = registry.next_id();
    registry.add(rule_of(vec![words(&["hello", "world"])]));
    let parser = Parser::new(&registry, root_id);

    let tokens = Tokenizer::new().tokenize("hello world");
    let chart = parser.chart(&tokens, false);
    let states = parser.matches(&tokens, false);
    let extracted = parser.findall_text("hello world");
    let best = parser.whole_match("hello world").expect("match should exist");

    assert_eq!(chart.tokens.len(), 2);
    assert_eq!(chart.len(), 3);
    assert_eq!(states.len(), 1);
    assert_eq!(states[0].range(), (0, 2));
    assert_eq!(extracted.len(), 1);
    assert_eq!(extracted[0].join(" "), "hello world");
    assert_eq!(best, (0, 2));
}

#[test]
fn findall_resolves_overlapping_matches_for_text_input() {
    let mut registry = RuleRegistry::new();
    let root_id = registry.next_id();
    registry.add(rule_of(vec![words(&["hello", "world"]), words(&["hello"])]));
    let parser = Parser::new(&registry, root_id);

    let matches = parser.findall_text("hello world");
    assert_eq!(matches.len(), 1);
    assert_eq!(matches[0].join(" "), "hello world");
    let tokens = Tokenizer::new().tokenize("hello world");
    assert_eq!(parser.findall_ranges(&tokens), vec![(0, 2)]);
}

#[test]
fn early_skip_does_not_create_false_match_when_parse_dies_early() {
    let mut registry = RuleRegistry::new();
    let rule_id = registry.next_id();
    registry.add(rule_of(vec![words(&["a", "b"])]));
    let parser = Parser::new(&registry, rule_id);

    let text = "a x x x x x x x x x";
    assert!(parser.whole_match(text).is_none(), "parser must not produce a match");
}

#[test]
fn early_skip_does_not_break_findall_all_true() {
    let mut registry = RuleRegistry::new();
    let rule_id = registry.next_id();
    registry.add(rule_of(vec![words(&["a", "b"])]));
    let parser = Parser::new(&registry, rule_id);

    let got = parser.findall_text("x a b y a b z");
    assert_eq!(got.len(), 2);
    assert_eq!(got, vec![strings(&["a", "b"]), strings(&["a", "b"])]);
}

#[test]
fn early_skip_handles_empty_input_correctly() {
    let mut registry = RuleRegistry::new();
    let rule_id = registry.next_id();
    registry.add(rule_of(vec![words(&["a"])]));
    let parser = Parser::new(&registry, rule_id);

    assert!(parser.whole_match("").is_none());
    assert!(parser.findall_text("").is_empty());
}

#[test]
fn column_append_deduplicates_equal_states() {
    let (registry, rule0, rule1, _) = make_registry();
    let mut col = Column::new(0, None);
    col.append(State::new(rule0, 0, 0, 0, 0));
    col.append(State::new(rule0, 0, 0, 0, 0));
    assert_eq!(col.len(), 1);
    assert_eq!(col.parents(rule1, &registry).len(), 1);
}

#[test]
fn parents_index_ignores_completed_and_terminal_next_term() {
    let (registry, rule0, rule1, rule2) = make_registry();
    let mut col = Column::new(0, None);
    col.append(State::new(rule0, 0, 0, 0, 0));
    col.append(State::new(rule1, 0, 1, 0, 1));
    col.append(State::new(rule2, 0, 0, 0, 0));
    assert_eq!(col.parents(rule1, &registry).len(), 1);
    assert_eq!(col.parents(rule2, &registry).len(), 0);
}

#[test]
fn column_matches_returns_only_completed_states_for_rule() {
    let (registry, _, rule1, rule2) = make_registry();
    let mut col = Column::new(0, None);
    col.append(State::new(rule1, 0, 0, 0, 0));
    col.append(State::new(rule1, 0, 1, 0, 1));
    col.append(State::new(rule2, 0, 1, 0, 1));
    let matches = col.matches(rule1, &registry);
    assert_eq!(matches.len(), 1);
    assert_eq!(matches[0].rule_id, rule1);
    assert_eq!(matches[0].dot, 1);
}

#[test]
fn chart_matches_aggregates_completed_states_from_all_columns() {
    let (registry, _, rule1, _) = make_registry();
    let mut chart = Chart::new(vec![make_token("a", 0), make_token("a", 2)]);
    chart.columns[0].append(State::new(rule1, 0, 0, 0, 0));
    chart.columns[1].append(State::new(rule1, 0, 1, 0, 1));
    chart.columns[2].append(State::new(rule1, 0, 1, 1, 2));
    let matched = chart.matches(rule1, &registry);
    let ranges: Vec<(usize, usize)> = matched.iter().map(|st| st.range()).collect();
    assert_eq!(matched.len(), 2);
    assert_eq!(ranges, vec![(0, 1), (1, 2)]);
}

#[test]
fn completed_checks_dot_against_production_len() {
    let (registry, _, rule1, _) = make_registry();
    let not_completed = State::new(rule1, 0, 0, 0, 0);
    let completed = State::new(rule1, 0, 1, 0, 1);
    let over_completed = State::new(rule1, 0, 2, 0, 1);
    assert!(!not_completed.completed(&registry));
    assert!(completed.completed(&registry));
    assert!(over_completed.completed(&registry));
}

#[test]
fn next_term_returns_nonterminal_terminal_and_none() {
    let (registry, rule0, rule1, _) = make_registry();
    let nonterminal_first = State::new(rule0, 0, 0, 0, 0);
    assert!(matches!(nonterminal_first.next_term(&registry), Some(Term::Rule(_))));
    let terminal_first = State::new(rule1, 0, 0, 0, 0);
    assert!(matches!(terminal_first.next_term(&registry), Some(Term::Word(_))));
    let at_end = State::new(rule1, 0, 1, 0, 1);
    assert!(at_end.next_term(&registry).is_none());
    let bad_rule = State::new(999, 0, 0, 0, 0);
    assert!(bad_rule.next_term(&registry).is_none());
    let bad_production = State::new(rule1, 99, 0, 0, 0);
    assert!(bad_production.next_term(&registry).is_none());
}

#[test]
fn range_returns_start_and_stop_columns() {
    let state = State::new(1, 0, 0, 3, 7);
    assert_eq!(state.range(), (3, 7));
}

#[test]
fn chart_is_closed_under_nested_rules() {
    // rule 0 -> rule 1 "c"; rule 1 -> "a" "b" | "a"
    let mut registry = RuleRegistry::new();
    registry.add(rule_of(vec![Production { terms: vec![Term::Rule(1), Term::Word("c".to_string())] }]));
    registry.add(rule_of(vec![words(&["a", "b"]), words(&["a"])]));
    let tokens = Tokenizer::new().tokenize("a b c");
    let chart = build_chart(&registry, 0, &tokens, false);
    // Column 0: the root and both productions of rule 1.
    assert_eq!(chart.columns[0].states, vec![State::new(0, 0, 0, 0, 0), State::new(1, 0, 0, 0, 0), State::new(1, 1, 0, 0, 0)]);
    // After "a": both productions advanced, the short one completes and advances the root.
    assert!(chart.columns[1].states.contains(&State::new(1, 0, 1, 0, 1)));
    assert!(chart.columns[1].states.contains(&State::new(1, 1, 1, 0, 1)));
    assert!(chart.columns[1].states.contains(&State::new(0, 0, 1, 0, 1)));
    // The root spans all three tokens.
    let parser = Parser::new(&registry, 0);
    assert_eq!(parser.matches(&tokens, false), vec![State::new(0, 0, 2, 0, 3)]);
    assert_eq!(parser.whole_match("a b c"), Some((0, 3)));
    assert_eq!(parser.whole_match("a c"), Some((0, 2)));
    assert_eq!(parser.whole_match("a b"), None);
}

#[test]
fn a_root_begins_at_every_column_only_when_asked() {
    let mut registry = RuleRegistry::new();
    registry.add(rule_of(vec![words(&["b"])]));
    let tokens = Tokenizer::new().tokenize("a b");
    let parser = Parser::new(&registry, 0);
    assert!(parser.matches(&tokens, false).is_empty());
    assert_eq!(parser.matches(&tokens, true), vec![State::new(0, 0, 1, 1, 2)]);
    let chart = parser.chart(&tokens, false);
    assert!(chart.columns[1].states.is_empty());
}

#[test]
fn left_recursive_rules_terminate_and_match() {
    // rule 0 -> rule 0 "a" | "a"
    let mut registry = RuleRegistry::new();
    registry.add(rule_of(vec![Production { terms: vec![Term::Rule(0), Term::Word("a".to_string())] }, words(&["a"])]));
    let parser = Parser::new(&registry, 0);
    assert_eq!(parser.whole_match("a a a"), Some((0, 3)));
    assert_eq!(parser.find_text("a a a"), Some(strings(&["a", "a", "a"])));
}

#[test]
fn overlapping_matches_resolve_to_disjoint_ranges() {
    // rule 0 -> "a" "b" | "b" "c" | "d"
    let mut registry = RuleRegistry::new();
    registry.add(rule_of(vec![words(&["a", "b"]), words(&["b", "c"]), words(&["d"])]));
    let parser = Parser::new(&registry, 0);
    let tokens = Tokenizer::new().tokenize("a b c d");
    let ranges = parser.findall_ranges(&tokens);
    // (1, 3) starts inside (0, 2) and stops later, so it replaces it.
    assert_eq!(ranges, vec![(1, 3), (3, 4)]);
    for w in ranges.windows(2) {
        assert!(w[0].1 <= w[1].0);
    }
    assert_eq!(parser.findall_text("a b c d"), vec![strings(&["b", "c"]), strings(&["d"])]);
}

#[test]
fn api_example_style_geo_findall_matches_phrase() {
    let text = "Russian Federation";
    let mut registry = RuleRegistry::new();
    let geo_id = registry.add(rule_of(vec![words(&["Russian", "Federation"])]));
    let parser = Parser::new(&registry, geo_id);
    let matches = parser.findall_text(text);
    assert!(!matches.is_empty());
    assert!(matches.iter().any(|values| *values == strings(&["Russian", "Federation"])));
}
