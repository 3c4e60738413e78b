use renert::parser::chart::{Chart, Column, State};
use renert::span::Span;
use renert::token::{Token, TokenType};

fn make_token(value: &'static str, start: usize) -> Token {
    Token::new(value, Span::new(start, start + value.len()), TokenType::Russian)
}

#[test]
fn chart_new_builds_columns_and_tokens() {
    let tokens = vec![make_token("one", 0), make_token("two", 4)];
    let chart = Chart::new(tokens.clone());

    assert_eq!(chart.len(), 3);
    assert_eq!(chart.tokens.as_slice(), tokens.as_slice());

    assert!(chart.columns[0].first());
    assert!(chart.columns[0].token.is_none());
    assert_eq!(chart.token_at(1).map(|t| t.value.as_str()), Some("one"));
    assert_eq!(chart.token_at(2).map(|t| t.value.as_str()), Some("two"));
}

#[test]
fn chart_iter_indices_and_accessors_work() {
    let mut chart = Chart::new(vec![make_token("a", 0), make_token("b", 2)]);

    let pairs: Vec<(usize, Option<usize>)> = chart.iter_indices();
    assert_eq!(pairs, vec![(0, Some(1)), (1, Some(2)), (2, None)]);

    assert_eq!(chart.last_column().index, 2);
    assert_eq!(chart.token_at(2).map(|t| t.value.as_str()), Some("b"));

    assert!(chart.get(3).is_none());
    assert_eq!(chart.get(1).map(|c| c.index), Some(1));
    assert_eq!(chart.get_mut(1).map(|c| c.index), Some(1));
    assert_eq!(chart.last_column_mut().index, 2);
}

#[test]
fn column_append_keeps_each_state_once() {
    let mut col = Column::new(0, None);
    col.append(State::new(0, 0, 0, 0, 0));
    col.append(State::new(0, 0, 0, 0, 0));
    col.append(State::new(0, 0, 1, 0, 1));
    assert_eq!(col.len(), 2);
    assert_eq!(col.get(1), Some(&State::new(0, 0, 1, 0, 1)));
    assert_eq!(col.get(2), None);
    assert_eq!(State::new(1, 0, 1, 2, 3).range(), (2, 3));
}

#[test]
fn chart_from_slice_copies_the_tokens() {
    let tokens = vec![make_token("a", 0)];
    let chart = Chart::from_slice(&tokens);
    assert_eq!(chart.tokens, tokens);
    assert_eq!(chart.len(), 2);
    assert!(!chart.is_empty());
}
