use renert::span::Span;
use renert::token::{join_normalized_tokens, join_tokens, TokenType, Tokenizer};

#[test]
fn tokenizer_splits_runs_of_letters_digits_and_punctuation() {
    let tokens = Tokenizer::new().tokenize("Москва, 2016г. ok");
    let values: Vec<&str> = tokens.iter().map(|t| t.value.as_str()).collect();
    assert_eq!(values, vec!["Москва", ",", "2016", "г", ".", "ok"]);
    assert_eq!(tokens[0].token_type, TokenType::Russian);
    assert_eq!(tokens[2].token_type, TokenType::Int);
    assert_eq!(tokens[5].token_type, TokenType::Latin);
    assert_eq!(tokens[0].span, Span::new(0, 6));
    assert_eq!(tokens[5].span, Span::new(15, 17));
}

#[test]
fn joining_tokens_uses_single_spaces() {
    let tokens = Tokenizer::new().tokenize("A  B\tC");
    assert_eq!(join_tokens(&tokens), "A B C");
    assert_eq!(join_normalized_tokens(&tokens), "a b c");
}
