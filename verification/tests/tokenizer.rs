use shell_core::tokenizer::parse_chars;

fn toks(line: &str) -> Vec<String> {
    parse_chars(line)
}

#[test]
fn plain_words_split_on_spaces() {
    assert_eq!(toks("echo hello world"), vec!["echo", "hello", "world"]);
}

#[test]
fn single_quotes_keep_spaces() {
    assert_eq!(toks("echo 'a b' c"), vec!["echo", "a b", "c"]);
}

#[test]
fn escaped_double_quote_inside_double_quotes() {
    assert_eq!(toks("echo \"a\\\"b\""), vec!["echo", "a\"b"]);
}

#[test]
fn whitespace_only_yields_no_tokens() {
    assert_eq!(toks(""), Vec::<String>::new());
    assert_eq!(toks("   "), Vec::<String>::new());
    assert_eq!(toks(" \t  \n "), Vec::<String>::new());
}

#[test]
fn consecutive_separators_collapse() {
    assert_eq!(toks("a   b"), vec!["a", "b"]);
    assert_eq!(toks("  a\t b  "), vec!["a", "b"]);
}

#[test]
fn adjacent_quoted_segments_concatenate() {
    assert_eq!(toks("'ab'\"cd\""), vec!["abcd"]);
    assert_eq!(toks("'a'b\"c\""), vec!["abc"]);
}

#[test]
fn quote_characters_never_appear_in_tokens() {
    assert_eq!(toks("\"hello\" 'world'"), vec!["hello", "world"]);
}

#[test]
fn lone_trailing_backslash_is_dropped() {
    assert_eq!(toks("ab\\"), vec!["ab"]);
    assert_eq!(toks("\\"), Vec::<String>::new());
}

#[test]
fn backslash_escapes_space_outside_quotes() {
    assert_eq!(toks("a\\ b"), vec!["a b"]);
}

#[test]
fn backslash_escapes_anything_outside_quotes() {
    assert_eq!(toks("\\a\\'b"), vec!["a'b"]);
}

#[test]
fn backslash_is_literal_inside_single_quotes() {
    assert_eq!(toks("'a\\b'"), vec!["a\\b"]);
}

#[test]
fn backslash_in_double_quotes_escapes_special_set_only() {
    // backslash, dollar sign and double quote are escaped
    assert_eq!(toks("\"a\\\\b\""), vec!["a\\b"]);
    assert_eq!(toks("\"a\\$b\""), vec!["a$b"]);
    // before any other character the backslash stays literal
    assert_eq!(toks("\"a\\nb\""), vec!["a\\nb"]);
}

#[test]
fn unterminated_quote_is_accepted() {
    assert_eq!(toks("'abc"), vec!["abc"]);
    assert_eq!(toks("\"ab cd"), vec!["ab cd"]);
}

#[test]
fn quotes_of_the_other_kind_are_literal() {
    assert_eq!(toks("\"it's\""), vec!["it's"]);
    assert_eq!(toks("'say \"hi\"'"), vec!["say \"hi\""]);
}
