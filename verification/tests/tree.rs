use anbennar_wiki::document::{all, first, last, Operator, Value};
use anbennar_wiki::tape::{read_tokens, Token, TokenKind};
use anbennar_wiki::tree::{build_document, parse_document, parse_documents};

fn scalar_token(kind: TokenKind, text: &str) -> Token {
    Token {
        kind,
        end: None,
        mixed: None,
        op: None,
        bytes: Some(text.as_bytes().to_vec()),
        text: text.to_string(),
    }
}

fn plain(kind: TokenKind, end: Option<usize>, mixed: Option<bool>) -> Token {
    Token { kind, end, mixed, op: None, bytes: None, text: String::new() }
}

#[test]
fn the_tape_is_read_token_by_token() {
    let tokens = read_tokens(b"levels = { a = b 10 } x >= \"q r\"").unwrap();
    let kinds: Vec<TokenKind> = tokens.iter().map(|t| t.kind).collect();
    assert_eq!(
        kinds,
        vec![
            TokenKind::Unquoted,
            TokenKind::Object,
            TokenKind::Unquoted,
            TokenKind::Unquoted,
            TokenKind::MixedContainer,
            TokenKind::Unquoted,
            TokenKind::End,
            TokenKind::Unquoted,
            TokenKind::Operator,
            TokenKind::Quoted,
        ]
    );
    assert_eq!(tokens[1].end, Some(6));
    assert_eq!(tokens[1].mixed, Some(true));
    assert_eq!(tokens[6].end, Some(1));
    assert_eq!(tokens[0].text, "levels");
    assert_eq!(tokens[0].bytes, Some(b"levels".to_vec()));
    assert_eq!(tokens[8].op, Some(Operator::GreaterThanEqual));
    assert_eq!(tokens[8].bytes, None);
    assert_eq!(tokens[9].text, "q r");
    assert_eq!(tokens[4].end, None);
    assert_eq!(tokens[4].mixed, None);
}

#[test]
fn text_is_decoded_from_windows_1252() {
    let document = parse_document(b"name = \"R\xf3sande\"\nquote = \"a \\\"b\\\"\"").unwrap();
    assert_eq!(document.fields[0].value.as_text().unwrap(), "R\u{f3}sande");
    assert_eq!(document.fields[0].value.as_scalar().unwrap().bytes, b"R\xf3sande".to_vec());
    assert_eq!(document.fields[1].value.as_text().unwrap(), "a \"b\"");
}

#[test]
fn a_file_that_the_parser_rejects_gives_nothing() {
    assert!(read_tokens(b"a{b=}").is_none());
    assert!(parse_document(b"a{b=}").is_none());
}

#[test]
fn an_empty_file_is_an_empty_document() {
    assert!(parse_document(b"").unwrap().fields.is_empty());
    assert!(parse_document(b"# only a comment\n").unwrap().fields.is_empty());
}

#[test]
fn objects_arrays_and_mixed_containers() {
    let document =
        parse_document(b"o = { a = b c > 3 }\nl = { 1 2 { x = y } }\nm = { a = b 10 20 }\ne = { }")
            .unwrap();
    assert_eq!(document.fields.len(), 4);
    let o = document.fields[0].value.as_object().unwrap();
    assert_eq!(o.len(), 2);
    assert_eq!(o[0].key, "a");
    assert_eq!(o[0].op, None);
    assert_eq!(o[0].value.as_text().unwrap(), "b");
    assert_eq!(o[1].key, "c");
    assert_eq!(o[1].op, Some(Operator::GreaterThan));
    assert_eq!(o[1].value.as_text().unwrap(), "3");
    assert!(document.fields[0].value.as_array().unwrap().is_empty());
    assert!(document.fields[0].value.as_text().is_none());
    let l = document.fields[1].value.as_array().unwrap();
    assert_eq!(l.len(), 3);
    assert_eq!(l[1].as_text().unwrap(), "2");
    assert_eq!(l[2].as_object().unwrap()[0].key, "x");
    assert!(document.fields[1].value.as_object().unwrap().is_empty());
    let m = &document.fields[2].value;
    assert_eq!(m.as_object().unwrap().len(), 1);
    assert_eq!(m.as_array().unwrap().len(), 2);
    assert_eq!(m.as_array().unwrap()[1].as_text().unwrap(), "20");
    let e = &document.fields[3].value;
    assert!(e.as_object().unwrap().is_empty());
    assert!(e.as_array().unwrap().is_empty());
    let leaf = &o[0].value;
    assert!(leaf.as_object().is_none());
    assert!(leaf.as_array().is_none());
}

#[test]
fn a_header_and_its_body_are_a_container_of_two() {
    let document = parse_document(b"color = rgb { 100 200 50 }\nnext = 1").unwrap();
    assert_eq!(document.fields.len(), 2);
    let color = document.fields[0].value.as_array().unwrap();
    assert_eq!(color.len(), 2);
    assert_eq!(color[0].as_text().unwrap(), "rgb");
    assert_eq!(color[1].as_array().unwrap().len(), 3);
    assert_eq!(document.fields[1].key, "next");
}

#[test]
fn a_tree_is_built_from_plain_tokens() {
    let tokens = vec![
        scalar_token(TokenKind::Unquoted, "a"),
        plain(TokenKind::Object, Some(5), Some(false)),
        scalar_token(TokenKind::Unquoted, "b"),
        plain(TokenKind::Array, Some(4), Some(false)),
        plain(TokenKind::End, Some(3), None),
        plain(TokenKind::End, Some(1), None),
        scalar_token(TokenKind::Quoted, "k"),
        scalar_token(TokenKind::Unquoted, "v"),
    ];
    let document = build_document(&tokens).unwrap();
    assert_eq!(document.fields.len(), 2);
    assert_eq!(document.fields[0].key, "a");
    let inner = document.fields[0].value.as_object().unwrap();
    assert_eq!(inner.len(), 1);
    assert_eq!(inner[0].key, "b");
    assert!(inner[0].value.as_array().unwrap().is_empty());
    assert_eq!(document.fields[1].key, "k");
    assert_eq!(document.fields[1].value.as_text().unwrap(), "v");
}

#[test]
fn a_tape_that_does_not_fit_gives_no_tree() {
    let key_without_value = vec![scalar_token(TokenKind::Unquoted, "a")];
    assert!(build_document(&key_without_value).is_none());
    let end_out_of_range = vec![
        scalar_token(TokenKind::Unquoted, "a"),
        plain(TokenKind::Object, Some(7), Some(false)),
        plain(TokenKind::End, Some(1), None),
    ];
    assert!(build_document(&end_out_of_range).is_none());
    let end_before_start = vec![
        scalar_token(TokenKind::Unquoted, "a"),
        plain(TokenKind::Array, Some(0), Some(false)),
        plain(TokenKind::End, Some(1), None),
    ];
    assert!(build_document(&end_before_start).is_none());
    let container_as_key = vec![plain(TokenKind::End, Some(0), None)];
    assert!(build_document(&container_as_key).is_none());
}

#[test]
fn first_last_and_all_occurrences_of_a_key() {
    let document = parse_document(b"a = 1\nb = 2\na = 3\na = 4").unwrap();
    let fields = &document.fields;
    assert_eq!(first(fields, "a").unwrap().as_text().unwrap(), "1");
    assert_eq!(last(fields, "a").unwrap().as_text().unwrap(), "4");
    let every: Vec<&Value> = all(fields, "a");
    assert_eq!(every.len(), 3);
    assert_eq!(every[1].as_text().unwrap(), "3");
    assert_eq!(first(fields, "b").unwrap().as_text().unwrap(), "2");
    assert!(first(fields, "c").is_none());
    assert!(last(fields, "c").is_none());
    assert!(all(fields, "c").is_empty());
}

#[test]
fn a_copy_of_a_value_equals_it() {
    let document = parse_document(b"o = { a = b l = { 1 2 } m = { x = y 3 } }").unwrap();
    let copy = document.fields[0].value.duplicate();
    assert_eq!(copy, document.fields[0].value);
}

#[test]
fn files_that_hold_no_document_are_passed_over() {
    let files = vec![b"a = 1".to_vec(), b"a{b=}".to_vec(), b"".to_vec(), b"b = 2".to_vec()];
    let documents = parse_documents(&files);
    assert_eq!(documents.len(), 3);
    assert_eq!(documents[0].fields[0].key, "a");
    assert!(documents[1].fields.is_empty());
    assert_eq!(documents[2].fields[0].key, "b");
}

#[test]
fn the_syntax_of_the_game_files() {
    let document = parse_document(
        b"# a comment\n@var = 1\ncountry = {\n\ttag = A01 # trailing comment\n\tname = \"Kingdom of Lorent\"\n\t1444.1.1 = { monarch = { name = \"Rean\" adm = 3 } }\n\tlist = { 1 2 3 }\n\tnested = { { 1 2 } { 3 4 } }\n\tempty = { }\n\ta > 5\n\tb <= 6\n\tc != d\n\te ?= f\n\tg == h\n}\n\"quoted key\" = yes;\n",
    )
    .unwrap();
    assert_eq!(document.fields.len(), 3);
    assert_eq!(document.fields[0].key, "@var");
    let country = document.fields[1].value.as_object().unwrap();
    let keys: Vec<&str> = country.iter().map(|f| f.key.as_str()).collect();
    assert_eq!(
        keys,
        vec!["tag", "name", "1444.1.1", "list", "nested", "empty", "a", "b", "c", "e", "g"]
    );
    assert_eq!(country[0].value.as_text().unwrap(), "A01");
    assert_eq!(country[1].value.as_text().unwrap(), "Kingdom of Lorent");
    let monarch = country[2].value.as_object().unwrap()[0].value.as_object().unwrap();
    assert_eq!(monarch[1].key, "adm");
    assert_eq!(country[3].value.as_array().unwrap().len(), 3);
    let nested = country[4].value.as_array().unwrap();
    assert_eq!(nested.len(), 2);
    assert_eq!(nested[1].as_array().unwrap()[0].as_text().unwrap(), "3");
    assert_eq!(country[6].op, Some(Operator::GreaterThan));
    assert_eq!(country[7].op, Some(Operator::LessThanEqual));
    assert_eq!(country[8].op, Some(Operator::NotEqual));
    assert_eq!(country[9].op, Some(Operator::Exists));
    assert_eq!(country[10].op, Some(Operator::Exact));
    assert_eq!(country[10].value.as_text().unwrap(), "h");
    assert_eq!(document.fields[2].key, "quoted key");
    assert_eq!(document.fields[2].value.as_text().unwrap(), "yes");
}

#[test]
fn a_field_without_equals_turns_an_object_into_bare_values() {
    let document = parse_document(
        b"dlc = { name = \"Pack\" url \"\" category = \"content\" list = { } }",
    )
    .unwrap();
    let dlc = &document.fields[0].value;
    let fields = dlc.as_object().unwrap();
    assert_eq!(fields.len(), 1);
    assert_eq!(fields[0].key, "name");
    let rest: Vec<Option<&str>> =
        dlc.as_array().unwrap().iter().map(|v| v.as_text().map(|t| t.as_str())).collect();
    assert_eq!(
        rest,
        vec![Some("url"), Some(""), Some("category"), Some("content"), Some("list"), None]
    );
}

#[test]
fn values_in_front_of_fields() {
    let document = parse_document(b"levels = { 10 0=2 1=2 }").unwrap();
    let levels = &document.fields[0].value;
    assert!(levels.as_object().unwrap().is_empty());
    let values: Vec<&str> =
        levels.as_array().unwrap().iter().map(|v| v.as_text().unwrap().as_str()).collect();
    assert_eq!(values, vec!["10", "0", "2", "1", "2"]);
}

#[test]
fn a_parameter_block() {
    let document = parse_document(b"effect = { [[scaled] if = { limit = yes } ] always = yes }");
    let document = document.unwrap();
    let effect = document.fields[0].value.as_object().unwrap();
    assert_eq!(effect[0].key, "scaled");
    assert_eq!(effect[0].value.as_object().unwrap()[0].key, "if");
    assert_eq!(effect[1].key, "always");
}
