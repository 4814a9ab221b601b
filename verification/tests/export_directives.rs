use gdext_class::kv_parser::{KvParser, KvValue, ParseError, ParseErrorKind};
use gdext_class::property::{ExportHint, FieldExport, GetterSetter};
use gdext_class::tokens::{Token, TokenKind, Tokens};

fn ident(text: &str) -> Token {
    Token { kind: TokenKind::Ident, text: text.to_string(), joint: false }
}

fn literal(text: &str) -> Token {
    Token { kind: TokenKind::Literal, text: text.to_string(), joint: false }
}

fn punct(ch: char, joint: bool) -> Token {
    Token { kind: TokenKind::Punct, text: ch.to_string(), joint }
}

fn value(items: Vec<Token>) -> Option<KvValue> {
    Some(KvValue { tokens: Tokens { items } })
}

fn parser(entries: Vec<(&str, Option<KvValue>)>) -> KvParser {
    let mut parser = KvParser::new();
    for (key, value) in entries {
        assert_eq!(parser.insert(key.to_string(), value), Ok(()));
    }
    parser
}

fn error(key: &str, kind: ParseErrorKind) -> ParseError {
    ParseError { key: key.to_string(), kind }
}

#[test]
fn value_of_one_identifier_is_an_identifier() {
    let v = KvValue { tokens: Tokens { items: vec![ident("my_getter")] } };
    assert_eq!(v.ident(), Some("my_getter".to_string()));
}

#[test]
fn value_of_a_literal_is_no_identifier() {
    let v = KvValue { tokens: Tokens { items: vec![literal("\"my_getter\"")] } };
    assert_eq!(v.ident(), None);
}

#[test]
fn value_of_a_path_is_no_identifier() {
    let v = KvValue {
        tokens: Tokens {
            items: vec![ident("a"), punct(':', true), punct(':', false), ident("b")],
        },
    };
    assert_eq!(v.ident(), None);
}

#[test]
fn value_without_tokens_is_no_identifier() {
    let v = KvValue { tokens: Tokens { items: vec![] } };
    assert_eq!(v.ident(), None);
}

#[test]
fn value_of_a_group_or_punct_is_no_identifier() {
    let group = Token { kind: TokenKind::Group, text: "(x)".to_string(), joint: false };
    assert_eq!(KvValue { tokens: Tokens { items: vec![group] } }.ident(), None);
    assert_eq!(KvValue { tokens: Tokens { items: vec![punct('-', false)] } }.ident(), None);
}

#[test]
fn expr_hands_out_every_token() {
    let items = vec![ident("a"), punct('+', false), literal("1")];
    let v = KvValue { tokens: Tokens { items: items.clone() } };
    assert_eq!(v.expr(), Tokens { items });
}

#[test]
fn token_clone_is_equal() {
    let t = punct(':', true);
    assert_eq!(t.clone(), t);
    let seq = Tokens { items: vec![ident("a"), punct(':', true), literal("2")] };
    assert_eq!(seq.clone(), seq);
    assert_eq!(Tokens { items: vec![] }.clone(), Tokens { items: vec![] });
}

#[test]
fn insert_refuses_a_second_value_for_a_key() {
    let mut p = KvParser::new();
    assert_eq!(p.insert("get".to_string(), None), Ok(()));
    assert_eq!(
        p.insert("get".to_string(), value(vec![ident("x")])),
        Err(error("get", ParseErrorKind::DuplicateKey))
    );
    // the first entry is still the one that is there
    assert_eq!(p.handle_any("get"), Some(None));
    assert_eq!(p.handle_any("get"), None);
}

#[test]
fn handle_any_takes_the_key_out() {
    let mut p = parser(vec![("a", None), ("b", value(vec![literal("1")])), ("c", None)]);
    assert_eq!(p.handle_any("b"), value(vec![literal("1")]).map(Some));
    assert_eq!(p.handle_any("b"), None);
    assert_eq!(p.handle_any("missing"), None);
    assert_eq!(p.handle_any("c"), Some(None));
    assert_eq!(p.handle_any("a"), Some(None));
    assert_eq!(p.handle_any("a"), None);
}

#[test]
fn handle_ident_cases() {
    let mut p = parser(vec![
        ("alone", None),
        ("name", value(vec![ident("Range")])),
        ("expr", value(vec![literal("1"), punct('+', false), literal("2")])),
    ]);
    assert_eq!(p.handle_ident("missing"), Ok(None));
    assert_eq!(p.handle_ident("name"), Ok(Some("Range".to_string())));
    assert_eq!(p.handle_ident("name"), Ok(None));
    assert_eq!(p.handle_ident("alone"), Err(error("alone", ParseErrorKind::MissingValue)));
    assert_eq!(p.handle_ident("expr"), Err(error("expr", ParseErrorKind::ExpectedIdentifier)));
    // a refused key is taken out all the same
    assert_eq!(p.handle_any("alone"), None);
    assert_eq!(p.handle_any("expr"), None);
}

#[test]
fn handle_expr_required_cases() {
    let mut p = parser(vec![("alone", None), ("desc", value(vec![literal("\"0,10\"")]))]);
    assert_eq!(p.handle_expr_required("missing"), Err(error("missing", ParseErrorKind::MissingKey)));
    assert_eq!(p.handle_expr_required("alone"), Err(error("alone", ParseErrorKind::MissingValue)));
    assert_eq!(
        p.handle_expr_required("desc"),
        Ok(Tokens { items: vec![literal("\"0,10\"")] })
    );
    assert_eq!(p.handle_expr_required("desc"), Err(error("desc", ParseErrorKind::MissingKey)));
}

#[test]
fn parse_absent_key_is_omitted() {
    let mut p = parser(vec![("set", None)]);
    assert_eq!(GetterSetter::parse(&mut p, "get"), Ok(GetterSetter::Omitted));
    // the other key is untouched
    assert_eq!(p.handle_any("set"), Some(None));
}

#[test]
fn parse_key_without_value_is_generated() {
    let mut p = parser(vec![("get", None)]);
    assert_eq!(GetterSetter::parse(&mut p, "get"), Ok(GetterSetter::Generated));
    assert_eq!(p.handle_any("get"), None);
}

#[test]
fn parse_key_with_identifier_is_custom() {
    let mut p = parser(vec![("set", value(vec![ident("write_speed")]))]);
    assert_eq!(
        GetterSetter::parse(&mut p, "set"),
        Ok(GetterSetter::Custom("write_speed".to_string()))
    );
}

#[test]
fn parse_key_with_expression_is_refused() {
    let mut p = parser(vec![("get", value(vec![literal("\"read\"")]))]);
    assert_eq!(
        GetterSetter::parse(&mut p, "get"),
        Err(error("get", ParseErrorKind::ExpectedIdentifier))
    );
    assert_eq!(p.handle_any("get"), None);
}

#[test]
fn no_directives_default_to_both_generated() {
    let mut p = KvParser::new();
    assert_eq!(
        FieldExport::new_from_kv(&mut p),
        Ok(FieldExport {
            getter: GetterSetter::Generated,
            setter: GetterSetter::Generated,
            hint: None
        })
    );
}

#[test]
fn get_only_leaves_the_setter_omitted() {
    let mut p = parser(vec![("get", None)]);
    assert_eq!(
        FieldExport::new_from_kv(&mut p),
        Ok(FieldExport { getter: GetterSetter::Generated, setter: GetterSetter::Omitted, hint: None })
    );
}

#[test]
fn set_only_leaves_the_getter_omitted() {
    let mut p = parser(vec![("set", value(vec![ident("write")]))]);
    assert_eq!(
        FieldExport::new_from_kv(&mut p),
        Ok(FieldExport {
            getter: GetterSetter::Omitted,
            setter: GetterSetter::Custom("write".to_string()),
            hint: None
        })
    );
}

#[test]
fn custom_getter_and_generated_setter() {
    let mut p = parser(vec![("set", None), ("get", value(vec![ident("read")]))]);
    assert_eq!(
        FieldExport::new_from_kv(&mut p),
        Ok(FieldExport {
            getter: GetterSetter::Custom("read".to_string()),
            setter: GetterSetter::Generated,
            hint: None
        })
    );
}

#[test]
fn hint_with_description() {
    let mut p = parser(vec![
        ("hint", value(vec![ident("PROPERTY_HINT_RANGE")])),
        ("hint_desc", value(vec![literal("\"0,100\"")])),
    ]);
    assert_eq!(
        FieldExport::new_from_kv(&mut p),
        Ok(FieldExport {
            getter: GetterSetter::Generated,
            setter: GetterSetter::Generated,
            hint: Some(ExportHint {
                hint_type: "PROPERTY_HINT_RANGE".to_string(),
                description: Tokens { items: vec![literal("\"0,100\"")] },
            }),
        })
    );
    assert_eq!(p.handle_any("hint"), None);
    assert_eq!(p.handle_any("hint_desc"), None);
}

#[test]
fn hint_without_description_is_refused() {
    let mut p = parser(vec![("hint", value(vec![ident("PROPERTY_HINT_RANGE")]))]);
    assert_eq!(
        FieldExport::new_from_kv(&mut p),
        Err(error("hint_desc", ParseErrorKind::MissingKey))
    );
}

#[test]
fn hint_description_without_value_is_refused() {
    let mut p =
        parser(vec![("hint", value(vec![ident("PROPERTY_HINT_RANGE")])), ("hint_desc", None)]);
    assert_eq!(
        FieldExport::new_from_kv(&mut p),
        Err(error("hint_desc", ParseErrorKind::MissingValue))
    );
}

#[test]
fn hint_without_value_is_refused() {
    let mut p = parser(vec![("hint", None), ("hint_desc", value(vec![literal("\"x\"")]))]);
    assert_eq!(FieldExport::new_from_kv(&mut p), Err(error("hint", ParseErrorKind::MissingValue)));
    // reading stopped at the hint: its description was not looked at
    assert_eq!(p.handle_any("hint_desc"), value(vec![literal("\"x\"")]).map(Some));
}

#[test]
fn hint_that_is_no_identifier_is_refused() {
    let mut p = parser(vec![
        ("hint", value(vec![literal("3")])),
        ("hint_desc", value(vec![literal("\"x\"")])),
    ]);
    assert_eq!(
        FieldExport::new_from_kv(&mut p),
        Err(error("hint", ParseErrorKind::ExpectedIdentifier))
    );
}

#[test]
fn description_without_hint_is_left_in_place() {
    let mut p = parser(vec![("hint_desc", value(vec![literal("\"x\"")]))]);
    assert_eq!(
        FieldExport::new_from_kv(&mut p),
        Ok(FieldExport {
            getter: GetterSetter::Generated,
            setter: GetterSetter::Generated,
            hint: None
        })
    );
    assert_eq!(p.handle_any("hint_desc"), value(vec![literal("\"x\"")]).map(Some));
}

#[test]
fn first_fault_wins_and_stops_reading() {
    let mut p = parser(vec![
        ("get", value(vec![literal("1")])),
        ("set", value(vec![literal("2")])),
        ("hint", None),
    ]);
    assert_eq!(
        FieldExport::new_from_kv(&mut p),
        Err(error("get", ParseErrorKind::ExpectedIdentifier))
    );
    assert_eq!(p.handle_any("get"), None);
    assert_eq!(p.handle_any("set"), value(vec![literal("2")]).map(Some));
    assert_eq!(p.handle_any("hint"), Some(None));
}

#[test]
fn setter_fault_comes_before_hint_fault() {
    let mut p = parser(vec![("set", value(vec![literal("2")])), ("hint", None)]);
    assert_eq!(
        FieldExport::new_from_kv(&mut p),
        Err(error("set", ParseErrorKind::ExpectedIdentifier))
    );
    assert_eq!(p.handle_any("set"), None);
    assert_eq!(p.handle_any("hint"), Some(None));
}

#[test]
fn unknown_keys_are_left_for_the_caller() {
    let mut p = parser(vec![("get", None), ("colour", None)]);
    assert!(FieldExport::new_from_kv(&mut p).is_ok());
    assert_eq!(p.handle_any("colour"), Some(None));
}
