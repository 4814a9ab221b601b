use gdext_class::kv_parser::{KvParser, KvValue};
use gdext_class::property::{
    make_exports_impl, Accessor, AccessorKind, ExportHint, ExportToken, ExportsImpl, Field,
    FieldExport, Fields, GetterSetter, PropertyExport,
};
use gdext_class::property_info::PROPERTY_USAGE_DEFAULT;
use gdext_class::tokens::{Token, TokenKind, Tokens};

fn ident(text: &str) -> Token {
    Token { kind: TokenKind::Ident, text: text.to_string(), joint: false }
}

fn ty(name: &str) -> Tokens {
    Tokens { items: vec![ident(name)] }
}

fn directive(entries: Vec<(&str, Option<&str>)>) -> FieldExport {
    let mut parser = KvParser::new();
    for (key, value) in entries {
        let value = value.map(|name| KvValue { tokens: ty(name) });
        assert_eq!(parser.insert(key.to_string(), value), Ok(()));
    }
    FieldExport::new_from_kv(&mut parser).unwrap()
}

fn field(name: &str, ty_name: &str, export: Option<FieldExport>) -> Field {
    Field { name: name.to_string(), ty: ty(ty_name), export }
}

fn accessor(kind: AccessorKind, name: &str, field_name: &str, ty_name: &str) -> Accessor {
    Accessor {
        kind,
        name: name.to_string(),
        field_name: field_name.to_string(),
        field_type: ty(ty_name),
    }
}

fn property(field_name: &str, ty_name: &str, getter: &str, setter: &str) -> PropertyExport {
    PropertyExport {
        field_name: field_name.to_string(),
        field_type: ty(ty_name),
        hint: None,
        usage: PROPERTY_USAGE_DEFAULT,
        getter_name: getter.to_string(),
        setter_name: setter.to_string(),
    }
}

#[test]
fn default_usage_flags() {
    assert_eq!(PROPERTY_USAGE_DEFAULT, 7);
}

#[test]
fn class_without_fields_exports_nothing() {
    let exports = make_exports_impl("Empty", &Fields { all_fields: vec![] });
    assert_eq!(
        exports,
        ExportsImpl {
            class_name: "Empty".to_string(),
            enforce_godot_api_impl: false,
            getter_setter_impls: vec![],
            export_tokens: vec![],
        }
    );
}

#[test]
fn fields_without_directive_are_skipped() {
    let fields = Fields { all_fields: vec![field("a", "i64", None), field("b", "bool", None)] };
    let exports = make_exports_impl("Plain", &fields);
    assert!(!exports.enforce_godot_api_impl);
    assert!(exports.getter_setter_impls.is_empty());
    assert!(exports.export_tokens.is_empty());
    assert_eq!(exports.class_name, "Plain");
}

#[test]
fn player_health_is_exported_read_write() {
    let fields = Fields { all_fields: vec![field("health", "i64", Some(directive(vec![])))] };
    let exports = make_exports_impl("Player", &fields);
    assert_eq!(
        exports,
        ExportsImpl {
            class_name: "Player".to_string(),
            enforce_godot_api_impl: true,
            getter_setter_impls: vec![
                accessor(AccessorKind::Getter, "get_health", "health", "i64"),
                accessor(AccessorKind::Setter, "set_health", "health", "i64"),
            ],
            export_tokens: vec![
                ExportToken::RegisterMethod(accessor(
                    AccessorKind::Getter,
                    "get_health",
                    "health",
                    "i64"
                )),
                ExportToken::RegisterMethod(accessor(
                    AccessorKind::Setter,
                    "set_health",
                    "health",
                    "i64"
                )),
                ExportToken::RegisterProperty(property("health", "i64", "get_health", "set_health")),
            ],
        }
    );
    match &exports.export_tokens[2] {
        ExportToken::RegisterProperty(p) => {
            assert_eq!(p.field_name, "health");
            assert_eq!(p.getter_name, "get_health");
            assert_eq!(p.setter_name, "set_health");
            assert_eq!(p.usage, 7);
            assert!(!p.getter_name.is_empty() && !p.setter_name.is_empty());
        }
        other => panic!("the property is registered last, not {:?}", other),
    }
}

#[test]
fn secret_with_get_only_has_no_setter() {
    let fields = Fields {
        all_fields: vec![field("secret", "String", Some(directive(vec![("get", None)])))],
    };
    let exports = make_exports_impl("Player", &fields);
    assert_eq!(
        exports.getter_setter_impls,
        vec![accessor(AccessorKind::Getter, "get_secret", "secret", "String")]
    );
    assert_eq!(
        exports.export_tokens,
        vec![
            ExportToken::RegisterMethod(accessor(
                AccessorKind::Getter,
                "get_secret",
                "secret",
                "String"
            )),
            ExportToken::RegisterProperty(property("secret", "String", "get_secret", "")),
        ]
    );
    // no function `set_secret` is synthesized or registered anywhere
    assert!(exports.getter_setter_impls.iter().all(|a| a.name != "set_secret"));
    assert!(exports.export_tokens.iter().all(|t| match t {
        ExportToken::RegisterMethod(a) => a.name != "set_secret",
        _ => true,
    }));
}

#[test]
fn set_only_has_no_getter() {
    let fields =
        Fields { all_fields: vec![field("speed", "f32", Some(directive(vec![("set", None)])))] };
    let exports = make_exports_impl("Car", &fields);
    assert_eq!(
        exports.getter_setter_impls,
        vec![accessor(AccessorKind::Setter, "set_speed", "speed", "f32")]
    );
    assert_eq!(
        exports.export_tokens,
        vec![
            ExportToken::RegisterMethod(accessor(AccessorKind::Setter, "set_speed", "speed", "f32")),
            ExportToken::RegisterProperty(property("speed", "f32", "", "set_speed")),
        ]
    );
}

#[test]
fn custom_accessors_are_checked_not_synthesized() {
    let export = directive(vec![("get", Some("read_speed")), ("set", Some("write_speed"))]);
    let fields = Fields { all_fields: vec![field("speed", "f32", Some(export))] };
    let exports = make_exports_impl("Car", &fields);
    assert!(exports.enforce_godot_api_impl);
    assert!(exports.getter_setter_impls.is_empty());
    assert_eq!(
        exports.export_tokens,
        vec![
            ExportToken::ExistenceCheck("read_speed".to_string()),
            ExportToken::ExistenceCheck("write_speed".to_string()),
            ExportToken::RegisterProperty(property("speed", "f32", "read_speed", "write_speed")),
        ]
    );
}

#[test]
fn custom_getter_with_generated_setter() {
    let export = directive(vec![("get", Some("read_speed")), ("set", None)]);
    let fields = Fields { all_fields: vec![field("speed", "f32", Some(export))] };
    let exports = make_exports_impl("Car", &fields);
    assert_eq!(
        exports.getter_setter_impls,
        vec![accessor(AccessorKind::Setter, "set_speed", "speed", "f32")]
    );
    assert_eq!(
        exports.export_tokens,
        vec![
            ExportToken::ExistenceCheck("read_speed".to_string()),
            ExportToken::RegisterMethod(accessor(AccessorKind::Setter, "set_speed", "speed", "f32")),
            ExportToken::RegisterProperty(property("speed", "f32", "read_speed", "set_speed")),
        ]
    );
}

#[test]
fn both_omitted_registers_a_property_without_accessors() {
    let export =
        FieldExport { getter: GetterSetter::Omitted, setter: GetterSetter::Omitted, hint: None };
    let fields = Fields { all_fields: vec![field("x", "i64", Some(export))] };
    let exports = make_exports_impl("Odd", &fields);
    assert!(exports.enforce_godot_api_impl);
    assert!(exports.getter_setter_impls.is_empty());
    assert_eq!(
        exports.export_tokens,
        vec![ExportToken::RegisterProperty(property("x", "i64", "", ""))]
    );
}

#[test]
fn hint_goes_into_the_property() {
    let hint = ExportHint {
        hint_type: "PROPERTY_HINT_RANGE".to_string(),
        description: Tokens {
            items: vec![Token {
                kind: TokenKind::Literal,
                text: "\"0,100\"".to_string(),
                joint: false,
            }],
        },
    };
    let export = FieldExport {
        getter: GetterSetter::Generated,
        setter: GetterSetter::Omitted,
        hint: Some(hint),
    };
    let fields = Fields { all_fields: vec![field("volume", "i64", Some(export))] };
    let exports = make_exports_impl("Radio", &fields);
    let mut expected = property("volume", "i64", "get_volume", "");
    expected.hint = Some(ExportHint {
        hint_type: "PROPERTY_HINT_RANGE".to_string(),
        description: Tokens {
            items: vec![Token {
                kind: TokenKind::Literal,
                text: "\"0,100\"".to_string(),
                joint: false,
            }],
        },
    });
    assert_eq!(exports.export_tokens[1], ExportToken::RegisterProperty(expected));
}

#[test]
fn registration_follows_field_order() {
    let fields = Fields {
        all_fields: vec![
            field("a", "i64", Some(directive(vec![("get", None)]))),
            field("skipped", "i64", None),
            field("b", "bool", Some(directive(vec![("set", Some("put_b"))]))),
            field("c", "f32", Some(directive(vec![]))),
        ],
    };
    let exports = make_exports_impl("Many", &fields);
    let registered: Vec<String> = exports
        .export_tokens
        .iter()
        .filter_map(|t| match t {
            ExportToken::RegisterProperty(p) => Some(p.field_name.clone()),
            _ => None,
        })
        .collect();
    assert_eq!(registered, vec!["a".to_string(), "b".to_string(), "c".to_string()]);
    let synthesized: Vec<String> =
        exports.getter_setter_impls.iter().map(|a| a.name.clone()).collect();
    assert_eq!(
        synthesized,
        vec!["get_a".to_string(), "get_c".to_string(), "set_c".to_string()]
    );
    assert_eq!(exports.export_tokens.len(), 2 + 2 + 3);
    assert_eq!(exports.export_tokens[2], ExportToken::ExistenceCheck("put_b".to_string()));
    assert_eq!(
        exports.export_tokens[3],
        ExportToken::RegisterProperty(property("b", "bool", "", "put_b"))
    );
}

#[test]
fn field_type_tokens_are_carried_over() {
    let option_of_i64 = Tokens {
        items: vec![
            ident("Option"),
            Token { kind: TokenKind::Punct, text: "<".to_string(), joint: false },
            ident("i64"),
            Token { kind: TokenKind::Punct, text: ">".to_string(), joint: false },
        ],
    };
    let fields = Fields {
        all_fields: vec![Field {
            name: "maybe".to_string(),
            ty: option_of_i64.clone(),
            export: Some(directive(vec![("get", None)])),
        }],
    };
    let exports = make_exports_impl("Player", &fields);
    assert_eq!(exports.getter_setter_impls[0].field_type, option_of_i64);
    match &exports.export_tokens[1] {
        ExportToken::RegisterProperty(p) => assert_eq!(p.field_type, option_of_i64),
        other => panic!("expected the property, found {:?}", other),
    }
}

#[test]
fn hint_clone_is_equal() {
    let hint = ExportHint { hint_type: "H".to_string(), description: ty("x") };
    assert_eq!(hint.clone(), hint);
}
