use wspc::response_attrs::{
    error_arms, read_response_attrs, type_response_parts, Attribute, ResponseAttrs,
    ResponseOption, VariantDecl, VariantFields,
};

fn opt(key: &str, value: &str, lit: bool) -> ResponseOption {
    ResponseOption { key: key.to_string(), value: value.to_string(), is_str_literal: lit }
}

fn response(options: Vec<ResponseOption>) -> Attribute {
    Attribute { path: "response".to_string(), options }
}

#[test]
fn reads_code_and_literal_message() {
    let attrs = vec![response(vec![opt("message", "\"Value is even\"", true), opt("code", "7", false)])];
    let a = read_response_attrs(&attrs).unwrap();
    assert_eq!(a.code.as_deref(), Some("7"));
    assert_eq!(a.message.as_deref(), Some("\"Value is even\".to_string()"));
}

#[test]
fn message_expression_is_bracketed() {
    let attrs = vec![response(vec![opt("message", "MSG", false)])];
    let a = read_response_attrs(&attrs).unwrap();
    assert_eq!(a.message.as_deref(), Some("(MSG).to_string()"));
    assert_eq!(a.code, None);
}

#[test]
fn other_attributes_are_passed_over_and_later_options_win() {
    let attrs = vec![
        Attribute { path: "doc".to_string(), options: vec![opt("anything", "1", false)] },
        response(vec![opt("code", "1", false)]),
        response(vec![opt("code", "2", false)]),
    ];
    let a = read_response_attrs(&attrs).unwrap();
    assert_eq!(a.code.as_deref(), Some("2"));
    assert_eq!(a.message, None);
}

#[test]
fn unknown_option_is_an_error() {
    let attrs = vec![response(vec![opt("code", "1", false), opt("status", "2", false), opt("bogus", "3", false)])];
    let e = read_response_attrs(&attrs).err().unwrap();
    assert_eq!(e, "unknown error_response option `status`; expected `code` or `message`");
}

#[test]
fn no_attributes_read_as_nothing() {
    let a = read_response_attrs(&vec![]).unwrap();
    assert!(a.code.is_none() && a.message.is_none());
}

#[test]
fn variant_settings_override_type_settings_and_defaults() {
    let type_attrs = vec![response(vec![opt("code", "100", false)])];
    let variants = vec![
        VariantDecl {
            name: "IsEven".to_string(),
            fields: VariantFields::Unit,
            attrs: vec![response(vec![opt("message", "\"Value is even\"", true), opt("code", "7", false)])],
        },
        VariantDecl { name: "Other".to_string(), fields: VariantFields::Unnamed, attrs: vec![] },
        VariantDecl { name: "Named".to_string(), fields: VariantFields::Named, attrs: vec![] },
    ];
    let arms = error_arms(&type_attrs, &variants).unwrap();
    assert_eq!(arms.len(), 3);
    assert_eq!(arms[0].pattern, "Self::IsEven");
    assert_eq!(arms[0].code, "7");
    assert_eq!(arms[0].message, "\"Value is even\".to_string()");
    assert_eq!(arms[1].pattern, "Self::Other(..)");
    assert_eq!(arms[1].code, "100");
    assert_eq!(arms[1].message, "\"Internal error\".to_string()");
    assert_eq!(arms[2].pattern, "Self::Named { .. }");
}

#[test]
fn first_unreadable_variant_gives_the_error() {
    let variants = vec![
        VariantDecl { name: "A".to_string(), fields: VariantFields::Unit, attrs: vec![response(vec![opt("x", "1", false)])] },
        VariantDecl { name: "B".to_string(), fields: VariantFields::Unit, attrs: vec![response(vec![opt("y", "1", false)])] },
    ];
    let e = error_arms(&vec![], &variants).err().unwrap();
    assert_eq!(e, "unknown error_response option `x`; expected `code` or `message`");
    let e = error_arms(&vec![response(vec![opt("z", "1", false)])], &variants).err().unwrap();
    assert_eq!(e, "unknown error_response option `z`; expected `code` or `message`");
}

#[test]
fn struct_without_settings_gets_the_defaults() {
    let (code, message) = type_response_parts(&vec![]).unwrap();
    assert_eq!(code, "::wspc::INTERNAL_ERROR_CODE");
    assert_eq!(message, "\"Internal error\".to_string()");
    let (code, message) = type_response_parts(&vec![response(vec![opt("code", "5", false)])]).unwrap();
    assert_eq!(code, "5");
    assert_eq!(message, "\"Internal error\".to_string()");
    let _ = ResponseAttrs { code: None, message: None };
}
