//! The message synthesizer: template extraction, per-variant rendering, the
//! abort payload's shape, and the build-time faults.

use near_env::message::{near_panic, panic_payload, render_msg, MsgImpl};
use near_env::model::{
    Attr, Decl, FieldValue, GenError, JsonField, TraitDecl, UnionDecl, UnionValue, VariantDecl,
};

fn msg_attr(template: &str) -> Attr {
    Attr {
        name: "panic_msg".to_string(),
        lit: Some(format!("\"{}\"", template)),
    }
}

fn variant(name: &str, fields: &[&str], template: &str) -> VariantDecl {
    VariantDecl {
        name: name.to_string(),
        fields: fields.iter().map(|f| f.to_string()).collect(),
        attrs: vec![msg_attr(template)],
    }
}

fn p_union() -> UnionDecl {
    UnionDecl {
        name: "P".to_string(),
        variants: vec![
            variant("ErrNoFields", &[], "err no fields"),
            variant("ErrNoFields2", &[], "err no fields 2"),
            variant("ErrA", &["f1"], "err a with f1 {}"),
            variant("ErrB", &["f1", "f2"], "err b with f1 {} and f2 {}"),
        ],
    }
}

fn p_arms() -> MsgImpl {
    near_panic(Decl::Union(p_union())).unwrap()
}

fn value(variant: &str, fields: Vec<FieldValue>) -> UnionValue {
    UnionValue {
        variant: variant.to_string(),
        fields,
    }
}

#[test]
fn err_no_fields_renders() {
    let m = p_arms();
    let v = value("ErrNoFields", vec![]);
    assert_eq!(render_msg(&m, &v).unwrap(), "err no fields");
}

#[test]
fn err_no_fields2_renders() {
    let m = p_arms();
    let v = value("ErrNoFields2", vec![]);
    assert_eq!(render_msg(&m, &v).unwrap(), "err no fields 2");
}

#[test]
fn err_a_renders() {
    let m = p_arms();
    let v = value("ErrA", vec![FieldValue::UInt(42)]);
    assert_eq!(render_msg(&m, &v).unwrap(), "err a with f1 42");
}

#[test]
fn err_b_renders() {
    let m = p_arms();
    let v = value(
        "ErrB",
        vec![
            FieldValue::UInt(42),
            FieldValue::Str("f2 for err-b".to_string()),
        ],
    );
    assert_eq!(
        render_msg(&m, &v).unwrap(),
        "err b with f1 42 and f2 f2 for err-b"
    );
}

#[test]
fn rendering_is_deterministic() {
    // Rendering is a pure function of the variant tag and field values.
    let m = p_arms();
    let v = value(
        "ErrB",
        vec![FieldValue::UInt(7), FieldValue::Str("x".to_string())],
    );
    let first = render_msg(&m, &v).unwrap();
    let second = render_msg(&m, &v).unwrap();
    assert_eq!(first, second);
}

#[test]
fn unknown_variant_has_no_arm() {
    let m = p_arms();
    let v = value("ErrC", vec![]);
    assert!(render_msg(&m, &v).is_none());
}

#[test]
fn err_b_abort_payload() {
    // The abort payload is exactly the union's own serialized shape plus one
    // sibling `msg` field holding the rendered message.
    let m = p_arms();
    let v = value(
        "ErrB",
        vec![FieldValue::UInt(42), FieldValue::Str("x".to_string())],
    );
    let shape = vec![
        JsonField {
            key: "errkey".to_string(),
            value: FieldValue::Str("ErrB".to_string()),
        },
        JsonField {
            key: "f1".to_string(),
            value: FieldValue::UInt(42),
        },
        JsonField {
            key: "f2".to_string(),
            value: FieldValue::Str("x".to_string()),
        },
    ];
    let payload = panic_payload(&m, shape, &v).unwrap();
    assert_eq!(payload.len(), 4);
    assert_eq!(payload[0].key, "errkey");
    assert!(matches!(&payload[0].value, FieldValue::Str(s) if s == "ErrB"));
    assert_eq!(payload[1].key, "f1");
    assert!(matches!(&payload[1].value, FieldValue::UInt(42)));
    assert_eq!(payload[2].key, "f2");
    assert!(matches!(&payload[2].value, FieldValue::Str(s) if s == "x"));
    assert_eq!(payload[3].key, "msg");
    assert!(matches!(&payload[3].value, FieldValue::Str(s) if s == "err b with f1 42 and f2 x"));
}

#[test]
fn template_payload_is_unquoted_and_trimmed() {
    let u = UnionDecl {
        name: "Q".to_string(),
        variants: vec![VariantDecl {
            name: "Spaced".to_string(),
            fields: vec![],
            attrs: vec![Attr {
                name: "panic_msg".to_string(),
                lit: Some("\"  padded message \"".to_string()),
            }],
        }],
    };
    let m = near_panic(Decl::Union(u)).unwrap();
    assert_eq!(m.arms[0].template, "padded message");
}

#[test]
fn missing_template_is_rejected() {
    let u = UnionDecl {
        name: "Q".to_string(),
        variants: vec![
            variant("Ok1", &[], "fine"),
            VariantDecl {
                name: "Bare".to_string(),
                fields: vec![],
                attrs: vec![],
            },
        ],
    };
    assert!(matches!(
        near_panic(Decl::Union(u)),
        Err(GenError::MissingMsgTemplate)
    ));
}

#[test]
fn non_union_is_rejected() {
    let d = Decl::Trait(TraitDecl {
        name: "T".to_string(),
        attrs: vec![],
        items: String::new(),
    });
    assert!(matches!(near_panic(d), Err(GenError::ExpectedUnion)));
}

#[test]
fn non_string_literal_payload_is_passed_over() {
    // An attribute whose payload is not a quoted literal does not provide
    // the template; a later attribute may.
    let u = UnionDecl {
        name: "Q".to_string(),
        variants: vec![VariantDecl {
            name: "V".to_string(),
            fields: vec![],
            attrs: vec![
                Attr {
                    name: "panic_msg".to_string(),
                    lit: Some("123".to_string()),
                },
                Attr {
                    name: "panic_msg".to_string(),
                    lit: Some("\"real\"".to_string()),
                },
            ],
        }],
    };
    let m = near_panic(Decl::Union(u)).unwrap();
    assert_eq!(m.arms[0].template, "real");
}
