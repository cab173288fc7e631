//! Single-callable scenarios for the instrumentation synthesizer, and unit
//! tests of the template assembler, the interpolator and the text helpers.

use near_env::emit::{emitted_line, HostEnv};
use near_env::ext::near_ext;
use near_env::instrument::{analyze_signature, make_loggable_fn, near_log};
use near_env::markers::{contains_attr_arg, has_attr, resolve_scope};
use near_env::model::{
    Attr, Callable, Decl, FieldValue, GenError, JsonField, MarkerSet, Param, TraitDecl,
    UnionDecl, ValueRef,
};
use near_env::placeholders::fill;
use near_env::text::{bool_to_str, str_eq, str_ends_with, strip_quotes, trim, uint_to_dec};

fn markers(skip_args: bool, payable: bool, init: bool) -> MarkerSet {
    MarkerSet {
        skip_args,
        payable,
        init,
    }
}

fn callable(name: &str, params: Vec<Param>, is_public: bool, m: MarkerSet) -> Callable {
    Callable {
        name: name.to_string(),
        params,
        is_public,
        markers: m,
        logs: Vec::new(),
        body: "untouched".to_string(),
    }
}

fn named(name: &str) -> Param {
    Param::Named {
        name: name.to_string(),
    }
}

fn env(caller: &str, deposit: u128, version: &str) -> HostEnv {
    HostEnv {
        caller: caller.to_string(),
        deposit,
        version: version.to_string(),
    }
}

fn bind(name: &str, value: FieldValue) -> JsonField {
    JsonField {
        key: name.to_string(),
        value,
    }
}

/// The number of `{}` placeholders in a text.
fn count_placeholders(s: &str) -> usize {
    let b: Vec<char> = s.chars().collect();
    let mut n = 0;
    let mut i = 0;
    while i < b.len() {
        if i + 1 < b.len() && b[i] == '{' && b[i + 1] == '}' {
            n += 1;
            i += 2;
        } else {
            i += 1;
        }
    }
    n
}

#[test]
fn two_args_scenario() {
    // A receiver callable with two captured arguments, instrumented with
    // arguments enabled.
    let c = callable(
        "self_fn_two_args",
        vec![
            Param::Receiver { mutable: false },
            named("an_arg"),
            named("another_arg"),
        ],
        true,
        markers(false, false, false),
    );
    let c = make_loggable_fn(c, false);
    assert_eq!(c.logs.len(), 1);
    assert_eq!(c.logs[0].fmt, "self_fn_two_args(an_arg: {}, another_arg: {})");
    assert_eq!(c.body, "untouched");
    let line = emitted_line(
        &c.logs[0],
        &env("bob.near", 0, "1.0.0"),
        &vec![
            bind("an_arg", FieldValue::UInt(1)),
            bind("another_arg", FieldValue::UInt(2)),
        ],
    )
    .unwrap();
    assert_eq!(line, "self_fn_two_args(an_arg: 1, another_arg: 2)");
}

#[test]
fn payable_mutating_scenario() {
    // A mutating, payable callable with no arguments, attached value 0.
    let c = callable(
        "mut_self_fn_no_args",
        vec![Param::Receiver { mutable: true }],
        true,
        markers(false, true, false),
    );
    let c = make_loggable_fn(c, false);
    assert_eq!(c.logs[0].fmt, "mut_self_fn_no_args() pred: {}, deposit: {}");
    let line = emitted_line(&c.logs[0], &env("bob.near", 0, "1.0.0"), &vec![]).unwrap();
    assert_eq!(line, "mut_self_fn_no_args() pred: bob.near, deposit: 0");
}

#[test]
fn default_constructor_scenario() {
    // The distinguished zero-parameter constructor gets the version clause
    // without carrying the init marker.
    let c = callable("default", vec![], false, markers(false, false, false));
    let c = make_loggable_fn(c, false);
    assert_eq!(c.logs[0].fmt, "default() v{}");
    let line = emitted_line(&c.logs[0], &env("bob.near", 0, "1.2.3"), &vec![]).unwrap();
    assert_eq!(line, "default() v1.2.3");
}

#[test]
fn init_marker_adds_version_clause() {
    let c = callable("new", vec![], true, markers(false, false, true));
    let c = make_loggable_fn(c, false);
    assert_eq!(c.logs[0].fmt, "new() v{}");
}

#[test]
fn skip_args_keeps_payable_clause() {
    let c = callable(
        "pay",
        vec![Param::Receiver { mutable: true }, named("x")],
        true,
        markers(false, true, false),
    );
    let c = make_loggable_fn(c, true);
    // With arguments skipped there is no parameter clause and no
    // caller-identity clause; the attached-value clause follows after a
    // comma.
    assert_eq!(c.logs[0].fmt, "pay, deposit: {}");
}

#[test]
fn non_identifier_patterns_are_not_captured() {
    let c = callable(
        "f",
        vec![Param::Opaque, named("x"), Param::Opaque],
        true,
        markers(false, false, false),
    );
    let c = make_loggable_fn(c, false);
    assert_eq!(c.logs[0].fmt, "f(x: {})");
    let (names, mutating) = analyze_signature(&c.params);
    assert_eq!(names, vec!["x".to_string()]);
    assert!(!mutating);
}

#[test]
fn placeholder_count_matches_reference_count() {
    // One placeholder per emitted value reference, whatever the markers.
    let cases = vec![
        callable("a", vec![named("x"), named("y")], true, markers(false, true, true)),
        callable(
            "b",
            vec![Param::Receiver { mutable: true }, named("x")],
            true,
            markers(false, true, false),
        ),
        callable("c", vec![named("x")], true, markers(true, true, true)),
        callable("default", vec![], true, markers(false, false, false)),
    ];
    for c in cases {
        let c = make_loggable_fn(c, false);
        assert_eq!(count_placeholders(&c.logs[0].fmt), c.logs[0].args.len());
    }
}

#[test]
fn clause_order_is_fixed() {
    let c = callable(
        "f",
        vec![Param::Receiver { mutable: true }, named("x")],
        true,
        markers(false, true, true),
    );
    let c = make_loggable_fn(c, false);
    assert_eq!(c.logs[0].fmt, "f(x: {}) pred: {}, deposit: {}, v{}");
    let kinds: Vec<u32> = c.logs[0]
        .args
        .iter()
        .map(|r| match r {
            ValueRef::Arg(_) => 0,
            ValueRef::CallerIdentity => 1,
            ValueRef::AttachedValue => 2,
            ValueRef::BuildVersion => 3,
        })
        .collect();
    assert_eq!(kinds, vec![0, 1, 2, 3]);
}

#[test]
fn only_pub_returns_private_member_unmodified() {
    let private = callable("secret", vec![named("x")], false, markers(false, false, false));
    let block = Decl::Impl(near_env::model::ImplBlock {
        is_trait_impl: false,
        methods: vec![private],
    });
    let out = near_log(block, &vec!["only_pub".to_string()]).unwrap();
    match out {
        Decl::Impl(b) => {
            let m = &b.methods[0];
            assert_eq!(m.name, "secret");
            assert!(m.logs.is_empty());
            assert_eq!(m.body, "untouched");
            assert!(matches!(&m.params[0], Param::Named { name } if name == "x"));
        }
        _ => unreachable!(),
    }
}

#[test]
fn only_pub_still_instruments_trait_impl_members() {
    let private = callable("trait_method", vec![named("arg")], false, markers(false, false, false));
    let block = Decl::Impl(near_env::model::ImplBlock {
        is_trait_impl: true,
        methods: vec![private],
    });
    let out = near_log(block, &vec!["only_pub".to_string()]).unwrap();
    match out {
        Decl::Impl(b) => assert_eq!(b.methods[0].logs.len(), 1),
        _ => unreachable!(),
    }
}

#[test]
fn free_callable_is_instrumented() {
    let c = callable(
        "wrapped_function",
        vec![named("first_param"), named("snd_param")],
        true,
        markers(false, false, false),
    );
    let out = near_log(Decl::Callable(c), &vec![]).unwrap();
    match out {
        Decl::Callable(c) => {
            assert_eq!(c.logs[0].fmt, "wrapped_function(first_param: {}, snd_param: {})")
        }
        _ => unreachable!(),
    }
}

#[test]
fn free_fn_no_args_line() {
    let c = callable("fn_no_args", vec![], true, markers(false, false, false));
    let out = near_log(Decl::Callable(c), &vec![]).unwrap();
    match out {
        Decl::Callable(c) => {
            let line = emitted_line(&c.logs[0], &env("bob.near", 0, "1.0.0"), &vec![]).unwrap();
            assert_eq!(line, "fn_no_args()");
        }
        _ => unreachable!(),
    }
}

#[test]
fn free_fn_skip_args_line() {
    let c = callable(
        "free_standing_fn_skip_args",
        vec![named("first_param"), named("snd_param")],
        true,
        markers(true, false, false),
    );
    let out = near_log(Decl::Callable(c), &vec![]).unwrap();
    match out {
        Decl::Callable(c) => {
            let line = emitted_line(&c.logs[0], &env("bob.near", 0, "1.0.0"), &vec![]).unwrap();
            assert_eq!(line, "free_standing_fn_skip_args");
        }
        _ => unreachable!(),
    }
}

#[test]
fn wrapped_function_line() {
    let c = callable(
        "wrapped_function",
        vec![named("first_param"), named("snd_param")],
        true,
        markers(false, false, false),
    );
    let out = near_log(Decl::Callable(c), &vec![]).unwrap();
    match out {
        Decl::Callable(c) => {
            let line = emitted_line(
                &c.logs[0],
                &env("bob.near", 0, "1.0.0"),
                &vec![
                    bind("first_param", FieldValue::UInt(42)),
                    bind("snd_param", FieldValue::UInt(8)),
                ],
            )
            .unwrap();
            assert_eq!(line, "wrapped_function(first_param: 42, snd_param: 8)");
        }
        _ => unreachable!(),
    }
}

#[test]
fn non_impl_declaration_is_rejected() {
    let d = Decl::Union(UnionDecl {
        name: "U".to_string(),
        variants: vec![],
    });
    assert!(matches!(
        near_log(d, &vec![]),
        Err(GenError::ExpectedImpl)
    ));
}

#[test]
fn ext_without_marker_is_rejected() {
    let d = Decl::Trait(TraitDecl {
        name: "T".to_string(),
        attrs: vec![],
        items: String::new(),
    });
    assert!(matches!(near_ext(d), Err(GenError::MissingExtMarker)));
}

#[test]
fn ext_on_non_trait_is_rejected() {
    let d = Decl::Other("struct S;".to_string());
    assert!(matches!(near_ext(d), Err(GenError::ExpectedTrait)));
}

#[test]
fn missing_binding_yields_no_line() {
    let c = callable("f", vec![named("x")], true, markers(false, false, false));
    let c = make_loggable_fn(c, false);
    assert!(emitted_line(&c.logs[0], &env("a", 0, "1"), &vec![]).is_none());
}

#[test]
fn fill_substitutes_in_order() {
    let vals = vec!["1".to_string(), "two".to_string()];
    assert_eq!(fill("a {} b {} c", &vals), "a 1 b two c");
    assert_eq!(fill("{}{}", &vals), "1two");
    assert_eq!(fill("no placeholders", &vec![]), "no placeholders");
    assert_eq!(fill("", &vec![]), "");
}

#[test]
fn text_helpers() {
    assert_eq!(uint_to_dec(0), "0");
    assert_eq!(uint_to_dec(42), "42");
    assert_eq!(uint_to_dec(340282366920938463463374607431768211455), "340282366920938463463374607431768211455");
    assert_eq!(bool_to_str(true), "true");
    assert_eq!(bool_to_str(false), "false");
    assert!(str_eq("abc", "abc"));
    assert!(!str_eq("abc", "abd"));
    assert!(!str_eq("abc", "ab"));
    assert!(str_ends_with("near_envlog_skip_args", "skip_args"));
    assert!(!str_ends_with("args", "skip_args"));
    assert_eq!(trim("  padded \t"), "padded");
    assert_eq!(trim(""), "");
    assert_eq!(strip_quotes("\"quoted\""), Some("quoted"));
    assert_eq!(strip_quotes("\""), None);
    assert_eq!(strip_quotes("bare"), None);
    assert_eq!(strip_quotes("\"\""), Some(""));
}

#[test]
fn marker_resolution() {
    let args = vec!["skip_args".to_string(), "only_pub".to_string()];
    let scope = resolve_scope(&args);
    assert!(scope.skip_args);
    assert!(scope.only_pub);
    let scope = resolve_scope(&vec![]);
    assert!(!scope.skip_args);
    assert!(!scope.only_pub);
    assert!(contains_attr_arg(&args, "skip_args"));
    assert!(!contains_attr_arg(&args, "payable"));

    let attrs = vec![
        Attr {
            name: "near_sdk::payable".to_string(),
            lit: None,
        },
        Attr {
            name: "init".to_string(),
            lit: None,
        },
    ];
    assert_eq!(has_attr(&attrs, "payable"), Some(0));
    assert_eq!(has_attr(&attrs, "init"), Some(1));
    assert_eq!(has_attr(&attrs, "ext_contract"), None);
}

#[test]
fn ext_strips_only_the_marker() {
    let d = Decl::Trait(TraitDecl {
        name: "Counter".to_string(),
        attrs: vec![
            Attr {
                name: "doc".to_string(),
                lit: Some("\"a counter\"".to_string()),
            },
            Attr {
                name: "ext_contract".to_string(),
                lit: None,
            },
        ],
        items: "fn inc(&mut self);".to_string(),
    });
    let (orig, dup) = near_ext(d).unwrap();
    assert_eq!(orig.attrs.len(), 2);
    assert_eq!(dup.attrs.len(), 1);
    assert_eq!(dup.attrs[0].name, "doc");
    assert_eq!(dup.name, "Counter");
    assert_eq!(dup.items, "fn inc(&mut self);");
}

#[test]
fn marker_attributes_generate_nothing() {
    let d = Decl::Other("fn f() {}".to_string());
    let d = near_env::markers::panic_msg(d);
    let d = near_env::markers::near_envlog_skip_args(d);
    assert!(matches!(d, Decl::Other(s) if s == "fn f() {}"));
}
