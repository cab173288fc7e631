//! The instrumented-contract walkthrough: an implementation block is
//! instrumented several times over with different scope markers, as layered
//! attribute expansions would do, and every emitted line is checked against
//! the exact expected text.

use near_env::emit::{emitted_line, HostEnv};
use near_env::instrument::near_log;
use near_env::model::{
    Callable, Decl, FieldValue, ImplBlock, JsonField, MarkerSet, Param,
};

fn env() -> HostEnv {
    HostEnv {
        caller: "bob.near".to_string(),
        deposit: 0,
        version: "1.2.3".to_string(),
    }
}

fn plain_markers() -> MarkerSet {
    MarkerSet {
        skip_args: false,
        payable: false,
        init: false,
    }
}

fn callable(name: &str, params: Vec<Param>, is_public: bool, markers: MarkerSet) -> Callable {
    Callable {
        name: name.to_string(),
        params,
        is_public,
        markers,
        logs: Vec::new(),
        body: String::new(),
    }
}

fn recv() -> Param {
    Param::Receiver { mutable: false }
}

fn mut_recv() -> Param {
    Param::Receiver { mutable: true }
}

fn named(name: &str) -> Param {
    Param::Named {
        name: name.to_string(),
    }
}

fn bind(name: &str, value: FieldValue) -> JsonField {
    JsonField {
        key: name.to_string(),
        value,
    }
}

/// Applies one instrumentation pass to an impl-block declaration.
fn apply(decl: Decl, args: &[&str]) -> Decl {
    let args: Vec<String> = args.iter().map(|a| a.to_string()).collect();
    near_log(decl, &args).unwrap()
}

/// What a contract-export generator does between passes: it consumes the
/// init and payable markers.
fn strip_bindgen_markers(decl: Decl) -> Decl {
    match decl {
        Decl::Impl(mut b) => {
            for m in &mut b.methods {
                m.markers.init = false;
                m.markers.payable = false;
            }
            Decl::Impl(b)
        }
        other => other,
    }
}

/// The lines the method's prepended statements emit at run time, outermost
/// statement first.
fn lines_of(c: &Callable, binds: &[JsonField]) -> Vec<String> {
    let binds: Vec<JsonField> = binds.to_vec();
    let e = env();
    c.logs
        .iter()
        .map(|stmt| emitted_line(stmt, &e, &binds).unwrap())
        .collect()
}

fn method<'a>(b: &'a ImplBlock, name: &str) -> &'a Callable {
    b.methods.iter().find(|m| m.name == name).unwrap()
}

#[test]
fn test_logs() {
    let ver = "1.2.3";

    // impl Default for Model, instrumented once.
    let default_impl = Decl::Impl(ImplBlock {
        is_trait_impl: true,
        methods: vec![callable("default", vec![], false, plain_markers())],
    });
    let default_impl = apply(default_impl, &[]);

    // impl Model, instrumented by four passes; a contract-export pass in
    // between consumes the init and payable markers.
    let model_impl = Decl::Impl(ImplBlock {
        is_trait_impl: false,
        methods: vec![
            callable(
                "new",
                vec![],
                true,
                MarkerSet {
                    skip_args: false,
                    payable: false,
                    init: true,
                },
            ),
            callable("self_fn_no_args", vec![recv()], true, plain_markers()),
            callable(
                "self_fn_str_arg",
                vec![recv(), named("str_arg")],
                true,
                plain_markers(),
            ),
            callable(
                "self_fn_skip_args",
                vec![recv(), named("_no_display")],
                false,
                MarkerSet {
                    skip_args: true,
                    payable: false,
                    init: false,
                },
            ),
            callable(
                "self_fn_two_args",
                vec![recv(), named("an_arg"), named("another_arg")],
                true,
                plain_markers(),
            ),
            callable(
                "self_fn_skip_two_args",
                vec![recv(), named("an_arg"), named("another_arg")],
                true,
                MarkerSet {
                    skip_args: true,
                    payable: false,
                    init: false,
                },
            ),
            callable(
                "mut_self_fn_no_args",
                vec![mut_recv()],
                true,
                MarkerSet {
                    skip_args: false,
                    payable: true,
                    init: false,
                },
            ),
            callable(
                "mut_self_fn_one_arg",
                vec![mut_recv(), named("an_arg")],
                true,
                plain_markers(),
            ),
            callable(
                "priv_self",
                vec![recv(), named("_an_arg")],
                false,
                plain_markers(),
            ),
        ],
    });
    let model_impl = apply(model_impl, &[]);
    let model_impl = strip_bindgen_markers(model_impl);
    let model_impl = apply(model_impl, &["skip_args"]);
    let model_impl = apply(model_impl, &["only_pub"]);
    let model_impl = apply(model_impl, &["skip_args", "only_pub"]);

    // impl ModelTrait for Model, instrumented twice.
    let trait_impl = Decl::Impl(ImplBlock {
        is_trait_impl: true,
        methods: vec![callable(
            "trait_method",
            vec![recv(), named("arg")],
            false,
            plain_markers(),
        )],
    });
    let trait_impl = apply(trait_impl, &[]);
    let trait_impl = apply(trait_impl, &["skip_args", "only_pub"]);

    let default_impl = match default_impl {
        Decl::Impl(b) => b,
        _ => unreachable!(),
    };
    let model = match model_impl {
        Decl::Impl(b) => b,
        _ => unreachable!(),
    };
    let trait_block = match trait_impl {
        Decl::Impl(b) => b,
        _ => unreachable!(),
    };

    let mut logs: Vec<String> = Vec::new();

    logs.push(format!("default() v{}", ver));

    logs.push("new".to_string());
    logs.push("new()".to_string());
    logs.push("new".to_string());
    logs.push(format!("new() v{}", ver));

    logs.push("self_fn_no_args".to_string());
    logs.push("self_fn_no_args()".to_string());
    logs.push("self_fn_no_args".to_string());
    logs.push("self_fn_no_args()".to_string());

    logs.push("self_fn_str_arg".to_string());
    logs.push("self_fn_str_arg(str_arg: a value)".to_string());
    logs.push("self_fn_str_arg".to_string());
    logs.push("self_fn_str_arg(str_arg: a value)".to_string());

    logs.push("self_fn_skip_args".to_string());
    logs.push("self_fn_skip_args".to_string());

    logs.push("self_fn_two_args".to_string());
    logs.push("self_fn_two_args(an_arg: 1, another_arg: 2)".to_string());
    logs.push("self_fn_two_args".to_string());
    logs.push("self_fn_two_args(an_arg: 1, another_arg: 2)".to_string());

    logs.push("mut_self_fn_no_args".to_string());
    logs.push("mut_self_fn_no_args() pred: bob.near".to_string());
    logs.push("mut_self_fn_no_args".to_string());
    logs.push("mut_self_fn_no_args() pred: bob.near, deposit: 0".to_string());
    logs.push("priv_self".to_string());
    logs.push("priv_self(_an_arg: false)".to_string());

    logs.push("mut_self_fn_one_arg".to_string());
    logs.push("mut_self_fn_one_arg(an_arg: true) pred: bob.near".to_string());
    logs.push("mut_self_fn_one_arg".to_string());
    logs.push("mut_self_fn_one_arg(an_arg: true) pred: bob.near".to_string());

    logs.push("trait_method".to_string());
    logs.push("trait_method(arg: 2)".to_string());

    let mut env_logs: Vec<String> = Vec::new();
    env_logs.extend(lines_of(&default_impl.methods[0], &[]));
    env_logs.extend(lines_of(method(&model, "new"), &[]));
    env_logs.extend(lines_of(method(&model, "self_fn_no_args"), &[]));
    env_logs.extend(lines_of(
        method(&model, "self_fn_str_arg"),
        &[bind("str_arg", FieldValue::Str("a value".to_string()))],
    ));
    env_logs.extend(lines_of(method(&model, "self_fn_skip_args"), &[]));
    env_logs.extend(lines_of(
        method(&model, "self_fn_two_args"),
        &[
            bind("an_arg", FieldValue::UInt(1)),
            bind("another_arg", FieldValue::UInt(2)),
        ],
    ));
    env_logs.extend(lines_of(method(&model, "mut_self_fn_no_args"), &[]));
    env_logs.extend(lines_of(
        method(&model, "priv_self"),
        &[bind("_an_arg", FieldValue::Bool(false))],
    ));
    env_logs.extend(lines_of(
        method(&model, "mut_self_fn_one_arg"),
        &[bind("an_arg", FieldValue::Bool(true))],
    ));
    env_logs.extend(lines_of(
        method(&trait_block, "trait_method"),
        &[bind("arg", FieldValue::UInt(2))],
    ));

    for log_line in &env_logs {
        println!("{}", log_line);
    }

    for i in 0..logs.len() {
        assert_eq!(logs[i], env_logs[i]);
    }

    assert_eq!(logs, env_logs);
}
