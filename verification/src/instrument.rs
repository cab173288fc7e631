//! The instrumentation synthesizer: the signature analyzer, the exact shape
//! of the diagnostic line each callable receives, and the rewrite that
//! prepends the diagnostic-emission statement to a callable's body.

use crate::markers::{resolve_scope, spec_scope};
use crate::model::{
    Callable, CallableV, Decl, DeclV, GenError, ImplBlock, ImplBlockV, LogStmt, LogStmtV, Param,
    ParamV, ScopeMarkers, ValueRef, ValueRefV,
};
use crate::placeholders::{
    brace_ok, has_no_braces, lemma_brace_concat, lemma_no_braces, lemma_no_braces_concat,
    lemma_one_placeholder, placeholder_count,
};
use crate::template::{spec_sep, ArgsFormatter, SepState};
use crate::text::str_eq;
use vstd::prelude::*;

verus! {

// ---------------------------------------------------------------------------
// Signature analysis
// ---------------------------------------------------------------------------

/// The names captured from a parameter list: each parameter bound to a
/// simple identifier, in declaration order. Receivers and other binding
/// shapes are not captured.
pub open spec fn spec_captured(params: Seq<ParamV>) -> Seq<Seq<char>>
    decreases params.len(),
{
    if params.len() == 0 {
        Seq::empty()
    } else {
        let rest = spec_captured(params.drop_first());
        match params[0] {
            ParamV::Named { name } => seq![name] + rest,
            _ => rest,
        }
    }
}

/// Whether the list declares a mutable receiver, starting from `acc`; a
/// later receiver overrides an earlier one.
pub open spec fn spec_mutating_from(params: Seq<ParamV>, acc: bool) -> bool
    decreases params.len(),
{
    if params.len() == 0 {
        acc
    } else {
        let acc2 = match params[0] {
            ParamV::Receiver { mutable } => mutable,
            _ => acc,
        };
        spec_mutating_from(params.drop_first(), acc2)
    }
}

/// The callable is declared with a mutable receiver.
pub open spec fn spec_mutating(params: Seq<ParamV>) -> bool {
    spec_mutating_from(params, false)
}

/// Every captured parameter name is brace-free, as identifiers are.
pub open spec fn params_wf(params: Seq<ParamV>) -> bool {
    forall|i: int|
        0 <= i < params.len() ==> (#[trigger] params[i] matches ParamV::Named { name } ==>
        has_no_braces(name))
}

/// The callable's identifier-shaped parts carry no brace characters.
pub open spec fn callable_wf(c: CallableV) -> bool {
    has_no_braces(c.name) && params_wf(c.params)
}

/// Extracts from a parameter list the ordered captured names and whether the
/// callable has a mutable receiver.
pub fn analyze_signature(params: &Vec<Param>) -> (r: (Vec<String>, bool))
    ensures
        r.0.deep_view() == spec_captured(params.deep_view()),
        r.1 == spec_mutating(params.deep_view()),
{
    let ghost pv = params.deep_view();
    let n = params.len();
    let mut names: Vec<String> = Vec::new();
    let mut is_mut = false;
    let mut j: usize = 0;
    proof {
        assert(pv.skip(0) =~= pv);
        assert(names.deep_view() + spec_captured(pv) =~= spec_captured(pv));
    }
    while j < n
        invariant
            j <= n,
            n == params@.len(),
            pv == params.deep_view(),
            spec_captured(pv) == names.deep_view() + spec_captured(pv.skip(j as int)),
            spec_mutating(pv) == spec_mutating_from(pv.skip(j as int), is_mut),
        decreases n - j,
    {
        let ghost rest = pv.skip(j as int);
        proof {
            assert(rest[0] == pv[j as int]);
            assert(pv[j as int] == params@[j as int]@);
            assert(rest.drop_first() =~= pv.skip(j as int + 1));
        }
        match &params[j] {
            Param::Receiver { mutable } => {
                is_mut = *mutable;
            },
            Param::Named { name } => {
                let ghost names0 = names.deep_view();
                names.push(name.clone());
                proof {
                    assert(names.deep_view() =~= names0.push(name@));
                    assert(spec_captured(rest) == seq![name@] + spec_captured(rest.drop_first()));
                    assert(names0 + (seq![name@] + spec_captured(pv.skip(j as int + 1))) =~= names0.push(
                        name@,
                    ) + spec_captured(pv.skip(j as int + 1)));
                }
            },
            Param::Opaque => {},
        }
        j += 1;
    }
    proof {
        assert(pv.skip(n as int) =~= Seq::<ParamV>::empty());
        assert(names.deep_view() + spec_captured(pv.skip(n as int)) =~= names.deep_view());
    }
    (names, is_mut)
}

// ---------------------------------------------------------------------------
// The shape of the generated diagnostic line
// ---------------------------------------------------------------------------

/// One `name: {}` clause of the parameter list.
pub open spec fn arg_item(name: Seq<char>) -> Seq<char> {
    name + ": "@ + "{}"@
}

/// The parameter clauses, in capture order.
pub open spec fn spec_arg_items(names: Seq<Seq<char>>) -> Seq<Seq<char>>
    decreases names.len(),
{
    if names.len() == 0 {
        Seq::empty()
    } else {
        seq![arg_item(names[0])] + spec_arg_items(names.drop_first())
    }
}

/// The value references of the parameter clauses, in capture order.
pub open spec fn spec_arg_refs(names: Seq<Seq<char>>) -> Seq<ValueRefV>
    decreases names.len(),
{
    if names.len() == 0 {
        Seq::empty()
    } else {
        seq![ValueRefV::Arg(names[0])] + spec_arg_refs(names.drop_first())
    }
}

/// The caller-identity clause.
pub open spec fn pred_item() -> Seq<char> {
    "pred"@ + ": "@ + "{}"@
}

/// The attached-value clause.
pub open spec fn deposit_item() -> Seq<char> {
    "deposit"@ + ": "@ + "{}"@
}

/// The version clause; it renders as `v{}`, with no key label.
pub open spec fn version_item() -> Seq<char> {
    "v"@ + "{}"@
}

/// The post-signature clauses, in their fixed order: caller identity, then
/// attached value, then version.
pub open spec fn spec_post_items(mutating: bool, payable: bool, version: bool) -> Seq<Seq<char>> {
    (if mutating {
        seq![pred_item()]
    } else {
        Seq::empty()
    }) + (if payable {
        seq![deposit_item()]
    } else {
        Seq::empty()
    }) + (if version {
        seq![version_item()]
    } else {
        Seq::empty()
    })
}

/// The value references of the post-signature clauses, in the same order.
pub open spec fn spec_post_refs(mutating: bool, payable: bool, version: bool) -> Seq<ValueRefV> {
    (if mutating {
        seq![ValueRefV::CallerIdentity]
    } else {
        Seq::empty()
    }) + (if payable {
        seq![ValueRefV::AttachedValue]
    } else {
        Seq::empty()
    }) + (if version {
        seq![ValueRefV::BuildVersion]
    } else {
        Seq::empty()
    })
}

/// Clauses rendered one after another: the first after `lead`, each later
/// one after `", "`.
pub open spec fn clauses_tail(items: Seq<Seq<char>>, lead: Seq<char>) -> Seq<char>
    decreases items.len(),
{
    if items.len() == 0 {
        Seq::empty()
    } else {
        lead + items[0] + clauses_tail(items.drop_first(), ", "@)
    }
}

/// The callable requests a version clause: it carries the init marker, or it
/// is the distinguished zero-parameter constructor.
pub open spec fn version_requested(c: CallableV) -> bool {
    c.markers.init || (c.name == "default"@ && c.params.len() == 0)
}

/// The effective argument-skipping choice: the containing scope's, or the
/// callable's own suppression marker.
pub open spec fn spec_skip(c: CallableV, scope_skip: bool) -> bool {
    scope_skip || c.markers.skip_args
}

/// The format template generated for `c`: the callable's name; unless
/// skipped, the parenthesized parameter clauses; then the post-signature
/// clauses, space-separated after a parameter clause and comma-separated
/// otherwise.
pub open spec fn spec_template(c: CallableV, skip: bool) -> Seq<char> {
    let posts = spec_post_items(
        !skip && spec_mutating(c.params),
        c.markers.payable,
        version_requested(c),
    );
    if skip {
        c.name + clauses_tail(posts, ", "@)
    } else {
        c.name + "("@ + clauses_tail(spec_arg_items(spec_captured(c.params)), Seq::empty())
            + ")"@ + clauses_tail(posts, " "@)
    }
}

/// The ordered value references generated for `c`: the captured parameters,
/// then caller identity, attached value and version as requested.
pub open spec fn spec_refs(c: CallableV, skip: bool) -> Seq<ValueRefV> {
    (if skip {
        Seq::empty()
    } else {
        spec_arg_refs(spec_captured(c.params))
    }) + spec_post_refs(!skip && spec_mutating(c.params), c.markers.payable, version_requested(c))
}

/// The diagnostic-emission statement generated for `c`.
pub open spec fn spec_log(c: CallableV, skip: bool) -> LogStmtV {
    LogStmtV { fmt: spec_template(c, skip), args: spec_refs(c, skip) }
}

/// `c` with the diagnostic statement prepended to its body; everything else
/// is unchanged.
pub open spec fn spec_instrument(c: CallableV, scope_skip: bool) -> CallableV {
    CallableV { logs: seq![spec_log(c, spec_skip(c, scope_skip))] + c.logs, ..c }
}

/// Captured names inherit the parameter list's freedom from braces.
pub proof fn lemma_captured_no_braces(params: Seq<ParamV>)
    requires
        params_wf(params),
    ensures
        forall|i: int|
            0 <= i < spec_captured(params).len() ==> has_no_braces(
                #[trigger] spec_captured(params)[i],
            ),
    decreases params.len(),
{
    if params.len() > 0 {
        let rest = params.drop_first();
        assert(params_wf(rest)) by {
            assert(forall|j: int| 0 <= j < rest.len() ==> rest[j] == params[j + 1]);
        }
        lemma_captured_no_braces(rest);
        match params[0] {
            ParamV::Named { name } => {
                assert forall|i: int| 0 <= i < spec_captured(params).len() implies has_no_braces(
                    spec_captured(params)[i],
                ) by {
                    if i == 0 {
                        assert(spec_captured(params)[0] == name);
                    } else {
                        assert(spec_captured(params)[i] == spec_captured(rest)[i - 1]);
                    }
                }
            },
            _ => {
                assert(spec_captured(params) == spec_captured(rest));
            },
        }
    }
}

// ---------------------------------------------------------------------------
// Building the diagnostic statement
// ---------------------------------------------------------------------------

/// Appends one `name: {}` clause per captured name, in order.
fn append_args(fmtr: &mut ArgsFormatter, names: &Vec<String>)
    requires
        old(fmtr).wf(),
        old(fmtr).state == SepState::AfterOpen,
        forall|i: int|
            0 <= i < names.deep_view().len() ==> has_no_braces(#[trigger] names.deep_view()[i]),
    ensures
        final(fmtr).fmt@ == old(fmtr).fmt@ + clauses_tail(
            spec_arg_items(names.deep_view()),
            Seq::<char>::empty(),
        ),
        final(fmtr).args.deep_view() == old(fmtr).args.deep_view() + spec_arg_refs(
            names.deep_view(),
        ),
        final(fmtr).state == (if names.deep_view().len() == 0 {
            SepState::AfterOpen
        } else {
            SepState::Plain
        }),
        final(fmtr).wf(),
{
    let ghost nv = names.deep_view();
    let ghost f0 = fmtr.fmt@;
    let ghost a0 = fmtr.args.deep_view();
    let ghost goal_fmt = f0 + clauses_tail(spec_arg_items(nv), Seq::<char>::empty());
    let ghost goal_args = a0 + spec_arg_refs(nv);
    let n = names.len();
    let mut j: usize = 0;
    proof {
        assert(nv.skip(0) =~= nv);
    }
    while j < n
        invariant
            j <= n,
            n == names@.len(),
            nv == names.deep_view(),
            forall|i: int| 0 <= i < nv.len() ==> has_no_braces(#[trigger] nv[i]),
            goal_fmt == fmtr.fmt@ + clauses_tail(
                spec_arg_items(nv.skip(j as int)),
                spec_sep(fmtr.state),
            ),
            goal_args == fmtr.args.deep_view() + spec_arg_refs(nv.skip(j as int)),
            fmtr.state == (if j == 0 {
                SepState::AfterOpen
            } else {
                SepState::Plain
            }),
            fmtr.wf(),
        decreases n - j,
    {
        let ghost rest = nv.skip(j as int);
        let ghost st0 = fmtr.state;
        let ghost fmt0 = fmtr.fmt@;
        let ghost args0 = fmtr.args.deep_view();
        proof {
            assert(rest[0] == nv[j as int]);
            assert(nv[j as int] == names@[j as int]@);
            assert(rest.drop_first() =~= nv.skip(j as int + 1));
        }
        let name: &String = &names[j];
        fmtr.push_arg(name.as_str(), ValueRef::Arg(name.clone()));
        proof {
            let tail = nv.skip(j as int + 1);
            assert(clauses_tail(spec_arg_items(rest), spec_sep(st0)) == spec_sep(st0) + arg_item(
                rest[0],
            ) + clauses_tail(spec_arg_items(tail), ", "@)) by {
                assert(spec_arg_items(rest) == seq![arg_item(rest[0])] + spec_arg_items(
                    rest.drop_first(),
                ));
                assert(spec_arg_items(rest)[0] == arg_item(rest[0]));
                assert(spec_arg_items(rest).drop_first() =~= spec_arg_items(tail));
            }
            assert(fmtr.fmt@ == fmt0 + spec_sep(st0) + nv[j as int] + ": "@ + "{}"@);
            assert(fmt0 + (spec_sep(st0) + arg_item(rest[0]) + clauses_tail(
                spec_arg_items(tail),
                ", "@,
            )) =~= fmtr.fmt@ + clauses_tail(spec_arg_items(tail), ", "@));
            assert(goal_fmt == fmtr.fmt@ + clauses_tail(
                spec_arg_items(tail),
                spec_sep(SepState::Plain),
            ));
            assert(fmtr.args.deep_view() =~= args0.push(ValueRefV::Arg(nv[j as int])));
            assert(spec_arg_refs(rest) == seq![ValueRefV::Arg(rest[0])] + spec_arg_refs(
                rest.drop_first(),
            ));
            assert(spec_arg_refs(rest).drop_first() =~= spec_arg_refs(tail));
            assert(args0 + (seq![ValueRefV::Arg(rest[0])] + spec_arg_refs(tail)) =~= args0.push(
                ValueRefV::Arg(nv[j as int]),
            ) + spec_arg_refs(tail));
            assert(goal_args == fmtr.args.deep_view() + spec_arg_refs(tail));
        }
        j += 1;
    }
    proof {
        assert(nv.skip(n as int) =~= Seq::<Seq<char>>::empty());
        assert(clauses_tail(spec_arg_items(nv.skip(n as int)), spec_sep(fmtr.state))
            =~= Seq::<char>::empty());
        assert(fmtr.fmt@ + Seq::<char>::empty() =~= fmtr.fmt@);
        assert(fmtr.args.deep_view() + spec_arg_refs(nv.skip(n as int))
            =~= fmtr.args.deep_view());
    }
}

/// One step of the post-signature chain: pushing the clause consumes the
/// head of the remaining item list.
proof fn lemma_posts_step(
    fmt0: Seq<char>,
    fmt1: Seq<char>,
    st0: SepState,
    item: Seq<char>,
    rest: Seq<Seq<char>>,
)
    requires
        fmt1 == fmt0 + spec_sep(st0) + item,
    ensures
        fmt0 + clauses_tail(seq![item] + rest, spec_sep(st0)) == fmt1 + clauses_tail(
            rest,
            spec_sep(SepState::Plain),
        ),
{
    let items = seq![item] + rest;
    assert(items[0] == item);
    assert(items.drop_first() =~= rest);
    assert(clauses_tail(items, spec_sep(st0)) == spec_sep(st0) + item + clauses_tail(
        rest,
        ", "@,
    ));
    assert(fmt0 + (spec_sep(st0) + item + clauses_tail(rest, ", "@)) =~= fmt1 + clauses_tail(
        rest,
        ", "@,
    ));
}

/// Rewrites one callable: builds its diagnostic statement from the effective
/// markers and prepends it to the body, leaving the signature, the
/// visibility and the rest of the body unchanged.
#[verifier::rlimit(100)]
pub fn make_loggable_fn(method: Callable, skip_args: bool) -> (r: Callable)
    requires
        callable_wf(method@),
    ensures
        r@ == spec_instrument(method@, skip_args),
{
    let ghost cv = method@;
    let ghost skip = spec_skip(cv, skip_args);
    let skip_now = skip_args || method.markers.skip_args;
    let mut fmtr = ArgsFormatter::new(method.name.as_str());
    let mut is_mut = false;
    if !skip_now {
        fmtr.open_paren();
        let analyzed = analyze_signature(&method.params);
        let names = analyzed.0;
        is_mut = analyzed.1;
        proof {
            lemma_captured_no_braces(cv.params);
        }
        append_args(&mut fmtr, &names);
        fmtr.close_paren();
    }
    let ghost mutating = !skip && spec_mutating(cv.params);
    let ghost ver = version_requested(cv);
    let ghost pay = cv.markers.payable;
    proof {
        assert(is_mut == mutating);
        // Stage equation: the template and reference list still owed are the
        // post-signature clauses.
        if skip {
            assert(fmtr.state == SepState::Plain);
            assert(Seq::<ValueRefV>::empty() + spec_post_refs(mutating, pay, ver)
                =~= spec_post_refs(mutating, pay, ver));
            assert(fmtr.args.deep_view() =~= Seq::<ValueRefV>::empty());
        } else {
            assert(fmtr.state == SepState::AfterClose);
            assert(fmtr.args.deep_view() =~= spec_arg_refs(spec_captured(cv.params))) by {
                assert(Seq::<ValueRefV>::empty() + spec_arg_refs(spec_captured(cv.params))
                    =~= spec_arg_refs(spec_captured(cv.params)));
            }
        }
        assert(spec_template(cv, skip) == fmtr.fmt@ + clauses_tail(
            spec_post_items(mutating, pay, ver),
            spec_sep(fmtr.state),
        ));
        assert(spec_refs(cv, skip) == fmtr.args.deep_view() + spec_post_refs(mutating, pay, ver));
    }
    if is_mut {
        let ghost st0 = fmtr.state;
        let ghost fmt0 = fmtr.fmt@;
        let ghost args0 = fmtr.args.deep_view();
        proof {
            reveal_strlit("pred");
            assert(has_no_braces("pred"@));
        }
        fmtr.push_arg("pred", ValueRef::CallerIdentity);
        proof {
            assert(spec_post_items(mutating, pay, ver) =~= seq![pred_item()] + spec_post_items(
                false,
                pay,
                ver,
            ));
            assert(fmtr.fmt@ == fmt0 + spec_sep(st0) + pred_item()) by {
                assert(fmt0 + spec_sep(st0) + "pred"@ + ": "@ + "{}"@ =~= fmt0 + spec_sep(st0)
                    + ("pred"@ + ": "@ + "{}"@));
            }
            lemma_posts_step(fmt0, fmtr.fmt@, st0, pred_item(), spec_post_items(false, pay, ver));
            assert(spec_post_refs(mutating, pay, ver) =~= seq![ValueRefV::CallerIdentity]
                + spec_post_refs(false, pay, ver));
            assert(fmtr.args.deep_view() =~= args0.push(ValueRefV::CallerIdentity));
            assert(args0 + (seq![ValueRefV::CallerIdentity] + spec_post_refs(false, pay, ver))
                =~= fmtr.args.deep_view() + spec_post_refs(false, pay, ver));
        }
    }
    proof {
        assert(spec_post_items(false, pay, ver) == spec_post_items(mutating && false, pay, ver));
        assert(spec_template(cv, skip) == fmtr.fmt@ + clauses_tail(
            spec_post_items(false, pay, ver),
            spec_sep(fmtr.state),
        ));
        assert(spec_refs(cv, skip) == fmtr.args.deep_view() + spec_post_refs(false, pay, ver));
    }
    if method.markers.payable {
        let ghost st0 = fmtr.state;
        let ghost fmt0 = fmtr.fmt@;
        let ghost args0 = fmtr.args.deep_view();
        proof {
            reveal_strlit("deposit");
            assert(has_no_braces("deposit"@));
        }
        fmtr.push_arg("deposit", ValueRef::AttachedValue);
        proof {
            assert(spec_post_items(false, pay, ver) =~= seq![deposit_item()] + spec_post_items(
                false,
                false,
                ver,
            ));
            assert(fmtr.fmt@ == fmt0 + spec_sep(st0) + deposit_item()) by {
                assert(fmt0 + spec_sep(st0) + "deposit"@ + ": "@ + "{}"@ =~= fmt0 + spec_sep(st0)
                    + ("deposit"@ + ": "@ + "{}"@));
            }
            lemma_posts_step(
                fmt0,
                fmtr.fmt@,
                st0,
                deposit_item(),
                spec_post_items(false, false, ver),
            );
            assert(spec_post_refs(false, pay, ver) =~= seq![ValueRefV::AttachedValue]
                + spec_post_refs(false, false, ver));
            assert(fmtr.args.deep_view() =~= args0.push(ValueRefV::AttachedValue));
            assert(args0 + (seq![ValueRefV::AttachedValue] + spec_post_refs(false, false, ver))
                =~= fmtr.args.deep_view() + spec_post_refs(false, false, ver));
        }
    }
    proof {
        assert(spec_template(cv, skip) == fmtr.fmt@ + clauses_tail(
            spec_post_items(false, false, ver),
            spec_sep(fmtr.state),
        ));
        assert(spec_refs(cv, skip) == fmtr.args.deep_view() + spec_post_refs(false, false, ver));
    }
    let is_default = method.params.len() == 0 && str_eq(method.name.as_str(), "default");
    if method.markers.init || is_default {
        let ghost st0 = fmtr.state;
        let ghost fmt0 = fmtr.fmt@;
        let ghost args0 = fmtr.args.deep_view();
        proof {
            assert(ver);
            reveal_strlit("v");
            assert(has_no_braces("v"@));
        }
        fmtr.push("v", ValueRef::BuildVersion);
        proof {
            assert(spec_post_items(false, false, ver) =~= seq![version_item()]
                + Seq::<Seq<char>>::empty());
            assert(fmtr.fmt@ == fmt0 + spec_sep(st0) + version_item()) by {
                assert(fmt0 + spec_sep(st0) + "v"@ + "{}"@ =~= fmt0 + spec_sep(st0) + ("v"@
                    + "{}"@));
            }
            lemma_posts_step(fmt0, fmtr.fmt@, st0, version_item(), Seq::<Seq<char>>::empty());
            assert(clauses_tail(Seq::<Seq<char>>::empty(), spec_sep(SepState::Plain))
                =~= Seq::<char>::empty());
            assert(fmtr.fmt@ + Seq::<char>::empty() =~= fmtr.fmt@);
            assert(spec_post_refs(false, false, ver) =~= seq![ValueRefV::BuildVersion]);
            assert(fmtr.args.deep_view() =~= args0.push(ValueRefV::BuildVersion));
            assert(args0 + seq![ValueRefV::BuildVersion] =~= fmtr.args.deep_view());
        }
    } else {
        proof {
            assert(!ver);
            assert(clauses_tail(spec_post_items(false, false, ver), spec_sep(fmtr.state))
                =~= Seq::<char>::empty()) by {
                assert(spec_post_items(false, false, ver) =~= Seq::<Seq<char>>::empty());
            }
            assert(fmtr.fmt@ + Seq::<char>::empty() =~= fmtr.fmt@);
            assert(spec_post_refs(false, false, ver) =~= Seq::<ValueRefV>::empty());
            assert(fmtr.args.deep_view() + Seq::<ValueRefV>::empty() =~= fmtr.args.deep_view());
        }
    }
    proof {
        assert(fmtr.fmt@ == spec_template(cv, skip));
        assert(fmtr.args.deep_view() == spec_refs(cv, skip));
    }
    let stmt = LogStmt { fmt: fmtr.fmt, args: fmtr.args };
    let Callable { name, params, is_public, markers, logs, body } = method;
    let mut new_logs: Vec<LogStmt> = Vec::new();
    new_logs.push(stmt);
    let mut old_logs = logs;
    new_logs.append(&mut old_logs);
    let r = Callable { name, params, is_public, markers, logs: new_logs, body };
    proof {
        assert(r@.logs =~= seq![spec_log(cv, skip)] + cv.logs);
        assert(r@ =~= spec_instrument(cv, skip_args));
    }
    r
}

// ---------------------------------------------------------------------------
// Scope application
// ---------------------------------------------------------------------------

/// How one member of an instrumented scope comes out: left alone when the
/// scope asks for public members only and this one is neither public nor a
/// capability-implementation member; instrumented otherwise.
pub open spec fn spec_member(c: CallableV, scope: ScopeMarkers, is_trait_impl: bool) -> CallableV {
    if scope.only_pub && !c.is_public && !is_trait_impl {
        c
    } else {
        spec_instrument(c, scope.skip_args)
    }
}

/// Every member callable of the block is well shaped.
pub open spec fn impl_wf(b: ImplBlockV) -> bool {
    forall|i: int| 0 <= i < b.methods.len() ==> callable_wf(#[trigger] b.methods[i])
}

/// The declaration shapes the instrumentation generator can receive.
pub open spec fn decl_wf(d: DeclV) -> bool {
    match d {
        DeclV::Impl(b) => impl_wf(b),
        DeclV::Callable(c) => callable_wf(c),
        _ => true,
    }
}

/// Instruments a declaration under the scope markers of `attr_args`: every
/// member of an implementation block (honouring `only_pub`), or a free
/// callable directly; any other declaration shape is rejected.
pub fn near_log(item: Decl, attr_args: &Vec<String>) -> (r: Result<Decl, GenError>)
    requires
        decl_wf(item@),
    ensures
        ({
            let scope = spec_scope(attr_args.deep_view());
            match item@ {
                DeclV::Impl(bv) => r matches Ok(d) && d@ matches DeclV::Impl(rb)
                    && rb.is_trait_impl == bv.is_trait_impl && rb.methods.len()
                    == bv.methods.len() && forall|i: int|
                    0 <= i < bv.methods.len() ==> #[trigger] rb.methods[i] == spec_member(
                        bv.methods[i],
                        scope,
                        bv.is_trait_impl,
                    ),
                DeclV::Callable(cv) => r matches Ok(d) && d@ == DeclV::Callable(
                    spec_member(cv, scope, false),
                ),
                _ => r == Result::<Decl, GenError>::Err(GenError::ExpectedImpl),
            }
        }),
{
    let scope = resolve_scope(attr_args);
    match item {
        Decl::Impl(b) => {
            let ghost bv = b@;
            let ImplBlock { is_trait_impl, methods } = b;
            let mut ms = methods;
            let mut out: Vec<Callable> = Vec::new();
            proof {
                assert(ms.deep_view() =~= bv.methods.skip(0));
            }
            while ms.len() > 0
                invariant
                    out@.len() + ms@.len() == bv.methods.len(),
                    ms.deep_view() == bv.methods.skip(out@.len() as int),
                    forall|i: int|
                        0 <= i < out@.len() ==> #[trigger] out.deep_view()[i] == spec_member(
                            bv.methods[i],
                            scope,
                            is_trait_impl,
                        ),
                    scope == spec_scope(attr_args.deep_view()),
                    impl_wf(bv),
                    is_trait_impl == bv.is_trait_impl,
                decreases ms@.len(),
            {
                let ghost k = out@.len() as int;
                let ghost msv = ms.deep_view();
                let m = ms.remove(0);
                proof {
                    assert(m@ == msv[0]);
                    assert(msv[0] == bv.methods[k]);
                    assert(ms.deep_view() =~= msv.drop_first());
                    assert(msv.drop_first() =~= bv.methods.skip(k + 1));
                    assert(callable_wf(bv.methods[k]));
                }
                let ghost outv0 = out.deep_view();
                let inst = if scope.only_pub && !m.is_public && !is_trait_impl {
                    m
                } else {
                    make_loggable_fn(m, scope.skip_args)
                };
                out.push(inst);
                proof {
                    assert(out.deep_view() =~= outv0.push(inst@));
                    assert(inst@ == spec_member(bv.methods[k], scope, is_trait_impl));
                }
            }
            let r = Decl::Impl(ImplBlock { is_trait_impl, methods: out });
            proof {
                assert(out@.len() == bv.methods.len());
            }
            Ok(r)
        },
        Decl::Callable(c) => {
            let ghost cv = c@;
            let inst = if scope.only_pub && !c.is_public {
                c
            } else {
                make_loggable_fn(c, scope.skip_args)
            };
            proof {
                assert(inst@ == spec_member(cv, scope, false));
            }
            Ok(Decl::Callable(inst))
        },
        _ => Err(GenError::ExpectedImpl),
    }
}


// ---------------------------------------------------------------------------
// Laws of the generated statement
// ---------------------------------------------------------------------------

/// The position of a reference's clause in the fixed clause order.
pub open spec fn ref_rank(r: ValueRefV) -> int {
    match r {
        ValueRefV::Arg(_) => 0,
        ValueRefV::CallerIdentity => 1,
        ValueRefV::AttachedValue => 2,
        ValueRefV::BuildVersion => 3,
    }
}

proof fn lemma_clauses_tail_count(items: Seq<Seq<char>>, lead: Seq<char>)
    requires
        forall|i: int|
            0 <= i < items.len() ==> brace_ok(#[trigger] items[i]) && placeholder_count(items[i])
                == 1,
        has_no_braces(lead),
    ensures
        brace_ok(clauses_tail(items, lead)),
        placeholder_count(clauses_tail(items, lead)) == items.len(),
    decreases items.len(),
{
    lemma_no_braces(lead);
    if items.len() > 0 {
        let rest = items.drop_first();
        assert(forall|i: int| 0 <= i < rest.len() ==> rest[i] == items[i + 1]);
        reveal_strlit(", ");
        assert(has_no_braces(", "@));
        lemma_clauses_tail_count(rest, ", "@);
        lemma_brace_concat(lead, items[0]);
        lemma_brace_concat(lead + items[0], clauses_tail(rest, ", "@));
    }
}

proof fn lemma_arg_items_props(names: Seq<Seq<char>>)
    requires
        forall|i: int| 0 <= i < names.len() ==> has_no_braces(#[trigger] names[i]),
    ensures
        spec_arg_items(names).len() == names.len(),
        forall|i: int|
            0 <= i < names.len() ==> brace_ok(#[trigger] spec_arg_items(names)[i])
                && placeholder_count(spec_arg_items(names)[i]) == 1,
    decreases names.len(),
{
    if names.len() > 0 {
        let rest = names.drop_first();
        assert(forall|i: int| 0 <= i < rest.len() ==> rest[i] == names[i + 1]);
        lemma_arg_items_props(rest);
        reveal_strlit(": ");
        assert(has_no_braces(": "@));
        lemma_no_braces_concat(names[0], ": "@);
        lemma_one_placeholder(names[0] + ": "@);
        assert forall|i: int| 0 <= i < names.len() implies brace_ok(
            #[trigger] spec_arg_items(names)[i],
        ) && placeholder_count(spec_arg_items(names)[i]) == 1 by {
            if i == 0 {
                assert(spec_arg_items(names)[0] == arg_item(names[0]));
            } else {
                assert(spec_arg_items(names)[i] == spec_arg_items(rest)[i - 1]);
            }
        }
    }
}

proof fn lemma_arg_refs_props(names: Seq<Seq<char>>)
    ensures
        spec_arg_refs(names).len() == names.len(),
        forall|i: int| 0 <= i < names.len() ==> (#[trigger] spec_arg_refs(names)[i]) is Arg,
    decreases names.len(),
{
    if names.len() > 0 {
        let rest = names.drop_first();
        lemma_arg_refs_props(rest);
        assert forall|i: int| 0 <= i < names.len() implies (#[trigger] spec_arg_refs(
            names,
        )[i]) is Arg by {
            if i == 0 {
                assert(spec_arg_refs(names)[0] == ValueRefV::Arg(names[0]));
            } else {
                assert(spec_arg_refs(names)[i] == spec_arg_refs(rest)[i - 1]);
            }
        }
    }
}

proof fn lemma_post_props(m: bool, p: bool, v: bool)
    ensures
        spec_post_items(m, p, v).len() == spec_post_refs(m, p, v).len(),
        forall|i: int|
            0 <= i < spec_post_items(m, p, v).len() ==> brace_ok(
                #[trigger] spec_post_items(m, p, v)[i],
            ) && placeholder_count(spec_post_items(m, p, v)[i]) == 1,
        forall|i: int, j: int|
            #![trigger spec_post_refs(m, p, v)[i], spec_post_refs(m, p, v)[j]]
            0 <= i <= j < spec_post_refs(m, p, v).len() ==> 1 <= ref_rank(
                spec_post_refs(m, p, v)[i],
            ) <= ref_rank(spec_post_refs(m, p, v)[j]),
{
    reveal_strlit("pred");
    reveal_strlit("deposit");
    reveal_strlit("v");
    reveal_strlit(": ");
    assert(has_no_braces("pred"@));
    assert(has_no_braces("deposit"@));
    assert(has_no_braces("v"@));
    assert(has_no_braces(": "@));
    lemma_no_braces_concat("pred"@, ": "@);
    lemma_one_placeholder("pred"@ + ": "@);
    lemma_no_braces_concat("deposit"@, ": "@);
    lemma_one_placeholder("deposit"@ + ": "@);
    lemma_one_placeholder("v"@);
    assert(brace_ok(pred_item()) && placeholder_count(pred_item()) == 1);
    assert(brace_ok(deposit_item()) && placeholder_count(deposit_item()) == 1);
    assert(brace_ok(version_item()) && placeholder_count(version_item()) == 1);
}

/// Balance law: the generated template holds exactly one `{}` placeholder
/// per emitted value reference — captured arguments, then the
/// caller-identity, attached-value and version clauses.
pub proof fn lemma_placeholder_balance(c: CallableV, skip: bool)
    requires
        callable_wf(c),
    ensures
        brace_ok(spec_template(c, skip)),
        placeholder_count(spec_template(c, skip)) == spec_refs(c, skip).len(),
{
    let names = spec_captured(c.params);
    let m = !skip && spec_mutating(c.params);
    let p = c.markers.payable;
    let v = version_requested(c);
    let posts = spec_post_items(m, p, v);
    lemma_captured_no_braces(c.params);
    lemma_arg_items_props(names);
    lemma_arg_refs_props(names);
    lemma_post_props(m, p, v);
    lemma_no_braces(c.name);
    reveal_strlit(", ");
    reveal_strlit(" ");
    reveal_strlit("(");
    reveal_strlit(")");
    assert(has_no_braces(", "@));
    assert(has_no_braces(" "@));
    if skip {
        lemma_clauses_tail_count(posts, ", "@);
        lemma_brace_concat(c.name, clauses_tail(posts, ", "@));
    } else {
        assert(has_no_braces(Seq::<char>::empty()));
        lemma_clauses_tail_count(spec_arg_items(names), Seq::<char>::empty());
        lemma_clauses_tail_count(posts, " "@);
        assert(has_no_braces("("@));
        assert(has_no_braces(")"@));
        lemma_no_braces(("("@));
        lemma_no_braces((")"@));
        lemma_brace_concat(c.name, "("@);
        lemma_brace_concat(c.name + "("@, clauses_tail(spec_arg_items(names), Seq::<char>::empty()));
        lemma_brace_concat(
            c.name + "("@ + clauses_tail(spec_arg_items(names), Seq::<char>::empty()),
            ")"@,
        );
        lemma_brace_concat(
            c.name + "("@ + clauses_tail(spec_arg_items(names), Seq::<char>::empty()) + ")"@,
            clauses_tail(posts, " "@),
        );
    }
}

/// Ordering law: the clauses of a generated statement always appear in the
/// fixed order parameters, caller identity, attached value, version,
/// whatever the markers; no permutation is produced.
pub proof fn lemma_clause_order(c: CallableV, skip: bool)
    ensures
        forall|i: int, j: int|
            #![trigger spec_refs(c, skip)[i], spec_refs(c, skip)[j]]
            0 <= i <= j < spec_refs(c, skip).len() ==> ref_rank(spec_refs(c, skip)[i]) <= ref_rank(
                spec_refs(c, skip)[j],
            ),
{
    let refs = spec_refs(c, skip);
    let argpart: Seq<ValueRefV> = if skip {
        Seq::empty()
    } else {
        spec_arg_refs(spec_captured(c.params))
    };
    let m = !skip && spec_mutating(c.params);
    let post = spec_post_refs(m, c.markers.payable, version_requested(c));
    lemma_arg_refs_props(spec_captured(c.params));
    lemma_post_props(m, c.markers.payable, version_requested(c));
    assert forall|i: int, j: int|
        0 <= i <= j < refs.len() implies ref_rank(#[trigger] refs[i]) <= ref_rank(
        #[trigger] refs[j],
    ) by {
        let a = argpart.len() as int;
        if i < a {
            assert(refs[i] == argpart[i]);
            assert(argpart[i] is Arg);
            if j < a {
                assert(refs[j] == argpart[j]);
                assert(argpart[j] is Arg);
            } else {
                assert(refs[j] == post[j - a]);
                assert(1 <= ref_rank(post[j - a])) by {
                    assert(ref_rank(post[j - a]) <= ref_rank(post[j - a]));
                }
            }
        } else {
            assert(refs[i] == post[i - a]);
            assert(refs[j] == post[j - a]);
            assert(1 <= ref_rank(post[i - a]) <= ref_rank(post[j - a]));
        }
    }
}

} // verus!
