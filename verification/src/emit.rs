//! The run-time meaning of a generated diagnostic statement: what line the
//! host's log primitive receives when the statement executes, given the
//! host environment and the callable's argument values.

use crate::message::{spec_render_field, render_field};
use crate::model::{FieldValueV, JsonField, JsonFieldV, LogStmt, LogStmtV, ValueRef, ValueRefV};
use crate::placeholders::{fill, spec_fill};
use crate::text::{spec_dec, str_eq, uint_to_dec};
use vstd::prelude::*;

verus! {

/// What the host environment supplies to the generated statement: the
/// caller's identity, the attached value, and the build's version string.
#[derive(Debug, Clone)]
pub struct HostEnv {
    pub caller: String,
    pub deposit: u128,
    pub version: String,
}

#[verifier::ext_equal]
pub struct HostEnvV {
    pub caller: Seq<char>,
    pub deposit: u128,
    pub version: Seq<char>,
}

impl View for HostEnv {
    type V = HostEnvV;

    open spec fn view(&self) -> HostEnvV {
        HostEnvV { caller: self.caller@, deposit: self.deposit, version: self.version@ }
    }
}

/// The first binding with the given name.
pub open spec fn spec_lookup(binds: Seq<JsonFieldV>, name: Seq<char>) -> Option<FieldValueV>
    decreases binds.len(),
{
    if binds.len() == 0 {
        None
    } else if binds[0].key == name {
        Some(binds[0].value)
    } else {
        spec_lookup(binds.drop_first(), name)
    }
}

/// The text one value reference contributes at run time: a captured
/// argument's display form, the caller's identity, the attached value in
/// decimal, or the version string. A captured argument with no binding has
/// no value.
pub open spec fn spec_eval_ref(r: ValueRefV, env: HostEnvV, binds: Seq<JsonFieldV>) -> Option<
    Seq<char>,
> {
    match r {
        ValueRefV::Arg(name) => match spec_lookup(binds, name) {
            Some(fv) => Some(spec_render_field(fv)),
            None => None,
        },
        ValueRefV::CallerIdentity => Some(env.caller),
        ValueRefV::AttachedValue => Some(spec_dec(env.deposit as nat)),
        ValueRefV::BuildVersion => Some(env.version),
    }
}

/// The texts of a whole reference list, or nothing if any reference has no
/// value.
pub open spec fn spec_eval_args(args: Seq<ValueRefV>, env: HostEnvV, binds: Seq<JsonFieldV>)
    -> Option<Seq<Seq<char>>>
    decreases args.len(),
{
    if args.len() == 0 {
        Some(Seq::empty())
    } else {
        match spec_eval_ref(args[0], env, binds) {
            Some(first) => match spec_eval_args(args.drop_first(), env, binds) {
                Some(rest) => Some(seq![first] + rest),
                None => None,
            },
            None => None,
        }
    }
}

/// The line the generated statement hands to the host's log primitive: the
/// template with every reference's run-time text interpolated in order.
pub open spec fn spec_emitted(stmt: LogStmtV, env: HostEnvV, binds: Seq<JsonFieldV>) -> Option<
    Seq<char>,
> {
    match spec_eval_args(stmt.args, env, binds) {
        Some(vals) => Some(spec_fill(stmt.fmt, vals)),
        None => None,
    }
}

/// Evaluates one reference at run time.
fn eval_ref(r: &ValueRef, env: &HostEnv, binds: &Vec<JsonField>) -> (out: Option<String>)
    ensures
        out.deep_view() == spec_eval_ref(r@, env@, binds.deep_view()),
{
    match r {
        ValueRef::Arg(name) => {
            let ghost bv = binds.deep_view();
            let n = binds.len();
            let mut i: usize = 0;
            proof {
                assert(bv.skip(0) =~= bv);
            }
            while i < n
                invariant
                    i <= n,
                    n == binds@.len(),
                    bv == binds.deep_view(),
                    r@ == ValueRefV::Arg(name@),
                    spec_lookup(bv, name@) == spec_lookup(bv.skip(i as int), name@),
                decreases n - i,
            {
                let ghost rest = bv.skip(i as int);
                proof {
                    assert(rest[0] == bv[i as int]);
                    assert(bv[i as int] == binds@[i as int]@);
                    assert(rest.drop_first() =~= bv.skip(i as int + 1));
                }
                if str_eq(binds[i].key.as_str(), name.as_str()) {
                    return Some(render_field(&binds[i].value));
                }
                i += 1;
            }
            proof {
                assert(bv.skip(n as int) =~= Seq::<JsonFieldV>::empty());
            }
            None
        },
        ValueRef::CallerIdentity => Some(env.caller.clone()),
        ValueRef::AttachedValue => Some(uint_to_dec(env.deposit)),
        ValueRef::BuildVersion => Some(env.version.clone()),
    }
}

/// Computes the log line the statement emits at run time, or reports that a
/// captured argument has no binding.
pub fn emitted_line(stmt: &LogStmt, env: &HostEnv, binds: &Vec<JsonField>) -> (r: Option<String>)
    ensures
        r.deep_view() == spec_emitted(stmt@, env@, binds.deep_view()),
{
    let ghost sa = stmt@.args;
    let ghost bv = binds.deep_view();
    let n = stmt.args.len();
    let mut vals: Vec<String> = Vec::new();
    let mut i: usize = 0;
    proof {
        assert(sa.skip(0) =~= sa);
    }
    while i < n
        invariant
            i <= n,
            n == stmt.args@.len(),
            sa == stmt@.args,
            bv == binds.deep_view(),
            spec_eval_args(sa, env@, bv) == (match spec_eval_args(sa.skip(i as int), env@, bv) {
                Some(rest) => Some(vals.deep_view() + rest),
                None => None::<Seq<Seq<char>>>,
            }),
        decreases n - i,
    {
        let ghost rest = sa.skip(i as int);
        let ghost v0 = vals.deep_view();
        proof {
            assert(rest[0] == sa[i as int]);
            assert(sa[i as int] == stmt.args@[i as int]@);
            assert(rest.drop_first() =~= sa.skip(i as int + 1));
        }
        match eval_ref(&stmt.args[i], env, binds) {
            Some(s) => {
                vals.push(s);
                proof {
                    assert(vals.deep_view() =~= v0.push(spec_eval_ref(rest[0], env@, bv)->0));
                    match spec_eval_args(sa.skip(i as int + 1), env@, bv) {
                        Some(tail) => {
                            assert(v0 + (seq![spec_eval_ref(rest[0], env@, bv)->0] + tail)
                                =~= vals.deep_view() + tail);
                        },
                        None => {},
                    }
                }
            },
            None => {
                return None;
            },
        }
        i += 1;
    }
    proof {
        assert(sa.skip(n as int) =~= Seq::<ValueRefV>::empty());
        assert(spec_eval_args(sa.skip(n as int), env@, bv) == Some(Seq::<Seq<char>>::empty()));
        assert(vals.deep_view() + Seq::<Seq<char>>::empty() =~= vals.deep_view());
    }
    let line = fill(stmt.fmt.as_str(), &vals);
    Some(line)
}

} // verus!
