//! Reading markers off declarations: finding an attribute by the tail of its
//! path, testing a scope-level marker argument, and resolving both into
//! configuration records. The two free-standing markers that generate no
//! code by themselves are here as well.

use crate::model::{Attr, AttrV, Decl, MarkerSet, ScopeMarkers};
use crate::text::{spec_ends_with, str_ends_with, str_eq};
use vstd::prelude::*;

verus! {

/// The index of the first attribute whose path ends with `attr_name`.
pub open spec fn spec_has_attr(attrs: Seq<AttrV>, attr_name: Seq<char>) -> Option<int>
    decreases attrs.len(),
{
    if attrs.len() == 0 {
        None
    } else if spec_ends_with(attrs[0].name, attr_name) {
        Some(0)
    } else {
        match spec_has_attr(attrs.drop_first(), attr_name) {
            Some(i) => Some(i + 1),
            None => None,
        }
    }
}

/// What `spec_has_attr` finds: the first match, or the absence of any.
pub proof fn lemma_has_attr_first_match(attrs: Seq<AttrV>, attr_name: Seq<char>)
    ensures
        match spec_has_attr(attrs, attr_name) {
            Some(i) => 0 <= i < attrs.len() && spec_ends_with(attrs[i].name, attr_name)
                && forall|j: int| 0 <= j < i ==> !spec_ends_with(attrs[j].name, attr_name),
            None => forall|j: int|
                0 <= j < attrs.len() ==> !spec_ends_with(attrs[j].name, attr_name),
        },
    decreases attrs.len(),
{
    if attrs.len() > 0 && !spec_ends_with(attrs[0].name, attr_name) {
        let rest = attrs.drop_first();
        lemma_has_attr_first_match(rest, attr_name);
        match spec_has_attr(rest, attr_name) {
            Some(i) => {
                assert forall|j: int| 0 <= j < i + 1 implies !spec_ends_with(
                    attrs[j].name,
                    attr_name,
                ) by {
                    if j >= 1 {
                        assert(rest[j - 1] == attrs[j]);
                        assert(!spec_ends_with(rest[j - 1].name, attr_name));
                    }
                }
            },
            None => {
                assert forall|j: int| 0 <= j < attrs.len() implies !spec_ends_with(
                    attrs[j].name,
                    attr_name,
                ) by {
                    if j >= 1 {
                        assert(rest[j - 1] == attrs[j]);
                        assert(!spec_ends_with(rest[j - 1].name, attr_name));
                    }
                }
            },
        }
    }
}

/// Finds the first attribute whose path ends with `attr_name`.
pub fn has_attr(attrs: &Vec<Attr>, attr_name: &str) -> (r: Option<usize>)
    ensures
        match r {
            Some(i) => spec_has_attr(attrs.deep_view(), attr_name@) == Some(i as int),
            None => spec_has_attr(attrs.deep_view(), attr_name@) is None,
        },
{
    let ghost av = attrs.deep_view();
    let n = attrs.len();
    let mut i: usize = 0;
    while i < n
        invariant
            i <= n,
            n == attrs@.len(),
            av == attrs.deep_view(),
            forall|j: int| 0 <= j < i ==> !spec_ends_with(av[j].name, attr_name@),
        decreases n - i,
    {
        if str_ends_with(attrs[i].name.as_str(), attr_name) {
            proof {
                assert(av[i as int].name == attrs@[i as int]@.name);
                lemma_has_attr_first_match(av, attr_name@);
            }
            return Some(i);
        }
        proof {
            assert(av[i as int].name == attrs@[i as int]@.name);
        }
        i += 1;
    }
    proof {
        lemma_has_attr_first_match(av, attr_name@);
    }
    None
}

/// Some element of `args` is exactly the word `w`.
pub open spec fn spec_contains_arg(args: Seq<Seq<char>>, w: Seq<char>) -> bool {
    exists|i: int| 0 <= i < args.len() && args[i] == w
}

/// Whether the marker's argument list names `attr_arg`.
pub fn contains_attr_arg(attr_args: &Vec<String>, attr_arg: &str) -> (r: bool)
    ensures
        r == spec_contains_arg(attr_args.deep_view(), attr_arg@),
{
    let ghost av = attr_args.deep_view();
    let n = attr_args.len();
    let mut i: usize = 0;
    while i < n
        invariant
            i <= n,
            n == attr_args@.len(),
            av == attr_args.deep_view(),
            forall|j: int| 0 <= j < i ==> av[j] != attr_arg@,
        decreases n - i,
    {
        if str_eq(attr_args[i].as_str(), attr_arg) {
            proof {
                assert(av[i as int] == attr_args@[i as int]@);
            }
            return true;
        }
        proof {
            assert(av[i as int] == attr_args@[i as int]@);
        }
        i += 1;
    }
    false
}

/// The scope-level configuration borne by a marker's argument list.
pub open spec fn spec_scope(args: Seq<Seq<char>>) -> ScopeMarkers {
    ScopeMarkers {
        skip_args: spec_contains_arg(args, "skip_args"@),
        only_pub: spec_contains_arg(args, "only_pub"@),
    }
}

/// Resolves a marker's argument list into the scope configuration.
pub fn resolve_scope(attr_args: &Vec<String>) -> (r: ScopeMarkers)
    ensures
        r == spec_scope(attr_args.deep_view()),
{
    ScopeMarkers {
        skip_args: contains_attr_arg(attr_args, "skip_args"),
        only_pub: contains_attr_arg(attr_args, "only_pub"),
    }
}

/// The per-callable configuration borne by a callable's attributes.
pub open spec fn spec_markers(attrs: Seq<AttrV>) -> MarkerSet {
    MarkerSet {
        skip_args: spec_has_attr(attrs, "near_envlog_skip_args"@) is Some,
        payable: spec_has_attr(attrs, "payable"@) is Some,
        init: spec_has_attr(attrs, "init"@) is Some,
    }
}

/// Resolves a callable's attributes into its configuration record.
pub fn resolve_markers(attrs: &Vec<Attr>) -> (r: MarkerSet)
    ensures
        r == spec_markers(attrs.deep_view()),
{
    MarkerSet {
        skip_args: has_attr(attrs, "near_envlog_skip_args").is_some(),
        payable: has_attr(attrs, "payable").is_some(),
        init: has_attr(attrs, "init").is_some(),
    }
}

/// The message-template marker: it generates no code by itself; its string
/// payload is consumed by the message synthesizer.
pub fn panic_msg(item: Decl) -> (r: Decl)
    ensures
        r == item,
{
    item
}

/// The suppression marker: it generates no code by itself. When
/// instrumentation is enabled for a callable, this marker makes it omit the
/// callable's arguments.
pub fn near_envlog_skip_args(item: Decl) -> (r: Decl)
    ensures
        r == item,
{
    item
}

} // verus!
