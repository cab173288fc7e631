//! The template assembler: accumulates a format template and a parallel list
//! of value references, choosing each clause's separator from an explicit
//! state instead of inspecting the text already built.

use crate::model::ValueRef;
use crate::placeholders::{
    brace_ok, has_no_braces, lemma_brace_concat, lemma_no_braces, lemma_one_placeholder,
    placeholder_count,
};
use vstd::prelude::*;

verus! {

/// Where the template currently ends; this decides the separator written
/// before the next clause.
#[derive(Debug, Clone, Copy, PartialEq, Eq, Structural)]
pub enum SepState {
    /// Just after the opening parenthesis of the parameter clause: the first
    /// item inside the parentheses needs no separator.
    AfterOpen,
    /// Just after the closing parenthesis: a post-signature clause opens a
    /// new space-separated clause.
    AfterClose,
    /// Ordinary text: the next item continues the current clause after a
    /// comma.
    Plain,
}

/// The separator written before a clause appended in state `st`.
pub open spec fn spec_sep(st: SepState) -> Seq<char> {
    match st {
        SepState::AfterOpen => Seq::<char>::empty(),
        SepState::AfterClose => " "@,
        SepState::Plain => ", "@,
    }
}

/// No separator holds a brace.
pub proof fn lemma_sep_no_braces(st: SepState)
    ensures
        has_no_braces(spec_sep(st)),
{
    reveal_strlit(" ");
    reveal_strlit(", ");
}

/// The accumulating format template and its ordered value references.
pub struct ArgsFormatter {
    pub fmt: String,
    pub args: Vec<ValueRef>,
    pub state: SepState,
}

impl ArgsFormatter {
    /// The template's `{}` placeholders match its value references one for
    /// one, and braces occur only as such placeholders.
    pub open spec fn wf(&self) -> bool {
        brace_ok(self.fmt@) && placeholder_count(self.fmt@) == self.args@.len()
    }

    /// Seeds the template with the callable's name.
    pub fn new(method_name: &str) -> (r: Self)
        requires
            has_no_braces(method_name@),
        ensures
            r.fmt@ == method_name@,
            r.args@.len() == 0,
            r.state == SepState::Plain,
            r.wf(),
    {
        proof {
            lemma_no_braces(method_name@);
        }
        ArgsFormatter {
            fmt: String::from_str(method_name),
            args: Vec::new(),
            state: SepState::Plain,
        }
    }

    /// Opens the parenthesized parameter clause.
    pub fn open_paren(&mut self)
        requires
            old(self).wf(),
        ensures
            final(self).fmt@ == old(self).fmt@ + "("@,
            final(self).args@ == old(self).args@,
            final(self).state == SepState::AfterOpen,
            final(self).wf(),
    {
        self.fmt.append("(");
        self.state = SepState::AfterOpen;
        proof {
            reveal_strlit("(");
            lemma_no_braces("("@);
            lemma_brace_concat(old(self).fmt@, "("@);
        }
    }

    /// Closes the parenthesized parameter clause.
    pub fn close_paren(&mut self)
        requires
            old(self).wf(),
        ensures
            final(self).fmt@ == old(self).fmt@ + ")"@,
            final(self).args@ == old(self).args@,
            final(self).state == SepState::AfterClose,
            final(self).wf(),
    {
        self.fmt.append(")");
        self.state = SepState::AfterClose;
        proof {
            reveal_strlit(")");
            lemma_no_braces(")"@);
            lemma_brace_concat(old(self).fmt@, ")"@);
        }
    }

    fn sep_str(&self) -> (r: &'static str)
        ensures
            r@ == spec_sep(self.state),
    {
        match self.state {
            SepState::AfterOpen => {
                proof {
                    reveal_strlit("");
                    assert(""@ =~= Seq::<char>::empty());
                }
                ""
            },
            SepState::AfterClose => " ",
            SepState::Plain => ", ",
        }
    }

    /// Appends one clause: the separator owed to the current state, then
    /// `prefix`, then one `{}` placeholder, recording `value` as the
    /// placeholder's value reference.
    pub fn push(&mut self, prefix: &str, value: ValueRef)
        requires
            old(self).wf(),
            has_no_braces(prefix@),
        ensures
            final(self).fmt@ == old(self).fmt@ + spec_sep(old(self).state) + prefix@ + "{}"@,
            final(self).args@ == old(self).args@.push(value),
            final(self).state == SepState::Plain,
            final(self).wf(),
    {
        let sep = self.sep_str();
        self.fmt.append(sep);
        self.fmt.append(prefix);
        self.fmt.append("{}");
        self.args.push(value);
        self.state = SepState::Plain;
        proof {
            let f0 = old(self).fmt@;
            let s = spec_sep(old(self).state);
            lemma_sep_no_braces(old(self).state);
            lemma_no_braces(s);
            lemma_brace_concat(f0, s);
            lemma_one_placeholder(prefix@);
            lemma_brace_concat(f0 + s, prefix@ + "{}"@);
            assert(f0 + s + (prefix@ + "{}"@) =~= f0 + s + prefix@ + "{}"@);
        }
    }

    /// Appends one `name: value` clause.
    pub fn push_arg(&mut self, name: &str, value: ValueRef)
        requires
            old(self).wf(),
            has_no_braces(name@),
        ensures
            final(self).fmt@ == old(self).fmt@ + spec_sep(old(self).state) + name@ + ": "@
                + "{}"@,
            final(self).args@ == old(self).args@.push(value),
            final(self).state == SepState::Plain,
            final(self).wf(),
    {
        let mut prefix = String::from_str(name);
        prefix.append(": ");
        proof {
            reveal_strlit(": ");
            assert(has_no_braces(name@ + ": "@)) by {
                assert(forall|i: int|
                    0 <= i < (name@ + ": "@).len() ==> (name@ + ": "@)[i] != '{' && (name@
                        + ": "@)[i] != '}') by {
                    assert(forall|i: int|
                        0 <= i < name@.len() ==> (name@ + ": "@)[i] == name@[i]);
                    assert(forall|i: int|
                        name@.len() <= i < (name@ + ": "@).len() ==> (name@ + ": "@)[i] == ": "@[
                            i - name@.len()]);
                };
            };
        }
        self.push(prefix.as_str(), value);
        proof {
            assert(old(self).fmt@ + spec_sep(old(self).state) + (name@ + ": "@) + "{}"@ =~= old(
                self,
            ).fmt@ + spec_sep(old(self).state) + name@ + ": "@ + "{}"@);
        }
    }
}

} // verus!
