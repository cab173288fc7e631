//! The `{}` placeholder discipline of format templates: counting
//! placeholders, the invariant that braces only occur as `{}` pairs, and
//! positional interpolation of values into a template.

use vstd::prelude::*;

verus! {

/// No brace character occurs in `s`; true of identifiers and of the clause
/// prefixes the template assembler appends.
pub open spec fn has_no_braces(s: Seq<char>) -> bool {
    forall|i: int| 0 <= i < s.len() ==> s[i] != '{' && s[i] != '}'
}

/// Every `{` in `s` is immediately followed by `}`, and every `}` closes such
/// a pair: braces occur only as complete `{}` placeholders.
pub open spec fn brace_ok(s: Seq<char>) -> bool
    decreases s.len(),
{
    if s.len() == 0 {
        true
    } else if s[0] == '{' {
        s.len() >= 2 && s[1] == '}' && brace_ok(s.skip(2))
    } else if s[0] == '}' {
        false
    } else {
        brace_ok(s.drop_first())
    }
}

/// The number of `{}` placeholders in `s`, scanned left to right.
pub open spec fn placeholder_count(s: Seq<char>) -> nat
    decreases s.len(),
{
    if s.len() == 0 {
        0
    } else if s.len() >= 2 && s[0] == '{' && s[1] == '}' {
        1 + placeholder_count(s.skip(2))
    } else {
        placeholder_count(s.drop_first())
    }
}

/// A brace-free text is trivially well-braced and has no placeholders.
pub proof fn lemma_no_braces(s: Seq<char>)
    requires
        has_no_braces(s),
    ensures
        brace_ok(s),
        placeholder_count(s) == 0,
    decreases s.len(),
{
    if s.len() > 0 {
        assert(has_no_braces(s.drop_first()));
        lemma_no_braces(s.drop_first());
    }
}

/// Freedom from braces is preserved by concatenation.
pub proof fn lemma_no_braces_concat(a: Seq<char>, b: Seq<char>)
    requires
        has_no_braces(a),
        has_no_braces(b),
    ensures
        has_no_braces(a + b),
{
    assert forall|i: int| 0 <= i < (a + b).len() implies (a + b)[i] != '{' && (a + b)[i]
        != '}' by {
        if i < a.len() {
            assert((a + b)[i] == a[i]);
        } else {
            assert((a + b)[i] == b[i - a.len()]);
        }
    }
}

/// Well-bracedness is preserved by concatenation, and placeholders never span
/// the seam, so their count adds up.
pub proof fn lemma_brace_concat(a: Seq<char>, b: Seq<char>)
    requires
        brace_ok(a),
    ensures
        brace_ok(b) ==> brace_ok(a + b),
        placeholder_count(a + b) == placeholder_count(a) + placeholder_count(b),
    decreases a.len(),
{
    if a.len() == 0 {
        assert(a + b =~= b);
    } else if a[0] == '{' {
        assert((a + b).skip(2) =~= a.skip(2) + b);
        lemma_brace_concat(a.skip(2), b);
    } else {
        assert((a + b).drop_first() =~= a.drop_first() + b);
        lemma_brace_concat(a.drop_first(), b);
    }
}

/// Appending one `{}` pair to a brace-free prefix yields a well-braced text
/// with exactly one placeholder.
pub proof fn lemma_one_placeholder(p: Seq<char>)
    requires
        has_no_braces(p),
    ensures
        brace_ok(p + "{}"@),
        placeholder_count(p + "{}"@) == 1,
{
    reveal_strlit("{}");
    lemma_no_braces(p);
    assert("{}"@.len() == 2 && "{}"@[0] == '{' && "{}"@[1] == '}');
    assert("{}"@.skip(2) =~= Seq::<char>::empty());
    assert(brace_ok(Seq::<char>::empty()));
    assert(placeholder_count(Seq::<char>::empty()) == 0);
    assert(brace_ok("{}"@));
    assert(placeholder_count("{}"@) == 1 + placeholder_count("{}"@.skip(2)));
    lemma_brace_concat(p, "{}"@);
}

/// The result of substituting `vals` for the placeholders of `s`, left to
/// right: each `{}` takes the next value; placeholders beyond the last value
/// stay as they are, and values beyond the last placeholder are unused.
pub open spec fn spec_fill(s: Seq<char>, vals: Seq<Seq<char>>) -> Seq<char>
    decreases s.len(),
{
    if s.len() == 0 {
        s
    } else if s.len() >= 2 && s[0] == '{' && s[1] == '}' {
        if vals.len() > 0 {
            vals[0] + spec_fill(s.skip(2), vals.drop_first())
        } else {
            seq!['{', '}'] + spec_fill(s.skip(2), vals)
        }
    } else {
        seq![s[0]] + spec_fill(s.drop_first(), vals)
    }
}

/// Interpolates `values` into the `{}` placeholders of `template`, in order.
pub fn fill(template: &str, values: &Vec<String>) -> (r: String)
    ensures
        r@ == spec_fill(template@, values.deep_view()),
{
    let ghost vals: Seq<Seq<char>> = values.deep_view();
    let n = template.unicode_len();
    let mut out = String::new();
    let mut i: usize = 0;
    let mut k: usize = 0;
    proof {
        assert(template@.skip(0) =~= template@);
        assert(vals.skip(0) =~= vals);
        assert(out@ + spec_fill(template@, vals) =~= spec_fill(template@, vals));
    }
    while i < n
        invariant
            i <= n,
            k <= values@.len(),
            n == template@.len(),
            vals == values.deep_view(),
            spec_fill(template@, vals) == out@ + spec_fill(
                template@.skip(i as int),
                vals.skip(k as int),
            ),
        decreases n - i,
    {
        let ghost rest = template@.skip(i as int);
        let ghost rvals = vals.skip(k as int);
        let c = template.get_char(i);
        proof {
            assert(rest[0] == template@[i as int]);
        }
        if c == '{' && i + 1 < n && template.get_char(i + 1) == '}' {
            proof {
                assert(rest[1] == template@[i as int + 1]);
                assert(rest.skip(2) =~= template@.skip(i as int + 2));
            }
            if k < values.len() {
                let v: &String = &values[k];
                out.append(v.as_str());
                proof {
                    assert(rvals[0] == values@[k as int]@);
                    assert(rvals.drop_first() =~= vals.skip(k as int + 1));
                }
                i += 2;
                k += 1;
            } else {
                out.append("{}");
                proof {
                    reveal_strlit("{}");
                    assert("{}"@ =~= seq!['{', '}']);
                    assert(rvals.len() == 0);
                }
                i += 2;
            }
        } else {
            let piece = template.substring_char(i, i + 1);
            out.append(piece);
            proof {
                assert(piece@ =~= seq![rest[0]]);
                assert(rest.drop_first() =~= template@.skip(i as int + 1));
                if rest.len() >= 2 && rest[0] == '{' && rest[1] == '}' {
                    assert(template@[i as int + 1] == rest[1]);
                    assert(false);
                }
            }
            i += 1;
        }
    }
    proof {
        assert(template@.skip(n as int) =~= Seq::<char>::empty());
        assert(out@ + Seq::<char>::empty() =~= out@);
    }
    out
}

} // verus!
