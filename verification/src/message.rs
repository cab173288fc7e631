//! The tagged-variant message synthesizer: extracting each variant's message
//! template, generating the rendering arms, and building the abort payload
//! that pairs the value's serialized shape with its rendered message.

use crate::model::{
    Attr, AttrV, Decl, DeclV, FieldValue, FieldValueV, GenError, JsonField, JsonFieldV,
    UnionValue, UnionValueV, VariantDeclV,
};
use crate::placeholders::spec_fill;
use crate::text::{
    spec_bool_str, spec_dec, spec_quoted, spec_trim, spec_unquote, str_eq, strip_quotes, trim,
    uint_to_dec,
};
use vstd::prelude::*;

verus! {

// ---------------------------------------------------------------------------
// Template extraction
// ---------------------------------------------------------------------------

/// The message template carried by the first `panic_msg` attribute whose
/// payload is a quoted literal: the literal unquoted and trimmed.
pub open spec fn spec_panic_msg(attrs: Seq<AttrV>) -> Option<Seq<char>>
    decreases attrs.len(),
{
    if attrs.len() == 0 {
        None
    } else if attrs[0].name == "panic_msg"@ && attrs[0].lit is Some && spec_quoted(
        attrs[0].lit->0,
    ) {
        Some(spec_trim(spec_unquote(attrs[0].lit->0)))
    } else {
        spec_panic_msg(attrs.drop_first())
    }
}

/// Extracts the message template from a variant's attributes.
pub fn get_panic_msg(attrs: &Vec<Attr>) -> (r: Option<String>)
    ensures
        r.deep_view() == spec_panic_msg(attrs.deep_view()),
{
    let ghost av = attrs.deep_view();
    let n = attrs.len();
    let mut i: usize = 0;
    proof {
        assert(av.skip(0) =~= av);
    }
    while i < n
        invariant
            i <= n,
            n == attrs@.len(),
            av == attrs.deep_view(),
            spec_panic_msg(av) == spec_panic_msg(av.skip(i as int)),
        decreases n - i,
    {
        let ghost rest = av.skip(i as int);
        proof {
            assert(rest[0] == av[i as int]);
            assert(av[i as int] == attrs@[i as int]@);
            assert(rest.drop_first() =~= av.skip(i as int + 1));
        }
        let found = str_eq(attrs[i].name.as_str(), "panic_msg");
        if found {
            match &attrs[i].lit {
                Some(l) => {
                    match strip_quotes(l.as_str()) {
                        Some(inner) => {
                            let t = trim(inner);
                            return Some(String::from_str(t));
                        },
                        None => {},
                    }
                },
                None => {},
            }
        }
        i += 1;
    }
    None
}

// ---------------------------------------------------------------------------
// The generated rendering arms
// ---------------------------------------------------------------------------

/// One arm of the generated rendering function: the variant's identifier,
/// its bound field names, and its message template.
#[derive(Debug, Clone)]
pub struct MsgArm {
    pub variant: String,
    pub fields: Vec<String>,
    pub template: String,
}

#[verifier::ext_equal]
pub struct MsgArmV {
    pub variant: Seq<char>,
    pub fields: Seq<Seq<char>>,
    pub template: Seq<char>,
}

impl View for MsgArm {
    type V = MsgArmV;

    open spec fn view(&self) -> MsgArmV {
        MsgArmV {
            variant: self.variant@,
            fields: self.fields.deep_view(),
            template: self.template@,
        }
    }
}

impl DeepView for MsgArm {
    type V = MsgArmV;

    open spec fn deep_view(&self) -> MsgArmV {
        self@
    }
}

/// The generated rendering function for one union: its name and one arm per
/// variant, in declaration order.
#[derive(Debug, Clone)]
pub struct MsgImpl {
    pub union_name: String,
    pub arms: Vec<MsgArm>,
}

#[verifier::ext_equal]
pub struct MsgImplV {
    pub union_name: Seq<char>,
    pub arms: Seq<MsgArmV>,
}

impl View for MsgImpl {
    type V = MsgImplV;

    open spec fn view(&self) -> MsgImplV {
        MsgImplV { union_name: self.union_name@, arms: self.arms.deep_view() }
    }
}

/// The arm generated for one variant that carries a template.
pub open spec fn spec_arm(v: VariantDeclV) -> MsgArmV {
    MsgArmV { variant: v.name, fields: v.fields, template: spec_panic_msg(v.attrs)->0 }
}

/// Every variant carries a message template.
pub open spec fn all_have_templates(vs: Seq<VariantDeclV>) -> bool {
    forall|i: int| 0 <= i < vs.len() ==> spec_panic_msg((#[trigger] vs[i]).attrs) is Some
}

fn clone_strings(v: &Vec<String>) -> (r: Vec<String>)
    ensures
        r.deep_view() == v.deep_view(),
{
    let mut r: Vec<String> = Vec::new();
    let n = v.len();
    let mut i: usize = 0;
    while i < n
        invariant
            i <= n,
            n == v@.len(),
            r.deep_view() =~= v.deep_view().take(i as int),
        decreases n - i,
    {
        let ghost r0 = r.deep_view();
        r.push(v[i].clone());
        proof {
            assert(r.deep_view() =~= r0.push(v@[i as int]@));
            assert(v.deep_view().take(i as int + 1) =~= v.deep_view().take(i as int).push(
                v.deep_view()[i as int],
            ));
        }
        i += 1;
    }
    proof {
        assert(v.deep_view().take(n as int) =~= v.deep_view());
    }
    r
}

/// Synthesizes the rendering arms for a tagged union: one arm per variant,
/// each pairing the variant's fields with its message template. Rejects a
/// declaration that is not a tagged union, and a union any of whose variants
/// lacks a template.
pub fn near_panic(item: Decl) -> (r: Result<MsgImpl, GenError>)
    ensures
        match item@ {
            DeclV::Union(u) => {
                if all_have_templates(u.variants) {
                    r matches Ok(m) && m@.union_name == u.name && m@.arms.len()
                        == u.variants.len() && forall|i: int|
                        0 <= i < u.variants.len() ==> #[trigger] m@.arms[i] == spec_arm(
                            u.variants[i],
                        )
                } else {
                    r == Result::<MsgImpl, GenError>::Err(GenError::MissingMsgTemplate)
                }
            },
            _ => r == Result::<MsgImpl, GenError>::Err(GenError::ExpectedUnion),
        },
{
    match item {
        Decl::Union(u) => {
            let ghost uv = u@;
            let mut arms: Vec<MsgArm> = Vec::new();
            let n = u.variants.len();
            let mut i: usize = 0;
            while i < n
                invariant
                    i <= n,
                    n == u.variants@.len(),
                    uv == u@,
                    item@ == DeclV::Union(uv),
                    arms.deep_view().len() == i,
                    forall|j: int|
                        0 <= j < i ==> spec_panic_msg((#[trigger] uv.variants[j]).attrs) is Some,
                    forall|j: int|
                        0 <= j < i ==> #[trigger] arms.deep_view()[j] == spec_arm(uv.variants[j]),
                decreases n - i,
            {
                let ghost a0 = arms.deep_view();
                let var = &u.variants[i];
                proof {
                    assert(var@ == uv.variants[i as int]);
                }
                match get_panic_msg(&var.attrs) {
                    Some(template) => {
                        let arm = MsgArm {
                            variant: var.name.clone(),
                            fields: clone_strings(&var.fields),
                            template,
                        };
                        proof {
                            assert(arm@ =~= spec_arm(uv.variants[i as int]));
                        }
                        arms.push(arm);
                        proof {
                            assert(arms.deep_view() =~= a0.push(arm@));
                        }
                    },
                    None => {
                        proof {
                            assert(spec_panic_msg((uv.variants[i as int]).attrs) is None);
                            assert(!all_have_templates(uv.variants));
                        }
                        return Err(GenError::MissingMsgTemplate);
                    },
                }
                i += 1;
            }
            let r = MsgImpl { union_name: u.name, arms };
            Ok(r)
        },
        _ => Err(GenError::ExpectedUnion),
    }
}

// ---------------------------------------------------------------------------
// Rendering a variant value
// ---------------------------------------------------------------------------

/// How the generated code displays one field value.
pub open spec fn spec_render_field(v: FieldValueV) -> Seq<char> {
    match v {
        FieldValueV::UInt(n) => spec_dec(n as nat),
        FieldValueV::Str(s) => s,
        FieldValueV::Bool(b) => spec_bool_str(b),
    }
}

/// The display forms of a value list, in order.
pub open spec fn spec_rendered_fields(vs: Seq<FieldValueV>) -> Seq<Seq<char>>
    decreases vs.len(),
{
    if vs.len() == 0 {
        Seq::empty()
    } else {
        seq![spec_render_field(vs[0])] + spec_rendered_fields(vs.drop_first())
    }
}

/// Renders one field value the way a display formatter would.
pub fn render_field(v: &FieldValue) -> (r: String)
    ensures
        r@ == spec_render_field(v@),
{
    match v {
        FieldValue::UInt(n) => uint_to_dec(*n),
        FieldValue::Str(s) => s.clone(),
        FieldValue::Bool(b) => String::from_str(if *b {
            "true"
        } else {
            "false"
        }),
    }
}

/// Renders a value list, in order.
pub fn render_fields(vs: &Vec<FieldValue>) -> (r: Vec<String>)
    ensures
        r.deep_view() == spec_rendered_fields(vs.deep_view()),
{
    let ghost fv = vs.deep_view();
    let mut r: Vec<String> = Vec::new();
    let n = vs.len();
    let mut i: usize = 0;
    proof {
        assert(fv.skip(0) =~= fv);
        assert(r.deep_view() + spec_rendered_fields(fv) =~= spec_rendered_fields(fv));
    }
    while i < n
        invariant
            i <= n,
            n == vs@.len(),
            fv == vs.deep_view(),
            spec_rendered_fields(fv) == r.deep_view() + spec_rendered_fields(fv.skip(i as int)),
        decreases n - i,
    {
        let ghost rest = fv.skip(i as int);
        let ghost r0 = r.deep_view();
        proof {
            assert(rest[0] == fv[i as int]);
            assert(fv[i as int] == vs@[i as int]@);
            assert(rest.drop_first() =~= fv.skip(i as int + 1));
        }
        let s = render_field(&vs[i]);
        r.push(s);
        proof {
            assert(r.deep_view() =~= r0.push(spec_render_field(fv[i as int])));
            assert(r0 + (seq![spec_render_field(rest[0])] + spec_rendered_fields(
                fv.skip(i as int + 1),
            )) =~= r.deep_view() + spec_rendered_fields(fv.skip(i as int + 1)));
        }
        i += 1;
    }
    proof {
        assert(fv.skip(n as int) =~= Seq::<FieldValueV>::empty());
        assert(r.deep_view() + spec_rendered_fields(fv.skip(n as int)) =~= r.deep_view());
    }
    r
}

/// The first arm whose variant identifier matches.
pub open spec fn spec_find_arm(arms: Seq<MsgArmV>, variant: Seq<char>) -> Option<MsgArmV>
    decreases arms.len(),
{
    if arms.len() == 0 {
        None
    } else if arms[0].variant == variant {
        Some(arms[0])
    } else {
        spec_find_arm(arms.drop_first(), variant)
    }
}

/// The message the generated rendering function produces for `v`: the
/// matching arm's template with the value's fields interpolated in
/// declaration order.
pub open spec fn spec_msg(arms: Seq<MsgArmV>, v: UnionValueV) -> Seq<char> {
    spec_fill((spec_find_arm(arms, v.variant)->0).template, spec_rendered_fields(v.fields))
}

/// The value is a value of the union the arms were generated for: its
/// variant has an arm, and it carries one value per declared field.
pub open spec fn value_fits(arms: Seq<MsgArmV>, v: UnionValueV) -> bool {
    spec_find_arm(arms, v.variant) matches Some(a) ==> a.fields.len() == v.fields.len()
}

/// Renders the message for `v`, or reports that no arm matches its variant.
/// Mirroring the generated match, the fields are interpolated positionally.
pub fn render_msg(m: &MsgImpl, v: &UnionValue) -> (r: Option<String>)
    requires
        value_fits(m@.arms, v@),
    ensures
        r is Some <==> spec_find_arm(m@.arms, v@.variant) is Some,
        r matches Some(s) ==> s@ == spec_msg(m@.arms, v@),
{
    let ghost av = m@.arms;
    let n = m.arms.len();
    let mut i: usize = 0;
    proof {
        assert(av.skip(0) =~= av);
    }
    while i < n
        invariant
            i <= n,
            n == m.arms@.len(),
            av == m@.arms,
            spec_find_arm(av, v@.variant) == spec_find_arm(av.skip(i as int), v@.variant),
        decreases n - i,
    {
        let ghost rest = av.skip(i as int);
        proof {
            assert(rest[0] == av[i as int]);
            assert(av[i as int] == m.arms@[i as int]@);
            assert(rest.drop_first() =~= av.skip(i as int + 1));
        }
        if str_eq(m.arms[i].variant.as_str(), v.variant.as_str()) {
            let vals = render_fields(&v.fields);
            let line = crate::placeholders::fill(m.arms[i].template.as_str(), &vals);
            return Some(line);
        }
        i += 1;
    }
    proof {
        assert(av.skip(n as int) =~= Seq::<MsgArmV>::empty());
    }
    None
}

/// Purity law: message rendering is a function of the variant tag and field
/// values alone; rendering equal values with equal arms yields equal text.
pub proof fn lemma_render_pure(
    arms1: Seq<MsgArmV>,
    arms2: Seq<MsgArmV>,
    v1: UnionValueV,
    v2: UnionValueV,
)
    requires
        arms1 == arms2,
        v1 == v2,
    ensures
        spec_msg(arms1, v1) == spec_msg(arms2, v2),
{
}

// ---------------------------------------------------------------------------
// The abort payload
// ---------------------------------------------------------------------------

/// Builds the abort payload for `v`: exactly the value's own serialized
/// shape, handed in by the serialization collaborator, with one sibling
/// `msg` field appended whose value is the rendered message.
pub fn panic_payload(m: &MsgImpl, shape: Vec<JsonField>, v: &UnionValue) -> (r: Option<
    Vec<JsonField>,
>)
    requires
        value_fits(m@.arms, v@),
    ensures
        r is Some <==> spec_find_arm(m@.arms, v@.variant) is Some,
        r matches Some(p) ==> p.deep_view() == shape.deep_view() + seq![
            (JsonFieldV { key: "msg"@, value: FieldValueV::Str(spec_msg(m@.arms, v@)) }),
        ],
{
    let ghost shape0 = shape.deep_view();
    match render_msg(m, v) {
        Some(msg) => {
            let mut p = shape;
            p.push(JsonField { key: String::from_str("msg"), value: FieldValue::Str(msg) });
            proof {
                assert(p.deep_view() =~= shape0 + seq![
                    (JsonFieldV { key: "msg"@, value: FieldValueV::Str(spec_msg(m@.arms, v@)) }),
                ]);
            }
            Some(p)
        },
        None => None,
    }
}

} // verus!
