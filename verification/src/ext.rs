//! The capability-declaration duplicator: a capability declaration carrying
//! the external-capability marker is emitted twice, once unmodified for the
//! stub generator and once with that marker stripped for local use.

use crate::markers::{has_attr, lemma_has_attr_first_match, spec_has_attr};
use crate::model::{Attr, Decl, DeclV, GenError, TraitDecl, TraitDeclV};
use vstd::prelude::*;

verus! {

fn clone_attr(a: &Attr) -> (r: Attr)
    ensures
        r@ == a@,
{
    let lit = match &a.lit {
        Some(s) => Some(s.clone()),
        None => None,
    };
    Attr { name: a.name.clone(), lit }
}

fn clone_attrs(v: &Vec<Attr>) -> (r: Vec<Attr>)
    ensures
        r.deep_view() == v.deep_view(),
{
    let mut r: Vec<Attr> = Vec::new();
    let n = v.len();
    let mut i: usize = 0;
    while i < n
        invariant
            i <= n,
            n == v@.len(),
            r.deep_view() =~= v.deep_view().take(i as int),
        decreases n - i,
    {
        let ghost r0 = r.deep_view();
        let a = clone_attr(&v[i]);
        r.push(a);
        proof {
            assert(r.deep_view() =~= r0.push(v@[i as int]@));
            assert(v.deep_view().take(i as int + 1) =~= v.deep_view().take(i as int).push(
                v.deep_view()[i as int],
            ));
        }
        i += 1;
    }
    proof {
        assert(v.deep_view().take(n as int) =~= v.deep_view());
    }
    r
}

/// Duplicates a capability declaration that carries the external-capability
/// marker: the first copy is the declaration unmodified, the second is the
/// declaration with that marker removed. Rejects a declaration that is not
/// a capability declaration, and one without the marker.
pub fn near_ext(item: Decl) -> (r: Result<(TraitDecl, TraitDecl), GenError>)
    ensures
        match item@ {
            DeclV::Trait(t) => {
                match spec_has_attr(t.attrs, "ext_contract"@) {
                    Some(i) => r matches Ok(p) && p.0@ == t && p.1@ == (TraitDeclV {
                        name: t.name,
                        attrs: t.attrs.remove(i),
                        items: t.items,
                    }),
                    None => r == Result::<(TraitDecl, TraitDecl), GenError>::Err(
                        GenError::MissingExtMarker,
                    ),
                }
            },
            _ => r == Result::<(TraitDecl, TraitDecl), GenError>::Err(GenError::ExpectedTrait),
        },
{
    match item {
        Decl::Trait(t) => {
            let ghost tv = t@;
            match has_attr(&t.attrs, "ext_contract") {
                Some(i) => {
                    proof {
                        lemma_has_attr_first_match(tv.attrs, "ext_contract"@);
                    }
                    let mut dup_attrs = clone_attrs(&t.attrs);
                    let ghost da0 = dup_attrs.deep_view();
                    dup_attrs.remove(i);
                    let dup = TraitDecl {
                        name: t.name.clone(),
                        attrs: dup_attrs,
                        items: t.items.clone(),
                    };
                    proof {
                        assert(dup.attrs.deep_view() =~= tv.attrs.remove(i as int));
                        assert(dup@ =~= (TraitDeclV {
                            name: tv.name,
                            attrs: tv.attrs.remove(i as int),
                            items: tv.items,
                        }));
                    }
                    Ok((t, dup))
                },
                None => Err(GenError::MissingExtMarker),
            }
        },
        _ => Err(GenError::ExpectedTrait),
    }
}

} // verus!
