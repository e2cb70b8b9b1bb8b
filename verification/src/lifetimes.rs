use vstd::prelude::*;
use vstd::string::StrSliceExecFns;
use vstd::string::StringExecFns;
use crate::text::{contains_text, repeat, same_text, spec_repeat, text_of, texts};
use crate::types::{types_view, KindView, TypeExpr, TypeKind, TypeView};

verus! {

/// Whether the lifetime of a reference is left to inference: absent, or `'_`.
pub open spec fn spec_is_elided(lifetime: Option<Seq<char>>) -> bool {
    lifetime is None || lifetime == Some("'_"@)
}

/// Whether one of the types holds a reference whose lifetime is elided.
pub open spec fn spec_any_elided(types: Seq<TypeView>) -> bool
    decreases types,
{
    exists|i: int| 0 <= i < types.len() && spec_has_elided(#[trigger] types[i])
}

/// Whether the type holds, at any depth, a reference whose lifetime is
/// elided.
pub open spec fn spec_has_elided(ty: TypeView) -> bool
    decreases ty,
{
    (match ty.kind {
        KindView::Reference { lifetime, mutable } => spec_is_elided(lifetime),
        _ => false,
    }) || spec_any_elided(ty.children)
}

/// Whether a lifetime belongs to one call only: the method declares it and
/// the interface does not.
pub open spec fn spec_is_local(
    name: Seq<char>,
    method: Seq<Seq<char>>,
    interface: Seq<Seq<char>>,
) -> bool {
    method.contains(name) && !interface.contains(name)
}

/// The lifetime that stands for the given one in a type that outlives the
/// call.
pub open spec fn spec_settled(
    name: Seq<char>,
    method: Seq<Seq<char>>,
    interface: Seq<Seq<char>>,
) -> Seq<char> {
    if spec_is_local(name, method, interface) {
        "'static"@
    } else {
        name
    }
}

/// The node as a field of the double can hold it.
pub open spec fn spec_reconcile_kind(
    kind: KindView,
    method: Seq<Seq<char>>,
    interface: Seq<Seq<char>>,
    fresh: Seq<char>,
) -> KindView {
    match kind {
        KindView::Reference { lifetime, mutable } => KindView::Reference {
            lifetime: if spec_is_elided(lifetime) {
                Some(fresh)
            } else {
                Some(spec_settled(lifetime.unwrap(), method, interface))
            },
            mutable,
        },
        KindView::Lifetime { name } => KindView::Lifetime {
            name: spec_settled(name, method, interface),
        },
        _ => kind,
    }
}

/// The types as a field of the double can hold them.
pub open spec fn spec_reconcile_all(
    types: Seq<TypeView>,
    method: Seq<Seq<char>>,
    interface: Seq<Seq<char>>,
    fresh: Seq<char>,
) -> Seq<TypeView>
    decreases types,
{
    Seq::new(types.len(), |i: int|
        if 0 <= i < types.len() {
            spec_reconcile(types[i], method, interface, fresh)
        } else {
            types[i]
        })
}

/// The type as a field of the double can hold it: each elided reference
/// names the fresh lifetime, and each lifetime of one call only is `'static`.
pub open spec fn spec_reconcile(
    ty: TypeView,
    method: Seq<Seq<char>>,
    interface: Seq<Seq<char>>,
    fresh: Seq<char>,
) -> TypeView
    decreases ty,
{
    TypeView {
        kind: spec_reconcile_kind(ty.kind, method, interface, fresh),
        children: spec_reconcile_all(ty.children, method, interface, fresh),
    }
}

/// The length of the longest of the names.
pub open spec fn spec_longest(names: Seq<Seq<char>>) -> nat
    decreases names.len(),
{
    if names.len() == 0 {
        0
    } else {
        let before = spec_longest(names.drop_last());
        if names.last().len() > before {
            names.last().len()
        } else {
            before
        }
    }
}

/// A lifetime that is none of the taken ones: it is longer than each.
pub open spec fn spec_fresh_lifetime(taken: Seq<Seq<char>>) -> Seq<char> {
    "'spy"@ + spec_repeat("_"@, spec_longest(taken))
}

pub proof fn lemma_longest_bounds(names: Seq<Seq<char>>, index: int)
    requires
        0 <= index < names.len(),
    ensures
        names[index].len() <= spec_longest(names),
    decreases names.len(),
{
    if index < names.len() - 1 {
        lemma_longest_bounds(names.drop_last(), index);
    }
}

pub proof fn lemma_repeat_length(unit: Seq<char>, count: nat)
    ensures
        spec_repeat(unit, count).len() == count * unit.len(),
    decreases count,
{
    if count > 0 {
        lemma_repeat_length(unit, (count - 1) as nat);
        assert(count * unit.len() == (count - 1) * unit.len() + unit.len()) by (nonlinear_arith);
    } else {
        assert(0 * unit.len() == 0) by (nonlinear_arith);
    }
}

/// The fresh lifetime is none of the taken ones.
pub proof fn lemma_fresh_is_new(taken: Seq<Seq<char>>)
    ensures
        !taken.contains(spec_fresh_lifetime(taken)),
{
    reveal_strlit("'spy");
    reveal_strlit("_");
    lemma_repeat_length("_"@, spec_longest(taken));
    assert(spec_longest(taken) * 1 == spec_longest(taken)) by (nonlinear_arith);
    assert forall|i: int| 0 <= i < taken.len() implies taken[i] != spec_fresh_lifetime(taken) by {
        lemma_longest_bounds(taken, i);
    }
}

/// Whether the lifetime of a reference is left to inference.
pub fn is_elided(lifetime: &Option<String>) -> (elided: bool)
    ensures
        elided == spec_is_elided(
            match *lifetime {
                Some(name) => Some(name@),
                None => None,
            },
        ),
{
    match lifetime {
        Some(name) => same_text(name, "'_"),
        None => true,
    }
}

fn any_elided(types: &Vec<TypeExpr>) -> (found: bool)
    ensures
        found == spec_any_elided(types_view(types@)),
    decreases types,
{
    let mut i: usize = 0;
    while i < types.len()
        invariant
            0 <= i <= types.len(),
            forall|j: int| 0 <= j < i ==> !spec_has_elided(#[trigger] types_view(types@)[j]),
        decreases types.len() - i,
    {
        proof {
            assert(types_view(types@)[i as int] == types@[i as int]@);
        }
        if has_elided(&types[i]) {
            return true;
        }
        i += 1;
    }
    false
}

/// Whether the type holds, at any depth, a reference whose lifetime is
/// elided.
pub fn has_elided(ty: &TypeExpr) -> (found: bool)
    ensures
        found == spec_has_elided(ty@),
    decreases ty,
{
    proof {
        assert(types_view(ty.children@) =~= ty@.children);
    }
    let here = match &ty.kind {
        TypeKind::Reference { lifetime, mutable } => is_elided(lifetime),
        _ => false,
    };
    if here {
        true
    } else {
        any_elided(&ty.children)
    }
}

fn settled(name: &String, method: &Vec<String>, interface: &Vec<String>) -> (out: String)
    ensures
        out@ == spec_settled(name@, texts(method@), texts(interface@)),
{
    if contains_text(method, name.as_str()) && !contains_text(interface, name.as_str()) {
        text_of("'static")
    } else {
        name.clone()
    }
}

fn reconcile_kind(
    kind: &TypeKind,
    method: &Vec<String>,
    interface: &Vec<String>,
    fresh: &str,
) -> (out: TypeKind)
    ensures
        out@ == spec_reconcile_kind(kind@, texts(method@), texts(interface@), fresh@),
{
    match kind {
        TypeKind::Reference { lifetime, mutable } => {
            let named = if is_elided(lifetime) {
                text_of(fresh)
            } else {
                match lifetime {
                    Some(name) => settled(name, method, interface),
                    None => text_of(fresh),
                }
            };
            TypeKind::Reference { lifetime: Some(named), mutable: *mutable }
        },
        TypeKind::Lifetime { name } => TypeKind::Lifetime { name: settled(name, method, interface) },
        _ => kind.duplicate(),
    }
}

fn reconcile_all(
    types: &Vec<TypeExpr>,
    method: &Vec<String>,
    interface: &Vec<String>,
    fresh: &str,
) -> (out: Vec<TypeExpr>)
    ensures
        types_view(out@) == spec_reconcile_all(
            types_view(types@),
            texts(method@),
            texts(interface@),
            fresh@,
        ),
    decreases types,
{
    let mut out: Vec<TypeExpr> = Vec::new();
    let mut i: usize = 0;
    while i < types.len()
        invariant
            0 <= i <= types.len(),
            out@.len() == i,
            forall|j: int|
                0 <= j < i ==> out@[j]@ == spec_reconcile(
                    types@[j]@,
                    texts(method@),
                    texts(interface@),
                    fresh@,
                ),
        decreases types.len() - i,
    {
        let settled = reconcile(&types[i], method, interface, fresh);
        out.push(settled);
        i += 1;
    }
    proof {
        assert(types_view(out@) =~= spec_reconcile_all(
            types_view(types@),
            texts(method@),
            texts(interface@),
            fresh@,
        ));
    }
    out
}

/// The type as a field of the double can hold it.
pub fn reconcile(ty: &TypeExpr, method: &Vec<String>, interface: &Vec<String>, fresh: &str) -> (out:
    TypeExpr)
    ensures
        out@ == spec_reconcile(ty@, texts(method@), texts(interface@), fresh@),
    decreases ty,
{
    let kind = reconcile_kind(&ty.kind, method, interface, fresh);
    let children = reconcile_all(&ty.children, method, interface, fresh);
    let out = TypeExpr { kind, children };
    proof {
        assert(types_view(ty.children@) =~= ty@.children);
        assert(types_view(out.children@) =~= out@.children);
    }
    out
}

/// A lifetime that is none of the taken ones.
pub fn fresh_lifetime(taken: &Vec<String>) -> (out: String)
    ensures
        out@ == spec_fresh_lifetime(texts(taken@)),
        !texts(taken@).contains(out@),
{
    let mut longest: usize = 0;
    let mut i: usize = 0;
    while i < taken.len()
        invariant
            0 <= i <= taken.len(),
            longest == spec_longest(texts(taken@).take(i as int)),
        decreases taken.len() - i,
    {
        proof {
            let all = texts(taken@);
            assert(all.take(i as int + 1).drop_last() =~= all.take(i as int));
            assert(all.take(i as int + 1).last() == taken@[i as int]@);
        }
        let length = taken[i].as_str().unicode_len();
        if length > longest {
            longest = length;
        }
        i += 1;
    }
    proof {
        assert(texts(taken@).take(taken.len() as int) =~= texts(taken@));
        lemma_fresh_is_new(texts(taken@));
    }
    let mut out = text_of("'spy");
    let padding = repeat("_", longest);
    out.append(padding.as_str());
    out
}

} // verus!
