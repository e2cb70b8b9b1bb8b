use vstd::prelude::*;
use vstd::string::StringExecFns;
use crate::schema::{GenericParam, GenericParamView, Generics, GenericsView, WherePredicateView};
use crate::text::{copy_texts, extend, join, spec_join, text_of, texts};

verus! {

/// A generic parameter as it stands in a declaration.
pub open spec fn spec_param_text(param: GenericParamView) -> Seq<char> {
    match param {
        GenericParamView::Lifetime { name, text } => text,
        GenericParamView::Type { name, bounds, text } => text,
        GenericParamView::Const { name, text } => text,
    }
}

/// A generic parameter as it stands where the declared item is used: a type
/// parameter loses its bounds and its default.
pub open spec fn spec_param_ident(param: GenericParamView) -> Seq<char> {
    match param {
        GenericParamView::Lifetime { name, text } => text,
        GenericParamView::Type { name, bounds, text } => name,
        GenericParamView::Const { name, text } => text,
    }
}

/// The name of a generic parameter.
pub open spec fn spec_param_name(param: GenericParamView) -> Seq<char> {
    match param {
        GenericParamView::Lifetime { name, text } => name,
        GenericParamView::Type { name, bounds, text } => name,
        GenericParamView::Const { name, text } => name,
    }
}

/// The parameters as they stand in a declaration.
pub open spec fn spec_param_texts(params: Seq<GenericParamView>) -> Seq<Seq<char>> {
    Seq::new(params.len(), |i: int| spec_param_text(params[i]))
}

/// The parameters as they stand where the declared item is used.
pub open spec fn spec_param_idents(params: Seq<GenericParamView>) -> Seq<Seq<char>> {
    Seq::new(params.len(), |i: int| spec_param_ident(params[i]))
}

/// The parameters as used, then `'_` where an elided lifetime is asked for.
pub open spec fn spec_generics_idents(generics: GenericsView, elided_lifetime: bool) -> Seq<Seq<char>> {
    if elided_lifetime {
        spec_param_idents(generics.params).push("'_"@)
    } else {
        spec_param_idents(generics.params)
    }
}

/// The names of the lifetime parameters, in order.
pub open spec fn spec_lifetime_names(params: Seq<GenericParamView>) -> Seq<Seq<char>>
    decreases params.len(),
{
    if params.len() == 0 {
        Seq::empty()
    } else {
        let before = spec_lifetime_names(params.drop_last());
        match params.last() {
            GenericParamView::Lifetime { name, text } => before.push(name),
            _ => before,
        }
    }
}

/// The lifetime parameters as written, in order.
pub open spec fn spec_lifetime_params(params: Seq<GenericParamView>) -> Seq<Seq<char>>
    decreases params.len(),
{
    if params.len() == 0 {
        Seq::empty()
    } else {
        let before = spec_lifetime_params(params.drop_last());
        match params.last() {
            GenericParamView::Lifetime { name, text } => before.push(text),
            _ => before,
        }
    }
}

/// The parameters that are no lifetimes, in order: as declared, or by name
/// as they stand where the declared item is used.
pub open spec fn spec_other_params(params: Seq<GenericParamView>, used: bool) -> Seq<Seq<char>>
    decreases params.len(),
{
    if params.len() == 0 {
        Seq::empty()
    } else {
        let before = spec_other_params(params.drop_last(), used);
        match params.last() {
            GenericParamView::Lifetime { name, text } => before,
            other => before.push(
                if used {
                    spec_param_name(other)
                } else {
                    spec_param_text(other)
                },
            ),
        }
    }
}

/// The parameters of the double as declared: the lifetimes of the
/// interface, the lifetimes that the double adds, then the other parameters
/// of the interface.
pub open spec fn spec_double_params(generics: GenericsView, extra: Seq<Seq<char>>) -> Seq<Seq<char>> {
    spec_lifetime_params(generics.params) + extra + spec_other_params(generics.params, false)
}

/// The parameters of the double by name, as they stand where the double is
/// used: the lifetimes of the interface, the anonymous lifetime for each
/// lifetime that the double adds, then the other parameters.
pub open spec fn spec_double_arguments(generics: GenericsView, added: nat) -> Seq<Seq<char>> {
    spec_lifetime_names(generics.params) + Seq::new(added, |i: int| "'_"@) + spec_other_params(
        generics.params,
        true,
    )
}

/// The items between angle brackets; nothing where there are none.
pub open spec fn spec_angle(items: Seq<Seq<char>>) -> Seq<char> {
    if items.len() == 0 {
        Seq::empty()
    } else {
        "<"@ + spec_join(items, ", "@) + ">"@
    }
}

/// The predicates of a where clause, as written.
pub open spec fn spec_predicate_texts(predicates: Seq<WherePredicateView>) -> Seq<Seq<char>> {
    Seq::new(predicates.len(), |i: int| predicates[i].text)
}

/// The where clause with a space before it; nothing where there are no
/// predicates.
pub open spec fn spec_where_clause(generics: GenericsView) -> Seq<char> {
    spec_where_of(spec_predicate_texts(generics.predicates))
}

/// The parameters as they stand in a declaration.
pub fn param_texts(generics: &Generics) -> (out: Vec<String>)
    ensures
        texts(out@) == spec_param_texts(generics@.params),
{
    let mut out: Vec<String> = Vec::new();
    let mut i: usize = 0;
    while i < generics.params.len()
        invariant
            0 <= i <= generics.params.len(),
            out@.len() == i,
            forall|j: int| 0 <= j < i ==> out@[j]@ == spec_param_text(generics@.params[j]),
        decreases generics.params.len() - i,
    {
        let text = match &generics.params[i] {
            GenericParam::Lifetime { name, text } => text.clone(),
            GenericParam::Type { name, bounds, text } => text.clone(),
            GenericParam::Const { name, text } => text.clone(),
        };
        out.push(text);
        i += 1;
    }
    proof {
        assert(texts(out@) =~= spec_param_texts(generics@.params));
    }
    out
}

/// The parameters as they stand where the declared item is used, then `'_`
/// where an elided lifetime is asked for.
pub fn generics_idents(generics: &Generics, elided_lifetime: bool) -> (out: Vec<String>)
    ensures
        texts(out@) == spec_generics_idents(generics@, elided_lifetime),
{
    let mut out: Vec<String> = Vec::new();
    let mut i: usize = 0;
    while i < generics.params.len()
        invariant
            0 <= i <= generics.params.len(),
            out@.len() == i,
            forall|j: int| 0 <= j < i ==> out@[j]@ == spec_param_ident(generics@.params[j]),
        decreases generics.params.len() - i,
    {
        let text = match &generics.params[i] {
            GenericParam::Lifetime { name, text } => text.clone(),
            GenericParam::Type { name, bounds, text } => name.clone(),
            GenericParam::Const { name, text } => text.clone(),
        };
        out.push(text);
        i += 1;
    }
    if elided_lifetime {
        out.push(text_of("'_"));
    }
    proof {
        assert(texts(out@) =~= spec_generics_idents(generics@, elided_lifetime));
    }
    out
}

/// The names of the lifetime parameters, in order.
pub fn lifetime_names(generics: &Generics) -> (out: Vec<String>)
    ensures
        texts(out@) == spec_lifetime_names(generics@.params),
{
    let mut out: Vec<String> = Vec::new();
    let mut i: usize = 0;
    proof {
        assert(texts(out@) =~= Seq::<Seq<char>>::empty());
    }
    while i < generics.params.len()
        invariant
            0 <= i <= generics.params.len(),
            texts(out@) == spec_lifetime_names(generics@.params.take(i as int)),
        decreases generics.params.len() - i,
    {
        proof {
            let params = generics@.params;
            assert(params.take(i as int + 1).drop_last() =~= params.take(i as int));
            assert(params.take(i as int + 1).last() == params[i as int]);
        }
        let ghost before = texts(out@);
        match &generics.params[i] {
            GenericParam::Lifetime { name, text } => {
                out.push(name.clone());
                proof {
                    assert(texts(out@) =~= before.push(name@));
                }
            },
            _ => {},
        }
        i += 1;
    }
    proof {
        assert(generics@.params.take(generics.params.len() as int) =~= generics@.params);
    }
    out
}

fn lifetime_params(generics: &Generics) -> (out: Vec<String>)
    ensures
        texts(out@) == spec_lifetime_params(generics@.params),
{
    let mut out: Vec<String> = Vec::new();
    let mut i: usize = 0;
    proof {
        assert(texts(out@) =~= Seq::<Seq<char>>::empty());
    }
    while i < generics.params.len()
        invariant
            0 <= i <= generics.params.len(),
            texts(out@) == spec_lifetime_params(generics@.params.take(i as int)),
        decreases generics.params.len() - i,
    {
        proof {
            let params = generics@.params;
            assert(params.take(i as int + 1).drop_last() =~= params.take(i as int));
            assert(params.take(i as int + 1).last() == params[i as int]);
        }
        let ghost before = texts(out@);
        match &generics.params[i] {
            GenericParam::Lifetime { name, text } => {
                out.push(text.clone());
                proof {
                    assert(texts(out@) =~= before.push(text@));
                }
            },
            _ => {},
        }
        i += 1;
    }
    proof {
        assert(generics@.params.take(generics.params.len() as int) =~= generics@.params);
    }
    out
}

fn other_params(generics: &Generics, used: bool) -> (out: Vec<String>)
    ensures
        texts(out@) == spec_other_params(generics@.params, used),
{
    let mut out: Vec<String> = Vec::new();
    let mut i: usize = 0;
    proof {
        assert(texts(out@) =~= Seq::<Seq<char>>::empty());
    }
    while i < generics.params.len()
        invariant
            0 <= i <= generics.params.len(),
            texts(out@) == spec_other_params(generics@.params.take(i as int), used),
        decreases generics.params.len() - i,
    {
        proof {
            let params = generics@.params;
            assert(params.take(i as int + 1).drop_last() =~= params.take(i as int));
            assert(params.take(i as int + 1).last() == params[i as int]);
        }
        let ghost before = texts(out@);
        let found = match &generics.params[i] {
            GenericParam::Lifetime { name, text } => None,
            GenericParam::Type { name, bounds, text } => Some(
                if used {
                    name.clone()
                } else {
                    text.clone()
                },
            ),
            GenericParam::Const { name, text } => Some(
                if used {
                    name.clone()
                } else {
                    text.clone()
                },
            ),
        };
        match found {
            Some(text) => {
                let ghost added = text@;
                out.push(text);
                proof {
                    assert(texts(out@) =~= before.push(added));
                }
            },
            None => {},
        }
        i += 1;
    }
    proof {
        assert(generics@.params.take(generics.params.len() as int) =~= generics@.params);
    }
    out
}

/// The parameters of the double as declared.
pub fn double_params(generics: &Generics, extra: &Vec<String>) -> (out: Vec<String>)
    ensures
        texts(out@) == spec_double_params(generics@, texts(extra@)),
{
    let mut out = lifetime_params(generics);
    extend(&mut out, copy_texts(extra));
    extend(&mut out, other_params(generics, false));
    out
}

/// The parameters of the double by name, as they stand where it is used.
pub fn double_arguments(generics: &Generics, added: usize) -> (out: Vec<String>)
    ensures
        texts(out@) == spec_double_arguments(generics@, added as nat),
{
    let mut out = lifetime_names(generics);
    let mut anonymous: Vec<String> = Vec::new();
    let mut i: usize = 0;
    while i < added
        invariant
            0 <= i <= added,
            anonymous@.len() == i,
            forall|j: int| 0 <= j < i ==> anonymous@[j]@ == "'_"@,
        decreases added - i,
    {
        anonymous.push(text_of("'_"));
        i += 1;
    }
    proof {
        assert(texts(anonymous@) =~= Seq::new(added as nat, |i: int| "'_"@));
    }
    extend(&mut out, anonymous);
    extend(&mut out, other_params(generics, true));
    out
}

/// The items between angle brackets; nothing where there are none.
pub fn angle(items: &Vec<String>) -> (out: String)
    ensures
        out@ == spec_angle(texts(items@)),
{
    if items.len() == 0 {
        String::new()
    } else {
        let mut out = text_of("<");
        let inner = join(items, ", ");
        out.append(inner.as_str());
        out.append(">");
        out
    }
}

/// The predicates of the where clause, as written.
pub fn predicate_texts(generics: &Generics) -> (out: Vec<String>)
    ensures
        texts(out@) == spec_predicate_texts(generics@.predicates),
{
    let mut out: Vec<String> = Vec::new();
    let mut i: usize = 0;
    while i < generics.predicates.len()
        invariant
            0 <= i <= generics.predicates.len(),
            out@.len() == i,
            forall|j: int| 0 <= j < i ==> out@[j]@ == generics@.predicates[j].text,
        decreases generics.predicates.len() - i,
    {
        out.push(generics.predicates[i].text.clone());
        i += 1;
    }
    proof {
        assert(texts(out@) =~= spec_predicate_texts(generics@.predicates));
    }
    out
}

/// The where clause of the predicates, with a space before it; nothing
/// where there are none.
pub open spec fn spec_where_of(predicates: Seq<Seq<char>>) -> Seq<char> {
    if predicates.len() == 0 {
        Seq::empty()
    } else {
        " where "@ + spec_join(predicates, ", "@)
    }
}

/// The where clause of the predicates, with a space before it.
pub fn where_of(predicates: &Vec<String>) -> (out: String)
    ensures
        out@ == spec_where_of(texts(predicates@)),
{
    if predicates.len() == 0 {
        String::new()
    } else {
        let mut out = text_of(" where ");
        let inner = join(predicates, ", ");
        out.append(inner.as_str());
        out
    }
}

/// The where clause of the generics, with a space before it.
pub fn where_clause(generics: &Generics) -> (out: String)
    ensures
        out@ == spec_where_clause(generics@),
{
    where_of(&predicate_texts(generics))
}

} // verus!
