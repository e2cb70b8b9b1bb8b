use vstd::prelude::*;
use vstd::string::StringExecFns;
use crate::error::{ErrorView, GenerationError};
use crate::generate_spy_struct::{lifetime_set, spec_cfg, spec_extra_lifetimes, spec_spy_name};
use crate::generics::{
    angle, double_arguments, param_texts, spec_angle, spec_double_arguments, spec_param_texts,
    spec_where_clause, where_clause,
};
use crate::resolve::{
    plan, resolutions_view, resolved_view, spec_plan, Plan, PlanView, ResolutionView, Resolved,
    ResolvedView,
};
use crate::schema::{InterfaceDeclaration, InterfaceView};
use crate::text::{join, spec_join, texts};

verus! {

/// The initial value of the field of a spied method: a channel that knows
/// the method by name.
pub open spec fn spec_function_as_default(member: ResolvedView) -> Option<Seq<char>> {
    match member {
        ResolvedView::Spied { name, lifetimes, arguments, output } => Some(
            name + ": autospy::SpyFunction::from(\""@ + name + "\")"@,
        ),
        _ => None,
    }
}

/// The initial values that the members give, in member order.
pub open spec fn spec_defaults_of(members: Seq<ResolvedView>) -> Seq<Seq<char>>
    decreases members.len(),
{
    if members.len() == 0 {
        Seq::empty()
    } else {
        let before = spec_defaults_of(members.drop_last());
        match spec_function_as_default(members.last()) {
            Some(text) => before.push(text),
            None => before,
        }
    }
}

/// The initial values that the inline supertraits give, supertrait after
/// supertrait.
pub open spec fn spec_fragment_defaults(fragments: Seq<ResolutionView>) -> Seq<Seq<char>>
    decreases fragments.len(),
{
    if fragments.len() == 0 {
        Seq::empty()
    } else {
        spec_fragment_defaults(fragments.drop_last()) + spec_defaults_of(fragments.last().members)
    }
}

/// The initial value of each field of the double, in field order.
pub open spec fn spec_spy_defaults(plan: PlanView) -> Seq<Seq<char>> {
    spec_defaults_of(plan.primary.members) + spec_fragment_defaults(plan.fragments)
}

/// The implementation of `Default` for the double.
pub open spec fn spec_default_text(
    item_trait: InterfaceView,
    plan: PlanView,
    test_only: bool,
) -> Seq<char> {
    spec_cfg(test_only) + "impl"@ + spec_angle(spec_param_texts(item_trait.generics.params))
        + " Default for "@ + spec_spy_name(item_trait) + spec_angle(
        spec_double_arguments(item_trait.generics, spec_extra_lifetimes(item_trait, plan).len()),
    ) + spec_where_clause(item_trait.generics) + " { fn default() -> Self { Self { "@ + spec_join(
        spec_spy_defaults(plan),
        ", "@,
    ) + " } } }"@
}

/// The implementation of `Default` for the double, or why the interface
/// cannot have one.
pub open spec fn spec_generate_spy_default(item_trait: InterfaceView, test_only: bool) -> Result<
    Seq<char>,
    ErrorView,
> {
    match spec_plan(item_trait) {
        Err(error) => Err(error),
        Ok(plan) => Ok(spec_default_text(item_trait, plan, test_only)),
    }
}

/// The initial value of the field of a spied method.
pub fn function_as_default(member: &Resolved) -> (out: Option<String>)
    ensures
        out.is_some() == spec_function_as_default(member@).is_some(),
        out.is_some() ==> out.unwrap()@ == spec_function_as_default(member@).unwrap(),
{
    match member {
        Resolved::Spied { name, lifetimes, arguments, output } => {
            let mut out = name.clone();
            out.append(": autospy::SpyFunction::from(\"");
            out.append(name.as_str());
            out.append("\")");
            Some(out)
        },
        _ => None,
    }
}

fn generate_spy_defaults(members: &Vec<Resolved>, out: &mut Vec<String>)
    ensures
        texts(final(out)@) == texts(old(out)@) + spec_defaults_of(resolved_view(members@)),
{
    let ghost start = texts(out@);
    let mut i: usize = 0;
    proof {
        assert(texts(out@) =~= start + Seq::<Seq<char>>::empty());
    }
    while i < members.len()
        invariant
            0 <= i <= members.len(),
            texts(out@) == start + spec_defaults_of(resolved_view(members@).take(i as int)),
        decreases members.len() - i,
    {
        let ghost all = resolved_view(members@);
        let ghost before = spec_defaults_of(all.take(i as int));
        proof {
            assert(all.take(i as int + 1).drop_last() =~= all.take(i as int));
            assert(all.take(i as int + 1).last() == members@[i as int]@);
        }
        match function_as_default(&members[i]) {
            Some(text) => {
                let ghost previous = texts(out@);
                let ghost added = text@;
                out.push(text);
                proof {
                    assert(texts(out@) =~= previous.push(added));
                    assert(texts(out@) =~= start + before.push(added));
                }
            },
            None => {},
        }
        i += 1;
    }
    proof {
        assert(resolved_view(members@).take(members.len() as int) =~= resolved_view(members@));
    }
}

fn spy_defaults(plan: &Plan) -> (out: Vec<String>)
    ensures
        texts(out@) == spec_spy_defaults(plan@),
{
    let mut out: Vec<String> = Vec::new();
    generate_spy_defaults(&plan.primary.members, &mut out);
    let ghost own = spec_defaults_of(plan@.primary.members);
    let ghost all = resolutions_view(plan.fragments@);
    let mut k: usize = 0;
    proof {
        assert(texts(out@) =~= own + spec_fragment_defaults(all.take(0)));
    }
    while k < plan.fragments.len()
        invariant
            0 <= k <= plan.fragments.len(),
            all == resolutions_view(plan.fragments@),
            own == spec_defaults_of(plan@.primary.members),
            texts(out@) == own + spec_fragment_defaults(all.take(k as int)),
        decreases plan.fragments.len() - k,
    {
        let ghost before = spec_fragment_defaults(all.take(k as int));
        let ghost added = spec_defaults_of(plan.fragments@[k as int]@.members);
        proof {
            assert(all.take(k as int + 1).drop_last() =~= all.take(k as int));
            assert(all.take(k as int + 1).last() == plan.fragments@[k as int]@);
        }
        generate_spy_defaults(&plan.fragments[k].members, &mut out);
        proof {
            assert(own + (before + added) =~= (own + before) + added);
        }
        k += 1;
    }
    proof {
        assert(all.take(plan.fragments.len() as int) =~= all);
    }
    out
}

/// The implementation of `Default` for the double of a resolved interface.
pub fn default_text(item_trait: &InterfaceDeclaration, plan: &Plan, test_only: bool) -> (out: String)
    ensures
        out@ == spec_default_text(item_trait@, plan@, test_only),
{
    let lifetimes = lifetime_set(item_trait, plan);
    let spy_arguments = double_arguments(&item_trait.generics, lifetimes.extra.len());
    let mut out = crate::inspect::cfg(test_only);
    out.append("impl");
    out.append(angle(&param_texts(&item_trait.generics)).as_str());
    out.append(" Default for ");
    let mut name = item_trait.name.clone();
    name.append("Spy");
    out.append(name.as_str());
    out.append(angle(&spy_arguments).as_str());
    out.append(where_clause(&item_trait.generics).as_str());
    out.append(" { fn default() -> Self { Self { ");
    out.append(join(&spy_defaults(plan), ", ").as_str());
    out.append(" } } }");
    out
}

/// The implementation of `Default` for the double: each field starts as a
/// channel that knows its method by name.
pub fn generate_spy_default(item_trait: &InterfaceDeclaration, test_only: bool) -> (out: Result<
    String,
    GenerationError,
>)
    ensures
        (match out {
            Ok(text) => Ok(text@),
            Err(error) => Err(error@),
        }) == spec_generate_spy_default(item_trait@, test_only),
{
    match plan(item_trait) {
        Err(error) => Err(error),
        Ok(planned) => Ok(default_text(item_trait, &planned, test_only)),
    }
}

} // verus!
