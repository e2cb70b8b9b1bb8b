use vstd::prelude::*;
use vstd::string::StringExecFns;
use crate::arguments::{arguments_view, SpyArgument, SpyArgumentView};
use crate::associated_types::{bindings_view, spec_lifetime, AssociatedType, AssociatedTypeView};
use crate::error::{ErrorView, GenerationError};
use crate::generate::{spec_tuple_or_single, tuple_or_single};
use crate::generics::{
    angle, double_params, lifetime_names, spec_angle, spec_double_params, spec_lifetime_names,
    spec_where_clause, where_clause,
};
use crate::lifetimes::{
    fresh_lifetime, has_elided, reconcile, spec_fresh_lifetime, spec_has_elided, spec_reconcile,
};
use crate::resolve::{
    plan, resolutions_view, resolved_view, spec_plan, Plan, PlanView, ResolutionView, Resolved,
    ResolvedView,
};
use crate::schema::{InterfaceDeclaration, InterfaceView};
use crate::text::{contains_text, copy_texts, extend, join, same_text, spec_join, text_of, texts};
use crate::types::{
    duplicate_all, render_all, spec_children_text, spec_type_text, types_view, KindView, TypeExpr,
    TypeKind, TypeView,
};

verus! {

/// The type in which the double stores a captured parameter.
pub open spec fn spec_argument_spy_type(argument: SpyArgumentView) -> TypeView {
    match argument.into_type {
        Some(ty) => ty,
        None => if argument.dereferenced_type.kind is ImplTrait {
            TypeView { kind: KindView::Boxed, children: argument.dereferenced_type.children }
        } else if argument.dereference_count == 0 {
            argument.dereferenced_type
        } else {
            TypeView { kind: KindView::Owned, children: seq![argument.dereferenced_type] }
        },
    }
}

/// The storage type of each captured parameter, in order.
pub open spec fn spec_storage_types(arguments: Seq<SpyArgumentView>) -> Seq<TypeView> {
    Seq::new(arguments.len(), |i: int| spec_argument_spy_type(arguments[i]))
}

/// One field of the double: what it stores of each call and what it hands
/// back.
pub ghost struct FieldView {
    pub name: Seq<char>,
    /// The storage type of each captured parameter, in order.
    pub arguments: Seq<TypeView>,
    pub output: TypeView,
}

/// A field as it stands in the declaration of the double.
pub open spec fn spec_field_text(field: FieldView) -> Seq<char> {
    "pub "@ + field.name + ": autospy::SpyFunction<"@ + spec_tuple_or_single(
        spec_children_text(field.arguments),
    ) + ", "@ + spec_type_text(field.output) + ">"@
}

/// The fields as they stand in the declaration of the double.
pub open spec fn spec_field_texts(fields: Seq<FieldView>) -> Seq<Seq<char>> {
    Seq::new(fields.len(), |i: int| spec_field_text(fields[i]))
}

/// The field that a member gives the double: one for a spied method, none
/// for any other member.
pub open spec fn spec_field(
    member: ResolvedView,
    interface: Seq<Seq<char>>,
    fresh: Seq<char>,
) -> Option<FieldView> {
    match member {
        ResolvedView::Spied { name, lifetimes, arguments, output } => Some(
            FieldView {
                name,
                arguments: spec_storage_types(arguments),
                output: spec_reconcile(output, lifetimes, interface, fresh),
            },
        ),
        _ => None,
    }
}

/// The fields that the members give, in member order.
pub open spec fn spec_fields_of(
    members: Seq<ResolvedView>,
    interface: Seq<Seq<char>>,
    fresh: Seq<char>,
) -> Seq<FieldView>
    decreases members.len(),
{
    if members.len() == 0 {
        Seq::empty()
    } else {
        let before = spec_fields_of(members.drop_last(), interface, fresh);
        match spec_field(members.last(), interface, fresh) {
            Some(field) => before.push(field),
            None => before,
        }
    }
}

/// The fields that the inline supertraits give, supertrait after supertrait.
pub open spec fn spec_fragment_fields(
    fragments: Seq<ResolutionView>,
    interface: Seq<Seq<char>>,
    fresh: Seq<char>,
) -> Seq<FieldView>
    decreases fragments.len(),
{
    if fragments.len() == 0 {
        Seq::empty()
    } else {
        spec_fragment_fields(fragments.drop_last(), interface, fresh) + spec_fields_of(
            fragments.last().members,
            interface,
            fresh,
        )
    }
}

/// The fields of the double: those of the interface's own members, then
/// those of each inline supertrait.
pub open spec fn spec_spy_fields(plan: PlanView, interface: Seq<Seq<char>>, fresh: Seq<char>) -> Seq<
    FieldView,
> {
    spec_fields_of(plan.primary.members, interface, fresh) + spec_fragment_fields(
        plan.fragments,
        interface,
        fresh,
    )
}

/// Whether what a spied method returns holds an elided reference. A member
/// that gives the double no field counts for nothing here.
pub open spec fn spec_returns_elided(member: ResolvedView) -> bool {
    match member {
        ResolvedView::Spied { name, lifetimes, arguments, output } => spec_has_elided(output),
        _ => false,
    }
}

/// Whether what some spied method among the members returns holds an elided
/// reference.
pub open spec fn spec_any_returns_elided(members: Seq<ResolvedView>) -> bool {
    exists|i: int| 0 <= i < members.len() && spec_returns_elided(#[trigger] members[i])
}

/// Whether some spied method of the interface or of an inline supertrait
/// returns a type that holds an elided reference.
pub open spec fn spec_plan_elided(plan: PlanView) -> bool {
    spec_any_returns_elided(plan.primary.members) || exists|k: int|
        0 <= k < plan.fragments.len() && spec_any_returns_elided((#[trigger] plan.fragments[k]).members)
}

/// The lifetimes that the bound associated types bring to the double: the
/// named lifetime of each bound reference, once, unless it is `'static`,
/// `'_` or among the taken ones.
pub open spec fn spec_bound_lifetimes(
    bindings: Seq<AssociatedTypeView>,
    taken: Seq<Seq<char>>,
) -> Seq<Seq<char>>
    decreases bindings.len(),
{
    if bindings.len() == 0 {
        Seq::empty()
    } else {
        let before = spec_bound_lifetimes(bindings.drop_last(), taken);
        match spec_lifetime(bindings.last().ty) {
            Some(name) => if name == "'static"@ || name == "'_"@ || taken.contains(name)
                || before.contains(name) {
                before
            } else {
                before.push(name)
            },
            None => before,
        }
    }
}

/// The lifetime that elided references are given in the double.
pub open spec fn spec_promoted_lifetime(item_trait: InterfaceView, plan: PlanView) -> Seq<
    char,
> {
    let interface = spec_lifetime_names(item_trait.generics.params);
    spec_fresh_lifetime(interface + spec_bound_lifetimes(plan.primary.associated_types, interface))
}

/// The lifetime parameters that the double has beyond those of the
/// interface: those of the bound associated types, then the promoted one
/// where some return type holds an elided reference.
pub open spec fn spec_extra_lifetimes(item_trait: InterfaceView, plan: PlanView) -> Seq<
    Seq<char>,
> {
    let interface = spec_lifetime_names(item_trait.generics.params);
    let bound = spec_bound_lifetimes(plan.primary.associated_types, interface);
    if spec_plan_elided(plan) {
        bound.push(spec_promoted_lifetime(item_trait, plan))
    } else {
        bound
    }
}

/// The attribute that keeps what is emitted to test builds.
pub open spec fn spec_cfg(test_only: bool) -> Seq<char> {
    if test_only {
        "#[cfg(test)] "@
    } else {
        Seq::empty()
    }
}

/// The name of the double: that of the interface, then `Spy`.
pub open spec fn spec_spy_name(item_trait: InterfaceView) -> Seq<char> {
    item_trait.name + "Spy"@
}

/// The declaration of the double.
pub open spec fn spec_struct_text(
    item_trait: InterfaceView,
    plan: PlanView,
    test_only: bool,
) -> Seq<char> {
    spec_cfg(test_only) + "#[derive(Clone)] "@ + item_trait.visibility + " struct "@
        + spec_spy_name(item_trait) + spec_angle(
        spec_double_params(item_trait.generics, spec_extra_lifetimes(item_trait, plan)),
    ) + spec_where_clause(item_trait.generics) + " { "@ + spec_join(
        spec_field_texts(
            spec_spy_fields(
                plan,
                spec_lifetime_names(item_trait.generics.params),
                spec_promoted_lifetime(item_trait, plan),
            ),
        ),
        ", "@,
    ) + " }"@
}

/// The declaration of the double, or why the interface cannot have one.
pub open spec fn spec_generate_spy_struct(item_trait: InterfaceView, test_only: bool) -> Result<
    Seq<char>,
    ErrorView,
> {
    match spec_plan(item_trait) {
        Err(error) => Err(error),
        Ok(plan) => Ok(spec_struct_text(item_trait, plan, test_only)),
    }
}

/// The type in which the double stores a captured parameter.
pub fn argument_spy_type(argument: &SpyArgument) -> (out: TypeExpr)
    ensures
        out@ == spec_argument_spy_type(argument@),
{
    match &argument.into_type {
        Some(ty) => ty.duplicate(),
        None => {
            let boxed = match &argument.dereferenced_type.kind {
                TypeKind::ImplTrait => true,
                _ => false,
            };
            proof {
                assert(types_view(argument.dereferenced_type.children@)
                    =~= argument.dereferenced_type@.children);
            }
            if boxed {
                let children = duplicate_all(&argument.dereferenced_type.children);
                let out = TypeExpr { kind: TypeKind::Boxed, children };
                proof {
                    assert(types_view(out.children@) =~= out@.children);
                }
                out
            } else if argument.dereference_count == 0 {
                argument.dereferenced_type.duplicate()
            } else {
                let mut children: Vec<TypeExpr> = Vec::new();
                children.push(argument.dereferenced_type.duplicate());
                let out = TypeExpr { kind: TypeKind::Owned, children };
                proof {
                    assert(out@.children =~= seq![argument.dereferenced_type@]);
                }
                out
            }
        },
    }
}

fn storage_types(arguments: &Vec<SpyArgument>) -> (out: Vec<TypeExpr>)
    ensures
        types_view(out@) == spec_storage_types(arguments_view(arguments@)),
{
    let mut out: Vec<TypeExpr> = Vec::new();
    let mut i: usize = 0;
    while i < arguments.len()
        invariant
            0 <= i <= arguments.len(),
            out@.len() == i,
            forall|j: int| 0 <= j < i ==> out@[j]@ == spec_argument_spy_type(arguments@[j]@),
        decreases arguments.len() - i,
    {
        out.push(argument_spy_type(&arguments[i]));
        i += 1;
    }
    proof {
        assert(types_view(out@) =~= spec_storage_types(arguments_view(arguments@)));
    }
    out
}

/// The field that a member gives the double, as text.
pub fn function_as_spy_field(member: &Resolved, interface: &Vec<String>, fresh: &str) -> (out: Option<
    String,
>)
    ensures
        out.is_some() == spec_field(member@, texts(interface@), fresh@).is_some(),
        out.is_some() ==> out.unwrap()@ == spec_field_text(
            spec_field(member@, texts(interface@), fresh@).unwrap(),
        ),
{
    match member {
        Resolved::Spied { name, lifetimes, arguments, output } => {
            let stored = storage_types(arguments);
            let stored_texts = render_all(&stored);
            let shape = tuple_or_single(&stored_texts);
            let answer = reconcile(output, lifetimes, interface, fresh);
            let answer_text = answer.render();
            let mut out = text_of("pub ");
            out.append(name.as_str());
            out.append(": autospy::SpyFunction<");
            out.append(shape.as_str());
            out.append(", ");
            out.append(answer_text.as_str());
            out.append(">");
            Some(out)
        },
        _ => None,
    }
}

/// The fields that the members give, as text, behind those already in `out`.
fn generate_spy_fields(
    members: &Vec<Resolved>,
    interface: &Vec<String>,
    fresh: &str,
    out: &mut Vec<String>,
)
    ensures
        texts(final(out)@) == texts(old(out)@) + spec_field_texts(
            spec_fields_of(resolved_view(members@), texts(interface@), fresh@),
        ),
{
    let ghost start = texts(out@);
    let mut i: usize = 0;
    proof {
        assert(texts(out@) =~= start + spec_field_texts(Seq::<FieldView>::empty()));
    }
    while i < members.len()
        invariant
            0 <= i <= members.len(),
            texts(out@) == start + spec_field_texts(
                spec_fields_of(resolved_view(members@).take(i as int), texts(interface@), fresh@),
            ),
        decreases members.len() - i,
    {
        let ghost all = resolved_view(members@);
        let ghost before = spec_fields_of(all.take(i as int), texts(interface@), fresh@);
        proof {
            assert(all.take(i as int + 1).drop_last() =~= all.take(i as int));
            assert(all.take(i as int + 1).last() == members@[i as int]@);
        }
        match function_as_spy_field(&members[i], interface, fresh) {
            Some(text) => {
                let ghost field = spec_field(members@[i as int]@, texts(interface@), fresh@).unwrap();
                let ghost previous = texts(out@);
                let ghost added = text@;
                out.push(text);
                proof {
                    assert(texts(out@) =~= previous.push(added));
                    assert(spec_field_texts(before.push(field)) =~= spec_field_texts(before).push(
                        spec_field_text(field),
                    ));
                    assert(texts(out@) =~= start + spec_field_texts(before.push(field)));
                }
            },
            None => {},
        }
        i += 1;
    }
    proof {
        assert(resolved_view(members@).take(members.len() as int) =~= resolved_view(members@));
    }
}

/// The fields of the double, as text.
pub fn spy_field_texts(plan: &Plan, interface: &Vec<String>, fresh: &str) -> (out: Vec<String>)
    ensures
        texts(out@) == spec_field_texts(spec_spy_fields(plan@, texts(interface@), fresh@)),
{
    let mut out: Vec<String> = Vec::new();
    generate_spy_fields(&plan.primary.members, interface, fresh, &mut out);
    let ghost own = spec_fields_of(plan@.primary.members, texts(interface@), fresh@);
    let ghost all = resolutions_view(plan.fragments@);
    let mut k: usize = 0;
    proof {
        assert(texts(out@) =~= spec_field_texts(
            own + spec_fragment_fields(all.take(0), texts(interface@), fresh@),
        ));
    }
    while k < plan.fragments.len()
        invariant
            0 <= k <= plan.fragments.len(),
            all == resolutions_view(plan.fragments@),
            own == spec_fields_of(plan@.primary.members, texts(interface@), fresh@),
            texts(out@) == spec_field_texts(
                own + spec_fragment_fields(all.take(k as int), texts(interface@), fresh@),
            ),
        decreases plan.fragments.len() - k,
    {
        let ghost before = spec_fragment_fields(all.take(k as int), texts(interface@), fresh@);
        let ghost added = spec_fields_of(plan.fragments@[k as int]@.members, texts(interface@), fresh@);
        proof {
            assert(all.take(k as int + 1).drop_last() =~= all.take(k as int));
            assert(all.take(k as int + 1).last() == plan.fragments@[k as int]@);
        }
        generate_spy_fields(&plan.fragments[k].members, interface, fresh, &mut out);
        proof {
            assert(spec_field_texts(own + (before + added)) =~= spec_field_texts(own + before)
                + spec_field_texts(added));
        }
        k += 1;
    }
    proof {
        assert(all.take(plan.fragments.len() as int) =~= all);
    }
    out
}

fn returns_elided(member: &Resolved) -> (found: bool)
    ensures
        found == spec_returns_elided(member@),
{
    match member {
        Resolved::Spied { name, lifetimes, arguments, output } => has_elided(output),
        _ => false,
    }
}

fn any_returns_elided(members: &Vec<Resolved>) -> (found: bool)
    ensures
        found == spec_any_returns_elided(resolved_view(members@)),
{
    let mut i: usize = 0;
    while i < members.len()
        invariant
            0 <= i <= members.len(),
            forall|j: int| 0 <= j < i ==> !spec_returns_elided(#[trigger] resolved_view(members@)[j]),
        decreases members.len() - i,
    {
        proof {
            assert(resolved_view(members@)[i as int] == members@[i as int]@);
        }
        if returns_elided(&members[i]) {
            return true;
        }
        i += 1;
    }
    false
}

/// Whether some spied method of the interface or of an inline supertrait
/// returns a type that holds an elided reference.
pub fn plan_elided(plan: &Plan) -> (found: bool)
    ensures
        found == spec_plan_elided(plan@),
{
    if any_returns_elided(&plan.primary.members) {
        return true;
    }
    let mut k: usize = 0;
    while k < plan.fragments.len()
        invariant
            0 <= k <= plan.fragments.len(),
            !spec_any_returns_elided(plan@.primary.members),
            forall|j: int|
                0 <= j < k ==> !spec_any_returns_elided((#[trigger] plan@.fragments[j]).members),
        decreases plan.fragments.len() - k,
    {
        proof {
            assert(plan@.fragments[k as int] == plan.fragments@[k as int]@);
        }
        if any_returns_elided(&plan.fragments[k].members) {
            return true;
        }
        k += 1;
    }
    false
}

fn bound_lifetimes(bindings: &Vec<AssociatedType>, taken: &Vec<String>) -> (out: Vec<String>)
    ensures
        texts(out@) == spec_bound_lifetimes(bindings_view(bindings@), texts(taken@)),
{
    let mut out: Vec<String> = Vec::new();
    let mut i: usize = 0;
    proof {
        assert(texts(out@) =~= Seq::<Seq<char>>::empty());
    }
    while i < bindings.len()
        invariant
            0 <= i <= bindings.len(),
            texts(out@) == spec_bound_lifetimes(bindings_view(bindings@).take(i as int), texts(taken@)),
        decreases bindings.len() - i,
    {
        let ghost all = bindings_view(bindings@);
        let ghost before = texts(out@);
        proof {
            assert(all.take(i as int + 1).drop_last() =~= all.take(i as int));
            assert(all.take(i as int + 1).last() == bindings@[i as int]@);
        }
        match bindings[i].lifetime() {
            Some(name) => {
                if !(same_text(name, "'static") || same_text(name, "'_") || contains_text(
                    taken,
                    name.as_str(),
                ) || contains_text(&out, name.as_str())) {
                    out.push(name.clone());
                    proof {
                        assert(texts(out@) =~= before.push(name@));
                    }
                }
            },
            None => {},
        }
        i += 1;
    }
    proof {
        assert(bindings_view(bindings@).take(bindings.len() as int) =~= bindings_view(bindings@));
    }
    out
}

/// The lifetimes in scope in the double.
pub struct LifetimeSet {
    /// The lifetime parameters of the interface.
    pub interface: Vec<String>,
    /// The lifetime parameters that the double has beyond those.
    pub extra: Vec<String>,
    /// The lifetime that elided references are given.
    pub promoted: String,
}

/// The lifetimes in scope in the double of a resolved interface.
pub fn lifetime_set(item_trait: &InterfaceDeclaration, plan: &Plan) -> (out: LifetimeSet)
    ensures
        texts(out.interface@) == spec_lifetime_names(item_trait.generics@.params),
        texts(out.extra@) == spec_extra_lifetimes(item_trait@, plan@),
        out.promoted@ == spec_promoted_lifetime(item_trait@, plan@),
{
    let interface = lifetime_names(&item_trait.generics);
    let mut extra = bound_lifetimes(&plan.primary.associated_types, &interface);
    let mut taken = copy_texts(&interface);
    let bound = copy_texts(&extra);
    extend(&mut taken, bound);
    let promoted = fresh_lifetime(&taken);
    if plan_elided(plan) {
        let ghost before = texts(extra@);
        extra.push(promoted.clone());
        proof {
            assert(texts(extra@) =~= before.push(promoted@));
        }
    }
    LifetimeSet { interface, extra, promoted }
}

/// The declaration of the double for a resolved interface.
pub fn struct_text(item_trait: &InterfaceDeclaration, plan: &Plan, test_only: bool) -> (out: String)
    ensures
        out@ == spec_struct_text(item_trait@, plan@, test_only),
{
    let lifetimes = lifetime_set(item_trait, plan);
    let parameters = double_params(&item_trait.generics, &lifetimes.extra);
    let fields = spy_field_texts(plan, &lifetimes.interface, lifetimes.promoted.as_str());
    let mut out = crate::inspect::cfg(test_only);
    out.append("#[derive(Clone)] ");
    out.append(item_trait.visibility.as_str());
    out.append(" struct ");
    let mut name = item_trait.name.clone();
    name.append("Spy");
    out.append(name.as_str());
    out.append(angle(&parameters).as_str());
    out.append(where_clause(&item_trait.generics).as_str());
    out.append(" { ");
    out.append(join(&fields, ", ").as_str());
    out.append(" }");
    out
}

/// The declaration of the double: one field for each spied method of the
/// interface and of its inline supertraits.
pub fn generate_spy_struct(item_trait: &InterfaceDeclaration, test_only: bool) -> (out: Result<
    String,
    GenerationError,
>)
    ensures
        (match out {
            Ok(text) => Ok(text@),
            Err(error) => Err(error@),
        }) == spec_generate_spy_struct(item_trait@, test_only),
{
    match plan(item_trait) {
        Err(error) => Err(error),
        Ok(planned) => Ok(struct_text(item_trait, &planned, test_only)),
    }
}

} // verus!
