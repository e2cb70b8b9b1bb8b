use vstd::prelude::*;
use crate::arguments::{
    spec_generic_bounds, spec_is_argument_marked_as_ignore, spec_spy_argument,
    spec_spy_arguments_of, SpyArgumentView,
};
use crate::associated_types::{spec_binding_of, spec_bindings_of, spec_insert, AssociatedTypeView};
use crate::attribute::{spec_expression_value, spec_type_value};
use crate::edit::{spec_associated_type_replacement, spec_binding, spec_replace};
use crate::error::ErrorKind;
use crate::generate::{spec_generate, spec_tuple_or_single};
use crate::generate_spy_default::{spec_defaults_of, spec_function_as_default};
use crate::generate_spy_struct::{
    spec_argument_spy_type, spec_bound_lifetimes, spec_extra_lifetimes, spec_field, spec_field_text,
    spec_fields_of, spec_fragment_fields, spec_plan_elided, spec_promoted_lifetime,
    spec_returns_elided, spec_spy_fields, spec_storage_types, FieldView,
};
use crate::generate_spy_trait::{
    spec_argument_to_spy_expression, spec_capture, spec_function_as_spy_function, Capture,
};
use crate::generics::spec_lifetime_names;
use crate::lifetimes::{
    lemma_fresh_is_new, lemma_repeat_length, spec_fresh_lifetime, spec_has_elided, spec_is_elided,
    spec_longest, spec_reconcile, spec_reconcile_all,
};
use crate::resolve::{spec_resolve_member, spec_uses_default, PlanView, ResolvedView};
use crate::schema::{
    GenericsView, InterfaceDeclaration, InterfaceView, MemberView, MethodView, ParameterView,
};
use crate::strip_attributes::{
    spec_emitted_attributes, spec_lead, spec_parameter_text, spec_signature_text,
};
use crate::text::{
    lemma_less_is_strict, lemma_less_is_total, lemma_less_is_transitive, spec_join, spec_less,
    spec_repeat,
};
use crate::types::{
    spec_children_text, spec_reference_layers, spec_referent, spec_type_text, spec_well_formed,
    KindView, TypeView,
};

verus! {

/// Two runs on declarations that stand for the same interface, with the
/// same settings, end alike: in the same text, character for character, or
/// in the same failure.
pub proof fn law_same_input_same_output(
    first: InterfaceDeclaration,
    second: InterfaceDeclaration,
    external_trait: bool,
    test_only: bool,
)
    requires
        first@ == second@,
    ensures
        spec_generate(first@, external_trait, test_only) == spec_generate(
            second@,
            external_trait,
            test_only,
        ),
{
}

/// The dereferences that stand in the text of a capture.
pub open spec fn spec_dereferences(capture: Capture) -> nat {
    match capture {
        Capture::Owned { dereferences } => dereferences,
        _ => 0,
    }
}

/// A captured parameter that is declared behind `k` references, without a
/// directive that coerces it and without a generic or `impl` type, is
/// captured as itself for `k` = 0, and else as the owned counterpart of what
/// stands behind `k` - 1 dereferences.
pub proof fn law_dereference_count(
    map: Map<Seq<char>, Seq<TypeView>>,
    argument: ParameterView,
    ty: TypeView,
)
    requires
        argument.pattern is Name,
        !spec_is_argument_marked_as_ignore(argument),
        spec_reference_layers(ty) <= u8::MAX,
        spec_type_value(argument.attributes, "into"@) == Ok::<Option<TypeView>, ErrorKind>(None),
        spec_expression_value(argument.attributes, "with"@) == Ok::<Option<Seq<char>>, ErrorKind>(None),
        spec_generic_bounds(map, spec_referent(ty)) is None,
        !(spec_referent(ty).kind is ImplTrait),
    ensures
        spec_spy_argument(map, argument, ty) matches Ok(Some(captured)) && {
            let layers = spec_reference_layers(ty);
            &&& captured.dereference_count == layers
            &&& spec_capture(captured) == (if layers == 0 {
                Capture::Value
            } else {
                Capture::Owned { dereferences: (layers - 1) as nat }
            })
            &&& spec_dereferences(spec_capture(captured)) == (if layers == 0 {
                0
            } else {
                (layers - 1) as nat
            })
            &&& spec_argument_to_spy_expression(captured) == (if layers == 0 {
                captured.name
            } else if layers == 1 {
                captured.name + ".to_owned()"@
            } else {
                "("@ + spec_repeat("*"@, (layers - 1) as nat) + captured.name + ").to_owned()"@
            })
        },
{
}

/// A parameter whose pattern is the wildcard is written as the wildcard.
pub open spec fn spec_wildcard_is_written(argument: ParameterView) -> bool {
    argument.pattern is Wildcard ==> argument.pattern_text == "_"@
}

/// A parameter that a directive marks as ignored, or whose pattern is the
/// wildcard, is not captured, whatever its type, and stands unnamed in the
/// signature of the double's method.
pub proof fn law_ignored_is_not_captured(
    map: Map<Seq<char>, Seq<TypeView>>,
    argument: ParameterView,
    ty: TypeView,
)
    requires
        spec_wildcard_is_written(argument),
        spec_is_argument_marked_as_ignore(argument) || argument.pattern is Wildcard,
    ensures
        spec_spy_argument(map, argument, ty) == Ok::<Option<SpyArgumentView>, ErrorKind>(
            None,
        ),
        spec_parameter_text(argument, true, true) == spec_lead(
            spec_emitted_attributes(argument.attributes, true),
        ) + "_"@ + ": "@ + spec_type_text(argument.ty),
{
}

/// What two lists of parameters give, each without failure, they give one
/// after the other when the lists stand one after the other.
pub proof fn lemma_captures_keep_parameter_order(
    map: Map<Seq<char>, Seq<TypeView>>,
    bindings: Seq<AssociatedTypeView>,
    first: Seq<ParameterView>,
    second: Seq<ParameterView>,
)
    requires
        spec_spy_arguments_of(map, bindings, first) is Ok,
        spec_spy_arguments_of(map, bindings, second) is Ok,
    ensures
        spec_spy_arguments_of(map, bindings, first + second) == Ok::<
            Seq<SpyArgumentView>,
            (ErrorKind, int),
        >(
            spec_spy_arguments_of(map, bindings, first)->Ok_0 + spec_spy_arguments_of(
                map,
                bindings,
                second,
            )->Ok_0,
        ),
    decreases second.len(),
{
    let before = spec_spy_arguments_of(map, bindings, first)->Ok_0;
    if second.len() == 0 {
        assert(first + second =~= first);
        assert(before + Seq::<SpyArgumentView>::empty() =~= before);
    } else {
        lemma_captures_keep_parameter_order(map, bindings, first, second.drop_last());
        assert((first + second).drop_last() =~= first + second.drop_last());
        assert((first + second).last() == second.last());
        let middle = spec_spy_arguments_of(map, bindings, second.drop_last())->Ok_0;
        match spec_spy_argument(map, second.last(), spec_replace(bindings, second.last().ty)) {
            Ok(Some(captured)) => {
                assert((before + middle).push(captured) =~= before + middle.push(captured));
            },
            _ => {},
        }
    }
}

/// An ignored parameter leaves no trace in what is captured: with it or
/// without it among the parameters, the same values are captured in the
/// same order.
pub proof fn law_ignored_leaves_no_trace(
    map: Map<Seq<char>, Seq<TypeView>>,
    bindings: Seq<AssociatedTypeView>,
    before: Seq<ParameterView>,
    ignored: ParameterView,
    after: Seq<ParameterView>,
)
    requires
        spec_is_argument_marked_as_ignore(ignored) || ignored.pattern is Wildcard,
        spec_spy_arguments_of(map, bindings, before) is Ok,
        spec_spy_arguments_of(map, bindings, after) is Ok,
    ensures
        spec_spy_arguments_of(map, bindings, before + seq![ignored] + after)
            == spec_spy_arguments_of(map, bindings, before + after),
{
    let alone = seq![ignored];
    assert(alone.drop_last() =~= Seq::<ParameterView>::empty());
    assert(alone.last() == ignored);
    assert(spec_spy_arguments_of(map, bindings, Seq::<ParameterView>::empty()) == Ok::<
        Seq<SpyArgumentView>,
        (ErrorKind, int),
    >(Seq::empty()));
    assert(spec_spy_argument(map, ignored, spec_replace(bindings, ignored.ty)) == Ok::<
        Option<SpyArgumentView>,
        ErrorKind,
    >(None));
    assert(spec_spy_arguments_of(map, bindings, alone) == Ok::<
        Seq<SpyArgumentView>,
        (ErrorKind, int),
    >(Seq::empty()));
    lemma_captures_keep_parameter_order(map, bindings, before, alone);
    lemma_captures_keep_parameter_order(map, bindings, before + alone, after);
    lemma_captures_keep_parameter_order(map, bindings, before, after);
    let kept = spec_spy_arguments_of(map, bindings, before)->Ok_0;
    assert(kept + Seq::<SpyArgumentView>::empty() =~= kept);
}

/// No reference is left elided in a type that is made fit for a field.
pub proof fn lemma_reconciled_has_no_elided(
    ty: TypeView,
    method: Seq<Seq<char>>,
    interface: Seq<Seq<char>>,
    fresh: Seq<char>,
)
    requires
        fresh != "'_"@,
    ensures
        !spec_has_elided(spec_reconcile(ty, method, interface, fresh)),
    decreases ty,
{
    reveal_strlit("'_");
    reveal_strlit("'static");
    let settled = spec_reconcile(ty, method, interface, fresh);
    assert forall|i: int| 0 <= i < settled.children.len() implies !spec_has_elided(
        #[trigger] settled.children[i],
    ) by {
        lemma_reconciled_has_no_elided(ty.children[i], method, interface, fresh);
    }
    match ty.kind {
        KindView::Reference { lifetime, mutable } => {
            if !spec_is_elided(lifetime) {
                assert("'static"@.len() == 7);
                assert("'_"@.len() == 2);
            }
        },
        _ => {},
    }
}

/// The promoted lifetime is not the anonymous one.
pub proof fn lemma_promoted_is_named(taken: Seq<Seq<char>>)
    ensures
        spec_fresh_lifetime(taken) != "'_"@,
{
    reveal_strlit("'spy");
    reveal_strlit("'_");
    reveal_strlit("_");
    lemma_repeat_length("_"@, spec_longest(taken));
    assert("'spy"@.len() == 4);
    assert("'_"@.len() == 2);
    assert(spec_fresh_lifetime(taken).len() == 4 + spec_repeat("_"@, spec_longest(taken)).len());
}

/// Where some spied method returns a type that holds an elided reference,
/// the double has exactly one lifetime parameter more than the interface and
/// its bound associated types give it; the parameter is new among them, and
/// in every field it stands for each elided reference. Where no spied method
/// does, the double has no such parameter: a method that keeps its default
/// body gives no field, and so no lifetime that a field would name.
pub proof fn law_lifetime_promotion(
    item_trait: InterfaceView,
    plan: PlanView,
    member: ResolvedView,
)
    ensures
        ({
            let interface = spec_lifetime_names(item_trait.generics.params);
            let bound = spec_bound_lifetimes(plan.primary.associated_types, interface);
            let promoted = spec_promoted_lifetime(item_trait, plan);
            &&& spec_plan_elided(plan) ==> spec_extra_lifetimes(item_trait, plan) == bound.push(
                promoted,
            )
            &&& !spec_plan_elided(plan) ==> spec_extra_lifetimes(item_trait, plan) == bound
            &&& !interface.contains(promoted)
            &&& !bound.contains(promoted)
            &&& promoted != "'_"@
        }),
        member matches ResolvedView::Spied { name, lifetimes, arguments, output } ==> {
            let interface = spec_lifetime_names(item_trait.generics.params);
            let promoted = spec_promoted_lifetime(item_trait, plan);
            let field = spec_field(member, interface, promoted);
            &&& field matches Some(made) && made.output == spec_reconcile(
                output,
                lifetimes,
                interface,
                promoted,
            )
            &&& !spec_has_elided(field.unwrap().output)
        },
{
    let interface = spec_lifetime_names(item_trait.generics.params);
    let bound = spec_bound_lifetimes(plan.primary.associated_types, interface);
    let promoted = spec_promoted_lifetime(item_trait, plan);
    lemma_fresh_is_new(interface + bound);
    lemma_promoted_is_named(interface + bound);
    assert(!interface.contains(promoted)) by {
        if interface.contains(promoted) {
            let i = choose|i: int| 0 <= i < interface.len() && interface[i] == promoted;
            assert((interface + bound)[i] == promoted);
        }
    }
    assert(!bound.contains(promoted)) by {
        if bound.contains(promoted) {
            let i = choose|i: int| 0 <= i < bound.len() && bound[i] == promoted;
            assert((interface + bound)[interface.len() + i] == promoted);
        }
    }
    match member {
        ResolvedView::Spied { name, lifetimes, arguments, output } => {
            lemma_reconciled_has_no_elided(output, lifetimes, interface, promoted);
        },
        _ => {},
    }
}

/// A parameter behind one or more references, with no type to convert into
/// and no `impl` type, is stored as the owned counterpart of what stands
/// under the references.
pub proof fn law_borrowed_is_stored_owned(argument: SpyArgumentView)
    requires
        argument.into_type is None,
        !(argument.dereferenced_type.kind is ImplTrait),
        argument.dereference_count >= 1,
    ensures
        spec_argument_spy_type(argument) == (TypeView {
            kind: KindView::Owned,
            children: seq![argument.dereferenced_type],
        }),
{
}

/// A spied method of the interface that returns a reference with an elided
/// lifetime makes the double gain the promoted lifetime, and its field
/// returns the same reference with that lifetime named; the field stores
/// each captured parameter by its storage type, in order.
pub proof fn law_elided_return_names_the_promoted_lifetime(
    item_trait: InterfaceView,
    plan: PlanView,
    index: int,
)
    requires
        0 <= index < plan.primary.members.len(),
        plan.primary.members[index] matches ResolvedView::Spied { name, lifetimes, arguments, output }
            && (output.kind matches KindView::Reference { lifetime, mutable } && spec_is_elided(
            lifetime,
        )),
    ensures
        ({
            let interface = spec_lifetime_names(item_trait.generics.params);
            let bound = spec_bound_lifetimes(plan.primary.associated_types, interface);
            let promoted = spec_promoted_lifetime(item_trait, plan);
            let member = plan.primary.members[index];
            &&& spec_plan_elided(plan)
            &&& spec_extra_lifetimes(item_trait, plan) == bound.push(promoted)
            &&& spec_field(member, interface, promoted) matches Some(field) && {
                &&& field.name == member->Spied_name
                &&& field.arguments == spec_storage_types(member->Spied_arguments)
                &&& field.output.kind == (KindView::Reference {
                    lifetime: Some(promoted),
                    mutable: member->Spied_output.kind->Reference_mutable,
                })
                &&& field.output.children == spec_reconcile_all(
                    member->Spied_output.children,
                    member->Spied_lifetimes,
                    interface,
                    promoted,
                )
            }
        }),
{
    assert(spec_returns_elided(plan.primary.members[index]));
}

/// The text of a path of one segment without arguments is the segment.
pub proof fn lemma_plain_name_text(name: Seq<char>)
    ensures
        spec_type_text(TypeView { kind: KindView::Path { segments: seq![name] }, children: Seq::empty() })
            == name,
{
    let ty = TypeView { kind: KindView::Path { segments: seq![name] }, children: Seq::empty() };
    assert(spec_children_text(ty.children) =~= Seq::<Seq<char>>::empty());
    assert(spec_join(seq![name], "::"@) == name);
    assert(name + Seq::<char>::empty() =~= name);
}

/// A method `g` that takes two borrowed `str` and returns a borrowed `str`,
/// all lifetimes elided, has the field
/// `pub g: autospy::SpyFunction<(<str as ToOwned>::Owned, <str as ToOwned>::Owned), &L str>`,
/// with `L` the lifetime that the double gains.
pub proof fn law_two_borrowed_in_one_borrowed_out(
    name: Seq<char>,
    first: Seq<char>,
    second: Seq<char>,
    lifetimes: Seq<Seq<char>>,
    interface: Seq<Seq<char>>,
    promoted: Seq<char>,
)
    ensures
        ({
            let text = TypeView {
                kind: KindView::Path { segments: seq!["str"@] },
                children: Seq::empty(),
            };
            let borrowed = TypeView {
                kind: KindView::Reference { lifetime: None, mutable: false },
                children: seq![text],
            };
            let member = ResolvedView::Spied {
                name,
                lifetimes,
                arguments: seq![
                    SpyArgumentView {
                        name: first,
                        into_type: None,
                        with_expression: None,
                        dereferenced_type: text,
                        dereference_count: 1,
                    },
                    SpyArgumentView {
                        name: second,
                        into_type: None,
                        with_expression: None,
                        dereferenced_type: text,
                        dereference_count: 1,
                    },
                ],
                output: borrowed,
            };
            let owned = "<"@ + "str"@ + " as ToOwned>::Owned"@;
            spec_field(member, interface, promoted) matches Some(field) && spec_field_text(field)
                =~= "pub "@ + name + ": autospy::SpyFunction<"@ + "("@ + owned + ", "@ + owned
                + "), "@ + "&"@ + promoted + " "@ + "str"@ + ">"@
        }),
{
    let text = TypeView { kind: KindView::Path { segments: seq!["str"@] }, children: Seq::empty() };
    let borrowed = TypeView {
        kind: KindView::Reference { lifetime: None, mutable: false },
        children: seq![text],
    };
    let one = SpyArgumentView {
        name: first,
        into_type: None,
        with_expression: None,
        dereferenced_type: text,
        dereference_count: 1,
    };
    let two = SpyArgumentView {
        name: second,
        into_type: None,
        with_expression: None,
        dereferenced_type: text,
        dereference_count: 1,
    };
    let member = ResolvedView::Spied { name, lifetimes, arguments: seq![one, two], output: borrowed };
    let field = spec_field(member, interface, promoted).unwrap();
    let stored = TypeView { kind: KindView::Owned, children: seq![text] };
    let owned = "<"@ + "str"@ + " as ToOwned>::Owned"@;
    lemma_plain_name_text("str"@);
    law_borrowed_is_stored_owned(one);
    law_borrowed_is_stored_owned(two);
    assert(field.arguments =~= seq![stored, stored]);
    assert(spec_children_text(stored.children) =~= seq!["str"@]);
    assert(spec_join(seq!["str"@], ", "@) == "str"@);
    assert(spec_type_text(stored) == owned);
    let shapes = spec_children_text(field.arguments);
    assert(shapes =~= seq![owned, owned]);
    assert(shapes.drop_last() =~= seq![owned]);
    assert(spec_join(seq![owned], ", "@) == owned);
    assert(spec_join(shapes, ", "@) == owned + ", "@ + owned);
    assert(spec_tuple_or_single(shapes) == "("@ + (owned + ", "@ + owned) + ")"@);
    let answer = field.output;
    reveal_strlit("'_");
    assert(spec_reconcile(text, lifetimes, interface, promoted).children =~= Seq::<TypeView>::empty());
    assert(spec_reconcile(text, lifetimes, interface, promoted) == text);
    assert(answer.children =~= seq![text]);
    assert(spec_children_text(answer.children) =~= seq!["str"@]);
    assert(spec_type_text(answer) == "&"@ + (promoted + " "@) + Seq::<char>::empty() + "str"@);
    reveal_strlit("), ");
    reveal_strlit(")");
    reveal_strlit(", ");
    assert("), "@ =~= ")"@ + ", "@);
}

/// The fields of members that stand one list after another are the fields
/// of the first list, then those of the second: fields keep the order of
/// their members.
pub proof fn law_fields_keep_member_order(
    first: Seq<ResolvedView>,
    second: Seq<ResolvedView>,
    interface: Seq<Seq<char>>,
    fresh: Seq<char>,
)
    ensures
        spec_fields_of(first + second, interface, fresh) == spec_fields_of(first, interface, fresh)
            + spec_fields_of(second, interface, fresh),
    decreases second.len(),
{
    if second.len() == 0 {
        assert(first + second =~= first);
        assert(spec_fields_of(first, interface, fresh) + Seq::<FieldView>::empty()
            =~= spec_fields_of(first, interface, fresh));
    } else {
        law_fields_keep_member_order(first, second.drop_last(), interface, fresh);
        assert((first + second).drop_last() =~= first + second.drop_last());
        assert((first + second).last() == second.last());
        let before = spec_fields_of(first, interface, fresh);
        let middle = spec_fields_of(second.drop_last(), interface, fresh);
        match spec_field(second.last(), interface, fresh) {
            Some(field) => {
                assert((before + middle).push(field) =~= before + middle.push(field));
            },
            None => {},
        }
    }
}

/// The fields of the double are those of the interface's own members in
/// member order, then those of each inline supertrait in the order of the
/// supertraits, each with its members in member order.
pub proof fn law_composition_order(
    plan: PlanView,
    interface: Seq<Seq<char>>,
    fresh: Seq<char>,
    count: int,
)
    requires
        0 <= count < plan.fragments.len(),
    ensures
        spec_spy_fields(plan, interface, fresh) == spec_fields_of(
            plan.primary.members,
            interface,
            fresh,
        ) + spec_fragment_fields(plan.fragments, interface, fresh),
        spec_fragment_fields(plan.fragments.take(count + 1), interface, fresh)
            == spec_fragment_fields(plan.fragments.take(count), interface, fresh) + spec_fields_of(
            plan.fragments[count].members,
            interface,
            fresh,
        ),
{
    assert(plan.fragments.take(count + 1).drop_last() =~= plan.fragments.take(count));
    assert(plan.fragments.take(count + 1).last() == plan.fragments[count]);
}

/// A method that keeps its default body gives the double no field and no
/// initial value, and stands in the double's implementation as declared:
/// its signature, then its own body.
pub proof fn law_default_is_kept(
    function: MethodView,
    interface: GenericsView,
    bindings: Seq<AssociatedTypeView>,
    lifetimes: Seq<Seq<char>>,
    fresh: Seq<char>,
)
    requires
        spec_uses_default(function),
    ensures
        spec_resolve_member(MemberView::Method(function), interface, bindings) matches Ok(resolved) ==> {
            &&& resolved is Kept
            &&& !spec_returns_elided(resolved)
            &&& spec_field(resolved, lifetimes, fresh) is None
            &&& spec_function_as_default(resolved) is None
            &&& spec_function_as_spy_function(function, resolved) == spec_signature_text(
                function,
                false,
                false,
            ) + " "@ + function.default.unwrap()
        },
{
}

/// The names of the spied methods among the members, in member order.
pub open spec fn spec_spied_names(members: Seq<ResolvedView>) -> Seq<Seq<char>>
    decreases members.len(),
{
    if members.len() == 0 {
        Seq::empty()
    } else {
        let before = spec_spied_names(members.drop_last());
        match members.last() {
            ResolvedView::Spied { name, lifetimes, arguments, output } => before.push(name),
            _ => before,
        }
    }
}

/// The names of the fields, in order.
pub open spec fn spec_field_names(fields: Seq<FieldView>) -> Seq<Seq<char>> {
    Seq::new(fields.len(), |i: int| fields[i].name)
}

/// Each spied method has exactly one field, under its own name, and no
/// other member has one.
pub proof fn law_one_field_for_each_spied_method(
    members: Seq<ResolvedView>,
    interface: Seq<Seq<char>>,
    fresh: Seq<char>,
)
    ensures
        spec_field_names(spec_fields_of(members, interface, fresh)) == spec_spied_names(members),
    decreases members.len(),
{
    if members.len() == 0 {
        assert(spec_field_names(Seq::<FieldView>::empty()) =~= Seq::<Seq<char>>::empty());
    } else {
        law_one_field_for_each_spied_method(members.drop_last(), interface, fresh);
        let before = spec_fields_of(members.drop_last(), interface, fresh);
        match spec_field(members.last(), interface, fresh) {
            Some(field) => {
                assert(spec_field_names(before.push(field)) =~= spec_field_names(before).push(
                    field.name,
                ));
            },
            None => {},
        }
    }
}

/// The initial value of the field of the name.
pub open spec fn spec_default_for(name: Seq<char>) -> Seq<char> {
    name + ": autospy::SpyFunction::from(\""@ + name + "\")"@
}

/// The double's `Default` gives each field of the double its initial value,
/// once, in field order, and names nothing else.
pub proof fn law_each_field_has_its_default(members: Seq<ResolvedView>)
    ensures
        spec_defaults_of(members) == Seq::new(
            spec_spied_names(members).len(),
            |i: int| spec_default_for(spec_spied_names(members)[i]),
        ),
    decreases members.len(),
{
    let expected = Seq::new(
        spec_spied_names(members).len(),
        |i: int| spec_default_for(spec_spied_names(members)[i]),
    );
    if members.len() == 0 {
        assert(spec_defaults_of(members) =~= expected);
    } else {
        law_each_field_has_its_default(members.drop_last());
        assert(spec_defaults_of(members) =~= expected);
    }
}

/// Whether every lifetime that the type names is one of the allowed ones.
/// A reference with an elided lifetime names none.
pub open spec fn spec_names_only(ty: TypeView, allowed: Set<Seq<char>>) -> bool
    decreases ty,
{
    (match ty.kind {
        KindView::Reference { lifetime, mutable } => spec_is_elided(lifetime) || allowed.contains(
            lifetime.unwrap(),
        ),
        KindView::Lifetime { name } => allowed.contains(name),
        _ => true,
    }) && forall|i: int| 0 <= i < ty.children.len() ==> spec_names_only(#[trigger] ty.children[i], allowed)
}

/// A type that names only lifetimes of its method and lifetimes in scope in
/// the double names, once it is made fit for a field, only lifetimes in
/// scope in the double, the promoted lifetime and `'static`; and it names
/// one at every reference.
pub proof fn law_lifetimes_stay_in_scope(
    ty: TypeView,
    method: Seq<Seq<char>>,
    interface: Seq<Seq<char>>,
    fresh: Seq<char>,
    scope: Set<Seq<char>>,
)
    requires
        fresh != "'_"@,
        forall|name: Seq<char>| interface.contains(name) ==> scope.contains(name),
        spec_names_only(ty, scope.union(method.to_set())),
    ensures
        spec_names_only(
            spec_reconcile(ty, method, interface, fresh),
            scope.insert(fresh).insert("'static"@),
        ),
        !spec_has_elided(spec_reconcile(ty, method, interface, fresh)),
    decreases ty,
{
    let allowed = scope.insert(fresh).insert("'static"@);
    let settled = spec_reconcile(ty, method, interface, fresh);
    lemma_reconciled_has_no_elided(ty, method, interface, fresh);
    assert forall|i: int| 0 <= i < settled.children.len() implies spec_names_only(
        #[trigger] settled.children[i],
        allowed,
    ) by {
        law_lifetimes_stay_in_scope(ty.children[i], method, interface, fresh, scope);
    }
    match ty.kind {
        KindView::Reference { lifetime, mutable } => {
            if !spec_is_elided(lifetime) {
                let name = lifetime.unwrap();
                if !scope.contains(name) {
                    assert(method.to_set().contains(name));
                    assert(method.contains(name));
                }
            }
        },
        KindView::Lifetime { name } => {
            if !scope.contains(name) {
                assert(method.to_set().contains(name));
                assert(method.contains(name));
            }
        },
        _ => {},
    }
}

/// Making a well-formed type fit for a field leaves it well-formed.
pub proof fn law_reconciled_is_well_formed(
    ty: TypeView,
    method: Seq<Seq<char>>,
    interface: Seq<Seq<char>>,
    fresh: Seq<char>,
)
    requires
        spec_well_formed(ty),
    ensures
        spec_well_formed(spec_reconcile(ty, method, interface, fresh)),
    decreases ty,
{
    let settled = spec_reconcile(ty, method, interface, fresh);
    assert forall|i: int| 0 <= i < settled.children.len() implies spec_well_formed(
        #[trigger] settled.children[i],
    ) by {
        assert(spec_well_formed(ty.children[i]));
        law_reconciled_is_well_formed(ty.children[i], method, interface, fresh);
    }
}

/// Resolving the bound associated types of a well-formed type leaves it
/// well-formed, where every binding is.
pub proof fn law_replaced_is_well_formed(bindings: Seq<AssociatedTypeView>, ty: TypeView)
    requires
        spec_well_formed(ty),
        forall|i: int| 0 <= i < bindings.len() ==> spec_well_formed((#[trigger] bindings[i]).ty),
    ensures
        spec_well_formed(spec_replace(bindings, ty)),
    decreases ty,
{
    match spec_associated_type_replacement(bindings, ty) {
        Some(bound) => {
            match ty.kind {
                KindView::Path { segments } => {
                    lemma_binding_is_one_of(bindings, segments[1]);
                },
                _ => {},
            }
        },
        None => {
            let replaced = spec_replace(bindings, ty);
            assert forall|i: int| 0 <= i < replaced.children.len() implies spec_well_formed(
                #[trigger] replaced.children[i],
            ) by {
                assert(spec_well_formed(ty.children[i]));
                law_replaced_is_well_formed(bindings, ty.children[i]);
            }
        },
    }
}

/// The type bound to a name is the type of one of the bindings.
pub proof fn lemma_binding_is_one_of(bindings: Seq<AssociatedTypeView>, name: Seq<char>)
    ensures
        spec_binding(bindings, name) matches Some(ty) ==> exists|i: int|
            0 <= i < bindings.len() && (#[trigger] bindings[i]).ty == ty,
    decreases bindings.len(),
{
    if bindings.len() > 0 {
        if bindings[0].name == name {
            assert(bindings[0].ty == spec_binding(bindings, name).unwrap());
        } else {
            lemma_binding_is_one_of(bindings.skip(1), name);
            if spec_binding(bindings, name) is Some {
                let i = choose|i: int|
                    0 <= i < bindings.skip(1).len() && (#[trigger] bindings.skip(1)[i]).ty
                        == spec_binding(bindings, name).unwrap();
                assert(bindings[i + 1].ty == spec_binding(bindings, name).unwrap());
            }
        }
    }
}

/// What stands under the leading references of a well-formed type is
/// well-formed.
pub proof fn law_referent_is_well_formed(ty: TypeView)
    requires
        spec_well_formed(ty),
    ensures
        spec_well_formed(spec_referent(ty)),
    decreases ty,
{
    if ty.kind is Reference && ty.children.len() == 1 {
        assert(spec_well_formed(ty.children[0]));
        law_referent_is_well_formed(ty.children[0]);
    }
}

/// The storage type of a captured parameter is well-formed where the
/// parameter's types are.
pub proof fn law_storage_is_well_formed(argument: SpyArgumentView)
    requires
        spec_well_formed(argument.dereferenced_type),
        argument.into_type matches Some(ty) ==> spec_well_formed(ty),
    ensures
        spec_well_formed(spec_argument_spy_type(argument)),
{
    let stored = spec_argument_spy_type(argument);
    if argument.into_type is None {
        if argument.dereferenced_type.kind is ImplTrait {
            assert forall|i: int| 0 <= i < stored.children.len() implies spec_well_formed(
                #[trigger] stored.children[i],
            ) by {
                assert(spec_well_formed(argument.dereferenced_type.children[i]));
            }
        } else if argument.dereference_count != 0 {
            assert(stored.children =~= seq![argument.dereferenced_type]);
        }
    }
}

/// Whether the names of the bindings stand in order, each before the next.
pub open spec fn spec_in_name_order(bindings: Seq<AssociatedTypeView>) -> bool {
    forall|i: int, j: int|
        0 <= i < j < bindings.len() ==> spec_less(
            (#[trigger] bindings[i]).name,
            (#[trigger] bindings[j]).name,
        )
}

/// Each binding after an insertion is the inserted one or was there before.
pub proof fn lemma_inserted_or_old(
    bindings: Seq<AssociatedTypeView>,
    binding: AssociatedTypeView,
    index: int,
)
    requires
        0 <= index < spec_insert(bindings, binding).len(),
    ensures
        spec_insert(bindings, binding)[index] == binding || exists|k: int|
            0 <= k < bindings.len() && #[trigger] bindings[k] == spec_insert(bindings, binding)[index],
    decreases bindings.len(),
{
    if bindings.len() == 0 {
    } else if bindings[0].name == binding.name {
        if index > 0 {
            assert(bindings[index] == spec_insert(bindings, binding)[index]);
        }
    } else if spec_less(binding.name, bindings[0].name) {
        if index > 0 {
            assert(bindings[index - 1] == spec_insert(bindings, binding)[index]);
        }
    } else {
        if index == 0 {
            assert(bindings[0] == spec_insert(bindings, binding)[index]);
        } else {
            lemma_inserted_or_old(bindings.skip(1), binding, index - 1);
            let found = spec_insert(bindings.skip(1), binding)[index - 1];
            if found != binding {
                let k = choose|k: int|
                    0 <= k < bindings.skip(1).len() && #[trigger] bindings.skip(1)[k] == found;
                assert(bindings[k + 1] == found);
            }
        }
    }
}

/// Bindings in name order stay in name order when one more finds its place.
pub proof fn lemma_insert_keeps_name_order(
    bindings: Seq<AssociatedTypeView>,
    binding: AssociatedTypeView,
)
    requires
        spec_in_name_order(bindings),
    ensures
        spec_in_name_order(spec_insert(bindings, binding)),
    decreases bindings.len(),
{
    let after = spec_insert(bindings, binding);
    if bindings.len() == 0 {
    } else if bindings[0].name == binding.name {
        assert forall|i: int, j: int| 0 <= i < j < after.len() implies spec_less(
            (#[trigger] after[i]).name,
            (#[trigger] after[j]).name,
        ) by {
            assert(after[j] == bindings[j]);
            if i > 0 {
                assert(after[i] == bindings[i]);
            } else {
                assert(spec_less(bindings[0].name, bindings[j].name));
            }
        }
    } else if spec_less(binding.name, bindings[0].name) {
        assert forall|i: int, j: int| 0 <= i < j < after.len() implies spec_less(
            (#[trigger] after[i]).name,
            (#[trigger] after[j]).name,
        ) by {
            assert(after[j] == bindings[j - 1]);
            if i > 0 {
                assert(after[i] == bindings[i - 1]);
            } else if j > 1 {
                assert(spec_less(bindings[0].name, bindings[j - 1].name));
                lemma_less_is_transitive(binding.name, bindings[0].name, bindings[j - 1].name);
            }
        }
    } else {
        let rest = bindings.skip(1);
        assert(spec_in_name_order(rest)) by {
            assert forall|i: int, j: int| 0 <= i < j < rest.len() implies spec_less(
                (#[trigger] rest[i]).name,
                (#[trigger] rest[j]).name,
            ) by {
                assert(rest[i] == bindings[i + 1]);
                assert(rest[j] == bindings[j + 1]);
            }
        }
        lemma_insert_keeps_name_order(rest, binding);
        lemma_less_is_total(binding.name, bindings[0].name);
        let inner = spec_insert(rest, binding);
        assert forall|i: int, j: int| 0 <= i < j < after.len() implies spec_less(
            (#[trigger] after[i]).name,
            (#[trigger] after[j]).name,
        ) by {
            assert(after[j] == inner[j - 1]);
            if i > 0 {
                assert(after[i] == inner[i - 1]);
            } else {
                lemma_inserted_or_old(rest, binding, j - 1);
                if inner[j - 1] != binding {
                    let k = choose|k: int| 0 <= k < rest.len() && #[trigger] rest[k] == inner[j - 1];
                    assert(rest[k] == bindings[k + 1]);
                    assert(spec_less(bindings[0].name, bindings[k + 1].name));
                }
            }
        }
    }
}

/// Bindings in name order have no name twice.
pub proof fn law_names_in_order_differ(bindings: Seq<AssociatedTypeView>, first: int, second: int)
    requires
        spec_in_name_order(bindings),
        0 <= first < second < bindings.len(),
    ensures
        bindings[first].name != bindings[second].name,
{
    lemma_less_is_strict(bindings[first].name);
}

/// The bindings of the associated types stand in the order of their names,
/// each name once.
pub proof fn law_bindings_in_name_order(members: Seq<MemberView>)
    ensures
        spec_bindings_of(members) matches Ok(bindings) ==> spec_in_name_order(bindings),
    decreases members.len(),
{
    if members.len() > 0 {
        law_bindings_in_name_order(members.drop_last());
        match spec_bindings_of(members.drop_last()) {
            Ok(before) => match members.last() {
                MemberView::Type(declared) => match spec_binding_of(declared) {
                    Ok(Some(binding)) => {
                        lemma_insert_keeps_name_order(before, binding);
                    },
                    _ => {},
                },
                _ => {},
            },
            Err(_) => {},
        }
    }
}

} // verus!
