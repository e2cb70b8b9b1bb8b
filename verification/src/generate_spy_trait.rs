use vstd::prelude::*;
use vstd::string::StringExecFns;
use crate::arguments::{arguments_view, SpyArgument, SpyArgumentView};
use crate::associated_types::{bindings_view, AssociatedType, AssociatedTypeView};
use crate::error::{ErrorView, GenerationError};
use crate::generate::{spec_tuple_or_single, tuple_or_single};
use crate::generate_spy_struct::{lifetime_set, spec_cfg, spec_extra_lifetimes, spec_spy_name};
use crate::generics::{
    angle, double_arguments, param_texts, spec_angle, spec_double_arguments, spec_param_texts,
    spec_where_clause, spec_where_of, where_clause, where_of,
};
use crate::resolve::{
    plan, resolved_view, spec_plan, Plan, PlanView, Resolution, ResolutionView, Resolved,
    ResolvedView,
};
use crate::schema::{
    lemma_members_view, views, AssociatedConstMember, AssociatedConstMemberView,
    InterfaceDeclaration, InterfaceView, Member, MemberView, Method, MethodView,
};
use crate::strip_attributes::{
    attribute_texts, lead, signature_text, spec_attribute_texts, spec_lead, spec_signature_text,
    spec_strip_autospy_attributes, strip_autospy_attributes,
};
use crate::supertraits::{autospy_supertraits, declarations, spec_autospy_supertraits};
use crate::text::{concat, copy_option, repeat, spec_concat, spec_repeat, text_of, texts};
use crate::types::spec_type_text;

verus! {

/// How the body of a spied method turns the value of a parameter into what
/// the double stores.
pub ghost enum Capture {
    /// The value itself.
    Value,
    /// The owned counterpart of the value behind `dereferences` dereferences.
    Owned { dereferences: nat },
    /// The value converted into the storage type.
    Into,
    /// The function applied to the value.
    With { function: Seq<char> },
    /// The value in a box.
    Boxed,
}

/// How a captured parameter is captured: by the function that a directive
/// names, else by conversion into the type that a directive names, else in a
/// box for an `impl`, else by its references.
pub open spec fn spec_capture(argument: SpyArgumentView) -> Capture {
    match argument.with_expression {
        Some(function) => Capture::With { function },
        None => if argument.into_type.is_some() {
            Capture::Into
        } else if argument.dereferenced_type.kind is ImplTrait {
            Capture::Boxed
        } else if argument.dereference_count == 0 {
            Capture::Value
        } else {
            Capture::Owned { dereferences: (argument.dereference_count - 1) as nat }
        },
    }
}

/// The capture of the named parameter as an expression.
pub open spec fn spec_capture_text(name: Seq<char>, capture: Capture) -> Seq<char> {
    match capture {
        Capture::Value => name,
        Capture::Owned { dereferences } => if dereferences == 0 {
            name + ".to_owned()"@
        } else {
            "("@ + spec_repeat("*"@, dereferences) + name + ").to_owned()"@
        },
        Capture::Into => name + ".into()"@,
        Capture::With { function } => function + "("@ + name + ")"@,
        Capture::Boxed => "Box::new("@ + name + ")"@,
    }
}

/// The expression that captures a parameter.
pub open spec fn spec_argument_to_spy_expression(argument: SpyArgumentView) -> Seq<char> {
    spec_capture_text(argument.name, spec_capture(argument))
}

/// The expression that captures each parameter, in order.
pub open spec fn spec_capture_texts(arguments: Seq<SpyArgumentView>) -> Seq<Seq<char>> {
    Seq::new(arguments.len(), |i: int| spec_argument_to_spy_expression(arguments[i]))
}

/// A method in the implementation of the double. A spied method records
/// what it captures in its field and answers from it; a method that keeps
/// its default body stands as declared.
pub open spec fn spec_function_as_spy_function(function: MethodView, resolved: ResolvedView) -> Seq<char> {
    match resolved {
        ResolvedView::Spied { name, lifetimes, arguments, output } => spec_signature_text(
            function,
            true,
            true,
        ) + " { self."@ + function.name + ".spy("@ + spec_tuple_or_single(
            spec_capture_texts(arguments),
        ) + ") }"@,
        ResolvedView::Kept => spec_signature_text(function, false, false) + " "@
            + (match function.default {
            Some(body) => body,
            None => Seq::empty(),
        }),
        _ => Seq::empty(),
    }
}

/// The definition of an associated type that a directive binds.
pub open spec fn spec_associated_type_definition(binding: AssociatedTypeView) -> Seq<char> {
    "type "@ + binding.name + spec_angle(binding.parameters) + " = "@ + spec_type_text(binding.ty)
        + spec_where_of(binding.predicates) + "; "@
}

/// The definition of an associated constant with the given value; without
/// one, with the constant default of the declared type.
pub open spec fn spec_spy_associated_const(
    declared: AssociatedConstMemberView,
    value: Option<Seq<char>>,
) -> Seq<char> {
    spec_lead(spec_strip_autospy_attributes(declared.attributes)) + "const "@ + declared.name
        + ": "@ + declared.ty + " = "@ + (match value {
        Some(tokens) => tokens,
        None => "<"@ + declared.ty + " as const_default::ConstDefault>::DEFAULT"@,
    }) + "; "@
}

/// The definition of a resolved associated constant: with the value that
/// a directive gives it, else with the constant default of the declared
/// type.
pub open spec fn spec_associated_const_as_spy_associated_const(
    declared: AssociatedConstMemberView,
    resolved: ResolvedView,
) -> Seq<char> {
    match resolved {
        ResolvedView::Constant { value } => spec_spy_associated_const(declared, value),
        _ => Seq::empty(),
    }
}

/// The definition that a member gives where it is an associated constant.
pub open spec fn spec_const_definition(member: MemberView, resolved: ResolvedView) -> Seq<char> {
    match member {
        MemberView::Const(declared) => spec_associated_const_as_spy_associated_const(
            declared,
            resolved,
        ),
        _ => Seq::empty(),
    }
}

/// The definition that a member gives where it is a method.
pub open spec fn spec_function_definition(member: MemberView, resolved: ResolvedView) -> Seq<char> {
    match member {
        MemberView::Method(function) => spec_function_as_spy_function(function, resolved) + " "@,
        _ => Seq::empty(),
    }
}

/// The definition of each bound associated type.
pub open spec fn spec_type_definitions(bindings: Seq<AssociatedTypeView>) -> Seq<Seq<char>> {
    Seq::new(bindings.len(), |i: int| spec_associated_type_definition(bindings[i]))
}

/// The definition of each member that is an associated constant, for
/// members and resolved members that stand side by side.
pub open spec fn spec_const_definitions(members: Seq<MemberView>, resolved: Seq<ResolvedView>) -> Seq<
    Seq<char>,
> {
    Seq::new(members.len(), |i: int|
        if i < resolved.len() {
            spec_const_definition(members[i], resolved[i])
        } else {
            Seq::empty()
        })
}

/// The definition of each member that is a method, for members and
/// resolved members that stand side by side.
pub open spec fn spec_function_definitions(members: Seq<MemberView>, resolved: Seq<ResolvedView>) -> Seq<
    Seq<char>,
> {
    Seq::new(members.len(), |i: int|
        if i < resolved.len() {
            spec_function_definition(members[i], resolved[i])
        } else {
            Seq::empty()
        })
}

/// The implementation of `target` for the double of `primary`: the bound
/// associated types, the associated constants, then the methods.
pub open spec fn spec_impl_text(
    target: InterfaceView,
    primary: InterfaceView,
    resolution: ResolutionView,
    anonymous: nat,
    test_only: bool,
) -> Seq<char> {
    spec_cfg(test_only) + spec_lead(spec_attribute_texts(target.attributes)) + (if target.unsafety {
        "unsafe "@
    } else {
        Seq::empty()
    }) + "impl"@ + spec_angle(spec_param_texts(primary.generics.params)) + " "@ + target.name
        + spec_angle(spec_double_arguments(target.generics, 0)) + " for "@ + spec_spy_name(
        primary,
    ) + spec_angle(spec_double_arguments(primary.generics, anonymous)) + spec_where_clause(
        primary.generics,
    ) + " { "@ + spec_concat(
        spec_type_definitions(resolution.associated_types),
    ) + spec_concat(spec_const_definitions(target.members, resolution.members)) + spec_concat(
        spec_function_definitions(target.members, resolution.members),
    ) + "}"@
}

/// The implementation of each inline supertrait, for supertraits and
/// resolutions that stand side by side.
pub open spec fn spec_fragment_impls(
    fragments: Seq<InterfaceView>,
    primary: InterfaceView,
    resolutions: Seq<ResolutionView>,
    anonymous: nat,
    test_only: bool,
) -> Seq<Seq<char>> {
    Seq::new(fragments.len(), |i: int|
        if i < resolutions.len() {
            " "@ + spec_impl_text(fragments[i], primary, resolutions[i], anonymous, test_only)
        } else {
            Seq::empty()
        })
}

/// The implementations that make the double stand in for the interface:
/// that of the interface, then that of each inline supertrait.
pub open spec fn spec_trait_text(item_trait: InterfaceView, plan: PlanView, test_only: bool) -> Seq<
    char,
> {
    let anonymous = spec_extra_lifetimes(item_trait, plan).len();
    spec_impl_text(item_trait, item_trait, plan.primary, anonymous, test_only) + spec_concat(
        spec_fragment_impls(
            spec_autospy_supertraits(item_trait),
            item_trait,
            plan.fragments,
            anonymous,
            test_only,
        ),
    )
}

/// The implementations of the double, or why the interface cannot have
/// one.
pub open spec fn spec_generate_spy_trait(item_trait: InterfaceView, test_only: bool) -> Result<
    Seq<char>,
    ErrorView,
> {
    match spec_plan(item_trait) {
        Err(error) => Err(error),
        Ok(plan) => Ok(spec_trait_text(item_trait, plan, test_only)),
    }
}

/// The dereferences that come before the name of a parameter declared
/// behind two or more references.
fn dereference_tokens(argument: &SpyArgument) -> (out: String)
    requires
        argument.dereference_count >= 1,
    ensures
        out@ == spec_repeat("*"@, (argument.dereference_count - 1) as nat),
{
    let count: usize = (argument.dereference_count - 1) as usize;
    repeat("*", count)
}

/// The expression that captures a parameter.
pub fn argument_to_spy_expression(argument: &SpyArgument) -> (out: String)
    ensures
        out@ == spec_argument_to_spy_expression(argument@),
{
    match &argument.with_expression {
        Some(function) => {
            let mut out = function.clone();
            out.append("(");
            out.append(argument.name.as_str());
            out.append(")");
            return out;
        },
        None => {},
    }
    if argument.into_type.is_some() {
        let mut out = argument.name.clone();
        out.append(".into()");
        return out;
    }
    let boxed = match &argument.dereferenced_type.kind {
        crate::types::TypeKind::ImplTrait => true,
        _ => false,
    };
    if boxed {
        let mut out = text_of("Box::new(");
        out.append(argument.name.as_str());
        out.append(")");
        return out;
    }
    if argument.dereference_count == 0 {
        argument.name.clone()
    } else if argument.dereference_count == 1 {
        let mut out = argument.name.clone();
        out.append(".to_owned()");
        out
    } else {
        let mut out = text_of("(");
        out.append(dereference_tokens(argument).as_str());
        out.append(argument.name.as_str());
        out.append(").to_owned()");
        out
    }
}

fn capture_texts(arguments: &Vec<SpyArgument>) -> (out: Vec<String>)
    ensures
        texts(out@) == spec_capture_texts(arguments_view(arguments@)),
{
    let mut out: Vec<String> = Vec::new();
    let mut i: usize = 0;
    while i < arguments.len()
        invariant
            0 <= i <= arguments.len(),
            out@.len() == i,
            forall|j: int| 0 <= j < i ==> out@[j]@ == spec_argument_to_spy_expression(arguments@[j]@),
        decreases arguments.len() - i,
    {
        out.push(argument_to_spy_expression(&arguments[i]));
        i += 1;
    }
    proof {
        assert(texts(out@) =~= spec_capture_texts(arguments_view(arguments@)));
    }
    out
}

/// A method in the implementation of the double.
pub fn function_as_spy_function(function: &Method, resolved: &Resolved) -> (out: String)
    ensures
        out@ == spec_function_as_spy_function(function@, resolved@),
{
    match resolved {
        Resolved::Spied { name, lifetimes, arguments, output } => {
            let mut out = signature_text(function, true, true);
            out.append(" { self.");
            out.append(function.name.as_str());
            out.append(".spy(");
            out.append(tuple_or_single(&capture_texts(arguments)).as_str());
            out.append(") }");
            out
        },
        Resolved::Kept => {
            let mut out = signature_text(function, false, false);
            out.append(" ");
            match &function.default {
                Some(body) => {
                    out.append(body.as_str());
                },
                None => {
                    proof {
                        assert(out@ + Seq::<char>::empty() =~= out@);
                    }
                },
            }
            out
        },
        _ => String::new(),
    }
}

fn associated_type_definition(binding: &AssociatedType) -> (out: String)
    ensures
        out@ == spec_associated_type_definition(binding@),
{
    let mut out = text_of("type ");
    out.append(binding.name.as_str());
    out.append(angle(&binding.parameters).as_str());
    out.append(" = ");
    out.append(binding.ty.render().as_str());
    out.append(where_of(&binding.predicates).as_str());
    out.append("; ");
    out
}

/// The definition of an associated constant with the given value.
pub fn spy_associated_const(declared: &AssociatedConstMember, value: Option<String>) -> (out: String)
    ensures
        out@ == spec_spy_associated_const(
            declared@,
            match value {
                Some(tokens) => Some(tokens@),
                None => None,
            },
        ),
{
    let mut out = lead(&strip_autospy_attributes(&declared.attributes));
    out.append("const ");
    out.append(declared.name.as_str());
    out.append(": ");
    out.append(declared.ty.as_str());
    out.append(" = ");
    match value {
        Some(tokens) => {
            out.append(tokens.as_str());
        },
        None => {
            let mut fallback = text_of("<");
            fallback.append(declared.ty.as_str());
            fallback.append(" as const_default::ConstDefault>::DEFAULT");
            out.append(fallback.as_str());
        },
    }
    out.append("; ");
    out
}

/// The definition of a resolved associated constant.
pub fn associated_const_as_spy_associated_const(
    declared: &AssociatedConstMember,
    resolved: &Resolved,
) -> (out: String)
    ensures
        out@ == spec_associated_const_as_spy_associated_const(declared@, resolved@),
{
    match resolved {
        Resolved::Constant { value } => spy_associated_const(declared, copy_option(value)),
        _ => String::new(),
    }
}

fn associated_type_definitions(associated_spy_types: &Vec<AssociatedType>) -> (out: String)
    ensures
        out@ == spec_concat(spec_type_definitions(bindings_view(associated_spy_types@))),
{
    let mut parts: Vec<String> = Vec::new();
    let mut i: usize = 0;
    while i < associated_spy_types.len()
        invariant
            0 <= i <= associated_spy_types.len(),
            parts@.len() == i,
            forall|j: int|
                0 <= j < i ==> parts@[j]@ == spec_associated_type_definition(
                    associated_spy_types@[j]@,
                ),
        decreases associated_spy_types.len() - i,
    {
        parts.push(associated_type_definition(&associated_spy_types[i]));
        i += 1;
    }
    proof {
        assert(texts(parts@) =~= spec_type_definitions(bindings_view(associated_spy_types@)));
    }
    concat(&parts)
}

fn spy_associated_consts(members: &Vec<Member>, resolved: &Vec<Resolved>) -> (out: String)
    ensures
        out@ == spec_concat(spec_const_definitions(views(members@), resolved_view(resolved@))),
{
    let mut parts: Vec<String> = Vec::new();
    let mut i: usize = 0;
    while i < members.len()
        invariant
            0 <= i <= members.len(),
            parts@.len() == i,
            forall|j: int|
                0 <= j < i ==> parts@[j]@ == spec_const_definitions(
                    views(members@),
                    resolved_view(resolved@),
                )[j],
        decreases members.len() - i,
    {
        let part = if i < resolved.len() {
            match &members[i] {
                Member::Const(declared) => associated_const_as_spy_associated_const(
                    declared,
                    &resolved[i],
                ),
                _ => String::new(),
            }
        } else {
            String::new()
        };
        parts.push(part);
        i += 1;
    }
    proof {
        assert(texts(parts@) =~= spec_const_definitions(views(members@), resolved_view(resolved@)));
    }
    concat(&parts)
}

fn trait_spy_function_definitions(members: &Vec<Member>, resolved: &Vec<Resolved>) -> (out: String)
    ensures
        out@ == spec_concat(spec_function_definitions(views(members@), resolved_view(resolved@))),
{
    let mut parts: Vec<String> = Vec::new();
    let mut i: usize = 0;
    while i < members.len()
        invariant
            0 <= i <= members.len(),
            parts@.len() == i,
            forall|j: int|
                0 <= j < i ==> parts@[j]@ == spec_function_definitions(
                    views(members@),
                    resolved_view(resolved@),
                )[j],
        decreases members.len() - i,
    {
        let part = if i < resolved.len() {
            match &members[i] {
                Member::Method(function) => {
                    let mut text = function_as_spy_function(function, &resolved[i]);
                    text.append(" ");
                    text
                },
                _ => String::new(),
            }
        } else {
            String::new()
        };
        parts.push(part);
        i += 1;
    }
    proof {
        assert(texts(parts@) =~= spec_function_definitions(views(members@), resolved_view(resolved@)));
    }
    concat(&parts)
}

/// The implementation of `target` for the double of `primary`.
pub fn impl_text(
    target: &InterfaceDeclaration,
    primary: &InterfaceDeclaration,
    resolution: &Resolution,
    anonymous: usize,
    test_only: bool,
) -> (out: String)
    ensures
        out@ == spec_impl_text(target@, primary@, resolution@, anonymous as nat, test_only),
{
    proof {
        lemma_members_view(*target);
    }
    let spy_arguments = double_arguments(&primary.generics, anonymous);
    let mut out = crate::inspect::cfg(test_only);
    out.append(lead(&attribute_texts(&target.attributes)).as_str());
    if target.unsafety {
        out.append("unsafe ");
    } else {
        proof {
            assert(out@ + Seq::<char>::empty() =~= out@);
        }
    }
    out.append("impl");
    out.append(angle(&param_texts(&primary.generics)).as_str());
    out.append(" ");
    out.append(target.name.as_str());
    out.append(angle(&double_arguments(&target.generics, 0)).as_str());
    out.append(" for ");
    let mut name = primary.name.clone();
    name.append("Spy");
    out.append(name.as_str());
    out.append(angle(&spy_arguments).as_str());
    out.append(where_clause(&primary.generics).as_str());
    out.append(" { ");
    out.append(associated_type_definitions(&resolution.associated_types).as_str());
    out.append(spy_associated_consts(&target.members, &resolution.members).as_str());
    out.append(trait_spy_function_definitions(&target.members, &resolution.members).as_str());
    out.append("}");
    out
}

/// The implementations for a resolved interface.
pub fn trait_text(item_trait: &InterfaceDeclaration, plan: &Plan, test_only: bool) -> (out: String)
    ensures
        out@ == spec_trait_text(item_trait@, plan@, test_only),
{
    let lifetimes = lifetime_set(item_trait, plan);
    let anonymous = lifetimes.extra.len();
    let supertraits = autospy_supertraits(item_trait);
    let mut out = impl_text(item_trait, item_trait, &plan.primary, anonymous, test_only);
    let mut parts: Vec<String> = Vec::new();
    let ghost expected = spec_fragment_impls(
        spec_autospy_supertraits(item_trait@),
        item_trait@,
        plan@.fragments,
        anonymous as nat,
        test_only,
    );
    let mut i: usize = 0;
    while i < supertraits.len()
        invariant
            0 <= i <= supertraits.len(),
            declarations(supertraits@) == spec_autospy_supertraits(item_trait@),
            expected == spec_fragment_impls(
                spec_autospy_supertraits(item_trait@),
                item_trait@,
                plan@.fragments,
                anonymous as nat,
                test_only,
            ),
            parts@.len() == i,
            forall|j: int| 0 <= j < i ==> parts@[j]@ == expected[j],
        decreases supertraits.len() - i,
    {
        proof {
            assert(declarations(supertraits@)[i as int] == (*supertraits@[i as int])@);
        }
        let part = if i < plan.fragments.len() {
            proof {
                assert(plan@.fragments[i as int] == plan.fragments@[i as int]@);
            }
            let mut text = text_of(" ");
            text.append(
                impl_text(supertraits[i], item_trait, &plan.fragments[i], anonymous, test_only).as_str(),
            );
            text
        } else {
            String::new()
        };
        parts.push(part);
        i += 1;
    }
    proof {
        assert(declarations(supertraits@).len() == supertraits@.len());
        assert(texts(parts@) =~= expected);
    }
    out.append(concat(&parts).as_str());
    out
}

/// The implementations that make the double stand in for the interface and
/// for each of its inline supertraits.
pub fn generate_spy_trait(item_trait: &InterfaceDeclaration, test_only: bool) -> (out: Result<
    String,
    GenerationError,
>)
    ensures
        (match out {
            Ok(text) => Ok(text@),
            Err(error) => Err(error@),
        }) == spec_generate_spy_trait(item_trait@, test_only),
{
    match plan(item_trait) {
        Err(error) => Err(error),
        Ok(planned) => Ok(trait_text(item_trait, &planned, test_only)),
    }
}

} // verus!
