use vstd::prelude::*;
use crate::arguments::{
    arguments_view, spec_spy_arguments, spy_arguments, SpyArgument, SpyArgumentView,
};
use crate::associated_types::{
    bindings_view, get_associated_types, spec_get_associated_types, AssociatedType,
    AssociatedTypeView,
};
use crate::attribute::{
    associated_const, has_use_default_attribute, return_type, spec_associated_const,
    spec_has_use_default_attribute, spec_type_value,
};
use crate::collect::{lemma_collect_err, lemma_collect_ok, spec_collect};
use crate::edit::{spec_replace, AssociatedTypeReplacer};
use crate::error::{ErrorKind, ErrorView, GenerationError};
use crate::generics::{lifetime_names, spec_lifetime_names};
use crate::schema::{
    text_view, Generics, GenericsView, InterfaceDeclaration, InterfaceView, Member, MemberView,
    Method, MethodView,
};
use crate::supertraits::{autospy_supertraits, declarations, spec_autospy_supertraits};
use crate::text::texts;
use crate::types::{types_view, KindView, TypeExpr, TypeKind, TypeView};

verus! {

/// The unit type.
pub open spec fn spec_unit() -> TypeView {
    TypeView { kind: KindView::Tuple, children: Seq::empty() }
}

/// Whether the method keeps its own default body: it has one, and a
/// directive asks for it.
pub open spec fn spec_uses_default(function: MethodView) -> bool {
    spec_has_use_default_attribute(function.attributes) && function.default.is_some()
}

/// What the method returns as the double sees it: the type that a directive
/// puts in place of the declared one, else the declared one with the bound
/// associated types resolved, else unit.
pub open spec fn spec_declared_return(function: MethodView, bindings: Seq<AssociatedTypeView>) -> Result<
    TypeView,
    ErrorKind,
> {
    match spec_type_value(function.attributes, "returns"@) {
        Err(kind) => Err(kind),
        Ok(Some(ty)) => Ok(ty),
        Ok(None) => match function.output {
            Some(ty) => Ok(spec_replace(bindings, ty)),
            None => Ok(spec_unit()),
        },
    }
}

/// Whether one of the types holds an `impl` of some bounds.
pub open spec fn spec_any_names_impl(types: Seq<TypeView>) -> bool
    decreases types,
{
    exists|i: int| 0 <= i < types.len() && spec_names_impl(#[trigger] types[i])
}

/// Whether the type holds, at any depth, an `impl` of some bounds.
pub open spec fn spec_names_impl(ty: TypeView) -> bool
    decreases ty,
{
    ty.kind is ImplTrait || spec_any_names_impl(ty.children)
}

/// The type of what a spied method returns. A type that holds an `impl` is
/// refused: no field can name it.
pub open spec fn spec_function_return_type(
    function: MethodView,
    bindings: Seq<AssociatedTypeView>,
) -> Result<TypeView, ErrorKind> {
    match spec_declared_return(function, bindings) {
        Err(kind) => Err(kind),
        Ok(ty) => if spec_names_impl(ty) {
            Err(ErrorKind::UnsupportedShape)
        } else {
            Ok(ty)
        },
    }
}

/// What the double makes of one member.
pub enum Resolved {
    /// A method that the double records and answers.
    Spied {
        name: String,
        /// The lifetimes that the method declares.
        lifetimes: Vec<String>,
        arguments: Vec<SpyArgument>,
        output: TypeExpr,
    },
    /// A method that keeps its default body.
    Kept,
    /// An associated constant, with the value that a directive gives it.
    Constant { value: Option<String> },
    /// Any other member.
    Other,
}

/// What a resolved member stands for in contracts.
pub ghost enum ResolvedView {
    Spied {
        name: Seq<char>,
        lifetimes: Seq<Seq<char>>,
        arguments: Seq<SpyArgumentView>,
        output: TypeView,
    },
    Kept,
    Constant { value: Option<Seq<char>> },
    Other,
}

impl View for Resolved {
    type V = ResolvedView;

    open spec fn view(&self) -> ResolvedView {
        match *self {
            Resolved::Spied { name, lifetimes, arguments, output } => ResolvedView::Spied {
                name: name@,
                lifetimes: texts(lifetimes@),
                arguments: arguments_view(arguments@),
                output: output@,
            },
            Resolved::Kept => ResolvedView::Kept,
            Resolved::Constant { value } => ResolvedView::Constant { value: text_view(value) },
            Resolved::Other => ResolvedView::Other,
        }
    }
}

/// What the resolved members stand for in contracts.
pub open spec fn resolved_view(members: Seq<Resolved>) -> Seq<ResolvedView> {
    Seq::new(members.len(), |i: int| members[i]@)
}

/// The members of one declaration, resolved, with the bindings of its
/// associated types.
pub struct Resolution {
    pub associated_types: Vec<AssociatedType>,
    /// One entry for each member, in declaration order.
    pub members: Vec<Resolved>,
}

/// What a resolved declaration stands for in contracts.
pub ghost struct ResolutionView {
    pub associated_types: Seq<AssociatedTypeView>,
    pub members: Seq<ResolvedView>,
}

impl View for Resolution {
    type V = ResolutionView;

    open spec fn view(&self) -> ResolutionView {
        ResolutionView {
            associated_types: bindings_view(self.associated_types@),
            members: resolved_view(self.members@),
        }
    }
}

/// What the resolved declarations stand for in contracts.
pub open spec fn resolutions_view(items: Seq<Resolution>) -> Seq<ResolutionView> {
    Seq::new(items.len(), |i: int| items[i]@)
}

/// The interface and the supertraits it declares inline, resolved.
pub struct Plan {
    pub primary: Resolution,
    /// One entry for each inline supertrait, in declaration order.
    pub fragments: Vec<Resolution>,
}

/// What a resolved interface stands for in contracts.
pub ghost struct PlanView {
    pub primary: ResolutionView,
    pub fragments: Seq<ResolutionView>,
}

impl View for Plan {
    type V = PlanView;

    open spec fn view(&self) -> PlanView {
        PlanView { primary: self.primary@, fragments: resolutions_view(self.fragments@) }
    }
}

/// What the double makes of one member: a spied method with what it
/// captures and returns, a method kept as declared, an associated constant
/// with its value, or nothing of its own. A directive that cannot be read
/// as its member calls for is a failure, on a method kept as declared too.
pub open spec fn spec_resolve_member(
    member: MemberView,
    interface: GenericsView,
    bindings: Seq<AssociatedTypeView>,
) -> Result<ResolvedView, ErrorView> {
    match member {
        MemberView::Method(function) => if spec_uses_default(function) {
            match spec_declared_return(function, bindings) {
                Err(kind) => Err(ErrorView { kind, member: function.name, parameter: None }),
                Ok(output) => Ok(ResolvedView::Kept),
            }
        } else {
            match spec_spy_arguments(function, interface, bindings) {
                Err(error) => Err(error),
                Ok(arguments) => match spec_function_return_type(function, bindings) {
                    Err(kind) => Err(ErrorView { kind, member: function.name, parameter: None }),
                    Ok(output) => Ok(
                        ResolvedView::Spied {
                            name: function.name,
                            lifetimes: spec_lifetime_names(function.generics.params),
                            arguments,
                            output: output,
                        },
                    ),
                },
            }
        },
        MemberView::Const(declared) => match spec_associated_const(declared.attributes) {
            Err(kind) => Err(ErrorView { kind, member: declared.name, parameter: None }),
            Ok(value) => Ok(ResolvedView::Constant { value }),
        },
        _ => Ok(ResolvedView::Other),
    }
}

/// What the double makes of each member.
pub open spec fn spec_resolve_each(
    members: Seq<MemberView>,
    interface: GenericsView,
    bindings: Seq<AssociatedTypeView>,
) -> Seq<Result<ResolvedView, ErrorView>> {
    Seq::new(members.len(), |i: int| spec_resolve_member(members[i], interface, bindings))
}

/// The declaration resolved: its members in order, or the first failure
/// among its associated types, then among its members.
pub open spec fn spec_resolve(item_trait: InterfaceView) -> Result<ResolutionView, ErrorView> {
    match spec_get_associated_types(item_trait) {
        Err(error) => Err(error),
        Ok(bindings) => match spec_collect(
            spec_resolve_each(item_trait.members, item_trait.generics, bindings),
        ) {
            Err(error) => Err(error),
            Ok(members) => Ok(ResolutionView { associated_types: bindings, members }),
        },
    }
}

/// Each inline supertrait resolved.
pub open spec fn spec_resolve_fragments(fragments: Seq<InterfaceView>) -> Seq<
    Result<ResolutionView, ErrorView>,
> {
    Seq::new(fragments.len(), |i: int| spec_resolve(fragments[i]))
}

/// The interface resolved, then each inline supertrait in declaration order;
/// the first failure otherwise.
pub open spec fn spec_plan(item_trait: InterfaceView) -> Result<PlanView, ErrorView> {
    match spec_resolve(item_trait) {
        Err(error) => Err(error),
        Ok(primary) => match spec_collect(
            spec_resolve_fragments(spec_autospy_supertraits(item_trait)),
        ) {
            Err(error) => Err(error),
            Ok(fragments) => Ok(PlanView { primary, fragments }),
        },
    }
}

/// Whether the method keeps its own default body.
pub fn uses_default(function: &Method) -> (found: bool)
    ensures
        found == spec_uses_default(function@),
{
    has_use_default_attribute(&function.attributes) && function.default.is_some()
}

/// What the method returns as the double sees it.
pub fn declared_return(function: &Method, associated_spy_types: &Vec<AssociatedType>) -> (out: Result<
    TypeExpr,
    ErrorKind,
>)
    ensures
        (match out {
            Ok(ty) => Ok(ty@),
            Err(kind) => Err(kind),
        }) == spec_declared_return(function@, bindings_view(associated_spy_types@)),
{
    match return_type(&function.attributes) {
        Err(kind) => Err(kind),
        Ok(Some(ty)) => Ok(ty),
        Ok(None) => match &function.output {
            Some(ty) => {
                let replacer = AssociatedTypeReplacer { associated_spy_types };
                Ok(replacer.replace(ty))
            },
            None => {
                let out = TypeExpr { kind: TypeKind::Tuple, children: Vec::new() };
                proof {
                    assert(out@.children =~= Seq::<TypeView>::empty());
                }
                Ok(out)
            },
        },
    }
}

fn any_names_impl(types: &Vec<TypeExpr>) -> (found: bool)
    ensures
        found == spec_any_names_impl(types_view(types@)),
    decreases types,
{
    let mut i: usize = 0;
    while i < types.len()
        invariant
            0 <= i <= types.len(),
            forall|j: int| 0 <= j < i ==> !spec_names_impl(#[trigger] types_view(types@)[j]),
        decreases types.len() - i,
    {
        proof {
            assert(types_view(types@)[i as int] == types@[i as int]@);
        }
        if names_impl(&types[i]) {
            return true;
        }
        i += 1;
    }
    false
}

/// Whether the type holds, at any depth, an `impl` of some bounds.
pub fn names_impl(ty: &TypeExpr) -> (found: bool)
    ensures
        found == spec_names_impl(ty@),
    decreases ty,
{
    proof {
        assert(types_view(ty.children@) =~= ty@.children);
    }
    let here = match &ty.kind {
        TypeKind::ImplTrait => true,
        _ => false,
    };
    if here {
        true
    } else {
        any_names_impl(&ty.children)
    }
}

/// The type of what a spied method returns.
pub fn function_return_type(function: &Method, associated_spy_types: &Vec<AssociatedType>) -> (out:
    Result<TypeExpr, ErrorKind>)
    ensures
        (match out {
            Ok(ty) => Ok(ty@),
            Err(kind) => Err(kind),
        }) == spec_function_return_type(function@, bindings_view(associated_spy_types@)),
{
    match declared_return(function, associated_spy_types) {
        Err(kind) => Err(kind),
        Ok(ty) => {
            if names_impl(&ty) {
                Err(ErrorKind::UnsupportedShape)
            } else {
                Ok(ty)
            }
        },
    }
}

/// What the double makes of one member.
pub fn resolve_member(
    member: &Member,
    interface: &Generics,
    associated_spy_types: &Vec<AssociatedType>,
) -> (out: Result<Resolved, GenerationError>)
    ensures
        (match out {
            Ok(resolved) => Ok(resolved@),
            Err(error) => Err(error@),
        }) == spec_resolve_member(member@, interface@, bindings_view(associated_spy_types@)),
{
    match member {
        Member::Method(function) => {
            if uses_default(function) {
                match declared_return(function, associated_spy_types) {
                    Err(kind) => Err(
                        GenerationError { kind, member: function.name.clone(), parameter: None },
                    ),
                    Ok(output) => Ok(Resolved::Kept),
                }
            } else {
                match spy_arguments(function, interface, associated_spy_types) {
                    Err(error) => Err(error),
                    Ok(arguments) => match function_return_type(function, associated_spy_types) {
                        Err(kind) => Err(
                            GenerationError { kind, member: function.name.clone(), parameter: None },
                        ),
                        Ok(output) => Ok(
                            Resolved::Spied {
                                name: function.name.clone(),
                                lifetimes: lifetime_names(&function.generics),
                                arguments,
                                output: output,
                            },
                        ),
                    },
                }
            }
        },
        Member::Const(declared) => match associated_const(&declared.attributes) {
            Err(kind) => Err(GenerationError { kind, member: declared.name.clone(), parameter: None }),
            Ok(value) => Ok(Resolved::Constant { value }),
        },
        _ => Ok(Resolved::Other),
    }
}

/// The declaration resolved.
pub fn resolve(item_trait: &InterfaceDeclaration) -> (out: Result<Resolution, GenerationError>)
    ensures
        (match out {
            Ok(resolution) => Ok(resolution@),
            Err(error) => Err(error@),
        }) == spec_resolve(item_trait@),
{
    let associated_types = match get_associated_types(item_trait) {
        Err(error) => {
            return Err(error);
        },
        Ok(found) => found,
    };
    let ghost bindings = bindings_view(associated_types@);
    let ghost each = spec_resolve_each(item_trait@.members, item_trait@.generics, bindings);
    let mut members: Vec<Resolved> = Vec::new();
    let mut i: usize = 0;
    while i < item_trait.members.len()
        invariant
            0 <= i <= item_trait.members.len(),
            bindings == bindings_view(associated_types@),
            spec_get_associated_types(item_trait@) == Ok::<Seq<AssociatedTypeView>, ErrorView>(
                bindings,
            ),
            each == spec_resolve_each(item_trait@.members, item_trait@.generics, bindings),
            members@.len() == i,
            forall|j: int| 0 <= j < i ==> each[j] == Ok::<ResolvedView, ErrorView>(#[trigger] members@[j]@),
        decreases item_trait.members.len() - i,
    {
        match resolve_member(&item_trait.members[i], &item_trait.generics, &associated_types) {
            Err(error) => {
                proof {
                    assert forall|j: int| 0 <= j < i implies (#[trigger] each[j]) is Ok by {
                        assert(each[j] == Ok::<ResolvedView, ErrorView>(members@[j]@));
                    }
                    lemma_collect_err(each, i as int, error@);
                }
                return Err(error);
            },
            Ok(resolved) => {
                members.push(resolved);
            },
        }
        i += 1;
    }
    proof {
        assert forall|j: int| 0 <= j < each.len() implies each[j] == Ok::<ResolvedView, ErrorView>(
            resolved_view(members@)[j],
        ) by {
            assert(each[j] == Ok::<ResolvedView, ErrorView>(members@[j]@));
        }
        lemma_collect_ok(each, resolved_view(members@));
    }
    Ok(Resolution { associated_types, members })
}

/// The interface and its inline supertraits resolved.
pub fn plan(item_trait: &InterfaceDeclaration) -> (out: Result<Plan, GenerationError>)
    ensures
        (match out {
            Ok(planned) => Ok(planned@),
            Err(error) => Err(error@),
        }) == spec_plan(item_trait@),
{
    let primary = match resolve(item_trait) {
        Err(error) => {
            return Err(error);
        },
        Ok(found) => found,
    };
    let supertraits = autospy_supertraits(item_trait);
    let ghost each = spec_resolve_fragments(spec_autospy_supertraits(item_trait@));
    let mut fragments: Vec<Resolution> = Vec::new();
    let mut i: usize = 0;
    while i < supertraits.len()
        invariant
            0 <= i <= supertraits.len(),
            declarations(supertraits@) == spec_autospy_supertraits(item_trait@),
            spec_resolve(item_trait@) == Ok::<ResolutionView, ErrorView>(primary@),
            each == spec_resolve_fragments(spec_autospy_supertraits(item_trait@)),
            fragments@.len() == i,
            forall|j: int|
                0 <= j < i ==> each[j] == Ok::<ResolutionView, ErrorView>(
                    #[trigger] fragments@[j]@,
                ),
        decreases supertraits.len() - i,
    {
        proof {
            assert(declarations(supertraits@)[i as int] == (*supertraits@[i as int])@);
        }
        match resolve(supertraits[i]) {
            Err(error) => {
                proof {
                    assert forall|j: int| 0 <= j < i implies (#[trigger] each[j]) is Ok by {
                        assert(each[j] == Ok::<ResolutionView, ErrorView>(fragments@[j]@));
                    }
                    lemma_collect_err(each, i as int, error@);
                }
                return Err(error);
            },
            Ok(resolution) => {
                fragments.push(resolution);
            },
        }
        i += 1;
    }
    proof {
        assert(declarations(supertraits@).len() == supertraits@.len());
        assert forall|j: int| 0 <= j < each.len() implies each[j] == Ok::<ResolutionView, ErrorView>(
            resolutions_view(fragments@)[j],
        ) by {
            assert(each[j] == Ok::<ResolutionView, ErrorView>(fragments@[j]@));
        }
        lemma_collect_ok(each, resolutions_view(fragments@));
    }
    Ok(Plan { primary, fragments })
}

} // verus!
