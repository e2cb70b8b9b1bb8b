use vstd::prelude::*;
use crate::arguments::{is_argument_marked_as_ignore, spec_is_argument_marked_as_ignore};
use crate::associated_types::{bindings_view, AssociatedType, AssociatedTypeView};
use crate::schema::{Method, Parameter, ParameterView, Pattern};
use crate::text::{same_text, text_of};
use crate::types::{types_view, KindView, TypeExpr, TypeKind, TypeView};

verus! {

/// The type of the first binding with the given name.
pub open spec fn spec_binding(bindings: Seq<AssociatedTypeView>, name: Seq<char>) -> Option<TypeView>
    decreases bindings.len(),
{
    if bindings.len() == 0 {
        None
    } else if bindings[0].name == name {
        Some(bindings[0].ty)
    } else {
        spec_binding(bindings.skip(1), name)
    }
}

/// The type that stands for `Self::Name`, where the type is such a path and
/// `Name` is bound.
pub open spec fn spec_associated_type_replacement(
    bindings: Seq<AssociatedTypeView>,
    ty: TypeView,
) -> Option<TypeView> {
    match ty.kind {
        KindView::Path { segments } => if segments.len() == 2 && segments[0] == "Self"@ {
            spec_binding(bindings, segments[1])
        } else {
            None
        },
        _ => None,
    }
}

/// The types with each `Self::Name` of a bound name resolved.
pub open spec fn spec_replace_all(bindings: Seq<AssociatedTypeView>, types: Seq<TypeView>) -> Seq<
    TypeView,
>
    decreases types,
{
    Seq::new(types.len(), |i: int|
        if 0 <= i < types.len() { spec_replace(bindings, types[i]) } else { types[i] })
}

/// The type with each `Self::Name` of a bound name resolved, at any depth.
/// What a binding puts in place is left as the binding gives it.
pub open spec fn spec_replace(bindings: Seq<AssociatedTypeView>, ty: TypeView) -> TypeView
    decreases ty,
{
    match spec_associated_type_replacement(bindings, ty) {
        Some(bound) => bound,
        None => TypeView { kind: ty.kind, children: spec_replace_all(bindings, ty.children) },
    }
}

/// Resolves self-qualified paths to the types that the associated types are
/// bound to.
pub struct AssociatedTypeReplacer<'a> {
    pub associated_spy_types: &'a Vec<AssociatedType>,
}

impl<'a> AssociatedTypeReplacer<'a> {
    fn binding(&self, name: &String) -> (found: Option<&'a TypeExpr>)
        ensures
            found.is_some() == spec_binding(bindings_view(self.associated_spy_types@), name@).is_some(),
            found.is_some() ==> found.unwrap()@ == spec_binding(
                bindings_view(self.associated_spy_types@),
                name@,
            ).unwrap(),
    {
        let bindings = self.associated_spy_types;
        let mut i: usize = 0;
        proof {
            assert(bindings_view(bindings@).skip(0) =~= bindings_view(bindings@));
        }
        while i < bindings.len()
            invariant
                0 <= i <= bindings.len(),
                bindings == self.associated_spy_types,
                spec_binding(bindings_view(bindings@), name@) == spec_binding(
                    bindings_view(bindings@).skip(i as int),
                    name@,
                ),
            decreases bindings.len() - i,
        {
            proof {
                let all = bindings_view(bindings@);
                assert(all.skip(i as int)[0] == bindings@[i as int]@);
                assert(all.skip(i as int).skip(1) =~= all.skip(i as int + 1));
            }
            if same_text(&bindings[i].name, name.as_str()) {
                return Some(&bindings[i].ty);
            }
            i += 1;
        }
        None
    }

    /// The type that stands for the given one, where it is `Self::Name` with
    /// `Name` bound.
    pub fn associated_type_replacement(&self, ty: &TypeExpr) -> (found: Option<TypeExpr>)
        ensures
            found.is_some() == spec_associated_type_replacement(
                bindings_view(self.associated_spy_types@),
                ty@,
            ).is_some(),
            found.is_some() ==> found.unwrap()@ == spec_associated_type_replacement(
                bindings_view(self.associated_spy_types@),
                ty@,
            ).unwrap(),
    {
        match &ty.kind {
            TypeKind::Path { segments } => {
                if segments.len() != 2 {
                    return None;
                }
                if !same_text(&segments[0], "Self") {
                    return None;
                }
                match self.binding(&segments[1]) {
                    Some(bound) => Some(bound.duplicate()),
                    None => None,
                }
            },
            _ => None,
        }
    }

    fn replace_all(&self, types: &Vec<TypeExpr>) -> (out: Vec<TypeExpr>)
        ensures
            types_view(out@) == spec_replace_all(
                bindings_view(self.associated_spy_types@),
                types_view(types@),
            ),
        decreases types,
    {
        let mut out: Vec<TypeExpr> = Vec::new();
        let mut i: usize = 0;
        while i < types.len()
            invariant
                0 <= i <= types.len(),
                out@.len() == i,
                forall|j: int|
                    0 <= j < i ==> out@[j]@ == spec_replace(
                        bindings_view(self.associated_spy_types@),
                        types@[j]@,
                    ),
            decreases types.len() - i,
        {
            let replaced = self.replace(&types[i]);
            out.push(replaced);
            i += 1;
        }
        proof {
            assert(types_view(out@) =~= spec_replace_all(
                bindings_view(self.associated_spy_types@),
                types_view(types@),
            ));
        }
        out
    }

    /// The type with each `Self::Name` of a bound name resolved, at any depth.
    pub fn replace(&self, ty: &TypeExpr) -> (out: TypeExpr)
        ensures
            out@ == spec_replace(bindings_view(self.associated_spy_types@), ty@),
        decreases ty,
    {
        match self.associated_type_replacement(ty) {
            Some(bound) => bound,
            None => {
                let kind = ty.kind.duplicate();
                let children = self.replace_all(&ty.children);
                let out = TypeExpr { kind, children };
                proof {
                    assert(types_view(ty.children@) =~= ty@.children);
                    assert(types_view(out.children@) =~= out@.children);
                }
                out
            },
        }
    }
}

/// The parameters after the receiver, to be changed in place.
pub fn non_self_signature_arguments_mut(signature: &mut Method) -> (arguments: &mut Vec<Parameter>)
    ensures
        *arguments == old(signature).parameters,
        final(signature).parameters == *final(arguments),
        final(signature).attributes == old(signature).attributes,
        final(signature).qualifiers == old(signature).qualifiers,
        final(signature).name == old(signature).name,
        final(signature).generics == old(signature).generics,
        final(signature).receiver == old(signature).receiver,
        final(signature).output == old(signature).output,
        final(signature).default == old(signature).default,
{
    &mut signature.parameters
}

fn rename_argument_to_underscore(argument: &mut Parameter)
    ensures
        final(argument).pattern is Wildcard,
        final(argument).pattern_text@ == "_"@,
        final(argument).attributes == old(argument).attributes,
        final(argument).ty == old(argument).ty,
{
    argument.pattern = Pattern::Wildcard;
    argument.pattern_text = text_of("_");
}

/// What the parameter is after the parameters marked as ignored have been
/// given the wildcard for their pattern.
pub open spec fn spec_underscored(before: ParameterView, after: ParameterView) -> bool {
    if spec_is_argument_marked_as_ignore(before) {
        &&& after.pattern is Wildcard
        &&& after.pattern_text == "_"@
        &&& after.attributes == before.attributes
        &&& after.ty == before.ty
    } else {
        after == before
    }
}

/// Gives each parameter that a directive marks as ignored the wildcard for
/// its pattern; nothing else changes.
pub fn underscore_ignored_arguments_in_signature(signature: &mut Method)
    ensures
        final(signature).parameters@.len() == old(signature).parameters@.len(),
        forall|i: int|
            0 <= i < old(signature).parameters@.len() ==> spec_underscored(
                old(signature).parameters@[i]@,
                #[trigger] final(signature).parameters@[i]@,
            ),
        final(signature).attributes == old(signature).attributes,
        final(signature).qualifiers == old(signature).qualifiers,
        final(signature).name == old(signature).name,
        final(signature).generics == old(signature).generics,
        final(signature).receiver == old(signature).receiver,
        final(signature).output == old(signature).output,
        final(signature).default == old(signature).default,
{
    let ghost before = signature@.parameters;
    let arguments = non_self_signature_arguments_mut(signature);
    let mut i: usize = 0;
    while i < arguments.len()
        invariant
            0 <= i <= arguments.len(),
            arguments@.len() == before.len(),
            forall|j: int| 0 <= j < i ==> spec_underscored(before[j], #[trigger] arguments@[j]@),
            forall|j: int| i <= j < before.len() ==> arguments@[j]@ == before[j],
        decreases arguments.len() - i,
    {
        if is_argument_marked_as_ignore(&arguments[i]) {
            rename_argument_to_underscore(&mut arguments[i]);
        }
        i += 1;
    }
}

} // verus!
