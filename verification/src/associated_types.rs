use vstd::prelude::*;
use crate::attribute::{associated_type, spec_associated_type};
use crate::error::{ErrorKind, ErrorView, GenerationError};
use crate::generics::{param_texts, predicate_texts, spec_param_texts, spec_predicate_texts};
use crate::schema::{
    AssociatedTypeMember, AssociatedTypeMemberView, InterfaceDeclaration, InterfaceView, Member,
    MemberView,
};
use crate::text::{same_text, spec_less, text_less, texts};
use crate::types::{KindView, TypeExpr, TypeKind, TypeView};

verus! {

/// An associated type that a directive binds to a concrete type.
#[derive(Debug, PartialEq, Eq)]
pub struct AssociatedType {
    pub name: String,
    /// The type that the directive names.
    pub ty: TypeExpr,
    /// The generic parameters of the declaration, as written.
    pub parameters: Vec<String>,
    /// The predicates of the declaration's where clause, as written.
    pub predicates: Vec<String>,
}

/// What a binding stands for in contracts.
pub ghost struct AssociatedTypeView {
    pub name: Seq<char>,
    pub ty: TypeView,
    pub parameters: Seq<Seq<char>>,
    pub predicates: Seq<Seq<char>>,
}

impl View for AssociatedType {
    type V = AssociatedTypeView;

    open spec fn view(&self) -> AssociatedTypeView {
        AssociatedTypeView {
            name: self.name@,
            ty: self.ty@,
            parameters: texts(self.parameters@),
            predicates: texts(self.predicates@),
        }
    }
}

/// What the bindings stand for in contracts.
pub open spec fn bindings_view(bindings: Seq<AssociatedType>) -> Seq<AssociatedTypeView> {
    Seq::new(bindings.len(), |i: int| bindings[i]@)
}

/// The named lifetime of a bound type that is a reference.
pub open spec fn spec_lifetime(ty: TypeView) -> Option<Seq<char>> {
    match ty.kind {
        KindView::Reference { lifetime, mutable } => lifetime,
        _ => None,
    }
}

impl AssociatedType {
    /// The named lifetime of the bound type, where it is a reference with one.
    pub fn lifetime(&self) -> (found: Option<&String>)
        ensures
            found.is_some() == spec_lifetime(self@.ty).is_some(),
            found.is_some() ==> found.unwrap()@ == spec_lifetime(self@.ty).unwrap(),
    {
        match &self.ty.kind {
            TypeKind::Reference { lifetime, mutable } => lifetime.as_ref(),
            _ => None,
        }
    }

    /// Whether the bound type is a reference with a named lifetime.
    pub fn has_lifetime(&self) -> (found: bool)
        ensures
            found == spec_lifetime(self@.ty).is_some(),
    {
        self.lifetime().is_some()
    }
}

/// The bindings with one more: in place of the binding of the same name
/// where there is one, else before the first binding whose name comes
/// after its own.
pub open spec fn spec_insert(bindings: Seq<AssociatedTypeView>, binding: AssociatedTypeView) -> Seq<
    AssociatedTypeView,
>
    decreases bindings.len(),
{
    if bindings.len() == 0 {
        seq![binding]
    } else if bindings[0].name == binding.name {
        seq![binding] + bindings.skip(1)
    } else if spec_less(binding.name, bindings[0].name) {
        seq![binding] + bindings
    } else {
        seq![bindings[0]] + spec_insert(bindings.skip(1), binding)
    }
}

/// The binding that a directive gives an associated type.
pub open spec fn spec_binding_of(declared: AssociatedTypeMemberView) -> Result<
    Option<AssociatedTypeView>,
    ErrorKind,
> {
    match spec_associated_type(declared.attributes) {
        Err(kind) => Err(kind),
        Ok(None) => Ok(None),
        Ok(Some(ty)) => Ok(
            Some(
                AssociatedTypeView {
                    name: declared.name,
                    ty,
                    parameters: spec_param_texts(declared.generics.params),
                    predicates: spec_predicate_texts(declared.generics.predicates),
                },
            ),
        ),
    }
}

/// The bindings of the associated types among the members, in the order of
/// their names, the later of two bindings of one name in place of the
/// earlier; the first failure otherwise, with the index of its member.
pub open spec fn spec_bindings_of(members: Seq<MemberView>) -> Result<
    Seq<AssociatedTypeView>,
    (ErrorKind, int),
>
    decreases members.len(),
{
    if members.len() == 0 {
        Ok(Seq::empty())
    } else {
        match spec_bindings_of(members.drop_last()) {
            Err(failure) => Err(failure),
            Ok(before) => match members.last() {
                MemberView::Type(declared) => match spec_binding_of(declared) {
                    Err(kind) => Err((kind, members.len() - 1)),
                    Ok(None) => Ok(before),
                    Ok(Some(binding)) => Ok(spec_insert(before, binding)),
                },
                _ => Ok(before),
            },
        }
    }
}

/// The name of a member that is an associated type.
pub open spec fn spec_type_name(member: MemberView) -> Seq<char> {
    match member {
        MemberView::Type(declared) => declared.name,
        _ => Seq::empty(),
    }
}

/// The bindings of the interface's associated types. An associated type
/// without a directive has none.
pub open spec fn spec_get_associated_types(item_trait: InterfaceView) -> Result<
    Seq<AssociatedTypeView>,
    ErrorView,
> {
    match spec_bindings_of(item_trait.members) {
        Ok(bindings) => Ok(bindings),
        Err((kind, index)) => Err(
            ErrorView { kind, member: spec_type_name(item_trait.members[index]), parameter: None },
        ),
    }
}

/// A failure among the first members is the failure of the whole list.
proof fn lemma_failure_stays(members: Seq<MemberView>, count: int)
    requires
        0 <= count <= members.len(),
        spec_bindings_of(members.take(count)) is Err,
    ensures
        spec_bindings_of(members) == spec_bindings_of(members.take(count)),
    decreases members.len() - count,
{
    if count < members.len() {
        assert(members.take(count + 1).drop_last() =~= members.take(count));
        lemma_failure_stays(members, count + 1);
    } else {
        assert(members.take(count) =~= members);
    }
}

/// Behind bindings that the new one neither replaces nor comes before, it
/// finds its place among the rest.
proof fn lemma_insert_behind(
    bindings: Seq<AssociatedTypeView>,
    binding: AssociatedTypeView,
    count: int,
)
    requires
        0 <= count <= bindings.len(),
        forall|j: int|
            0 <= j < count ==> (#[trigger] bindings[j]).name != binding.name && !spec_less(
                binding.name,
                bindings[j].name,
            ),
    ensures
        spec_insert(bindings, binding) == bindings.take(count) + spec_insert(
            bindings.skip(count),
            binding,
        ),
    decreases count,
{
    if count == 0 {
        assert(bindings.skip(0) =~= bindings);
        assert(bindings.take(0) + spec_insert(bindings, binding) =~= spec_insert(bindings, binding));
    } else {
        let rest = bindings.skip(1);
        assert forall|j: int| 0 <= j < count - 1 implies (#[trigger] rest[j]).name != binding.name
            && !spec_less(binding.name, rest[j].name) by {
            assert(rest[j] == bindings[j + 1]);
        }
        lemma_insert_behind(rest, binding, count - 1);
        assert(rest.skip(count - 1) =~= bindings.skip(count));
        assert(seq![bindings[0]] + (rest.take(count - 1) + spec_insert(bindings.skip(count), binding))
            =~= bindings.take(count) + spec_insert(bindings.skip(count), binding));
    }
}

fn insert(bindings: &mut Vec<AssociatedType>, binding: AssociatedType)
    ensures
        bindings_view(final(bindings)@) == spec_insert(bindings_view(old(bindings)@), binding@),
{
    let ghost before = bindings_view(bindings@);
    let ghost added = binding@;
    let mut i: usize = 0;
    while i < bindings.len()
        invariant
            0 <= i <= bindings.len(),
            bindings@ == old(bindings)@,
            before == bindings_view(bindings@),
            added == binding@,
            forall|j: int|
                0 <= j < i ==> (#[trigger] before[j]).name != added.name && !spec_less(
                    added.name,
                    before[j].name,
                ),
        decreases bindings.len() - i,
    {
        proof {
            lemma_insert_behind(before, added, i as int);
            assert(before.skip(i as int)[0] == before[i as int]);
            assert(before[i as int] == bindings@[i as int]@);
        }
        if same_text(&bindings[i].name, binding.name.as_str()) {
            bindings.remove(i);
            bindings.insert(i, binding);
            proof {
                assert(bindings_view(bindings@) =~= before.take(i as int) + (seq![added]
                    + before.skip(i as int).skip(1)));
            }
            return;
        }
        if text_less(binding.name.as_str(), bindings[i].name.as_str()) {
            bindings.insert(i, binding);
            proof {
                assert(bindings_view(bindings@) =~= before.take(i as int) + (seq![added]
                    + before.skip(i as int)));
            }
            return;
        }
        i += 1;
    }
    proof {
        lemma_insert_behind(before, added, i as int);
        assert(before.skip(i as int) =~= Seq::<AssociatedTypeView>::empty());
        assert(before.take(i as int) =~= before);
    }
    bindings.push(binding);
    proof {
        assert(bindings_view(bindings@) =~= before + seq![added]);
    }
}

fn associated_type_name_and_spy_type(trait_item: &AssociatedTypeMember) -> (out: Result<
    Option<AssociatedType>,
    ErrorKind,
>)
    ensures
        (match out {
            Ok(Some(binding)) => Ok(Some(binding@)),
            Ok(None) => Ok(None),
            Err(kind) => Err(kind),
        }) == spec_binding_of(trait_item@),
{
    match associated_type(&trait_item.attributes) {
        Err(kind) => Err(kind),
        Ok(None) => Ok(None),
        Ok(Some(ty)) => Ok(
            Some(
                AssociatedType {
                    name: trait_item.name.clone(),
                    ty,
                    parameters: param_texts(&trait_item.generics),
                    predicates: predicate_texts(&trait_item.generics),
                },
            ),
        ),
    }
}

/// The bindings of the interface's associated types, in the order of their
/// names.
pub fn get_associated_types(item_trait: &InterfaceDeclaration) -> (out: Result<
    Vec<AssociatedType>,
    GenerationError,
>)
    ensures
        (match out {
            Ok(bindings) => Ok(bindings_view(bindings@)),
            Err(error) => Err(error@),
        }) == spec_get_associated_types(item_trait@),
{
    let mut out: Vec<AssociatedType> = Vec::new();
    let mut i: usize = 0;
    proof {
        assert(bindings_view(out@) =~= Seq::<AssociatedTypeView>::empty());
    }
    while i < item_trait.members.len()
        invariant
            0 <= i <= item_trait.members.len(),
            spec_bindings_of(item_trait@.members.take(i as int)) == Ok::<
                Seq<AssociatedTypeView>,
                (ErrorKind, int),
            >(bindings_view(out@)),
        decreases item_trait.members.len() - i,
    {
        proof {
            let members = item_trait@.members;
            assert(members.take(i as int + 1).drop_last() =~= members.take(i as int));
            assert(members.take(i as int + 1).last() == members[i as int]);
        }
        match &item_trait.members[i] {
            Member::Type(declared) => {
                match associated_type_name_and_spy_type(declared) {
                    Err(kind) => {
                        proof {
                            lemma_failure_stays(item_trait@.members, i as int + 1);
                        }
                        return Err(
                            GenerationError { kind, member: declared.name.clone(), parameter: None },
                        );
                    },
                    Ok(None) => {},
                    Ok(Some(binding)) => {
                        insert(&mut out, binding);
                    },
                }
            },
            _ => {},
        }
        i += 1;
    }
    proof {
        assert(item_trait@.members.take(item_trait.members.len() as int) =~= item_trait@.members);
    }
    Ok(out)
}

} // verus!
