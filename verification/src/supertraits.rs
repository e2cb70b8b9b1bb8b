use vstd::prelude::*;
use crate::schema::{
    InterfaceDeclaration, InterfaceView, MacroMember, MacroMemberView, Member, MemberView,
};
use crate::text::{same_text, texts};

verus! {

/// Whether the path names the macro that declares a supertrait: `supertrait`
/// or `autospy::supertrait`.
pub open spec fn spec_is_autospy_supertrait_macro(path: Seq<Seq<char>>) -> bool {
    (path.len() == 1 && path[0] == "supertrait"@) || (path.len() == 2 && path[0] == "autospy"@
        && path[1] == "supertrait"@)
}

/// The member as the invocation of the supertrait macro, where it is one.
pub open spec fn spec_autospy_supertrait_macro(trait_item: MemberView) -> Option<MacroMemberView> {
    match trait_item {
        MemberView::Macro(invocation) => if spec_is_autospy_supertrait_macro(invocation.path) {
            Some(invocation)
        } else {
            None
        },
        _ => None,
    }
}

/// The declaration that a member contributes as a supertrait: the body of a
/// supertrait macro that reads as an interface declaration.
pub open spec fn spec_fragment(trait_item: MemberView) -> Option<InterfaceView> {
    match spec_autospy_supertrait_macro(trait_item) {
        Some(invocation) => match invocation.fragment {
            Some(declaration) => Some(*declaration),
            None => None,
        },
        None => None,
    }
}

/// The supertraits declared among the members, in declaration order.
pub open spec fn spec_fragments_of(members: Seq<MemberView>) -> Seq<InterfaceView>
    decreases members.len(),
{
    if members.len() == 0 {
        Seq::empty()
    } else {
        let before = spec_fragments_of(members.drop_last());
        match spec_fragment(members.last()) {
            Some(declaration) => before.push(declaration),
            None => before,
        }
    }
}

/// The supertraits that the interface declares inline, in declaration
/// order.
pub open spec fn spec_autospy_supertraits(item_trait: InterfaceView) -> Seq<
    InterfaceView,
> {
    spec_fragments_of(item_trait.members)
}

/// The declarations that the references stand for.
pub open spec fn declarations(items: Seq<&InterfaceDeclaration>) -> Seq<InterfaceView> {
    Seq::new(items.len(), |i: int| (*items[i])@)
}

fn is_autospy_supertrait_macro(trait_item_macro: &MacroMember) -> (found: bool)
    ensures
        found == spec_is_autospy_supertrait_macro(texts(trait_item_macro.path@)),
{
    let path = &trait_item_macro.path;
    if path.len() == 1 {
        same_text(&path[0], "supertrait")
    } else if path.len() == 2 {
        same_text(&path[0], "autospy") && same_text(&path[1], "supertrait")
    } else {
        false
    }
}

/// The member as the invocation of the supertrait macro, where it is one.
pub fn autospy_supertrait_macro(trait_item: &Member) -> (found: Option<&MacroMember>)
    ensures
        found.is_some() == spec_autospy_supertrait_macro(trait_item@).is_some(),
        found.is_some() ==> found.unwrap()@ == spec_autospy_supertrait_macro(trait_item@).unwrap(),
{
    match trait_item {
        Member::Macro(invocation) => {
            if is_autospy_supertrait_macro(invocation) {
                Some(invocation)
            } else {
                None
            }
        },
        _ => None,
    }
}

fn to_supertrait(trait_item_macro: &MacroMember) -> (found: Option<&InterfaceDeclaration>)
    ensures
        found.is_some() == trait_item_macro.fragment.is_some(),
        found.is_some() ==> *found.unwrap() == *trait_item_macro.fragment.unwrap(),
{
    match &trait_item_macro.fragment {
        Some(declaration) => Some(&**declaration),
        None => None,
    }
}

/// The supertraits that the interface declares inline, in declaration order.
pub fn autospy_supertraits(item_trait: &InterfaceDeclaration) -> (out: Vec<&InterfaceDeclaration>)
    ensures
        declarations(out@) == spec_autospy_supertraits(item_trait@),
{
    let mut out: Vec<&InterfaceDeclaration> = Vec::new();
    let mut i: usize = 0;
    proof {
        assert(declarations(out@) =~= Seq::<InterfaceView>::empty());
    }
    while i < item_trait.members.len()
        invariant
            0 <= i <= item_trait.members.len(),
            declarations(out@) == spec_fragments_of(item_trait@.members.take(i as int)),
        decreases item_trait.members.len() - i,
    {
        proof {
            let members = item_trait@.members;
            assert(members.take(i as int + 1).drop_last() =~= members.take(i as int));
            assert(members.take(i as int + 1).last() == members[i as int]);
        }
        let ghost before = declarations(out@);
        match autospy_supertrait_macro(&item_trait.members[i]) {
            Some(invocation) => {
                match to_supertrait(invocation) {
                    Some(declaration) => {
                        out.push(declaration);
                        proof {
                            assert(declarations(out@) =~= before.push((*declaration)@));
                        }
                    },
                    None => {},
                }
            },
            None => {},
        }
        i += 1;
    }
    proof {
        assert(item_trait@.members.take(item_trait.members.len() as int) =~= item_trait@.members);
    }
    out
}

} // verus!
