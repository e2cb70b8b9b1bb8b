use vstd::prelude::*;
use crate::collect::reversed;
use crate::error::{ErrorView, GenerationError};
use crate::generate_spy_struct::{plan_elided, spec_cfg, spec_plan_elided};
use crate::resolve::{plan, spec_plan};
use crate::schema::{
    lemma_members_view, views, AssociatedConstMember, AssociatedConstMemberView,
    InterfaceDeclaration, InterfaceView, Member, MemberView, Method, MethodView,
};
use crate::text::text_of;

verus! {

/// The methods among the members, in declaration order.
pub open spec fn spec_trait_functions(members: Seq<MemberView>) -> Seq<MethodView>
    decreases members.len(),
{
    if members.len() == 0 {
        Seq::empty()
    } else {
        let before = spec_trait_functions(members.drop_last());
        match members.last() {
            MemberView::Method(function) => before.push(function),
            _ => before,
        }
    }
}

/// The associated constants among the members, in declaration order.
pub open spec fn spec_associated_consts(members: Seq<MemberView>) -> Seq<AssociatedConstMemberView>
    decreases members.len(),
{
    if members.len() == 0 {
        Seq::empty()
    } else {
        let before = spec_associated_consts(members.drop_last());
        match members.last() {
            MemberView::Const(declared) => before.push(declared),
            _ => before,
        }
    }
}

/// The methods that the references stand for.
pub open spec fn methods(items: Seq<&Method>) -> Seq<MethodView> {
    Seq::new(items.len(), |i: int| (*items[i])@)
}

/// The associated constants that the references stand for.
pub open spec fn constants(items: Seq<&AssociatedConstMember>) -> Seq<AssociatedConstMemberView> {
    Seq::new(items.len(), |i: int| (*items[i])@)
}

/// Whether some spied method of the interface or of an inline supertrait
/// returns a type that holds an elided reference; the failure where the
/// interface cannot be resolved.
pub open spec fn spec_has_function_returning_no_lifetime_reference(
    item_trait: InterfaceView,
) -> Result<bool, ErrorView> {
    match spec_plan(item_trait) {
        Err(error) => Err(error),
        Ok(plan) => Ok(spec_plan_elided(plan)),
    }
}

/// The associated constants of the interface, in declaration order.
pub fn associated_consts(item_trait: &InterfaceDeclaration) -> (out: Vec<&AssociatedConstMember>)
    ensures
        constants(out@) == spec_associated_consts(item_trait@.members),
{
    let mut out: Vec<&AssociatedConstMember> = Vec::new();
    let mut i: usize = 0;
    proof {
        assert(constants(out@) =~= Seq::<AssociatedConstMemberView>::empty());
    }
    while i < item_trait.members.len()
        invariant
            0 <= i <= item_trait.members.len(),
            constants(out@) == spec_associated_consts(item_trait@.members.take(i as int)),
        decreases item_trait.members.len() - i,
    {
        let ghost before = constants(out@);
        proof {
            let members = item_trait@.members;
            assert(members.take(i as int + 1).drop_last() =~= members.take(i as int));
            assert(members.take(i as int + 1).last() == members[i as int]);
        }
        match &item_trait.members[i] {
            Member::Const(declared) => {
                out.push(declared);
                proof {
                    assert(constants(out@) =~= before.push(declared@));
                }
            },
            _ => {},
        }
        i += 1;
    }
    proof {
        assert(item_trait@.members.take(item_trait.members.len() as int) =~= item_trait@.members);
    }
    out
}

/// The methods of the interface, in declaration order.
pub fn trait_functions(item_trait: &InterfaceDeclaration) -> (out: Vec<&Method>)
    ensures
        methods(out@) == spec_trait_functions(item_trait@.members),
{
    let mut out: Vec<&Method> = Vec::new();
    let mut i: usize = 0;
    proof {
        assert(methods(out@) =~= Seq::<MethodView>::empty());
    }
    while i < item_trait.members.len()
        invariant
            0 <= i <= item_trait.members.len(),
            methods(out@) == spec_trait_functions(item_trait@.members.take(i as int)),
        decreases item_trait.members.len() - i,
    {
        let ghost before = methods(out@);
        proof {
            let members = item_trait@.members;
            assert(members.take(i as int + 1).drop_last() =~= members.take(i as int));
            assert(members.take(i as int + 1).last() == members[i as int]);
        }
        match &item_trait.members[i] {
            Member::Method(function) => {
                out.push(function);
                proof {
                    assert(methods(out@) =~= before.push(function@));
                }
            },
            _ => {},
        }
        i += 1;
    }
    proof {
        assert(item_trait@.members.take(item_trait.members.len() as int) =~= item_trait@.members);
    }
    out
}

/// The methods of the interface, taken out of it.
pub fn owned_trait_functions(item_trait: InterfaceDeclaration) -> (out: Vec<Method>)
    ensures
        views(out@) == spec_trait_functions(item_trait@.members),
{
    proof {
        lemma_members_view(item_trait);
    }
    let mut members = item_trait.members;
    let ghost all = views(members@);
    let mut found: Vec<Method> = Vec::new();
    proof {
        assert(all.take(all.len() as int) =~= all);
        assert(spec_trait_functions(all) + views(found@).reverse() =~= spec_trait_functions(all));
    }
    while members.len() > 0
        invariant
            members@.len() <= all.len(),
            views(members@) == all.take(members@.len() as int),
            spec_trait_functions(all) == spec_trait_functions(views(members@)) + views(
                found@,
            ).reverse(),
        decreases members@.len(),
    {
        let ghost before = views(members@);
        let ghost earlier = views(found@);
        let member = members.pop().unwrap();
        proof {
            assert(views(members@) =~= before.drop_last());
            assert(member@ == before.last());
        }
        match member {
            Member::Method(function) => {
                let ghost added = function@;
                found.push(function);
                proof {
                    assert(views(found@).reverse() =~= seq![added] + earlier.reverse());
                    assert(spec_trait_functions(views(members@)).push(added) + earlier.reverse()
                        =~= spec_trait_functions(views(members@)) + views(found@).reverse());
                }
            },
            _ => {},
        }
    }
    proof {
        assert(Seq::<MethodView>::empty() + views(found@).reverse() =~= views(found@).reverse());
    }
    let out = reversed(found);
    proof {
        assert(views(out@) =~= views(found@).reverse());
    }
    out
}

/// The attribute that keeps what is emitted to test builds, where that is
/// asked for.
pub fn cfg(test_only: bool) -> (out: String)
    ensures
        out@ == spec_cfg(test_only),
{
    if test_only {
        text_of("#[cfg(test)] ")
    } else {
        String::new()
    }
}

/// Whether some spied method of the interface or of an inline supertrait
/// returns a type that holds an elided reference.
pub fn has_function_returning_no_lifetime_reference(item_trait: &InterfaceDeclaration) -> (out:
    Result<bool, GenerationError>)
    ensures
        (match out {
            Ok(found) => Ok(found),
            Err(error) => Err(error@),
        }) == spec_has_function_returning_no_lifetime_reference(item_trait@),
{
    match plan(item_trait) {
        Err(error) => Err(error),
        Ok(planned) => Ok(plan_elided(&planned)),
    }
}

} // verus!
