use vstd::prelude::*;
use vstd::string::StringExecFns;
use crate::error::{ErrorView, GenerationError};
use crate::generate_spy_default::{default_text, spec_default_text};
use crate::generate_spy_struct::{spec_struct_text, struct_text};
use crate::generate_spy_trait::{spec_trait_text, trait_text};
use crate::resolve::{plan, spec_plan, PlanView};
use crate::schema::{InterfaceDeclaration, InterfaceView};
use crate::strip_attributes::{spec_strip_attributes, strip_attributes};
use crate::text::{join, spec_join, text_of, texts};

verus! {

/// Unit for no item, the item itself for one, a tuple for more.
pub open spec fn spec_tuple_or_single(items: Seq<Seq<char>>) -> Seq<char> {
    if items.len() == 0 {
        "()"@
    } else if items.len() == 1 {
        items[0]
    } else {
        "("@ + spec_join(items, ", "@) + ")"@
    }
}

/// Unit for no item, the item itself for one, a tuple for more.
pub fn tuple_or_single(items: &Vec<String>) -> (out: String)
    ensures
        out@ == spec_tuple_or_single(texts(items@)),
{
    if items.len() == 0 {
        text_of("()")
    } else if items.len() == 1 {
        items[0].clone()
    } else {
        let mut out = text_of("(");
        let inner = join(items, ", ");
        out.append(inner.as_str());
        out.append(")");
        out
    }
}

/// All that is emitted for a resolved interface: the interface anew unless
/// it is declared elsewhere, the double, its implementations of the
/// interface and of each inline supertrait, and its `Default`.
pub open spec fn spec_generated_text(
    item_trait: InterfaceView,
    plan: PlanView,
    external_trait: bool,
    test_only: bool,
) -> Seq<char> {
    (if external_trait {
        Seq::empty()
    } else {
        spec_strip_attributes(item_trait) + " "@
    }) + spec_struct_text(item_trait, plan, test_only) + " "@ + spec_trait_text(
        item_trait,
        plan,
        test_only,
    ) + " "@ + spec_default_text(item_trait, plan, test_only)
}

/// What is emitted for an interface, or the first failure in resolving it.
pub open spec fn spec_generate(
    item_trait: InterfaceView,
    external_trait: bool,
    test_only: bool,
) -> Result<Seq<char>, ErrorView> {
    match spec_plan(item_trait) {
        Err(error) => Err(error),
        Ok(plan) => Ok(spec_generated_text(item_trait, plan, external_trait, test_only)),
    }
}

/// Emits the double of an interface. With `external_trait` the interface
/// itself is not emitted anew; with `test_only` what is emitted is kept to
/// test builds.
pub fn generate(item_trait: &InterfaceDeclaration, external_trait: bool, test_only: bool) -> (out:
    Result<String, GenerationError>)
    ensures
        (match out {
            Ok(text) => Ok(text@),
            Err(error) => Err(error@),
        }) == spec_generate(item_trait@, external_trait, test_only),
{
    let planned = match plan(item_trait) {
        Err(error) => {
            return Err(error);
        },
        Ok(found) => found,
    };
    let mut out = if external_trait {
        String::new()
    } else {
        let mut stripped_item_trait = strip_attributes(item_trait);
        stripped_item_trait.append(" ");
        stripped_item_trait
    };
    out.append(struct_text(item_trait, &planned, test_only).as_str());
    out.append(" ");
    out.append(trait_text(item_trait, &planned, test_only).as_str());
    out.append(" ");
    out.append(default_text(item_trait, &planned, test_only).as_str());
    Ok(out)
}

} // verus!
