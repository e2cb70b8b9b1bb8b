use vstd::prelude::*;
use crate::error::ErrorKind;
use crate::schema::{
    views, Attribute, AttributeView, Directive, DirectiveView, MetaKind, Pair, PairView,
};
use crate::text::same_text;
use crate::types::{TypeExpr, TypeView};

verus! {

/// What a found type stands for in contracts.
pub open spec fn type_outcome(found: Result<Option<TypeExpr>, ErrorKind>) -> Result<
    Option<TypeView>,
    ErrorKind,
> {
    match found {
        Ok(Some(ty)) => Ok(Some(ty@)),
        Ok(None) => Ok(None),
        Err(kind) => Err(kind),
    }
}

/// What a found text stands for in contracts.
pub open spec fn text_outcome(found: Result<Option<String>, ErrorKind>) -> Result<
    Option<Seq<char>>,
    ErrorKind,
> {
    match found {
        Ok(Some(text)) => Ok(Some(text@)),
        Ok(None) => Ok(None),
        Err(kind) => Err(kind),
    }
}

/// The directive that an attribute carries: the body of `autospy(..)`, or of
/// the `autospy(..)` that is the second of the two arguments of a `cfg_attr`.
pub open spec fn spec_autospy_attribute(attribute: AttributeView) -> Option<DirectiveView> {
    if attribute.kind is List && attribute.name == "autospy"@ {
        Some(attribute.content)
    } else if attribute.kind is List && attribute.name == "cfg_attr"@ {
        match attribute.arguments {
            Some(arguments) => if arguments.len() == 2 && arguments[1].kind is List
                && arguments[1].name == "autospy"@ {
                Some(arguments[1].content)
            } else {
                None
            },
            None => None,
        }
    } else {
        None
    }
}

/// Whether the attribute carries a directive.
pub open spec fn spec_is_autospy_attribute(attribute: AttributeView) -> bool {
    spec_autospy_attribute(attribute).is_some()
}

/// Whether the attribute carries the directive `ignore`.
pub open spec fn spec_is_ignore_attribute(attribute: AttributeView) -> bool {
    match spec_autospy_attribute(attribute) {
        Some(directive) => directive.tokens.text == "ignore"@,
        None => false,
    }
}

/// The first directive among the attributes.
pub open spec fn spec_first_directive(attributes: Seq<AttributeView>) -> Option<DirectiveView>
    decreases attributes.len(),
{
    if attributes.len() == 0 {
        None
    } else {
        match spec_autospy_attribute(attributes[0]) {
            Some(directive) => Some(directive),
            None => spec_first_directive(attributes.skip(1)),
        }
    }
}

/// Whether some directive among the attributes is the word `use_default`.
pub open spec fn spec_has_use_default_attribute(attributes: Seq<AttributeView>) -> bool {
    exists|i: int|
        0 <= i < attributes.len() && (#[trigger] spec_autospy_attribute(attributes[i])).is_some()
            && spec_autospy_attribute(attributes[i]).unwrap().tokens.text == "use_default"@
}

/// The first pair with the given key.
pub open spec fn spec_pair_in(pairs: Seq<PairView>, key: Seq<char>) -> Option<PairView>
    decreases pairs.len(),
{
    if pairs.len() == 0 {
        None
    } else if pairs[0].key == key {
        Some(pairs[0])
    } else {
        spec_pair_in(pairs.skip(1), key)
    }
}

/// The first pair with the given key among all directives, in order.
pub open spec fn spec_pair(attributes: Seq<AttributeView>, key: Seq<char>) -> Option<PairView>
    decreases attributes.len(),
{
    if attributes.len() == 0 {
        None
    } else {
        let found = match spec_autospy_attribute(attributes[0]) {
            Some(directive) => spec_pair_in(directive.pairs, key),
            None => None,
        };
        match found {
            Some(pair) => Some(pair),
            None => spec_pair(attributes.skip(1), key),
        }
    }
}

/// The type that the pair with the given key names.
pub open spec fn spec_type_value(attributes: Seq<AttributeView>, key: Seq<char>) -> Result<
    Option<TypeView>,
    ErrorKind,
> {
    match spec_pair(attributes, key) {
        None => Ok(None),
        Some(pair) => match pair.value {
            None => Err(ErrorKind::InvalidValue),
            Some(content) => match content.as_type {
                None => Err(ErrorKind::UnparsableValue),
                Some(ty) => Ok(Some(ty)),
            },
        },
    }
}

/// The expression that the pair with the given key holds.
pub open spec fn spec_expression_value(attributes: Seq<AttributeView>, key: Seq<char>) -> Result<
    Option<Seq<char>>,
    ErrorKind,
> {
    match spec_pair(attributes, key) {
        None => Ok(None),
        Some(pair) => match pair.value {
            None => Err(ErrorKind::InvalidValue),
            Some(content) => if content.is_expression {
                Ok(Some(content.text))
            } else {
                Err(ErrorKind::UnparsableValue)
            },
        },
    }
}

/// The type that the first directive binds an associated type to.
pub open spec fn spec_associated_type(attributes: Seq<AttributeView>) -> Result<
    Option<TypeView>,
    ErrorKind,
> {
    match spec_first_directive(attributes) {
        None => Ok(None),
        Some(directive) => match directive.tokens.as_type {
            None => Err(ErrorKind::InvalidAssociatedType),
            Some(ty) => Ok(Some(ty)),
        },
    }
}

/// The value that the first directive gives an associated constant, as
/// written: none where no directive is attached, a failure where the
/// directive reads as no expression.
pub open spec fn spec_associated_const(attributes: Seq<AttributeView>) -> Result<
    Option<Seq<char>>,
    ErrorKind,
> {
    match spec_first_directive(attributes) {
        None => Ok(None),
        Some(directive) => if directive.tokens.is_expression {
            Ok(Some(directive.tokens.text))
        } else {
            Err(ErrorKind::UnparsableValue)
        },
    }
}

/// The directive that an attribute carries.
pub fn autospy_attribute(attribute: &Attribute) -> (found: Option<&Directive>)
    ensures
        found.is_some() == spec_autospy_attribute(attribute@).is_some(),
        found.is_some() ==> found.unwrap()@ == spec_autospy_attribute(attribute@).unwrap(),
{
    match attribute.kind {
        MetaKind::List => {
            if same_text(&attribute.name, "autospy") {
                Some(&attribute.content)
            } else if same_text(&attribute.name, "cfg_attr") {
                match &attribute.arguments {
                    Some(arguments) => {
                        if arguments.len() == 2 {
                            let inner = &arguments[1];
                            match inner.kind {
                                MetaKind::List => {
                                    if same_text(&inner.name, "autospy") {
                                        Some(&inner.content)
                                    } else {
                                        None
                                    }
                                },
                                _ => None,
                            }
                        } else {
                            None
                        }
                    },
                    None => None,
                }
            } else {
                None
            }
        },
        _ => None,
    }
}

/// Whether the attribute carries a directive.
pub fn is_autospy_attribute(attribute: &Attribute) -> (found: bool)
    ensures
        found == spec_is_autospy_attribute(attribute@),
{
    autospy_attribute(attribute).is_some()
}

/// Whether the attribute carries the directive `ignore`.
pub fn is_ignore_attribute(attribute: &Attribute) -> (found: bool)
    ensures
        found == spec_is_ignore_attribute(attribute@),
{
    match autospy_attribute(attribute) {
        Some(directive) => same_text(&directive.tokens.text, "ignore"),
        None => false,
    }
}

/// Whether some directive among the attributes is the word `use_default`.
pub fn has_use_default_attribute(attributes: &Vec<Attribute>) -> (found: bool)
    ensures
        found == spec_has_use_default_attribute(views(attributes@)),
{
    let mut i: usize = 0;
    while i < attributes.len()
        invariant
            0 <= i <= attributes.len(),
            forall|j: int|
                0 <= j < i ==> !((#[trigger] spec_autospy_attribute(views(attributes@)[j])).is_some()
                    && spec_autospy_attribute(views(attributes@)[j]).unwrap().tokens.text
                    == "use_default"@),
        decreases attributes.len() - i,
    {
        proof {
            assert(views(attributes@)[i as int] == attributes@[i as int]@);
        }
        match autospy_attribute(&attributes[i]) {
            Some(directive) => {
                if same_text(&directive.tokens.text, "use_default") {
                    return true;
                }
            },
            None => {},
        }
        i += 1;
    }
    false
}

fn first_directive(attributes: &Vec<Attribute>) -> (found: Option<&Directive>)
    ensures
        found.is_some() == spec_first_directive(views(attributes@)).is_some(),
        found.is_some() ==> found.unwrap()@ == spec_first_directive(views(attributes@)).unwrap(),
{
    let mut i: usize = 0;
    proof {
        assert(views(attributes@).skip(0) =~= views(attributes@));
    }
    while i < attributes.len()
        invariant
            0 <= i <= attributes.len(),
            spec_first_directive(views(attributes@)) == spec_first_directive(
                views(attributes@).skip(i as int),
            ),
        decreases attributes.len() - i,
    {
        proof {
            assert(views(attributes@).skip(i as int)[0] == attributes@[i as int]@);
            assert(views(attributes@).skip(i as int).skip(1) =~= views(attributes@).skip(i as int + 1));
        }
        match autospy_attribute(&attributes[i]) {
            Some(directive) => {
                return Some(directive);
            },
            None => {},
        }
        i += 1;
    }
    None
}

fn pair_in<'a>(pairs: &'a Vec<Pair>, key: &str) -> (found: Option<&'a Pair>)
    ensures
        found.is_some() == spec_pair_in(views(pairs@), key@).is_some(),
        found.is_some() ==> found.unwrap()@ == spec_pair_in(views(pairs@), key@).unwrap(),
{
    let mut i: usize = 0;
    proof {
        assert(views(pairs@).skip(0) =~= views(pairs@));
    }
    while i < pairs.len()
        invariant
            0 <= i <= pairs.len(),
            spec_pair_in(views(pairs@), key@) == spec_pair_in(views(pairs@).skip(i as int), key@),
        decreases pairs.len() - i,
    {
        proof {
            assert(views(pairs@).skip(i as int)[0] == pairs@[i as int]@);
            assert(views(pairs@).skip(i as int).skip(1) =~= views(pairs@).skip(i as int + 1));
        }
        if same_text(&pairs[i].key, key) {
            return Some(&pairs[i]);
        }
        i += 1;
    }
    None
}

fn pair<'a>(attributes: &'a Vec<Attribute>, key: &str) -> (found: Option<&'a Pair>)
    ensures
        found.is_some() == spec_pair(views(attributes@), key@).is_some(),
        found.is_some() ==> found.unwrap()@ == spec_pair(views(attributes@), key@).unwrap(),
{
    let mut i: usize = 0;
    proof {
        assert(views(attributes@).skip(0) =~= views(attributes@));
    }
    while i < attributes.len()
        invariant
            0 <= i <= attributes.len(),
            spec_pair(views(attributes@), key@) == spec_pair(
                views(attributes@).skip(i as int),
                key@,
            ),
        decreases attributes.len() - i,
    {
        proof {
            assert(views(attributes@).skip(i as int)[0] == attributes@[i as int]@);
            assert(views(attributes@).skip(i as int).skip(1) =~= views(attributes@).skip(i as int + 1));
        }
        match autospy_attribute(&attributes[i]) {
            Some(directive) => {
                match pair_in(&directive.pairs, key) {
                    Some(found) => {
                        return Some(found);
                    },
                    None => {},
                }
            },
            None => {},
        }
        i += 1;
    }
    None
}

fn type_value(attributes: &Vec<Attribute>, key: &str) -> (found: Result<Option<TypeExpr>, ErrorKind>)
    ensures
        type_outcome(found) == spec_type_value(views(attributes@), key@),
{
    match pair(attributes, key) {
        None => Ok(None),
        Some(pair) => match &pair.value {
            None => Err(ErrorKind::InvalidValue),
            Some(content) => match &content.as_type {
                None => Err(ErrorKind::UnparsableValue),
                Some(ty) => Ok(Some(ty.duplicate())),
            },
        },
    }
}

fn expression_value(attributes: &Vec<Attribute>, key: &str) -> (found: Result<Option<String>, ErrorKind>)
    ensures
        text_outcome(found) == spec_expression_value(views(attributes@), key@),
{
    match pair(attributes, key) {
        None => Ok(None),
        Some(pair) => match &pair.value {
            None => Err(ErrorKind::InvalidValue),
            Some(content) => if content.is_expression {
                Ok(Some(content.text.clone()))
            } else {
                Err(ErrorKind::UnparsableValue)
            },
        },
    }
}

/// The type that the first directive binds an associated type to: none
/// where no directive is attached, an error where it does not read as a type.
pub fn associated_type(attributes: &Vec<Attribute>) -> (found: Result<Option<TypeExpr>, ErrorKind>)
    ensures
        type_outcome(found) == spec_associated_type(views(attributes@)),
{
    match first_directive(attributes) {
        None => Ok(None),
        Some(directive) => match &directive.tokens.as_type {
            None => Err(ErrorKind::InvalidAssociatedType),
            Some(ty) => Ok(Some(ty.duplicate())),
        },
    }
}

/// The value that the first directive gives an associated constant, as
/// written: none where no directive is attached, a failure where the
/// directive reads as no expression.
pub fn associated_const(attributes: &Vec<Attribute>) -> (found: Result<Option<String>, ErrorKind>)
    ensures
        text_outcome(found) == spec_associated_const(views(attributes@)),
{
    match first_directive(attributes) {
        None => Ok(None),
        Some(directive) => if directive.tokens.is_expression {
            Ok(Some(directive.tokens.text.clone()))
        } else {
            Err(ErrorKind::UnparsableValue)
        },
    }
}

/// The type named by the first `into = ".."` among the directives.
pub fn into_type(attributes: &Vec<Attribute>) -> (found: Result<Option<TypeExpr>, ErrorKind>)
    ensures
        type_outcome(found) == spec_type_value(views(attributes@), "into"@),
{
    type_value(attributes, "into")
}

/// The expression held by the first `with = ".."` among the directives.
pub fn with_expression(attributes: &Vec<Attribute>) -> (found: Result<Option<String>, ErrorKind>)
    ensures
        text_outcome(found) == spec_expression_value(views(attributes@), "with"@),
{
    expression_value(attributes, "with")
}

/// The type named by the first `returns = ".."` among the directives.
pub fn return_type(attributes: &Vec<Attribute>) -> (found: Result<Option<TypeExpr>, ErrorKind>)
    ensures
        type_outcome(found) == spec_type_value(views(attributes@), "returns"@),
{
    type_value(attributes, "returns")
}

} // verus!
