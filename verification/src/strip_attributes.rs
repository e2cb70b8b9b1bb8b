use vstd::prelude::*;
use vstd::string::StringExecFns;
use crate::arguments::{is_argument_marked_as_ignore, spec_is_argument_marked_as_ignore};
use crate::attribute::{is_autospy_attribute, spec_is_autospy_attribute};
use crate::generics::{
    angle, param_texts, spec_angle, spec_param_texts, spec_where_clause, where_clause,
};
use crate::schema::{
    views, AssociatedConstMember, AssociatedConstMemberView, AssociatedTypeMember,
    AssociatedTypeMemberView, Attribute, AttributeView, InterfaceDeclaration, InterfaceView, Member,
    MemberView, Method, MethodView, Parameter, ParameterView,
};
use crate::supertraits::{autospy_supertrait_macro, spec_autospy_supertrait_macro};
use crate::text::{concat, join, spec_concat, spec_join, text_of, texts};
use crate::types::spec_type_text;

verus! {

/// The attributes as written, in order.
pub open spec fn spec_attribute_texts(attributes: Seq<AttributeView>) -> Seq<Seq<char>> {
    Seq::new(attributes.len(), |i: int| attributes[i].text)
}

/// The attributes that carry no directive, as written and in order.
pub open spec fn spec_strip_autospy_attributes(attributes: Seq<AttributeView>) -> Seq<Seq<char>>
    decreases attributes.len(),
{
    if attributes.len() == 0 {
        Seq::empty()
    } else {
        let before = spec_strip_autospy_attributes(attributes.drop_last());
        if spec_is_autospy_attribute(attributes.last()) {
            before
        } else {
            before.push(attributes.last().text)
        }
    }
}

/// The attributes of a member as they are emitted: all of them, or only
/// those that carry no directive.
pub open spec fn spec_emitted_attributes(attributes: Seq<AttributeView>, strip: bool) -> Seq<Seq<char>> {
    if strip {
        spec_strip_autospy_attributes(attributes)
    } else {
        spec_attribute_texts(attributes)
    }
}

/// The items with a space after each.
pub open spec fn spec_lead(items: Seq<Seq<char>>) -> Seq<char> {
    if items.len() == 0 {
        Seq::empty()
    } else {
        spec_join(items, " "@) + " "@
    }
}

/// A parameter as it stands in an emitted signature. With `underscore`, a
/// parameter marked as ignored has the wildcard for its pattern.
pub open spec fn spec_parameter_text(parameter: ParameterView, strip: bool, underscore: bool) -> Seq<
    char,
> {
    spec_lead(spec_emitted_attributes(parameter.attributes, strip)) + (if underscore
        && spec_is_argument_marked_as_ignore(parameter) {
        "_"@
    } else {
        parameter.pattern_text
    }) + ": "@ + spec_type_text(parameter.ty)
}

/// The parameters as they stand in an emitted signature.
pub open spec fn spec_parameter_texts(parameters: Seq<ParameterView>, strip: bool, underscore: bool) -> Seq<
    Seq<char>,
> {
    Seq::new(parameters.len(), |i: int| spec_parameter_text(parameters[i], strip, underscore))
}

/// The receiver, where there is one, and the parameters.
pub open spec fn spec_inputs(function: MethodView, strip: bool, underscore: bool) -> Seq<Seq<char>> {
    match function.receiver {
        Some(receiver) => seq![receiver] + spec_parameter_texts(
            function.parameters,
            strip,
            underscore,
        ),
        None => spec_parameter_texts(function.parameters, strip, underscore),
    }
}

/// The signature of a method.
pub open spec fn spec_signature_text(function: MethodView, strip: bool, underscore: bool) -> Seq<char> {
    function.qualifiers + " fn "@ + function.name + spec_angle(
        spec_param_texts(function.generics.params),
    ) + "("@ + spec_join(spec_inputs(function, strip, underscore), ", "@) + ")"@ + (match function.output {
        Some(ty) => " -> "@ + spec_type_text(ty),
        None => Seq::empty(),
    }) + spec_where_clause(function.generics)
}

/// The signature with the directives taken off its parameters.
pub open spec fn spec_strip_attributes_from_signature(function: MethodView) -> Seq<char> {
    spec_signature_text(function, true, false)
}

/// A method as the interface is emitted anew.
pub open spec fn spec_method_text(function: MethodView) -> Seq<char> {
    spec_lead(spec_strip_autospy_attributes(function.attributes)) + spec_signature_text(
        function,
        true,
        false,
    ) + (match function.default {
        Some(body) => " "@ + body,
        None => ";"@,
    })
}

/// An associated type as the interface is emitted anew.
pub open spec fn spec_type_member_text(declared: AssociatedTypeMemberView) -> Seq<char> {
    spec_lead(spec_strip_autospy_attributes(declared.attributes)) + "type "@ + declared.name
        + spec_angle(spec_param_texts(declared.generics.params)) + (if declared.bounds.len() > 0 {
        ": "@ + declared.bounds
    } else {
        Seq::empty()
    }) + spec_where_clause(declared.generics) + ";"@
}

/// An associated constant as the interface is emitted anew.
pub open spec fn spec_const_member_text(declared: AssociatedConstMemberView) -> Seq<char> {
    spec_lead(spec_strip_autospy_attributes(declared.attributes)) + "const "@ + declared.name
        + ": "@ + declared.ty + (match declared.default {
        Some(value) => " = "@ + value,
        None => Seq::empty(),
    }) + ";"@
}

/// A member as the interface is emitted anew: without its directives;
/// nothing for the macro that declares a supertrait.
pub open spec fn spec_member_text(member: MemberView) -> Seq<char> {
    match member {
        MemberView::Method(function) => spec_method_text(function) + " "@,
        MemberView::Type(declared) => spec_type_member_text(declared) + " "@,
        MemberView::Const(declared) => spec_const_member_text(declared) + " "@,
        MemberView::Macro(invocation) => if spec_autospy_supertrait_macro(member).is_some() {
            Seq::empty()
        } else {
            invocation.text + " "@
        },
        MemberView::Other(text) => text + " "@,
    }
}

/// The members as the interface is emitted anew.
pub open spec fn spec_member_texts(members: Seq<MemberView>) -> Seq<Seq<char>> {
    Seq::new(members.len(), |i: int| spec_member_text(members[i]))
}

/// The interface as it is emitted anew: as declared, without the directives
/// on its members and their parameters and without the supertrait macros.
pub open spec fn spec_strip_attributes(item_trait: InterfaceView) -> Seq<char> {
    spec_lead(spec_attribute_texts(item_trait.attributes)) + item_trait.visibility + (if item_trait.unsafety {
        " unsafe"@
    } else {
        Seq::empty()
    }) + " trait "@ + item_trait.name + spec_angle(spec_param_texts(item_trait.generics.params))
        + (if item_trait.supertraits.len() > 0 {
        ": "@ + item_trait.supertraits
    } else {
        Seq::empty()
    }) + spec_where_clause(item_trait.generics) + " { "@ + spec_concat(
        spec_member_texts(item_trait.members),
    ) + "}"@
}

/// The attributes as written, in order.
pub fn attribute_texts(attributes: &Vec<Attribute>) -> (out: Vec<String>)
    ensures
        texts(out@) == spec_attribute_texts(views(attributes@)),
{
    let mut out: Vec<String> = Vec::new();
    let mut i: usize = 0;
    while i < attributes.len()
        invariant
            0 <= i <= attributes.len(),
            out@.len() == i,
            forall|j: int| 0 <= j < i ==> out@[j]@ == attributes@[j].text@,
        decreases attributes.len() - i,
    {
        out.push(attributes[i].text.clone());
        i += 1;
    }
    proof {
        assert(texts(out@) =~= spec_attribute_texts(views(attributes@)));
    }
    out
}

/// The attributes that carry no directive, as written and in order.
pub fn strip_autospy_attributes(attributes: &Vec<Attribute>) -> (out: Vec<String>)
    ensures
        texts(out@) == spec_strip_autospy_attributes(views(attributes@)),
{
    let mut out: Vec<String> = Vec::new();
    let mut i: usize = 0;
    proof {
        assert(texts(out@) =~= Seq::<Seq<char>>::empty());
    }
    while i < attributes.len()
        invariant
            0 <= i <= attributes.len(),
            texts(out@) == spec_strip_autospy_attributes(views(attributes@).take(i as int)),
        decreases attributes.len() - i,
    {
        let ghost before = texts(out@);
        proof {
            assert(views(attributes@).take(i as int + 1).drop_last() =~= views(attributes@).take(i as int));
            assert(views(attributes@).take(i as int + 1).last() == views(attributes@)[i as int]);
        }
        if !is_autospy_attribute(&attributes[i]) {
            out.push(attributes[i].text.clone());
            proof {
                assert(texts(out@) =~= before.push(views(attributes@)[i as int].text));
            }
        }
        i += 1;
    }
    proof {
        assert(views(attributes@).take(attributes.len() as int) =~= views(attributes@));
    }
    out
}

fn emitted_attributes(attributes: &Vec<Attribute>, strip: bool) -> (out: Vec<String>)
    ensures
        texts(out@) == spec_emitted_attributes(views(attributes@), strip),
{
    if strip {
        strip_autospy_attributes(attributes)
    } else {
        attribute_texts(attributes)
    }
}

/// The items with a space after each.
pub fn lead(items: &Vec<String>) -> (out: String)
    ensures
        out@ == spec_lead(texts(items@)),
{
    if items.len() == 0 {
        String::new()
    } else {
        let mut out = join(items, " ");
        out.append(" ");
        out
    }
}

fn parameter_text(parameter: &Parameter, strip: bool, underscore: bool) -> (out: String)
    ensures
        out@ == spec_parameter_text(parameter@, strip, underscore),
{
    let attributes = emitted_attributes(&parameter.attributes, strip);
    let mut out = lead(&attributes);
    if underscore && is_argument_marked_as_ignore(parameter) {
        out.append("_");
    } else {
        out.append(parameter.pattern_text.as_str());
    }
    out.append(": ");
    out.append(parameter.ty.render().as_str());
    out
}

fn inputs(function: &Method, strip: bool, underscore: bool) -> (out: Vec<String>)
    ensures
        texts(out@) == spec_inputs(function@, strip, underscore),
{
    let mut out: Vec<String> = Vec::new();
    match &function.receiver {
        Some(receiver) => {
            out.push(receiver.clone());
        },
        None => {},
    }
    let ghost start = texts(out@);
    let mut i: usize = 0;
    while i < function.parameters.len()
        invariant
            0 <= i <= function.parameters.len(),
            out@.len() == start.len() + i,
            forall|j: int| 0 <= j < start.len() ==> out@[j]@ == start[j],
            forall|j: int|
                0 <= j < i ==> out@[start.len() + j]@ == spec_parameter_text(
                    function@.parameters[j],
                    strip,
                    underscore,
                ),
        decreases function.parameters.len() - i,
    {
        out.push(parameter_text(&function.parameters[i], strip, underscore));
        i += 1;
    }
    proof {
        assert(texts(out@) =~= start + spec_parameter_texts(function@.parameters, strip, underscore));
        if function.receiver.is_some() {
            assert(start =~= seq![function.receiver.unwrap()@]);
        } else {
            assert(start =~= Seq::<Seq<char>>::empty());
            assert(start + spec_parameter_texts(function@.parameters, strip, underscore)
                =~= spec_parameter_texts(function@.parameters, strip, underscore));
        }
    }
    out
}

/// The signature of a method.
pub fn signature_text(function: &Method, strip: bool, underscore: bool) -> (out: String)
    ensures
        out@ == spec_signature_text(function@, strip, underscore),
{
    let mut out = function.qualifiers.clone();
    out.append(" fn ");
    out.append(function.name.as_str());
    out.append(angle(&param_texts(&function.generics)).as_str());
    out.append("(");
    out.append(join(&inputs(function, strip, underscore), ", ").as_str());
    out.append(")");
    match &function.output {
        Some(ty) => {
            let mut arrow = text_of(" -> ");
            arrow.append(ty.render().as_str());
            out.append(arrow.as_str());
        },
        None => {
            proof {
                assert(out@ + Seq::<char>::empty() =~= out@);
            }
        },
    }
    out.append(where_clause(&function.generics).as_str());
    out
}

/// The signature with the directives taken off its parameters.
pub fn strip_attributes_from_signature(function: &Method) -> (out: String)
    ensures
        out@ == spec_strip_attributes_from_signature(function@),
{
    signature_text(function, true, false)
}

fn method_text(function: &Method) -> (out: String)
    ensures
        out@ == spec_method_text(function@),
{
    let mut out = lead(&strip_autospy_attributes(&function.attributes));
    out.append(signature_text(function, true, false).as_str());
    match &function.default {
        Some(body) => {
            let mut tail = text_of(" ");
            tail.append(body.as_str());
            out.append(tail.as_str());
        },
        None => {
            out.append(";");
        },
    }
    out
}

fn type_member_text(declared: &AssociatedTypeMember) -> (out: String)
    ensures
        out@ == spec_type_member_text(declared@),
{
    let mut out = lead(&strip_autospy_attributes(&declared.attributes));
    out.append("type ");
    out.append(declared.name.as_str());
    out.append(angle(&param_texts(&declared.generics)).as_str());
    if declared.bounds.as_str().unicode_len() > 0 {
        let mut bounds = text_of(": ");
        bounds.append(declared.bounds.as_str());
        out.append(bounds.as_str());
    } else {
        proof {
            assert(out@ + Seq::<char>::empty() =~= out@);
        }
    }
    out.append(where_clause(&declared.generics).as_str());
    out.append(";");
    out
}

fn const_member_text(declared: &AssociatedConstMember) -> (out: String)
    ensures
        out@ == spec_const_member_text(declared@),
{
    let mut out = lead(&strip_autospy_attributes(&declared.attributes));
    out.append("const ");
    out.append(declared.name.as_str());
    out.append(": ");
    out.append(declared.ty.as_str());
    match &declared.default {
        Some(value) => {
            let mut tail = text_of(" = ");
            tail.append(value.as_str());
            out.append(tail.as_str());
        },
        None => {
            proof {
                assert(out@ + Seq::<char>::empty() =~= out@);
            }
        },
    }
    out.append(";");
    out
}

fn strip_attributes_from_item(item: &Member) -> (out: String)
    ensures
        out@ == spec_member_text(item@),
{
    match item {
        Member::Method(function) => {
            let mut out = method_text(function);
            out.append(" ");
            out
        },
        Member::Type(declared) => {
            let mut out = type_member_text(declared);
            out.append(" ");
            out
        },
        Member::Const(declared) => {
            let mut out = const_member_text(declared);
            out.append(" ");
            out
        },
        Member::Macro(invocation) => {
            if autospy_supertrait_macro(item).is_some() {
                String::new()
            } else {
                let mut out = invocation.text.clone();
                out.append(" ");
                out
            }
        },
        Member::Other(text) => {
            let mut out = text.clone();
            out.append(" ");
            out
        },
    }
}

/// The interface as it is emitted anew.
pub fn strip_attributes(item_trait: &InterfaceDeclaration) -> (out: String)
    ensures
        out@ == spec_strip_attributes(item_trait@),
{
    let mut members: Vec<String> = Vec::new();
    let mut i: usize = 0;
    while i < item_trait.members.len()
        invariant
            0 <= i <= item_trait.members.len(),
            members@.len() == i,
            forall|j: int| 0 <= j < i ==> members@[j]@ == spec_member_text(item_trait@.members[j]),
        decreases item_trait.members.len() - i,
    {
        members.push(strip_attributes_from_item(&item_trait.members[i]));
        i += 1;
    }
    proof {
        assert(texts(members@) =~= spec_member_texts(item_trait@.members));
    }
    let mut out = lead(&attribute_texts(&item_trait.attributes));
    out.append(item_trait.visibility.as_str());
    if item_trait.unsafety {
        out.append(" unsafe");
    } else {
        proof {
            assert(out@ + Seq::<char>::empty() =~= out@);
        }
    }
    out.append(" trait ");
    out.append(item_trait.name.as_str());
    out.append(angle(&param_texts(&item_trait.generics)).as_str());
    if item_trait.supertraits.as_str().unicode_len() > 0 {
        let mut bounds = text_of(": ");
        bounds.append(item_trait.supertraits.as_str());
        out.append(bounds.as_str());
    } else {
        proof {
            assert(out@ + Seq::<char>::empty() =~= out@);
        }
    }
    out.append(where_clause(&item_trait.generics).as_str());
    out.append(" { ");
    out.append(concat(&members).as_str());
    out.append("}");
    out
}

} // verus!
