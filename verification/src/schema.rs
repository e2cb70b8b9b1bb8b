use vstd::prelude::*;
use crate::text::texts;
use crate::types::{types_view, TypeExpr, TypeView};

verus! {

/// The three forms an attribute or one of its arguments can take.
pub enum MetaKind {
    /// A bare path: `name`.
    Path,
    /// A path and a parenthesised body: `name(...)`.
    List,
    /// A path and a value: `name = value`.
    NameValue,
}

/// A run of tokens as written, with what it reads as.
pub struct Tokens {
    /// The tokens as written.
    pub text: String,
    /// The tokens read as a type, where they form one.
    pub as_type: Option<TypeExpr>,
    /// Whether the tokens read as an expression.
    pub is_expression: bool,
}

/// One `key = value` argument of a directive.
pub struct Pair {
    pub key: String,
    /// The content of the value where it is a string literal.
    pub value: Option<Tokens>,
}

/// What stands between the parentheses of a list.
pub struct Directive {
    pub tokens: Tokens,
    /// The `key = value` arguments among the tokens, in order; empty where
    /// the tokens do not read as a list of arguments.
    pub pairs: Vec<Pair>,
}

/// One argument of a list attribute.
pub struct Argument {
    pub kind: MetaKind,
    pub name: String,
    /// For a list, what stands between its parentheses.
    pub content: Directive,
}

/// An attribute attached to a declaration, a member or a parameter.
pub struct Attribute {
    pub kind: MetaKind,
    pub name: String,
    /// The whole attribute as written.
    pub text: String,
    /// For a list, what stands between its parentheses.
    pub content: Directive,
    /// For a list, its body read as comma-separated arguments, where it
    /// reads that way.
    pub arguments: Option<Vec<Argument>>,
}

/// How a parameter binds its value.
pub enum Pattern {
    /// A plain name.
    Name(String),
    /// The wildcard `_`.
    Wildcard,
    /// Any other pattern.
    Other,
}

/// A parameter of a method, after the receiver.
pub struct Parameter {
    pub attributes: Vec<Attribute>,
    pub pattern: Pattern,
    /// The pattern as written.
    pub pattern_text: String,
    pub ty: TypeExpr,
}

/// A generic parameter of an interface, a method or an associated type.
pub enum GenericParam {
    /// `text` is the parameter as written, bounds included.
    Lifetime { name: String, text: String },
    /// `text` is the parameter as written, bounds and default included.
    Type { name: String, bounds: Vec<TypeExpr>, text: String },
    /// `text` is the parameter as written.
    Const { name: String, text: String },
}

/// One predicate of a where clause.
pub struct WherePredicate {
    /// The bounded type, where the predicate bounds a type.
    pub bounded: Option<TypeExpr>,
    pub bounds: Vec<TypeExpr>,
    /// The predicate as written.
    pub text: String,
}

/// The generic parameters of a declaration and the predicates of its where
/// clause.
pub struct Generics {
    pub params: Vec<GenericParam>,
    pub predicates: Vec<WherePredicate>,
}

/// A method of an interface.
pub struct Method {
    pub attributes: Vec<Attribute>,
    /// What stands before `fn`, as written: `async`, `unsafe`, or nothing.
    pub qualifiers: String,
    pub name: String,
    pub generics: Generics,
    /// The receiver as written, where there is one.
    pub receiver: Option<String>,
    /// The parameters after the receiver.
    pub parameters: Vec<Parameter>,
    /// The declared return type; none means unit.
    pub output: Option<TypeExpr>,
    /// The default body as written, braces included.
    pub default: Option<String>,
}

/// An associated type of an interface.
pub struct AssociatedTypeMember {
    pub attributes: Vec<Attribute>,
    pub name: String,
    pub generics: Generics,
    /// The bounds after the colon, as written; empty where there are none.
    pub bounds: String,
}

/// An associated constant of an interface.
pub struct AssociatedConstMember {
    pub attributes: Vec<Attribute>,
    pub name: String,
    /// The declared type as written.
    pub ty: String,
    /// The default value as written, where the declaration gives one.
    pub default: Option<String>,
}

/// A macro invocation among the members.
pub struct MacroMember {
    pub path: Vec<String>,
    /// The whole invocation as written, attributes included.
    pub text: String,
    /// The body read as an interface declaration, where it reads as one.
    pub fragment: Option<Box<InterfaceDeclaration>>,
}

/// One member of an interface.
pub enum Member {
    Method(Method),
    Type(AssociatedTypeMember),
    Const(AssociatedConstMember),
    Macro(MacroMember),
    /// Any other item, as written.
    Other(String),
}

/// The declaration of an interface: a trait as written, member by member.
pub struct InterfaceDeclaration {
    pub attributes: Vec<Attribute>,
    /// The visibility as written; empty for a private declaration.
    pub visibility: String,
    pub unsafety: bool,
    pub name: String,
    pub generics: Generics,
    /// The supertrait bounds after the colon, as written; empty where there
    /// are none.
    pub supertraits: String,
    pub members: Vec<Member>,
}

/// What the items stand for in contracts, in order.
pub open spec fn views<T: View>(items: Seq<T>) -> Seq<T::V> {
    Seq::new(items.len(), |i: int| items[i]@)
}

/// What an optional text stands for in contracts.
pub open spec fn text_view(text: Option<String>) -> Option<Seq<char>> {
    match text {
        Some(found) => Some(found@),
        None => None,
    }
}

/// What an optional type stands for in contracts.
pub open spec fn optional_type_view(ty: Option<TypeExpr>) -> Option<TypeView> {
    match ty {
        Some(found) => Some(found@),
        None => None,
    }
}

/// What a run of tokens stands for in contracts.
pub ghost struct TokensView {
    pub text: Seq<char>,
    pub as_type: Option<TypeView>,
    pub is_expression: bool,
}

impl View for Tokens {
    type V = TokensView;

    open spec fn view(&self) -> TokensView {
        TokensView {
            text: self.text@,
            as_type: optional_type_view(self.as_type),
            is_expression: self.is_expression,
        }
    }
}

/// What a `key = value` argument stands for in contracts.
pub ghost struct PairView {
    pub key: Seq<char>,
    pub value: Option<TokensView>,
}

impl View for Pair {
    type V = PairView;

    open spec fn view(&self) -> PairView {
        PairView {
            key: self.key@,
            value: match self.value {
                Some(content) => Some(content@),
                None => None,
            },
        }
    }
}

/// What the body of a list stands for in contracts.
pub ghost struct DirectiveView {
    pub tokens: TokensView,
    pub pairs: Seq<PairView>,
}

impl View for Directive {
    type V = DirectiveView;

    open spec fn view(&self) -> DirectiveView {
        DirectiveView { tokens: self.tokens@, pairs: views(self.pairs@) }
    }
}

/// What an argument of a list attribute stands for in contracts.
pub ghost struct ArgumentView {
    pub kind: MetaKind,
    pub name: Seq<char>,
    pub content: DirectiveView,
}

impl View for Argument {
    type V = ArgumentView;

    open spec fn view(&self) -> ArgumentView {
        ArgumentView { kind: self.kind, name: self.name@, content: self.content@ }
    }
}

/// What an attribute stands for in contracts.
pub ghost struct AttributeView {
    pub kind: MetaKind,
    pub name: Seq<char>,
    pub text: Seq<char>,
    pub content: DirectiveView,
    pub arguments: Option<Seq<ArgumentView>>,
}

impl View for Attribute {
    type V = AttributeView;

    open spec fn view(&self) -> AttributeView {
        AttributeView {
            kind: self.kind,
            name: self.name@,
            text: self.text@,
            content: self.content@,
            arguments: match self.arguments {
                Some(arguments) => Some(views(arguments@)),
                None => None,
            },
        }
    }
}

/// What a pattern stands for in contracts.
pub ghost enum PatternView {
    Name(Seq<char>),
    Wildcard,
    Other,
}

impl View for Pattern {
    type V = PatternView;

    open spec fn view(&self) -> PatternView {
        match *self {
            Pattern::Name(name) => PatternView::Name(name@),
            Pattern::Wildcard => PatternView::Wildcard,
            Pattern::Other => PatternView::Other,
        }
    }
}

/// What a parameter stands for in contracts.
pub ghost struct ParameterView {
    pub attributes: Seq<AttributeView>,
    pub pattern: PatternView,
    pub pattern_text: Seq<char>,
    pub ty: TypeView,
}

impl View for Parameter {
    type V = ParameterView;

    open spec fn view(&self) -> ParameterView {
        ParameterView {
            attributes: views(self.attributes@),
            pattern: self.pattern@,
            pattern_text: self.pattern_text@,
            ty: self.ty@,
        }
    }
}

/// What a generic parameter stands for in contracts.
pub ghost enum GenericParamView {
    Lifetime { name: Seq<char>, text: Seq<char> },
    Type { name: Seq<char>, bounds: Seq<TypeView>, text: Seq<char> },
    Const { name: Seq<char>, text: Seq<char> },
}

impl View for GenericParam {
    type V = GenericParamView;

    open spec fn view(&self) -> GenericParamView {
        match *self {
            GenericParam::Lifetime { name, text } => GenericParamView::Lifetime {
                name: name@,
                text: text@,
            },
            GenericParam::Type { name, bounds, text } => GenericParamView::Type {
                name: name@,
                bounds: types_view(bounds@),
                text: text@,
            },
            GenericParam::Const { name, text } => GenericParamView::Const { name: name@, text: text@ },
        }
    }
}

/// What a predicate of a where clause stands for in contracts.
pub ghost struct WherePredicateView {
    pub bounded: Option<TypeView>,
    pub bounds: Seq<TypeView>,
    pub text: Seq<char>,
}

impl View for WherePredicate {
    type V = WherePredicateView;

    open spec fn view(&self) -> WherePredicateView {
        WherePredicateView {
            bounded: optional_type_view(self.bounded),
            bounds: types_view(self.bounds@),
            text: self.text@,
        }
    }
}

/// What the generics of a declaration stand for in contracts.
pub ghost struct GenericsView {
    pub params: Seq<GenericParamView>,
    pub predicates: Seq<WherePredicateView>,
}

impl View for Generics {
    type V = GenericsView;

    open spec fn view(&self) -> GenericsView {
        GenericsView { params: views(self.params@), predicates: views(self.predicates@) }
    }
}

/// What a method stands for in contracts.
pub ghost struct MethodView {
    pub attributes: Seq<AttributeView>,
    pub qualifiers: Seq<char>,
    pub name: Seq<char>,
    pub generics: GenericsView,
    pub receiver: Option<Seq<char>>,
    pub parameters: Seq<ParameterView>,
    pub output: Option<TypeView>,
    pub default: Option<Seq<char>>,
}

impl View for Method {
    type V = MethodView;

    open spec fn view(&self) -> MethodView {
        MethodView {
            attributes: views(self.attributes@),
            qualifiers: self.qualifiers@,
            name: self.name@,
            generics: self.generics@,
            receiver: text_view(self.receiver),
            parameters: views(self.parameters@),
            output: optional_type_view(self.output),
            default: text_view(self.default),
        }
    }
}

/// What an associated type stands for in contracts.
pub ghost struct AssociatedTypeMemberView {
    pub attributes: Seq<AttributeView>,
    pub name: Seq<char>,
    pub generics: GenericsView,
    pub bounds: Seq<char>,
}

impl View for AssociatedTypeMember {
    type V = AssociatedTypeMemberView;

    open spec fn view(&self) -> AssociatedTypeMemberView {
        AssociatedTypeMemberView {
            attributes: views(self.attributes@),
            name: self.name@,
            generics: self.generics@,
            bounds: self.bounds@,
        }
    }
}

/// What an associated constant stands for in contracts.
pub ghost struct AssociatedConstMemberView {
    pub attributes: Seq<AttributeView>,
    pub name: Seq<char>,
    pub ty: Seq<char>,
    pub default: Option<Seq<char>>,
}

impl View for AssociatedConstMember {
    type V = AssociatedConstMemberView;

    open spec fn view(&self) -> AssociatedConstMemberView {
        AssociatedConstMemberView {
            attributes: views(self.attributes@),
            name: self.name@,
            ty: self.ty@,
            default: text_view(self.default),
        }
    }
}

/// What a macro invocation stands for in contracts.
pub ghost struct MacroMemberView {
    pub path: Seq<Seq<char>>,
    pub text: Seq<char>,
    pub fragment: Option<Box<InterfaceView>>,
}

/// What a member stands for in contracts.
pub ghost enum MemberView {
    Method(MethodView),
    Type(AssociatedTypeMemberView),
    Const(AssociatedConstMemberView),
    Macro(MacroMemberView),
    Other(Seq<char>),
}

/// What the declaration of an interface stands for in contracts.
pub ghost struct InterfaceView {
    pub attributes: Seq<AttributeView>,
    pub visibility: Seq<char>,
    pub unsafety: bool,
    pub name: Seq<char>,
    pub generics: GenericsView,
    pub supertraits: Seq<char>,
    pub members: Seq<MemberView>,
}

/// What a macro invocation stands for in contracts.
pub open spec fn macro_view(invocation: MacroMember) -> MacroMemberView
    decreases invocation,
{
    MacroMemberView {
        path: texts(invocation.path@),
        text: invocation.text@,
        fragment: match invocation.fragment {
            Some(declaration) => Some(Box::new(interface_view(*declaration))),
            None => None,
        },
    }
}

/// What a member stands for in contracts.
pub open spec fn member_view(member: Member) -> MemberView
    decreases member,
{
    match member {
        Member::Method(function) => MemberView::Method(function@),
        Member::Type(declared) => MemberView::Type(declared@),
        Member::Const(declared) => MemberView::Const(declared@),
        Member::Macro(invocation) => MemberView::Macro(macro_view(invocation)),
        Member::Other(text) => MemberView::Other(text@),
    }
}

/// What the declaration of an interface stands for in contracts.
pub open spec fn interface_view(item_trait: InterfaceDeclaration) -> InterfaceView
    decreases item_trait,
{
    InterfaceView {
        attributes: views(item_trait.attributes@),
        visibility: item_trait.visibility@,
        unsafety: item_trait.unsafety,
        name: item_trait.name@,
        generics: item_trait.generics@,
        supertraits: item_trait.supertraits@,
        members: Seq::new(
            item_trait.members@.len(),
            |i: int|
                if 0 <= i < item_trait.members@.len() {
                    member_view(item_trait.members@[i])
                } else {
                    MemberView::Other(Seq::empty())
                },
        ),
    }
}

impl View for MacroMember {
    type V = MacroMemberView;

    open spec fn view(&self) -> MacroMemberView {
        macro_view(*self)
    }
}

impl View for Member {
    type V = MemberView;

    open spec fn view(&self) -> MemberView {
        member_view(*self)
    }
}

impl View for InterfaceDeclaration {
    type V = InterfaceView;

    open spec fn view(&self) -> InterfaceView {
        interface_view(*self)
    }
}

/// The members of a declaration as contracts see them are what its members
/// stand for, in order.
pub proof fn lemma_members_view(item_trait: InterfaceDeclaration)
    ensures
        item_trait@.members == views(item_trait.members@),
{
    assert(item_trait@.members =~= views(item_trait.members@));
}

} // verus!
