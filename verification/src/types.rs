use vstd::prelude::*;
use vstd::string::StringExecFns;
use crate::text::{copy_option, copy_texts, join, spec_join, text_of, texts};

verus! {

/// The shape of one node of a type expression.
#[derive(Debug, PartialEq, Eq)]
pub enum TypeKind {
    /// `&'a mut T`; one child, the referent. No lifetime means an elided one.
    Reference { lifetime: Option<String>, mutable: bool },
    /// `a::b::C<X, Y>`; the children are the generic arguments of the last segment.
    Path { segments: Vec<String> },
    /// `(A, B)`; the children are the elements.
    Tuple,
    /// `[T]`; one child.
    Slice,
    /// `[T; N]`; one child.
    Array { length: String },
    /// `impl A + B`; the children are the bounds.
    ImplTrait,
    /// A lifetime, as a generic argument or as a bound.
    Lifetime { name: String },
    /// `<T as ToOwned>::Owned`; one child.
    Owned,
    /// `Box<dyn A + B>`; the children are the bounds.
    Boxed,
    /// Any other form, kept as written.
    Verbatim { text: String },
}

/// A type expression: a node and its ordered children.
#[derive(Debug, PartialEq, Eq)]
pub struct TypeExpr {
    pub kind: TypeKind,
    pub children: Vec<TypeExpr>,
}

/// What the shape of a node stands for in contracts.
pub ghost enum KindView {
    Reference { lifetime: Option<Seq<char>>, mutable: bool },
    Path { segments: Seq<Seq<char>> },
    Tuple,
    Slice,
    Array { length: Seq<char> },
    ImplTrait,
    Lifetime { name: Seq<char> },
    Owned,
    Boxed,
    Verbatim { text: Seq<char> },
}

/// What a type expression stands for in contracts.
pub ghost struct TypeView {
    pub kind: KindView,
    pub children: Seq<TypeView>,
}

/// What an optional name stands for in contracts.
pub open spec fn option_view(name: Option<String>) -> Option<Seq<char>> {
    match name {
        Some(n) => Some(n@),
        None => None,
    }
}

impl View for TypeKind {
    type V = KindView;

    open spec fn view(&self) -> KindView {
        match *self {
            TypeKind::Reference { lifetime, mutable } => KindView::Reference {
                lifetime: option_view(lifetime),
                mutable,
            },
            TypeKind::Path { segments } => KindView::Path { segments: texts(segments@) },
            TypeKind::Tuple => KindView::Tuple,
            TypeKind::Slice => KindView::Slice,
            TypeKind::Array { length } => KindView::Array { length: length@ },
            TypeKind::ImplTrait => KindView::ImplTrait,
            TypeKind::Lifetime { name } => KindView::Lifetime { name: name@ },
            TypeKind::Owned => KindView::Owned,
            TypeKind::Boxed => KindView::Boxed,
            TypeKind::Verbatim { text } => KindView::Verbatim { text: text@ },
        }
    }
}

/// What a type expression stands for in contracts.
pub open spec fn type_view(ty: TypeExpr) -> TypeView
    decreases ty,
{
    TypeView {
        kind: ty.kind@,
        children: Seq::new(ty.children@.len(), |i: int|
            if 0 <= i < ty.children@.len() {
                type_view(ty.children@[i])
            } else {
                TypeView { kind: KindView::Tuple, children: Seq::empty() }
            }),
    }
}

impl View for TypeExpr {
    type V = TypeView;

    open spec fn view(&self) -> TypeView {
        type_view(*self)
    }
}

/// What the type expressions stand for in contracts.
pub open spec fn types_view(types: Seq<TypeExpr>) -> Seq<TypeView> {
    Seq::new(types.len(), |i: int| types[i]@)
}

/// Whether each of the types is well-formed.
pub open spec fn spec_all_well_formed(types: Seq<TypeView>) -> bool
    decreases types,
{
    forall|i: int| 0 <= i < types.len() ==> spec_well_formed(#[trigger] types[i])
}

/// Whether every node has the children that its kind calls for: one for a
/// reference, a slice, an array and an owned counterpart, none for a
/// lifetime and for a form kept as written, at least one bound for an
/// `impl` and a box, and at least one segment in a path.
pub open spec fn spec_well_formed(ty: TypeView) -> bool
    decreases ty,
{
    (match ty.kind {
        KindView::Reference { lifetime, mutable } => ty.children.len() == 1,
        KindView::Slice => ty.children.len() == 1,
        KindView::Array { length } => ty.children.len() == 1,
        KindView::Owned => ty.children.len() == 1,
        KindView::Lifetime { name } => ty.children.len() == 0,
        KindView::Verbatim { text } => ty.children.len() == 0,
        KindView::ImplTrait => ty.children.len() >= 1,
        KindView::Boxed => ty.children.len() >= 1,
        KindView::Path { segments } => segments.len() >= 1,
        KindView::Tuple => true,
    }) && spec_all_well_formed(ty.children)
}

/// The type under every leading layer of reference.
pub open spec fn spec_referent(ty: TypeView) -> TypeView
    decreases ty,
{
    if ty.kind is Reference && ty.children.len() == 1 {
        spec_referent(ty.children[0])
    } else {
        ty
    }
}

/// The number of leading layers of reference.
pub open spec fn spec_reference_layers(ty: TypeView) -> nat
    decreases ty,
{
    if ty.kind is Reference && ty.children.len() == 1 {
        1 + spec_reference_layers(ty.children[0])
    } else {
        0
    }
}

/// The texts of the children, in order.
pub open spec fn spec_children_text(children: Seq<TypeView>) -> Seq<Seq<char>>
    decreases children,
{
    Seq::new(children.len(), |i: int|
        if 0 <= i < children.len() { spec_type_text(children[i]) } else { Seq::empty() })
}

/// The type as source text.
pub open spec fn spec_type_text(ty: TypeView) -> Seq<char>
    decreases ty,
{
    let inner = spec_children_text(ty.children);
    match ty.kind {
        KindView::Reference { lifetime, mutable } => "&"@ + (match lifetime {
            Some(name) => name + " "@,
            None => Seq::empty(),
        }) + (if mutable { "mut "@ } else { Seq::empty() }) + spec_join(inner, ", "@),
        KindView::Path { segments } => spec_join(segments, "::"@) + (if inner.len() > 0 {
            "<"@ + spec_join(inner, ", "@) + ">"@
        } else {
            Seq::empty()
        }),
        KindView::Tuple => "("@ + spec_join(inner, ", "@) + (if inner.len() == 1 {
            ","@
        } else {
            Seq::empty()
        }) + ")"@,
        KindView::Slice => "["@ + spec_join(inner, ", "@) + "]"@,
        KindView::Array { length } => "["@ + spec_join(inner, ", "@) + "; "@ + length + "]"@,
        KindView::ImplTrait => "impl "@ + spec_join(inner, " + "@),
        KindView::Lifetime { name } => name,
        KindView::Owned => "<"@ + spec_join(inner, ", "@) + " as ToOwned>::Owned"@,
        KindView::Boxed => "Box<dyn "@ + spec_join(inner, " + "@) + ">"@,
        KindView::Verbatim { text } => text,
    }
}

impl TypeKind {
    /// A kind of its own with the same content.
    pub fn duplicate(&self) -> (out: TypeKind)
        ensures
            out@ == self@,
    {
        match self {
            TypeKind::Reference { lifetime, mutable } => {
                let copied = copy_option(lifetime);
                TypeKind::Reference { lifetime: copied, mutable: *mutable }
            },
            TypeKind::Path { segments } => {
                let copied = copy_texts(segments);
                TypeKind::Path { segments: copied }
            },
            TypeKind::Tuple => TypeKind::Tuple,
            TypeKind::Slice => TypeKind::Slice,
            TypeKind::Array { length } => TypeKind::Array { length: length.clone() },
            TypeKind::ImplTrait => TypeKind::ImplTrait,
            TypeKind::Lifetime { name } => TypeKind::Lifetime { name: name.clone() },
            TypeKind::Owned => TypeKind::Owned,
            TypeKind::Boxed => TypeKind::Boxed,
            TypeKind::Verbatim { text } => TypeKind::Verbatim { text: text.clone() },
        }
    }
}

/// Copies of the types, in order.
pub fn duplicate_all(types: &Vec<TypeExpr>) -> (out: Vec<TypeExpr>)
    ensures
        types_view(out@) == types_view(types@),
        out@.len() == types@.len(),
    decreases types,
{
    let mut out: Vec<TypeExpr> = Vec::new();
    let mut i: usize = 0;
    while i < types.len()
        invariant
            0 <= i <= types.len(),
            out@.len() == i,
            forall|j: int| 0 <= j < i ==> out@[j]@ == types@[j]@,
        decreases types.len() - i,
    {
        let copied = types[i].duplicate();
        out.push(copied);
        i += 1;
    }
    proof {
        assert(types_view(out@) =~= types_view(types@));
    }
    out
}

/// The texts of the types, in order.
pub fn render_all(types: &Vec<TypeExpr>) -> (out: Vec<String>)
    ensures
        texts(out@) == spec_children_text(types_view(types@)),
    decreases types,
{
    let mut out: Vec<String> = Vec::new();
    let mut i: usize = 0;
    while i < types.len()
        invariant
            0 <= i <= types.len(),
            out@.len() == i,
            forall|j: int| 0 <= j < i ==> out@[j]@ == spec_type_text(types@[j]@),
        decreases types.len() - i,
    {
        let text = types[i].render();
        out.push(text);
        i += 1;
    }
    proof {
        assert(texts(out@) =~= spec_children_text(types_view(types@)));
    }
    out
}

impl TypeExpr {
    /// A type of its own with the same content.
    pub fn duplicate(&self) -> (out: TypeExpr)
        ensures
            out@ == self@,
        decreases self,
    {
        let kind = self.kind.duplicate();
        let children = duplicate_all(&self.children);
        let out = TypeExpr { kind, children };
        proof {
            assert(types_view(self.children@) =~= self@.children);
            assert(types_view(out.children@) =~= out@.children);
        }
        out
    }

    /// The type as source text.
    pub fn render(&self) -> (out: String)
        ensures
            out@ == spec_type_text(self@),
        decreases self,
    {
        let parts = render_all(&self.children);
        proof {
            assert(types_view(self.children@) =~= self@.children);
        }
        match &self.kind {
            TypeKind::Reference { lifetime, mutable } => {
                let mut out = text_of("&");
                match lifetime {
                    Some(name) => {
                        let mut named = name.clone();
                        named.append(" ");
                        out.append(named.as_str());
                    },
                    None => {
                        out.append("");
                        proof { reveal_strlit(""); assert(out@ =~= "&"@ + Seq::<char>::empty()); }
                    },
                }
                if *mutable {
                    out.append("mut ");
                } else {
                    proof { assert(out@ =~= out@ + Seq::<char>::empty()); }
                }
                let inner = join(&parts, ", ");
                out.append(inner.as_str());
                out
            },
            TypeKind::Path { segments } => {
                let mut out = join(segments, "::");
                if parts.len() > 0 {
                    let mut arguments = text_of("<");
                    let inner = join(&parts, ", ");
                    arguments.append(inner.as_str());
                    arguments.append(">");
                    out.append(arguments.as_str());
                } else {
                    proof { assert(out@ =~= out@ + Seq::<char>::empty()); }
                }
                out
            },
            TypeKind::Tuple => {
                let mut out = text_of("(");
                let inner = join(&parts, ", ");
                out.append(inner.as_str());
                if parts.len() == 1 {
                    out.append(",");
                } else {
                    proof { assert(out@ =~= out@ + Seq::<char>::empty()); }
                }
                out.append(")");
                out
            },
            TypeKind::Slice => {
                let mut out = text_of("[");
                let inner = join(&parts, ", ");
                out.append(inner.as_str());
                out.append("]");
                out
            },
            TypeKind::Array { length } => {
                let mut out = text_of("[");
                let inner = join(&parts, ", ");
                out.append(inner.as_str());
                out.append("; ");
                out.append(length.as_str());
                out.append("]");
                out
            },
            TypeKind::ImplTrait => {
                let mut out = text_of("impl ");
                let inner = join(&parts, " + ");
                out.append(inner.as_str());
                out
            },
            TypeKind::Lifetime { name } => name.clone(),
            TypeKind::Owned => {
                let mut out = text_of("<");
                let inner = join(&parts, ", ");
                out.append(inner.as_str());
                out.append(" as ToOwned>::Owned");
                out
            },
            TypeKind::Boxed => {
                let mut out = text_of("Box<dyn ");
                let inner = join(&parts, " + ");
                out.append(inner.as_str());
                out.append(">");
                out
            },
            TypeKind::Verbatim { text } => text.clone(),
        }
    }
}

} // verus!
