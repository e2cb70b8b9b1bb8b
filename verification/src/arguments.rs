use vstd::prelude::*;
use crate::associated_types::{bindings_view, AssociatedType, AssociatedTypeView};
use crate::attribute::{
    into_type, is_ignore_attribute, spec_expression_value, spec_is_ignore_attribute,
    spec_type_value, with_expression,
};
use crate::edit::{spec_replace, AssociatedTypeReplacer};
use crate::error::{ErrorKind, ErrorView, GenerationError};
use crate::schema::{
    views, GenericParam, GenericParamView, Generics, GenericsView, Method, MethodView, Parameter,
    ParameterView, Pattern, PatternView, WherePredicate, WherePredicateView,
};
use crate::text::same_text;
use crate::types::{
    duplicate_all, spec_reference_layers, spec_referent, types_view, KindView, TypeExpr, TypeKind,
    TypeView,
};

verus! {

/// A parameter that the double captures.
#[derive(Debug, PartialEq, Eq)]
pub struct SpyArgument {
    pub name: String,
    pub into_type: Option<TypeExpr>,
    pub with_expression: Option<String>,
    /// The declared type under its leading references; for a parameter of a
    /// generic type, `impl` of the bounds of that type.
    pub dereferenced_type: TypeExpr,
    /// The number of leading references of the declared type.
    pub dereference_count: u8,
}

/// What a captured parameter stands for in contracts.
pub ghost struct SpyArgumentView {
    pub name: Seq<char>,
    pub into_type: Option<TypeView>,
    pub with_expression: Option<Seq<char>>,
    pub dereferenced_type: TypeView,
    pub dereference_count: nat,
}

impl View for SpyArgument {
    type V = SpyArgumentView;

    open spec fn view(&self) -> SpyArgumentView {
        SpyArgumentView {
            name: self.name@,
            into_type: match self.into_type {
                Some(ty) => Some(ty@),
                None => None,
            },
            with_expression: match self.with_expression {
                Some(text) => Some(text@),
                None => None,
            },
            dereferenced_type: self.dereferenced_type@,
            dereference_count: self.dereference_count as nat,
        }
    }
}

/// What the captured parameters stand for in contracts.
pub open spec fn arguments_view(arguments: Seq<SpyArgument>) -> Seq<SpyArgumentView> {
    Seq::new(arguments.len(), |i: int| arguments[i]@)
}

/// The bounds of one generic type, under its name.
pub struct GenericBound {
    pub name: String,
    pub bounds: Vec<TypeExpr>,
}

/// The bounds of the generic types in scope, by name. A later entry for a
/// name replaces an earlier one.
pub struct GenericBoundsMap {
    pub entries: Vec<GenericBound>,
}

/// The map that the entries make, a later entry for a name in place of an
/// earlier one.
pub open spec fn spec_entries_map(entries: Seq<GenericBound>) -> Map<Seq<char>, Seq<TypeView>>
    decreases entries.len(),
{
    if entries.len() == 0 {
        Map::empty()
    } else {
        spec_entries_map(entries.drop_last()).insert(
            entries.last().name@,
            types_view(entries.last().bounds@),
        )
    }
}

impl View for GenericBoundsMap {
    type V = Map<Seq<char>, Seq<TypeView>>;

    open spec fn view(&self) -> Map<Seq<char>, Seq<TypeView>> {
        spec_entries_map(self.entries@)
    }
}

/// The name that a where predicate bounds: the single segment of a bounded
/// path.
pub open spec fn spec_predicate_name(predicate: WherePredicateView) -> Option<Seq<char>> {
    match predicate.bounded {
        Some(ty) => match ty.kind {
            KindView::Path { segments } => if segments.len() == 1 {
                Some(segments[0])
            } else {
                None
            },
            _ => None,
        },
        None => None,
    }
}

/// The map with the bounds of each type parameter added, in order.
pub open spec fn spec_add_params(
    map: Map<Seq<char>, Seq<TypeView>>,
    params: Seq<GenericParamView>,
) -> Map<Seq<char>, Seq<TypeView>>
    decreases params.len(),
{
    if params.len() == 0 {
        map
    } else {
        let before = spec_add_params(map, params.drop_last());
        match params.last() {
            GenericParamView::Type { name, bounds, text } => before.insert(name, bounds),
            _ => before,
        }
    }
}

/// The map with the bounds of each where predicate on a plain name added,
/// in order.
pub open spec fn spec_add_predicates(
    map: Map<Seq<char>, Seq<TypeView>>,
    predicates: Seq<WherePredicateView>,
) -> Map<Seq<char>, Seq<TypeView>>
    decreases predicates.len(),
{
    if predicates.len() == 0 {
        map
    } else {
        let before = spec_add_predicates(map, predicates.drop_last());
        match spec_predicate_name(predicates.last()) {
            Some(name) => before.insert(name, predicates.last().bounds),
            None => before,
        }
    }
}

/// The bounds that the parameters and the where clause give each type name.
pub open spec fn spec_generics_map(generics: GenericsView) -> Map<Seq<char>, Seq<TypeView>> {
    spec_add_predicates(spec_add_params(Map::empty(), generics.params), generics.predicates)
}

/// The bounds in scope in a method: those of the interface's type
/// parameters, then those of the method's own parameters and where clause.
pub open spec fn spec_bounds_in_scope(interface: GenericsView, method: GenericsView) -> Map<
    Seq<char>,
    Seq<TypeView>,
> {
    spec_add_predicates(
        spec_add_params(spec_add_params(Map::empty(), interface.params), method.params),
        method.predicates,
    )
}

impl GenericBoundsMap {
    /// A map without entries.
    pub fn new() -> (out: GenericBoundsMap)
        ensures
            out@ == Map::<Seq<char>, Seq<TypeView>>::empty(),
    {
        GenericBoundsMap { entries: Vec::new() }
    }

    /// Puts the bounds under the name, in place of what stood there.
    pub fn insert(&mut self, name: String, bounds: Vec<TypeExpr>)
        ensures
            final(self)@ == old(self)@.insert(name@, types_view(bounds@)),
    {
        self.entries.push(GenericBound { name, bounds });
        proof {
            assert(self.entries@.drop_last() =~= old(self).entries@);
        }
    }

    /// The bounds under the name, where the map holds the name.
    pub fn get(&self, name: &String) -> (found: Option<&Vec<TypeExpr>>)
        ensures
            found.is_some() == self@.contains_key(name@),
            found.is_some() ==> types_view(found.unwrap()@) == self@[name@],
    {
        let mut i: usize = self.entries.len();
        proof {
            assert(self.entries@.take(i as int) =~= self.entries@);
        }
        while i > 0
            invariant
                0 <= i <= self.entries.len(),
                self@.contains_key(name@) == spec_entries_map(
                    self.entries@.take(i as int),
                ).contains_key(name@),
                self@.contains_key(name@) ==> self@[name@] == spec_entries_map(
                    self.entries@.take(i as int),
                )[name@],
            decreases i,
        {
            proof {
                let prefix = self.entries@.take(i as int);
                assert(prefix.drop_last() =~= self.entries@.take(i as int - 1));
                assert(prefix.last() == self.entries@[i as int - 1]);
            }
            i -= 1;
            if same_text(&self.entries[i].name, name.as_str()) {
                return Some(&self.entries[i].bounds);
            }
        }
        None
    }

    fn add_params(&mut self, params: &Vec<GenericParam>)
        ensures
            final(self)@ == spec_add_params(old(self)@, views(params@)),
    {
        let mut i: usize = 0;
        while i < params.len()
            invariant
                0 <= i <= params.len(),
                self@ == spec_add_params(old(self)@, views(params@).take(i as int)),
            decreases params.len() - i,
        {
            proof {
                assert(views(params@).take(i as int + 1).drop_last() =~= views(params@).take(i as int));
                assert(views(params@).take(i as int + 1).last() == views(params@)[i as int]);
            }
            match &params[i] {
                GenericParam::Type { name, bounds, text } => {
                    let copied = duplicate_all(bounds);
                    self.insert(name.clone(), copied);
                },
                _ => {},
            }
            i += 1;
        }
        proof {
            assert(views(params@).take(params.len() as int) =~= views(params@));
        }
    }

    fn add_predicates(&mut self, predicates: &Vec<WherePredicate>)
        ensures
            final(self)@ == spec_add_predicates(old(self)@, views(predicates@)),
    {
        let mut i: usize = 0;
        while i < predicates.len()
            invariant
                0 <= i <= predicates.len(),
                self@ == spec_add_predicates(old(self)@, views(predicates@).take(i as int)),
            decreases predicates.len() - i,
        {
            proof {
                assert(views(predicates@).take(i as int + 1).drop_last() =~= views(predicates@).take(
                    i as int,
                ));
                assert(views(predicates@).take(i as int + 1).last() == views(predicates@)[i as int]);
            }
            match where_type_ident_and_bounds(&predicates[i]) {
                Some(entry) => {
                    self.insert(entry.name, entry.bounds);
                },
                None => {},
            }
            i += 1;
        }
        proof {
            assert(views(predicates@).take(predicates.len() as int) =~= views(predicates@));
        }
    }
}

fn where_type_ident_and_bounds(predicate: &WherePredicate) -> (found: Option<GenericBound>)
    ensures
        found.is_some() == spec_predicate_name(predicate@).is_some(),
        found.is_some() ==> found.unwrap().name@ == spec_predicate_name(predicate@).unwrap()
            && types_view(found.unwrap().bounds@) == types_view(predicate.bounds@),
{
    match &predicate.bounded {
        Some(ty) => match &ty.kind {
            TypeKind::Path { segments } => {
                if segments.len() == 1 {
                    let bounds = duplicate_all(&predicate.bounds);
                    Some(GenericBound { name: segments[0].clone(), bounds })
                } else {
                    None
                }
            },
            _ => None,
        },
        None => None,
    }
}

/// The bounds that the parameters and the where clause give each type name.
pub fn generics_map(generics: &Generics) -> (out: GenericBoundsMap)
    ensures
        out@ == spec_generics_map(generics@),
{
    let mut out = GenericBoundsMap::new();
    out.add_params(&generics.params);
    out.add_predicates(&generics.predicates);
    out
}

/// The bounds in scope in a method of an interface.
pub fn bounds_in_scope(interface: &Generics, method: &Generics) -> (out: GenericBoundsMap)
    ensures
        out@ == spec_bounds_in_scope(interface@, method@),
{
    let mut out = GenericBoundsMap::new();
    out.add_params(&interface.params);
    out.add_params(&method.params);
    out.add_predicates(&method.predicates);
    out
}

/// Whether a directive on the parameter marks it as ignored.
pub open spec fn spec_is_argument_marked_as_ignore(argument: ParameterView) -> bool {
    exists|i: int|
        0 <= i < argument.attributes.len() && #[trigger] spec_is_ignore_attribute(
            argument.attributes[i],
        )
}

/// Whether the bounds hold the lifetime `'static`.
pub open spec fn spec_has_static(bounds: Seq<TypeView>) -> bool {
    exists|i: int|
        0 <= i < bounds.len() && (#[trigger] bounds[i]).kind == (KindView::Lifetime {
            name: "'static"@,
        })
}

/// The bounds of the generic type that the type names, where it is a plain
/// name that the map holds.
pub open spec fn spec_generic_bounds(map: Map<Seq<char>, Seq<TypeView>>, ty: TypeView) -> Option<
    Seq<TypeView>,
> {
    match ty.kind {
        KindView::Path { segments } => if segments.len() == 1 && map.contains_key(segments[0]) {
            Some(map[segments[0]])
        } else {
            None
        },
        _ => None,
    }
}

/// What the double captures of one parameter of the given type: nothing for
/// a parameter that is no plain name or is marked as ignored.
pub open spec fn spec_spy_argument(
    map: Map<Seq<char>, Seq<TypeView>>,
    argument: ParameterView,
    ty: TypeView,
) -> Result<Option<SpyArgumentView>, ErrorKind> {
    match argument.pattern {
        PatternView::Name(name) => if spec_is_argument_marked_as_ignore(argument) {
            Ok(None)
        } else if spec_reference_layers(ty) > u8::MAX {
            Err(ErrorKind::UnsupportedShape)
        } else {
            let referent = spec_referent(ty);
            let into = spec_type_value(argument.attributes, "into"@);
            let with = spec_expression_value(argument.attributes, "with"@);
            match spec_generic_bounds(map, referent) {
                Some(bounds) => if !spec_has_static(bounds) {
                    Err(ErrorKind::UnboundedGeneric)
                } else if into is Err {
                    Err(into->Err_0)
                } else if with is Err {
                    Err(with->Err_0)
                } else {
                    Ok(
                        Some(
                            SpyArgumentView {
                                name: name,
                                into_type: None,
                                with_expression: None,
                                dereferenced_type: TypeView {
                                    kind: KindView::ImplTrait,
                                    children: bounds,
                                },
                                dereference_count: spec_reference_layers(ty),
                            },
                        ),
                    )
                },
                None => if into is Err {
                    Err(into->Err_0)
                } else if with is Err {
                    Err(with->Err_0)
                } else {
                    Ok(
                        Some(
                            SpyArgumentView {
                                name: name,
                                into_type: into->Ok_0,
                                with_expression: with->Ok_0,
                                dereferenced_type: referent,
                                dereference_count: spec_reference_layers(ty),
                            },
                        ),
                    )
                },
            }
        },
        _ => Ok(None),
    }
}

/// What the double captures of the parameters, in order; the first failure
/// otherwise, with the index of its parameter.
pub open spec fn spec_spy_arguments_of(
    map: Map<Seq<char>, Seq<TypeView>>,
    bindings: Seq<AssociatedTypeView>,
    parameters: Seq<ParameterView>,
) -> Result<Seq<SpyArgumentView>, (ErrorKind, int)>
    decreases parameters.len(),
{
    if parameters.len() == 0 {
        Ok(Seq::empty())
    } else {
        match spec_spy_arguments_of(map, bindings, parameters.drop_last()) {
            Err(failure) => Err(failure),
            Ok(before) => match spec_spy_argument(
                map,
                parameters.last(),
                spec_replace(bindings, parameters.last().ty),
            ) {
                Err(kind) => Err((kind, parameters.len() - 1)),
                Ok(None) => Ok(before),
                Ok(Some(argument)) => Ok(before.push(argument)),
            },
        }
    }
}

/// What the double captures of a method's parameters, each taken by its
/// declared type with the bound associated types resolved.
pub open spec fn spec_spy_arguments(
    function: MethodView,
    interface: GenericsView,
    bindings: Seq<AssociatedTypeView>,
) -> Result<Seq<SpyArgumentView>, ErrorView> {
    match spec_spy_arguments_of(
        spec_bounds_in_scope(interface, function.generics),
        bindings,
        function.parameters,
    ) {
        Ok(arguments) => Ok(arguments),
        Err((kind, index)) => Err(
            ErrorView {
                kind,
                member: function.name,
                parameter: Some(function.parameters[index].pattern_text),
            },
        ),
    }
}

/// Whether a directive on the parameter marks it as ignored.
pub fn is_argument_marked_as_ignore(argument: &Parameter) -> (ignored: bool)
    ensures
        ignored == spec_is_argument_marked_as_ignore(argument@),
{
    let mut i: usize = 0;
    while i < argument.attributes.len()
        invariant
            0 <= i <= argument.attributes.len(),
            forall|j: int| 0 <= j < i ==> !#[trigger] spec_is_ignore_attribute(argument@.attributes[j]),
        decreases argument.attributes.len() - i,
    {
        proof {
            assert(argument@.attributes[i as int] == argument.attributes@[i as int]@);
        }
        if is_ignore_attribute(&argument.attributes[i]) {
            return true;
        }
        i += 1;
    }
    false
}

fn is_reference(ty: &TypeExpr) -> (layered: bool)
    ensures
        layered == (ty@.kind is Reference && ty@.children.len() == 1),
{
    match &ty.kind {
        TypeKind::Reference { lifetime, mutable } => ty.children.len() == 1,
        _ => false,
    }
}

/// The type under its leading references, and how many there are: nothing
/// where there are more than 255.
pub fn remove_references(argument_type: &TypeExpr) -> (out: Option<(TypeExpr, u8)>)
    ensures
        out.is_some() == (spec_reference_layers(argument_type@) <= u8::MAX),
        out.is_some() ==> out.unwrap().0@ == spec_referent(argument_type@) && out.unwrap().1
            == spec_reference_layers(argument_type@),
{
    let mut current: &TypeExpr = argument_type;
    let mut count: u8 = 0;
    while is_reference(current)
        invariant
            spec_referent(argument_type@) == spec_referent(current@),
            spec_reference_layers(argument_type@) == count + spec_reference_layers(current@),
        decreases current,
    {
        proof {
            assert(types_view(current.children@) =~= current@.children);
        }
        if count == u8::MAX {
            return None;
        }
        count += 1;
        current = &current.children[0];
    }
    Some((current.duplicate(), count))
}

fn has_static(bounds: &Vec<TypeExpr>) -> (found: bool)
    ensures
        found == spec_has_static(types_view(bounds@)),
{
    let mut i: usize = 0;
    while i < bounds.len()
        invariant
            0 <= i <= bounds.len(),
            forall|j: int|
                0 <= j < i ==> (#[trigger] types_view(bounds@)[j]).kind != (KindView::Lifetime {
                    name: "'static"@,
                }),
        decreases bounds.len() - i,
    {
        let found = match &bounds[i].kind {
            TypeKind::Lifetime { name } => same_text(name, "'static"),
            _ => false,
        };
        proof {
            assert(types_view(bounds@)[i as int] == bounds@[i as int]@);
        }
        if found {
            return true;
        }
        i += 1;
    }
    false
}

fn generic_bounds<'a>(map: &'a GenericBoundsMap, ty: &TypeExpr) -> (found: Option<&'a Vec<TypeExpr>>)
    ensures
        found.is_some() == spec_generic_bounds(map@, ty@).is_some(),
        found.is_some() ==> types_view(found.unwrap()@) == spec_generic_bounds(map@, ty@).unwrap(),
{
    match &ty.kind {
        TypeKind::Path { segments } => {
            if segments.len() == 1 {
                map.get(&segments[0])
            } else {
                None
            }
        },
        _ => None,
    }
}

/// What the double captures of one parameter of the given type.
pub fn spy_argument(map: &GenericBoundsMap, argument: &Parameter, ty: &TypeExpr) -> (out: Result<
    Option<SpyArgument>,
    ErrorKind,
>)
    ensures
        (match out {
            Ok(Some(captured)) => Ok(Some(captured@)),
            Ok(None) => Ok(None),
            Err(kind) => Err(kind),
        }) == spec_spy_argument(map@, argument@, ty@),
{
    let name = match &argument.pattern {
        Pattern::Name(name) => name.clone(),
        _ => {
            return Ok(None);
        },
    };
    if is_argument_marked_as_ignore(argument) {
        return Ok(None);
    }
    let (referent, count) = match remove_references(ty) {
        Some(found) => found,
        None => {
            return Err(ErrorKind::UnsupportedShape);
        },
    };
    let into = into_type(&argument.attributes);
    let with = with_expression(&argument.attributes);
    match generic_bounds(map, &referent) {
        Some(bounds) => {
            if !has_static(bounds) {
                return Err(ErrorKind::UnboundedGeneric);
            }
            match into {
                Err(kind) => {
                    return Err(kind);
                },
                Ok(_) => {},
            }
            match with {
                Err(kind) => {
                    return Err(kind);
                },
                Ok(_) => {},
            }
            let children = duplicate_all(bounds);
            let dereferenced_type = TypeExpr { kind: TypeKind::ImplTrait, children };
            proof {
                assert(types_view(dereferenced_type.children@) =~= dereferenced_type@.children);
            }
            Ok(
                Some(
                    SpyArgument {
                        name,
                        into_type: None,
                        with_expression: None,
                        dereferenced_type,
                        dereference_count: count,
                    },
                ),
            )
        },
        None => {
            let into_type = match into {
                Err(kind) => {
                    return Err(kind);
                },
                Ok(found) => found,
            };
            let with_expression = match with {
                Err(kind) => {
                    return Err(kind);
                },
                Ok(found) => found,
            };
            Ok(
                Some(
                    SpyArgument {
                        name,
                        into_type,
                        with_expression,
                        dereferenced_type: referent,
                        dereference_count: count,
                    },
                ),
            )
        },
    }
}

/// What the double captures of a method's parameters, in order.
pub fn spy_arguments(
    function: &Method,
    interface: &Generics,
    associated_spy_types: &Vec<AssociatedType>,
) -> (out: Result<Vec<SpyArgument>, GenerationError>)
    ensures
        (match out {
            Ok(arguments) => Ok(arguments_view(arguments@)),
            Err(error) => Err(error@),
        }) == spec_spy_arguments(function@, interface@, bindings_view(associated_spy_types@)),
{
    let map = bounds_in_scope(interface, &function.generics);
    let replacer = AssociatedTypeReplacer { associated_spy_types };
    let ghost bindings = bindings_view(associated_spy_types@);
    let mut out: Vec<SpyArgument> = Vec::new();
    let mut i: usize = 0;
    proof {
        assert(arguments_view(out@) =~= Seq::<SpyArgumentView>::empty());
    }
    while i < function.parameters.len()
        invariant
            0 <= i <= function.parameters.len(),
            map@ == spec_bounds_in_scope(interface@, function.generics@),
            replacer.associated_spy_types == associated_spy_types,
            bindings == bindings_view(associated_spy_types@),
            spec_spy_arguments_of(map@, bindings, function@.parameters.take(i as int)) == Ok::<
                Seq<SpyArgumentView>,
                (ErrorKind, int),
            >(arguments_view(out@)),
        decreases function.parameters.len() - i,
    {
        proof {
            let parameters = function@.parameters;
            assert(parameters.take(i as int + 1).drop_last() =~= parameters.take(i as int));
            assert(parameters.take(i as int + 1).last() == parameters[i as int]);
        }
        let ghost before = arguments_view(out@);
        let ty = replacer.replace(&function.parameters[i].ty);
        match spy_argument(&map, &function.parameters[i], &ty) {
            Err(kind) => {
                proof {
                    lemma_failure_stays(map@, bindings, function@.parameters, i as int + 1);
                }
                return Err(
                    GenerationError {
                        kind,
                        member: function.name.clone(),
                        parameter: Some(function.parameters[i].pattern_text.clone()),
                    },
                );
            },
            Ok(None) => {},
            Ok(Some(captured)) => {
                let ghost added = captured@;
                out.push(captured);
                proof {
                    assert(arguments_view(out@) =~= before.push(added));
                }
            },
        }
        i += 1;
    }
    proof {
        assert(function@.parameters.take(function.parameters.len() as int) =~= function@.parameters);
    }
    Ok(out)
}

/// A failure among the first parameters is the failure of the whole list.
proof fn lemma_failure_stays(
    map: Map<Seq<char>, Seq<TypeView>>,
    bindings: Seq<AssociatedTypeView>,
    parameters: Seq<ParameterView>,
    count: int,
)
    requires
        0 <= count <= parameters.len(),
        spec_spy_arguments_of(map, bindings, parameters.take(count)) is Err,
    ensures
        spec_spy_arguments_of(map, bindings, parameters) == spec_spy_arguments_of(
            map,
            bindings,
            parameters.take(count),
        ),
    decreases parameters.len() - count,
{
    if count < parameters.len() {
        assert(parameters.take(count + 1).drop_last() =~= parameters.take(count));
        lemma_failure_stays(map, bindings, parameters, count + 1);
    } else {
        assert(parameters.take(count) =~= parameters);
    }
}

} // verus!
