use vstd::prelude::*;
use crate::text::str_eq;

verus! {

/// What the rule logic reads of a field's type: the type as written, and its
/// shape.
pub struct TypeShape<T> {
    pub source: T,
    pub kind: TypeKind<T>,
}

/// The shape of a type: a path (with or without a qualified self type) and
/// its last segment, an array, a slice, or anything else.
pub enum TypeKind<T> {
    Path { qualified: bool, last_segment: Option<PathSegmentShape<T>> },
    Array(Box<TypeShape<T>>),
    Slice(Box<TypeShape<T>>),
    Other,
}

/// The last segment of a type path: its identifier and its arguments.
pub struct PathSegmentShape<T> {
    pub ident: String,
    pub arguments: PathArgumentsShape<T>,
}

/// The arguments of a path segment: none, angle-bracketed generic arguments
/// (a type argument has its shape, any other argument has none), or
/// parenthesized ones.
pub enum PathArgumentsShape<T> {
    Absent,
    AngleBracketed(Vec<Option<TypeShape<T>>>),
    Parenthesized,
}

/// The first type among generic arguments.
pub open spec fn spec_first_type<T>(arguments: Seq<Option<TypeShape<T>>>) -> Option<TypeShape<T>>
    decreases arguments.len(),
{
    if arguments.len() == 0 {
        None
    } else {
        match arguments[0] {
            Some(ty) => Some(ty),
            None => spec_first_type(arguments.drop_first()),
        }
    }
}

/// The type wrapped by `wrapper` in `ty` (as `T` in `Option<T>`): `ty` is an
/// unqualified path whose last segment is `wrapper` with angle-bracketed
/// arguments, and the result is the first type among them.
pub open spec fn spec_wrapper_inner<T>(ty: TypeShape<T>, wrapper: Seq<char>) -> Option<TypeShape<T>> {
    match ty.kind {
        TypeKind::Path { qualified: false, last_segment: Some(segment) } => if segment.ident@ == wrapper {
            match segment.arguments {
                PathArgumentsShape::AngleBracketed(arguments) => spec_first_type(arguments@),
                _ => None,
            }
        } else {
            None
        },
        _ => None,
    }
}

/// The element type of `Vec<T>`, `[T; N]` or `[T]`.
pub open spec fn spec_collection_inner<T>(ty: TypeShape<T>) -> Option<TypeShape<T>> {
    match spec_wrapper_inner(ty, "Vec"@) {
        Some(inner) => Some(inner),
        None => match ty.kind {
            TypeKind::Array(element) => Some(*element),
            TypeKind::Slice(element) => Some(*element),
            _ => None,
        },
    }
}

fn first_type<T>(arguments: &Vec<Option<TypeShape<T>>>) -> (first: Option<&TypeShape<T>>)
    ensures
        match first {
            Some(ty) => spec_first_type(arguments@) == Some(*ty),
            None => spec_first_type(arguments@) is None,
        },
{
    let mut i: usize = 0;
    assert(arguments@.skip(0) == arguments@);
    while i < arguments.len()
        invariant
            i <= arguments.len(),
            spec_first_type(arguments@) == spec_first_type(arguments@.skip(i as int)),
        decreases arguments.len() - i,
    {
        assert(arguments@.skip(i as int).drop_first() == arguments@.skip(i as int + 1));
        assert(arguments@.skip(i as int)[0] == arguments@[i as int]);
        if let Some(ty) = &arguments[i] {
            return Some(ty);
        }
        i += 1;
    }
    None
}

/// The type wrapped by `wrapper` in `ty`, as in `Option<T>` or `Vec<T>`.
pub fn wrapper_inner<'a, T>(ty: &'a TypeShape<T>, wrapper: &str) -> (inner: Option<&'a TypeShape<T>>)
    ensures
        match inner {
            Some(t) => spec_wrapper_inner(*ty, wrapper@) == Some(*t),
            None => spec_wrapper_inner(*ty, wrapper@) is None,
        },
{
    match &ty.kind {
        TypeKind::Path { qualified: false, last_segment: Some(segment) } => {
            if !str_eq(segment.ident.as_str(), wrapper) {
                return None;
            }
            match &segment.arguments {
                PathArgumentsShape::AngleBracketed(arguments) => first_type(arguments),
                _ => None,
            }
        },
        _ => None,
    }
}

/// The element type of a `Vec`, array or slice type.
pub fn collection_inner<'a, T>(ty: &'a TypeShape<T>) -> (inner: Option<&'a TypeShape<T>>)
    ensures
        match inner {
            Some(t) => spec_collection_inner(*ty) == Some(*t),
            None => spec_collection_inner(*ty) is None,
        },
{
    match wrapper_inner(ty, "Vec") {
        Some(inner) => Some(inner),
        None => match &ty.kind {
            TypeKind::Array(element) => Some(&**element),
            TypeKind::Slice(element) => Some(&**element),
            _ => None,
        },
    }
}

} // verus!
