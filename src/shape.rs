//! A declarative description of structured values: which shapes a value may
//! take, built from named, mutually recursive type fragments.
use vstd::prelude::*;
use crate::value::{VValue, chars_of};

verus! {

broadcast use vstd::std_specs::vec::group_vec_axioms;

/// The shape that a structured value must have.
#[derive(Debug)]
pub enum Shape {
    /// Any well-formed value.
    Any,
    Bool,
    /// An integer in `min..=max`.
    Int { min: i64, max: i64 },
    F32,
    /// Any string.
    Str,
    /// A string of exactly one character.
    Char,
    /// A string that is one of the given names.
    OneOf(Vec<Vec<char>>),
    /// An array whose items all have the given shape.
    Array(Box<Shape>),
    /// A map with the fields `req`, each present, and `opt`, each of which may
    /// be left out; no other key may appear.
    Record { req: Vec<(Vec<char>, Shape)>, opt: Vec<(Vec<char>, Shape)> },
    /// A map with any keys, whose values all have the given shape.
    Dict(Box<Shape>),
    /// A closed set of named alternatives: one without payload is written as
    /// its name, one with a payload as a map from its name to the payload.
    Enum(Vec<(Vec<char>, Option<Shape>)>),
    /// The named type fragment of the schema.
    Ref(Vec<char>),
}

/// The mathematical form of a [`Shape`].
pub enum VShape {
    Any,
    Bool,
    Int { min: int, max: int },
    F32,
    Str,
    Char,
    OneOf(Seq<Seq<char>>),
    Array(Box<VShape>),
    Record { req: Seq<(Seq<char>, VShape)>, opt: Seq<(Seq<char>, VShape)> },
    Dict(Box<VShape>),
    Enum(Seq<(Seq<char>, Option<VShape>)>),
    Ref(Seq<char>),
}

pub open spec fn view_names(s: Seq<Vec<char>>) -> Seq<Seq<char>>
    decreases s.len(),
{
    if s.len() == 0 {
        Seq::empty()
    } else {
        view_names(s.drop_last()).push(s.last()@)
    }
}

pub open spec fn view_fields(s: Seq<(Vec<char>, Shape)>) -> Seq<(Seq<char>, VShape)>
    decreases s,
{
    if s.len() == 0 {
        Seq::empty()
    } else {
        view_fields(s.drop_last()).push((s[s.len() - 1].0@, view_shape(s[s.len() - 1].1)))
    }
}

pub open spec fn view_alts(s: Seq<(Vec<char>, Option<Shape>)>) -> Seq<(Seq<char>, Option<VShape>)>
    decreases s,
{
    if s.len() == 0 {
        Seq::empty()
    } else {
        let p = match s[s.len() - 1].1 {
            Some(x) => Some(view_shape(x)),
            None => None,
        };
        view_alts(s.drop_last()).push((s[s.len() - 1].0@, p))
    }
}

pub open spec fn view_shape(s: Shape) -> VShape
    decreases s,
{
    match s {
        Shape::Any => VShape::Any,
        Shape::Bool => VShape::Bool,
        Shape::Int { min, max } => VShape::Int { min: min as int, max: max as int },
        Shape::F32 => VShape::F32,
        Shape::Str => VShape::Str,
        Shape::Char => VShape::Char,
        Shape::OneOf(n) => VShape::OneOf(view_names(n@)),
        Shape::Array(b) => VShape::Array(Box::new(view_shape(*b))),
        Shape::Record { req, opt } => VShape::Record {
            req: view_fields(req@),
            opt: view_fields(opt@),
        },
        Shape::Dict(b) => VShape::Dict(Box::new(view_shape(*b))),
        Shape::Enum(a) => VShape::Enum(view_alts(a@)),
        Shape::Ref(n) => VShape::Ref(n@),
    }
}

impl View for Shape {
    type V = VShape;

    open spec fn view(&self) -> VShape {
        view_shape(*self)
    }
}

/// The last entry of `s` under key `k`, if any.
pub open spec fn lookup<T>(s: Seq<(Seq<char>, T)>, k: Seq<char>) -> Option<T>
    decreases s.len(),
{
    if s.len() == 0 {
        None
    } else if s.last().0 == k {
        Some(s.last().1)
    } else {
        lookup(s.drop_last(), k)
    }
}

pub proof fn lemma_lookup_none<T>(s: Seq<(Seq<char>, T)>, k: Seq<char>)
    requires
        lookup(s, k) is None,
    ensures
        forall|i: int| 0 <= i < s.len() ==> (#[trigger] s[i]).0 != k,
    decreases s.len(),
{
    if s.len() > 0 {
        lemma_lookup_none(s.drop_last(), k);
        assert forall|i: int| 0 <= i < s.len() implies (#[trigger] s[i]).0 != k by {
            if i < s.len() - 1 {
                assert(s[i] == s.drop_last()[i]);
            }
        }
    }
}

/// Leaving out an optional field, or writing it with a well-formed value such
/// as its default, are equally valid: a record conforms without the entry
/// exactly when it conforms with it.
pub proof fn lemma_optional_field_elision(
    types: Seq<(Seq<char>, VShape)>,
    req: Seq<(Seq<char>, VShape)>,
    opt: Seq<(Seq<char>, VShape)>,
    es: Seq<(Seq<char>, VValue)>,
    k: Seq<char>,
    x: VValue,
)
    requires
        lookup(req, k) is None,
        lookup(opt, k) is Some,
        conforms(types, lookup(opt, k)->0, x),
    ensures
        conforms(types, VShape::Record { req, opt }, VValue::Record(es)) == conforms(
            types,
            VShape::Record { req, opt },
            VValue::Record(es.push((k, x))),
        ),
{
    let es2 = es.push((k, x));
    assert(es2.drop_last() =~= es);
    assert(es2[es2.len() - 1] == (k, x));
    assert(field_shape(req, opt, k) == lookup(opt, k));
    assert(conforms_fields(types, req, opt, es2) == conforms_fields(types, req, opt, es));
    lemma_lookup_none(req, k);
    assert forall|i: int| 0 <= i < req.len() implies has_key(es, (#[trigger] req[i]).0) == has_key(
        es2,
        req[i].0,
    ) by {
        if has_key(es, req[i].0) {
            let j = choose|j: int| 0 <= j < es.len() && (#[trigger] es[j]).0 == req[i].0;
            assert(es2[j] == es[j]);
        }
        if has_key(es2, req[i].0) {
            let j = choose|j: int| 0 <= j < es2.len() && (#[trigger] es2[j]).0 == req[i].0;
            assert(j < es.len());
            assert(es2[j] == es[j]);
        }
    }
}

/// The shape of the field `k` of a record, if it declares one.
pub open spec fn field_shape(
    req: Seq<(Seq<char>, VShape)>,
    opt: Seq<(Seq<char>, VShape)>,
    k: Seq<char>,
) -> Option<VShape> {
    match lookup(req, k) {
        Some(s) => Some(s),
        None => lookup(opt, k),
    }
}

/// Whether some entry of `es` has the key `k`.
pub open spec fn has_key(es: Seq<(Seq<char>, VValue)>, k: Seq<char>) -> bool {
    exists|i: int| 0 <= i < es.len() && (#[trigger] es[i]).0 == k
}

/// Whether `v` is a well-formed value of the shape `s`, where `types` holds
/// the named type fragments that a reference may name.
pub open spec fn conforms(types: Seq<(Seq<char>, VShape)>, s: VShape, v: VValue) -> bool
    decreases v, if s is Ref { 1nat } else { 0nat },
{
    match s {
        VShape::Any => true,
        VShape::Bool => v is Bool,
        VShape::Int { min, max } => v is Int && min <= v->Int_0 <= max,
        VShape::F32 => v is F32,
        VShape::Str => v is Str,
        VShape::Char => v is Str && v->Str_0.len() == 1,
        VShape::OneOf(names) => v is Str && names.contains(v->Str_0),
        VShape::Array(item) => match v {
            VValue::Array(vs) => conforms_items(types, *item, vs),
            _ => false,
        },
        VShape::Record { req, opt } => match v {
            VValue::Record(es) => {
                &&& forall|i: int| 0 <= i < req.len() ==> has_key(es, (#[trigger] req[i]).0)
                &&& conforms_fields(types, req, opt, es)
            },
            _ => false,
        },
        VShape::Dict(item) => match v {
            VValue::Record(es) => conforms_values(types, *item, es),
            _ => false,
        },
        VShape::Enum(alts) => match v {
            VValue::Str(name) => lookup(alts, name) == Some(None::<VShape>),
            VValue::Record(es) => es.len() == 1 && match lookup(alts, es[0].0) {
                Some(Some(p)) => conforms(types, p, es[0].1),
                _ => false,
            },
            _ => false,
        },
        VShape::Ref(name) => match lookup(types, name) {
            Some(t) => !(t is Ref) && conforms(types, t, v),
            None => false,
        },
    }
}

/// Whether every item of `vs` is a well-formed value of the shape `item`.
pub open spec fn conforms_items(types: Seq<(Seq<char>, VShape)>, item: VShape, vs: Seq<VValue>) -> bool
    decreases vs, 0nat,
{
    if vs.len() == 0 {
        true
    } else {
        conforms_items(types, item, vs.drop_last()) && conforms(types, item, vs[vs.len() - 1])
    }
}

/// Whether every value of the map entries `es` has the shape `item`.
pub open spec fn conforms_values(
    types: Seq<(Seq<char>, VShape)>,
    item: VShape,
    es: Seq<(Seq<char>, VValue)>,
) -> bool
    decreases es, 0nat,
{
    if es.len() == 0 {
        true
    } else {
        conforms_values(types, item, es.drop_last()) && conforms(types, item, es[es.len() - 1].1)
    }
}

/// Whether every entry of `es` is a declared field of the record and has its shape.
pub open spec fn conforms_fields(
    types: Seq<(Seq<char>, VShape)>,
    req: Seq<(Seq<char>, VShape)>,
    opt: Seq<(Seq<char>, VShape)>,
    es: Seq<(Seq<char>, VValue)>,
) -> bool
    decreases es, 0nat,
{
    if es.len() == 0 {
        true
    } else {
        &&& conforms_fields(types, req, opt, es.drop_last())
        &&& match field_shape(req, opt, es[es.len() - 1].0) {
            Some(f) => conforms(types, f, es[es.len() - 1].1),
            None => false,
        }
    }
}

pub proof fn lemma_view_fields_push(s: Seq<(Vec<char>, Shape)>, x: (Vec<char>, Shape))
    ensures
        view_fields(s.push(x)) == view_fields(s).push((x.0@, view_shape(x.1))),
{
    assert(s.push(x).drop_last() =~= s);
}

/// Appends the field `k` of shape `s` to a list of fields.
pub fn push_field(v: &mut Vec<(Vec<char>, Shape)>, k: &str, s: Shape)
    ensures
        view_fields(final(v)@) == view_fields(old(v)@).push((k@, s@)),
{
    let key = chars_of(k);
    proof {
        lemma_view_fields_push(v@, (key, s));
    }
    v.push((key, s));
}

/// Appends the alternative `k`, with payload shape `p` if any, to a list of alternatives.
pub fn push_alt(v: &mut Vec<(Vec<char>, Option<Shape>)>, k: &str, p: Option<Shape>)
    ensures
        view_alts(final(v)@) == view_alts(old(v)@).push(
            (
                k@,
                match p {
                    Some(x) => Some(x@),
                    None => None,
                },
            ),
        ),
{
    let key = chars_of(k);
    let ghost old_v = v@;
    v.push((key, p));
    assert(v@.drop_last() =~= old_v);
}

/// Appends the name `k` to a list of names.
pub fn push_name(v: &mut Vec<Vec<char>>, k: &str)
    ensures
        view_names(final(v)@) == view_names(old(v)@).push(k@),
{
    let key = chars_of(k);
    let ghost old_v = v@;
    v.push(key);
    assert(v@.drop_last() =~= old_v);
}

/// The empty list of fields.
pub fn no_fields() -> (r: Vec<(Vec<char>, Shape)>)
    ensures
        view_fields(r@) == Seq::<(Seq<char>, VShape)>::empty(),
{
    let r: Vec<(Vec<char>, Shape)> = Vec::new();
    assert(view_fields(r@) =~= Seq::empty());
    r
}

/// The empty list of alternatives.
pub fn no_alts() -> (r: Vec<(Vec<char>, Option<Shape>)>)
    ensures
        view_alts(r@) == Seq::<(Seq<char>, Option<VShape>)>::empty(),
{
    let r: Vec<(Vec<char>, Option<Shape>)> = Vec::new();
    assert(view_alts(r@) =~= Seq::empty());
    r
}

/// A reference to the named type fragment `k`.
pub fn ref_to(k: &str) -> (r: Shape)
    ensures
        r@ == VShape::Ref(k@),
{
    Shape::Ref(chars_of(k))
}

} // verus!
