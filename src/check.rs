//! Checking a structured value against a shape.
use vstd::prelude::*;
use crate::shape::{
    Shape, conforms, conforms_fields, conforms_items, conforms_values, has_key, lookup, view_alts,
    view_fields, view_names,
};
use crate::value::{Value, view_entries, view_values};

verus! {

broadcast use vstd::std_specs::vec::group_vec_axioms;

pub proof fn lemma_view_fields_index(s: Seq<(Vec<char>, Shape)>)
    ensures
        view_fields(s).len() == s.len(),
        forall|i: int| 0 <= i < s.len() ==> #[trigger] view_fields(s)[i] == (s[i].0@, s[i].1@),
    decreases s.len(),
{
    if s.len() > 0 {
        lemma_view_fields_index(s.drop_last());
    }
}

pub proof fn lemma_view_names_index(s: Seq<Vec<char>>)
    ensures
        view_names(s).len() == s.len(),
        forall|i: int| 0 <= i < s.len() ==> #[trigger] view_names(s)[i] == s[i]@,
    decreases s.len(),
{
    if s.len() > 0 {
        lemma_view_names_index(s.drop_last());
    }
}

pub proof fn lemma_view_entries_index(s: Seq<(Vec<char>, Value)>)
    ensures
        view_entries(s).len() == s.len(),
        forall|i: int| 0 <= i < s.len() ==> #[trigger] view_entries(s)[i] == (s[i].0@, s[i].1@),
    decreases s.len(),
{
    if s.len() > 0 {
        lemma_view_entries_index(s.drop_last());
    }
}

pub proof fn lemma_view_values_index(s: Seq<Value>)
    ensures
        view_values(s).len() == s.len(),
        forall|i: int| 0 <= i < s.len() ==> #[trigger] view_values(s)[i] == s[i]@,
    decreases s.len(),
{
    if s.len() > 0 {
        lemma_view_values_index(s.drop_last());
    }
}

/// Whether two character sequences are equal.
pub fn chars_eq(a: &Vec<char>, b: &Vec<char>) -> (r: bool)
    ensures
        r == (a@ == b@),
{
    if a.len() != b.len() {
        return false;
    }
    let mut i: usize = 0;
    while i < a.len()
        invariant
            a@.len() == b@.len(),
            i <= a@.len(),
            forall|j: int| 0 <= j < i ==> a@[j] == b@[j],
        decreases a@.len() - i,
    {
        if a[i] != b[i] {
            return false;
        }
        i = i + 1;
    }
    assert(a@ =~= b@);
    true
}

/// The shape of the last field named `k`, if any.
pub fn find_field<'a>(fs: &'a Vec<(Vec<char>, Shape)>, k: &Vec<char>) -> (r: Option<&'a Shape>)
    ensures
        match r {
            Some(s) => lookup(view_fields(fs@), k@) == Some(s@),
            None => lookup(view_fields(fs@), k@) is None,
        },
{
    let mut i: usize = fs.len();
    assert(fs@.subrange(0, i as int) =~= fs@);
    while i > 0
        invariant
            i <= fs@.len(),
            lookup(view_fields(fs@), k@) == lookup(view_fields(fs@.subrange(0, i as int)), k@),
        decreases i,
    {
        let ghost sub = fs@.subrange(0, i as int);
        assert(sub.drop_last() =~= fs@.subrange(0, i - 1));
        assert(sub[sub.len() - 1] == fs@[i - 1]);
        assert(view_fields(sub).drop_last() =~= view_fields(sub.drop_last()));
        assert(view_fields(sub).last().0 == fs@[i - 1].0@);
        if chars_eq(&fs[i - 1].0, k) {
            return Some(&fs[i - 1].1);
        }
        i = i - 1;
    }
    None
}

/// The payload shape of the last alternative named `k`, if any.
pub fn find_alt<'a>(alts: &'a Vec<(Vec<char>, Option<Shape>)>, k: &Vec<char>) -> (r: Option<
    &'a Option<Shape>,
>)
    ensures
        match r {
            Some(p) => lookup(view_alts(alts@), k@) == Some(
                match *p {
                    Some(x) => Some(x@),
                    None => None,
                },
            ),
            None => lookup(view_alts(alts@), k@) is None,
        },
{
    let mut i: usize = alts.len();
    assert(alts@.subrange(0, i as int) =~= alts@);
    while i > 0
        invariant
            i <= alts@.len(),
            lookup(view_alts(alts@), k@) == lookup(view_alts(alts@.subrange(0, i as int)), k@),
        decreases i,
    {
        let ghost sub = alts@.subrange(0, i as int);
        assert(sub.drop_last() =~= alts@.subrange(0, i - 1));
        assert(sub[sub.len() - 1] == alts@[i - 1]);
        assert(view_alts(sub).drop_last() =~= view_alts(sub.drop_last()));
        assert(view_alts(sub).last().0 == alts@[i - 1].0@);
        if chars_eq(&alts[i - 1].0, k) {
            return Some(&alts[i - 1].1);
        }
        i = i - 1;
    }
    None
}

/// Whether one of the names is `s`.
pub fn names_contain(names: &Vec<Vec<char>>, s: &Vec<char>) -> (r: bool)
    ensures
        r == view_names(names@).contains(s@),
{
    proof {
        lemma_view_names_index(names@);
    }
    let mut i: usize = 0;
    while i < names.len()
        invariant
            i <= names@.len(),
            view_names(names@).len() == names@.len(),
            forall|j: int| 0 <= j < names@.len() ==> #[trigger] view_names(names@)[j] == names@[j]@,
            forall|j: int| 0 <= j < i ==> view_names(names@)[j] != s@,
        decreases names@.len() - i,
    {
        if chars_eq(&names[i], s) {
            assert(view_names(names@)[i as int] == s@);
            return true;
        }
        i = i + 1;
    }
    false
}

/// Whether some entry of a map has the key `k`.
pub fn entries_have_key(es: &Vec<(Vec<char>, Value)>, k: &Vec<char>) -> (r: bool)
    ensures
        r == has_key(view_entries(es@), k@),
{
    proof {
        lemma_view_entries_index(es@);
    }
    let mut i: usize = 0;
    while i < es.len()
        invariant
            i <= es@.len(),
            view_entries(es@).len() == es@.len(),
            forall|j: int| 0 <= j < es@.len() ==> #[trigger] view_entries(es@)[j] == (es@[j].0@, es@[j].1@),
            forall|j: int| 0 <= j < i ==> view_entries(es@)[j].0 != k@,
        decreases es@.len() - i,
    {
        if chars_eq(&es[i].0, k) {
            assert(view_entries(es@)[i as int].0 == k@);
            return true;
        }
        i = i + 1;
    }
    false
}

/// Whether `v` is a well-formed value of the shape `s`, where `types` holds
/// the named type fragments that a reference may name.
pub fn check(types: &Vec<(Vec<char>, Shape)>, s: &Shape, v: &Value) -> (r: bool)
    ensures
        r == conforms(view_fields(types@), s@, v@),
    decreases v, if s is Ref { 1nat } else { 0nat },
{
    let ghost tv = view_fields(types@);
    match s {
        Shape::Any => true,
        Shape::Bool => matches!(v, Value::Bool(_)),
        Shape::Int { min, max } => match v {
            Value::Int(i) => *min <= *i && *i <= *max,
            _ => false,
        },
        Shape::F32 => matches!(v, Value::F32(_)),
        Shape::Str => matches!(v, Value::Str(_)),
        Shape::Char => match v {
            Value::Str(t) => t.len() == 1,
            _ => false,
        },
        Shape::OneOf(names) => match v {
            Value::Str(t) => names_contain(names, t),
            _ => false,
        },
        Shape::Array(item) => match v {
            Value::Array(vs) => {
                let mut ok = true;
                let mut i: usize = 0;
                assert(view_values(vs@.subrange(0, 0)) =~= Seq::empty());
                while i < vs.len()
                    invariant
                        *v == Value::Array(*vs),
                        *s == Shape::Array(*item),
                        tv == view_fields(types@),
                        i <= vs@.len(),
                        ok == conforms_items(tv, (**item)@, view_values(vs@.subrange(0, i as int))),
                    decreases vs@.len() - i,
                {
                    let ghost sub = vs@.subrange(0, i + 1);
                    assert(sub.drop_last() =~= vs@.subrange(0, i as int));
                    assert(view_values(sub).drop_last() =~= view_values(sub.drop_last()));
                    assert(view_values(sub).last() == vs@[i as int]@);
                    assert(decreases_to!(*v => v->Array_0));
                    assert(decreases_to!(*vs => vs[i as int]));
                    if ok {
                        ok = check(types, item, &vs[i]);
                    }
                    i = i + 1;
                }
                assert(vs@.subrange(0, vs@.len() as int) =~= vs@);
                ok
            },
            _ => false,
        },
        Shape::Dict(item) => match v {
            Value::Record(es) => {
                let mut ok = true;
                let mut i: usize = 0;
                assert(view_entries(es@.subrange(0, 0)) =~= Seq::empty());
                while i < es.len()
                    invariant
                        *v == Value::Record(*es),
                        *s == Shape::Dict(*item),
                        tv == view_fields(types@),
                        i <= es@.len(),
                        ok == conforms_values(tv, (**item)@, view_entries(es@.subrange(0, i as int))),
                    decreases es@.len() - i,
                {
                    let ghost sub = es@.subrange(0, i + 1);
                    assert(sub.drop_last() =~= es@.subrange(0, i as int));
                    assert(view_entries(sub).drop_last() =~= view_entries(sub.drop_last()));
                    assert(view_entries(sub).last() == (es@[i as int].0@, es@[i as int].1@));
                    assert(decreases_to!(*v => v->Record_0));
                    assert(decreases_to!(*es => es[i as int]));
                    assert(decreases_to!(es[i as int] => es[i as int].1));
                    if ok {
                        ok = check(types, item, &es[i].1);
                    }
                    i = i + 1;
                }
                assert(es@.subrange(0, es@.len() as int) =~= es@);
                ok
            },
            _ => false,
        },
        Shape::Record { req, opt } => match v {
            Value::Record(es) => {
                let ghost ev = view_entries(es@);
                let ghost rv = view_fields(req@);
                let ghost ov = view_fields(opt@);
                proof {
                    lemma_view_fields_index(req@);
                }
                let mut j: usize = 0;
                while j < req.len()
                    invariant
                        j <= req@.len(),
                        *v == Value::Record(*es),
                        *s == (Shape::Record { req: *req, opt: *opt }),
                        tv == view_fields(types@),
                        ev == view_entries(es@),
                        ov == view_fields(opt@),
                        rv == view_fields(req@),
                        rv.len() == req@.len(),
                        forall|k: int| 0 <= k < req@.len() ==> #[trigger] rv[k] == (req@[k].0@, req@[k].1@),
                        forall|k: int| 0 <= k < j ==> has_key(ev, (#[trigger] rv[k]).0),
                    decreases req@.len() - j,
                {
                    if !entries_have_key(es, &req[j].0) {
                        assert(!has_key(ev, rv[j as int].0));
                        return false;
                    }
                    j = j + 1;
                }
                let mut ok = true;
                let mut i: usize = 0;
                assert(view_entries(es@.subrange(0, 0)) =~= Seq::empty());
                while i < es.len()
                    invariant
                        *v == Value::Record(*es),
                        *s == (Shape::Record { req: *req, opt: *opt }),
                        tv == view_fields(types@),
                        rv == view_fields(req@),
                        ov == view_fields(opt@),
                        i <= es@.len(),
                        ok == conforms_fields(tv, rv, ov, view_entries(es@.subrange(0, i as int))),
                    decreases es@.len() - i,
                {
                    let ghost sub = es@.subrange(0, i + 1);
                    assert(sub.drop_last() =~= es@.subrange(0, i as int));
                    assert(view_entries(sub).drop_last() =~= view_entries(sub.drop_last()));
                    assert(view_entries(sub).last() == (es@[i as int].0@, es@[i as int].1@));
                    assert(decreases_to!(*v => v->Record_0));
                    assert(decreases_to!(*es => es[i as int]));
                    assert(decreases_to!(es[i as int] => es[i as int].1));
                    if ok {
                        let f = match find_field(req, &es[i].0) {
                            Some(f) => Some(f),
                            None => find_field(opt, &es[i].0),
                        };
                        ok = match f {
                            Some(f) => check(types, f, &es[i].1),
                            None => false,
                        };
                    }
                    i = i + 1;
                }
                assert(es@.subrange(0, es@.len() as int) =~= es@);
                ok
            },
            _ => false,
        },
        Shape::Enum(alts) => match v {
            Value::Str(name) => match find_alt(alts, name) {
                Some(None) => true,
                _ => false,
            },
            Value::Record(es) => {
                proof {
                    lemma_view_entries_index(es@);
                }
                if es.len() != 1 {
                    return false;
                }
                assert(decreases_to!(*v => v->Record_0));
                assert(decreases_to!(*es => es[0]));
                assert(decreases_to!(es[0] => es[0].1));
                match find_alt(alts, &es[0].0) {
                    Some(Some(p)) => check(types, p, &es[0].1),
                    _ => false,
                }
            },
            _ => false,
        },
        Shape::Ref(name) => match find_field(types, name) {
            Some(t) => {
                if matches!(t, Shape::Ref(_)) {
                    false
                } else {
                    check(types, t, v)
                }
            },
            None => false,
        },
    }
}

} // verus!
