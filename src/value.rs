//! The self-describing structured value that a document tree is encoded into:
//! booleans, integers, 32-bit floats (held as their IEEE-754 bit pattern),
//! strings, arrays and string-keyed maps.
use vstd::prelude::*;

verus! {

broadcast use vstd::std_specs::vec::group_vec_axioms;

/// A structured value, as written on the wire.
#[derive(Debug, PartialEq)]
pub enum Value {
    Bool(bool),
    Int(i64),
    /// A 32-bit float, as its IEEE-754 bit pattern.
    F32(u32),
    Str(Vec<char>),
    Array(Vec<Value>),
    /// A map, with its entries in the order in which they are written.
    Record(Vec<(Vec<char>, Value)>),
}

/// The mathematical form of a [`Value`].
pub enum VValue {
    Bool(bool),
    Int(int),
    F32(u32),
    Str(Seq<char>),
    Array(Seq<VValue>),
    Record(Seq<(Seq<char>, VValue)>),
}

pub open spec fn view_values(s: Seq<Value>) -> Seq<VValue>
    decreases s,
{
    if s.len() == 0 {
        Seq::empty()
    } else {
        view_values(s.drop_last()).push(view_value(s.last()))
    }
}

pub open spec fn view_entries(s: Seq<(Vec<char>, Value)>) -> Seq<(Seq<char>, VValue)>
    decreases s,
{
    if s.len() == 0 {
        Seq::empty()
    } else {
        view_entries(s.drop_last()).push((s.last().0@, view_value(s.last().1)))
    }
}

pub open spec fn view_value(v: Value) -> VValue
    decreases v,
{
    match v {
        Value::Bool(b) => VValue::Bool(b),
        Value::Int(i) => VValue::Int(i as int),
        Value::F32(f) => VValue::F32(f),
        Value::Str(s) => VValue::Str(s@),
        Value::Array(a) => VValue::Array(view_values(a@)),
        Value::Record(m) => VValue::Record(view_entries(m@)),
    }
}

impl View for Value {
    type V = VValue;

    open spec fn view(&self) -> VValue {
        view_value(*self)
    }
}

/// The characters of a string slice.
pub fn chars_of(s: &str) -> (r: Vec<char>)
    ensures
        r@ == s@,
{
    let n = s.unicode_len();
    let mut r: Vec<char> = Vec::new();
    let mut i: usize = 0;
    while i < n
        invariant
            n == s@.len(),
            i <= n,
            r@ == s@.subrange(0, i as int),
        decreases n - i,
    {
        r.push(s.get_char(i));
        i = i + 1;
        assert(r@ =~= s@.subrange(0, i as int));
    }
    assert(r@ =~= s@);
    r
}

/// A copy of a sequence of characters.
pub fn copy_chars(s: &Vec<char>) -> (r: Vec<char>)
    ensures
        r@ == s@,
{
    let mut r: Vec<char> = Vec::new();
    let mut i: usize = 0;
    while i < s.len()
        invariant
            i <= s@.len(),
            r@ == s@.subrange(0, i as int),
        decreases s@.len() - i,
    {
        r.push(s[i]);
        i = i + 1;
        assert(r@ =~= s@.subrange(0, i as int));
    }
    assert(r@ =~= s@);
    r
}

/// The entries `s`, with `(k, v)` appended when `present` holds: how a field
/// that may be left out at its default is written.
pub open spec fn with(s: Seq<(Seq<char>, VValue)>, present: bool, k: Seq<char>, v: VValue) -> Seq<
    (Seq<char>, VValue),
> {
    if present {
        s.push((k, v))
    } else {
        s
    }
}

/// An enum alternative that carries a payload: a map of its one tag.
pub open spec fn tagged(tag: Seq<char>, payload: VValue) -> VValue {
    VValue::Record(seq![(tag, payload)])
}

pub proof fn lemma_view_values_push(s: Seq<Value>, x: Value)
    ensures
        view_values(s.push(x)) == view_values(s).push(view_value(x)),
{
    assert(s.push(x).drop_last() =~= s);
}

pub proof fn lemma_view_entries_push(s: Seq<(Vec<char>, Value)>, x: (Vec<char>, Value))
    ensures
        view_entries(s.push(x)) == view_entries(s).push((x.0@, view_value(x.1))),
{
    assert(s.push(x).drop_last() =~= s);
}

/// Appends the entry `(k, v)` to the entries of a map.
pub fn push_entry(r: &mut Vec<(Vec<char>, Value)>, k: &str, v: Value)
    ensures
        view_entries(final(r)@) == view_entries(old(r)@).push((k@, v@)),
{
    let key = chars_of(k);
    proof {
        lemma_view_entries_push(r@, (key, v));
    }
    r.push((key, v));
}

/// The value `{tag: payload}`.
pub fn tagged_value(tag: &str, payload: Value) -> (r: Value)
    ensures
        r@ == tagged(tag@, payload@),
{
    let mut m: Vec<(Vec<char>, Value)> = Vec::new();
    push_entry(&mut m, tag, payload);
    assert(view_entries(m@) =~= seq![(tag@, payload@)]) by {
        assert(view_entries(Seq::<(Vec<char>, Value)>::empty()) =~= Seq::empty());
    }
    Value::Record(m)
}

/// A string value of one character.
pub fn char_value(c: char) -> (r: Value)
    ensures
        r@ == VValue::Str(seq![c]),
{
    let mut s: Vec<char> = Vec::new();
    s.push(c);
    assert(s@ =~= seq![c]);
    Value::Str(s)
}

/// A string value.
pub fn str_value(s: &str) -> (r: Value)
    ensures
        r@ == VValue::Str(s@),
{
    Value::Str(chars_of(s))
}

impl Value {
    /// A deep copy of this value.
    pub fn copy(&self) -> (r: Value)
        ensures
            r@ == self@,
        decreases self,
    {
        match self {
            Value::Bool(b) => Value::Bool(*b),
            Value::Int(i) => Value::Int(*i),
            Value::F32(f) => Value::F32(*f),
            Value::Str(s) => Value::Str(copy_chars(s)),
            Value::Array(a) => {
                let mut r: Vec<Value> = Vec::new();
                let mut i: usize = 0;
                while i < a.len()
                    invariant
                        i <= a@.len(),
                        *self == Value::Array(*a),
                        view_values(r@) == view_values(a@.subrange(0, i as int)),
                    decreases a@.len() - i,
                {
                    assert(decreases_to!(*self => self->Array_0));
                    assert(decreases_to!(*a => a[i as int]));
                    let c = a[i].copy();
                    let ghost prev = r@;
                    r.push(c);
                    assert(r@.drop_last() =~= prev);
                    assert(a@.subrange(0, i + 1).drop_last() =~= a@.subrange(0, i as int));
                    i = i + 1;
                }
                assert(a@.subrange(0, a@.len() as int) =~= a@);
                Value::Array(r)
            },
            Value::Record(m) => {
                let mut r: Vec<(Vec<char>, Value)> = Vec::new();
                let mut i: usize = 0;
                while i < m.len()
                    invariant
                        i <= m@.len(),
                        *self == Value::Record(*m),
                        view_entries(r@) == view_entries(m@.subrange(0, i as int)),
                    decreases m@.len() - i,
                {
                    assert(decreases_to!(*self => self->Record_0));
                    assert(decreases_to!(*m => m[i as int]));
                    assert(decreases_to!(m[i as int] => m[i as int].1));
                    let k = copy_chars(&m[i].0);
                    let c = m[i].1.copy();
                    let ghost prev = r@;
                    r.push((k, c));
                    assert(r@.drop_last() =~= prev);
                    assert(m@.subrange(0, i + 1).drop_last() =~= m@.subrange(0, i as int));
                    i = i + 1;
                }
                assert(m@.subrange(0, m@.len() as int) =~= m@);
                Value::Record(r)
            },
        }
    }
}

} // verus!
