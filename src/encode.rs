//! The elision-aware encoding of a document tree into a [`Value`].
//!
//! Enums are externally tagged: an alternative without payload is its name,
//! one with a payload is a map from its name to the payload. Structs are maps
//! whose entries follow the field order. A field at its default (an empty
//! sequence, `false`, a span of 1, an absent option) is left out.
use vstd::prelude::*;
use crate::math::{
    Attributes, Element, Length, LengthOrFraction, MathElement, OpForm, Operator, Pair, Padding,
    ResolvedOperator, ScriptLevel, Space, TableCell, TableRow, Variant, u32_is_one,
};
use crate::value::{
    Value, VValue, char_value, chars_of, push_entry, str_value, tagged, tagged_value, view_entries, view_values,
    lemma_view_entries_push, lemma_view_values_push, with,
};

verus! {

broadcast use vstd::std_specs::vec::group_vec_axioms;

pub open spec fn enc_length(l: Length) -> VValue {
    match l {
        Length::Em(b) => tagged("Em"@, VValue::F32(b)),
        Length::Ex(b) => tagged("Ex"@, VValue::F32(b)),
    }
}

pub open spec fn enc_length_or_fraction(l: LengthOrFraction) -> VValue {
    match l {
        LengthOrFraction::Em(b) => tagged("Em"@, VValue::F32(b)),
        LengthOrFraction::Ex(b) => tagged("Ex"@, VValue::F32(b)),
        LengthOrFraction::Frac(b) => tagged("Frac"@, VValue::F32(b)),
    }
}

pub open spec fn form_name(f: OpForm) -> Seq<char> {
    match f {
        OpForm::Prefix => "Prefix"@,
        OpForm::Postfix => "Postfix"@,
        OpForm::Infix => "Infix"@,
    }
}

pub open spec fn variant_name(v: Variant) -> Seq<char> {
    match v {
        Variant::Normal => "Normal"@,
        Variant::Bold => "Bold"@,
        Variant::Italic => "Italic"@,
        Variant::BoldItalic => "BoldItalic"@,
        Variant::DoubleStruck => "DoubleStruck"@,
        Variant::BoldFraktur => "BoldFraktur"@,
        Variant::Script => "Script"@,
        Variant::BoldScript => "BoldScript"@,
        Variant::Fraktur => "Fraktur"@,
        Variant::SansSerif => "SansSerif"@,
        Variant::BoldSansSerif => "BoldSansSerif"@,
        Variant::SansSerifItalic => "SansSerifItalic"@,
        Variant::SansSerifBoldItalic => "SansSerifBoldItalic"@,
        Variant::Monospace => "Monospace"@,
        Variant::Initial => "Initial"@,
        Variant::Tailed => "Tailed"@,
        Variant::Looped => "Looped"@,
        Variant::Stretched => "Stretched"@,
    }
}

/// The tag of a script-level adjustment on the wire.
pub open spec fn script_level_tag(s: ScriptLevel) -> Seq<char> {
    match s {
        ScriptLevel::Add(_) => "Add"@,
        ScriptLevel::Absolute(_) => "Set"@,
    }
}

/// The unit tag of a length on the wire.
pub open spec fn length_tag(l: Length) -> Seq<char> {
    match l {
        Length::Em(_) => "Em"@,
        Length::Ex(_) => "Ex"@,
    }
}

/// The tag of a length or fraction on the wire.
pub open spec fn length_or_fraction_tag(l: LengthOrFraction) -> Seq<char> {
    match l {
        LengthOrFraction::Em(_) => "Em"@,
        LengthOrFraction::Ex(_) => "Ex"@,
        LengthOrFraction::Frac(_) => "Frac"@,
    }
}

pub open spec fn enc_script_level(s: ScriptLevel) -> VValue {
    match s {
        ScriptLevel::Add(d) => tagged("Add"@, VValue::Int(d as int)),
        ScriptLevel::Absolute(l) => tagged("Set"@, VValue::Int(l as int)),
    }
}

pub open spec fn enc_strings(s: Seq<String>) -> Seq<VValue>
    decreases s.len(),
{
    if s.len() == 0 {
        Seq::empty()
    } else {
        enc_strings(s.drop_last()).push(VValue::Str(s.last()@))
    }
}

pub open spec fn enc_data(s: Seq<(String, Value)>) -> Seq<(Seq<char>, VValue)>
    decreases s.len(),
{
    if s.len() == 0 {
        Seq::empty()
    } else {
        enc_data(s.drop_last()).push((s.last().0@, s.last().1@))
    }
}

pub open spec fn enc_attributes(a: Attributes) -> VValue {
    let s = with(Seq::empty(), a.class@.len() > 0, "class"@, VValue::Array(enc_strings(a.class@)));
    let s = with(s, a.rtl, "rtl"@, VValue::Bool(true));
    let s = with(s, a.display_style is Some, "display_style"@, VValue::Bool(a.display_style->0));
    let s = with(s, a.variant is Some, "variant"@, VValue::Str(variant_name(a.variant->0)));
    let s = with(
        s,
        a.script_level is Some,
        "script_level"@,
        enc_script_level(a.script_level->0),
    );
    let s = with(s, a.data is Some, "data"@, VValue::Record(enc_data(a.data->0@)));
    VValue::Record(s)
}

pub open spec fn enc_operator(o: Operator) -> VValue {
    let s = seq![("t"@, VValue::Str(seq![o.t]))];
    let s = with(s, o.form is Some, "form"@, VValue::Str(form_name(o.form->0)));
    let s = with(s, o.max_size is Some, "max_size"@, enc_length_or_fraction(o.max_size->0));
    let s = with(s, o.min_size is Some, "min_size"@, enc_length_or_fraction(o.min_size->0));
    let s = with(s, o.lspace is Some, "lspace"@, enc_length_or_fraction(o.lspace->0));
    let s = with(s, o.rspace is Some, "rspace"@, enc_length_or_fraction(o.rspace->0));
    let s = with(s, o.stretchy is Some, "stretchy"@, VValue::Bool(o.stretchy->0));
    let s = with(s, o.symmetric is Some, "symmetric"@, VValue::Bool(o.symmetric->0));
    let s = with(s, o.large_op is Some, "large_op"@, VValue::Bool(o.large_op->0));
    let s = with(
        s,
        o.movable_limits is Some,
        "movable_limits"@,
        VValue::Bool(o.movable_limits->0),
    );
    let s = with(s, o.separator is Some, "separator"@, VValue::Bool(o.separator->0));
    let s = with(s, o.fence is Some, "fence"@, VValue::Bool(o.fence->0));
    VValue::Record(s)
}

pub open spec fn enc_resolved_operator(o: ResolvedOperator) -> VValue {
    VValue::Record(
        seq![
            ("t"@, VValue::Str(seq![o.t])),
            ("form"@, VValue::Str(form_name(o.form))),
            ("max_size"@, enc_length(o.max_size)),
            ("min_size"@, enc_length(o.min_size)),
            ("lspace"@, enc_length(o.lspace)),
            ("rspace"@, enc_length(o.rspace)),
            ("stretchy"@, VValue::Bool(o.stretchy)),
            ("symmetric"@, VValue::Bool(o.symmetric)),
            ("large_op"@, VValue::Bool(o.large_op)),
            ("movable_limits"@, VValue::Bool(o.movable_limits)),
            ("separator"@, VValue::Bool(o.separator)),
            ("fence"@, VValue::Bool(o.fence)),
        ],
    )
}

pub open spec fn enc_space(s: Space) -> VValue {
    let r = with(Seq::empty(), s.width is Some, "width"@, enc_length(s.width->0));
    let r = with(r, s.height is Some, "height"@, enc_length(s.height->0));
    let r = with(r, s.depth is Some, "depth"@, enc_length(s.depth->0));
    VValue::Record(r)
}

pub open spec fn enc_element(e: Element) -> VValue
    decreases e,
{
    let s = seq![("e"@, tagged(node_tag(e.e), node_payload(e.e)))];
    VValue::Record(with(s, e.a is Some, "a"@, enc_attributes(*e.a->0)))
}

pub open spec fn enc_elems(s: Seq<Element>) -> Seq<VValue>
    decreases s,
{
    if s.len() == 0 {
        Seq::empty()
    } else {
        enc_elems(s.drop_last()).push(enc_element(s[s.len() - 1]))
    }
}

pub open spec fn enc_pair(p: Pair) -> VValue
    decreases p,
{
    VValue::Record(seq![("sup"@, enc_element(*p.sup)), ("sub"@, enc_element(*p.sub))])
}

pub open spec fn enc_pairs(s: Seq<Pair>) -> Seq<VValue>
    decreases s,
{
    if s.len() == 0 {
        Seq::empty()
    } else {
        enc_pairs(s.drop_last()).push(enc_pair(s[s.len() - 1]))
    }
}

pub open spec fn enc_cell(c: TableCell) -> VValue
    decreases c,
{
    let s = with(Seq::empty(), c.col_span != 1, "col_span"@, VValue::Int(c.col_span as int));
    let s = with(s, c.row_span != 1, "row_span"@, VValue::Int(c.row_span as int));
    let s = with(s, c.elems@.len() > 0, "elems"@, VValue::Array(enc_elems(c.elems@)));
    VValue::Record(with(s, c.a is Some, "a"@, enc_attributes(*c.a->0)))
}

pub open spec fn enc_cells(s: Seq<TableCell>) -> Seq<VValue>
    decreases s,
{
    if s.len() == 0 {
        Seq::empty()
    } else {
        enc_cells(s.drop_last()).push(enc_cell(s[s.len() - 1]))
    }
}

pub open spec fn enc_row(r: TableRow) -> VValue
    decreases r,
{
    let s = with(Seq::empty(), r.cells@.len() > 0, "cells"@, VValue::Array(enc_cells(r.cells@)));
    VValue::Record(with(s, r.a is Some, "a"@, enc_attributes(*r.a->0)))
}

pub open spec fn enc_rows(s: Seq<TableRow>) -> Seq<VValue>
    decreases s,
{
    if s.len() == 0 {
        Seq::empty()
    } else {
        enc_rows(s.drop_last()).push(enc_row(s[s.len() - 1]))
    }
}

pub open spec fn enc_padding(p: Padding) -> VValue
    decreases p,
{
    let r = with(Seq::empty(), p.elems@.len() > 0, "elems"@, VValue::Array(enc_elems(p.elems@)));
    let r = with(r, p.width is Some, "width"@, enc_length(p.width->0));
    let r = with(r, p.height is Some, "height"@, enc_length(p.height->0));
    let r = with(r, p.depth is Some, "depth"@, enc_length(p.depth->0));
    let r = with(r, p.lspace is Some, "lspace"@, enc_length(p.lspace->0));
    let r = with(r, p.voffset is Some, "voffset"@, enc_length(p.voffset->0));
    VValue::Record(r)
}

/// The tag that names a node's alternative on the wire.
pub open spec fn node_tag(n: MathElement) -> Seq<char> {
    match n {
        MathElement::Op(_) => "Op"@,
        MathElement::Oper(_) => "Oper"@,
        MathElement::ResolvedOper(_) => "ResolvedOper"@,
        MathElement::Text(_) => "Text"@,
        MathElement::Id { .. } => "Id"@,
        MathElement::Num(_) => "Num"@,
        MathElement::Error(_) => "Err"@,
        MathElement::Space(_) => "Space"@,
        MathElement::Str(_) => "Str"@,
        MathElement::Phantom(_) => "Phantom"@,
        MathElement::Row(_) => "Row"@,
        MathElement::Padding(_) => "Padding"@,
        MathElement::Frac { .. } => "Frac"@,
        MathElement::Sqrt(_) => "Sqrt"@,
        MathElement::Root { .. } => "Root"@,
        MathElement::Sup { .. } => "Sup"@,
        MathElement::Sub { .. } => "Sub"@,
        MathElement::SubSup { .. } => "SubSup"@,
        MathElement::Over { .. } => "Over"@,
        MathElement::Under { .. } => "Under"@,
        MathElement::UnderOver { .. } => "UnderOver"@,
        MathElement::MultiScript { .. } => "MultiScript"@,
        MathElement::Table { .. } => "Table"@,
    }
}

/// What a node's tag maps to on the wire.
pub open spec fn node_payload(n: MathElement) -> VValue
    decreases n,
{
    match n {
        MathElement::Op(c) => VValue::Str(seq![c]),
        MathElement::Oper(o) => enc_operator(o),
        MathElement::ResolvedOper(o) => enc_resolved_operator(o),
        MathElement::Text(t) => VValue::Str(t@),
        MathElement::Id { t, normal } => VValue::Record(
            with(seq![("t"@, VValue::Str(t@))], normal, "normal"@, VValue::Bool(true)),
        ),
        MathElement::Num(t) => VValue::Str(t@),
        MathElement::Error(t) => VValue::Str(t@),
        MathElement::Space(s) => enc_space(s),
        MathElement::Str(t) => VValue::Str(t@),
        MathElement::Phantom(v) => VValue::Array(enc_elems(v@)),
        MathElement::Row(v) => VValue::Array(enc_elems(v@)),
        MathElement::Padding(p) => enc_padding(p),
        MathElement::Frac { line_thickness, num, den } => VValue::Record(
            with(Seq::empty(), line_thickness is Some, "line_thickness"@, VValue::F32(line_thickness->0))
                .push(("num"@, enc_element(*num))).push(("den"@, enc_element(*den))),
        ),
        MathElement::Sqrt(b) => enc_element(*b),
        MathElement::Root { base, index } => VValue::Record(
            seq![("base"@, enc_element(*base)), ("index"@, enc_element(*index))],
        ),
        MathElement::Sup { base, sup } => VValue::Record(
            seq![("base"@, enc_element(*base)), ("sup"@, enc_element(*sup))],
        ),
        MathElement::Sub { base, sub } => VValue::Record(
            seq![("base"@, enc_element(*base)), ("sub"@, enc_element(*sub))],
        ),
        MathElement::SubSup { base, sub, sup } => VValue::Record(
            seq![
                ("base"@, enc_element(*base)),
                ("sub"@, enc_element(*sub)),
                ("sup"@, enc_element(*sup)),
            ],
        ),
        MathElement::Over { base, over, accent } => VValue::Record(
            with(
                seq![("base"@, enc_element(*base)), ("over"@, enc_element(*over))],
                accent,
                "accent"@,
                VValue::Bool(true),
            ),
        ),
        MathElement::Under { base, under, accent_under } => VValue::Record(
            with(
                seq![("base"@, enc_element(*base)), ("under"@, enc_element(*under))],
                accent_under,
                "accent_under"@,
                VValue::Bool(true),
            ),
        ),
        MathElement::UnderOver { base, under, over, accent, accent_under } => VValue::Record(
            with(
                with(
                    seq![
                        ("base"@, enc_element(*base)),
                        ("under"@, enc_element(*under)),
                        ("over"@, enc_element(*over)),
                    ],
                    accent,
                    "accent"@,
                    VValue::Bool(true),
                ),
                accent_under,
                "accent_under"@,
                VValue::Bool(true),
            ),
        ),
        MathElement::MultiScript { base, post, pre } => VValue::Record(
            with(
                with(
                    seq![("base"@, enc_element(*base))],
                    post@.len() > 0,
                    "post"@,
                    VValue::Array(enc_pairs(post@)),
                ),
                pre@.len() > 0,
                "pre"@,
                VValue::Array(enc_pairs(pre@)),
            ),
        ),
        MathElement::Table { rows } => VValue::Record(
            seq![("rows"@, VValue::Array(enc_rows(rows@)))],
        ),
    }
}

/// A node on the wire: a map from its tag to its payload.
pub open spec fn enc_node(n: MathElement) -> VValue {
    tagged(node_tag(n), node_payload(n))
}

pub fn encode_length(l: &Length) -> (r: Value)
    ensures
        r@ == enc_length(*l),
{
    match l {
        Length::Em(b) => tagged_value("Em", Value::F32(*b)),
        Length::Ex(b) => tagged_value("Ex", Value::F32(*b)),
    }
}

pub fn encode_length_or_fraction(l: &LengthOrFraction) -> (r: Value)
    ensures
        r@ == enc_length_or_fraction(*l),
{
    match l {
        LengthOrFraction::Em(b) => tagged_value("Em", Value::F32(*b)),
        LengthOrFraction::Ex(b) => tagged_value("Ex", Value::F32(*b)),
        LengthOrFraction::Frac(b) => tagged_value("Frac", Value::F32(*b)),
    }
}

pub fn encode_form(f: OpForm) -> (r: Value)
    ensures
        r@ == VValue::Str(form_name(f)),
{
    match f {
        OpForm::Prefix => str_value("Prefix"),
        OpForm::Postfix => str_value("Postfix"),
        OpForm::Infix => str_value("Infix"),
    }
}

pub fn encode_variant(v: Variant) -> (r: Value)
    ensures
        r@ == VValue::Str(variant_name(v)),
{
    match v {
        Variant::Normal => str_value("Normal"),
        Variant::Bold => str_value("Bold"),
        Variant::Italic => str_value("Italic"),
        Variant::BoldItalic => str_value("BoldItalic"),
        Variant::DoubleStruck => str_value("DoubleStruck"),
        Variant::BoldFraktur => str_value("BoldFraktur"),
        Variant::Script => str_value("Script"),
        Variant::BoldScript => str_value("BoldScript"),
        Variant::Fraktur => str_value("Fraktur"),
        Variant::SansSerif => str_value("SansSerif"),
        Variant::BoldSansSerif => str_value("BoldSansSerif"),
        Variant::SansSerifItalic => str_value("SansSerifItalic"),
        Variant::SansSerifBoldItalic => str_value("SansSerifBoldItalic"),
        Variant::Monospace => str_value("Monospace"),
        Variant::Initial => str_value("Initial"),
        Variant::Tailed => str_value("Tailed"),
        Variant::Looped => str_value("Looped"),
        Variant::Stretched => str_value("Stretched"),
    }
}

pub fn encode_script_level(s: ScriptLevel) -> (r: Value)
    ensures
        r@ == enc_script_level(s),
{
    match s {
        ScriptLevel::Add(d) => tagged_value("Add", Value::Int(d as i64)),
        ScriptLevel::Absolute(l) => tagged_value("Set", Value::Int(l as i64)),
    }
}

fn encode_strings(v: &Vec<String>) -> (r: Vec<Value>)
    ensures
        view_values(r@) == enc_strings(v@),
{
    let mut r: Vec<Value> = Vec::new();
    let mut i: usize = 0;
    while i < v.len()
        invariant
            i <= v@.len(),
            view_values(r@) == enc_strings(v@.subrange(0, i as int)),
        decreases v@.len() - i,
    {
        let x = str_value(v[i].as_str());
        proof {
            lemma_view_values_push(r@, x);
        }
        r.push(x);
        assert(v@.subrange(0, i + 1).drop_last() =~= v@.subrange(0, i as int));
        i = i + 1;
    }
    assert(v@.subrange(0, v@.len() as int) =~= v@);
    r
}

fn encode_data(v: &Vec<(String, Value)>) -> (r: Vec<(Vec<char>, Value)>)
    ensures
        view_entries(r@) == enc_data(v@),
{
    let mut r: Vec<(Vec<char>, Value)> = Vec::new();
    let mut i: usize = 0;
    while i < v.len()
        invariant
            i <= v@.len(),
            view_entries(r@) == enc_data(v@.subrange(0, i as int)),
        decreases v@.len() - i,
    {
        let k = chars_of(v[i].0.as_str());
        let x = v[i].1.copy();
        proof {
            lemma_view_entries_push(r@, (k, x));
        }
        r.push((k, x));
        assert(v@.subrange(0, i + 1).drop_last() =~= v@.subrange(0, i as int));
        i = i + 1;
    }
    assert(v@.subrange(0, v@.len() as int) =~= v@);
    r
}

/// Encodes attributes, leaving out each field at its default.
pub fn encode_attributes(a: &Attributes) -> (r: Value)
    ensures
        r@ == enc_attributes(*a),
{
    let mut m: Vec<(Vec<char>, Value)> = Vec::new();
    assert(view_entries(m@) =~= Seq::empty());
    if a.class.len() > 0 {
        push_entry(&mut m, "class", Value::Array(encode_strings(&a.class)));
    }
    if a.rtl {
        push_entry(&mut m, "rtl", Value::Bool(true));
    }
    if let Some(b) = a.display_style {
        push_entry(&mut m, "display_style", Value::Bool(b));
    }
    if let Some(v) = a.variant {
        push_entry(&mut m, "variant", encode_variant(v));
    }
    if let Some(s) = a.script_level {
        push_entry(&mut m, "script_level", encode_script_level(s));
    }
    if let Some(d) = &a.data {
        push_entry(&mut m, "data", Value::Record(encode_data(d)));
    }
    Value::Record(m)
}

fn push_opt_length(m: &mut Vec<(Vec<char>, Value)>, k: &str, l: &Option<Length>)
    ensures
        view_entries(final(m)@) == with(
            view_entries(old(m)@),
            l is Some,
            k@,
            enc_length(l->0),
        ),
{
    if let Some(x) = l {
        push_entry(m, k, encode_length(x));
    }
}

fn push_opt_length_or_fraction(m: &mut Vec<(Vec<char>, Value)>, k: &str, l: &Option<LengthOrFraction>)
    ensures
        view_entries(final(m)@) == with(
            view_entries(old(m)@),
            l is Some,
            k@,
            enc_length_or_fraction(l->0),
        ),
{
    if let Some(x) = l {
        push_entry(m, k, encode_length_or_fraction(x));
    }
}

fn push_opt_bool(m: &mut Vec<(Vec<char>, Value)>, k: &str, b: Option<bool>)
    ensures
        view_entries(final(m)@) == with(view_entries(old(m)@), b is Some, k@, VValue::Bool(b->0)),
{
    if let Some(x) = b {
        push_entry(m, k, Value::Bool(x));
    }
}

pub fn encode_operator(o: &Operator) -> (r: Value)
    ensures
        r@ == enc_operator(*o),
{
    let mut m: Vec<(Vec<char>, Value)> = Vec::new();
    assert(view_entries(m@) =~= Seq::empty());
    push_entry(&mut m, "t", char_value(o.t));
    assert(view_entries(m@) =~= seq![("t"@, VValue::Str(seq![o.t]))]);
    if let Some(f) = o.form {
        push_entry(&mut m, "form", encode_form(f));
    }
    push_opt_length_or_fraction(&mut m, "max_size", &o.max_size);
    push_opt_length_or_fraction(&mut m, "min_size", &o.min_size);
    push_opt_length_or_fraction(&mut m, "lspace", &o.lspace);
    push_opt_length_or_fraction(&mut m, "rspace", &o.rspace);
    push_opt_bool(&mut m, "stretchy", o.stretchy);
    push_opt_bool(&mut m, "symmetric", o.symmetric);
    push_opt_bool(&mut m, "large_op", o.large_op);
    push_opt_bool(&mut m, "movable_limits", o.movable_limits);
    push_opt_bool(&mut m, "separator", o.separator);
    push_opt_bool(&mut m, "fence", o.fence);
    Value::Record(m)
}

pub fn encode_resolved_operator(o: &ResolvedOperator) -> (r: Value)
    ensures
        r@ == enc_resolved_operator(*o),
{
    let mut m: Vec<(Vec<char>, Value)> = Vec::new();
    assert(view_entries(m@) =~= Seq::empty());
    push_entry(&mut m, "t", char_value(o.t));
    push_entry(&mut m, "form", encode_form(o.form));
    push_entry(&mut m, "max_size", encode_length(&o.max_size));
    push_entry(&mut m, "min_size", encode_length(&o.min_size));
    push_entry(&mut m, "lspace", encode_length(&o.lspace));
    push_entry(&mut m, "rspace", encode_length(&o.rspace));
    push_entry(&mut m, "stretchy", Value::Bool(o.stretchy));
    push_entry(&mut m, "symmetric", Value::Bool(o.symmetric));
    push_entry(&mut m, "large_op", Value::Bool(o.large_op));
    push_entry(&mut m, "movable_limits", Value::Bool(o.movable_limits));
    push_entry(&mut m, "separator", Value::Bool(o.separator));
    push_entry(&mut m, "fence", Value::Bool(o.fence));
    assert(view_entries(m@) =~= enc_resolved_operator(*o)->Record_0);
    Value::Record(m)
}

pub fn encode_space(s: &Space) -> (r: Value)
    ensures
        r@ == enc_space(*s),
{
    let mut m: Vec<(Vec<char>, Value)> = Vec::new();
    assert(view_entries(m@) =~= Seq::empty());
    push_opt_length(&mut m, "width", &s.width);
    push_opt_length(&mut m, "height", &s.height);
    push_opt_length(&mut m, "depth", &s.depth);
    Value::Record(m)
}

/// Encodes a document tree, leaving out every field at its default.
pub fn encode_element(e: &Element) -> (r: Value)
    ensures
        r@ == enc_element(*e),
    decreases e,
{
    let mut m: Vec<(Vec<char>, Value)> = Vec::new();
    assert(view_entries(m@) =~= Seq::empty());
    let tag = node_tag_str(&e.e);
    let payload = encode_payload(&e.e);
    push_entry(&mut m, "e", tagged_value(tag, payload));
    assert(view_entries(m@) =~= seq![("e"@, tagged(node_tag(e.e), node_payload(e.e)))]);
    if let Some(a) = &e.a {
        push_entry(&mut m, "a", encode_attributes(a));
    }
    Value::Record(m)
}

fn encode_elems(v: &Vec<Element>) -> (r: Vec<Value>)
    ensures
        view_values(r@) == enc_elems(v@),
    decreases v,
{
    let mut r: Vec<Value> = Vec::new();
    let mut i: usize = 0;
    while i < v.len()
        invariant
            i <= v@.len(),
            view_values(r@) == enc_elems(v@.subrange(0, i as int)),
        decreases v@.len() - i,
    {
        let x = encode_element(&v[i]);
        proof {
            lemma_view_values_push(r@, x);
        }
        r.push(x);
        assert(v@.subrange(0, i + 1).drop_last() =~= v@.subrange(0, i as int));
        i = i + 1;
    }
    assert(v@.subrange(0, v@.len() as int) =~= v@);
    r
}

fn encode_pair(p: &Pair) -> (r: Value)
    ensures
        r@ == enc_pair(*p),
    decreases p,
{
    let mut m: Vec<(Vec<char>, Value)> = Vec::new();
    assert(view_entries(m@) =~= Seq::empty());
    push_entry(&mut m, "sup", encode_element(&p.sup));
    push_entry(&mut m, "sub", encode_element(&p.sub));
    assert(view_entries(m@) =~= enc_pair(*p)->Record_0);
    Value::Record(m)
}

fn encode_pairs(v: &Vec<Pair>) -> (r: Vec<Value>)
    ensures
        view_values(r@) == enc_pairs(v@),
    decreases v,
{
    let mut r: Vec<Value> = Vec::new();
    let mut i: usize = 0;
    while i < v.len()
        invariant
            i <= v@.len(),
            view_values(r@) == enc_pairs(v@.subrange(0, i as int)),
        decreases v@.len() - i,
    {
        let x = encode_pair(&v[i]);
        proof {
            lemma_view_values_push(r@, x);
        }
        r.push(x);
        assert(v@.subrange(0, i + 1).drop_last() =~= v@.subrange(0, i as int));
        i = i + 1;
    }
    assert(v@.subrange(0, v@.len() as int) =~= v@);
    r
}

fn encode_cell(c: &TableCell) -> (r: Value)
    ensures
        r@ == enc_cell(*c),
    decreases c,
{
    let mut m: Vec<(Vec<char>, Value)> = Vec::new();
    assert(view_entries(m@) =~= Seq::empty());
    if !u32_is_one(&c.col_span) {
        push_entry(&mut m, "col_span", Value::Int(c.col_span as i64));
    }
    if !u32_is_one(&c.row_span) {
        push_entry(&mut m, "row_span", Value::Int(c.row_span as i64));
    }
    if c.elems.len() > 0 {
        push_entry(&mut m, "elems", Value::Array(encode_elems(&c.elems)));
    }
    if let Some(a) = &c.a {
        push_entry(&mut m, "a", encode_attributes(a));
    }
    Value::Record(m)
}

fn encode_cells(v: &Vec<TableCell>) -> (r: Vec<Value>)
    ensures
        view_values(r@) == enc_cells(v@),
    decreases v,
{
    let mut r: Vec<Value> = Vec::new();
    let mut i: usize = 0;
    while i < v.len()
        invariant
            i <= v@.len(),
            view_values(r@) == enc_cells(v@.subrange(0, i as int)),
        decreases v@.len() - i,
    {
        let x = encode_cell(&v[i]);
        proof {
            lemma_view_values_push(r@, x);
        }
        r.push(x);
        assert(v@.subrange(0, i + 1).drop_last() =~= v@.subrange(0, i as int));
        i = i + 1;
    }
    assert(v@.subrange(0, v@.len() as int) =~= v@);
    r
}

fn encode_row(row: &TableRow) -> (r: Value)
    ensures
        r@ == enc_row(*row),
    decreases row,
{
    let mut m: Vec<(Vec<char>, Value)> = Vec::new();
    assert(view_entries(m@) =~= Seq::empty());
    if row.cells.len() > 0 {
        push_entry(&mut m, "cells", Value::Array(encode_cells(&row.cells)));
    }
    if let Some(a) = &row.a {
        push_entry(&mut m, "a", encode_attributes(a));
    }
    Value::Record(m)
}

fn encode_rows(v: &Vec<TableRow>) -> (r: Vec<Value>)
    ensures
        view_values(r@) == enc_rows(v@),
    decreases v,
{
    let mut r: Vec<Value> = Vec::new();
    let mut i: usize = 0;
    while i < v.len()
        invariant
            i <= v@.len(),
            view_values(r@) == enc_rows(v@.subrange(0, i as int)),
        decreases v@.len() - i,
    {
        let x = encode_row(&v[i]);
        proof {
            lemma_view_values_push(r@, x);
        }
        r.push(x);
        assert(v@.subrange(0, i + 1).drop_last() =~= v@.subrange(0, i as int));
        i = i + 1;
    }
    assert(v@.subrange(0, v@.len() as int) =~= v@);
    r
}

fn encode_padding(p: &Padding) -> (r: Value)
    ensures
        r@ == enc_padding(*p),
    decreases p,
{
    let mut m: Vec<(Vec<char>, Value)> = Vec::new();
    assert(view_entries(m@) =~= Seq::empty());
    if p.elems.len() > 0 {
        push_entry(&mut m, "elems", Value::Array(encode_elems(&p.elems)));
    }
    push_opt_length(&mut m, "width", &p.width);
    push_opt_length(&mut m, "height", &p.height);
    push_opt_length(&mut m, "depth", &p.depth);
    push_opt_length(&mut m, "lspace", &p.lspace);
    push_opt_length(&mut m, "voffset", &p.voffset);
    Value::Record(m)
}

/// The tag of a node's alternative.
pub fn node_tag_str(n: &MathElement) -> (r: &'static str)
    ensures
        r@ == node_tag(*n),
{
    match n {
        MathElement::Op(_) => "Op",
        MathElement::Oper(_) => "Oper",
        MathElement::ResolvedOper(_) => "ResolvedOper",
        MathElement::Text(_) => "Text",
        MathElement::Id { .. } => "Id",
        MathElement::Num(_) => "Num",
        MathElement::Error(_) => "Err",
        MathElement::Space(_) => "Space",
        MathElement::Str(_) => "Str",
        MathElement::Phantom(_) => "Phantom",
        MathElement::Row(_) => "Row",
        MathElement::Padding(_) => "Padding",
        MathElement::Frac { .. } => "Frac",
        MathElement::Sqrt(_) => "Sqrt",
        MathElement::Root { .. } => "Root",
        MathElement::Sup { .. } => "Sup",
        MathElement::Sub { .. } => "Sub",
        MathElement::SubSup { .. } => "SubSup",
        MathElement::Over { .. } => "Over",
        MathElement::Under { .. } => "Under",
        MathElement::UnderOver { .. } => "UnderOver",
        MathElement::MultiScript { .. } => "MultiScript",
        MathElement::Table { .. } => "Table",
    }
}

/// Encodes what a node's tag maps to.
pub fn encode_payload(n: &MathElement) -> (r: Value)
    ensures
        r@ == node_payload(*n),
    decreases n,
{
    let mut m: Vec<(Vec<char>, Value)> = Vec::new();
    assert(view_entries(m@) =~= Seq::empty());
    match n {
        MathElement::Op(c) => char_value(*c),
        MathElement::Oper(o) => encode_operator(o),
        MathElement::ResolvedOper(o) => encode_resolved_operator(o),
        MathElement::Text(t) => str_value(t.as_str()),
        MathElement::Id { t, normal } => {
            push_entry(&mut m, "t", str_value(t.as_str()));
            if *normal {
                push_entry(&mut m, "normal", Value::Bool(true));
            }
            Value::Record(m)
        },
        MathElement::Num(t) => str_value(t.as_str()),
        MathElement::Error(t) => str_value(t.as_str()),
        MathElement::Space(s) => encode_space(s),
        MathElement::Str(t) => str_value(t.as_str()),
        MathElement::Phantom(v) => Value::Array(encode_elems(v)),
        MathElement::Row(v) => Value::Array(encode_elems(v)),
        MathElement::Padding(p) => encode_padding(p),
        MathElement::Frac { line_thickness, num, den } => {
            if let Some(t) = line_thickness {
                push_entry(&mut m, "line_thickness", Value::F32(*t));
            }
            push_entry(&mut m, "num", encode_element(num));
            push_entry(&mut m, "den", encode_element(den));
            Value::Record(m)
        },
        MathElement::Sqrt(b) => encode_element(b),
        MathElement::Root { base, index } => {
            push_entry(&mut m, "base", encode_element(base));
            push_entry(&mut m, "index", encode_element(index));
            assert(view_entries(m@) =~= node_payload(*n)->Record_0);
            Value::Record(m)
        },
        MathElement::Sup { base, sup } => {
            push_entry(&mut m, "base", encode_element(base));
            push_entry(&mut m, "sup", encode_element(sup));
            assert(view_entries(m@) =~= node_payload(*n)->Record_0);
            Value::Record(m)
        },
        MathElement::Sub { base, sub } => {
            push_entry(&mut m, "base", encode_element(base));
            push_entry(&mut m, "sub", encode_element(sub));
            assert(view_entries(m@) =~= node_payload(*n)->Record_0);
            Value::Record(m)
        },
        MathElement::SubSup { base, sub, sup } => {
            push_entry(&mut m, "base", encode_element(base));
            push_entry(&mut m, "sub", encode_element(sub));
            push_entry(&mut m, "sup", encode_element(sup));
            assert(view_entries(m@) =~= node_payload(*n)->Record_0);
            Value::Record(m)
        },
        MathElement::Over { base, over, accent } => {
            push_entry(&mut m, "base", encode_element(base));
            push_entry(&mut m, "over", encode_element(over));
            assert(view_entries(m@) =~= seq![
                ("base"@, enc_element(**base)),
                ("over"@, enc_element(**over)),
            ]);
            if *accent {
                push_entry(&mut m, "accent", Value::Bool(true));
            }
            Value::Record(m)
        },
        MathElement::Under { base, under, accent_under } => {
            push_entry(&mut m, "base", encode_element(base));
            push_entry(&mut m, "under", encode_element(under));
            assert(view_entries(m@) =~= seq![
                ("base"@, enc_element(**base)),
                ("under"@, enc_element(**under)),
            ]);
            if *accent_under {
                push_entry(&mut m, "accent_under", Value::Bool(true));
            }
            Value::Record(m)
        },
        MathElement::UnderOver { base, under, over, accent, accent_under } => {
            push_entry(&mut m, "base", encode_element(base));
            push_entry(&mut m, "under", encode_element(under));
            push_entry(&mut m, "over", encode_element(over));
            assert(view_entries(m@) =~= seq![
                ("base"@, enc_element(**base)),
                ("under"@, enc_element(**under)),
                ("over"@, enc_element(**over)),
            ]);
            if *accent {
                push_entry(&mut m, "accent", Value::Bool(true));
            }
            if *accent_under {
                push_entry(&mut m, "accent_under", Value::Bool(true));
            }
            Value::Record(m)
        },
        MathElement::MultiScript { base, post, pre } => {
            push_entry(&mut m, "base", encode_element(base));
            assert(view_entries(m@) =~= seq![("base"@, enc_element(**base))]);
            if post.len() > 0 {
                push_entry(&mut m, "post", Value::Array(encode_pairs(post)));
            }
            if pre.len() > 0 {
                push_entry(&mut m, "pre", Value::Array(encode_pairs(pre)));
            }
            Value::Record(m)
        },
        MathElement::Table { rows } => {
            push_entry(&mut m, "rows", Value::Array(encode_rows(rows)));
            assert(view_entries(m@) =~= node_payload(*n)->Record_0);
            Value::Record(m)
        },
    }
}

} // verus!
