//! Schema soundness: every document tree encodes to a valid document of the
//! math schema.
use vstd::prelude::*;
use crate::encode::{
    enc_attributes, enc_cell, enc_cells, enc_data, enc_element, enc_elems, enc_length,
    enc_length_or_fraction, enc_operator, enc_padding, enc_pair, enc_pairs, enc_resolved_operator,
    enc_row, enc_rows, enc_script_level, enc_space, enc_strings, form_name, node_payload, node_tag,
    variant_name,
};
use crate::math::{
    Attributes, Element, Length, LengthOrFraction, MathElement, OpForm, Operator, Padding, Pair,
    ResolvedOperator, ScriptLevel, Space, TableCell, TableRow, Variant,
};
use crate::schema::{
    valid_document,
    attributes_shape, length_or_fraction_shape, length_shape, math_types, op_form_shape,
    element_shape, node_shape, operator_shape, padding_shape, pair_shape, resolved_operator_shape,
    space_shape, table_cell_shape, table_row_shape,
};
use crate::shape::{
    VShape, conforms, conforms_fields, conforms_items, conforms_values, field_shape, has_key, lookup,
};
use crate::value::{VValue, Value, tagged, with};

verus! {

broadcast use vstd::string::group_string_axioms;

/// The type fragments of the math schema.
#[verifier::opaque]
pub open spec fn types() -> Seq<(Seq<char>, VShape)> {
    math_types()
}

proof fn lemma_type_lookups()
    ensures
        lookup(types(), "OpForm"@) == Some(op_form_shape()),
        lookup(types(), "Attributes"@) == Some(attributes_shape()),
        lookup(types(), "Length"@) == Some(length_shape()),
        lookup(types(), "LengthOrFraction"@) == Some(length_or_fraction_shape()),
        lookup(types(), "Pair"@) == Some(pair_shape()),
        lookup(types(), "Element"@) == Some(element_shape()),
        lookup(types(), "TableCell"@) == Some(table_cell_shape()),
{
    reveal(types);
    reveal_strlit("OpForm");
    reveal_strlit("Attributes");
    reveal_strlit("Length");
    reveal_strlit("LengthOrFraction");
    reveal_strlit("Pair");
    reveal_strlit("Element");
    reveal_strlit("TableCell");
    assert("OpForm"@.len() != "Attributes"@.len());
    assert("OpForm"@[0] != "Length"@[0]);
    assert("OpForm"@.len() != "LengthOrFraction"@.len());
    assert("OpForm"@.len() != "Pair"@.len());
    assert("OpForm"@.len() != "Element"@.len());
    assert("OpForm"@.len() != "TableCell"@.len());
    assert("Attributes"@.len() != "Length"@.len());
    assert("Attributes"@.len() != "LengthOrFraction"@.len());
    assert("Attributes"@.len() != "Pair"@.len());
    assert("Attributes"@.len() != "Element"@.len());
    assert("Attributes"@.len() != "TableCell"@.len());
    assert("Length"@.len() != "LengthOrFraction"@.len());
    assert("Length"@.len() != "Pair"@.len());
    assert("Length"@.len() != "Element"@.len());
    assert("Length"@.len() != "TableCell"@.len());
    assert("LengthOrFraction"@.len() != "Pair"@.len());
    assert("LengthOrFraction"@.len() != "Element"@.len());
    assert("LengthOrFraction"@.len() != "TableCell"@.len());
    assert("Pair"@.len() != "Element"@.len());
    assert("Pair"@.len() != "TableCell"@.len());
    assert("Element"@.len() != "TableCell"@.len());
    reveal_with_fuel(lookup, 8);
}

proof fn lemma_length(l: Length)
    ensures
        conforms(types(), VShape::Ref("Length"@), enc_length(l)),
{
    lemma_type_lookups();
    reveal_strlit("Em");
    reveal_strlit("Ex");
    assert("Em"@[1] != "Ex"@[1]);
    reveal_with_fuel(lookup, 3);
    reveal_with_fuel(conforms, 3);
}

proof fn lemma_length_or_fraction(l: LengthOrFraction)
    ensures
        conforms(types(), VShape::Ref("LengthOrFraction"@), enc_length_or_fraction(l)),
{
    lemma_type_lookups();
    reveal_strlit("Em");
    reveal_strlit("Ex");
    reveal_strlit("Frac");
    assert("Em"@[1] != "Ex"@[1]);
    assert("Em"@.len() != "Frac"@.len());
    assert("Ex"@.len() != "Frac"@.len());
    reveal_with_fuel(lookup, 4);
    reveal_with_fuel(conforms, 3);
}

proof fn lemma_form(f: OpForm)
    ensures
        conforms(types(), VShape::Ref("OpForm"@), VValue::Str(form_name(f))),
{
    lemma_type_lookups();
    reveal_strlit("Prefix");
    reveal_strlit("Postfix");
    reveal_strlit("Infix");
    assert("Prefix"@.len() != "Postfix"@.len());
    assert("Prefix"@.len() != "Infix"@.len());
    assert("Postfix"@.len() != "Infix"@.len());
    reveal_with_fuel(lookup, 4);
    reveal_with_fuel(conforms, 3);
}

/// Whether the entry `(k, x)` is a declared field of the record with a
/// well-formed value.
pub open spec fn field_ok(
    req: Seq<(Seq<char>, VShape)>,
    opt: Seq<(Seq<char>, VShape)>,
    k: Seq<char>,
    x: VValue,
) -> bool {
    match field_shape(req, opt, k) {
        Some(f) => conforms(types(), f, x),
        None => false,
    }
}

proof fn lemma_fields_push(
    req: Seq<(Seq<char>, VShape)>,
    opt: Seq<(Seq<char>, VShape)>,
    es: Seq<(Seq<char>, VValue)>,
    k: Seq<char>,
    x: VValue,
)
    requires
        conforms_fields(types(), req, opt, es),
        field_ok(req, opt, k, x),
    ensures
        conforms_fields(types(), req, opt, es.push((k, x))),
{
    assert(es.push((k, x)).drop_last() =~= es);
}

proof fn lemma_fields_with(
    req: Seq<(Seq<char>, VShape)>,
    opt: Seq<(Seq<char>, VShape)>,
    es: Seq<(Seq<char>, VValue)>,
    c: bool,
    k: Seq<char>,
    x: VValue,
)
    requires
        conforms_fields(types(), req, opt, es),
        c ==> field_ok(req, opt, k, x),
    ensures
        conforms_fields(types(), req, opt, with(es, c, k, x)),
{
    if c {
        lemma_fields_push(req, opt, es, k, x);
    }
}

proof fn lemma_has_key_push(es: Seq<(Seq<char>, VValue)>, e: (Seq<char>, VValue), k: Seq<char>)
    requires
        has_key(es, k) || e.0 == k,
    ensures
        has_key(es.push(e), k),
{
    let es2 = es.push(e);
    if has_key(es, k) {
        let i = choose|i: int| 0 <= i < es.len() && (#[trigger] es[i]).0 == k;
        assert(es2[i] == es[i]);
    } else {
        assert(es2[es.len() as int] == e);
    }
}

proof fn lemma_has_key_with(es: Seq<(Seq<char>, VValue)>, c: bool, k2: Seq<char>, x: VValue, k: Seq<char>)
    requires
        has_key(es, k),
    ensures
        has_key(with(es, c, k2, x), k),
{
    if c {
        lemma_has_key_push(es, (k2, x), k);
    }
}


proof fn lemma_strings(s: Seq<String>)
    ensures
        conforms_items(types(), VShape::Str, enc_strings(s)),
    decreases s.len(),
{
    if s.len() > 0 {
        lemma_strings(s.drop_last());
        let e = enc_strings(s);
        assert(e == enc_strings(s.drop_last()).push(VValue::Str(s.last()@)));
        assert(conforms(types(), VShape::Str, e[e.len() - 1]));
        assert(e.drop_last() =~= enc_strings(s.drop_last()));
        assert(e.len() > 0);
    }
}

proof fn lemma_data(d: Seq<(String, Value)>)
    ensures
        conforms_values(types(), VShape::Any, enc_data(d)),
    decreases d.len(),
{
    if d.len() > 0 {
        lemma_data(d.drop_last());
        let e = enc_data(d);
        assert(e == enc_data(d.drop_last()).push((d.last().0@, d.last().1@)));
        assert(conforms(types(), VShape::Any, e[e.len() - 1].1));
        assert(e.drop_last() =~= enc_data(d.drop_last()));
        assert(e.len() > 0);
    }
}

proof fn lemma_variant(v: Variant)
    ensures
        attributes_shape()->opt[3].1->OneOf_0.contains(variant_name(v)),
{
    let names = attributes_shape()->opt[3].1->OneOf_0;
    match v {
        Variant::Normal => assert(names[0] == variant_name(v)),
        Variant::Bold => assert(names[1] == variant_name(v)),
        Variant::Italic => assert(names[2] == variant_name(v)),
        Variant::BoldItalic => assert(names[3] == variant_name(v)),
        Variant::DoubleStruck => assert(names[4] == variant_name(v)),
        Variant::BoldFraktur => assert(names[5] == variant_name(v)),
        Variant::Script => assert(names[6] == variant_name(v)),
        Variant::BoldScript => assert(names[7] == variant_name(v)),
        Variant::Fraktur => assert(names[8] == variant_name(v)),
        Variant::SansSerif => assert(names[9] == variant_name(v)),
        Variant::BoldSansSerif => assert(names[10] == variant_name(v)),
        Variant::SansSerifItalic => assert(names[11] == variant_name(v)),
        Variant::SansSerifBoldItalic => assert(names[12] == variant_name(v)),
        Variant::Monospace => assert(names[13] == variant_name(v)),
        Variant::Initial => assert(names[14] == variant_name(v)),
        Variant::Tailed => assert(names[15] == variant_name(v)),
        Variant::Looped => assert(names[16] == variant_name(v)),
        Variant::Stretched => assert(names[17] == variant_name(v)),
    }
}

proof fn lemma_script_level(s: ScriptLevel)
    ensures
        conforms(types(), attributes_shape()->opt[4].1, enc_script_level(s)),
{
    reveal_strlit("Set");
    reveal_strlit("Add");
    assert("Set"@[0] != "Add"@[0]);
    reveal_with_fuel(lookup, 3);
    reveal_with_fuel(conforms, 2);
}

proof fn lemma_attributes_ref(a: Attributes)
    ensures
        conforms(types(), VShape::Ref("Attributes"@), enc_attributes(a)),
{
    lemma_type_lookups();
    lemma_attributes(a);
}

#[verifier::spinoff_prover]
#[verifier::rlimit(100)]
proof fn lemma_attributes_fields()
    ensures
        field_shape(attributes_shape()->req, attributes_shape()->opt, "class"@) == Some(VShape::Array(Box::new(VShape::Str))),
        field_shape(attributes_shape()->req, attributes_shape()->opt, "rtl"@) == Some(VShape::Bool),
        field_shape(attributes_shape()->req, attributes_shape()->opt, "display_style"@) == Some(VShape::Bool),
        field_shape(attributes_shape()->req, attributes_shape()->opt, "variant"@) == Some(VShape::OneOf(seq!["Normal"@, "Bold"@, "Italic"@, "BoldItalic"@, "DoubleStruck"@, "BoldFraktur"@, "Script"@, "BoldScript"@, "Fraktur"@, "SansSerif"@, "BoldSansSerif"@, "SansSerifItalic"@, "SansSerifBoldItalic"@, "Monospace"@, "Initial"@, "Tailed"@, "Looped"@, "Stretched"@])),
        field_shape(attributes_shape()->req, attributes_shape()->opt, "script_level"@) == Some(VShape::Enum(seq![("Set"@, Some(VShape::Int { min: 0, max: 4294967295 })), ("Add"@, Some(VShape::Int { min: -2147483648, max: 2147483647 }))])),
        field_shape(attributes_shape()->req, attributes_shape()->opt, "data"@) == Some(VShape::Dict(Box::new(VShape::Any))),
{
    reveal_strlit("class");
    reveal_strlit("rtl");
    reveal_strlit("display_style");
    reveal_strlit("variant");
    reveal_strlit("script_level");
    reveal_strlit("data");
    assert("class"@.len() != "rtl"@.len());
    assert("class"@.len() != "display_style"@.len());
    assert("class"@.len() != "variant"@.len());
    assert("class"@.len() != "script_level"@.len());
    assert("class"@.len() != "data"@.len());
    assert("rtl"@.len() != "display_style"@.len());
    assert("rtl"@.len() != "variant"@.len());
    assert("rtl"@.len() != "script_level"@.len());
    assert("rtl"@.len() != "data"@.len());
    assert("display_style"@.len() != "variant"@.len());
    assert("display_style"@.len() != "script_level"@.len());
    assert("display_style"@.len() != "data"@.len());
    assert("variant"@.len() != "script_level"@.len());
    assert("variant"@.len() != "data"@.len());
    assert("script_level"@.len() != "data"@.len());
    reveal_with_fuel(lookup, 7);
}

#[verifier::spinoff_prover]
#[verifier::rlimit(100)]
proof fn lemma_operator_fields()
    ensures
        field_shape(operator_shape()->req, operator_shape()->opt, "t"@) == Some(VShape::Char),
        field_shape(operator_shape()->req, operator_shape()->opt, "form"@) == Some(VShape::Ref("OpForm"@)),
        field_shape(operator_shape()->req, operator_shape()->opt, "max_size"@) == Some(VShape::Ref("LengthOrFraction"@)),
        field_shape(operator_shape()->req, operator_shape()->opt, "min_size"@) == Some(VShape::Ref("LengthOrFraction"@)),
        field_shape(operator_shape()->req, operator_shape()->opt, "lspace"@) == Some(VShape::Ref("LengthOrFraction"@)),
        field_shape(operator_shape()->req, operator_shape()->opt, "rspace"@) == Some(VShape::Ref("LengthOrFraction"@)),
        field_shape(operator_shape()->req, operator_shape()->opt, "stretchy"@) == Some(VShape::Bool),
        field_shape(operator_shape()->req, operator_shape()->opt, "symmetric"@) == Some(VShape::Bool),
        field_shape(operator_shape()->req, operator_shape()->opt, "large_op"@) == Some(VShape::Bool),
        field_shape(operator_shape()->req, operator_shape()->opt, "movable_limits"@) == Some(VShape::Bool),
        field_shape(operator_shape()->req, operator_shape()->opt, "separator"@) == Some(VShape::Bool),
        field_shape(operator_shape()->req, operator_shape()->opt, "fence"@) == Some(VShape::Bool),
{
    reveal_strlit("t");
    reveal_strlit("form");
    reveal_strlit("max_size");
    reveal_strlit("min_size");
    reveal_strlit("lspace");
    reveal_strlit("rspace");
    reveal_strlit("stretchy");
    reveal_strlit("symmetric");
    reveal_strlit("large_op");
    reveal_strlit("movable_limits");
    reveal_strlit("separator");
    reveal_strlit("fence");
    assert("t"@.len() != "form"@.len());
    assert("t"@.len() != "max_size"@.len());
    assert("t"@.len() != "min_size"@.len());
    assert("t"@.len() != "lspace"@.len());
    assert("t"@.len() != "rspace"@.len());
    assert("t"@.len() != "stretchy"@.len());
    assert("t"@.len() != "symmetric"@.len());
    assert("t"@.len() != "large_op"@.len());
    assert("t"@.len() != "movable_limits"@.len());
    assert("t"@.len() != "separator"@.len());
    assert("t"@.len() != "fence"@.len());
    assert("form"@.len() != "max_size"@.len());
    assert("form"@.len() != "min_size"@.len());
    assert("form"@.len() != "lspace"@.len());
    assert("form"@.len() != "rspace"@.len());
    assert("form"@.len() != "stretchy"@.len());
    assert("form"@.len() != "symmetric"@.len());
    assert("form"@.len() != "large_op"@.len());
    assert("form"@.len() != "movable_limits"@.len());
    assert("form"@.len() != "separator"@.len());
    assert("form"@.len() != "fence"@.len());
    assert("max_size"@[1] != "min_size"@[1]);
    assert("max_size"@.len() != "lspace"@.len());
    assert("max_size"@.len() != "rspace"@.len());
    assert("max_size"@[0] != "stretchy"@[0]);
    assert("max_size"@.len() != "symmetric"@.len());
    assert("max_size"@[0] != "large_op"@[0]);
    assert("max_size"@.len() != "movable_limits"@.len());
    assert("max_size"@.len() != "separator"@.len());
    assert("max_size"@.len() != "fence"@.len());
    assert("min_size"@.len() != "lspace"@.len());
    assert("min_size"@.len() != "rspace"@.len());
    assert("min_size"@[0] != "stretchy"@[0]);
    assert("min_size"@.len() != "symmetric"@.len());
    assert("min_size"@[0] != "large_op"@[0]);
    assert("min_size"@.len() != "movable_limits"@.len());
    assert("min_size"@.len() != "separator"@.len());
    assert("min_size"@.len() != "fence"@.len());
    assert("lspace"@[0] != "rspace"@[0]);
    assert("lspace"@.len() != "stretchy"@.len());
    assert("lspace"@.len() != "symmetric"@.len());
    assert("lspace"@.len() != "large_op"@.len());
    assert("lspace"@.len() != "movable_limits"@.len());
    assert("lspace"@.len() != "separator"@.len());
    assert("lspace"@.len() != "fence"@.len());
    assert("rspace"@.len() != "stretchy"@.len());
    assert("rspace"@.len() != "symmetric"@.len());
    assert("rspace"@.len() != "large_op"@.len());
    assert("rspace"@.len() != "movable_limits"@.len());
    assert("rspace"@.len() != "separator"@.len());
    assert("rspace"@.len() != "fence"@.len());
    assert("stretchy"@.len() != "symmetric"@.len());
    assert("stretchy"@[0] != "large_op"@[0]);
    assert("stretchy"@.len() != "movable_limits"@.len());
    assert("stretchy"@.len() != "separator"@.len());
    assert("stretchy"@.len() != "fence"@.len());
    assert("symmetric"@.len() != "large_op"@.len());
    assert("symmetric"@.len() != "movable_limits"@.len());
    assert("symmetric"@[1] != "separator"@[1]);
    assert("symmetric"@.len() != "fence"@.len());
    assert("large_op"@.len() != "movable_limits"@.len());
    assert("large_op"@.len() != "separator"@.len());
    assert("large_op"@.len() != "fence"@.len());
    assert("movable_limits"@.len() != "separator"@.len());
    assert("movable_limits"@.len() != "fence"@.len());
    assert("separator"@.len() != "fence"@.len());
    reveal_with_fuel(lookup, 13);
}

#[verifier::spinoff_prover]
#[verifier::rlimit(100)]
proof fn lemma_resolved_operator_fields()
    ensures
        field_shape(resolved_operator_shape()->req, resolved_operator_shape()->opt, "t"@) == Some(VShape::Char),
        field_shape(resolved_operator_shape()->req, resolved_operator_shape()->opt, "form"@) == Some(VShape::Ref("OpForm"@)),
        field_shape(resolved_operator_shape()->req, resolved_operator_shape()->opt, "max_size"@) == Some(VShape::Ref("Length"@)),
        field_shape(resolved_operator_shape()->req, resolved_operator_shape()->opt, "min_size"@) == Some(VShape::Ref("Length"@)),
        field_shape(resolved_operator_shape()->req, resolved_operator_shape()->opt, "lspace"@) == Some(VShape::Ref("Length"@)),
        field_shape(resolved_operator_shape()->req, resolved_operator_shape()->opt, "rspace"@) == Some(VShape::Ref("Length"@)),
        field_shape(resolved_operator_shape()->req, resolved_operator_shape()->opt, "stretchy"@) == Some(VShape::Bool),
        field_shape(resolved_operator_shape()->req, resolved_operator_shape()->opt, "symmetric"@) == Some(VShape::Bool),
        field_shape(resolved_operator_shape()->req, resolved_operator_shape()->opt, "large_op"@) == Some(VShape::Bool),
        field_shape(resolved_operator_shape()->req, resolved_operator_shape()->opt, "movable_limits"@) == Some(VShape::Bool),
        field_shape(resolved_operator_shape()->req, resolved_operator_shape()->opt, "separator"@) == Some(VShape::Bool),
        field_shape(resolved_operator_shape()->req, resolved_operator_shape()->opt, "fence"@) == Some(VShape::Bool),
{
    reveal_strlit("t");
    reveal_strlit("form");
    reveal_strlit("max_size");
    reveal_strlit("min_size");
    reveal_strlit("lspace");
    reveal_strlit("rspace");
    reveal_strlit("stretchy");
    reveal_strlit("symmetric");
    reveal_strlit("large_op");
    reveal_strlit("movable_limits");
    reveal_strlit("separator");
    reveal_strlit("fence");
    assert("t"@.len() != "form"@.len());
    assert("t"@.len() != "max_size"@.len());
    assert("t"@.len() != "min_size"@.len());
    assert("t"@.len() != "lspace"@.len());
    assert("t"@.len() != "rspace"@.len());
    assert("t"@.len() != "stretchy"@.len());
    assert("t"@.len() != "symmetric"@.len());
    assert("t"@.len() != "large_op"@.len());
    assert("t"@.len() != "movable_limits"@.len());
    assert("t"@.len() != "separator"@.len());
    assert("t"@.len() != "fence"@.len());
    assert("form"@.len() != "max_size"@.len());
    assert("form"@.len() != "min_size"@.len());
    assert("form"@.len() != "lspace"@.len());
    assert("form"@.len() != "rspace"@.len());
    assert("form"@.len() != "stretchy"@.len());
    assert("form"@.len() != "symmetric"@.len());
    assert("form"@.len() != "large_op"@.len());
    assert("form"@.len() != "movable_limits"@.len());
    assert("form"@.len() != "separator"@.len());
    assert("form"@.len() != "fence"@.len());
    assert("max_size"@[1] != "min_size"@[1]);
    assert("max_size"@.len() != "lspace"@.len());
    assert("max_size"@.len() != "rspace"@.len());
    assert("max_size"@[0] != "stretchy"@[0]);
    assert("max_size"@.len() != "symmetric"@.len());
    assert("max_size"@[0] != "large_op"@[0]);
    assert("max_size"@.len() != "movable_limits"@.len());
    assert("max_size"@.len() != "separator"@.len());
    assert("max_size"@.len() != "fence"@.len());
    assert("min_size"@.len() != "lspace"@.len());
    assert("min_size"@.len() != "rspace"@.len());
    assert("min_size"@[0] != "stretchy"@[0]);
    assert("min_size"@.len() != "symmetric"@.len());
    assert("min_size"@[0] != "large_op"@[0]);
    assert("min_size"@.len() != "movable_limits"@.len());
    assert("min_size"@.len() != "separator"@.len());
    assert("min_size"@.len() != "fence"@.len());
    assert("lspace"@[0] != "rspace"@[0]);
    assert("lspace"@.len() != "stretchy"@.len());
    assert("lspace"@.len() != "symmetric"@.len());
    assert("lspace"@.len() != "large_op"@.len());
    assert("lspace"@.len() != "movable_limits"@.len());
    assert("lspace"@.len() != "separator"@.len());
    assert("lspace"@.len() != "fence"@.len());
    assert("rspace"@.len() != "stretchy"@.len());
    assert("rspace"@.len() != "symmetric"@.len());
    assert("rspace"@.len() != "large_op"@.len());
    assert("rspace"@.len() != "movable_limits"@.len());
    assert("rspace"@.len() != "separator"@.len());
    assert("rspace"@.len() != "fence"@.len());
    assert("stretchy"@.len() != "symmetric"@.len());
    assert("stretchy"@[0] != "large_op"@[0]);
    assert("stretchy"@.len() != "movable_limits"@.len());
    assert("stretchy"@.len() != "separator"@.len());
    assert("stretchy"@.len() != "fence"@.len());
    assert("symmetric"@.len() != "large_op"@.len());
    assert("symmetric"@.len() != "movable_limits"@.len());
    assert("symmetric"@[1] != "separator"@[1]);
    assert("symmetric"@.len() != "fence"@.len());
    assert("large_op"@.len() != "movable_limits"@.len());
    assert("large_op"@.len() != "separator"@.len());
    assert("large_op"@.len() != "fence"@.len());
    assert("movable_limits"@.len() != "separator"@.len());
    assert("movable_limits"@.len() != "fence"@.len());
    assert("separator"@.len() != "fence"@.len());
    reveal_with_fuel(lookup, 13);
}

#[verifier::spinoff_prover]
#[verifier::rlimit(100)]
proof fn lemma_space_fields()
    ensures
        field_shape(space_shape()->req, space_shape()->opt, "width"@) == Some(VShape::Ref("Length"@)),
        field_shape(space_shape()->req, space_shape()->opt, "height"@) == Some(VShape::Ref("Length"@)),
        field_shape(space_shape()->req, space_shape()->opt, "depth"@) == Some(VShape::Ref("Length"@)),
{
    reveal_strlit("width");
    reveal_strlit("height");
    reveal_strlit("depth");
    assert("width"@.len() != "height"@.len());
    assert("width"@[0] != "depth"@[0]);
    assert("height"@.len() != "depth"@.len());
    reveal_with_fuel(lookup, 4);
}

#[verifier::spinoff_prover]
#[verifier::rlimit(100)]
proof fn lemma_attributes(a: Attributes)
    ensures
        conforms(types(), attributes_shape(), enc_attributes(a)),
{
    let sh = attributes_shape();
    let req = sh->req;
    let opt = sh->opt;
    lemma_attributes_fields();
    let s0 = Seq::<(Seq<char>, VValue)>::empty();
    assert(conforms_fields(types(), req, opt, s0));
    if a.class@.len() > 0 {
        lemma_strings(a.class@);
        assert(field_ok(req, opt, "class"@, VValue::Array(enc_strings(a.class@))));
    }
    lemma_fields_with(req, opt, s0, a.class@.len() > 0, "class"@, VValue::Array(enc_strings(a.class@)));
    let s1 = with(s0, a.class@.len() > 0, "class"@, VValue::Array(enc_strings(a.class@)));
    assert(a.rtl ==> field_ok(req, opt, "rtl"@, VValue::Bool(true)));
    lemma_fields_with(req, opt, s1, a.rtl, "rtl"@, VValue::Bool(true));
    let s2 = with(s1, a.rtl, "rtl"@, VValue::Bool(true));
    assert(a.display_style is Some ==> field_ok(req, opt, "display_style"@, VValue::Bool(a.display_style->0)));
    lemma_fields_with(req, opt, s2, a.display_style is Some, "display_style"@, VValue::Bool(a.display_style->0));
    let s3 = with(s2, a.display_style is Some, "display_style"@, VValue::Bool(a.display_style->0));
    if a.variant is Some {
        lemma_variant(a.variant->0);
        assert(field_ok(req, opt, "variant"@, VValue::Str(variant_name(a.variant->0))));
    }
    lemma_fields_with(req, opt, s3, a.variant is Some, "variant"@, VValue::Str(variant_name(a.variant->0)));
    let s4 = with(s3, a.variant is Some, "variant"@, VValue::Str(variant_name(a.variant->0)));
    if a.script_level is Some {
        lemma_script_level(a.script_level->0);
        assert(field_ok(req, opt, "script_level"@, enc_script_level(a.script_level->0)));
    }
    lemma_fields_with(req, opt, s4, a.script_level is Some, "script_level"@, enc_script_level(a.script_level->0));
    let s5 = with(s4, a.script_level is Some, "script_level"@, enc_script_level(a.script_level->0));
    if a.data is Some {
        lemma_data(a.data->0@);
        assert(field_ok(req, opt, "data"@, VValue::Record(enc_data(a.data->0@))));
    }
    lemma_fields_with(req, opt, s5, a.data is Some, "data"@, VValue::Record(enc_data(a.data->0@)));
    let s6 = with(s5, a.data is Some, "data"@, VValue::Record(enc_data(a.data->0@)));
    assert(enc_attributes(a)->Record_0 =~= s6);
    assert(conforms(types(), sh, VValue::Record(s6)));
}

#[verifier::spinoff_prover]
#[verifier::rlimit(100)]
#[verifier::spinoff_prover]
#[verifier::rlimit(100)]
proof fn lemma_operator_flags(o: Operator, s: Seq<(Seq<char>, VValue)>)
    requires
        conforms_fields(types(), operator_shape()->req, operator_shape()->opt, s),
        has_key(s, "t"@),
    ensures
        conforms_fields(types(), operator_shape()->req, operator_shape()->opt, with(with(with(with(with(with(s, o.stretchy is Some, "stretchy"@, VValue::Bool(o.stretchy->0)), o.symmetric is Some, "symmetric"@, VValue::Bool(o.symmetric->0)), o.large_op is Some, "large_op"@, VValue::Bool(o.large_op->0)), o.movable_limits is Some, "movable_limits"@, VValue::Bool(o.movable_limits->0)), o.separator is Some, "separator"@, VValue::Bool(o.separator->0)), o.fence is Some, "fence"@, VValue::Bool(o.fence->0))),
        has_key(with(with(with(with(with(with(s, o.stretchy is Some, "stretchy"@, VValue::Bool(o.stretchy->0)), o.symmetric is Some, "symmetric"@, VValue::Bool(o.symmetric->0)), o.large_op is Some, "large_op"@, VValue::Bool(o.large_op->0)), o.movable_limits is Some, "movable_limits"@, VValue::Bool(o.movable_limits->0)), o.separator is Some, "separator"@, VValue::Bool(o.separator->0)), o.fence is Some, "fence"@, VValue::Bool(o.fence->0)), "t"@),
{
    let sh = operator_shape();
    let req = sh->req;
    let opt = sh->opt;
    lemma_operator_fields();
    assert(o.stretchy is Some ==> field_ok(req, opt, "stretchy"@, VValue::Bool(o.stretchy->0)));
    lemma_fields_with(req, opt, s, o.stretchy is Some, "stretchy"@, VValue::Bool(o.stretchy->0));
    let s7 = with(s, o.stretchy is Some, "stretchy"@, VValue::Bool(o.stretchy->0));
    lemma_has_key_with(s, o.stretchy is Some, "stretchy"@, VValue::Bool(o.stretchy->0), "t"@);
    assert(o.symmetric is Some ==> field_ok(req, opt, "symmetric"@, VValue::Bool(o.symmetric->0)));
    lemma_fields_with(req, opt, s7, o.symmetric is Some, "symmetric"@, VValue::Bool(o.symmetric->0));
    let s8 = with(s7, o.symmetric is Some, "symmetric"@, VValue::Bool(o.symmetric->0));
    lemma_has_key_with(s7, o.symmetric is Some, "symmetric"@, VValue::Bool(o.symmetric->0), "t"@);
    assert(o.large_op is Some ==> field_ok(req, opt, "large_op"@, VValue::Bool(o.large_op->0)));
    lemma_fields_with(req, opt, s8, o.large_op is Some, "large_op"@, VValue::Bool(o.large_op->0));
    let s9 = with(s8, o.large_op is Some, "large_op"@, VValue::Bool(o.large_op->0));
    lemma_has_key_with(s8, o.large_op is Some, "large_op"@, VValue::Bool(o.large_op->0), "t"@);
    assert(o.movable_limits is Some ==> field_ok(req, opt, "movable_limits"@, VValue::Bool(o.movable_limits->0)));
    lemma_fields_with(req, opt, s9, o.movable_limits is Some, "movable_limits"@, VValue::Bool(o.movable_limits->0));
    let s10 = with(s9, o.movable_limits is Some, "movable_limits"@, VValue::Bool(o.movable_limits->0));
    lemma_has_key_with(s9, o.movable_limits is Some, "movable_limits"@, VValue::Bool(o.movable_limits->0), "t"@);
    assert(o.separator is Some ==> field_ok(req, opt, "separator"@, VValue::Bool(o.separator->0)));
    lemma_fields_with(req, opt, s10, o.separator is Some, "separator"@, VValue::Bool(o.separator->0));
    let s11 = with(s10, o.separator is Some, "separator"@, VValue::Bool(o.separator->0));
    lemma_has_key_with(s10, o.separator is Some, "separator"@, VValue::Bool(o.separator->0), "t"@);
    assert(o.fence is Some ==> field_ok(req, opt, "fence"@, VValue::Bool(o.fence->0)));
    lemma_fields_with(req, opt, s11, o.fence is Some, "fence"@, VValue::Bool(o.fence->0));
    let s12 = with(s11, o.fence is Some, "fence"@, VValue::Bool(o.fence->0));
    lemma_has_key_with(s11, o.fence is Some, "fence"@, VValue::Bool(o.fence->0), "t"@);
    assert(has_key(s12, req[0].0));
}

proof fn lemma_operator(o: Operator)
    ensures
        conforms(types(), operator_shape(), enc_operator(o)),
{
    let sh = operator_shape();
    let req = sh->req;
    let opt = sh->opt;
    lemma_operator_fields();
    let s0 = Seq::<(Seq<char>, VValue)>::empty();
    assert(conforms_fields(types(), req, opt, s0));
    assert(field_ok(req, opt, "t"@, VValue::Str(seq![o.t])));
    lemma_fields_push(req, opt, s0, "t"@, VValue::Str(seq![o.t]));
    let s1 = s0.push(("t"@, VValue::Str(seq![o.t])));
    lemma_has_key_push(s0, ("t"@, VValue::Str(seq![o.t])), "t"@);
    if o.form is Some {
        lemma_form(o.form->0);
        assert(field_ok(req, opt, "form"@, VValue::Str(form_name(o.form->0))));
    }
    lemma_fields_with(req, opt, s1, o.form is Some, "form"@, VValue::Str(form_name(o.form->0)));
    let s2 = with(s1, o.form is Some, "form"@, VValue::Str(form_name(o.form->0)));
    lemma_has_key_with(s1, o.form is Some, "form"@, VValue::Str(form_name(o.form->0)), "t"@);
    if o.max_size is Some {
        lemma_length_or_fraction(o.max_size->0);
        assert(field_ok(req, opt, "max_size"@, enc_length_or_fraction(o.max_size->0)));
    }
    lemma_fields_with(req, opt, s2, o.max_size is Some, "max_size"@, enc_length_or_fraction(o.max_size->0));
    let s3 = with(s2, o.max_size is Some, "max_size"@, enc_length_or_fraction(o.max_size->0));
    lemma_has_key_with(s2, o.max_size is Some, "max_size"@, enc_length_or_fraction(o.max_size->0), "t"@);
    if o.min_size is Some {
        lemma_length_or_fraction(o.min_size->0);
        assert(field_ok(req, opt, "min_size"@, enc_length_or_fraction(o.min_size->0)));
    }
    lemma_fields_with(req, opt, s3, o.min_size is Some, "min_size"@, enc_length_or_fraction(o.min_size->0));
    let s4 = with(s3, o.min_size is Some, "min_size"@, enc_length_or_fraction(o.min_size->0));
    lemma_has_key_with(s3, o.min_size is Some, "min_size"@, enc_length_or_fraction(o.min_size->0), "t"@);
    if o.lspace is Some {
        lemma_length_or_fraction(o.lspace->0);
        assert(field_ok(req, opt, "lspace"@, enc_length_or_fraction(o.lspace->0)));
    }
    lemma_fields_with(req, opt, s4, o.lspace is Some, "lspace"@, enc_length_or_fraction(o.lspace->0));
    let s5 = with(s4, o.lspace is Some, "lspace"@, enc_length_or_fraction(o.lspace->0));
    lemma_has_key_with(s4, o.lspace is Some, "lspace"@, enc_length_or_fraction(o.lspace->0), "t"@);
    if o.rspace is Some {
        lemma_length_or_fraction(o.rspace->0);
        assert(field_ok(req, opt, "rspace"@, enc_length_or_fraction(o.rspace->0)));
    }
    lemma_fields_with(req, opt, s5, o.rspace is Some, "rspace"@, enc_length_or_fraction(o.rspace->0));
    let s6 = with(s5, o.rspace is Some, "rspace"@, enc_length_or_fraction(o.rspace->0));
    lemma_has_key_with(s5, o.rspace is Some, "rspace"@, enc_length_or_fraction(o.rspace->0), "t"@);
    lemma_operator_flags(o, s6);
    let s12 = with(with(with(with(with(with(s6, o.stretchy is Some, "stretchy"@, VValue::Bool(o.stretchy->0)), o.symmetric is Some, "symmetric"@, VValue::Bool(o.symmetric->0)), o.large_op is Some, "large_op"@, VValue::Bool(o.large_op->0)), o.movable_limits is Some, "movable_limits"@, VValue::Bool(o.movable_limits->0)), o.separator is Some, "separator"@, VValue::Bool(o.separator->0)), o.fence is Some, "fence"@, VValue::Bool(o.fence->0));
    assert(enc_operator(o)->Record_0 =~= s12);
    assert(conforms(types(), sh, VValue::Record(s12)));
}

#[verifier::spinoff_prover]
#[verifier::rlimit(100)]
proof fn lemma_resolved_operator(o: ResolvedOperator)
    ensures
        conforms(types(), resolved_operator_shape(), enc_resolved_operator(o)),
{
    let sh = resolved_operator_shape();
    let req = sh->req;
    let opt = sh->opt;
    lemma_resolved_operator_fields();
    let s0 = Seq::<(Seq<char>, VValue)>::empty();
    assert(conforms_fields(types(), req, opt, s0));
    assert(field_ok(req, opt, "t"@, VValue::Str(seq![o.t])));
    lemma_fields_push(req, opt, s0, "t"@, VValue::Str(seq![o.t]));
    let s1 = s0.push(("t"@, VValue::Str(seq![o.t])));
    lemma_has_key_push(s0, ("t"@, VValue::Str(seq![o.t])), "t"@);
    lemma_form(o.form);
    assert(field_ok(req, opt, "form"@, VValue::Str(form_name(o.form))));
    lemma_fields_push(req, opt, s1, "form"@, VValue::Str(form_name(o.form)));
    let s2 = s1.push(("form"@, VValue::Str(form_name(o.form))));
    lemma_has_key_push(s1, ("form"@, VValue::Str(form_name(o.form))), "t"@);
    lemma_has_key_push(s1, ("form"@, VValue::Str(form_name(o.form))), "form"@);
    lemma_length(o.max_size);
    assert(field_ok(req, opt, "max_size"@, enc_length(o.max_size)));
    lemma_fields_push(req, opt, s2, "max_size"@, enc_length(o.max_size));
    let s3 = s2.push(("max_size"@, enc_length(o.max_size)));
    lemma_has_key_push(s2, ("max_size"@, enc_length(o.max_size)), "t"@);
    lemma_has_key_push(s2, ("max_size"@, enc_length(o.max_size)), "form"@);
    lemma_has_key_push(s2, ("max_size"@, enc_length(o.max_size)), "max_size"@);
    lemma_length(o.min_size);
    assert(field_ok(req, opt, "min_size"@, enc_length(o.min_size)));
    lemma_fields_push(req, opt, s3, "min_size"@, enc_length(o.min_size));
    let s4 = s3.push(("min_size"@, enc_length(o.min_size)));
    lemma_has_key_push(s3, ("min_size"@, enc_length(o.min_size)), "t"@);
    lemma_has_key_push(s3, ("min_size"@, enc_length(o.min_size)), "form"@);
    lemma_has_key_push(s3, ("min_size"@, enc_length(o.min_size)), "max_size"@);
    lemma_has_key_push(s3, ("min_size"@, enc_length(o.min_size)), "min_size"@);
    lemma_length(o.lspace);
    assert(field_ok(req, opt, "lspace"@, enc_length(o.lspace)));
    lemma_fields_push(req, opt, s4, "lspace"@, enc_length(o.lspace));
    let s5 = s4.push(("lspace"@, enc_length(o.lspace)));
    lemma_has_key_push(s4, ("lspace"@, enc_length(o.lspace)), "t"@);
    lemma_has_key_push(s4, ("lspace"@, enc_length(o.lspace)), "form"@);
    lemma_has_key_push(s4, ("lspace"@, enc_length(o.lspace)), "max_size"@);
    lemma_has_key_push(s4, ("lspace"@, enc_length(o.lspace)), "min_size"@);
    lemma_has_key_push(s4, ("lspace"@, enc_length(o.lspace)), "lspace"@);
    lemma_length(o.rspace);
    assert(field_ok(req, opt, "rspace"@, enc_length(o.rspace)));
    lemma_fields_push(req, opt, s5, "rspace"@, enc_length(o.rspace));
    let s6 = s5.push(("rspace"@, enc_length(o.rspace)));
    lemma_has_key_push(s5, ("rspace"@, enc_length(o.rspace)), "t"@);
    lemma_has_key_push(s5, ("rspace"@, enc_length(o.rspace)), "form"@);
    lemma_has_key_push(s5, ("rspace"@, enc_length(o.rspace)), "max_size"@);
    lemma_has_key_push(s5, ("rspace"@, enc_length(o.rspace)), "min_size"@);
    lemma_has_key_push(s5, ("rspace"@, enc_length(o.rspace)), "lspace"@);
    lemma_has_key_push(s5, ("rspace"@, enc_length(o.rspace)), "rspace"@);
    assert(field_ok(req, opt, "stretchy"@, VValue::Bool(o.stretchy)));
    lemma_fields_push(req, opt, s6, "stretchy"@, VValue::Bool(o.stretchy));
    let s7 = s6.push(("stretchy"@, VValue::Bool(o.stretchy)));
    lemma_has_key_push(s6, ("stretchy"@, VValue::Bool(o.stretchy)), "t"@);
    lemma_has_key_push(s6, ("stretchy"@, VValue::Bool(o.stretchy)), "form"@);
    lemma_has_key_push(s6, ("stretchy"@, VValue::Bool(o.stretchy)), "max_size"@);
    lemma_has_key_push(s6, ("stretchy"@, VValue::Bool(o.stretchy)), "min_size"@);
    lemma_has_key_push(s6, ("stretchy"@, VValue::Bool(o.stretchy)), "lspace"@);
    lemma_has_key_push(s6, ("stretchy"@, VValue::Bool(o.stretchy)), "rspace"@);
    lemma_has_key_push(s6, ("stretchy"@, VValue::Bool(o.stretchy)), "stretchy"@);
    assert(field_ok(req, opt, "symmetric"@, VValue::Bool(o.symmetric)));
    lemma_fields_push(req, opt, s7, "symmetric"@, VValue::Bool(o.symmetric));
    let s8 = s7.push(("symmetric"@, VValue::Bool(o.symmetric)));
    lemma_has_key_push(s7, ("symmetric"@, VValue::Bool(o.symmetric)), "t"@);
    lemma_has_key_push(s7, ("symmetric"@, VValue::Bool(o.symmetric)), "form"@);
    lemma_has_key_push(s7, ("symmetric"@, VValue::Bool(o.symmetric)), "max_size"@);
    lemma_has_key_push(s7, ("symmetric"@, VValue::Bool(o.symmetric)), "min_size"@);
    lemma_has_key_push(s7, ("symmetric"@, VValue::Bool(o.symmetric)), "lspace"@);
    lemma_has_key_push(s7, ("symmetric"@, VValue::Bool(o.symmetric)), "rspace"@);
    lemma_has_key_push(s7, ("symmetric"@, VValue::Bool(o.symmetric)), "stretchy"@);
    lemma_has_key_push(s7, ("symmetric"@, VValue::Bool(o.symmetric)), "symmetric"@);
    assert(field_ok(req, opt, "large_op"@, VValue::Bool(o.large_op)));
    lemma_fields_push(req, opt, s8, "large_op"@, VValue::Bool(o.large_op));
    let s9 = s8.push(("large_op"@, VValue::Bool(o.large_op)));
    lemma_has_key_push(s8, ("large_op"@, VValue::Bool(o.large_op)), "t"@);
    lemma_has_key_push(s8, ("large_op"@, VValue::Bool(o.large_op)), "form"@);
    lemma_has_key_push(s8, ("large_op"@, VValue::Bool(o.large_op)), "max_size"@);
    lemma_has_key_push(s8, ("large_op"@, VValue::Bool(o.large_op)), "min_size"@);
    lemma_has_key_push(s8, ("large_op"@, VValue::Bool(o.large_op)), "lspace"@);
    lemma_has_key_push(s8, ("large_op"@, VValue::Bool(o.large_op)), "rspace"@);
    lemma_has_key_push(s8, ("large_op"@, VValue::Bool(o.large_op)), "stretchy"@);
    lemma_has_key_push(s8, ("large_op"@, VValue::Bool(o.large_op)), "symmetric"@);
    lemma_has_key_push(s8, ("large_op"@, VValue::Bool(o.large_op)), "large_op"@);
    assert(field_ok(req, opt, "movable_limits"@, VValue::Bool(o.movable_limits)));
    lemma_fields_push(req, opt, s9, "movable_limits"@, VValue::Bool(o.movable_limits));
    let s10 = s9.push(("movable_limits"@, VValue::Bool(o.movable_limits)));
    lemma_has_key_push(s9, ("movable_limits"@, VValue::Bool(o.movable_limits)), "t"@);
    lemma_has_key_push(s9, ("movable_limits"@, VValue::Bool(o.movable_limits)), "form"@);
    lemma_has_key_push(s9, ("movable_limits"@, VValue::Bool(o.movable_limits)), "max_size"@);
    lemma_has_key_push(s9, ("movable_limits"@, VValue::Bool(o.movable_limits)), "min_size"@);
    lemma_has_key_push(s9, ("movable_limits"@, VValue::Bool(o.movable_limits)), "lspace"@);
    lemma_has_key_push(s9, ("movable_limits"@, VValue::Bool(o.movable_limits)), "rspace"@);
    lemma_has_key_push(s9, ("movable_limits"@, VValue::Bool(o.movable_limits)), "stretchy"@);
    lemma_has_key_push(s9, ("movable_limits"@, VValue::Bool(o.movable_limits)), "symmetric"@);
    lemma_has_key_push(s9, ("movable_limits"@, VValue::Bool(o.movable_limits)), "large_op"@);
    lemma_has_key_push(s9, ("movable_limits"@, VValue::Bool(o.movable_limits)), "movable_limits"@);
    assert(field_ok(req, opt, "separator"@, VValue::Bool(o.separator)));
    lemma_fields_push(req, opt, s10, "separator"@, VValue::Bool(o.separator));
    let s11 = s10.push(("separator"@, VValue::Bool(o.separator)));
    lemma_has_key_push(s10, ("separator"@, VValue::Bool(o.separator)), "t"@);
    lemma_has_key_push(s10, ("separator"@, VValue::Bool(o.separator)), "form"@);
    lemma_has_key_push(s10, ("separator"@, VValue::Bool(o.separator)), "max_size"@);
    lemma_has_key_push(s10, ("separator"@, VValue::Bool(o.separator)), "min_size"@);
    lemma_has_key_push(s10, ("separator"@, VValue::Bool(o.separator)), "lspace"@);
    lemma_has_key_push(s10, ("separator"@, VValue::Bool(o.separator)), "rspace"@);
    lemma_has_key_push(s10, ("separator"@, VValue::Bool(o.separator)), "stretchy"@);
    lemma_has_key_push(s10, ("separator"@, VValue::Bool(o.separator)), "symmetric"@);
    lemma_has_key_push(s10, ("separator"@, VValue::Bool(o.separator)), "large_op"@);
    lemma_has_key_push(s10, ("separator"@, VValue::Bool(o.separator)), "movable_limits"@);
    lemma_has_key_push(s10, ("separator"@, VValue::Bool(o.separator)), "separator"@);
    assert(field_ok(req, opt, "fence"@, VValue::Bool(o.fence)));
    lemma_fields_push(req, opt, s11, "fence"@, VValue::Bool(o.fence));
    let s12 = s11.push(("fence"@, VValue::Bool(o.fence)));
    lemma_has_key_push(s11, ("fence"@, VValue::Bool(o.fence)), "t"@);
    lemma_has_key_push(s11, ("fence"@, VValue::Bool(o.fence)), "form"@);
    lemma_has_key_push(s11, ("fence"@, VValue::Bool(o.fence)), "max_size"@);
    lemma_has_key_push(s11, ("fence"@, VValue::Bool(o.fence)), "min_size"@);
    lemma_has_key_push(s11, ("fence"@, VValue::Bool(o.fence)), "lspace"@);
    lemma_has_key_push(s11, ("fence"@, VValue::Bool(o.fence)), "rspace"@);
    lemma_has_key_push(s11, ("fence"@, VValue::Bool(o.fence)), "stretchy"@);
    lemma_has_key_push(s11, ("fence"@, VValue::Bool(o.fence)), "symmetric"@);
    lemma_has_key_push(s11, ("fence"@, VValue::Bool(o.fence)), "large_op"@);
    lemma_has_key_push(s11, ("fence"@, VValue::Bool(o.fence)), "movable_limits"@);
    lemma_has_key_push(s11, ("fence"@, VValue::Bool(o.fence)), "separator"@);
    lemma_has_key_push(s11, ("fence"@, VValue::Bool(o.fence)), "fence"@);
    assert(has_key(s12, req[0].0));
    assert(has_key(s12, req[1].0));
    assert(has_key(s12, req[2].0));
    assert(has_key(s12, req[3].0));
    assert(has_key(s12, req[4].0));
    assert(has_key(s12, req[5].0));
    assert(has_key(s12, req[6].0));
    assert(has_key(s12, req[7].0));
    assert(has_key(s12, req[8].0));
    assert(has_key(s12, req[9].0));
    assert(has_key(s12, req[10].0));
    assert(has_key(s12, req[11].0));
    assert(enc_resolved_operator(o)->Record_0 =~= s12);
    assert(conforms(types(), sh, VValue::Record(s12)));
}

#[verifier::spinoff_prover]
#[verifier::rlimit(100)]
proof fn lemma_space(s: Space)
    ensures
        conforms(types(), space_shape(), enc_space(s)),
{
    let sh = space_shape();
    let req = sh->req;
    let opt = sh->opt;
    lemma_space_fields();
    let s0 = Seq::<(Seq<char>, VValue)>::empty();
    assert(conforms_fields(types(), req, opt, s0));
    if s.width is Some {
        lemma_length(s.width->0);
        assert(field_ok(req, opt, "width"@, enc_length(s.width->0)));
    }
    lemma_fields_with(req, opt, s0, s.width is Some, "width"@, enc_length(s.width->0));
    let s1 = with(s0, s.width is Some, "width"@, enc_length(s.width->0));
    if s.height is Some {
        lemma_length(s.height->0);
        assert(field_ok(req, opt, "height"@, enc_length(s.height->0)));
    }
    lemma_fields_with(req, opt, s1, s.height is Some, "height"@, enc_length(s.height->0));
    let s2 = with(s1, s.height is Some, "height"@, enc_length(s.height->0));
    if s.depth is Some {
        lemma_length(s.depth->0);
        assert(field_ok(req, opt, "depth"@, enc_length(s.depth->0)));
    }
    lemma_fields_with(req, opt, s2, s.depth is Some, "depth"@, enc_length(s.depth->0));
    let s3 = with(s2, s.depth is Some, "depth"@, enc_length(s.depth->0));
    assert(enc_space(s)->Record_0 =~= s3);
    assert(conforms(types(), sh, VValue::Record(s3)));
}

#[verifier::spinoff_prover]
#[verifier::rlimit(100)]
proof fn lemma_padding_fields()
    ensures
        field_shape(padding_shape()->req, padding_shape()->opt, "elems"@) == Some(VShape::Array(Box::new(VShape::Ref("Element"@)))),
        field_shape(padding_shape()->req, padding_shape()->opt, "width"@) == Some(VShape::Ref("Length"@)),
        field_shape(padding_shape()->req, padding_shape()->opt, "height"@) == Some(VShape::Ref("Length"@)),
        field_shape(padding_shape()->req, padding_shape()->opt, "depth"@) == Some(VShape::Ref("Length"@)),
        field_shape(padding_shape()->req, padding_shape()->opt, "lspace"@) == Some(VShape::Ref("Length"@)),
        field_shape(padding_shape()->req, padding_shape()->opt, "voffset"@) == Some(VShape::Ref("Length"@)),
{
    reveal_strlit("elems");
    reveal_strlit("width");
    reveal_strlit("height");
    reveal_strlit("depth");
    reveal_strlit("lspace");
    reveal_strlit("voffset");
    assert("elems"@[0] != "width"@[0]);
    assert("elems"@.len() != "height"@.len());
    assert("elems"@[0] != "depth"@[0]);
    assert("elems"@.len() != "lspace"@.len());
    assert("elems"@.len() != "voffset"@.len());
    assert("width"@.len() != "height"@.len());
    assert("width"@[0] != "depth"@[0]);
    assert("width"@.len() != "lspace"@.len());
    assert("width"@.len() != "voffset"@.len());
    assert("height"@.len() != "depth"@.len());
    assert("height"@[0] != "lspace"@[0]);
    assert("height"@.len() != "voffset"@.len());
    assert("depth"@.len() != "lspace"@.len());
    assert("depth"@.len() != "voffset"@.len());
    assert("lspace"@.len() != "voffset"@.len());
    reveal_with_fuel(lookup, 7);
}

#[verifier::spinoff_prover]
#[verifier::rlimit(100)]
proof fn lemma_pair_fields()
    ensures
        field_shape(pair_shape()->req, pair_shape()->opt, "sup"@) == Some(VShape::Ref("Element"@)),
        field_shape(pair_shape()->req, pair_shape()->opt, "sub"@) == Some(VShape::Ref("Element"@)),
{
    reveal_strlit("sup");
    reveal_strlit("sub");
    assert("sup"@[2] != "sub"@[2]);
    reveal_with_fuel(lookup, 3);
}

#[verifier::spinoff_prover]
#[verifier::rlimit(100)]
proof fn lemma_cell_fields()
    ensures
        field_shape(table_cell_shape()->req, table_cell_shape()->opt, "col_span"@) == Some(VShape::Int { min: 0, max: 4294967295 }),
        field_shape(table_cell_shape()->req, table_cell_shape()->opt, "row_span"@) == Some(VShape::Int { min: 0, max: 4294967295 }),
        field_shape(table_cell_shape()->req, table_cell_shape()->opt, "elems"@) == Some(VShape::Array(Box::new(VShape::Ref("Element"@)))),
        field_shape(table_cell_shape()->req, table_cell_shape()->opt, "a"@) == Some(VShape::Ref("Attributes"@)),
{
    reveal_strlit("col_span");
    reveal_strlit("row_span");
    reveal_strlit("elems");
    reveal_strlit("a");
    assert("col_span"@[0] != "row_span"@[0]);
    assert("col_span"@.len() != "elems"@.len());
    assert("col_span"@.len() != "a"@.len());
    assert("row_span"@.len() != "elems"@.len());
    assert("row_span"@.len() != "a"@.len());
    assert("elems"@.len() != "a"@.len());
    reveal_with_fuel(lookup, 5);
}

#[verifier::spinoff_prover]
#[verifier::rlimit(100)]
proof fn lemma_row_fields()
    ensures
        field_shape(table_row_shape()->req, table_row_shape()->opt, "a"@) == Some(VShape::Ref("Attributes"@)),
        field_shape(table_row_shape()->req, table_row_shape()->opt, "cells"@) == Some(VShape::Array(Box::new(VShape::Ref("TableCell"@)))),
{
    reveal_strlit("a");
    reveal_strlit("cells");
    assert("a"@.len() != "cells"@.len());
    reveal_with_fuel(lookup, 3);
}

#[verifier::spinoff_prover]
#[verifier::rlimit(100)]
proof fn lemma_payload_id_fields()
    ensures
        field_shape(node_shape()->Enum_0[4].1->Some_0->req, node_shape()->Enum_0[4].1->Some_0->opt, "t"@) == Some(VShape::Str),
        field_shape(node_shape()->Enum_0[4].1->Some_0->req, node_shape()->Enum_0[4].1->Some_0->opt, "normal"@) == Some(VShape::Bool),
{
    reveal_strlit("t");
    reveal_strlit("normal");
    assert("t"@.len() != "normal"@.len());
    reveal_with_fuel(lookup, 3);
}

#[verifier::spinoff_prover]
#[verifier::rlimit(100)]
proof fn lemma_payload_frac_fields()
    ensures
        field_shape(node_shape()->Enum_0[12].1->Some_0->req, node_shape()->Enum_0[12].1->Some_0->opt, "num"@) == Some(VShape::Ref("Element"@)),
        field_shape(node_shape()->Enum_0[12].1->Some_0->req, node_shape()->Enum_0[12].1->Some_0->opt, "den"@) == Some(VShape::Ref("Element"@)),
        field_shape(node_shape()->Enum_0[12].1->Some_0->req, node_shape()->Enum_0[12].1->Some_0->opt, "line_thickness"@) == Some(VShape::F32),
{
    reveal_strlit("num");
    reveal_strlit("den");
    reveal_strlit("line_thickness");
    assert("num"@[0] != "den"@[0]);
    assert("num"@.len() != "line_thickness"@.len());
    assert("den"@.len() != "line_thickness"@.len());
    reveal_with_fuel(lookup, 4);
}

#[verifier::spinoff_prover]
#[verifier::rlimit(100)]
proof fn lemma_payload_root_fields()
    ensures
        field_shape(node_shape()->Enum_0[14].1->Some_0->req, node_shape()->Enum_0[14].1->Some_0->opt, "base"@) == Some(VShape::Ref("Element"@)),
        field_shape(node_shape()->Enum_0[14].1->Some_0->req, node_shape()->Enum_0[14].1->Some_0->opt, "index"@) == Some(VShape::Ref("Element"@)),
{
    reveal_strlit("base");
    reveal_strlit("index");
    assert("base"@.len() != "index"@.len());
    reveal_with_fuel(lookup, 3);
}

#[verifier::spinoff_prover]
#[verifier::rlimit(100)]
proof fn lemma_payload_sup_fields()
    ensures
        field_shape(node_shape()->Enum_0[15].1->Some_0->req, node_shape()->Enum_0[15].1->Some_0->opt, "base"@) == Some(VShape::Ref("Element"@)),
        field_shape(node_shape()->Enum_0[15].1->Some_0->req, node_shape()->Enum_0[15].1->Some_0->opt, "sup"@) == Some(VShape::Ref("Element"@)),
{
    reveal_strlit("base");
    reveal_strlit("sup");
    assert("base"@.len() != "sup"@.len());
    reveal_with_fuel(lookup, 3);
}

#[verifier::spinoff_prover]
#[verifier::rlimit(100)]
proof fn lemma_payload_sub_fields()
    ensures
        field_shape(node_shape()->Enum_0[16].1->Some_0->req, node_shape()->Enum_0[16].1->Some_0->opt, "base"@) == Some(VShape::Ref("Element"@)),
        field_shape(node_shape()->Enum_0[16].1->Some_0->req, node_shape()->Enum_0[16].1->Some_0->opt, "sub"@) == Some(VShape::Ref("Element"@)),
{
    reveal_strlit("base");
    reveal_strlit("sub");
    assert("base"@.len() != "sub"@.len());
    reveal_with_fuel(lookup, 3);
}

#[verifier::spinoff_prover]
#[verifier::rlimit(100)]
proof fn lemma_payload_subsup_fields()
    ensures
        field_shape(node_shape()->Enum_0[17].1->Some_0->req, node_shape()->Enum_0[17].1->Some_0->opt, "base"@) == Some(VShape::Ref("Element"@)),
        field_shape(node_shape()->Enum_0[17].1->Some_0->req, node_shape()->Enum_0[17].1->Some_0->opt, "sub"@) == Some(VShape::Ref("Element"@)),
        field_shape(node_shape()->Enum_0[17].1->Some_0->req, node_shape()->Enum_0[17].1->Some_0->opt, "sup"@) == Some(VShape::Ref("Element"@)),
{
    reveal_strlit("base");
    reveal_strlit("sub");
    reveal_strlit("sup");
    assert("base"@.len() != "sub"@.len());
    assert("base"@.len() != "sup"@.len());
    assert("sub"@[2] != "sup"@[2]);
    reveal_with_fuel(lookup, 4);
}

#[verifier::spinoff_prover]
#[verifier::rlimit(100)]
proof fn lemma_payload_over_fields()
    ensures
        field_shape(node_shape()->Enum_0[18].1->Some_0->req, node_shape()->Enum_0[18].1->Some_0->opt, "base"@) == Some(VShape::Ref("Element"@)),
        field_shape(node_shape()->Enum_0[18].1->Some_0->req, node_shape()->Enum_0[18].1->Some_0->opt, "over"@) == Some(VShape::Ref("Element"@)),
        field_shape(node_shape()->Enum_0[18].1->Some_0->req, node_shape()->Enum_0[18].1->Some_0->opt, "accent"@) == Some(VShape::Bool),
{
    reveal_strlit("base");
    reveal_strlit("over");
    reveal_strlit("accent");
    assert("base"@[0] != "over"@[0]);
    assert("base"@.len() != "accent"@.len());
    assert("over"@.len() != "accent"@.len());
    reveal_with_fuel(lookup, 4);
}

#[verifier::spinoff_prover]
#[verifier::rlimit(100)]
proof fn lemma_payload_under_fields()
    ensures
        field_shape(node_shape()->Enum_0[19].1->Some_0->req, node_shape()->Enum_0[19].1->Some_0->opt, "base"@) == Some(VShape::Ref("Element"@)),
        field_shape(node_shape()->Enum_0[19].1->Some_0->req, node_shape()->Enum_0[19].1->Some_0->opt, "under"@) == Some(VShape::Ref("Element"@)),
        field_shape(node_shape()->Enum_0[19].1->Some_0->req, node_shape()->Enum_0[19].1->Some_0->opt, "accent_under"@) == Some(VShape::Bool),
{
    reveal_strlit("base");
    reveal_strlit("under");
    reveal_strlit("accent_under");
    assert("base"@.len() != "under"@.len());
    assert("base"@.len() != "accent_under"@.len());
    assert("under"@.len() != "accent_under"@.len());
    reveal_with_fuel(lookup, 4);
}

#[verifier::spinoff_prover]
#[verifier::rlimit(100)]
proof fn lemma_payload_underover_fields()
    ensures
        field_shape(node_shape()->Enum_0[20].1->Some_0->req, node_shape()->Enum_0[20].1->Some_0->opt, "base"@) == Some(VShape::Ref("Element"@)),
        field_shape(node_shape()->Enum_0[20].1->Some_0->req, node_shape()->Enum_0[20].1->Some_0->opt, "under"@) == Some(VShape::Ref("Element"@)),
        field_shape(node_shape()->Enum_0[20].1->Some_0->req, node_shape()->Enum_0[20].1->Some_0->opt, "over"@) == Some(VShape::Ref("Element"@)),
        field_shape(node_shape()->Enum_0[20].1->Some_0->req, node_shape()->Enum_0[20].1->Some_0->opt, "accent"@) == Some(VShape::Bool),
        field_shape(node_shape()->Enum_0[20].1->Some_0->req, node_shape()->Enum_0[20].1->Some_0->opt, "accent_under"@) == Some(VShape::Bool),
{
    reveal_strlit("base");
    reveal_strlit("under");
    reveal_strlit("over");
    reveal_strlit("accent");
    reveal_strlit("accent_under");
    assert("base"@.len() != "under"@.len());
    assert("base"@[0] != "over"@[0]);
    assert("base"@.len() != "accent"@.len());
    assert("base"@.len() != "accent_under"@.len());
    assert("under"@.len() != "over"@.len());
    assert("under"@.len() != "accent"@.len());
    assert("under"@.len() != "accent_under"@.len());
    assert("over"@.len() != "accent"@.len());
    assert("over"@.len() != "accent_under"@.len());
    assert("accent"@.len() != "accent_under"@.len());
    reveal_with_fuel(lookup, 6);
}

#[verifier::spinoff_prover]
#[verifier::rlimit(100)]
proof fn lemma_payload_multiscript_fields()
    ensures
        field_shape(node_shape()->Enum_0[21].1->Some_0->req, node_shape()->Enum_0[21].1->Some_0->opt, "base"@) == Some(VShape::Ref("Element"@)),
        field_shape(node_shape()->Enum_0[21].1->Some_0->req, node_shape()->Enum_0[21].1->Some_0->opt, "post"@) == Some(VShape::Array(Box::new(VShape::Ref("Pair"@)))),
        field_shape(node_shape()->Enum_0[21].1->Some_0->req, node_shape()->Enum_0[21].1->Some_0->opt, "pre"@) == Some(VShape::Array(Box::new(VShape::Ref("Pair"@)))),
{
    reveal_strlit("base");
    reveal_strlit("post");
    reveal_strlit("pre");
    assert("base"@[0] != "post"@[0]);
    assert("base"@.len() != "pre"@.len());
    assert("post"@.len() != "pre"@.len());
    reveal_with_fuel(lookup, 4);
}

#[verifier::spinoff_prover]
#[verifier::rlimit(100)]
proof fn lemma_payload_table_fields()
    ensures
        field_shape(node_shape()->Enum_0[22].1->Some_0->req, node_shape()->Enum_0[22].1->Some_0->opt, "rows"@) == Some(VShape::Array(Box::new(table_row_shape()))),
{
    reveal_strlit("rows");
    reveal_with_fuel(lookup, 2);
}

#[verifier::spinoff_prover]
#[verifier::rlimit(100)]
proof fn lemma_element_record_fields()
    ensures
        field_shape(element_shape()->req, element_shape()->opt, "e"@) == Some(node_shape()),
        field_shape(element_shape()->req, element_shape()->opt, "a"@) == Some(VShape::Ref("Attributes"@)),
{
    reveal_strlit("e");
    reveal_strlit("a");
    assert("e"@[0] != "a"@[0]);
    reveal_with_fuel(lookup, 3);
}

#[verifier::spinoff_prover]
#[verifier::rlimit(100)]
proof fn lemma_node_alt_op()
    ensures
        lookup(node_shape()->Enum_0, "Op"@) == Some(node_shape()->Enum_0[0].1),
{
    reveal_strlit("Op");
    reveal_strlit("Oper");
    assert("Op"@.len() != "Oper"@.len());
    reveal_strlit("ResolvedOper");
    assert("Op"@.len() != "ResolvedOper"@.len());
    reveal_strlit("Text");
    assert("Op"@.len() != "Text"@.len());
    reveal_strlit("Id");
    assert("Op"@[0] != "Id"@[0]);
    reveal_strlit("Num");
    assert("Op"@.len() != "Num"@.len());
    reveal_strlit("Err");
    assert("Op"@.len() != "Err"@.len());
    reveal_strlit("Space");
    assert("Op"@.len() != "Space"@.len());
    reveal_strlit("Str");
    assert("Op"@.len() != "Str"@.len());
    reveal_strlit("Phantom");
    assert("Op"@.len() != "Phantom"@.len());
    reveal_strlit("Row");
    assert("Op"@.len() != "Row"@.len());
    reveal_strlit("Padding");
    assert("Op"@.len() != "Padding"@.len());
    reveal_strlit("Frac");
    assert("Op"@.len() != "Frac"@.len());
    reveal_strlit("Sqrt");
    assert("Op"@.len() != "Sqrt"@.len());
    reveal_strlit("Root");
    assert("Op"@.len() != "Root"@.len());
    reveal_strlit("Sup");
    assert("Op"@.len() != "Sup"@.len());
    reveal_strlit("Sub");
    assert("Op"@.len() != "Sub"@.len());
    reveal_strlit("SubSup");
    assert("Op"@.len() != "SubSup"@.len());
    reveal_strlit("Over");
    assert("Op"@.len() != "Over"@.len());
    reveal_strlit("Under");
    assert("Op"@.len() != "Under"@.len());
    reveal_strlit("UnderOver");
    assert("Op"@.len() != "UnderOver"@.len());
    reveal_strlit("MultiScript");
    assert("Op"@.len() != "MultiScript"@.len());
    reveal_strlit("Table");
    assert("Op"@.len() != "Table"@.len());
    reveal_with_fuel(lookup, 24);
}

#[verifier::spinoff_prover]
#[verifier::rlimit(100)]
proof fn lemma_node_alt_oper()
    ensures
        lookup(node_shape()->Enum_0, "Oper"@) == Some(node_shape()->Enum_0[1].1),
{
    reveal_strlit("Oper");
    reveal_strlit("ResolvedOper");
    assert("Oper"@.len() != "ResolvedOper"@.len());
    reveal_strlit("Text");
    assert("Oper"@[0] != "Text"@[0]);
    reveal_strlit("Id");
    assert("Oper"@.len() != "Id"@.len());
    reveal_strlit("Num");
    assert("Oper"@.len() != "Num"@.len());
    reveal_strlit("Err");
    assert("Oper"@.len() != "Err"@.len());
    reveal_strlit("Space");
    assert("Oper"@.len() != "Space"@.len());
    reveal_strlit("Str");
    assert("Oper"@.len() != "Str"@.len());
    reveal_strlit("Phantom");
    assert("Oper"@.len() != "Phantom"@.len());
    reveal_strlit("Row");
    assert("Oper"@.len() != "Row"@.len());
    reveal_strlit("Padding");
    assert("Oper"@.len() != "Padding"@.len());
    reveal_strlit("Frac");
    assert("Oper"@[0] != "Frac"@[0]);
    reveal_strlit("Sqrt");
    assert("Oper"@[0] != "Sqrt"@[0]);
    reveal_strlit("Root");
    assert("Oper"@[0] != "Root"@[0]);
    reveal_strlit("Sup");
    assert("Oper"@.len() != "Sup"@.len());
    reveal_strlit("Sub");
    assert("Oper"@.len() != "Sub"@.len());
    reveal_strlit("SubSup");
    assert("Oper"@.len() != "SubSup"@.len());
    reveal_strlit("Over");
    assert("Oper"@[1] != "Over"@[1]);
    reveal_strlit("Under");
    assert("Oper"@.len() != "Under"@.len());
    reveal_strlit("UnderOver");
    assert("Oper"@.len() != "UnderOver"@.len());
    reveal_strlit("MultiScript");
    assert("Oper"@.len() != "MultiScript"@.len());
    reveal_strlit("Table");
    assert("Oper"@.len() != "Table"@.len());
    reveal_with_fuel(lookup, 23);
}

#[verifier::spinoff_prover]
#[verifier::rlimit(100)]
proof fn lemma_node_alt_resolvedoper()
    ensures
        lookup(node_shape()->Enum_0, "ResolvedOper"@) == Some(node_shape()->Enum_0[2].1),
{
    reveal_strlit("ResolvedOper");
    reveal_strlit("Text");
    assert("ResolvedOper"@.len() != "Text"@.len());
    reveal_strlit("Id");
    assert("ResolvedOper"@.len() != "Id"@.len());
    reveal_strlit("Num");
    assert("ResolvedOper"@.len() != "Num"@.len());
    reveal_strlit("Err");
    assert("ResolvedOper"@.len() != "Err"@.len());
    reveal_strlit("Space");
    assert("ResolvedOper"@.len() != "Space"@.len());
    reveal_strlit("Str");
    assert("ResolvedOper"@.len() != "Str"@.len());
    reveal_strlit("Phantom");
    assert("ResolvedOper"@.len() != "Phantom"@.len());
    reveal_strlit("Row");
    assert("ResolvedOper"@.len() != "Row"@.len());
    reveal_strlit("Padding");
    assert("ResolvedOper"@.len() != "Padding"@.len());
    reveal_strlit("Frac");
    assert("ResolvedOper"@.len() != "Frac"@.len());
    reveal_strlit("Sqrt");
    assert("ResolvedOper"@.len() != "Sqrt"@.len());
    reveal_strlit("Root");
    assert("ResolvedOper"@.len() != "Root"@.len());
    reveal_strlit("Sup");
    assert("ResolvedOper"@.len() != "Sup"@.len());
    reveal_strlit("Sub");
    assert("ResolvedOper"@.len() != "Sub"@.len());
    reveal_strlit("SubSup");
    assert("ResolvedOper"@.len() != "SubSup"@.len());
    reveal_strlit("Over");
    assert("ResolvedOper"@.len() != "Over"@.len());
    reveal_strlit("Under");
    assert("ResolvedOper"@.len() != "Under"@.len());
    reveal_strlit("UnderOver");
    assert("ResolvedOper"@.len() != "UnderOver"@.len());
    reveal_strlit("MultiScript");
    assert("ResolvedOper"@.len() != "MultiScript"@.len());
    reveal_strlit("Table");
    assert("ResolvedOper"@.len() != "Table"@.len());
    reveal_with_fuel(lookup, 22);
}

#[verifier::spinoff_prover]
#[verifier::rlimit(100)]
proof fn lemma_node_alt_text()
    ensures
        lookup(node_shape()->Enum_0, "Text"@) == Some(node_shape()->Enum_0[3].1),
{
    reveal_strlit("Text");
    reveal_strlit("Id");
    assert("Text"@.len() != "Id"@.len());
    reveal_strlit("Num");
    assert("Text"@.len() != "Num"@.len());
    reveal_strlit("Err");
    assert("Text"@.len() != "Err"@.len());
    reveal_strlit("Space");
    assert("Text"@.len() != "Space"@.len());
    reveal_strlit("Str");
    assert("Text"@.len() != "Str"@.len());
    reveal_strlit("Phantom");
    assert("Text"@.len() != "Phantom"@.len());
    reveal_strlit("Row");
    assert("Text"@.len() != "Row"@.len());
    reveal_strlit("Padding");
    assert("Text"@.len() != "Padding"@.len());
    reveal_strlit("Frac");
    assert("Text"@[0] != "Frac"@[0]);
    reveal_strlit("Sqrt");
    assert("Text"@[0] != "Sqrt"@[0]);
    reveal_strlit("Root");
    assert("Text"@[0] != "Root"@[0]);
    reveal_strlit("Sup");
    assert("Text"@.len() != "Sup"@.len());
    reveal_strlit("Sub");
    assert("Text"@.len() != "Sub"@.len());
    reveal_strlit("SubSup");
    assert("Text"@.len() != "SubSup"@.len());
    reveal_strlit("Over");
    assert("Text"@[0] != "Over"@[0]);
    reveal_strlit("Under");
    assert("Text"@.len() != "Under"@.len());
    reveal_strlit("UnderOver");
    assert("Text"@.len() != "UnderOver"@.len());
    reveal_strlit("MultiScript");
    assert("Text"@.len() != "MultiScript"@.len());
    reveal_strlit("Table");
    assert("Text"@.len() != "Table"@.len());
    reveal_with_fuel(lookup, 21);
}

#[verifier::spinoff_prover]
#[verifier::rlimit(100)]
proof fn lemma_node_alt_id()
    ensures
        lookup(node_shape()->Enum_0, "Id"@) == Some(node_shape()->Enum_0[4].1),
{
    reveal_strlit("Id");
    reveal_strlit("Num");
    assert("Id"@.len() != "Num"@.len());
    reveal_strlit("Err");
    assert("Id"@.len() != "Err"@.len());
    reveal_strlit("Space");
    assert("Id"@.len() != "Space"@.len());
    reveal_strlit("Str");
    assert("Id"@.len() != "Str"@.len());
    reveal_strlit("Phantom");
    assert("Id"@.len() != "Phantom"@.len());
    reveal_strlit("Row");
    assert("Id"@.len() != "Row"@.len());
    reveal_strlit("Padding");
    assert("Id"@.len() != "Padding"@.len());
    reveal_strlit("Frac");
    assert("Id"@.len() != "Frac"@.len());
    reveal_strlit("Sqrt");
    assert("Id"@.len() != "Sqrt"@.len());
    reveal_strlit("Root");
    assert("Id"@.len() != "Root"@.len());
    reveal_strlit("Sup");
    assert("Id"@.len() != "Sup"@.len());
    reveal_strlit("Sub");
    assert("Id"@.len() != "Sub"@.len());
    reveal_strlit("SubSup");
    assert("Id"@.len() != "SubSup"@.len());
    reveal_strlit("Over");
    assert("Id"@.len() != "Over"@.len());
    reveal_strlit("Under");
    assert("Id"@.len() != "Under"@.len());
    reveal_strlit("UnderOver");
    assert("Id"@.len() != "UnderOver"@.len());
    reveal_strlit("MultiScript");
    assert("Id"@.len() != "MultiScript"@.len());
    reveal_strlit("Table");
    assert("Id"@.len() != "Table"@.len());
    reveal_with_fuel(lookup, 20);
}

#[verifier::spinoff_prover]
#[verifier::rlimit(100)]
proof fn lemma_node_alt_num()
    ensures
        lookup(node_shape()->Enum_0, "Num"@) == Some(node_shape()->Enum_0[5].1),
{
    reveal_strlit("Num");
    reveal_strlit("Err");
    assert("Num"@[0] != "Err"@[0]);
    reveal_strlit("Space");
    assert("Num"@.len() != "Space"@.len());
    reveal_strlit("Str");
    assert("Num"@[0] != "Str"@[0]);
    reveal_strlit("Phantom");
    assert("Num"@.len() != "Phantom"@.len());
    reveal_strlit("Row");
    assert("Num"@[0] != "Row"@[0]);
    reveal_strlit("Padding");
    assert("Num"@.len() != "Padding"@.len());
    reveal_strlit("Frac");
    assert("Num"@.len() != "Frac"@.len());
    reveal_strlit("Sqrt");
    assert("Num"@.len() != "Sqrt"@.len());
    reveal_strlit("Root");
    assert("Num"@.len() != "Root"@.len());
    reveal_strlit("Sup");
    assert("Num"@[0] != "Sup"@[0]);
    reveal_strlit("Sub");
    assert("Num"@[0] != "Sub"@[0]);
    reveal_strlit("SubSup");
    assert("Num"@.len() != "SubSup"@.len());
    reveal_strlit("Over");
    assert("Num"@.len() != "Over"@.len());
    reveal_strlit("Under");
    assert("Num"@.len() != "Under"@.len());
    reveal_strlit("UnderOver");
    assert("Num"@.len() != "UnderOver"@.len());
    reveal_strlit("MultiScript");
    assert("Num"@.len() != "MultiScript"@.len());
    reveal_strlit("Table");
    assert("Num"@.len() != "Table"@.len());
    reveal_with_fuel(lookup, 19);
}

#[verifier::spinoff_prover]
#[verifier::rlimit(100)]
proof fn lemma_node_alt_err()
    ensures
        lookup(node_shape()->Enum_0, "Err"@) == Some(node_shape()->Enum_0[6].1),
{
    reveal_strlit("Err");
    reveal_strlit("Space");
    assert("Err"@.len() != "Space"@.len());
    reveal_strlit("Str");
    assert("Err"@[0] != "Str"@[0]);
    reveal_strlit("Phantom");
    assert("Err"@.len() != "Phantom"@.len());
    reveal_strlit("Row");
    assert("Err"@[0] != "Row"@[0]);
    reveal_strlit("Padding");
    assert("Err"@.len() != "Padding"@.len());
    reveal_strlit("Frac");
    assert("Err"@.len() != "Frac"@.len());
    reveal_strlit("Sqrt");
    assert("Err"@.len() != "Sqrt"@.len());
    reveal_strlit("Root");
    assert("Err"@.len() != "Root"@.len());
    reveal_strlit("Sup");
    assert("Err"@[0] != "Sup"@[0]);
    reveal_strlit("Sub");
    assert("Err"@[0] != "Sub"@[0]);
    reveal_strlit("SubSup");
    assert("Err"@.len() != "SubSup"@.len());
    reveal_strlit("Over");
    assert("Err"@.len() != "Over"@.len());
    reveal_strlit("Under");
    assert("Err"@.len() != "Under"@.len());
    reveal_strlit("UnderOver");
    assert("Err"@.len() != "UnderOver"@.len());
    reveal_strlit("MultiScript");
    assert("Err"@.len() != "MultiScript"@.len());
    reveal_strlit("Table");
    assert("Err"@.len() != "Table"@.len());
    reveal_with_fuel(lookup, 18);
}

#[verifier::spinoff_prover]
#[verifier::rlimit(100)]
proof fn lemma_node_alt_space()
    ensures
        lookup(node_shape()->Enum_0, "Space"@) == Some(node_shape()->Enum_0[7].1),
{
    reveal_strlit("Space");
    reveal_strlit("Str");
    assert("Space"@.len() != "Str"@.len());
    reveal_strlit("Phantom");
    assert("Space"@.len() != "Phantom"@.len());
    reveal_strlit("Row");
    assert("Space"@.len() != "Row"@.len());
    reveal_strlit("Padding");
    assert("Space"@.len() != "Padding"@.len());
    reveal_strlit("Frac");
    assert("Space"@.len() != "Frac"@.len());
    reveal_strlit("Sqrt");
    assert("Space"@.len() != "Sqrt"@.len());
    reveal_strlit("Root");
    assert("Space"@.len() != "Root"@.len());
    reveal_strlit("Sup");
    assert("Space"@.len() != "Sup"@.len());
    reveal_strlit("Sub");
    assert("Space"@.len() != "Sub"@.len());
    reveal_strlit("SubSup");
    assert("Space"@.len() != "SubSup"@.len());
    reveal_strlit("Over");
    assert("Space"@.len() != "Over"@.len());
    reveal_strlit("Under");
    assert("Space"@[0] != "Under"@[0]);
    reveal_strlit("UnderOver");
    assert("Space"@.len() != "UnderOver"@.len());
    reveal_strlit("MultiScript");
    assert("Space"@.len() != "MultiScript"@.len());
    reveal_strlit("Table");
    assert("Space"@[0] != "Table"@[0]);
    reveal_with_fuel(lookup, 17);
}

#[verifier::spinoff_prover]
#[verifier::rlimit(100)]
proof fn lemma_node_alt_str()
    ensures
        lookup(node_shape()->Enum_0, "Str"@) == Some(node_shape()->Enum_0[8].1),
{
    reveal_strlit("Str");
    reveal_strlit("Phantom");
    assert("Str"@.len() != "Phantom"@.len());
    reveal_strlit("Row");
    assert("Str"@[0] != "Row"@[0]);
    reveal_strlit("Padding");
    assert("Str"@.len() != "Padding"@.len());
    reveal_strlit("Frac");
    assert("Str"@.len() != "Frac"@.len());
    reveal_strlit("Sqrt");
    assert("Str"@.len() != "Sqrt"@.len());
    reveal_strlit("Root");
    assert("Str"@.len() != "Root"@.len());
    reveal_strlit("Sup");
    assert("Str"@[1] != "Sup"@[1]);
    reveal_strlit("Sub");
    assert("Str"@[1] != "Sub"@[1]);
    reveal_strlit("SubSup");
    assert("Str"@.len() != "SubSup"@.len());
    reveal_strlit("Over");
    assert("Str"@.len() != "Over"@.len());
    reveal_strlit("Under");
    assert("Str"@.len() != "Under"@.len());
    reveal_strlit("UnderOver");
    assert("Str"@.len() != "UnderOver"@.len());
    reveal_strlit("MultiScript");
    assert("Str"@.len() != "MultiScript"@.len());
    reveal_strlit("Table");
    assert("Str"@.len() != "Table"@.len());
    reveal_with_fuel(lookup, 16);
}

#[verifier::spinoff_prover]
#[verifier::rlimit(100)]
proof fn lemma_node_alt_phantom()
    ensures
        lookup(node_shape()->Enum_0, "Phantom"@) == Some(node_shape()->Enum_0[9].1),
{
    reveal_strlit("Phantom");
    reveal_strlit("Row");
    assert("Phantom"@.len() != "Row"@.len());
    reveal_strlit("Padding");
    assert("Phantom"@[1] != "Padding"@[1]);
    reveal_strlit("Frac");
    assert("Phantom"@.len() != "Frac"@.len());
    reveal_strlit("Sqrt");
    assert("Phantom"@.len() != "Sqrt"@.len());
    reveal_strlit("Root");
    assert("Phantom"@.len() != "Root"@.len());
    reveal_strlit("Sup");
    assert("Phantom"@.len() != "Sup"@.len());
    reveal_strlit("Sub");
    assert("Phantom"@.len() != "Sub"@.len());
    reveal_strlit("SubSup");
    assert("Phantom"@.len() != "SubSup"@.len());
    reveal_strlit("Over");
    assert("Phantom"@.len() != "Over"@.len());
    reveal_strlit("Under");
    assert("Phantom"@.len() != "Under"@.len());
    reveal_strlit("UnderOver");
    assert("Phantom"@.len() != "UnderOver"@.len());
    reveal_strlit("MultiScript");
    assert("Phantom"@.len() != "MultiScript"@.len());
    reveal_strlit("Table");
    assert("Phantom"@.len() != "Table"@.len());
    reveal_with_fuel(lookup, 15);
}

#[verifier::spinoff_prover]
#[verifier::rlimit(100)]
proof fn lemma_node_alt_row()
    ensures
        lookup(node_shape()->Enum_0, "Row"@) == Some(node_shape()->Enum_0[10].1),
{
    reveal_strlit("Row");
    reveal_strlit("Padding");
    assert("Row"@.len() != "Padding"@.len());
    reveal_strlit("Frac");
    assert("Row"@.len() != "Frac"@.len());
    reveal_strlit("Sqrt");
    assert("Row"@.len() != "Sqrt"@.len());
    reveal_strlit("Root");
    assert("Row"@.len() != "Root"@.len());
    reveal_strlit("Sup");
    assert("Row"@[0] != "Sup"@[0]);
    reveal_strlit("Sub");
    assert("Row"@[0] != "Sub"@[0]);
    reveal_strlit("SubSup");
    assert("Row"@.len() != "SubSup"@.len());
    reveal_strlit("Over");
    assert("Row"@.len() != "Over"@.len());
    reveal_strlit("Under");
    assert("Row"@.len() != "Under"@.len());
    reveal_strlit("UnderOver");
    assert("Row"@.len() != "UnderOver"@.len());
    reveal_strlit("MultiScript");
    assert("Row"@.len() != "MultiScript"@.len());
    reveal_strlit("Table");
    assert("Row"@.len() != "Table"@.len());
    reveal_with_fuel(lookup, 14);
}

#[verifier::spinoff_prover]
#[verifier::rlimit(100)]
proof fn lemma_node_alt_padding()
    ensures
        lookup(node_shape()->Enum_0, "Padding"@) == Some(node_shape()->Enum_0[11].1),
{
    reveal_strlit("Padding");
    reveal_strlit("Frac");
    assert("Padding"@.len() != "Frac"@.len());
    reveal_strlit("Sqrt");
    assert("Padding"@.len() != "Sqrt"@.len());
    reveal_strlit("Root");
    assert("Padding"@.len() != "Root"@.len());
    reveal_strlit("Sup");
    assert("Padding"@.len() != "Sup"@.len());
    reveal_strlit("Sub");
    assert("Padding"@.len() != "Sub"@.len());
    reveal_strlit("SubSup");
    assert("Padding"@.len() != "SubSup"@.len());
    reveal_strlit("Over");
    assert("Padding"@.len() != "Over"@.len());
    reveal_strlit("Under");
    assert("Padding"@.len() != "Under"@.len());
    reveal_strlit("UnderOver");
    assert("Padding"@.len() != "UnderOver"@.len());
    reveal_strlit("MultiScript");
    assert("Padding"@.len() != "MultiScript"@.len());
    reveal_strlit("Table");
    assert("Padding"@.len() != "Table"@.len());
    reveal_with_fuel(lookup, 13);
}

#[verifier::spinoff_prover]
#[verifier::rlimit(100)]
proof fn lemma_node_alt_frac()
    ensures
        lookup(node_shape()->Enum_0, "Frac"@) == Some(node_shape()->Enum_0[12].1),
{
    reveal_strlit("Frac");
    reveal_strlit("Sqrt");
    assert("Frac"@[0] != "Sqrt"@[0]);
    reveal_strlit("Root");
    assert("Frac"@[0] != "Root"@[0]);
    reveal_strlit("Sup");
    assert("Frac"@.len() != "Sup"@.len());
    reveal_strlit("Sub");
    assert("Frac"@.len() != "Sub"@.len());
    reveal_strlit("SubSup");
    assert("Frac"@.len() != "SubSup"@.len());
    reveal_strlit("Over");
    assert("Frac"@[0] != "Over"@[0]);
    reveal_strlit("Under");
    assert("Frac"@.len() != "Under"@.len());
    reveal_strlit("UnderOver");
    assert("Frac"@.len() != "UnderOver"@.len());
    reveal_strlit("MultiScript");
    assert("Frac"@.len() != "MultiScript"@.len());
    reveal_strlit("Table");
    assert("Frac"@.len() != "Table"@.len());
    reveal_with_fuel(lookup, 12);
}

#[verifier::spinoff_prover]
#[verifier::rlimit(100)]
proof fn lemma_node_alt_sqrt()
    ensures
        lookup(node_shape()->Enum_0, "Sqrt"@) == Some(node_shape()->Enum_0[13].1),
{
    reveal_strlit("Sqrt");
    reveal_strlit("Root");
    assert("Sqrt"@[0] != "Root"@[0]);
    reveal_strlit("Sup");
    assert("Sqrt"@.len() != "Sup"@.len());
    reveal_strlit("Sub");
    assert("Sqrt"@.len() != "Sub"@.len());
    reveal_strlit("SubSup");
    assert("Sqrt"@.len() != "SubSup"@.len());
    reveal_strlit("Over");
    assert("Sqrt"@[0] != "Over"@[0]);
    reveal_strlit("Under");
    assert("Sqrt"@.len() != "Under"@.len());
    reveal_strlit("UnderOver");
    assert("Sqrt"@.len() != "UnderOver"@.len());
    reveal_strlit("MultiScript");
    assert("Sqrt"@.len() != "MultiScript"@.len());
    reveal_strlit("Table");
    assert("Sqrt"@.len() != "Table"@.len());
    reveal_with_fuel(lookup, 11);
}

#[verifier::spinoff_prover]
#[verifier::rlimit(100)]
proof fn lemma_node_alt_root()
    ensures
        lookup(node_shape()->Enum_0, "Root"@) == Some(node_shape()->Enum_0[14].1),
{
    reveal_strlit("Root");
    reveal_strlit("Sup");
    assert("Root"@.len() != "Sup"@.len());
    reveal_strlit("Sub");
    assert("Root"@.len() != "Sub"@.len());
    reveal_strlit("SubSup");
    assert("Root"@.len() != "SubSup"@.len());
    reveal_strlit("Over");
    assert("Root"@[0] != "Over"@[0]);
    reveal_strlit("Under");
    assert("Root"@.len() != "Under"@.len());
    reveal_strlit("UnderOver");
    assert("Root"@.len() != "UnderOver"@.len());
    reveal_strlit("MultiScript");
    assert("Root"@.len() != "MultiScript"@.len());
    reveal_strlit("Table");
    assert("Root"@.len() != "Table"@.len());
    reveal_with_fuel(lookup, 10);
}

#[verifier::spinoff_prover]
#[verifier::rlimit(100)]
proof fn lemma_node_alt_sup()
    ensures
        lookup(node_shape()->Enum_0, "Sup"@) == Some(node_shape()->Enum_0[15].1),
{
    reveal_strlit("Sup");
    reveal_strlit("Sub");
    assert("Sup"@[2] != "Sub"@[2]);
    reveal_strlit("SubSup");
    assert("Sup"@.len() != "SubSup"@.len());
    reveal_strlit("Over");
    assert("Sup"@.len() != "Over"@.len());
    reveal_strlit("Under");
    assert("Sup"@.len() != "Under"@.len());
    reveal_strlit("UnderOver");
    assert("Sup"@.len() != "UnderOver"@.len());
    reveal_strlit("MultiScript");
    assert("Sup"@.len() != "MultiScript"@.len());
    reveal_strlit("Table");
    assert("Sup"@.len() != "Table"@.len());
    reveal_with_fuel(lookup, 9);
}

#[verifier::spinoff_prover]
#[verifier::rlimit(100)]
proof fn lemma_node_alt_sub()
    ensures
        lookup(node_shape()->Enum_0, "Sub"@) == Some(node_shape()->Enum_0[16].1),
{
    reveal_strlit("Sub");
    reveal_strlit("SubSup");
    assert("Sub"@.len() != "SubSup"@.len());
    reveal_strlit("Over");
    assert("Sub"@.len() != "Over"@.len());
    reveal_strlit("Under");
    assert("Sub"@.len() != "Under"@.len());
    reveal_strlit("UnderOver");
    assert("Sub"@.len() != "UnderOver"@.len());
    reveal_strlit("MultiScript");
    assert("Sub"@.len() != "MultiScript"@.len());
    reveal_strlit("Table");
    assert("Sub"@.len() != "Table"@.len());
    reveal_with_fuel(lookup, 8);
}

#[verifier::spinoff_prover]
#[verifier::rlimit(100)]
proof fn lemma_node_alt_subsup()
    ensures
        lookup(node_shape()->Enum_0, "SubSup"@) == Some(node_shape()->Enum_0[17].1),
{
    reveal_strlit("SubSup");
    reveal_strlit("Over");
    assert("SubSup"@.len() != "Over"@.len());
    reveal_strlit("Under");
    assert("SubSup"@.len() != "Under"@.len());
    reveal_strlit("UnderOver");
    assert("SubSup"@.len() != "UnderOver"@.len());
    reveal_strlit("MultiScript");
    assert("SubSup"@.len() != "MultiScript"@.len());
    reveal_strlit("Table");
    assert("SubSup"@.len() != "Table"@.len());
    reveal_with_fuel(lookup, 7);
}

#[verifier::spinoff_prover]
#[verifier::rlimit(100)]
proof fn lemma_node_alt_over()
    ensures
        lookup(node_shape()->Enum_0, "Over"@) == Some(node_shape()->Enum_0[18].1),
{
    reveal_strlit("Over");
    reveal_strlit("Under");
    assert("Over"@.len() != "Under"@.len());
    reveal_strlit("UnderOver");
    assert("Over"@.len() != "UnderOver"@.len());
    reveal_strlit("MultiScript");
    assert("Over"@.len() != "MultiScript"@.len());
    reveal_strlit("Table");
    assert("Over"@.len() != "Table"@.len());
    reveal_with_fuel(lookup, 6);
}

#[verifier::spinoff_prover]
#[verifier::rlimit(100)]
proof fn lemma_node_alt_under()
    ensures
        lookup(node_shape()->Enum_0, "Under"@) == Some(node_shape()->Enum_0[19].1),
{
    reveal_strlit("Under");
    reveal_strlit("UnderOver");
    assert("Under"@.len() != "UnderOver"@.len());
    reveal_strlit("MultiScript");
    assert("Under"@.len() != "MultiScript"@.len());
    reveal_strlit("Table");
    assert("Under"@[0] != "Table"@[0]);
    reveal_with_fuel(lookup, 5);
}

#[verifier::spinoff_prover]
#[verifier::rlimit(100)]
proof fn lemma_node_alt_underover()
    ensures
        lookup(node_shape()->Enum_0, "UnderOver"@) == Some(node_shape()->Enum_0[20].1),
{
    reveal_strlit("UnderOver");
    reveal_strlit("MultiScript");
    assert("UnderOver"@.len() != "MultiScript"@.len());
    reveal_strlit("Table");
    assert("UnderOver"@.len() != "Table"@.len());
    reveal_with_fuel(lookup, 4);
}

#[verifier::spinoff_prover]
#[verifier::rlimit(100)]
proof fn lemma_node_alt_multiscript()
    ensures
        lookup(node_shape()->Enum_0, "MultiScript"@) == Some(node_shape()->Enum_0[21].1),
{
    reveal_strlit("MultiScript");
    reveal_strlit("Table");
    assert("MultiScript"@.len() != "Table"@.len());
    reveal_with_fuel(lookup, 3);
}

#[verifier::spinoff_prover]
#[verifier::rlimit(100)]
proof fn lemma_node_alt_table()
    ensures
        lookup(node_shape()->Enum_0, "Table"@) == Some(node_shape()->Enum_0[22].1),
{
    reveal_strlit("Table");
    reveal_with_fuel(lookup, 2);
}

#[verifier::spinoff_prover]
#[verifier::rlimit(100)]
proof fn lemma_padding(p: Padding)
    ensures
        conforms(types(), padding_shape(), enc_padding(p)),
    decreases p, 0nat,
{
    let sh = padding_shape();
    let req = sh->req;
    let opt = sh->opt;
    lemma_padding_fields();
    let s0 = Seq::<(Seq<char>, VValue)>::empty();
    assert(conforms_fields(types(), req, opt, s0));
    if p.elems@.len() > 0 {
        lemma_elems(p.elems@);
        assert(field_ok(req, opt, "elems"@, VValue::Array(enc_elems(p.elems@))));
    }
    lemma_fields_with(req, opt, s0, p.elems@.len() > 0, "elems"@, VValue::Array(enc_elems(p.elems@)));
    let s1 = with(s0, p.elems@.len() > 0, "elems"@, VValue::Array(enc_elems(p.elems@)));
    if p.width is Some {
        lemma_length(p.width->0);
        assert(field_ok(req, opt, "width"@, enc_length(p.width->0)));
    }
    lemma_fields_with(req, opt, s1, p.width is Some, "width"@, enc_length(p.width->0));
    let s2 = with(s1, p.width is Some, "width"@, enc_length(p.width->0));
    if p.height is Some {
        lemma_length(p.height->0);
        assert(field_ok(req, opt, "height"@, enc_length(p.height->0)));
    }
    lemma_fields_with(req, opt, s2, p.height is Some, "height"@, enc_length(p.height->0));
    let s3 = with(s2, p.height is Some, "height"@, enc_length(p.height->0));
    if p.depth is Some {
        lemma_length(p.depth->0);
        assert(field_ok(req, opt, "depth"@, enc_length(p.depth->0)));
    }
    lemma_fields_with(req, opt, s3, p.depth is Some, "depth"@, enc_length(p.depth->0));
    let s4 = with(s3, p.depth is Some, "depth"@, enc_length(p.depth->0));
    if p.lspace is Some {
        lemma_length(p.lspace->0);
        assert(field_ok(req, opt, "lspace"@, enc_length(p.lspace->0)));
    }
    lemma_fields_with(req, opt, s4, p.lspace is Some, "lspace"@, enc_length(p.lspace->0));
    let s5 = with(s4, p.lspace is Some, "lspace"@, enc_length(p.lspace->0));
    if p.voffset is Some {
        lemma_length(p.voffset->0);
        assert(field_ok(req, opt, "voffset"@, enc_length(p.voffset->0)));
    }
    lemma_fields_with(req, opt, s5, p.voffset is Some, "voffset"@, enc_length(p.voffset->0));
    let s6 = with(s5, p.voffset is Some, "voffset"@, enc_length(p.voffset->0));
    assert(enc_padding(p)->Record_0 =~= s6);
    assert(conforms(types(), sh, VValue::Record(s6)));
}

#[verifier::spinoff_prover]
#[verifier::rlimit(100)]
proof fn lemma_pair(p: Pair)
    ensures
        conforms(types(), pair_shape(), enc_pair(p)),
    decreases p, 0nat,
{
    let sh = pair_shape();
    let req = sh->req;
    let opt = sh->opt;
    lemma_pair_fields();
    let s0 = Seq::<(Seq<char>, VValue)>::empty();
    assert(conforms_fields(types(), req, opt, s0));
    lemma_element(*p.sup);
    assert(field_ok(req, opt, "sup"@, enc_element(*p.sup)));
    lemma_fields_push(req, opt, s0, "sup"@, enc_element(*p.sup));
    let s1 = s0.push(("sup"@, enc_element(*p.sup)));
    lemma_has_key_push(s0, ("sup"@, enc_element(*p.sup)), "sup"@);
    lemma_element(*p.sub);
    assert(field_ok(req, opt, "sub"@, enc_element(*p.sub)));
    lemma_fields_push(req, opt, s1, "sub"@, enc_element(*p.sub));
    let s2 = s1.push(("sub"@, enc_element(*p.sub)));
    lemma_has_key_push(s1, ("sub"@, enc_element(*p.sub)), "sup"@);
    lemma_has_key_push(s1, ("sub"@, enc_element(*p.sub)), "sub"@);
    assert(has_key(s2, req[0].0));
    assert(has_key(s2, req[1].0));
    assert(enc_pair(p)->Record_0 =~= s2);
    assert(conforms(types(), sh, VValue::Record(s2)));
}

#[verifier::spinoff_prover]
#[verifier::rlimit(100)]
proof fn lemma_cell(c: TableCell)
    ensures
        conforms(types(), table_cell_shape(), enc_cell(c)),
    decreases c, 0nat,
{
    let sh = table_cell_shape();
    let req = sh->req;
    let opt = sh->opt;
    lemma_cell_fields();
    let s0 = Seq::<(Seq<char>, VValue)>::empty();
    assert(conforms_fields(types(), req, opt, s0));
    assert(c.col_span != 1 ==> field_ok(req, opt, "col_span"@, VValue::Int(c.col_span as int)));
    lemma_fields_with(req, opt, s0, c.col_span != 1, "col_span"@, VValue::Int(c.col_span as int));
    let s1 = with(s0, c.col_span != 1, "col_span"@, VValue::Int(c.col_span as int));
    assert(c.row_span != 1 ==> field_ok(req, opt, "row_span"@, VValue::Int(c.row_span as int)));
    lemma_fields_with(req, opt, s1, c.row_span != 1, "row_span"@, VValue::Int(c.row_span as int));
    let s2 = with(s1, c.row_span != 1, "row_span"@, VValue::Int(c.row_span as int));
    if c.elems@.len() > 0 {
        lemma_elems(c.elems@);
        assert(field_ok(req, opt, "elems"@, VValue::Array(enc_elems(c.elems@))));
    }
    lemma_fields_with(req, opt, s2, c.elems@.len() > 0, "elems"@, VValue::Array(enc_elems(c.elems@)));
    let s3 = with(s2, c.elems@.len() > 0, "elems"@, VValue::Array(enc_elems(c.elems@)));
    if c.a is Some {
        lemma_attributes_ref(*c.a->0);
        assert(field_ok(req, opt, "a"@, enc_attributes(*c.a->0)));
    }
    lemma_fields_with(req, opt, s3, c.a is Some, "a"@, enc_attributes(*c.a->0));
    let s4 = with(s3, c.a is Some, "a"@, enc_attributes(*c.a->0));
    assert(enc_cell(c)->Record_0 =~= s4);
    assert(conforms(types(), sh, VValue::Record(s4)));
}

#[verifier::spinoff_prover]
#[verifier::rlimit(100)]
proof fn lemma_row(r: TableRow)
    ensures
        conforms(types(), table_row_shape(), enc_row(r)),
    decreases r, 0nat,
{
    let sh = table_row_shape();
    let req = sh->req;
    let opt = sh->opt;
    lemma_row_fields();
    let s0 = Seq::<(Seq<char>, VValue)>::empty();
    assert(conforms_fields(types(), req, opt, s0));
    if r.cells@.len() > 0 {
        lemma_cells(r.cells@);
        assert(field_ok(req, opt, "cells"@, VValue::Array(enc_cells(r.cells@))));
    }
    lemma_fields_with(req, opt, s0, r.cells@.len() > 0, "cells"@, VValue::Array(enc_cells(r.cells@)));
    let s1 = with(s0, r.cells@.len() > 0, "cells"@, VValue::Array(enc_cells(r.cells@)));
    if r.a is Some {
        lemma_attributes_ref(*r.a->0);
        assert(field_ok(req, opt, "a"@, enc_attributes(*r.a->0)));
    }
    lemma_fields_with(req, opt, s1, r.a is Some, "a"@, enc_attributes(*r.a->0));
    let s2 = with(s1, r.a is Some, "a"@, enc_attributes(*r.a->0));
    assert(enc_row(r)->Record_0 =~= s2);
    assert(conforms(types(), sh, VValue::Record(s2)));
}

#[verifier::spinoff_prover]
#[verifier::rlimit(100)]
proof fn lemma_payload_id(n: MathElement)
    requires
        n is Id,
    ensures
        conforms(types(), node_shape()->Enum_0[4].1->Some_0, node_payload(n)),
    decreases n, 0nat,
{
    match n {
        MathElement::Id { t, normal } => {
            let sh = node_shape()->Enum_0[4].1->Some_0;
            let req = sh->req;
            let opt = sh->opt;
            lemma_payload_id_fields();
            let s0 = Seq::<(Seq<char>, VValue)>::empty();
            assert(conforms_fields(types(), req, opt, s0));
            assert(field_ok(req, opt, "t"@, VValue::Str(t@)));
            lemma_fields_push(req, opt, s0, "t"@, VValue::Str(t@));
            let s1 = s0.push(("t"@, VValue::Str(t@)));
            lemma_has_key_push(s0, ("t"@, VValue::Str(t@)), "t"@);
            assert(normal ==> field_ok(req, opt, "normal"@, VValue::Bool(true)));
            lemma_fields_with(req, opt, s1, normal, "normal"@, VValue::Bool(true));
            let s2 = with(s1, normal, "normal"@, VValue::Bool(true));
            lemma_has_key_with(s1, normal, "normal"@, VValue::Bool(true), "t"@);
            assert(has_key(s2, req[0].0));
            assert(node_payload(n)->Record_0 =~= s2);
            assert(conforms(types(), sh, VValue::Record(s2)));
        },
        _ => {},
    }
}

#[verifier::spinoff_prover]
#[verifier::rlimit(100)]
proof fn lemma_payload_frac(n: MathElement)
    requires
        n is Frac,
    ensures
        conforms(types(), node_shape()->Enum_0[12].1->Some_0, node_payload(n)),
    decreases n, 0nat,
{
    match n {
        MathElement::Frac { line_thickness, num, den } => {
            let sh = node_shape()->Enum_0[12].1->Some_0;
            let req = sh->req;
            let opt = sh->opt;
            lemma_payload_frac_fields();
            let s0 = Seq::<(Seq<char>, VValue)>::empty();
            assert(conforms_fields(types(), req, opt, s0));
            assert(line_thickness is Some ==> field_ok(req, opt, "line_thickness"@, VValue::F32(line_thickness->0)));
            lemma_fields_with(req, opt, s0, line_thickness is Some, "line_thickness"@, VValue::F32(line_thickness->0));
            let s1 = with(s0, line_thickness is Some, "line_thickness"@, VValue::F32(line_thickness->0));
            lemma_element(*num);
            assert(field_ok(req, opt, "num"@, enc_element(*num)));
            lemma_fields_push(req, opt, s1, "num"@, enc_element(*num));
            let s2 = s1.push(("num"@, enc_element(*num)));
            lemma_has_key_push(s1, ("num"@, enc_element(*num)), "num"@);
            lemma_element(*den);
            assert(field_ok(req, opt, "den"@, enc_element(*den)));
            lemma_fields_push(req, opt, s2, "den"@, enc_element(*den));
            let s3 = s2.push(("den"@, enc_element(*den)));
            lemma_has_key_push(s2, ("den"@, enc_element(*den)), "num"@);
            lemma_has_key_push(s2, ("den"@, enc_element(*den)), "den"@);
            assert(has_key(s3, req[0].0));
            assert(has_key(s3, req[1].0));
            assert(node_payload(n)->Record_0 =~= s3);
            assert(conforms(types(), sh, VValue::Record(s3)));
        },
        _ => {},
    }
}

#[verifier::spinoff_prover]
#[verifier::rlimit(100)]
proof fn lemma_payload_root(n: MathElement)
    requires
        n is Root,
    ensures
        conforms(types(), node_shape()->Enum_0[14].1->Some_0, node_payload(n)),
    decreases n, 0nat,
{
    match n {
        MathElement::Root { base, index } => {
            let sh = node_shape()->Enum_0[14].1->Some_0;
            let req = sh->req;
            let opt = sh->opt;
            lemma_payload_root_fields();
            let s0 = Seq::<(Seq<char>, VValue)>::empty();
            assert(conforms_fields(types(), req, opt, s0));
            lemma_element(*base);
            assert(field_ok(req, opt, "base"@, enc_element(*base)));
            lemma_fields_push(req, opt, s0, "base"@, enc_element(*base));
            let s1 = s0.push(("base"@, enc_element(*base)));
            lemma_has_key_push(s0, ("base"@, enc_element(*base)), "base"@);
            lemma_element(*index);
            assert(field_ok(req, opt, "index"@, enc_element(*index)));
            lemma_fields_push(req, opt, s1, "index"@, enc_element(*index));
            let s2 = s1.push(("index"@, enc_element(*index)));
            lemma_has_key_push(s1, ("index"@, enc_element(*index)), "base"@);
            lemma_has_key_push(s1, ("index"@, enc_element(*index)), "index"@);
            assert(has_key(s2, req[0].0));
            assert(has_key(s2, req[1].0));
            assert(node_payload(n)->Record_0 =~= s2);
            assert(conforms(types(), sh, VValue::Record(s2)));
        },
        _ => {},
    }
}

#[verifier::spinoff_prover]
#[verifier::rlimit(100)]
proof fn lemma_payload_sup(n: MathElement)
    requires
        n is Sup,
    ensures
        conforms(types(), node_shape()->Enum_0[15].1->Some_0, node_payload(n)),
    decreases n, 0nat,
{
    match n {
        MathElement::Sup { base, sup } => {
            let sh = node_shape()->Enum_0[15].1->Some_0;
            let req = sh->req;
            let opt = sh->opt;
            lemma_payload_sup_fields();
            let s0 = Seq::<(Seq<char>, VValue)>::empty();
            assert(conforms_fields(types(), req, opt, s0));
            lemma_element(*base);
            assert(field_ok(req, opt, "base"@, enc_element(*base)));
            lemma_fields_push(req, opt, s0, "base"@, enc_element(*base));
            let s1 = s0.push(("base"@, enc_element(*base)));
            lemma_has_key_push(s0, ("base"@, enc_element(*base)), "base"@);
            lemma_element(*sup);
            assert(field_ok(req, opt, "sup"@, enc_element(*sup)));
            lemma_fields_push(req, opt, s1, "sup"@, enc_element(*sup));
            let s2 = s1.push(("sup"@, enc_element(*sup)));
            lemma_has_key_push(s1, ("sup"@, enc_element(*sup)), "base"@);
            lemma_has_key_push(s1, ("sup"@, enc_element(*sup)), "sup"@);
            assert(has_key(s2, req[0].0));
            assert(has_key(s2, req[1].0));
            assert(node_payload(n)->Record_0 =~= s2);
            assert(conforms(types(), sh, VValue::Record(s2)));
        },
        _ => {},
    }
}

#[verifier::spinoff_prover]
#[verifier::rlimit(100)]
proof fn lemma_payload_sub(n: MathElement)
    requires
        n is Sub,
    ensures
        conforms(types(), node_shape()->Enum_0[16].1->Some_0, node_payload(n)),
    decreases n, 0nat,
{
    match n {
        MathElement::Sub { base, sub } => {
            let sh = node_shape()->Enum_0[16].1->Some_0;
            let req = sh->req;
            let opt = sh->opt;
            lemma_payload_sub_fields();
            let s0 = Seq::<(Seq<char>, VValue)>::empty();
            assert(conforms_fields(types(), req, opt, s0));
            lemma_element(*base);
            assert(field_ok(req, opt, "base"@, enc_element(*base)));
            lemma_fields_push(req, opt, s0, "base"@, enc_element(*base));
            let s1 = s0.push(("base"@, enc_element(*base)));
            lemma_has_key_push(s0, ("base"@, enc_element(*base)), "base"@);
            lemma_element(*sub);
            assert(field_ok(req, opt, "sub"@, enc_element(*sub)));
            lemma_fields_push(req, opt, s1, "sub"@, enc_element(*sub));
            let s2 = s1.push(("sub"@, enc_element(*sub)));
            lemma_has_key_push(s1, ("sub"@, enc_element(*sub)), "base"@);
            lemma_has_key_push(s1, ("sub"@, enc_element(*sub)), "sub"@);
            assert(has_key(s2, req[0].0));
            assert(has_key(s2, req[1].0));
            assert(node_payload(n)->Record_0 =~= s2);
            assert(conforms(types(), sh, VValue::Record(s2)));
        },
        _ => {},
    }
}

#[verifier::spinoff_prover]
#[verifier::rlimit(100)]
proof fn lemma_payload_subsup(n: MathElement)
    requires
        n is SubSup,
    ensures
        conforms(types(), node_shape()->Enum_0[17].1->Some_0, node_payload(n)),
    decreases n, 0nat,
{
    match n {
        MathElement::SubSup { base, sub, sup } => {
            let sh = node_shape()->Enum_0[17].1->Some_0;
            let req = sh->req;
            let opt = sh->opt;
            lemma_payload_subsup_fields();
            let s0 = Seq::<(Seq<char>, VValue)>::empty();
            assert(conforms_fields(types(), req, opt, s0));
            lemma_element(*base);
            assert(field_ok(req, opt, "base"@, enc_element(*base)));
            lemma_fields_push(req, opt, s0, "base"@, enc_element(*base));
            let s1 = s0.push(("base"@, enc_element(*base)));
            lemma_has_key_push(s0, ("base"@, enc_element(*base)), "base"@);
            lemma_element(*sub);
            assert(field_ok(req, opt, "sub"@, enc_element(*sub)));
            lemma_fields_push(req, opt, s1, "sub"@, enc_element(*sub));
            let s2 = s1.push(("sub"@, enc_element(*sub)));
            lemma_has_key_push(s1, ("sub"@, enc_element(*sub)), "base"@);
            lemma_has_key_push(s1, ("sub"@, enc_element(*sub)), "sub"@);
            lemma_element(*sup);
            assert(field_ok(req, opt, "sup"@, enc_element(*sup)));
            lemma_fields_push(req, opt, s2, "sup"@, enc_element(*sup));
            let s3 = s2.push(("sup"@, enc_element(*sup)));
            lemma_has_key_push(s2, ("sup"@, enc_element(*sup)), "base"@);
            lemma_has_key_push(s2, ("sup"@, enc_element(*sup)), "sub"@);
            lemma_has_key_push(s2, ("sup"@, enc_element(*sup)), "sup"@);
            assert(has_key(s3, req[0].0));
            assert(has_key(s3, req[1].0));
            assert(has_key(s3, req[2].0));
            assert(node_payload(n)->Record_0 =~= s3);
            assert(conforms(types(), sh, VValue::Record(s3)));
        },
        _ => {},
    }
}

#[verifier::spinoff_prover]
#[verifier::rlimit(100)]
proof fn lemma_payload_over(n: MathElement)
    requires
        n is Over,
    ensures
        conforms(types(), node_shape()->Enum_0[18].1->Some_0, node_payload(n)),
    decreases n, 0nat,
{
    match n {
        MathElement::Over { base, over, accent } => {
            let sh = node_shape()->Enum_0[18].1->Some_0;
            let req = sh->req;
            let opt = sh->opt;
            lemma_payload_over_fields();
            let s0 = Seq::<(Seq<char>, VValue)>::empty();
            assert(conforms_fields(types(), req, opt, s0));
            lemma_element(*base);
            assert(field_ok(req, opt, "base"@, enc_element(*base)));
            lemma_fields_push(req, opt, s0, "base"@, enc_element(*base));
            let s1 = s0.push(("base"@, enc_element(*base)));
            lemma_has_key_push(s0, ("base"@, enc_element(*base)), "base"@);
            lemma_element(*over);
            assert(field_ok(req, opt, "over"@, enc_element(*over)));
            lemma_fields_push(req, opt, s1, "over"@, enc_element(*over));
            let s2 = s1.push(("over"@, enc_element(*over)));
            lemma_has_key_push(s1, ("over"@, enc_element(*over)), "base"@);
            lemma_has_key_push(s1, ("over"@, enc_element(*over)), "over"@);
            assert(accent ==> field_ok(req, opt, "accent"@, VValue::Bool(true)));
            lemma_fields_with(req, opt, s2, accent, "accent"@, VValue::Bool(true));
            let s3 = with(s2, accent, "accent"@, VValue::Bool(true));
            lemma_has_key_with(s2, accent, "accent"@, VValue::Bool(true), "base"@);
            lemma_has_key_with(s2, accent, "accent"@, VValue::Bool(true), "over"@);
            assert(has_key(s3, req[0].0));
            assert(has_key(s3, req[1].0));
            assert(node_payload(n)->Record_0 =~= s3);
            assert(conforms(types(), sh, VValue::Record(s3)));
        },
        _ => {},
    }
}

#[verifier::spinoff_prover]
#[verifier::rlimit(100)]
proof fn lemma_payload_under(n: MathElement)
    requires
        n is Under,
    ensures
        conforms(types(), node_shape()->Enum_0[19].1->Some_0, node_payload(n)),
    decreases n, 0nat,
{
    match n {
        MathElement::Under { base, under, accent_under } => {
            let sh = node_shape()->Enum_0[19].1->Some_0;
            let req = sh->req;
            let opt = sh->opt;
            lemma_payload_under_fields();
            let s0 = Seq::<(Seq<char>, VValue)>::empty();
            assert(conforms_fields(types(), req, opt, s0));
            lemma_element(*base);
            assert(field_ok(req, opt, "base"@, enc_element(*base)));
            lemma_fields_push(req, opt, s0, "base"@, enc_element(*base));
            let s1 = s0.push(("base"@, enc_element(*base)));
            lemma_has_key_push(s0, ("base"@, enc_element(*base)), "base"@);
            lemma_element(*under);
            assert(field_ok(req, opt, "under"@, enc_element(*under)));
            lemma_fields_push(req, opt, s1, "under"@, enc_element(*under));
            let s2 = s1.push(("under"@, enc_element(*under)));
            lemma_has_key_push(s1, ("under"@, enc_element(*under)), "base"@);
            lemma_has_key_push(s1, ("under"@, enc_element(*under)), "under"@);
            assert(accent_under ==> field_ok(req, opt, "accent_under"@, VValue::Bool(true)));
            lemma_fields_with(req, opt, s2, accent_under, "accent_under"@, VValue::Bool(true));
            let s3 = with(s2, accent_under, "accent_under"@, VValue::Bool(true));
            lemma_has_key_with(s2, accent_under, "accent_under"@, VValue::Bool(true), "base"@);
            lemma_has_key_with(s2, accent_under, "accent_under"@, VValue::Bool(true), "under"@);
            assert(has_key(s3, req[0].0));
            assert(has_key(s3, req[1].0));
            assert(node_payload(n)->Record_0 =~= s3);
            assert(conforms(types(), sh, VValue::Record(s3)));
        },
        _ => {},
    }
}

#[verifier::spinoff_prover]
#[verifier::rlimit(100)]
proof fn lemma_payload_underover(n: MathElement)
    requires
        n is UnderOver,
    ensures
        conforms(types(), node_shape()->Enum_0[20].1->Some_0, node_payload(n)),
    decreases n, 0nat,
{
    match n {
        MathElement::UnderOver { base, under, over, accent, accent_under } => {
            let sh = node_shape()->Enum_0[20].1->Some_0;
            let req = sh->req;
            let opt = sh->opt;
            lemma_payload_underover_fields();
            let s0 = Seq::<(Seq<char>, VValue)>::empty();
            assert(conforms_fields(types(), req, opt, s0));
            lemma_element(*base);
            assert(field_ok(req, opt, "base"@, enc_element(*base)));
            lemma_fields_push(req, opt, s0, "base"@, enc_element(*base));
            let s1 = s0.push(("base"@, enc_element(*base)));
            lemma_has_key_push(s0, ("base"@, enc_element(*base)), "base"@);
            lemma_element(*under);
            assert(field_ok(req, opt, "under"@, enc_element(*under)));
            lemma_fields_push(req, opt, s1, "under"@, enc_element(*under));
            let s2 = s1.push(("under"@, enc_element(*under)));
            lemma_has_key_push(s1, ("under"@, enc_element(*under)), "base"@);
            lemma_has_key_push(s1, ("under"@, enc_element(*under)), "under"@);
            lemma_element(*over);
            assert(field_ok(req, opt, "over"@, enc_element(*over)));
            lemma_fields_push(req, opt, s2, "over"@, enc_element(*over));
            let s3 = s2.push(("over"@, enc_element(*over)));
            lemma_has_key_push(s2, ("over"@, enc_element(*over)), "base"@);
            lemma_has_key_push(s2, ("over"@, enc_element(*over)), "under"@);
            lemma_has_key_push(s2, ("over"@, enc_element(*over)), "over"@);
            assert(accent ==> field_ok(req, opt, "accent"@, VValue::Bool(true)));
            lemma_fields_with(req, opt, s3, accent, "accent"@, VValue::Bool(true));
            let s4 = with(s3, accent, "accent"@, VValue::Bool(true));
            lemma_has_key_with(s3, accent, "accent"@, VValue::Bool(true), "base"@);
            lemma_has_key_with(s3, accent, "accent"@, VValue::Bool(true), "under"@);
            lemma_has_key_with(s3, accent, "accent"@, VValue::Bool(true), "over"@);
            assert(accent_under ==> field_ok(req, opt, "accent_under"@, VValue::Bool(true)));
            lemma_fields_with(req, opt, s4, accent_under, "accent_under"@, VValue::Bool(true));
            let s5 = with(s4, accent_under, "accent_under"@, VValue::Bool(true));
            lemma_has_key_with(s4, accent_under, "accent_under"@, VValue::Bool(true), "base"@);
            lemma_has_key_with(s4, accent_under, "accent_under"@, VValue::Bool(true), "under"@);
            lemma_has_key_with(s4, accent_under, "accent_under"@, VValue::Bool(true), "over"@);
            assert(has_key(s5, req[0].0));
            assert(has_key(s5, req[1].0));
            assert(has_key(s5, req[2].0));
            assert(node_payload(n)->Record_0 =~= s5);
            assert(conforms(types(), sh, VValue::Record(s5)));
        },
        _ => {},
    }
}

#[verifier::spinoff_prover]
#[verifier::rlimit(100)]
proof fn lemma_payload_multiscript(n: MathElement)
    requires
        n is MultiScript,
    ensures
        conforms(types(), node_shape()->Enum_0[21].1->Some_0, node_payload(n)),
    decreases n, 0nat,
{
    match n {
        MathElement::MultiScript { base, post, pre } => {
            let sh = node_shape()->Enum_0[21].1->Some_0;
            let req = sh->req;
            let opt = sh->opt;
            lemma_payload_multiscript_fields();
            let s0 = Seq::<(Seq<char>, VValue)>::empty();
            assert(conforms_fields(types(), req, opt, s0));
            lemma_element(*base);
            assert(field_ok(req, opt, "base"@, enc_element(*base)));
            lemma_fields_push(req, opt, s0, "base"@, enc_element(*base));
            let s1 = s0.push(("base"@, enc_element(*base)));
            lemma_has_key_push(s0, ("base"@, enc_element(*base)), "base"@);
            if post@.len() > 0 {
                lemma_pairs(post@);
                assert(field_ok(req, opt, "post"@, VValue::Array(enc_pairs(post@))));
            }
            lemma_fields_with(req, opt, s1, post@.len() > 0, "post"@, VValue::Array(enc_pairs(post@)));
            let s2 = with(s1, post@.len() > 0, "post"@, VValue::Array(enc_pairs(post@)));
            lemma_has_key_with(s1, post@.len() > 0, "post"@, VValue::Array(enc_pairs(post@)), "base"@);
            if pre@.len() > 0 {
                lemma_pairs(pre@);
                assert(field_ok(req, opt, "pre"@, VValue::Array(enc_pairs(pre@))));
            }
            lemma_fields_with(req, opt, s2, pre@.len() > 0, "pre"@, VValue::Array(enc_pairs(pre@)));
            let s3 = with(s2, pre@.len() > 0, "pre"@, VValue::Array(enc_pairs(pre@)));
            lemma_has_key_with(s2, pre@.len() > 0, "pre"@, VValue::Array(enc_pairs(pre@)), "base"@);
            assert(has_key(s3, req[0].0));
            assert(node_payload(n)->Record_0 =~= s3);
            assert(conforms(types(), sh, VValue::Record(s3)));
        },
        _ => {},
    }
}

#[verifier::spinoff_prover]
#[verifier::rlimit(100)]
proof fn lemma_payload_table(n: MathElement)
    requires
        n is Table,
    ensures
        conforms(types(), node_shape()->Enum_0[22].1->Some_0, node_payload(n)),
    decreases n, 0nat,
{
    match n {
        MathElement::Table { rows } => {
            let sh = node_shape()->Enum_0[22].1->Some_0;
            let req = sh->req;
            let opt = sh->opt;
            lemma_payload_table_fields();
            let s0 = Seq::<(Seq<char>, VValue)>::empty();
            assert(conforms_fields(types(), req, opt, s0));
            lemma_rows(rows@);
            assert(field_ok(req, opt, "rows"@, VValue::Array(enc_rows(rows@))));
            lemma_fields_push(req, opt, s0, "rows"@, VValue::Array(enc_rows(rows@)));
            let s1 = s0.push(("rows"@, VValue::Array(enc_rows(rows@))));
            lemma_has_key_push(s0, ("rows"@, VValue::Array(enc_rows(rows@))), "rows"@);
            assert(has_key(s1, req[0].0));
            assert(node_payload(n)->Record_0 =~= s1);
            assert(conforms(types(), sh, VValue::Record(s1)));
        },
        _ => {},
    }
}

#[verifier::spinoff_prover]
#[verifier::rlimit(100)]
proof fn lemma_element_record(e: Element)
    ensures
        conforms(types(), element_shape(), enc_element(e)),
    decreases e, 1nat,
{
    let sh = element_shape();
    let req = sh->req;
    let opt = sh->opt;
    lemma_element_record_fields();
    let s0 = Seq::<(Seq<char>, VValue)>::empty();
    assert(conforms_fields(types(), req, opt, s0));
    lemma_node(e.e);
    assert(field_ok(req, opt, "e"@, tagged(node_tag(e.e), node_payload(e.e))));
    lemma_fields_push(req, opt, s0, "e"@, tagged(node_tag(e.e), node_payload(e.e)));
    let s1 = s0.push(("e"@, tagged(node_tag(e.e), node_payload(e.e))));
    lemma_has_key_push(s0, ("e"@, tagged(node_tag(e.e), node_payload(e.e))), "e"@);
    if e.a is Some {
        lemma_attributes_ref(*e.a->0);
        assert(field_ok(req, opt, "a"@, enc_attributes(*e.a->0)));
    }
    lemma_fields_with(req, opt, s1, e.a is Some, "a"@, enc_attributes(*e.a->0));
    let s2 = with(s1, e.a is Some, "a"@, enc_attributes(*e.a->0));
    lemma_has_key_with(s1, e.a is Some, "a"@, enc_attributes(*e.a->0), "e"@);
    assert(has_key(s2, req[0].0));
    assert(enc_element(e)->Record_0 =~= s2);
    assert(conforms(types(), sh, VValue::Record(s2)));
}


proof fn lemma_tagged(alts: Seq<(Seq<char>, Option<VShape>)>, tag: Seq<char>, p: VShape, payload: VValue)
    requires
        lookup(alts, tag) == Some(Some(p)),
        conforms(types(), p, payload),
    ensures
        conforms(types(), VShape::Enum(alts), tagged(tag, payload)),
{
    let es = seq![(tag, payload)];
    assert(es.len() == 1);
    assert(es[0] == (tag, payload));
}

proof fn lemma_node(n: MathElement)
    ensures
        conforms(types(), node_shape(), tagged(node_tag(n), node_payload(n))),
    decreases n, 1nat,
{
    match n {
        MathElement::Op(c) => {
            lemma_node_alt_op();
            assert(seq![c].len() == 1);
            lemma_tagged(node_shape()->Enum_0, "Op"@, node_shape()->Enum_0[0].1->Some_0, node_payload(n));
        },
        MathElement::Oper(o) => {
            lemma_node_alt_oper();
            lemma_operator(o);
            lemma_tagged(node_shape()->Enum_0, "Oper"@, node_shape()->Enum_0[1].1->Some_0, node_payload(n));
        },
        MathElement::ResolvedOper(o) => {
            lemma_node_alt_resolvedoper();
            lemma_resolved_operator(o);
            lemma_tagged(node_shape()->Enum_0, "ResolvedOper"@, node_shape()->Enum_0[2].1->Some_0, node_payload(n));
        },
        MathElement::Text(t) => {
            lemma_node_alt_text();
            lemma_tagged(node_shape()->Enum_0, "Text"@, node_shape()->Enum_0[3].1->Some_0, node_payload(n));
        },
        MathElement::Id { .. } => {
            lemma_node_alt_id();
            lemma_payload_id(n);
            lemma_tagged(node_shape()->Enum_0, "Id"@, node_shape()->Enum_0[4].1->Some_0, node_payload(n));
        },
        MathElement::Num(t) => {
            lemma_node_alt_num();
            lemma_tagged(node_shape()->Enum_0, "Num"@, node_shape()->Enum_0[5].1->Some_0, node_payload(n));
        },
        MathElement::Error(t) => {
            lemma_node_alt_err();
            lemma_tagged(node_shape()->Enum_0, "Err"@, node_shape()->Enum_0[6].1->Some_0, node_payload(n));
        },
        MathElement::Space(s) => {
            lemma_node_alt_space();
            lemma_space(s);
            lemma_tagged(node_shape()->Enum_0, "Space"@, node_shape()->Enum_0[7].1->Some_0, node_payload(n));
        },
        MathElement::Str(t) => {
            lemma_node_alt_str();
            lemma_tagged(node_shape()->Enum_0, "Str"@, node_shape()->Enum_0[8].1->Some_0, node_payload(n));
        },
        MathElement::Phantom(v) => {
            lemma_node_alt_phantom();
            lemma_elems(v@);
            lemma_tagged(node_shape()->Enum_0, "Phantom"@, node_shape()->Enum_0[9].1->Some_0, node_payload(n));
        },
        MathElement::Row(v) => {
            lemma_node_alt_row();
            lemma_elems(v@);
            lemma_tagged(node_shape()->Enum_0, "Row"@, node_shape()->Enum_0[10].1->Some_0, node_payload(n));
        },
        MathElement::Padding(p) => {
            lemma_node_alt_padding();
            lemma_padding(p);
            lemma_tagged(node_shape()->Enum_0, "Padding"@, node_shape()->Enum_0[11].1->Some_0, node_payload(n));
        },
        MathElement::Frac { .. } => {
            lemma_node_alt_frac();
            lemma_payload_frac(n);
            lemma_tagged(node_shape()->Enum_0, "Frac"@, node_shape()->Enum_0[12].1->Some_0, node_payload(n));
        },
        MathElement::Sqrt(b) => {
            lemma_node_alt_sqrt();
            lemma_element(*b);
            lemma_tagged(node_shape()->Enum_0, "Sqrt"@, node_shape()->Enum_0[13].1->Some_0, node_payload(n));
        },
        MathElement::Root { .. } => {
            lemma_node_alt_root();
            lemma_payload_root(n);
            lemma_tagged(node_shape()->Enum_0, "Root"@, node_shape()->Enum_0[14].1->Some_0, node_payload(n));
        },
        MathElement::Sup { .. } => {
            lemma_node_alt_sup();
            lemma_payload_sup(n);
            lemma_tagged(node_shape()->Enum_0, "Sup"@, node_shape()->Enum_0[15].1->Some_0, node_payload(n));
        },
        MathElement::Sub { .. } => {
            lemma_node_alt_sub();
            lemma_payload_sub(n);
            lemma_tagged(node_shape()->Enum_0, "Sub"@, node_shape()->Enum_0[16].1->Some_0, node_payload(n));
        },
        MathElement::SubSup { .. } => {
            lemma_node_alt_subsup();
            lemma_payload_subsup(n);
            lemma_tagged(node_shape()->Enum_0, "SubSup"@, node_shape()->Enum_0[17].1->Some_0, node_payload(n));
        },
        MathElement::Over { .. } => {
            lemma_node_alt_over();
            lemma_payload_over(n);
            lemma_tagged(node_shape()->Enum_0, "Over"@, node_shape()->Enum_0[18].1->Some_0, node_payload(n));
        },
        MathElement::Under { .. } => {
            lemma_node_alt_under();
            lemma_payload_under(n);
            lemma_tagged(node_shape()->Enum_0, "Under"@, node_shape()->Enum_0[19].1->Some_0, node_payload(n));
        },
        MathElement::UnderOver { .. } => {
            lemma_node_alt_underover();
            lemma_payload_underover(n);
            lemma_tagged(node_shape()->Enum_0, "UnderOver"@, node_shape()->Enum_0[20].1->Some_0, node_payload(n));
        },
        MathElement::MultiScript { .. } => {
            lemma_node_alt_multiscript();
            lemma_payload_multiscript(n);
            lemma_tagged(node_shape()->Enum_0, "MultiScript"@, node_shape()->Enum_0[21].1->Some_0, node_payload(n));
        },
        MathElement::Table { .. } => {
            lemma_node_alt_table();
            lemma_payload_table(n);
            lemma_tagged(node_shape()->Enum_0, "Table"@, node_shape()->Enum_0[22].1->Some_0, node_payload(n));
        },
    }
}

proof fn lemma_element(e: Element)
    ensures
        conforms(types(), VShape::Ref("Element"@), enc_element(e)),
    decreases e, 2nat,
{
    lemma_type_lookups();
    lemma_element_record(e);
}

proof fn lemma_pair_ref(p: Pair)
    ensures
        conforms(types(), VShape::Ref("Pair"@), enc_pair(p)),
    decreases p, 1nat,
{
    lemma_type_lookups();
    lemma_pair(p);
}

proof fn lemma_cell_ref(c: TableCell)
    ensures
        conforms(types(), VShape::Ref("TableCell"@), enc_cell(c)),
    decreases c, 1nat,
{
    lemma_type_lookups();
    lemma_cell(c);
}
proof fn lemma_elems_items(s: Seq<Element>)
    ensures
        conforms_items(types(), VShape::Ref("Element"@), enc_elems(s)),
    decreases s, 0nat,
{
    if s.len() > 0 {
        lemma_elems_items(s.drop_last());
        lemma_element(s[s.len() - 1]);
        let e = enc_elems(s);
        assert(e.drop_last() =~= enc_elems(s.drop_last()));
        assert(e.len() > 0);
    }
}

proof fn lemma_elems(s: Seq<Element>)
    ensures
        conforms(types(), VShape::Array(Box::new(VShape::Ref("Element"@))), VValue::Array(enc_elems(s))),
    decreases s, 1nat,
{
    lemma_elems_items(s);
}
proof fn lemma_pairs_items(s: Seq<Pair>)
    ensures
        conforms_items(types(), VShape::Ref("Pair"@), enc_pairs(s)),
    decreases s, 0nat,
{
    if s.len() > 0 {
        lemma_pairs_items(s.drop_last());
        lemma_pair_ref(s[s.len() - 1]);
        let e = enc_pairs(s);
        assert(e.drop_last() =~= enc_pairs(s.drop_last()));
        assert(e.len() > 0);
    }
}

proof fn lemma_pairs(s: Seq<Pair>)
    ensures
        conforms(types(), VShape::Array(Box::new(VShape::Ref("Pair"@))), VValue::Array(enc_pairs(s))),
    decreases s, 1nat,
{
    lemma_pairs_items(s);
}
proof fn lemma_cells_items(s: Seq<TableCell>)
    ensures
        conforms_items(types(), VShape::Ref("TableCell"@), enc_cells(s)),
    decreases s, 0nat,
{
    if s.len() > 0 {
        lemma_cells_items(s.drop_last());
        lemma_cell_ref(s[s.len() - 1]);
        let e = enc_cells(s);
        assert(e.drop_last() =~= enc_cells(s.drop_last()));
        assert(e.len() > 0);
    }
}

proof fn lemma_cells(s: Seq<TableCell>)
    ensures
        conforms(types(), VShape::Array(Box::new(VShape::Ref("TableCell"@))), VValue::Array(enc_cells(s))),
    decreases s, 1nat,
{
    lemma_cells_items(s);
}
proof fn lemma_rows_items(s: Seq<TableRow>)
    ensures
        conforms_items(types(), table_row_shape(), enc_rows(s)),
    decreases s, 0nat,
{
    if s.len() > 0 {
        lemma_rows_items(s.drop_last());
        lemma_row(s[s.len() - 1]);
        let e = enc_rows(s);
        assert(e.drop_last() =~= enc_rows(s.drop_last()));
        assert(e.len() > 0);
    }
}

proof fn lemma_rows(s: Seq<TableRow>)
    ensures
        conforms(types(), VShape::Array(Box::new(table_row_shape())), VValue::Array(enc_rows(s))),
    decreases s, 1nat,
{
    lemma_rows_items(s);
}

/// Schema soundness: every document tree, encoded with its defaults left out,
/// is a valid document of the math schema.
pub proof fn lemma_schema_soundness(e: Element)
    ensures
        valid_document(enc_element(e)),
{
    lemma_element(e);
    reveal(types);
}

} // verus!
