//! The math schema: the exact structural rules that an encoded document
//! tree satisfies, as a registry of named, mutually recursive type fragments.
use vstd::prelude::*;
use vstd::string::*;
use crate::check::check;
use crate::value::{VValue, Value};
use crate::shape::{
    Shape, VShape, conforms, no_alts, no_fields, push_alt, push_field, push_name, ref_to, view_alts,
    view_fields, view_names,
};

verus! {

/// The three forms of an operator.
pub open spec fn op_form_shape() -> VShape {
    VShape::Enum(seq![("Prefix"@, None), ("Postfix"@, None), ("Infix"@, None)])
}

fn build_op_form_shape() -> (r: Shape)
    ensures
        r@ == op_form_shape(),
{
    let mut alts1 = no_alts();
    push_alt(&mut alts1, "Prefix", None);
    push_alt(&mut alts1, "Postfix", None);
    push_alt(&mut alts1, "Infix", None);
    assert(view_alts(alts1@) =~= VShape::Enum(seq![("Prefix"@, None), ("Postfix"@, None), ("Infix"@, None)])->Enum_0);
    Shape::Enum(alts1)
}

/// Global element attributes; every field may be left out.
pub open spec fn attributes_shape() -> VShape {
    VShape::Record { req: seq![], opt: seq![("class"@, VShape::Array(Box::new(VShape::Str))), ("rtl"@, VShape::Bool), ("display_style"@, VShape::Bool), ("variant"@, VShape::OneOf(seq!["Normal"@, "Bold"@, "Italic"@, "BoldItalic"@, "DoubleStruck"@, "BoldFraktur"@, "Script"@, "BoldScript"@, "Fraktur"@, "SansSerif"@, "BoldSansSerif"@, "SansSerifItalic"@, "SansSerifBoldItalic"@, "Monospace"@, "Initial"@, "Tailed"@, "Looped"@, "Stretched"@])), ("script_level"@, VShape::Enum(seq![("Set"@, Some(VShape::Int { min: 0, max: 4294967295 })), ("Add"@, Some(VShape::Int { min: -2147483648, max: 2147483647 }))])), ("data"@, VShape::Dict(Box::new(VShape::Any)))] }
}

fn build_attributes_shape() -> (r: Shape)
    ensures
        r@ == attributes_shape(),
{
    let mut fields2 = no_fields();
    let mut fields3 = no_fields();
    let item4 = Shape::Str;
    assert(item4@ == VShape::Str);
    push_field(&mut fields3, "class", Shape::Array(Box::new(item4)));
    push_field(&mut fields3, "rtl", Shape::Bool);
    push_field(&mut fields3, "display_style", Shape::Bool);
    let mut names5: Vec<Vec<char>> = Vec::new();
    assert(view_names(names5@) =~= Seq::empty());
    push_name(&mut names5, "Normal");
    push_name(&mut names5, "Bold");
    push_name(&mut names5, "Italic");
    push_name(&mut names5, "BoldItalic");
    push_name(&mut names5, "DoubleStruck");
    push_name(&mut names5, "BoldFraktur");
    push_name(&mut names5, "Script");
    push_name(&mut names5, "BoldScript");
    push_name(&mut names5, "Fraktur");
    push_name(&mut names5, "SansSerif");
    push_name(&mut names5, "BoldSansSerif");
    push_name(&mut names5, "SansSerifItalic");
    push_name(&mut names5, "SansSerifBoldItalic");
    push_name(&mut names5, "Monospace");
    push_name(&mut names5, "Initial");
    push_name(&mut names5, "Tailed");
    push_name(&mut names5, "Looped");
    push_name(&mut names5, "Stretched");
    assert(view_names(names5@) =~= VShape::OneOf(seq!["Normal"@, "Bold"@, "Italic"@, "BoldItalic"@, "DoubleStruck"@, "BoldFraktur"@, "Script"@, "BoldScript"@, "Fraktur"@, "SansSerif"@, "BoldSansSerif"@, "SansSerifItalic"@, "SansSerifBoldItalic"@, "Monospace"@, "Initial"@, "Tailed"@, "Looped"@, "Stretched"@])->OneOf_0);
    push_field(&mut fields3, "variant", Shape::OneOf(names5));
    let mut alts6 = no_alts();
    push_alt(&mut alts6, "Set", Some(Shape::Int { min: 0, max: 4294967295 }));
    push_alt(&mut alts6, "Add", Some(Shape::Int { min: -2147483648, max: 2147483647 }));
    assert(view_alts(alts6@) =~= VShape::Enum(seq![("Set"@, Some(VShape::Int { min: 0, max: 4294967295 })), ("Add"@, Some(VShape::Int { min: -2147483648, max: 2147483647 }))])->Enum_0);
    push_field(&mut fields3, "script_level", Shape::Enum(alts6));
    let item7 = Shape::Any;
    assert(item7@ == VShape::Any);
    push_field(&mut fields3, "data", Shape::Dict(Box::new(item7)));
    assert(view_fields(fields2@) =~= VShape::Record { req: seq![], opt: seq![("class"@, VShape::Array(Box::new(VShape::Str))), ("rtl"@, VShape::Bool), ("display_style"@, VShape::Bool), ("variant"@, VShape::OneOf(seq!["Normal"@, "Bold"@, "Italic"@, "BoldItalic"@, "DoubleStruck"@, "BoldFraktur"@, "Script"@, "BoldScript"@, "Fraktur"@, "SansSerif"@, "BoldSansSerif"@, "SansSerifItalic"@, "SansSerifBoldItalic"@, "Monospace"@, "Initial"@, "Tailed"@, "Looped"@, "Stretched"@])), ("script_level"@, VShape::Enum(seq![("Set"@, Some(VShape::Int { min: 0, max: 4294967295 })), ("Add"@, Some(VShape::Int { min: -2147483648, max: 2147483647 }))])), ("data"@, VShape::Dict(Box::new(VShape::Any)))] }->req);
    assert(view_fields(fields3@) =~= VShape::Record { req: seq![], opt: seq![("class"@, VShape::Array(Box::new(VShape::Str))), ("rtl"@, VShape::Bool), ("display_style"@, VShape::Bool), ("variant"@, VShape::OneOf(seq!["Normal"@, "Bold"@, "Italic"@, "BoldItalic"@, "DoubleStruck"@, "BoldFraktur"@, "Script"@, "BoldScript"@, "Fraktur"@, "SansSerif"@, "BoldSansSerif"@, "SansSerifItalic"@, "SansSerifBoldItalic"@, "Monospace"@, "Initial"@, "Tailed"@, "Looped"@, "Stretched"@])), ("script_level"@, VShape::Enum(seq![("Set"@, Some(VShape::Int { min: 0, max: 4294967295 })), ("Add"@, Some(VShape::Int { min: -2147483648, max: 2147483647 }))])), ("data"@, VShape::Dict(Box::new(VShape::Any)))] }->opt);
    Shape::Record { req: fields2, opt: fields3 }
}

/// A font-relative length.
pub open spec fn length_shape() -> VShape {
    VShape::Enum(seq![("Em"@, Some(VShape::F32)), ("Ex"@, Some(VShape::F32))])
}

fn build_length_shape() -> (r: Shape)
    ensures
        r@ == length_shape(),
{
    let mut alts8 = no_alts();
    push_alt(&mut alts8, "Em", Some(Shape::F32));
    push_alt(&mut alts8, "Ex", Some(Shape::F32));
    assert(view_alts(alts8@) =~= VShape::Enum(seq![("Em"@, Some(VShape::F32)), ("Ex"@, Some(VShape::F32))])->Enum_0);
    Shape::Enum(alts8)
}

/// A font-relative length or a fraction of another length.
pub open spec fn length_or_fraction_shape() -> VShape {
    VShape::Enum(seq![("Em"@, Some(VShape::F32)), ("Ex"@, Some(VShape::F32)), ("Frac"@, Some(VShape::F32))])
}

fn build_length_or_fraction_shape() -> (r: Shape)
    ensures
        r@ == length_or_fraction_shape(),
{
    let mut alts9 = no_alts();
    push_alt(&mut alts9, "Em", Some(Shape::F32));
    push_alt(&mut alts9, "Ex", Some(Shape::F32));
    push_alt(&mut alts9, "Frac", Some(Shape::F32));
    assert(view_alts(alts9@) =~= VShape::Enum(seq![("Em"@, Some(VShape::F32)), ("Ex"@, Some(VShape::F32)), ("Frac"@, Some(VShape::F32))])->Enum_0);
    Shape::Enum(alts9)
}

/// A superscript and subscript pair.
pub open spec fn pair_shape() -> VShape {
    VShape::Record { req: seq![("sup"@, VShape::Ref("Element"@)), ("sub"@, VShape::Ref("Element"@))], opt: seq![] }
}

fn build_pair_shape() -> (r: Shape)
    ensures
        r@ == pair_shape(),
{
    let mut fields10 = no_fields();
    push_field(&mut fields10, "sup", ref_to("Element"));
    push_field(&mut fields10, "sub", ref_to("Element"));
    let mut fields11 = no_fields();
    assert(view_fields(fields10@) =~= VShape::Record { req: seq![("sup"@, VShape::Ref("Element"@)), ("sub"@, VShape::Ref("Element"@))], opt: seq![] }->req);
    assert(view_fields(fields11@) =~= VShape::Record { req: seq![("sup"@, VShape::Ref("Element"@)), ("sub"@, VShape::Ref("Element"@))], opt: seq![] }->opt);
    Shape::Record { req: fields10, opt: fields11 }
}

/// An operator: its character is required, every property may be left out.
pub open spec fn operator_shape() -> VShape {
    VShape::Record { req: seq![("t"@, VShape::Char)], opt: seq![("form"@, VShape::Ref("OpForm"@)), ("max_size"@, VShape::Ref("LengthOrFraction"@)), ("min_size"@, VShape::Ref("LengthOrFraction"@)), ("lspace"@, VShape::Ref("LengthOrFraction"@)), ("rspace"@, VShape::Ref("LengthOrFraction"@)), ("stretchy"@, VShape::Bool), ("symmetric"@, VShape::Bool), ("large_op"@, VShape::Bool), ("movable_limits"@, VShape::Bool), ("separator"@, VShape::Bool), ("fence"@, VShape::Bool)] }
}

fn build_operator_shape() -> (r: Shape)
    ensures
        r@ == operator_shape(),
{
    let mut fields12 = no_fields();
    push_field(&mut fields12, "t", Shape::Char);
    let mut fields13 = no_fields();
    push_field(&mut fields13, "form", ref_to("OpForm"));
    push_field(&mut fields13, "max_size", ref_to("LengthOrFraction"));
    push_field(&mut fields13, "min_size", ref_to("LengthOrFraction"));
    push_field(&mut fields13, "lspace", ref_to("LengthOrFraction"));
    push_field(&mut fields13, "rspace", ref_to("LengthOrFraction"));
    push_field(&mut fields13, "stretchy", Shape::Bool);
    push_field(&mut fields13, "symmetric", Shape::Bool);
    push_field(&mut fields13, "large_op", Shape::Bool);
    push_field(&mut fields13, "movable_limits", Shape::Bool);
    push_field(&mut fields13, "separator", Shape::Bool);
    push_field(&mut fields13, "fence", Shape::Bool);
    assert(view_fields(fields12@) =~= VShape::Record { req: seq![("t"@, VShape::Char)], opt: seq![("form"@, VShape::Ref("OpForm"@)), ("max_size"@, VShape::Ref("LengthOrFraction"@)), ("min_size"@, VShape::Ref("LengthOrFraction"@)), ("lspace"@, VShape::Ref("LengthOrFraction"@)), ("rspace"@, VShape::Ref("LengthOrFraction"@)), ("stretchy"@, VShape::Bool), ("symmetric"@, VShape::Bool), ("large_op"@, VShape::Bool), ("movable_limits"@, VShape::Bool), ("separator"@, VShape::Bool), ("fence"@, VShape::Bool)] }->req);
    assert(view_fields(fields13@) =~= VShape::Record { req: seq![("t"@, VShape::Char)], opt: seq![("form"@, VShape::Ref("OpForm"@)), ("max_size"@, VShape::Ref("LengthOrFraction"@)), ("min_size"@, VShape::Ref("LengthOrFraction"@)), ("lspace"@, VShape::Ref("LengthOrFraction"@)), ("rspace"@, VShape::Ref("LengthOrFraction"@)), ("stretchy"@, VShape::Bool), ("symmetric"@, VShape::Bool), ("large_op"@, VShape::Bool), ("movable_limits"@, VShape::Bool), ("separator"@, VShape::Bool), ("fence"@, VShape::Bool)] }->opt);
    Shape::Record { req: fields12, opt: fields13 }
}

/// A resolved operator: every property is required.
pub open spec fn resolved_operator_shape() -> VShape {
    VShape::Record { req: seq![("t"@, VShape::Char), ("form"@, VShape::Ref("OpForm"@)), ("max_size"@, VShape::Ref("Length"@)), ("min_size"@, VShape::Ref("Length"@)), ("lspace"@, VShape::Ref("Length"@)), ("rspace"@, VShape::Ref("Length"@)), ("stretchy"@, VShape::Bool), ("symmetric"@, VShape::Bool), ("large_op"@, VShape::Bool), ("movable_limits"@, VShape::Bool), ("separator"@, VShape::Bool), ("fence"@, VShape::Bool)], opt: seq![] }
}

fn build_resolved_operator_shape() -> (r: Shape)
    ensures
        r@ == resolved_operator_shape(),
{
    let mut fields14 = no_fields();
    push_field(&mut fields14, "t", Shape::Char);
    push_field(&mut fields14, "form", ref_to("OpForm"));
    push_field(&mut fields14, "max_size", ref_to("Length"));
    push_field(&mut fields14, "min_size", ref_to("Length"));
    push_field(&mut fields14, "lspace", ref_to("Length"));
    push_field(&mut fields14, "rspace", ref_to("Length"));
    push_field(&mut fields14, "stretchy", Shape::Bool);
    push_field(&mut fields14, "symmetric", Shape::Bool);
    push_field(&mut fields14, "large_op", Shape::Bool);
    push_field(&mut fields14, "movable_limits", Shape::Bool);
    push_field(&mut fields14, "separator", Shape::Bool);
    push_field(&mut fields14, "fence", Shape::Bool);
    let mut fields15 = no_fields();
    assert(view_fields(fields14@) =~= VShape::Record { req: seq![("t"@, VShape::Char), ("form"@, VShape::Ref("OpForm"@)), ("max_size"@, VShape::Ref("Length"@)), ("min_size"@, VShape::Ref("Length"@)), ("lspace"@, VShape::Ref("Length"@)), ("rspace"@, VShape::Ref("Length"@)), ("stretchy"@, VShape::Bool), ("symmetric"@, VShape::Bool), ("large_op"@, VShape::Bool), ("movable_limits"@, VShape::Bool), ("separator"@, VShape::Bool), ("fence"@, VShape::Bool)], opt: seq![] }->req);
    assert(view_fields(fields15@) =~= VShape::Record { req: seq![("t"@, VShape::Char), ("form"@, VShape::Ref("OpForm"@)), ("max_size"@, VShape::Ref("Length"@)), ("min_size"@, VShape::Ref("Length"@)), ("lspace"@, VShape::Ref("Length"@)), ("rspace"@, VShape::Ref("Length"@)), ("stretchy"@, VShape::Bool), ("symmetric"@, VShape::Bool), ("large_op"@, VShape::Bool), ("movable_limits"@, VShape::Bool), ("separator"@, VShape::Bool), ("fence"@, VShape::Bool)], opt: seq![] }->opt);
    Shape::Record { req: fields14, opt: fields15 }
}

/// A blank space.
pub open spec fn space_shape() -> VShape {
    VShape::Record { req: seq![], opt: seq![("width"@, VShape::Ref("Length"@)), ("height"@, VShape::Ref("Length"@)), ("depth"@, VShape::Ref("Length"@))] }
}

fn build_space_shape() -> (r: Shape)
    ensures
        r@ == space_shape(),
{
    let mut fields16 = no_fields();
    let mut fields17 = no_fields();
    push_field(&mut fields17, "width", ref_to("Length"));
    push_field(&mut fields17, "height", ref_to("Length"));
    push_field(&mut fields17, "depth", ref_to("Length"));
    assert(view_fields(fields16@) =~= VShape::Record { req: seq![], opt: seq![("width"@, VShape::Ref("Length"@)), ("height"@, VShape::Ref("Length"@)), ("depth"@, VShape::Ref("Length"@))] }->req);
    assert(view_fields(fields17@) =~= VShape::Record { req: seq![], opt: seq![("width"@, VShape::Ref("Length"@)), ("height"@, VShape::Ref("Length"@)), ("depth"@, VShape::Ref("Length"@))] }->opt);
    Shape::Record { req: fields16, opt: fields17 }
}

/// Padding around elements.
pub open spec fn padding_shape() -> VShape {
    VShape::Record { req: seq![], opt: seq![("elems"@, VShape::Array(Box::new(VShape::Ref("Element"@)))), ("width"@, VShape::Ref("Length"@)), ("height"@, VShape::Ref("Length"@)), ("depth"@, VShape::Ref("Length"@)), ("lspace"@, VShape::Ref("Length"@)), ("voffset"@, VShape::Ref("Length"@))] }
}

fn build_padding_shape() -> (r: Shape)
    ensures
        r@ == padding_shape(),
{
    let mut fields18 = no_fields();
    let mut fields19 = no_fields();
    let item20 = ref_to("Element");
    assert(item20@ == VShape::Ref("Element"@));
    push_field(&mut fields19, "elems", Shape::Array(Box::new(item20)));
    push_field(&mut fields19, "width", ref_to("Length"));
    push_field(&mut fields19, "height", ref_to("Length"));
    push_field(&mut fields19, "depth", ref_to("Length"));
    push_field(&mut fields19, "lspace", ref_to("Length"));
    push_field(&mut fields19, "voffset", ref_to("Length"));
    assert(view_fields(fields18@) =~= VShape::Record { req: seq![], opt: seq![("elems"@, VShape::Array(Box::new(VShape::Ref("Element"@)))), ("width"@, VShape::Ref("Length"@)), ("height"@, VShape::Ref("Length"@)), ("depth"@, VShape::Ref("Length"@)), ("lspace"@, VShape::Ref("Length"@)), ("voffset"@, VShape::Ref("Length"@))] }->req);
    assert(view_fields(fields19@) =~= VShape::Record { req: seq![], opt: seq![("elems"@, VShape::Array(Box::new(VShape::Ref("Element"@)))), ("width"@, VShape::Ref("Length"@)), ("height"@, VShape::Ref("Length"@)), ("depth"@, VShape::Ref("Length"@)), ("lspace"@, VShape::Ref("Length"@)), ("voffset"@, VShape::Ref("Length"@))] }->opt);
    Shape::Record { req: fields18, opt: fields19 }
}

/// A row of a table.
pub open spec fn table_row_shape() -> VShape {
    VShape::Record { req: seq![], opt: seq![("a"@, VShape::Ref("Attributes"@)), ("cells"@, VShape::Array(Box::new(VShape::Ref("TableCell"@))))] }
}

fn build_table_row_shape() -> (r: Shape)
    ensures
        r@ == table_row_shape(),
{
    let mut fields21 = no_fields();
    let mut fields22 = no_fields();
    push_field(&mut fields22, "a", ref_to("Attributes"));
    let item23 = ref_to("TableCell");
    assert(item23@ == VShape::Ref("TableCell"@));
    push_field(&mut fields22, "cells", Shape::Array(Box::new(item23)));
    assert(view_fields(fields21@) =~= VShape::Record { req: seq![], opt: seq![("a"@, VShape::Ref("Attributes"@)), ("cells"@, VShape::Array(Box::new(VShape::Ref("TableCell"@))))] }->req);
    assert(view_fields(fields22@) =~= VShape::Record { req: seq![], opt: seq![("a"@, VShape::Ref("Attributes"@)), ("cells"@, VShape::Array(Box::new(VShape::Ref("TableCell"@))))] }->opt);
    Shape::Record { req: fields21, opt: fields22 }
}

/// A cell of a table; a span of 1 may be left out.
pub open spec fn table_cell_shape() -> VShape {
    VShape::Record { req: seq![], opt: seq![("col_span"@, VShape::Int { min: 0, max: 4294967295 }), ("row_span"@, VShape::Int { min: 0, max: 4294967295 }), ("elems"@, VShape::Array(Box::new(VShape::Ref("Element"@)))), ("a"@, VShape::Ref("Attributes"@))] }
}

fn build_table_cell_shape() -> (r: Shape)
    ensures
        r@ == table_cell_shape(),
{
    let mut fields24 = no_fields();
    let mut fields25 = no_fields();
    push_field(&mut fields25, "col_span", Shape::Int { min: 0, max: 4294967295 });
    push_field(&mut fields25, "row_span", Shape::Int { min: 0, max: 4294967295 });
    let item26 = ref_to("Element");
    assert(item26@ == VShape::Ref("Element"@));
    push_field(&mut fields25, "elems", Shape::Array(Box::new(item26)));
    push_field(&mut fields25, "a", ref_to("Attributes"));
    assert(view_fields(fields24@) =~= VShape::Record { req: seq![], opt: seq![("col_span"@, VShape::Int { min: 0, max: 4294967295 }), ("row_span"@, VShape::Int { min: 0, max: 4294967295 }), ("elems"@, VShape::Array(Box::new(VShape::Ref("Element"@)))), ("a"@, VShape::Ref("Attributes"@))] }->req);
    assert(view_fields(fields25@) =~= VShape::Record { req: seq![], opt: seq![("col_span"@, VShape::Int { min: 0, max: 4294967295 }), ("row_span"@, VShape::Int { min: 0, max: 4294967295 }), ("elems"@, VShape::Array(Box::new(VShape::Ref("Element"@)))), ("a"@, VShape::Ref("Attributes"@))] }->opt);
    Shape::Record { req: fields24, opt: fields25 }
}

/// The alternatives of a node.
pub open spec fn node_shape() -> VShape {
    VShape::Enum(seq![("Op"@, Some(VShape::Char)), ("Oper"@, Some(operator_shape())), ("ResolvedOper"@, Some(resolved_operator_shape())), ("Text"@, Some(VShape::Str)), ("Id"@, Some(VShape::Record { req: seq![("t"@, VShape::Str)], opt: seq![("normal"@, VShape::Bool)] })), ("Num"@, Some(VShape::Str)), ("Err"@, Some(VShape::Str)), ("Space"@, Some(space_shape())), ("Str"@, Some(VShape::Str)), ("Phantom"@, Some(VShape::Array(Box::new(VShape::Ref("Element"@))))), ("Row"@, Some(VShape::Array(Box::new(VShape::Ref("Element"@))))), ("Padding"@, Some(padding_shape())), ("Frac"@, Some(VShape::Record { req: seq![("num"@, VShape::Ref("Element"@)), ("den"@, VShape::Ref("Element"@))], opt: seq![("line_thickness"@, VShape::F32)] })), ("Sqrt"@, Some(VShape::Ref("Element"@))), ("Root"@, Some(VShape::Record { req: seq![("base"@, VShape::Ref("Element"@)), ("index"@, VShape::Ref("Element"@))], opt: seq![] })), ("Sup"@, Some(VShape::Record { req: seq![("base"@, VShape::Ref("Element"@)), ("sup"@, VShape::Ref("Element"@))], opt: seq![] })), ("Sub"@, Some(VShape::Record { req: seq![("base"@, VShape::Ref("Element"@)), ("sub"@, VShape::Ref("Element"@))], opt: seq![] })), ("SubSup"@, Some(VShape::Record { req: seq![("base"@, VShape::Ref("Element"@)), ("sub"@, VShape::Ref("Element"@)), ("sup"@, VShape::Ref("Element"@))], opt: seq![] })), ("Over"@, Some(VShape::Record { req: seq![("base"@, VShape::Ref("Element"@)), ("over"@, VShape::Ref("Element"@))], opt: seq![("accent"@, VShape::Bool)] })), ("Under"@, Some(VShape::Record { req: seq![("base"@, VShape::Ref("Element"@)), ("under"@, VShape::Ref("Element"@))], opt: seq![("accent_under"@, VShape::Bool)] })), ("UnderOver"@, Some(VShape::Record { req: seq![("base"@, VShape::Ref("Element"@)), ("under"@, VShape::Ref("Element"@)), ("over"@, VShape::Ref("Element"@))], opt: seq![("accent"@, VShape::Bool), ("accent_under"@, VShape::Bool)] })), ("MultiScript"@, Some(VShape::Record { req: seq![("base"@, VShape::Ref("Element"@))], opt: seq![("post"@, VShape::Array(Box::new(VShape::Ref("Pair"@)))), ("pre"@, VShape::Array(Box::new(VShape::Ref("Pair"@))))] })), ("Table"@, Some(VShape::Record { req: seq![("rows"@, VShape::Array(Box::new(table_row_shape())))], opt: seq![] }))])
}

fn build_node_shape() -> (r: Shape)
    ensures
        r@ == node_shape(),
{
    let mut alts27 = no_alts();
    push_alt(&mut alts27, "Op", Some(Shape::Char));
    push_alt(&mut alts27, "Oper", Some(build_operator_shape()));
    push_alt(&mut alts27, "ResolvedOper", Some(build_resolved_operator_shape()));
    push_alt(&mut alts27, "Text", Some(Shape::Str));
    let mut fields28 = no_fields();
    push_field(&mut fields28, "t", Shape::Str);
    let mut fields29 = no_fields();
    push_field(&mut fields29, "normal", Shape::Bool);
    assert(view_fields(fields28@) =~= VShape::Record { req: seq![("t"@, VShape::Str)], opt: seq![("normal"@, VShape::Bool)] }->req);
    assert(view_fields(fields29@) =~= VShape::Record { req: seq![("t"@, VShape::Str)], opt: seq![("normal"@, VShape::Bool)] }->opt);
    push_alt(&mut alts27, "Id", Some(Shape::Record { req: fields28, opt: fields29 }));
    push_alt(&mut alts27, "Num", Some(Shape::Str));
    push_alt(&mut alts27, "Err", Some(Shape::Str));
    push_alt(&mut alts27, "Space", Some(build_space_shape()));
    push_alt(&mut alts27, "Str", Some(Shape::Str));
    let item30 = ref_to("Element");
    assert(item30@ == VShape::Ref("Element"@));
    push_alt(&mut alts27, "Phantom", Some(Shape::Array(Box::new(item30))));
    let item31 = ref_to("Element");
    assert(item31@ == VShape::Ref("Element"@));
    push_alt(&mut alts27, "Row", Some(Shape::Array(Box::new(item31))));
    push_alt(&mut alts27, "Padding", Some(build_padding_shape()));
    let mut fields32 = no_fields();
    push_field(&mut fields32, "num", ref_to("Element"));
    push_field(&mut fields32, "den", ref_to("Element"));
    let mut fields33 = no_fields();
    push_field(&mut fields33, "line_thickness", Shape::F32);
    assert(view_fields(fields32@) =~= VShape::Record { req: seq![("num"@, VShape::Ref("Element"@)), ("den"@, VShape::Ref("Element"@))], opt: seq![("line_thickness"@, VShape::F32)] }->req);
    assert(view_fields(fields33@) =~= VShape::Record { req: seq![("num"@, VShape::Ref("Element"@)), ("den"@, VShape::Ref("Element"@))], opt: seq![("line_thickness"@, VShape::F32)] }->opt);
    push_alt(&mut alts27, "Frac", Some(Shape::Record { req: fields32, opt: fields33 }));
    push_alt(&mut alts27, "Sqrt", Some(ref_to("Element")));
    let mut fields34 = no_fields();
    push_field(&mut fields34, "base", ref_to("Element"));
    push_field(&mut fields34, "index", ref_to("Element"));
    let mut fields35 = no_fields();
    assert(view_fields(fields34@) =~= VShape::Record { req: seq![("base"@, VShape::Ref("Element"@)), ("index"@, VShape::Ref("Element"@))], opt: seq![] }->req);
    assert(view_fields(fields35@) =~= VShape::Record { req: seq![("base"@, VShape::Ref("Element"@)), ("index"@, VShape::Ref("Element"@))], opt: seq![] }->opt);
    push_alt(&mut alts27, "Root", Some(Shape::Record { req: fields34, opt: fields35 }));
    let mut fields36 = no_fields();
    push_field(&mut fields36, "base", ref_to("Element"));
    push_field(&mut fields36, "sup", ref_to("Element"));
    let mut fields37 = no_fields();
    assert(view_fields(fields36@) =~= VShape::Record { req: seq![("base"@, VShape::Ref("Element"@)), ("sup"@, VShape::Ref("Element"@))], opt: seq![] }->req);
    assert(view_fields(fields37@) =~= VShape::Record { req: seq![("base"@, VShape::Ref("Element"@)), ("sup"@, VShape::Ref("Element"@))], opt: seq![] }->opt);
    push_alt(&mut alts27, "Sup", Some(Shape::Record { req: fields36, opt: fields37 }));
    let mut fields38 = no_fields();
    push_field(&mut fields38, "base", ref_to("Element"));
    push_field(&mut fields38, "sub", ref_to("Element"));
    let mut fields39 = no_fields();
    assert(view_fields(fields38@) =~= VShape::Record { req: seq![("base"@, VShape::Ref("Element"@)), ("sub"@, VShape::Ref("Element"@))], opt: seq![] }->req);
    assert(view_fields(fields39@) =~= VShape::Record { req: seq![("base"@, VShape::Ref("Element"@)), ("sub"@, VShape::Ref("Element"@))], opt: seq![] }->opt);
    push_alt(&mut alts27, "Sub", Some(Shape::Record { req: fields38, opt: fields39 }));
    let mut fields40 = no_fields();
    push_field(&mut fields40, "base", ref_to("Element"));
    push_field(&mut fields40, "sub", ref_to("Element"));
    push_field(&mut fields40, "sup", ref_to("Element"));
    let mut fields41 = no_fields();
    assert(view_fields(fields40@) =~= VShape::Record { req: seq![("base"@, VShape::Ref("Element"@)), ("sub"@, VShape::Ref("Element"@)), ("sup"@, VShape::Ref("Element"@))], opt: seq![] }->req);
    assert(view_fields(fields41@) =~= VShape::Record { req: seq![("base"@, VShape::Ref("Element"@)), ("sub"@, VShape::Ref("Element"@)), ("sup"@, VShape::Ref("Element"@))], opt: seq![] }->opt);
    push_alt(&mut alts27, "SubSup", Some(Shape::Record { req: fields40, opt: fields41 }));
    let mut fields42 = no_fields();
    push_field(&mut fields42, "base", ref_to("Element"));
    push_field(&mut fields42, "over", ref_to("Element"));
    let mut fields43 = no_fields();
    push_field(&mut fields43, "accent", Shape::Bool);
    assert(view_fields(fields42@) =~= VShape::Record { req: seq![("base"@, VShape::Ref("Element"@)), ("over"@, VShape::Ref("Element"@))], opt: seq![("accent"@, VShape::Bool)] }->req);
    assert(view_fields(fields43@) =~= VShape::Record { req: seq![("base"@, VShape::Ref("Element"@)), ("over"@, VShape::Ref("Element"@))], opt: seq![("accent"@, VShape::Bool)] }->opt);
    push_alt(&mut alts27, "Over", Some(Shape::Record { req: fields42, opt: fields43 }));
    let mut fields44 = no_fields();
    push_field(&mut fields44, "base", ref_to("Element"));
    push_field(&mut fields44, "under", ref_to("Element"));
    let mut fields45 = no_fields();
    push_field(&mut fields45, "accent_under", Shape::Bool);
    assert(view_fields(fields44@) =~= VShape::Record { req: seq![("base"@, VShape::Ref("Element"@)), ("under"@, VShape::Ref("Element"@))], opt: seq![("accent_under"@, VShape::Bool)] }->req);
    assert(view_fields(fields45@) =~= VShape::Record { req: seq![("base"@, VShape::Ref("Element"@)), ("under"@, VShape::Ref("Element"@))], opt: seq![("accent_under"@, VShape::Bool)] }->opt);
    push_alt(&mut alts27, "Under", Some(Shape::Record { req: fields44, opt: fields45 }));
    let mut fields46 = no_fields();
    push_field(&mut fields46, "base", ref_to("Element"));
    push_field(&mut fields46, "under", ref_to("Element"));
    push_field(&mut fields46, "over", ref_to("Element"));
    let mut fields47 = no_fields();
    push_field(&mut fields47, "accent", Shape::Bool);
    push_field(&mut fields47, "accent_under", Shape::Bool);
    assert(view_fields(fields46@) =~= VShape::Record { req: seq![("base"@, VShape::Ref("Element"@)), ("under"@, VShape::Ref("Element"@)), ("over"@, VShape::Ref("Element"@))], opt: seq![("accent"@, VShape::Bool), ("accent_under"@, VShape::Bool)] }->req);
    assert(view_fields(fields47@) =~= VShape::Record { req: seq![("base"@, VShape::Ref("Element"@)), ("under"@, VShape::Ref("Element"@)), ("over"@, VShape::Ref("Element"@))], opt: seq![("accent"@, VShape::Bool), ("accent_under"@, VShape::Bool)] }->opt);
    push_alt(&mut alts27, "UnderOver", Some(Shape::Record { req: fields46, opt: fields47 }));
    let mut fields48 = no_fields();
    push_field(&mut fields48, "base", ref_to("Element"));
    let mut fields49 = no_fields();
    let item50 = ref_to("Pair");
    assert(item50@ == VShape::Ref("Pair"@));
    push_field(&mut fields49, "post", Shape::Array(Box::new(item50)));
    let item51 = ref_to("Pair");
    assert(item51@ == VShape::Ref("Pair"@));
    push_field(&mut fields49, "pre", Shape::Array(Box::new(item51)));
    assert(view_fields(fields48@) =~= VShape::Record { req: seq![("base"@, VShape::Ref("Element"@))], opt: seq![("post"@, VShape::Array(Box::new(VShape::Ref("Pair"@)))), ("pre"@, VShape::Array(Box::new(VShape::Ref("Pair"@))))] }->req);
    assert(view_fields(fields49@) =~= VShape::Record { req: seq![("base"@, VShape::Ref("Element"@))], opt: seq![("post"@, VShape::Array(Box::new(VShape::Ref("Pair"@)))), ("pre"@, VShape::Array(Box::new(VShape::Ref("Pair"@))))] }->opt);
    push_alt(&mut alts27, "MultiScript", Some(Shape::Record { req: fields48, opt: fields49 }));
    let mut fields52 = no_fields();
    let item53 = build_table_row_shape();
    assert(item53@ == table_row_shape());
    push_field(&mut fields52, "rows", Shape::Array(Box::new(item53)));
    let mut fields54 = no_fields();
    assert(view_fields(fields52@) =~= VShape::Record { req: seq![("rows"@, VShape::Array(Box::new(table_row_shape())))], opt: seq![] }->req);
    assert(view_fields(fields54@) =~= VShape::Record { req: seq![("rows"@, VShape::Array(Box::new(table_row_shape())))], opt: seq![] }->opt);
    push_alt(&mut alts27, "Table", Some(Shape::Record { req: fields52, opt: fields54 }));
    assert(view_alts(alts27@) =~= VShape::Enum(seq![("Op"@, Some(VShape::Char)), ("Oper"@, Some(operator_shape())), ("ResolvedOper"@, Some(resolved_operator_shape())), ("Text"@, Some(VShape::Str)), ("Id"@, Some(VShape::Record { req: seq![("t"@, VShape::Str)], opt: seq![("normal"@, VShape::Bool)] })), ("Num"@, Some(VShape::Str)), ("Err"@, Some(VShape::Str)), ("Space"@, Some(space_shape())), ("Str"@, Some(VShape::Str)), ("Phantom"@, Some(VShape::Array(Box::new(VShape::Ref("Element"@))))), ("Row"@, Some(VShape::Array(Box::new(VShape::Ref("Element"@))))), ("Padding"@, Some(padding_shape())), ("Frac"@, Some(VShape::Record { req: seq![("num"@, VShape::Ref("Element"@)), ("den"@, VShape::Ref("Element"@))], opt: seq![("line_thickness"@, VShape::F32)] })), ("Sqrt"@, Some(VShape::Ref("Element"@))), ("Root"@, Some(VShape::Record { req: seq![("base"@, VShape::Ref("Element"@)), ("index"@, VShape::Ref("Element"@))], opt: seq![] })), ("Sup"@, Some(VShape::Record { req: seq![("base"@, VShape::Ref("Element"@)), ("sup"@, VShape::Ref("Element"@))], opt: seq![] })), ("Sub"@, Some(VShape::Record { req: seq![("base"@, VShape::Ref("Element"@)), ("sub"@, VShape::Ref("Element"@))], opt: seq![] })), ("SubSup"@, Some(VShape::Record { req: seq![("base"@, VShape::Ref("Element"@)), ("sub"@, VShape::Ref("Element"@)), ("sup"@, VShape::Ref("Element"@))], opt: seq![] })), ("Over"@, Some(VShape::Record { req: seq![("base"@, VShape::Ref("Element"@)), ("over"@, VShape::Ref("Element"@))], opt: seq![("accent"@, VShape::Bool)] })), ("Under"@, Some(VShape::Record { req: seq![("base"@, VShape::Ref("Element"@)), ("under"@, VShape::Ref("Element"@))], opt: seq![("accent_under"@, VShape::Bool)] })), ("UnderOver"@, Some(VShape::Record { req: seq![("base"@, VShape::Ref("Element"@)), ("under"@, VShape::Ref("Element"@)), ("over"@, VShape::Ref("Element"@))], opt: seq![("accent"@, VShape::Bool), ("accent_under"@, VShape::Bool)] })), ("MultiScript"@, Some(VShape::Record { req: seq![("base"@, VShape::Ref("Element"@))], opt: seq![("post"@, VShape::Array(Box::new(VShape::Ref("Pair"@)))), ("pre"@, VShape::Array(Box::new(VShape::Ref("Pair"@))))] })), ("Table"@, Some(VShape::Record { req: seq![("rows"@, VShape::Array(Box::new(table_row_shape())))], opt: seq![] }))])->Enum_0);
    Shape::Enum(alts27)
}

/// An element: its node, and its attributes, which may be left out.
pub open spec fn element_shape() -> VShape {
    VShape::Record { req: seq![("e"@, node_shape())], opt: seq![("a"@, VShape::Ref("Attributes"@))] }
}

fn build_element_shape() -> (r: Shape)
    ensures
        r@ == element_shape(),
{
    let mut fields55 = no_fields();
    push_field(&mut fields55, "e", build_node_shape());
    let mut fields56 = no_fields();
    push_field(&mut fields56, "a", ref_to("Attributes"));
    assert(view_fields(fields55@) =~= VShape::Record { req: seq![("e"@, node_shape())], opt: seq![("a"@, VShape::Ref("Attributes"@))] }->req);
    assert(view_fields(fields56@) =~= VShape::Record { req: seq![("e"@, node_shape())], opt: seq![("a"@, VShape::Ref("Attributes"@))] }->opt);
    Shape::Record { req: fields55, opt: fields56 }
}

/// The named type fragments of the math schema.
pub open spec fn math_types() -> Seq<(Seq<char>, VShape)> {
    seq![("OpForm"@, op_form_shape()), ("Attributes"@, attributes_shape()), ("Length"@, length_shape()), ("LengthOrFraction"@, length_or_fraction_shape()), ("Pair"@, pair_shape()), ("Element"@, element_shape()), ("TableCell"@, table_cell_shape())]
}

fn build_types() -> (r: Vec<(Vec<char>, Shape)>)
    ensures
        view_fields(r@) == math_types(),
{
    let mut types = no_fields();
    push_field(&mut types, "OpForm", build_op_form_shape());
    push_field(&mut types, "Attributes", build_attributes_shape());
    push_field(&mut types, "Length", build_length_shape());
    push_field(&mut types, "LengthOrFraction", build_length_or_fraction_shape());
    push_field(&mut types, "Pair", build_pair_shape());
    push_field(&mut types, "Element", build_element_shape());
    push_field(&mut types, "TableCell", build_table_cell_shape());
    assert(view_fields(types@) =~= math_types());
    types
}

/// A compiled schema description: its name, version and description, the
/// shape of a whole document, and the named type fragments it refers to.
pub struct SchemaDoc {
    pub name: String,
    pub version: u32,
    pub description: String,
    pub root: Shape,
    pub types: Vec<(Vec<char>, Shape)>,
}

/// Whether `v` is a valid encoded document: an element of the math schema.
pub open spec fn valid_document(v: VValue) -> bool {
    conforms(math_types(), VShape::Ref("Element"@), v)
}

/// The math schema, version 1: a document is an element.
pub fn schema_doc() -> (r: SchemaDoc)
    ensures
        r.name@ == "fog-math"@,
        r.version == 1,
        r.description@ == "Formatted math, closely matching MathML."@,
        r.root@ == VShape::Ref("Element"@),
        view_fields(r.types@) == math_types(),
{
    SchemaDoc {
        name: String::from_str("fog-math"),
        version: 1,
        description: String::from_str("Formatted math, closely matching MathML."),
        root: ref_to("Element"),
        types: build_types(),
    }
}

impl SchemaDoc {
    /// Whether `v` is a valid document of this schema.
    pub fn validate(&self, v: &Value) -> (r: bool)
        ensures
            r == conforms(view_fields(self.types@), self.root@, v@),
    {
        check(&self.types, &self.root, v)
    }
}

/// Whether `v` is a valid encoded document of the math schema.
pub fn validate_document(v: &Value) -> (r: bool)
    ensures
        r == valid_document(v@),
{
    schema_doc().validate(v)
}

} // verus!
