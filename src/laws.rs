//! Laws that relate the document model, its encoding and the math schema.
use vstd::prelude::*;
use vstd::pervasive::arbitrary;
use vstd::assert_sets_equal;
use crate::encode::{
    form_name, length_or_fraction_tag, length_tag, node_tag, script_level_tag, variant_name,
};
use crate::math::{Length, LengthOrFraction, MathElement, OpForm, ScriptLevel, Variant};
use crate::schema::{
    attributes_shape, length_or_fraction_shape, length_shape, node_shape, op_form_shape,
};
use crate::shape::VShape;

verus! {

/// The tags that a list of enum alternatives declares.
pub open spec fn declared_tags(alts: Seq<(Seq<char>, Option<VShape>)>) -> Set<Seq<char>> {
    Set::new(|t: Seq<char>| exists|i: int| 0 <= i < alts.len() && alts[i].0 == t)
}

/// The names that a list of names declares.
pub open spec fn declared_names(names: Seq<Seq<char>>) -> Set<Seq<char>> {
    Set::new(|t: Seq<char>| exists|i: int| 0 <= i < names.len() && names[i] == t)
}

/// The character variant names that the schema accepts.
pub open spec fn variant_names() -> Seq<Seq<char>> {
    attributes_shape()->opt[3].1->OneOf_0
}

/// The script-level alternatives that the schema declares.
pub open spec fn script_level_alts() -> Seq<(Seq<char>, Option<VShape>)> {
    attributes_shape()->opt[4].1->Enum_0
}

/// The alternatives that the schema declares for a node are exactly the tags of
/// the model's node variants.
pub proof fn lemma_node_alternatives_exhaustive()
    ensures
        declared_tags(node_shape()->Enum_0) == Set::new(|t: Seq<char>| exists|x: MathElement| #[trigger] node_tag(x) == t),
        node_shape()->Enum_0.len() == 23,
{
    assert_sets_equal!(declared_tags(node_shape()->Enum_0), Set::new(|t: Seq<char>| exists|x: MathElement| #[trigger] node_tag(x) == t), t => {
        if exists|x: MathElement| #[trigger] node_tag(x) == t {
            let x = choose|x: MathElement| #[trigger] node_tag(x) == t;
            match x {
                MathElement::Op(..) => assert(node_shape()->Enum_0[0].0 == t),
                MathElement::Oper(..) => assert(node_shape()->Enum_0[1].0 == t),
                MathElement::ResolvedOper(..) => assert(node_shape()->Enum_0[2].0 == t),
                MathElement::Text(..) => assert(node_shape()->Enum_0[3].0 == t),
                MathElement::Id { .. } => assert(node_shape()->Enum_0[4].0 == t),
                MathElement::Num(..) => assert(node_shape()->Enum_0[5].0 == t),
                MathElement::Error(..) => assert(node_shape()->Enum_0[6].0 == t),
                MathElement::Space(..) => assert(node_shape()->Enum_0[7].0 == t),
                MathElement::Str(..) => assert(node_shape()->Enum_0[8].0 == t),
                MathElement::Phantom(..) => assert(node_shape()->Enum_0[9].0 == t),
                MathElement::Row(..) => assert(node_shape()->Enum_0[10].0 == t),
                MathElement::Padding(..) => assert(node_shape()->Enum_0[11].0 == t),
                MathElement::Frac { .. } => assert(node_shape()->Enum_0[12].0 == t),
                MathElement::Sqrt(..) => assert(node_shape()->Enum_0[13].0 == t),
                MathElement::Root { .. } => assert(node_shape()->Enum_0[14].0 == t),
                MathElement::Sup { .. } => assert(node_shape()->Enum_0[15].0 == t),
                MathElement::Sub { .. } => assert(node_shape()->Enum_0[16].0 == t),
                MathElement::SubSup { .. } => assert(node_shape()->Enum_0[17].0 == t),
                MathElement::Over { .. } => assert(node_shape()->Enum_0[18].0 == t),
                MathElement::Under { .. } => assert(node_shape()->Enum_0[19].0 == t),
                MathElement::UnderOver { .. } => assert(node_shape()->Enum_0[20].0 == t),
                MathElement::MultiScript { .. } => assert(node_shape()->Enum_0[21].0 == t),
                MathElement::Table { .. } => assert(node_shape()->Enum_0[22].0 == t),
            }
            assert(declared_tags(node_shape()->Enum_0).contains(t));
        }
        if declared_tags(node_shape()->Enum_0).contains(t) {
            let i = choose|i: int| 0 <= i < node_shape()->Enum_0.len() && node_shape()->Enum_0[i].0 == t;
            if i == 0 {
                assert(node_tag(MathElement::Op('x')) == t);
            } else if i == 1 {
                assert(node_tag(MathElement::Oper(arbitrary())) == t);
            } else if i == 2 {
                assert(node_tag(MathElement::ResolvedOper(arbitrary())) == t);
            } else if i == 3 {
                assert(node_tag(MathElement::Text(arbitrary())) == t);
            } else if i == 4 {
                assert(node_tag(MathElement::Id { t: arbitrary(), normal: false }) == t);
            } else if i == 5 {
                assert(node_tag(MathElement::Num(arbitrary())) == t);
            } else if i == 6 {
                assert(node_tag(MathElement::Error(arbitrary())) == t);
            } else if i == 7 {
                assert(node_tag(MathElement::Space(arbitrary())) == t);
            } else if i == 8 {
                assert(node_tag(MathElement::Str(arbitrary())) == t);
            } else if i == 9 {
                assert(node_tag(MathElement::Phantom(arbitrary())) == t);
            } else if i == 10 {
                assert(node_tag(MathElement::Row(arbitrary())) == t);
            } else if i == 11 {
                assert(node_tag(MathElement::Padding(arbitrary())) == t);
            } else if i == 12 {
                assert(node_tag(MathElement::Frac { line_thickness: None, num: arbitrary(), den: arbitrary() }) == t);
            } else if i == 13 {
                assert(node_tag(MathElement::Sqrt(arbitrary())) == t);
            } else if i == 14 {
                assert(node_tag(MathElement::Root { base: arbitrary(), index: arbitrary() }) == t);
            } else if i == 15 {
                assert(node_tag(MathElement::Sup { base: arbitrary(), sup: arbitrary() }) == t);
            } else if i == 16 {
                assert(node_tag(MathElement::Sub { base: arbitrary(), sub: arbitrary() }) == t);
            } else if i == 17 {
                assert(node_tag(MathElement::SubSup { base: arbitrary(), sub: arbitrary(), sup: arbitrary() }) == t);
            } else if i == 18 {
                assert(node_tag(MathElement::Over { base: arbitrary(), over: arbitrary(), accent: false }) == t);
            } else if i == 19 {
                assert(node_tag(MathElement::Under { base: arbitrary(), under: arbitrary(), accent_under: false }) == t);
            } else if i == 20 {
                assert(node_tag(MathElement::UnderOver { base: arbitrary(), under: arbitrary(), over: arbitrary(), accent: false, accent_under: false }) == t);
            } else if i == 21 {
                assert(node_tag(MathElement::MultiScript { base: arbitrary(), post: arbitrary(), pre: arbitrary() }) == t);
            } else if i == 22 {
                assert(node_tag(MathElement::Table { rows: arbitrary() }) == t);
            }
        }
    });
}


/// The character variant names that the schema accepts are exactly the names of
/// the model's variants.
pub proof fn lemma_variant_names_exhaustive()
    ensures
        declared_names(variant_names()) == Set::new(|t: Seq<char>| exists|x: Variant| #[trigger] variant_name(x) == t),
        variant_names().len() == 18,
{
    assert_sets_equal!(declared_names(variant_names()), Set::new(|t: Seq<char>| exists|x: Variant| #[trigger] variant_name(x) == t), t => {
        if exists|x: Variant| #[trigger] variant_name(x) == t {
            let x = choose|x: Variant| #[trigger] variant_name(x) == t;
            match x {
                Variant::Normal  => assert(variant_names()[0] == t),
                Variant::Bold  => assert(variant_names()[1] == t),
                Variant::Italic  => assert(variant_names()[2] == t),
                Variant::BoldItalic  => assert(variant_names()[3] == t),
                Variant::DoubleStruck  => assert(variant_names()[4] == t),
                Variant::BoldFraktur  => assert(variant_names()[5] == t),
                Variant::Script  => assert(variant_names()[6] == t),
                Variant::BoldScript  => assert(variant_names()[7] == t),
                Variant::Fraktur  => assert(variant_names()[8] == t),
                Variant::SansSerif  => assert(variant_names()[9] == t),
                Variant::BoldSansSerif  => assert(variant_names()[10] == t),
                Variant::SansSerifItalic  => assert(variant_names()[11] == t),
                Variant::SansSerifBoldItalic  => assert(variant_names()[12] == t),
                Variant::Monospace  => assert(variant_names()[13] == t),
                Variant::Initial  => assert(variant_names()[14] == t),
                Variant::Tailed  => assert(variant_names()[15] == t),
                Variant::Looped  => assert(variant_names()[16] == t),
                Variant::Stretched  => assert(variant_names()[17] == t),
            }
            assert(declared_names(variant_names()).contains(t));
        }
        if declared_names(variant_names()).contains(t) {
            let i = choose|i: int| 0 <= i < variant_names().len() && variant_names()[i] == t;
            if i == 0 {
                assert(variant_name(Variant::Normal) == t);
            } else if i == 1 {
                assert(variant_name(Variant::Bold) == t);
            } else if i == 2 {
                assert(variant_name(Variant::Italic) == t);
            } else if i == 3 {
                assert(variant_name(Variant::BoldItalic) == t);
            } else if i == 4 {
                assert(variant_name(Variant::DoubleStruck) == t);
            } else if i == 5 {
                assert(variant_name(Variant::BoldFraktur) == t);
            } else if i == 6 {
                assert(variant_name(Variant::Script) == t);
            } else if i == 7 {
                assert(variant_name(Variant::BoldScript) == t);
            } else if i == 8 {
                assert(variant_name(Variant::Fraktur) == t);
            } else if i == 9 {
                assert(variant_name(Variant::SansSerif) == t);
            } else if i == 10 {
                assert(variant_name(Variant::BoldSansSerif) == t);
            } else if i == 11 {
                assert(variant_name(Variant::SansSerifItalic) == t);
            } else if i == 12 {
                assert(variant_name(Variant::SansSerifBoldItalic) == t);
            } else if i == 13 {
                assert(variant_name(Variant::Monospace) == t);
            } else if i == 14 {
                assert(variant_name(Variant::Initial) == t);
            } else if i == 15 {
                assert(variant_name(Variant::Tailed) == t);
            } else if i == 16 {
                assert(variant_name(Variant::Looped) == t);
            } else if i == 17 {
                assert(variant_name(Variant::Stretched) == t);
            }
        }
    });
}


/// The operator forms that the schema declares are exactly the model's forms.
pub proof fn lemma_form_alternatives_exhaustive()
    ensures
        declared_tags(op_form_shape()->Enum_0) == Set::new(|t: Seq<char>| exists|x: OpForm| #[trigger] form_name(x) == t),
        op_form_shape()->Enum_0.len() == 3,
{
    assert_sets_equal!(declared_tags(op_form_shape()->Enum_0), Set::new(|t: Seq<char>| exists|x: OpForm| #[trigger] form_name(x) == t), t => {
        if exists|x: OpForm| #[trigger] form_name(x) == t {
            let x = choose|x: OpForm| #[trigger] form_name(x) == t;
            match x {
                OpForm::Prefix  => assert(op_form_shape()->Enum_0[0].0 == t),
                OpForm::Postfix  => assert(op_form_shape()->Enum_0[1].0 == t),
                OpForm::Infix  => assert(op_form_shape()->Enum_0[2].0 == t),
            }
            assert(declared_tags(op_form_shape()->Enum_0).contains(t));
        }
        if declared_tags(op_form_shape()->Enum_0).contains(t) {
            let i = choose|i: int| 0 <= i < op_form_shape()->Enum_0.len() && op_form_shape()->Enum_0[i].0 == t;
            if i == 0 {
                assert(form_name(OpForm::Prefix) == t);
            } else if i == 1 {
                assert(form_name(OpForm::Postfix) == t);
            } else if i == 2 {
                assert(form_name(OpForm::Infix) == t);
            }
        }
    });
}


/// The script-level alternatives that the schema declares are exactly the tags
/// of the model's script-level variants.
pub proof fn lemma_script_level_alternatives_exhaustive()
    ensures
        declared_tags(script_level_alts()) == Set::new(|t: Seq<char>| exists|x: ScriptLevel| #[trigger] script_level_tag(x) == t),
        script_level_alts().len() == 2,
{
    assert_sets_equal!(declared_tags(script_level_alts()), Set::new(|t: Seq<char>| exists|x: ScriptLevel| #[trigger] script_level_tag(x) == t), t => {
        if exists|x: ScriptLevel| #[trigger] script_level_tag(x) == t {
            let x = choose|x: ScriptLevel| #[trigger] script_level_tag(x) == t;
            match x {
                ScriptLevel::Absolute(..) => assert(script_level_alts()[0].0 == t),
                ScriptLevel::Add(..) => assert(script_level_alts()[1].0 == t),
            }
            assert(declared_tags(script_level_alts()).contains(t));
        }
        if declared_tags(script_level_alts()).contains(t) {
            let i = choose|i: int| 0 <= i < script_level_alts().len() && script_level_alts()[i].0 == t;
            if i == 0 {
                assert(script_level_tag(ScriptLevel::Absolute(0)) == t);
            } else if i == 1 {
                assert(script_level_tag(ScriptLevel::Add(0)) == t);
            }
        }
    });
}


/// The length units that the schema declares are exactly the model's units.
pub proof fn lemma_length_alternatives_exhaustive()
    ensures
        declared_tags(length_shape()->Enum_0) == Set::new(|t: Seq<char>| exists|x: Length| #[trigger] length_tag(x) == t),
        length_shape()->Enum_0.len() == 2,
{
    assert_sets_equal!(declared_tags(length_shape()->Enum_0), Set::new(|t: Seq<char>| exists|x: Length| #[trigger] length_tag(x) == t), t => {
        if exists|x: Length| #[trigger] length_tag(x) == t {
            let x = choose|x: Length| #[trigger] length_tag(x) == t;
            match x {
                Length::Em(..) => assert(length_shape()->Enum_0[0].0 == t),
                Length::Ex(..) => assert(length_shape()->Enum_0[1].0 == t),
            }
            assert(declared_tags(length_shape()->Enum_0).contains(t));
        }
        if declared_tags(length_shape()->Enum_0).contains(t) {
            let i = choose|i: int| 0 <= i < length_shape()->Enum_0.len() && length_shape()->Enum_0[i].0 == t;
            if i == 0 {
                assert(length_tag(Length::Em(0)) == t);
            } else if i == 1 {
                assert(length_tag(Length::Ex(0)) == t);
            }
        }
    });
}


/// The alternatives that the schema declares for a length or fraction are
/// exactly the model's.
pub proof fn lemma_length_or_fraction_alternatives_exhaustive()
    ensures
        declared_tags(length_or_fraction_shape()->Enum_0) == Set::new(|t: Seq<char>| exists|x: LengthOrFraction| #[trigger] length_or_fraction_tag(x) == t),
        length_or_fraction_shape()->Enum_0.len() == 3,
{
    assert_sets_equal!(declared_tags(length_or_fraction_shape()->Enum_0), Set::new(|t: Seq<char>| exists|x: LengthOrFraction| #[trigger] length_or_fraction_tag(x) == t), t => {
        if exists|x: LengthOrFraction| #[trigger] length_or_fraction_tag(x) == t {
            let x = choose|x: LengthOrFraction| #[trigger] length_or_fraction_tag(x) == t;
            match x {
                LengthOrFraction::Em(..) => assert(length_or_fraction_shape()->Enum_0[0].0 == t),
                LengthOrFraction::Ex(..) => assert(length_or_fraction_shape()->Enum_0[1].0 == t),
                LengthOrFraction::Frac(..) => assert(length_or_fraction_shape()->Enum_0[2].0 == t),
            }
            assert(declared_tags(length_or_fraction_shape()->Enum_0).contains(t));
        }
        if declared_tags(length_or_fraction_shape()->Enum_0).contains(t) {
            let i = choose|i: int| 0 <= i < length_or_fraction_shape()->Enum_0.len() && length_or_fraction_shape()->Enum_0[i].0 == t;
            if i == 0 {
                assert(length_or_fraction_tag(LengthOrFraction::Em(0)) == t);
            } else if i == 1 {
                assert(length_or_fraction_tag(LengthOrFraction::Ex(0)) == t);
            } else if i == 2 {
                assert(length_or_fraction_tag(LengthOrFraction::Frac(0)) == t);
            }
        }
    });
}

} // verus!
