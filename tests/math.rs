use fog_math::encode::{encode_attributes, encode_element, node_tag_str};
use fog_math::math::{
    is_false, u32_is_one, u32_one, Attributes, Element, Length, LengthOrFraction, MathElement,
    OpForm, Operator, Pair, ResolvedOperator, ScriptLevel, TableCell, TableRow, Variant,
};
use fog_math::schema::{schema_doc, validate_document};
use fog_math::value::Value;

fn chars(s: &str) -> Vec<char> {
    s.chars().collect()
}

fn text(s: &str) -> Value {
    Value::Str(chars(s))
}

fn record(entries: Vec<(&str, Value)>) -> Value {
    Value::Record(entries.into_iter().map(|(k, v)| (chars(k), v)).collect())
}

fn get<'a>(v: &'a Value, k: &str) -> Option<&'a Value> {
    match v {
        Value::Record(es) => es.iter().find(|(key, _)| *key == chars(k)).map(|(_, v)| v),
        _ => None,
    }
}

fn keys(v: &Value) -> Vec<String> {
    match v {
        Value::Record(es) => es.iter().map(|(k, _)| k.iter().collect()).collect(),
        _ => Vec::new(),
    }
}

fn without(v: &Value, k: &str) -> Value {
    match v {
        Value::Record(es) => Value::Record(
            es.iter().filter(|(key, _)| *key != chars(k)).map(|(key, x)| (key.clone(), x.copy())).collect(),
        ),
        _ => v.copy(),
    }
}

fn with_entry(v: &Value, k: &str, x: Value) -> Value {
    match v {
        Value::Record(es) => {
            let mut es: Vec<(Vec<char>, Value)> = es.iter().map(|(key, y)| (key.clone(), y.copy())).collect();
            es.push((chars(k), x));
            Value::Record(es)
        }
        _ => v.copy(),
    }
}

fn el(e: MathElement) -> Element {
    Element { e, a: None }
}

fn num(s: &str) -> Element {
    el(MathElement::Num(s.to_string()))
}

fn bx(e: Element) -> Box<Element> {
    Box::new(e)
}

fn em(x: f32) -> Length {
    Length::Em(x.to_bits())
}

fn resolved() -> ResolvedOperator {
    ResolvedOperator {
        t: '+',
        form: OpForm::Infix,
        max_size: em(1.0),
        min_size: em(1.0),
        lspace: em(0.2),
        rspace: em(0.2),
        stretchy: false,
        symmetric: false,
        large_op: false,
        movable_limits: false,
        separator: false,
        fence: false,
    }
}

fn half() -> Element {
    el(MathElement::Frac { line_thickness: None, num: bx(num("1")), den: bx(num("2")) })
}

fn cell(col_span: u32) -> TableCell {
    TableCell { col_span, row_span: 1, elems: vec![num("3")], a: None }
}

#[test]
fn default_helpers() {
    assert!(is_false(&false));
    assert!(!is_false(&true));
    assert!(u32_is_one(&1));
    assert!(!u32_is_one(&0));
    assert!(!u32_is_one(&2));
    assert_eq!(u32_one(), 1);
}

#[test]
fn fraction_in_row_encodes_and_validates() {
    let row = el(MathElement::Row(vec![half()]));
    let v = encode_element(&row);
    assert_eq!(keys(&v), vec!["e"]);
    let items = match get(get(&v, "e").unwrap(), "Row").unwrap() {
        Value::Array(items) => items,
        other => panic!("not an array: {:?}", other),
    };
    assert_eq!(items.len(), 1);
    let frac = get(get(&items[0], "e").unwrap(), "Frac").unwrap();
    assert_eq!(keys(frac), vec!["num", "den"]);
    assert_eq!(get(frac, "line_thickness"), None);
    assert_eq!(get(get(get(frac, "num").unwrap(), "e").unwrap(), "Num"), Some(&text("1")));
    assert_eq!(get(get(get(frac, "den").unwrap(), "e").unwrap(), "Num"), Some(&text("2")));
    assert!(validate_document(&v));
}

#[test]
fn line_thickness_is_written_when_present() {
    let f = el(MathElement::Frac {
        line_thickness: Some(2.0f32.to_bits()),
        num: bx(num("1")),
        den: bx(num("2")),
    });
    let v = encode_element(&f);
    let frac = get(get(&v, "e").unwrap(), "Frac").unwrap();
    assert_eq!(keys(frac), vec!["line_thickness", "num", "den"]);
    assert_eq!(get(frac, "line_thickness"), Some(&Value::F32(2.0f32.to_bits())));
    assert!(validate_document(&v));
}

#[test]
fn resolved_operator_needs_every_field() {
    let v = encode_element(&el(MathElement::ResolvedOper(resolved())));
    assert!(validate_document(&v));
    let op = get(get(&v, "e").unwrap(), "ResolvedOper").unwrap();
    let fields = keys(op);
    assert_eq!(fields.len(), 12);
    for f in fields {
        let broken = record(vec![("e", record(vec![("ResolvedOper", without(op, &f))]))]);
        assert!(!validate_document(&broken), "accepted without {}", f);
    }
}

#[test]
fn resolved_operator_rejects_fraction_length() {
    let v = encode_element(&el(MathElement::ResolvedOper(resolved())));
    let op = get(get(&v, "e").unwrap(), "ResolvedOper").unwrap();
    let frac = record(vec![("Frac", Value::F32(0.5f32.to_bits()))]);
    let bad = with_entry(&without(op, "lspace"), "lspace", frac);
    let doc = record(vec![("e", record(vec![("ResolvedOper", bad)]))]);
    assert!(!validate_document(&doc));
}

#[test]
fn unknown_node_tag_is_rejected() {
    let doc = record(vec![("e", record(vec![("Frak", text("1"))]))]);
    assert!(!validate_document(&doc));
    let unit = record(vec![("e", text("Num"))]);
    assert!(!validate_document(&unit));
}

#[test]
fn fraction_without_denominator_is_rejected() {
    let v = encode_element(&half());
    let frac = get(get(&v, "e").unwrap(), "Frac").unwrap();
    let doc = record(vec![("e", record(vec![("Frac", without(frac, "den"))]))]);
    assert!(!validate_document(&doc));
}

#[test]
fn operator_text_must_be_one_character() {
    let op = record(vec![("e", record(vec![("Op", text("+"))]))]);
    assert!(validate_document(&op));
    let two = record(vec![("e", record(vec![("Op", text("+-"))]))]);
    assert!(!validate_document(&two));
    let none = record(vec![("e", record(vec![("Op", text(""))]))]);
    assert!(!validate_document(&none));
    let oper = record(vec![("e", record(vec![("Oper", record(vec![("t", text("<="))]))]))]);
    assert!(!validate_document(&oper));
}

#[test]
fn negative_span_count_is_rejected() {
    let table = el(MathElement::Table { rows: vec![TableRow { cells: vec![cell(2)], a: None }] });
    let v = encode_element(&table);
    assert!(validate_document(&v));
    let c = record(vec![("col_span", Value::Int(-1))]);
    let row = record(vec![("cells", Value::Array(vec![c]))]);
    let doc = record(vec![("e", record(vec![("Table", record(vec![("rows", Value::Array(vec![row]))]))]))]);
    assert!(!validate_document(&doc));
    let big = record(vec![("col_span", Value::Int(1 << 32))]);
    let row = record(vec![("cells", Value::Array(vec![big]))]);
    let doc = record(vec![("e", record(vec![("Table", record(vec![("rows", Value::Array(vec![row]))]))]))]);
    assert!(!validate_document(&doc));
}

#[test]
fn superscript_without_script_is_rejected() {
    let sup = el(MathElement::Sup { base: bx(num("2")), sup: bx(num("3")) });
    let v = encode_element(&sup);
    assert!(validate_document(&v));
    let payload = get(get(&v, "e").unwrap(), "Sup").unwrap();
    let doc = record(vec![("e", record(vec![("Sup", without(payload, "sup"))]))]);
    assert!(!validate_document(&doc));
}

#[test]
fn unknown_field_is_rejected() {
    let v = encode_element(&half());
    let frac = get(get(&v, "e").unwrap(), "Frac").unwrap();
    let doc = record(vec![("e", record(vec![("Frac", with_entry(frac, "bar", Value::Bool(true)))]))]);
    assert!(!validate_document(&doc));
}

#[test]
fn span_of_one_is_left_out() {
    let one = encode_element(&el(MathElement::Table { rows: vec![TableRow { cells: vec![cell(1)], a: None }] }));
    let rows = match get(get(get(&one, "e").unwrap(), "Table").unwrap(), "rows").unwrap() {
        Value::Array(rows) => rows,
        other => panic!("not an array: {:?}", other),
    };
    let cells = match get(&rows[0], "cells").unwrap() {
        Value::Array(cells) => cells,
        other => panic!("not an array: {:?}", other),
    };
    assert_eq!(keys(&cells[0]), vec!["elems"]);
    let explicit = with_entry(&cells[0], "col_span", Value::Int(1));
    let wrap = |c: Value| {
        let row = record(vec![("cells", Value::Array(vec![c]))]);
        record(vec![("e", record(vec![("Table", record(vec![("rows", Value::Array(vec![row]))]))]))])
    };
    assert!(validate_document(&wrap(cells[0].copy())));
    assert!(validate_document(&wrap(explicit)));
    let two = encode_element(&el(MathElement::Table { rows: vec![TableRow { cells: vec![cell(2)], a: None }] }));
    assert_ne!(one, two);
}

#[test]
fn false_flags_are_left_out() {
    let over = el(MathElement::Over { base: bx(num("x")), over: bx(num("y")), accent: false });
    let v = encode_element(&over);
    let payload = get(get(&v, "e").unwrap(), "Over").unwrap();
    assert_eq!(keys(payload), vec!["base", "over"]);
    let explicit = with_entry(payload, "accent", Value::Bool(false));
    assert!(validate_document(&v));
    assert!(validate_document(&record(vec![("e", record(vec![("Over", explicit)]))])));
    let accented = el(MathElement::Over { base: bx(num("x")), over: bx(num("y")), accent: true });
    let w = encode_element(&accented);
    let payload = get(get(&w, "e").unwrap(), "Over").unwrap();
    assert_eq!(get(payload, "accent"), Some(&Value::Bool(true)));
    let id = encode_element(&el(MathElement::Id { t: "sin".to_string(), normal: false }));
    assert_eq!(keys(get(get(&id, "e").unwrap(), "Id").unwrap()), vec!["t"]);
}

#[test]
fn attributes_are_encoded_and_checked() {
    let a = Attributes {
        class: vec!["big".to_string()],
        rtl: true,
        display_style: Some(false),
        variant: Some(Variant::DoubleStruck),
        script_level: Some(ScriptLevel::Add(-1)),
        data: Some(vec![("k".to_string(), Value::Int(7))]),
    };
    let v = encode_attributes(&a);
    assert_eq!(keys(&v), vec!["class", "rtl", "display_style", "variant", "script_level", "data"]);
    assert_eq!(get(&v, "variant"), Some(&text("DoubleStruck")));
    assert_eq!(get(&v, "script_level"), Some(&record(vec![("Add", Value::Int(-1))])));
    let e = Element { e: MathElement::Num("1".to_string()), a: Some(Box::new(a)) };
    let doc = encode_element(&e);
    assert!(validate_document(&doc));
    let bad_variant = record(vec![("variant", text("Gothic"))]);
    assert!(!validate_document(&record(vec![("e", record(vec![("Num", text("1"))])), ("a", bad_variant)])));
    let level = record(vec![("script_level", record(vec![("Set", Value::Int(-2))]))]);
    assert!(!validate_document(&record(vec![("e", record(vec![("Num", text("1"))])), ("a", level)])));
    let empty = encode_attributes(&Attributes {
        class: vec![],
        rtl: false,
        display_style: None,
        variant: None,
        script_level: Some(ScriptLevel::Absolute(3)),
        data: None,
    });
    assert_eq!(empty, record(vec![("script_level", record(vec![("Set", Value::Int(3))]))]));
}

#[test]
fn operator_overrides_are_encoded() {
    let op = Operator {
        t: '(',
        form: Some(OpForm::Prefix),
        max_size: Some(LengthOrFraction::Frac(2.0f32.to_bits())),
        min_size: None,
        lspace: Some(LengthOrFraction::Ex(0.5f32.to_bits())),
        rspace: None,
        stretchy: Some(false),
        symmetric: None,
        large_op: None,
        movable_limits: None,
        separator: None,
        fence: Some(true),
    };
    let v = encode_element(&el(MathElement::Oper(op)));
    let payload = get(get(&v, "e").unwrap(), "Oper").unwrap();
    assert_eq!(keys(payload), vec!["t", "form", "max_size", "lspace", "stretchy", "fence"]);
    assert_eq!(get(payload, "t"), Some(&text("(")));
    assert_eq!(get(payload, "form"), Some(&text("Prefix")));
    assert_eq!(get(payload, "stretchy"), Some(&Value::Bool(false)));
    assert!(validate_document(&v));
}

#[test]
fn every_node_kind_validates() {
    let pair = || Pair { sup: bx(num("1")), sub: bx(num("2")) };
    let nodes = vec![
        MathElement::Op('+'),
        MathElement::Text("hi".to_string()),
        MathElement::Id { t: "x".to_string(), normal: true },
        MathElement::Error("oops".to_string()),
        MathElement::Str("s".to_string()),
        MathElement::Phantom(vec![num("0")]),
        MathElement::Row(vec![]),
        MathElement::Sqrt(bx(num("2"))),
        MathElement::Root { base: bx(num("8")), index: bx(num("3")) },
        MathElement::Sub { base: bx(num("a")), sub: bx(num("i")) },
        MathElement::SubSup { base: bx(num("a")), sub: bx(num("i")), sup: bx(num("2")) },
        MathElement::Under { base: bx(num("a")), under: bx(num("b")), accent_under: true },
        MathElement::UnderOver {
            base: bx(num("a")),
            under: bx(num("b")),
            over: bx(num("c")),
            accent: true,
            accent_under: false,
        },
        MathElement::MultiScript { base: bx(num("x")), post: vec![pair()], pre: vec![] },
        MathElement::Table { rows: vec![] },
    ];
    for n in nodes {
        let tag = node_tag_str(&n);
        let v = encode_element(&el(n));
        assert_eq!(keys(get(&v, "e").unwrap()), vec![tag]);
        assert!(validate_document(&v), "{} rejected", tag);
    }
}

#[test]
fn schema_artifact_is_named_and_versioned() {
    let doc = schema_doc();
    assert_eq!(doc.name, "fog-math");
    assert_eq!(doc.version, 1);
    assert_eq!(doc.description, "Formatted math, closely matching MathML.");
    let names: Vec<String> = doc.types.iter().map(|(k, _)| k.iter().collect()).collect();
    assert_eq!(
        names,
        vec!["OpForm", "Attributes", "Length", "LengthOrFraction", "Pair", "Element", "TableCell"]
    );
}

#[test]
fn copy_keeps_value() {
    let v = encode_element(&half());
    assert_eq!(v.copy(), v);
}
