//! The math document model: a recursive tree of elements, each a node of
//! MathML-like markup plus its own optional global attributes.
//!
//! Lengths and fractions are 32-bit floats, held here as their IEEE-754 bit
//! pattern so that the tree is plain data.
use vstd::prelude::*;
use crate::value::Value;

verus! {

/// Whether a flag is at its default, `false`; such a flag is left out when encoded.
pub fn is_false(b: &bool) -> (r: bool)
    ensures
        r == !*b,
{
    !*b
}

/// Whether a span count is at its default, 1; such a count is left out when encoded.
pub fn u32_is_one(v: &u32) -> (r: bool)
    ensures
        r == (*v == 1),
{
    *v == 1
}

/// The default span count of a table cell.
pub fn u32_one() -> (r: u32)
    ensures
        r == 1,
{
    1
}

/// Character Variant types. In general, prefer using Normal and including the
/// actual Unicode character.
#[derive(Clone, Copy, Debug, PartialEq, Eq, Structural)]
pub enum Variant {
    Normal,
    Bold,
    Italic,
    BoldItalic,
    DoubleStruck,
    BoldFraktur,
    Script,
    BoldScript,
    Fraktur,
    SansSerif,
    BoldSansSerif,
    SansSerifItalic,
    SansSerifBoldItalic,
    Monospace,
    Initial,
    Tailed,
    Looped,
    Stretched,
}

/// Adjust the script level of an element, either by setting it to a specific
/// value or changing the value by some amount.
#[derive(Clone, Copy, Debug, PartialEq, Eq, Structural)]
pub enum ScriptLevel {
    /// Increment/decrement the script level.
    Add(i32),
    /// Set the script level to a specific value.
    Absolute(u32),
}

/// A Math element, including any global attributes.
#[derive(Debug)]
pub struct Element {
    /// The actual element.
    pub e: MathElement,
    /// Optional attributes for the element.
    pub a: Option<Box<Attributes>>,
}

/// A Math element. Mirrors the elements in MathML.
#[derive(Debug)]
pub enum MathElement {
    /// A single-character operator with default properties.
    Op(char),
    /// Full operator. Some additional properties may have been overridden.
    Oper(Operator),
    /// Resolved operator. All properties are completely defined.
    ResolvedOper(ResolvedOperator),
    /// Raw text
    Text(String),
    /// An identifier, like a function name, variable, or symbolic constant.
    /// `normal` overrides the default italics used for a single character.
    Id { t: String, normal: bool },
    /// A numeric value.
    Num(String),
    /// An error message, to help converters display an error when parsing completes.
    Error(String),
    /// A blank space.
    Space(Space),
    /// A string literal, meant to be interpreted by programming languages and
    /// computer algebra systems.
    Str(String),
    /// Phantom elements. Rendered invisibly, but still affects layout.
    Phantom(Vec<Element>),
    /// A row of elements, used to group sub-expressions together.
    Row(Vec<Element>),
    /// Padding around elements.
    Padding(Padding),
    /// A fraction; the line thickness is a fraction of the standard one.
    Frac { line_thickness: Option<u32>, num: Box<Element>, den: Box<Element> },
    /// Square root
    Sqrt(Box<Element>),
    /// Root with an explicit index (degree).
    Root { base: Box<Element>, index: Box<Element> },
    /// Superscript
    Sup { base: Box<Element>, sup: Box<Element> },
    /// Subscript
    Sub { base: Box<Element>, sub: Box<Element> },
    /// Both superscript and subscript
    SubSup { base: Box<Element>, sub: Box<Element>, sup: Box<Element> },
    /// Overscript
    Over { base: Box<Element>, over: Box<Element>, accent: bool },
    /// Underscript
    Under { base: Box<Element>, under: Box<Element>, accent_under: bool },
    /// Both overscript and underscript
    UnderOver {
        base: Box<Element>,
        under: Box<Element>,
        over: Box<Element>,
        accent: bool,
        accent_under: bool,
    },
    /// Multiscript: any number of superscript/subscript pairs both before and
    /// after the base element.
    MultiScript { base: Box<Element>, post: Vec<Pair>, pre: Vec<Pair> },
    /// A table
    Table { rows: Vec<TableRow> },
}

/// A row in a table.
#[derive(Debug)]
pub struct TableRow {
    pub cells: Vec<TableCell>,
    pub a: Option<Box<Attributes>>,
}

/// A cell in a table.
#[derive(Debug)]
pub struct TableCell {
    pub col_span: u32,
    pub row_span: u32,
    pub elems: Vec<Element>,
    pub a: Option<Box<Attributes>>,
}

/// A pair of superscript and subscript, used by the Multiscript element.
#[derive(Debug)]
pub struct Pair {
    pub sup: Box<Element>,
    pub sub: Box<Element>,
}

#[derive(Debug)]
pub struct Padding {
    pub elems: Vec<Element>,
    pub width: Option<Length>,
    pub height: Option<Length>,
    pub depth: Option<Length>,
    pub lspace: Option<Length>,
    pub voffset: Option<Length>,
}

#[derive(Debug)]
pub struct Space {
    pub width: Option<Length>,
    pub height: Option<Length>,
    pub depth: Option<Length>,
}

/// Form of the operation. Normally derived from the operator's base character.
#[derive(Clone, Copy, Debug, PartialEq, Eq, Structural)]
pub enum OpForm {
    Prefix,
    Postfix,
    Infix,
}

/// An operator; every property but its character may be left to be inferred.
#[derive(Debug)]
pub struct Operator {
    /// The operator's text, a single character.
    pub t: char,
    pub form: Option<OpForm>,
    pub max_size: Option<LengthOrFraction>,
    pub min_size: Option<LengthOrFraction>,
    pub lspace: Option<LengthOrFraction>,
    pub rspace: Option<LengthOrFraction>,
    pub stretchy: Option<bool>,
    pub symmetric: Option<bool>,
    pub large_op: Option<bool>,
    pub movable_limits: Option<bool>,
    pub separator: Option<bool>,
    pub fence: Option<bool>,
}

/// An operator whose properties have been completely resolved.
#[derive(Debug)]
pub struct ResolvedOperator {
    pub t: char,
    pub form: OpForm,
    pub max_size: Length,
    pub min_size: Length,
    pub lspace: Length,
    pub rspace: Length,
    pub stretchy: bool,
    pub symmetric: bool,
    pub large_op: bool,
    pub movable_limits: bool,
    pub separator: bool,
    pub fence: bool,
}

/// A font-relative length or a specified fraction of another length.
#[derive(Clone, Copy, Debug, PartialEq, Eq, Structural)]
pub enum LengthOrFraction {
    /// Font-relative unit, usually used for widths
    Em(u32),
    /// Font-relative unit, usually used for heights
    Ex(u32),
    /// Fraction, with 1 being 100%.
    Frac(u32),
}

/// A font-relative length.
#[derive(Clone, Copy, Debug, PartialEq, Eq, Structural)]
pub enum Length {
    /// Font-relative unit, usually used for widths
    Em(u32),
    /// Font-relative unit, usually used for heights
    Ex(u32),
}

/// Global Element attributes. Mostly styling information, but also room for
/// arbitrary additional data, keyed by string.
#[derive(Debug)]
pub struct Attributes {
    pub class: Vec<String>,
    pub rtl: bool,
    pub display_style: Option<bool>,
    pub variant: Option<Variant>,
    pub script_level: Option<ScriptLevel>,
    pub data: Option<Vec<(String, Value)>>,
}

} // verus!
