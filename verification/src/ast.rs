//! The fragment of the parser's output that type generation consumes:
//! declarations, struct members, and the restricted expressions used for
//! array bounds and member initializers.

use vstd::prelude::*;

verus! {

/// A unary sign operator.
#[derive(Clone, Copy, PartialEq, Eq, Structural, Debug)]
pub enum Operator {
    Plus,
    Minus,
}

/// An expression, as far as type generation inspects it. Anything beyond
/// signed integer literals, ranges and expression lists is opaque to this
/// subsystem; [`Statement::Reference`] stands for every such shape.
#[derive(Debug, PartialEq)]
pub enum Statement {
    /// A signed integer literal.
    LiteralInteger { value: i32 },
    /// A unary sign operator applied to an operand.
    UnaryExpression { operator: Operator, value: Box<Statement> },
    /// An inclusive `start..end` range (one array dimension).
    RangeStatement { start: Box<Statement>, end: Box<Statement> },
    /// A comma-separated list (the bounds of a multi-dimensional array).
    ExpressionList { expressions: Vec<Statement> },
    /// A name reference (or any other shape this subsystem cannot fold).
    Reference { name: String },
}

/// One declared struct member: its name, the name of its declared type, and
/// an optional initializer expression.
#[derive(Debug, PartialEq)]
pub struct Variable {
    pub name: String,
    pub data_type: String,
    pub initializer: Option<Statement>,
}

/// One declared data type, as handed over by the parser.
#[derive(Debug, PartialEq)]
pub enum DataType {
    /// A struct with ordered members.
    StructType { name: String, variables: Vec<Variable> },
    /// An enumeration with ordered elements.
    EnumType { name: String, elements: Vec<String> },
    /// An alias or sub-range of another named type.
    SubRangeType { name: String, referenced_type: String, initializer: Option<Statement> },
    /// An array over a named element type, with a bounds expression.
    ArrayType { name: String, bounds: Statement, referenced_type: String },
}

} // verus!
