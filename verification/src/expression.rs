//! Expressions as they appear in SELECT fields, and field pointers.

use vstd::prelude::*;

use crate::name::ColumnName;
use crate::name::StreamName;
use crate::value::SqlValue;

verus! {

/// Mathematical model of a [`FieldPointer`].
pub struct FieldPointerModel {
    pub prefix: Option<Seq<char>>,
    pub attr: Seq<char>,
}

/// A column as written in a query: an attribute name, optionally qualified
/// by a stream prefix (`stream.column`).
#[derive(Debug)]
pub struct FieldPointer {
    pub prefix: Option<String>,
    pub attr: String,
}

impl View for FieldPointer {
    type V = FieldPointerModel;

    open spec fn view(&self) -> FieldPointerModel {
        FieldPointerModel {
            prefix: match self.prefix {
                Option::Some(p) => Option::Some(p@),
                Option::None => Option::None,
            },
            attr: self.attr@,
        }
    }
}

impl FieldPointer {
    /// A bare attribute name, without prefix.
    pub fn bare(attr: String) -> (r: Self)
        ensures
            r@ == (FieldPointerModel { prefix: Option::None, attr: attr@ }),
    {
        FieldPointer { prefix: Option::None, attr }
    }

    /// A prefixed attribute name (`prefix.attr`).
    pub fn qualified(prefix: String, attr: String) -> (r: Self)
        ensures
            r@ == (FieldPointerModel { prefix: Option::Some(prefix@), attr: attr@ }),
    {
        FieldPointer { prefix: Option::Some(prefix), attr }
    }

    pub fn prefix(&self) -> (r: &Option<String>)
        ensures
            self@.prefix is Some <==> r is Some,
            r matches Some(p) ==> self@.prefix == Option::Some(p@),
    {
        &self.prefix
    }

    pub fn attr(&self) -> (r: &String)
        ensures
            r@ == self@.attr,
    {
        &self.attr
    }
}

impl Clone for FieldPointer {
    fn clone(&self) -> (r: Self)
        ensures
            r == *self,
    {
        FieldPointer {
            prefix: match &self.prefix {
                Option::Some(p) => Option::Some(p.clone()),
                Option::None => Option::None,
            },
            attr: self.attr.clone(),
        }
    }
}

/// Mathematical model of a [`ColumnReference`].
pub struct ColumnReferenceModel {
    pub stream: Seq<char>,
    pub column: Seq<char>,
}

/// A column fully resolved to the stream it belongs to.
#[derive(Debug)]
pub struct ColumnReference {
    pub stream: StreamName,
    pub column: ColumnName,
}

impl View for ColumnReference {
    type V = ColumnReferenceModel;

    open spec fn view(&self) -> ColumnReferenceModel {
        ColumnReferenceModel { stream: self.stream@, column: self.column@ }
    }
}

/// True when the pointer names this column: the attribute matches, and the
/// prefix (when there is one) matches the stream.
pub open spec fn colref_matches(c: ColumnReferenceModel, p: FieldPointerModel) -> bool {
    c.column == p.attr && match p.prefix {
        Option::Some(pre) => pre == c.stream,
        Option::None => true,
    }
}

impl ColumnReference {
    pub fn new(stream: StreamName, column: ColumnName) -> (r: Self)
        ensures
            r@ == (ColumnReferenceModel { stream: stream@, column: column@ }),
    {
        ColumnReference { stream, column }
    }

    /// Whether `pointer` names this column.
    pub fn matches(&self, pointer: &FieldPointer) -> (r: bool)
        ensures
            r == colref_matches(self@, pointer@),
    {
        if !self.column.as_string().eq(pointer.attr()) {
            return false;
        }
        match &pointer.prefix {
            Option::Some(pre) => pre.eq(self.stream.as_string()),
            Option::None => true,
        }
    }
}

impl Clone for ColumnReference {
    fn clone(&self) -> (r: Self)
        ensures
            r == *self,
    {
        ColumnReference { stream: self.stream.clone(), column: self.column.clone() }
    }
}

impl PartialEq for ColumnReference {
    fn eq(&self, other: &Self) -> (r: bool) {
        self.stream.eq(&other.stream) && self.column.eq(&other.column)
    }
}

impl vstd::std_specs::cmp::PartialEqSpecImpl for ColumnReference {
    open spec fn obeys_eq_spec() -> bool {
        true
    }

    open spec fn eq_spec(&self, other: &Self) -> bool {
        self@ == other@
    }
}

/// The sign of a unary arithmetic operator.
#[derive(Clone, Copy, PartialEq, Eq, Structural, Debug)]
pub enum UnaryOperator {
    Minus,
}

/// An expression of a SELECT field.
#[derive(Debug)]
pub enum Expression {
    /// A literal value.
    Constant { value: SqlValue },
    /// A unary arithmetic operation over a sub-expression.
    UnaryOperator { op: UnaryOperator, expr: Box<Expression> },
    /// A boolean comparison between two sub-expressions.
    BooleanExpr { left: Box<Expression>, right: Box<Expression> },
    /// A column.
    FieldPointer { ptr: FieldPointer },
    /// A call of a built-in function.
    FunctionCall { call: FunctionCall },
}

/// A built-in function call.
#[derive(Debug)]
pub enum FunctionCall {
    /// `FLOOR(target, resolution)` over a rowtime.
    FloorTime { target: Box<Expression>, resolution: Box<Expression> },
    /// `DURATION_SECS(secs)`; only valid as a FLOOR resolution.
    DurationSecs { secs: u64 },
}

impl Clone for Expression {
    fn clone(&self) -> (r: Self)
        ensures
            r == *self,
        decreases *self,
    {
        match self {
            Expression::Constant { value } => Expression::Constant { value: value.clone() },
            Expression::UnaryOperator { op, expr } => Expression::UnaryOperator {
                op: *op,
                expr: Box::new((**expr).clone()),
            },
            Expression::BooleanExpr { left, right } => Expression::BooleanExpr {
                left: Box::new((**left).clone()),
                right: Box::new((**right).clone()),
            },
            Expression::FieldPointer { ptr } => Expression::FieldPointer { ptr: ptr.clone() },
            Expression::FunctionCall { call } => Expression::FunctionCall { call: call.clone() },
        }
    }
}

impl Clone for FunctionCall {
    fn clone(&self) -> (r: Self)
        ensures
            r == *self,
        decreases *self,
    {
        match self {
            FunctionCall::FloorTime { target, resolution } => FunctionCall::FloorTime {
                target: Box::new((**target).clone()),
                resolution: Box::new((**resolution).clone()),
            },
            FunctionCall::DurationSecs { secs } => FunctionCall::DurationSecs { secs: *secs },
        }
    }
}

} // verus!
