use vstd::prelude::*;
use vstd::string::StringExecFns;

verus! {

/// A literal value inside an expression. Only single-quoted strings
/// and decimal number literals are supported; every other literal
/// kind is represented by `Other` and rejected at compile time.
#[derive(Debug)]
pub enum Value {
    SingleQuotedString(String),
    Number(String),
    Other,
}

/// A binary operator. `Other` carries the text of an operator that
/// the engine does not support, so the error can name it.
#[derive(Debug)]
pub enum BinaryOperator {
    And,
    Eq,
    NotEq,
    Gt,
    Lt,
    Other(String),
}

/// A scalar or boolean expression, as handed over by the parser.
/// `Other` stands for every expression shape the engine does not
/// support (function calls, arithmetic, nested constructs, ...).
#[derive(Debug)]
pub enum Expr {
    Identifier(String),
    Value(Value),
    BinaryOp { left: Box<Expr>, op: BinaryOperator, right: Box<Expr> },
    Other,
}

/// One item of a SELECT list: a bare expression, a lone `*`, or an
/// unsupported shape (alias, qualified wildcard, ...).
#[derive(Debug)]
pub enum SelectItem {
    UnnamedExpr(Expr),
    Wildcard,
    Other,
}

/// The parts of a `SELECT` statement that the engine interprets:
/// the FROM list (only the first entry is used), the SELECT list,
/// the optional WHERE expression and the optional LIMIT expression.
#[derive(Debug)]
pub struct Query {
    pub from: Vec<String>,
    pub projection: Vec<SelectItem>,
    pub selection: Option<Expr>,
    pub limit: Option<Expr>,
}

/// A compilation failure. Every variant is raised before any data
/// row is read.
#[derive(Debug, PartialEq, Eq)]
pub enum QueryError {
    /// A referenced column name is absent from the column directory.
    UnknownColumn(String),
    /// An expression shape that the engine cannot compile.
    UnsupportedExpression,
    /// A comparison or logical operator other than `AND`, `=`, `<>`,
    /// `>`, `<`; carries the operator's text.
    UnsupportedOperator(String),
    /// A SELECT item that is not a bare column reference and not a
    /// lone wildcard.
    UnsupportedSelectItem,
    /// A LIMIT clause that is not a plain non-negative integer
    /// literal within machine range.
    UnsupportedLimitExpression,
    /// The query names no FROM source.
    MissingFrom,
}

impl QueryError {
    /// The human-readable message carried across the boundary.
    pub open spec fn message_view(self) -> Seq<char> {
        match self {
            QueryError::UnknownColumn(name) => "column \""@ + name@ + "\" is not found"@,
            QueryError::UnsupportedExpression => "unsupported expression"@,
            QueryError::UnsupportedOperator(op) => "unsupported operator "@ + op@,
            QueryError::UnsupportedSelectItem => "unsupported select item"@,
            QueryError::UnsupportedLimitExpression => "cannot evaluate limit expression"@,
            QueryError::MissingFrom => "can't find \"from\" in select query"@,
        }
    }

    /// Renders the failure as one human-readable message.
    pub fn message(&self) -> (r: String)
        ensures
            r@ == self.message_view(),
    {
        match self {
            QueryError::UnknownColumn(name) => {
                let mut s = "column \"".to_owned();
                s.append(name.as_str());
                s.append("\" is not found");
                s
            },
            QueryError::UnsupportedExpression => "unsupported expression".to_owned(),
            QueryError::UnsupportedOperator(op) => {
                let mut s = "unsupported operator ".to_owned();
                s.append(op.as_str());
                s
            },
            QueryError::UnsupportedSelectItem => "unsupported select item".to_owned(),
            QueryError::UnsupportedLimitExpression => "cannot evaluate limit expression".to_owned(),
            QueryError::MissingFrom => "can't find \"from\" in select query".to_owned(),
        }
    }
}

impl Clone for Value {
    fn clone(&self) -> (r: Value)
        ensures
            r == *self,
    {
        match self {
            Value::SingleQuotedString(s) => Value::SingleQuotedString(s.clone()),
            Value::Number(n) => Value::Number(n.clone()),
            Value::Other => Value::Other,
        }
    }
}

impl Clone for BinaryOperator {
    fn clone(&self) -> (r: BinaryOperator)
        ensures
            r == *self,
    {
        match self {
            BinaryOperator::And => BinaryOperator::And,
            BinaryOperator::Eq => BinaryOperator::Eq,
            BinaryOperator::NotEq => BinaryOperator::NotEq,
            BinaryOperator::Gt => BinaryOperator::Gt,
            BinaryOperator::Lt => BinaryOperator::Lt,
            BinaryOperator::Other(s) => BinaryOperator::Other(s.clone()),
        }
    }
}

impl Clone for Expr {
    fn clone(&self) -> (r: Expr)
        ensures
            r == *self,
        decreases self,
    {
        match self {
            Expr::Identifier(name) => Expr::Identifier(name.clone()),
            Expr::Value(v) => Expr::Value(v.clone()),
            Expr::BinaryOp { left, op, right } => Expr::BinaryOp {
                left: Box::new((**left).clone()),
                op: op.clone(),
                right: Box::new((**right).clone()),
            },
            Expr::Other => Expr::Other,
        }
    }
}

impl Clone for SelectItem {
    fn clone(&self) -> (r: SelectItem)
        ensures
            r == *self,
    {
        match self {
            SelectItem::UnnamedExpr(e) => SelectItem::UnnamedExpr(e.clone()),
            SelectItem::Wildcard => SelectItem::Wildcard,
            SelectItem::Other => SelectItem::Other,
        }
    }
}

/// Copies an optional expression, keeping its value.
pub(crate) fn clone_opt_expr(e: &Option<Expr>) -> (r: Option<Expr>)
    ensures
        r == *e,
{
    match e {
        Option::None => Option::None,
        Option::Some(x) => Option::Some(x.clone()),
    }
}

} // verus!
