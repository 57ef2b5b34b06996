use vstd::prelude::*;

use crate::ast::clone_opt_expr;
use crate::ast::BinaryOperator;
use crate::ast::Expr;
use crate::ast::QueryError;
use crate::getter;
use crate::getter::getter_in_bounds;
use crate::getter::getter_val;
use crate::getter::scalar_err;
use crate::getter::scalar_getter;
use crate::getter::scalar_ok;
use crate::getter::Getter;
use crate::rows::clone_fields;
use crate::rows::Columns;
use crate::rows::Row;
use crate::text::lex_lt;
use crate::text::str_lt;

verus! {

/// A comparison operator over two field strings.
#[derive(Debug, Clone, Copy)]
pub enum CompareOp {
    Eq,
    NotEq,
    Gt,
    Lt,
}

/// A compiled predicate: a pure function from a row to a boolean.
/// `All` is the tautology that stands in when WHERE is absent;
/// `Compare` applies one operator to two value accessors; `And` is
/// the short-circuiting conjunction.
#[derive(Debug)]
pub enum Filter {
    All,
    Compare { op: CompareOp, left: Getter, right: Getter },
    And(Box<Filter>, Box<Filter>),
}

/// The truth value of a comparison between two field strings.
/// Equality is exact string equality; order is byte-wise
/// lexicographic over the UTF-8 encodings.
pub open spec fn compare_val(op: CompareOp, a: Seq<char>, b: Seq<char>) -> bool {
    match op {
        CompareOp::Eq => a == b,
        CompareOp::NotEq => a != b,
        CompareOp::Gt => lex_lt(b, a),
        CompareOp::Lt => lex_lt(a, b),
    }
}

/// The truth value of a predicate on one row.
pub open spec fn filter_val(f: Filter, row: Seq<String>) -> bool
    decreases f,
{
    match f {
        Filter::All => true,
        Filter::Compare { op, left, right } => compare_val(
            op,
            getter_val(left, row),
            getter_val(right, row),
        ),
        Filter::And(a, b) => filter_val(*a, row) && filter_val(*b, row),
    }
}

/// Whether evaluating a predicate on this row stays within the
/// row's fields. A conjunction only reaches its right side when the
/// left side holds, so the right side need be safe only then.
pub open spec fn filter_evaluable(f: Filter, row: Seq<String>) -> bool
    decreases f,
{
    match f {
        Filter::All => true,
        Filter::Compare { op, left, right } => getter_in_bounds(left, row.len() as int)
            && getter_in_bounds(right, row.len() as int),
        Filter::And(a, b) => filter_evaluable(*a, row) && (filter_val(*a, row)
            ==> filter_evaluable(*b, row)),
    }
}

/// Whether every accessor in the predicate reads below `n`: what
/// compilation against a directory of `n` columns establishes.
pub open spec fn filter_in_bounds(f: Filter, n: int) -> bool
    decreases f,
{
    match f {
        Filter::All => true,
        Filter::Compare { op, left, right } => getter_in_bounds(left, n) && getter_in_bounds(
            right,
            n,
        ),
        Filter::And(a, b) => filter_in_bounds(*a, n) && filter_in_bounds(*b, n),
    }
}

/// A predicate compiled against a directory of `n` columns can be
/// evaluated on every row of `n` fields.
pub proof fn lemma_in_bounds_evaluable(f: Filter, row: Seq<String>)
    requires
        filter_in_bounds(f, row.len() as int),
    ensures
        filter_evaluable(f, row),
    decreases f,
{
    match f {
        Filter::And(a, b) => {
            lemma_in_bounds_evaluable(*a, row);
            lemma_in_bounds_evaluable(*b, row);
        },
        _ => {},
    }
}

/// Law: conjunction short-circuits. When the left side of an AND is
/// false on a row, the whole predicate is false and can be
/// evaluated on that row no matter what the right side is — even a
/// right side whose accessors reach past the row's fields is never
/// consulted.
pub proof fn lemma_and_short_circuit(l: Filter, r: Filter, row: Seq<String>)
    requires
        filter_evaluable(l, row),
        !filter_val(l, row),
    ensures
        filter_evaluable(Filter::And(Box::new(l), Box::new(r)), row),
        !filter_val(Filter::And(Box::new(l), Box::new(r)), row),
{
}

impl Filter {
    /// Evaluates the predicate on one row. The conjunction tests
    /// its left side first and skips the right side when the left
    /// side already failed.
    pub fn eval(&self, row: &Row) -> (r: bool)
        requires
            filter_evaluable(*self, row@),
        ensures
            r == filter_val(*self, row@),
        decreases self,
    {
        match self {
            Filter::All => true,
            Filter::Compare { op, left, right } => {
                let a = left.eval(row);
                let b = right.eval(row);
                match op {
                    CompareOp::Eq => a == b,
                    CompareOp::NotEq => !(a == b),
                    CompareOp::Gt => str_lt(b.as_str(), a.as_str()),
                    CompareOp::Lt => str_lt(a.as_str(), b.as_str()),
                }
            },
            Filter::And(a, b) => {
                if !a.eval(row) {
                    false
                } else {
                    b.eval(row)
                }
            },
        }
    }
}

/// The comparison operator a supported binary operator denotes.
pub open spec fn cmp_of(op: BinaryOperator) -> CompareOp {
    match op {
        BinaryOperator::Eq => CompareOp::Eq,
        BinaryOperator::NotEq => CompareOp::NotEq,
        BinaryOperator::Gt => CompareOp::Gt,
        BinaryOperator::Lt => CompareOp::Lt,
        _ => CompareOp::Eq,
    }
}

/// Whether a WHERE expression compiles against the directory: a
/// tree of `AND` nodes over comparisons whose operators are
/// supported and whose scalar sides compile.
pub open spec fn pred_ok(cols: Seq<String>, e: Expr) -> bool
    decreases e,
{
    match e {
        Expr::BinaryOp { left, op, right } => match op {
            BinaryOperator::And => pred_ok(cols, *left) && pred_ok(cols, *right),
            BinaryOperator::Other(_) => false,
            _ => scalar_ok(cols, *left) && scalar_ok(cols, *right),
        },
        _ => false,
    }
}

/// The predicate a WHERE expression compiles to, when it compiles.
pub open spec fn pred_filter(cols: Seq<String>, e: Expr) -> Filter
    decreases e,
{
    match e {
        Expr::BinaryOp { left, op, right } => match op {
            BinaryOperator::And => Filter::And(
                Box::new(pred_filter(cols, *left)),
                Box::new(pred_filter(cols, *right)),
            ),
            BinaryOperator::Other(_) => Filter::All,
            _ => Filter::Compare {
                op: cmp_of(op),
                left: scalar_getter(cols, *left),
                right: scalar_getter(cols, *right),
            },
        },
        _ => Filter::All,
    }
}

/// The failure a WHERE expression compiles to, when it does not:
/// the left operand is compiled before the right, and an operand
/// failure is reported before an unsupported operator.
pub open spec fn pred_err(cols: Seq<String>, e: Expr) -> QueryError
    decreases e,
{
    match e {
        Expr::BinaryOp { left, op, right } => match op {
            BinaryOperator::And => if !pred_ok(cols, *left) {
                pred_err(cols, *left)
            } else {
                pred_err(cols, *right)
            },
            BinaryOperator::Other(t) => if !scalar_ok(cols, *left) {
                scalar_err(cols, *left)
            } else if !scalar_ok(cols, *right) {
                scalar_err(cols, *right)
            } else {
                QueryError::UnsupportedOperator(t)
            },
            _ => if !scalar_ok(cols, *left) {
                scalar_err(cols, *left)
            } else {
                scalar_err(cols, *right)
            },
        },
        _ => QueryError::UnsupportedExpression,
    }
}

/// `pred_ok` lifted over an optional WHERE expression: an absent
/// clause always compiles (to the tautology).
pub open spec fn opt_pred_ok(cols: Seq<String>, e: Option<Expr>) -> bool {
    match e {
        Option::None => true,
        Option::Some(x) => pred_ok(cols, x),
    }
}

/// `pred_filter` lifted over an optional WHERE expression.
pub open spec fn opt_pred_filter(cols: Seq<String>, e: Option<Expr>) -> Filter {
    match e {
        Option::None => Filter::All,
        Option::Some(x) => pred_filter(cols, x),
    }
}

/// Compiles WHERE expressions into predicates over a fixed column
/// directory.
#[derive(Debug)]
pub struct FilterBuilder {
    pub columns: Columns,
    pub selection: Option<Expr>,
}

impl Default for FilterBuilder {
    fn default() -> (r: FilterBuilder)
        ensures
            r.columns@.len() == 0,
            r.selection is None,
    {
        FilterBuilder { columns: Vec::new(), selection: Option::None }
    }
}

impl FilterBuilder {
    pub fn new() -> (r: Self)
        ensures
            r.columns@.len() == 0,
            r.selection is None,
    {
        FilterBuilder::default()
    }

    pub fn with_columns(self, columns: &Columns) -> (r: Self)
        ensures
            r.columns@ == columns@,
            r.selection == self.selection,
    {
        FilterBuilder { columns: clone_fields(columns), selection: self.selection }
    }

    pub fn with_selection(self, selection: &Option<Expr>) -> (r: Self)
        ensures
            r.columns == self.columns,
            r.selection == *selection,
    {
        FilterBuilder { columns: self.columns, selection: clone_opt_expr(selection) }
    }

    pub fn build(&self) -> (r: Result<Filter, QueryError>)
        ensures
            r is Ok <==> opt_pred_ok(self.columns@, self.selection),
            r matches Ok(f) ==> f == opt_pred_filter(self.columns@, self.selection)
                && filter_in_bounds(f, self.columns@.len() as int),
            r matches Err(e) ==> self.selection matches Some(x) && e == pred_err(
                self.columns@,
                x,
            ),
    {
        self.generate(clone_opt_expr(&self.selection))
    }

    pub fn generate(&self, s: Option<Expr>) -> (r: Result<Filter, QueryError>)
        ensures
            r is Ok <==> opt_pred_ok(self.columns@, s),
            r matches Ok(f) ==> f == opt_pred_filter(self.columns@, s) && filter_in_bounds(
                f,
                self.columns@.len() as int,
            ),
            r matches Err(e) ==> s matches Some(x) && e == pred_err(self.columns@, x),
    {
        match s {
            Option::None => Ok(all()),
            Option::Some(expr) => Ok(self.generate_expr(expr)?),
        }
    }

    pub fn generate_expr(&self, s: Expr) -> (r: Result<Filter, QueryError>)
        ensures
            r is Ok <==> pred_ok(self.columns@, s),
            r matches Ok(f) ==> f == pred_filter(self.columns@, s) && filter_in_bounds(
                f,
                self.columns@.len() as int,
            ),
            r matches Err(e) ==> e == pred_err(self.columns@, s),
        decreases s,
    {
        match s {
            Expr::BinaryOp { left, op, right } => match op {
                BinaryOperator::And => {
                    let l: Filter = self.generate_expr(*left)?;
                    let r: Filter = self.generate_expr(*right)?;
                    Ok(Filter::And(Box::new(l), Box::new(r)))
                },
                other_op => {
                    let left = getter::gen_from(&self.columns, &Option::Some(*left))?;
                    let right = getter::gen_from(&self.columns, &Option::Some(*right))?;
                    match other_op {
                        BinaryOperator::Eq => self.generate_eq(left, right),
                        BinaryOperator::NotEq => self.generate_neq(left, right),
                        BinaryOperator::Gt => self.generate_gt(left, right),
                        BinaryOperator::Lt => self.generate_lt(left, right),
                        BinaryOperator::Other(t) => Err(QueryError::UnsupportedOperator(t)),
                        BinaryOperator::And => Err(QueryError::UnsupportedExpression),
                    }
                },
            },
            _ => Err(QueryError::UnsupportedExpression),
        }
    }

    pub fn generate_eq(&self, left: Getter, right: Getter) -> (r: Result<Filter, QueryError>)
        ensures
            r matches Ok(f) && f == (Filter::Compare { op: CompareOp::Eq, left, right }),
    {
        Ok(Filter::Compare { op: CompareOp::Eq, left, right })
    }

    pub fn generate_gt(&self, left: Getter, right: Getter) -> (r: Result<Filter, QueryError>)
        ensures
            r matches Ok(f) && f == (Filter::Compare { op: CompareOp::Gt, left, right }),
    {
        Ok(Filter::Compare { op: CompareOp::Gt, left, right })
    }

    pub fn generate_lt(&self, left: Getter, right: Getter) -> (r: Result<Filter, QueryError>)
        ensures
            r matches Ok(f) && f == (Filter::Compare { op: CompareOp::Lt, left, right }),
    {
        Ok(Filter::Compare { op: CompareOp::Lt, left, right })
    }

    pub fn generate_neq(&self, left: Getter, right: Getter) -> (r: Result<Filter, QueryError>)
        ensures
            r matches Ok(f) && f == (Filter::Compare { op: CompareOp::NotEq, left, right }),
    {
        Ok(Filter::Compare { op: CompareOp::NotEq, left, right })
    }
}

/// The tautology: the predicate that admits every row.
pub fn all() -> (r: Filter)
    ensures
        r == Filter::All,
        forall|row: Seq<String>| filter_val(r, row),
{
    Filter::All
}

/// Compiles an optional WHERE expression against a column directory
/// in one step.
pub fn gen_from(columns: &Columns, selection: &Option<Expr>) -> (r: Result<Filter, QueryError>)
    ensures
        r is Ok <==> opt_pred_ok(columns@, *selection),
        r matches Ok(f) ==> f == opt_pred_filter(columns@, *selection) && filter_in_bounds(
            f,
            columns@.len() as int,
        ),
        r matches Err(e) ==> *selection matches Some(x) && e == pred_err(columns@, x),
{
    FilterBuilder::new().with_columns(columns).with_selection(selection).build()
}

} // verus!
