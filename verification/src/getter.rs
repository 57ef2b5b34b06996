use vstd::prelude::*;

use crate::ast::clone_opt_expr;
use crate::ast::Expr;
use crate::ast::QueryError;
use crate::ast::Value;
use crate::rows::clone_fields;
use crate::rows::Columns;
use crate::rows::Row;

verus! {

/// A compiled value accessor: a pure function from a row to a
/// string. A column accessor reads the field at a fixed position, a
/// literal accessor ignores the row, and the empty accessor stands
/// in when no expression was given.
#[derive(Debug)]
pub enum Getter {
    Column(usize),
    Literal(String),
    Empty,
}

/// The position of the first column carrying `name`, or -1 when no
/// column does. When a name repeats, the lowest position wins.
pub open spec fn first_match(cols: Seq<String>, name: Seq<char>) -> int
    decreases cols.len(),
{
    if cols.len() == 0 {
        -1
    } else if cols[0]@ == name {
        0
    } else {
        let rest = first_match(cols.drop_first(), name);
        if rest < 0 {
            -1
        } else {
            rest + 1
        }
    }
}

/// What `first_match` finds is the lowest matching position, and a
/// negative answer means no column matches at all.
pub proof fn lemma_first_match(cols: Seq<String>, name: Seq<char>)
    ensures
        first_match(cols, name) >= 0 ==> first_match(cols, name) < cols.len()
            && cols[first_match(cols, name)]@ == name,
        first_match(cols, name) >= 0 ==> (forall|j: int|
            0 <= j < first_match(cols, name) ==> cols[j]@ != name),
        first_match(cols, name) < 0 ==> (forall|j: int|
            0 <= j < cols.len() ==> cols[j]@ != name),
    decreases cols.len(),
{
    if cols.len() == 0 {
    } else if cols[0]@ == name {
    } else {
        lemma_first_match(cols.drop_first(), name);
        assert(forall|j: int| 1 <= j < cols.len() ==> cols[j] == cols.drop_first()[j - 1]);
    }
}

/// The string a value accessor yields on a row.
pub open spec fn getter_val(g: Getter, row: Seq<String>) -> Seq<char> {
    match g {
        Getter::Column(i) => row[i as int]@,
        Getter::Literal(s) => s@,
        Getter::Empty => Seq::<char>::empty(),
    }
}

/// Whether a value accessor only reads positions below `n`: the
/// shape invariant that ties an accessor to one column directory.
pub open spec fn getter_in_bounds(g: Getter, n: int) -> bool {
    match g {
        Getter::Column(i) => i < n,
        Getter::Literal(_) => true,
        Getter::Empty => true,
    }
}

/// Whether a scalar expression compiles against the directory: a
/// known column reference, a string literal or a number literal.
pub open spec fn scalar_ok(cols: Seq<String>, e: Expr) -> bool {
    match e {
        Expr::Identifier(name) => first_match(cols, name@) >= 0,
        Expr::Value(v) => match v {
            Value::SingleQuotedString(_) => true,
            Value::Number(_) => true,
            Value::Other => false,
        },
        _ => false,
    }
}

/// The accessor a scalar expression compiles to, when it compiles.
pub open spec fn scalar_getter(cols: Seq<String>, e: Expr) -> Getter {
    match e {
        Expr::Identifier(name) => Getter::Column(first_match(cols, name@) as usize),
        Expr::Value(Value::SingleQuotedString(s)) => Getter::Literal(s),
        Expr::Value(Value::Number(n)) => Getter::Literal(n),
        _ => Getter::Empty,
    }
}

/// The failure a scalar expression compiles to, when it does not.
pub open spec fn scalar_err(cols: Seq<String>, e: Expr) -> QueryError {
    match e {
        Expr::Identifier(name) => QueryError::UnknownColumn(name),
        _ => QueryError::UnsupportedExpression,
    }
}

/// `scalar_ok` lifted over an optional expression: an absent
/// expression always compiles (to the empty accessor).
pub open spec fn opt_scalar_ok(cols: Seq<String>, e: Option<Expr>) -> bool {
    match e {
        Option::None => true,
        Option::Some(x) => scalar_ok(cols, x),
    }
}

/// `scalar_getter` lifted over an optional expression.
pub open spec fn opt_scalar_getter(cols: Seq<String>, e: Option<Expr>) -> Getter {
    match e {
        Option::None => Getter::Empty,
        Option::Some(x) => scalar_getter(cols, x),
    }
}

impl Getter {
    /// Evaluates the accessor on one row. A column accessor needs
    /// the row to reach its position; a compiled accessor does on
    /// every row that matches the directory it was compiled against.
    pub fn eval(&self, row: &Row) -> (r: String)
        requires
            getter_in_bounds(*self, row@.len() as int),
        ensures
            r@ == getter_val(*self, row@),
    {
        match self {
            Getter::Column(i) => row[*i].clone(),
            Getter::Literal(s) => s.clone(),
            Getter::Empty => String::new(),
        }
    }
}

/// Compiles optional scalar expressions into value accessors over a
/// fixed column directory.
#[derive(Debug)]
pub struct GetterBuilder {
    pub columns: Columns,
    pub expr: Option<Expr>,
}

impl Default for GetterBuilder {
    fn default() -> (r: GetterBuilder)
        ensures
            r.columns@.len() == 0,
            r.expr is None,
    {
        GetterBuilder { columns: Vec::new(), expr: Option::None }
    }
}

impl GetterBuilder {
    pub fn new() -> (r: Self)
        ensures
            r.columns@.len() == 0,
            r.expr is None,
    {
        GetterBuilder::default()
    }

    pub fn with_columns(self, columns: &Columns) -> (r: Self)
        ensures
            r.columns@ == columns@,
            r.expr == self.expr,
    {
        GetterBuilder { columns: clone_fields(columns), expr: self.expr }
    }

    pub fn with_expr(self, expr: &Option<Expr>) -> (r: Self)
        ensures
            r.columns == self.columns,
            r.expr == *expr,
    {
        GetterBuilder { columns: self.columns, expr: clone_opt_expr(expr) }
    }

    pub fn build(&self) -> (r: Result<Getter, QueryError>)
        ensures
            r is Ok <==> opt_scalar_ok(self.columns@, self.expr),
            r matches Ok(g) ==> g == opt_scalar_getter(self.columns@, self.expr)
                && getter_in_bounds(g, self.columns@.len() as int),
            r matches Err(e) ==> self.expr matches Some(x) && e == scalar_err(self.columns@, x),
    {
        let res = self.generate(clone_opt_expr(&self.expr))?;
        Ok(res)
    }

    pub fn generate(&self, x: Option<Expr>) -> (r: Result<Getter, QueryError>)
        ensures
            r is Ok <==> opt_scalar_ok(self.columns@, x),
            r matches Ok(g) ==> g == opt_scalar_getter(self.columns@, x)
                && getter_in_bounds(g, self.columns@.len() as int),
            r matches Err(e) ==> x matches Some(ex) && e == scalar_err(self.columns@, ex),
    {
        match x {
            Option::Some(x) => self.generate_expr(x),
            Option::None => Ok(self.generate_default()),
        }
    }

    pub fn generate_expr(&self, x: Expr) -> (r: Result<Getter, QueryError>)
        ensures
            r is Ok <==> scalar_ok(self.columns@, x),
            r matches Ok(g) ==> g == scalar_getter(self.columns@, x)
                && getter_in_bounds(g, self.columns@.len() as int),
            r matches Err(e) ==> e == scalar_err(self.columns@, x),
    {
        match x {
            Expr::Identifier(name) => self.generate_identifier(name),
            Expr::Value(v) => self.generate_value(v),
            _ => Err(QueryError::UnsupportedExpression),
        }
    }

    fn generate_identifier(&self, name: String) -> (r: Result<Getter, QueryError>)
        ensures
            first_match(self.columns@, name@) >= 0 ==> (r matches Ok(g)
                && g == Getter::Column(first_match(self.columns@, name@) as usize)
                && getter_in_bounds(g, self.columns@.len() as int)),
            first_match(self.columns@, name@) < 0 ==> (r matches Err(e)
                && e == QueryError::UnknownColumn(name)),
    {
        self.generate_ident(name)
    }

    fn generate_value(&self, v: Value) -> (r: Result<Getter, QueryError>)
        ensures
            match v {
                Value::SingleQuotedString(s) => r matches Ok(g) && g == Getter::Literal(s),
                Value::Number(n) => r matches Ok(g) && g == Getter::Literal(n),
                Value::Other => r matches Err(e) && e == QueryError::UnsupportedExpression,
            },
    {
        match v {
            Value::SingleQuotedString(s) => Ok(self.generate_from_str(s)),
            Value::Number(n) => Ok(self.generate_from_str(n)),
            Value::Other => Err(QueryError::UnsupportedExpression),
        }
    }

    fn generate_ident(&self, name: String) -> (r: Result<Getter, QueryError>)
        ensures
            first_match(self.columns@, name@) >= 0 ==> (r matches Ok(g)
                && g == Getter::Column(first_match(self.columns@, name@) as usize)
                && getter_in_bounds(g, self.columns@.len() as int)),
            first_match(self.columns@, name@) < 0 ==> (r matches Err(e)
                && e == QueryError::UnknownColumn(name)),
    {
        let pos = find_column(&self.columns, &name);
        match pos {
            Option::Some(pos) => Ok(Getter::Column(pos)),
            Option::None => Err(QueryError::UnknownColumn(name)),
        }
    }

    fn generate_from_str(&self, s: String) -> (g: Getter)
        ensures
            g == Getter::Literal(s),
    {
        Getter::Literal(s)
    }

    fn generate_default(&self) -> (g: Getter)
        ensures
            g == Getter::Empty,
    {
        Getter::Empty
    }
}

/// The position of the first column carrying `name`, as
/// `first_match` gives it, or `None` when no column does.
pub(crate) fn find_column(columns: &Columns, name: &String) -> (r: Option<usize>)
    ensures
        r matches Some(i) ==> first_match(columns@, name@) == i && i < columns@.len(),
        r is None ==> first_match(columns@, name@) < 0,
{
    let n = columns.len();
    let mut i: usize = 0;
    while i < n
        invariant
            n == columns@.len(),
            i <= n,
            forall|j: int| 0 <= j < i ==> columns@[j]@ != name@,
        decreases n - i,
    {
        if columns[i] == *name {
            proof {
                lemma_first_match(columns@, name@);
            }
            return Option::Some(i);
        }
        i = i + 1;
    }
    proof {
        lemma_first_match(columns@, name@);
    }
    Option::None
}

/// Compiles an optional scalar expression against a column
/// directory in one step.
pub fn gen_from(columns: &Columns, expr: &Option<Expr>) -> (r: Result<Getter, QueryError>)
    ensures
        r is Ok <==> opt_scalar_ok(columns@, *expr),
        r matches Ok(g) ==> g == opt_scalar_getter(columns@, *expr)
            && getter_in_bounds(g, columns@.len() as int),
        r matches Err(e) ==> *expr matches Some(x) && e == scalar_err(columns@, x),
{
    GetterBuilder::new().with_columns(columns).with_expr(expr).build()
}

/// An accessor for the field at a fixed position.
pub fn gen_from_index(index: usize) -> (g: Getter)
    ensures
        g == Getter::Column(index),
{
    Getter::Column(index)
}

} // verus!
