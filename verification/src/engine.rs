use vstd::prelude::*;
use vstd::utf8::encode_utf8;

use crate::ast::Expr;
use crate::ast::Query;
use crate::ast::QueryError;
use crate::ast::SelectItem;
use crate::ast::Value;
use crate::filter;
use crate::filter::filter_in_bounds;
use crate::filter::filter_val;
use crate::filter::lemma_in_bounds_evaluable;
use crate::filter::opt_pred_filter;
use crate::filter::opt_pred_ok;
use crate::filter::pred_err;
use crate::filter::Filter;
use crate::getter::find_column;
use crate::getter::first_match;
use crate::getter::Getter;
use crate::mapper;
use crate::mapper::is_wildcard_selection;
use crate::mapper::items_mapper;
use crate::mapper::items_ok;
use crate::mapper::mapper_in_bounds;
use crate::mapper::mapper_val;
use crate::mapper::wildcard_mapper;
use crate::mapper::Mapper;
use crate::rows::clone_fields;
use crate::rows::row_view;
use crate::rows::rows_view;
use crate::rows::Columns;
use crate::rows::Row;
use crate::text::dec_val;
use crate::text::parse_usize;
use crate::text::parses_to_usize;

verus! {

/// The cap on emitted rows when the query has no LIMIT clause.
pub const DEFAULT_LIMIT: usize = 1000;

/// Whether a LIMIT expression is accepted: a plain non-negative
/// decimal integer literal whose value fits the machine.
pub open spec fn limit_ok(e: Expr) -> bool {
    match e {
        Expr::Value(Value::Number(n)) => parses_to_usize(n@),
        _ => false,
    }
}

/// The row cap a LIMIT expression names, when it is accepted.
pub open spec fn limit_val(e: Expr) -> int {
    match e {
        Expr::Value(Value::Number(n)) => dec_val(encode_utf8(n@)),
        _ => 0,
    }
}

/// The row cap of a whole query: the LIMIT's value, or the default
/// cap when the clause is absent.
pub open spec fn spec_limit(l: Option<Expr>) -> int {
    match l {
        Option::None => DEFAULT_LIMIT as int,
        Option::Some(e) => limit_val(e),
    }
}

/// Reads the row cap out of a LIMIT expression. Everything but a
/// plain integer literal in machine range is rejected.
pub fn extract_limit(limit: Expr) -> (r: Result<usize, QueryError>)
    ensures
        r is Ok <==> limit_ok(limit),
        r matches Ok(v) ==> v == limit_val(limit),
        r matches Err(e) ==> e == QueryError::UnsupportedLimitExpression,
{
    match limit {
        Expr::Value(Value::Number(n)) => match parse_usize(n.as_str()) {
            Option::Some(v) => Ok(v),
            Option::None => Err(QueryError::UnsupportedLimitExpression),
        },
        _ => Err(QueryError::UnsupportedLimitExpression),
    }
}

/// Whether one SELECT item resolves to a column position: only a
/// bare reference to a known column does.
pub open spec fn colnum_ok(cols: Seq<String>, it: SelectItem) -> bool {
    match it {
        SelectItem::UnnamedExpr(e) => match e {
            Expr::Identifier(name) => first_match(cols, name@) >= 0,
            _ => false,
        },
        _ => false,
    }
}

/// The position one SELECT item resolves to, when it does.
pub open spec fn colnum_val(cols: Seq<String>, it: SelectItem) -> int {
    match it {
        SelectItem::UnnamedExpr(e) => match e {
            Expr::Identifier(name) => first_match(cols, name@),
            _ => 0,
        },
        _ => 0,
    }
}

/// The failure one SELECT item resolves to, when it does not.
pub open spec fn colnum_err(cols: Seq<String>, it: SelectItem) -> QueryError {
    match it {
        SelectItem::UnnamedExpr(e) => match e {
            Expr::Identifier(name) => QueryError::UnknownColumn(name),
            _ => QueryError::UnsupportedSelectItem,
        },
        _ => QueryError::UnsupportedSelectItem,
    }
}

/// Whether every SELECT item resolves to a column position.
pub open spec fn colnums_ok(cols: Seq<String>, s: Seq<SelectItem>) -> bool {
    forall|i: int| 0 <= i < s.len() ==> colnum_ok(cols, #[trigger] s[i])
}

/// The positions a SELECT list resolves to, item by item.
pub open spec fn colnum_seq(cols: Seq<String>, s: Seq<SelectItem>) -> Seq<usize> {
    Seq::new(s.len(), |i: int| colnum_val(cols, s[i]) as usize)
}

/// The position of the first SELECT item that does not resolve, or
/// -1 when all do.
pub open spec fn first_bad_colnum(cols: Seq<String>, s: Seq<SelectItem>) -> int
    decreases s.len(),
{
    if s.len() == 0 {
        -1
    } else if !colnum_ok(cols, s[0]) {
        0
    } else {
        let rest = first_bad_colnum(cols, s.drop_first());
        if rest < 0 {
            -1
        } else {
            rest + 1
        }
    }
}

/// The failure a SELECT list resolves to, when some item fails.
pub open spec fn colnums_err(cols: Seq<String>, s: Seq<SelectItem>) -> QueryError {
    colnum_err(cols, s[first_bad_colnum(cols, s)])
}

/// What `first_bad_colnum` finds is the lowest failing position,
/// and a negative answer means every item resolves.
pub proof fn lemma_first_bad_colnum(cols: Seq<String>, s: Seq<SelectItem>)
    ensures
        first_bad_colnum(cols, s) >= 0 ==> first_bad_colnum(cols, s) < s.len() && !colnum_ok(
            cols,
            s[first_bad_colnum(cols, s)],
        ),
        first_bad_colnum(cols, s) >= 0 ==> (forall|j: int|
            0 <= j < first_bad_colnum(cols, s) ==> colnum_ok(cols, #[trigger] s[j])),
        first_bad_colnum(cols, s) < 0 ==> colnums_ok(cols, s),
    decreases s.len(),
{
    if s.len() == 0 {
    } else if !colnum_ok(cols, s[0]) {
    } else {
        lemma_first_bad_colnum(cols, s.drop_first());
        assert(forall|j: int| 1 <= j < s.len() ==> s[j] == s.drop_first()[j - 1]);
    }
}

/// The identity position list `0, 1, ..., n-1`: what a lone
/// wildcard resolves to.
pub open spec fn identity_numbers(n: nat) -> Seq<usize> {
    Seq::new(n, |i: int| i as usize)
}

/// An item that resolves to a position also compiles as a
/// projection item.
proof fn lemma_colnums_ok_items_ok(cols: Seq<String>, s: Seq<SelectItem>)
    requires
        colnums_ok(cols, s),
    ensures
        items_ok(cols, s),
{
    assert forall|i: int| 0 <= i < s.len() implies crate::mapper::item_ok(
        cols,
        #[trigger] s[i],
    ) by {
        assert(colnum_ok(cols, s[i]));
    }
}

/// Resolves every SELECT item to a column position: the positions
/// `0..n` for a lone wildcard, else each item must be a bare
/// reference to a known column. Fails on the first item that is
/// not, before any row is read.
pub fn get_column_numbers(columns: &Columns, cols: &Vec<SelectItem>) -> (r: Result<
    Vec<usize>,
    QueryError,
>)
    ensures
        is_wildcard_selection(cols@) ==> (r matches Ok(v) && v@ == identity_numbers(
            columns@.len() as nat,
        )),
        !is_wildcard_selection(cols@) ==> ((r is Ok <==> colnums_ok(columns@, cols@)) && (
        r matches Ok(v) ==> v@ == colnum_seq(columns@, cols@)) && (r matches Err(e) ==> e
            == colnums_err(columns@, cols@))),
{
    if cols.len() == 1 {
        match &cols[0] {
            SelectItem::Wildcard => {
                let n = columns.len();
                let mut out: Vec<usize> = Vec::new();
                let mut i: usize = 0;
                while i < n
                    invariant
                        n == columns@.len(),
                        i <= n,
                        out@.len() == i,
                        forall|j: int| 0 <= j < i ==> out@[j] == j,
                    decreases n - i,
                {
                    out.push(i);
                    i = i + 1;
                }
                proof {
                    assert(out@ =~= identity_numbers(columns@.len() as nat));
                }
                return Ok(out);
            },
            _ => {},
        }
    }
    let mut out: Vec<usize> = Vec::new();
    let mut i: usize = 0;
    while i < cols.len()
        invariant
            !is_wildcard_selection(cols@),
            i <= cols@.len(),
            out@.len() == i,
            forall|j: int| 0 <= j < i ==> colnum_ok(columns@, #[trigger] cols@[j]),
            forall|j: int| 0 <= j < i ==> out@[j] == colnum_val(columns@, cols@[j]) as usize,
        decreases cols@.len() - i,
    {
        match &cols[i] {
            SelectItem::UnnamedExpr(e) => match e {
                Expr::Identifier(name) => match find_column(columns, name) {
                    Option::Some(p) => out.push(p),
                    Option::None => {
                        proof {
                            lemma_first_bad_colnum(columns@, cols@);
                        }
                        return Err(QueryError::UnknownColumn(name.clone()));
                    },
                },
                _ => {
                    proof {
                        lemma_first_bad_colnum(columns@, cols@);
                    }
                    return Err(QueryError::UnsupportedSelectItem);
                },
            },
            _ => {
                proof {
                    lemma_first_bad_colnum(columns@, cols@);
                }
                return Err(QueryError::UnsupportedSelectItem);
            },
        }
        i = i + 1;
    }
    proof {
        assert(out@ =~= colnum_seq(columns@, cols@));
    }
    Ok(out)
}

/// Whether the SELECT list as a whole is accepted: a lone wildcard
/// or a list of bare known-column references.
pub open spec fn select_ok(cols: Seq<String>, s: Seq<SelectItem>) -> bool {
    is_wildcard_selection(s) || colnums_ok(cols, s)
}

/// Whether a whole query compiles against the directory: it must
/// name a FROM source, and SELECT, WHERE and LIMIT must each be
/// accepted.
pub open spec fn query_ok(cols: Seq<String>, q: Query) -> bool {
    &&& q.from@.len() > 0
    &&& select_ok(cols, q.projection@)
    &&& opt_pred_ok(cols, q.selection)
    &&& (match q.limit {
        Option::None => true,
        Option::Some(e) => limit_ok(e),
    })
}

/// The failure a whole query compiles to, when it does not: a
/// missing FROM source is reported first, then the SELECT list is
/// checked, then the WHERE clause, then the LIMIT clause.
pub open spec fn query_err(cols: Seq<String>, q: Query) -> QueryError {
    if q.from@.len() == 0 {
        QueryError::MissingFrom
    } else if !select_ok(cols, q.projection@) {
        colnums_err(cols, q.projection@)
    } else if !opt_pred_ok(cols, q.selection) {
        match q.selection {
            Option::Some(x) => pred_err(cols, x),
            Option::None => QueryError::UnsupportedExpression,
        }
    } else {
        QueryError::UnsupportedLimitExpression
    }
}

/// The projection a query's SELECT list compiles to.
pub open spec fn query_mapper(cols: Seq<String>, q: Query) -> Seq<Getter> {
    if is_wildcard_selection(q.projection@) {
        wildcard_mapper(cols.len() as nat)
    } else {
        items_mapper(cols, q.projection@)
    }
}

/// A compiled query plan: the column directory it was compiled
/// against, the WHERE predicate, the SELECT projection and the cap
/// on emitted rows. Built once per query; every accessor inside is
/// valid for any row whose field count matches the directory.
#[derive(Debug)]
pub struct Plan {
    pub columns: Columns,
    pub filter: Filter,
    pub mapper: Mapper,
    pub limit: usize,
}

impl Plan {
    /// The shape invariant: predicate and projection only read
    /// positions the directory has.
    pub open spec fn wf(self) -> bool {
        &&& filter_in_bounds(self.filter, self.columns@.len() as int)
        &&& mapper_in_bounds(self.mapper@, self.columns@.len() as int)
    }

    /// Whether the pipeline still owes rows after `emitted` have
    /// been produced.
    pub fn wants_more(&self, emitted: usize) -> (r: bool)
        ensures
            r == (emitted < self.limit),
    {
        emitted < self.limit
    }

    /// Runs one row through filter and projection: the projected
    /// row when the predicate admits it, nothing otherwise.
    pub fn process_row(&self, row: &Row) -> (r: Option<Row>)
        requires
            self.wf(),
            row@.len() == self.columns@.len(),
        ensures
            filter_val(self.filter, row@) ==> (r matches Some(out) && row_view(out@)
                == mapper_val(self.mapper@, row@)),
            !filter_val(self.filter, row@) ==> r is None,
    {
        proof {
            lemma_in_bounds_evaluable(self.filter, row@);
        }
        if self.filter.eval(row) {
            Option::Some(mapper::project(&self.mapper, row))
        } else {
            Option::None
        }
    }

    /// Runs the whole pipeline over in-memory rows: scan, filter,
    /// project, and stop after `limit` emitted rows.
    pub fn run(&self, rows: &Vec<Row>) -> (r: Vec<Row>)
        requires
            self.wf(),
            forall|i: int| 0 <= i < rows@.len() ==> (#[trigger] rows@[i])@.len()
                == self.columns@.len(),
        ensures
            rows_view(r@) == run_spec(self.filter, self.mapper@, self.limit as int, rows@),
            r@.len() <= self.limit,
    {
        let ghost f = self.filter;
        let ghost m = self.mapper@;
        let mut out: Vec<Row> = Vec::new();
        let mut i: usize = 0;
        proof {
            assert(rows@.skip(0) =~= rows@);
            assert(rows_view(out@) =~= Seq::<Seq<Seq<char>>>::empty());
            assert(rows_view(out@) + run_spec(f, m, self.limit as int, rows@) =~= run_spec(
                f,
                m,
                self.limit as int,
                rows@,
            ));
        }
        while i < rows.len() && out.len() < self.limit
            invariant
                self.wf(),
                f == self.filter,
                m == self.mapper@,
                forall|k: int| 0 <= k < rows@.len() ==> (#[trigger] rows@[k])@.len()
                    == self.columns@.len(),
                i <= rows@.len(),
                out@.len() <= self.limit,
                rows_view(out@) + run_spec(f, m, self.limit - out@.len(), rows@.skip(i as int))
                    == run_spec(f, m, self.limit as int, rows@),
            decreases rows@.len() - i,
        {
            let ghost prev = out@;
            let ghost rest = rows@.skip(i as int);
            proof {
                assert(rest[0] == rows@[i as int]);
                assert(rest.drop_first() =~= rows@.skip(i as int + 1));
            }
            match self.process_row(&rows[i]) {
                Option::Some(o) => {
                    proof {
                        assert(run_spec(f, m, self.limit - prev.len(), rest) == seq![
                            mapper_val(m, rows@[i as int]@),
                        ] + run_spec(f, m, self.limit - prev.len() - 1, rest.drop_first()));
                    }
                    out.push(o);
                    proof {
                        assert(rows_view(out@) =~= rows_view(prev) + seq![row_view(o@)]);
                        assert(rows_view(prev) + (seq![row_view(o@)] + run_spec(
                            f,
                            m,
                            self.limit - out@.len(),
                            rows@.skip(i as int + 1),
                        )) =~= (rows_view(prev) + seq![row_view(o@)]) + run_spec(
                            f,
                            m,
                            self.limit - out@.len(),
                            rows@.skip(i as int + 1),
                        ));
                    }
                },
                Option::None => {
                    proof {
                        assert(run_spec(f, m, self.limit - prev.len(), rest) == run_spec(
                            f,
                            m,
                            self.limit - prev.len(),
                            rest.drop_first(),
                        ));
                    }
                },
            }
            i = i + 1;
        }
        proof {
            if i == rows@.len() {
                assert(rows@.skip(i as int) =~= Seq::<Row>::empty());
            }
            assert(run_spec(f, m, self.limit - out@.len(), rows@.skip(i as int))
                =~= Seq::<Seq<Seq<char>>>::empty());
            assert(rows_view(out@) + Seq::<Seq<Seq<char>>>::empty() =~= rows_view(out@));
        }
        out
    }
}

/// The rows the pipeline emits from `rows`: in scan order, each row
/// the predicate admits is projected and emitted, until `limit`
/// rows have been emitted. Rejected rows do not count against the
/// limit.
pub open spec fn run_spec(f: Filter, m: Seq<Getter>, limit: int, rows: Seq<Row>) -> Seq<
    Seq<Seq<char>>,
>
    decreases rows.len(),
{
    if limit <= 0 || rows.len() == 0 {
        Seq::empty()
    } else if filter_val(f, rows[0]@) {
        seq![mapper_val(m, rows[0]@)] + run_spec(f, m, limit - 1, rows.drop_first())
    } else {
        run_spec(f, m, limit, rows.drop_first())
    }
}

/// Law: the limit bounds emitted rows. Whatever the predicate, the
/// projection and the input, the pipeline emits at most `limit`
/// rows.
pub proof fn lemma_limit_bounds(f: Filter, m: Seq<Getter>, limit: int, rows: Seq<Row>)
    ensures
        run_spec(f, m, limit, rows).len() <= (if limit <= 0 {
            0
        } else {
            limit
        }),
    decreases rows.len(),
{
    if limit <= 0 || rows.len() == 0 {
    } else if filter_val(f, rows[0]@) {
        lemma_limit_bounds(f, m, limit - 1, rows.drop_first());
    } else {
        lemma_limit_bounds(f, m, limit, rows.drop_first());
    }
}

/// Law: the tautology admits every row. With no WHERE clause the
/// pipeline emits one output row per input row, up to the limit.
pub proof fn lemma_tautology_admits_all(m: Seq<Getter>, limit: int, rows: Seq<Row>)
    ensures
        run_spec(Filter::All, m, limit, rows).len() == (if limit <= 0 {
            0
        } else if rows.len() <= limit {
            rows.len() as int
        } else {
            limit
        }),
    decreases rows.len(),
{
    if limit <= 0 || rows.len() == 0 {
    } else {
        lemma_tautology_admits_all(m, limit - 1, rows.drop_first());
    }
}

/// Answers an `EXPLAIN <source>`: exactly the header row's column
/// names, in source order. WHERE, SELECT and LIMIT play no part.
pub fn explain(columns: &Columns) -> (r: Vec<String>)
    ensures
        r@ == columns@,
{
    clone_fields(columns)
}

/// The data source a query names: the first FROM entry. A query
/// without one fails before anything else is looked at.
pub fn source_table(q: &Query) -> (r: Result<String, QueryError>)
    ensures
        q.from@.len() > 0 ==> (r matches Ok(t) && t@ == q.from@[0]@),
        q.from@.len() == 0 ==> (r matches Err(e) && e == QueryError::MissingFrom),
{
    if q.from.len() == 0 {
        Err(QueryError::MissingFrom)
    } else {
        Ok(q.from[0].clone())
    }
}

/// Compiles a query against the column directory: demands a FROM
/// source, resolves the SELECT list, compiles the WHERE clause,
/// builds the projection and reads the LIMIT, in that order,
/// failing fast on the first offending construct — before any row
/// is read.
pub fn compile_query(columns: &Columns, q: &Query) -> (r: Result<Plan, QueryError>)
    ensures
        r is Ok <==> query_ok(columns@, *q),
        r matches Ok(p) ==> p.wf() && p.columns@ == columns@ && p.filter == opt_pred_filter(
            columns@,
            q.selection,
        ) && p.mapper@ == query_mapper(columns@, *q) && p.limit == spec_limit(q.limit),
        r matches Err(e) ==> e == query_err(columns@, *q),
        q.from@.len() == 0 ==> (r matches Err(e) && e == QueryError::MissingFrom),
{
    if q.from.len() == 0 {
        return Err(QueryError::MissingFrom);
    }
    match get_column_numbers(columns, &q.projection) {
        Ok(_) => {},
        Err(e) => {
            return Err(e);
        },
    }
    let compiled_filter = filter::gen_from(columns, &q.selection)?;
    let compiled_mapper = match mapper::gen_from(columns, &q.projection) {
        Ok(m) => m,
        Err(e) => {
            proof {
                lemma_colnums_ok_items_ok(columns@, q.projection@);
            }
            return Err(e);
        },
    };
    let limit = match &q.limit {
        Option::None => DEFAULT_LIMIT,
        Option::Some(e) => extract_limit(e.clone())?,
    };
    Ok(
        Plan {
            columns: clone_fields(columns),
            filter: compiled_filter,
            mapper: compiled_mapper,
            limit,
        },
    )
}

/// Compiles a query and runs the pipeline over in-memory rows in
/// one step: the computational heart of serving one SELECT.
pub fn execute_select(columns: &Columns, q: &Query, rows: &Vec<Row>) -> (r: Result<
    Vec<Row>,
    QueryError,
>)
    requires
        forall|i: int| 0 <= i < rows@.len() ==> (#[trigger] rows@[i])@.len() == columns@.len(),
    ensures
        r is Ok <==> query_ok(columns@, *q),
        r matches Ok(out) ==> rows_view(out@) == run_spec(
            opt_pred_filter(columns@, q.selection),
            query_mapper(columns@, *q),
            spec_limit(q.limit),
            rows@,
        ) && out@.len() <= spec_limit(q.limit),
        r matches Err(e) ==> e == query_err(columns@, *q),
        q.from@.len() == 0 ==> (r matches Err(e) && e == QueryError::MissingFrom),
{
    let plan = compile_query(columns, q)?;
    Ok(plan.run(rows))
}

} // verus!
