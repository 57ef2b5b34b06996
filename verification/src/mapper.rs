use vstd::prelude::*;

use crate::ast::QueryError;
use crate::ast::SelectItem;
use crate::getter;
use crate::getter::getter_in_bounds;
use crate::getter::getter_val;
use crate::getter::scalar_err;
use crate::getter::scalar_getter;
use crate::getter::scalar_ok;
use crate::getter::Getter;
use crate::rows::clone_fields;
use crate::rows::row_view;
use crate::rows::Columns;
use crate::rows::Row;

verus! {

/// A compiled projection: one value accessor per output column, in
/// output order.
pub type Mapper = Vec<Getter>;

/// Whether every accessor of the projection reads below `n`.
pub open spec fn mapper_in_bounds(m: Seq<Getter>, n: int) -> bool {
    forall|i: int| 0 <= i < m.len() ==> getter_in_bounds(#[trigger] m[i], n)
}

/// The output row a projection produces from one input row.
pub open spec fn mapper_val(m: Seq<Getter>, row: Seq<String>) -> Seq<Seq<char>> {
    Seq::new(m.len(), |i: int| getter_val(m[i], row))
}

/// The projection a lone `*` compiles to: one column accessor per
/// directory entry, in directory order.
pub open spec fn wildcard_mapper(n: nat) -> Seq<Getter> {
    Seq::new(n, |i: int| Getter::Column(i as usize))
}

/// A SELECT list consisting of exactly one wildcard item.
pub open spec fn is_wildcard_selection(s: Seq<SelectItem>) -> bool {
    s.len() == 1 && s[0] is Wildcard
}

/// Whether one SELECT item compiles: only a bare expression that
/// compiles as a scalar does.
pub open spec fn item_ok(cols: Seq<String>, it: SelectItem) -> bool {
    match it {
        SelectItem::UnnamedExpr(e) => scalar_ok(cols, e),
        _ => false,
    }
}

/// The accessor one SELECT item compiles to, when it compiles.
pub open spec fn item_getter(cols: Seq<String>, it: SelectItem) -> Getter {
    match it {
        SelectItem::UnnamedExpr(e) => scalar_getter(cols, e),
        _ => Getter::Empty,
    }
}

/// The failure one SELECT item compiles to, when it does not.
pub open spec fn item_err(cols: Seq<String>, it: SelectItem) -> QueryError {
    match it {
        SelectItem::UnnamedExpr(e) => scalar_err(cols, e),
        _ => QueryError::UnsupportedSelectItem,
    }
}

/// Whether every item of a SELECT list compiles.
pub open spec fn items_ok(cols: Seq<String>, s: Seq<SelectItem>) -> bool {
    forall|i: int| 0 <= i < s.len() ==> item_ok(cols, #[trigger] s[i])
}

/// The projection a SELECT list compiles to, item by item.
pub open spec fn items_mapper(cols: Seq<String>, s: Seq<SelectItem>) -> Seq<Getter> {
    Seq::new(s.len(), |i: int| item_getter(cols, s[i]))
}

/// The position of the first SELECT item that does not compile, or
/// -1 when all do. Items are compiled left to right, so this item's
/// failure is the one reported.
pub open spec fn first_bad_item(cols: Seq<String>, s: Seq<SelectItem>) -> int
    decreases s.len(),
{
    if s.len() == 0 {
        -1
    } else if !item_ok(cols, s[0]) {
        0
    } else {
        let rest = first_bad_item(cols, s.drop_first());
        if rest < 0 {
            -1
        } else {
            rest + 1
        }
    }
}

/// The failure a SELECT list compiles to, when some item fails.
pub open spec fn items_err(cols: Seq<String>, s: Seq<SelectItem>) -> QueryError {
    item_err(cols, s[first_bad_item(cols, s)])
}

/// What `first_bad_item` finds is the lowest failing position, and
/// a negative answer means every item compiles.
pub proof fn lemma_first_bad_item(cols: Seq<String>, s: Seq<SelectItem>)
    ensures
        first_bad_item(cols, s) >= 0 ==> first_bad_item(cols, s) < s.len() && !item_ok(
            cols,
            s[first_bad_item(cols, s)],
        ),
        first_bad_item(cols, s) >= 0 ==> (forall|j: int|
            0 <= j < first_bad_item(cols, s) ==> item_ok(cols, #[trigger] s[j])),
        first_bad_item(cols, s) < 0 ==> items_ok(cols, s),
    decreases s.len(),
{
    if s.len() == 0 {
    } else if !item_ok(cols, s[0]) {
    } else {
        lemma_first_bad_item(cols, s.drop_first());
        assert(forall|j: int| 1 <= j < s.len() ==> s[j] == s.drop_first()[j - 1]);
    }
}

/// Law: a wildcard projection over a directory of `n` columns is
/// the identity on every row of `n` fields — the output row repeats
/// the input row's fields in their order.
pub proof fn lemma_wildcard_identity(n: nat, row: Seq<String>)
    requires
        row.len() == n,
        n <= usize::MAX,
    ensures
        mapper_val(wildcard_mapper(n), row) == row_view(row),
{
    assert(mapper_val(wildcard_mapper(n), row) =~= row_view(row));
}

/// Applies a projection to one row, producing the output row.
pub fn project(m: &Mapper, row: &Row) -> (out: Row)
    requires
        mapper_in_bounds(m@, row@.len() as int),
    ensures
        out@.len() == m@.len(),
        row_view(out@) == mapper_val(m@, row@),
{
    let mut out: Vec<String> = Vec::new();
    let mut i: usize = 0;
    while i < m.len()
        invariant
            mapper_in_bounds(m@, row@.len() as int),
            i <= m@.len(),
            out@.len() == i,
            forall|j: int| 0 <= j < i ==> out@[j]@ == getter_val(m@[j], row@),
        decreases m@.len() - i,
    {
        out.push(m[i].eval(row));
        i = i + 1;
    }
    proof {
        assert(row_view(out@) =~= mapper_val(m@, row@));
    }
    out
}

/// Compiles SELECT lists into projections over a fixed column
/// directory.
#[derive(Debug)]
pub struct MapperBuilder {
    pub columns: Columns,
    pub selection: Vec<SelectItem>,
}

impl Default for MapperBuilder {
    fn default() -> (r: MapperBuilder)
        ensures
            r.columns@.len() == 0,
            r.selection@.len() == 0,
    {
        MapperBuilder { columns: Vec::new(), selection: Vec::new() }
    }
}

impl MapperBuilder {
    pub fn new() -> (r: Self)
        ensures
            r.columns@.len() == 0,
            r.selection@.len() == 0,
    {
        MapperBuilder::default()
    }

    pub fn with_columns(self, columns: &Columns) -> (r: Self)
        ensures
            r.columns@ == columns@,
            r.selection == self.selection,
    {
        MapperBuilder { columns: clone_fields(columns), selection: self.selection }
    }

    pub fn with_selection(self, selection: &Vec<SelectItem>) -> (r: Self)
        ensures
            r.columns == self.columns,
            r.selection@ == selection@,
    {
        MapperBuilder { columns: self.columns, selection: clone_items(selection) }
    }

    pub fn build(&self) -> (r: Result<Mapper, QueryError>)
        ensures
            is_wildcard_selection(self.selection@) ==> (r matches Ok(m) && m@ == wildcard_mapper(
                self.columns@.len() as nat,
            )),
            !is_wildcard_selection(self.selection@) ==> ((r is Ok <==> items_ok(
                self.columns@,
                self.selection@,
            )) && (r matches Ok(m) ==> m@ == items_mapper(self.columns@, self.selection@)) && (
            r matches Err(e) ==> e == items_err(self.columns@, self.selection@))),
            r matches Ok(m) ==> mapper_in_bounds(m@, self.columns@.len() as int),
    {
        self.generate(clone_items(&self.selection))
    }

    pub fn generate(&self, s: Vec<SelectItem>) -> (r: Result<Mapper, QueryError>)
        ensures
            is_wildcard_selection(s@) ==> (r matches Ok(m) && m@ == wildcard_mapper(
                self.columns@.len() as nat,
            )),
            !is_wildcard_selection(s@) ==> ((r is Ok <==> items_ok(self.columns@, s@)) && (
            r matches Ok(m) ==> m@ == items_mapper(self.columns@, s@)) && (r matches Err(e)
                ==> e == items_err(self.columns@, s@))),
            r matches Ok(m) ==> mapper_in_bounds(m@, self.columns@.len() as int),
    {
        if s.len() == 1 {
            match &s[0] {
                SelectItem::Wildcard => {
                    let n = self.columns.len();
                    let mut out: Vec<Getter> = Vec::new();
                    let mut i: usize = 0;
                    while i < n
                        invariant
                            n == self.columns@.len(),
                            i <= n,
                            out@.len() == i,
                            forall|j: int| 0 <= j < i ==> out@[j] == Getter::Column(j as usize),
                        decreases n - i,
                    {
                        out.push(getter::gen_from_index(i));
                        i = i + 1;
                    }
                    proof {
                        assert(out@ =~= wildcard_mapper(self.columns@.len() as nat));
                    }
                    return Ok(out);
                },
                _ => {},
            }
        }
        let mut out: Vec<Getter> = Vec::new();
        let mut i: usize = 0;
        while i < s.len()
            invariant
                !is_wildcard_selection(s@),
                i <= s@.len(),
                out@.len() == i,
                forall|j: int| 0 <= j < i ==> item_ok(self.columns@, #[trigger] s@[j]),
                forall|j: int| 0 <= j < i ==> out@[j] == item_getter(self.columns@, s@[j])
                    && getter_in_bounds(out@[j], self.columns@.len() as int),
            decreases s@.len() - i,
        {
            let item = s[i].clone();
            match self.generate_select_item(item) {
                Ok(g) => out.push(g),
                Err(e) => {
                    proof {
                        lemma_first_bad_item(self.columns@, s@);
                    }
                    return Err(e);
                },
            }
            i = i + 1;
        }
        proof {
            assert(out@ =~= items_mapper(self.columns@, s@));
        }
        Ok(out)
    }

    pub fn generate_select_item(&self, s: SelectItem) -> (r: Result<Getter, QueryError>)
        ensures
            r is Ok <==> item_ok(self.columns@, s),
            r matches Ok(g) ==> g == item_getter(self.columns@, s) && getter_in_bounds(
                g,
                self.columns@.len() as int,
            ),
            r matches Err(e) ==> e == item_err(self.columns@, s),
    {
        match s {
            SelectItem::UnnamedExpr(x) => getter::gen_from(&self.columns, &Option::Some(x)),
            _ => Err(QueryError::UnsupportedSelectItem),
        }
    }
}

/// Copies a SELECT list, keeping every item.
fn clone_items(v: &Vec<SelectItem>) -> (r: Vec<SelectItem>)
    ensures
        r@ == v@,
{
    let mut out: Vec<SelectItem> = Vec::new();
    let mut i: usize = 0;
    while i < v.len()
        invariant
            i <= v.len(),
            out@.len() == i,
            forall|j: int| 0 <= j < i ==> out@[j] == v@[j],
        decreases v.len() - i,
    {
        out.push(v[i].clone());
        i = i + 1;
    }
    proof {
        assert(out@ =~= v@);
    }
    out
}

/// Compiles a SELECT list against a column directory in one step.
pub fn gen_from(columns: &Columns, selection: &Vec<SelectItem>) -> (r: Result<Mapper, QueryError>)
    ensures
        is_wildcard_selection(selection@) ==> (r matches Ok(m) && m@ == wildcard_mapper(
            columns@.len() as nat,
        )),
        !is_wildcard_selection(selection@) ==> ((r is Ok <==> items_ok(columns@, selection@)) && (
        r matches Ok(m) ==> m@ == items_mapper(columns@, selection@)) && (r matches Err(e) ==> e
            == items_err(columns@, selection@))),
        r matches Ok(m) ==> mapper_in_bounds(m@, columns@.len() as int),
{
    MapperBuilder::new().with_columns(columns).with_selection(selection).build()
}

} // verus!
