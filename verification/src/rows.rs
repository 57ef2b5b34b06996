use vstd::prelude::*;

verus! {

/// One row of the table: an ordered sequence of string fields,
/// positionally aligned with the column directory.
pub type Row = Vec<String>;

/// The column directory: the ordered column names taken from the
/// header row. A name may repeat; identifiers resolve to the first
/// (lowest) position that carries the name.
pub type Columns = Row;

/// A row's content: the sequence of its fields' character
/// sequences. Contracts compare rows through this view.
pub open spec fn row_view(r: Seq<String>) -> Seq<Seq<char>> {
    Seq::new(r.len(), |i: int| r[i]@)
}

/// The contents of a sequence of rows, row by row.
pub open spec fn rows_view(rs: Seq<Row>) -> Seq<Seq<Seq<char>>> {
    Seq::new(rs.len(), |i: int| row_view(rs[i]@))
}

/// Copies a row (or the column directory), keeping every field.
pub fn clone_fields(r: &Row) -> (out: Row)
    ensures
        out@ == r@,
{
    let mut copy: Vec<String> = Vec::new();
    let mut i: usize = 0;
    while i < r.len()
        invariant
            i <= r.len(),
            copy@.len() == i,
            forall|j: int| 0 <= j < i ==> copy@[j] == r@[j],
        decreases r.len() - i,
    {
        copy.push(r[i].clone());
        i = i + 1;
    }
    proof {
        assert(copy@ =~= r@);
    }
    copy
}

/// Builds a row from borrowed string slices, copying each field.
pub fn from_str(v: Vec<&str>) -> (r: Row)
    ensures
        r@.len() == v@.len(),
        forall|i: int| 0 <= i < v@.len() ==> r@[i]@ == v@[i]@,
{
    let mut out: Vec<String> = Vec::new();
    let mut i: usize = 0;
    while i < v.len()
        invariant
            i <= v.len(),
            out@.len() == i,
            forall|j: int| 0 <= j < i ==> out@[j]@ == v@[j]@,
        decreases v.len() - i,
    {
        out.push(v[i].to_owned());
        i = i + 1;
    }
    out
}

} // verus!
