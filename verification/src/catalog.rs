//! What the catalog says of tables and columns, and the grouping of
//! columns by table.

use vstd::prelude::*;

verus! {

/// One row of the table listing, as the server sends it.
#[derive(Clone, Debug, PartialEq, Eq)]
pub struct TableRow {
    pub table_schema: String,
    pub table_name: String,
    pub table_type: String,
    pub kind: String,
    pub size: u64,
}

/// A table or view. `kind` is `table` or `view`, `table_type` the type as
/// the server names it, `size` an estimate in megabytes.
#[derive(Clone, Debug, PartialEq, Eq)]
pub struct Table {
    pub db_name: String,
    pub table_name: String,
    pub table_type: String,
    pub kind: String,
    pub size: Option<u64>,
    pub schema: Option<String>,
}

/// A node of the tree in which tables are presented. The tree below the
/// root is built elsewhere; this crate makes the root.
#[derive(Debug, PartialEq, Eq)]
pub struct TreeNode {
    pub name: String,
    pub path: String,
    pub node_type: String,
    pub schema: Option<String>,
    pub children: Option<Vec<TreeNode>>,
    pub size: Option<u64>,
    pub comment: Option<String>,
}

/// One row of the column listing, as the server sends it.
#[derive(Clone, Debug, PartialEq, Eq)]
pub struct ColumnRow {
    pub table_schema: String,
    pub table_name: String,
    pub column_name: String,
    pub column_type: String,
}

/// The columns of one table: name and type of each, in the order of the
/// column listing.
#[derive(Clone, Debug, PartialEq, Eq)]
pub struct Metadata {
    pub database: String,
    pub table: String,
    pub columns: Vec<(String, String)>,
}

/// A table's schema name and its own name.
pub type TableKey = (Seq<char>, Seq<char>);

impl ColumnRow {
    /// The table to which the column belongs.
    pub open spec fn key(self) -> TableKey {
        (self.table_schema@, self.table_name@)
    }

    /// The column's name and type.
    pub open spec fn column(self) -> (Seq<char>, Seq<char>) {
        (self.column_name@, self.column_type@)
    }
}

impl Metadata {
    /// The table that the entry is about.
    pub open spec fn key(self) -> TableKey {
        (self.database@, self.table@)
    }

    /// Names and types of the columns, in order.
    pub open spec fn columns_view(self) -> Seq<(Seq<char>, Seq<char>)> {
        self.columns@.map_values(|c: (String, String)| (c.0@, c.1@))
    }
}

/// The columns that `rows` list for table `key`, in the order of `rows`.
pub open spec fn columns_of(rows: Seq<ColumnRow>, key: TableKey) -> Seq<(Seq<char>, Seq<char>)>
    decreases rows.len(),
{
    if rows.len() == 0 {
        Seq::empty()
    } else if rows.last().key() == key {
        columns_of(rows.drop_last(), key).push(rows.last().column())
    } else {
        columns_of(rows.drop_last(), key)
    }
}

/// The index of the first row of table `key`, or `rows.len()` if no row
/// is of that table.
pub open spec fn first_row_of(rows: Seq<ColumnRow>, key: TableKey) -> int
    decreases rows.len(),
{
    if rows.len() == 0 {
        0
    } else if rows[0].key() == key {
        0
    } else {
        1 + first_row_of(rows.drop_first(), key)
    }
}

/// Whether `groups` is the grouping of `rows` by table: one entry for each
/// table that occurs in `rows`, holding the columns that `rows` list for
/// it in the order of `rows`, and the entries in the order in which their
/// tables first occur.
pub open spec fn is_grouping_of(groups: Seq<Metadata>, rows: Seq<ColumnRow>) -> bool {
    &&& forall|i: int|
        0 <= i < groups.len() ==> (#[trigger] groups[i]).columns_view() == columns_of(
            rows,
            groups[i].key(),
        )
    &&& forall|i: int|
        0 <= i < groups.len() ==> first_row_of(rows, (#[trigger] groups[i]).key()) < rows.len()
    &&& forall|i: int, j: int|
        0 <= i < j < groups.len() ==> first_row_of(rows, (#[trigger] groups[i]).key())
            < first_row_of(rows, (#[trigger] groups[j]).key())
    &&& forall|r: int|
        0 <= r < rows.len() ==> exists|i: int|
            0 <= i < groups.len() && (#[trigger] groups[i]).key() == (#[trigger] rows[r]).key()
}

/// `first_row_of` lies within `0..=rows.len()`, no row before it is of the
/// table, and where it lies inside `rows` the row there is.
pub proof fn lemma_first_row_of(rows: Seq<ColumnRow>, key: TableKey)
    ensures
        0 <= first_row_of(rows, key) <= rows.len(),
        forall|r: int| 0 <= r < first_row_of(rows, key) ==> (#[trigger] rows[r]).key() != key,
        first_row_of(rows, key) < rows.len() ==> rows[first_row_of(rows, key)].key() == key,
    decreases rows.len(),
{
    if rows.len() > 0 && rows[0].key() != key {
        let rest = rows.drop_first();
        lemma_first_row_of(rest, key);
        assert forall|r: int| 0 <= r < first_row_of(rows, key) implies (#[trigger] rows[r]).key()
            != key by {
            if r > 0 {
                assert(rows[r] == rest[r - 1]);
            }
        }
    }
}

/// An index that meets what `lemma_first_row_of` says of `first_row_of`
/// is `first_row_of`.
pub proof fn lemma_first_row_of_unique(rows: Seq<ColumnRow>, key: TableKey, n: int)
    requires
        0 <= n <= rows.len(),
        forall|r: int| 0 <= r < n ==> (#[trigger] rows[r]).key() != key,
        n < rows.len() ==> rows[n].key() == key,
    ensures
        first_row_of(rows, key) == n,
{
    lemma_first_row_of(rows, key);
}

/// The first row of a table that occurs in `rows` stays its first row when
/// a row is added at the end.
pub proof fn lemma_first_row_of_push(rows: Seq<ColumnRow>, row: ColumnRow, key: TableKey)
    requires
        first_row_of(rows, key) < rows.len(),
    ensures
        first_row_of(rows.push(row), key) == first_row_of(rows, key),
{
    lemma_first_row_of(rows, key);
    lemma_first_row_of_unique(rows.push(row), key, first_row_of(rows, key));
}

/// A table of which `rows` hold a row has at least one column.
pub proof fn lemma_columns_of_occurring(rows: Seq<ColumnRow>, key: TableKey, r: int)
    requires
        0 <= r < rows.len(),
        rows[r].key() == key,
    ensures
        columns_of(rows, key).len() > 0,
    decreases rows.len(),
{
    if r < rows.len() - 1 {
        lemma_columns_of_occurring(rows.drop_last(), key, r);
    }
}

/// A table of which `rows` hold no row has no column.
pub proof fn lemma_columns_of_absent(rows: Seq<ColumnRow>, key: TableKey)
    requires
        forall|r: int| 0 <= r < rows.len() ==> (#[trigger] rows[r]).key() != key,
    ensures
        columns_of(rows, key) == Seq::<(Seq<char>, Seq<char>)>::empty(),
    decreases rows.len(),
{
    if rows.len() > 0 {
        lemma_columns_of_absent(rows.drop_last(), key);
    }
}

/// No two entries of a grouping are about the same table, and no entry is
/// without columns.
pub proof fn lemma_grouping_has_distinct_tables(groups: Seq<Metadata>, rows: Seq<ColumnRow>)
    requires
        is_grouping_of(groups, rows),
    ensures
        forall|i: int, j: int|
            0 <= i < groups.len() && 0 <= j < groups.len() && i != j ==> (#[trigger] groups[i]).key()
                != (#[trigger] groups[j]).key(),
        forall|i: int| 0 <= i < groups.len() ==> (#[trigger] groups[i]).columns@.len() > 0,
{
    assert forall|i: int, j: int|
        0 <= i < groups.len() && 0 <= j < groups.len() && i != j implies (#[trigger] groups[i]).key()
        != (#[trigger] groups[j]).key() by {
        // the first rows of the two tables differ
        let first_i = first_row_of(rows, groups[i].key());
        let first_j = first_row_of(rows, groups[j].key());
        assert(i < j ==> first_i < first_j);
        assert(j < i ==> first_j < first_i);
    }
    assert forall|i: int| 0 <= i < groups.len() implies (#[trigger] groups[i]).columns@.len()
        > 0 by {
        let key = groups[i].key();
        lemma_first_row_of(rows, key);
        lemma_columns_of_occurring(rows, key, first_row_of(rows, key));
    }
}

/// An entry of a grouping whose table is that of a row of `rows`.
proof fn lemma_entry_of_row(groups: Seq<Metadata>, rows: Seq<ColumnRow>, r: int) -> (i: int)
    requires
        is_grouping_of(groups, rows),
        0 <= r < rows.len(),
    ensures
        0 <= i < groups.len(),
        groups[i].key() == rows[r].key(),
{
    choose|i: int| 0 <= i < groups.len() && (#[trigger] groups[i]).key() == (#[trigger] rows[r]).key()
}

/// A grouping stays one when a row of a table that has an entry comes and
/// its column is added at the end of that entry.
proof fn lemma_row_joins_entry(
    before: Seq<Metadata>,
    after: Seq<Metadata>,
    rows: Seq<ColumnRow>,
    row: ColumnRow,
    f: int,
)
    requires
        is_grouping_of(before, rows),
        0 <= f < before.len(),
        before[f].key() == row.key(),
        after.len() == before.len(),
        forall|i: int| 0 <= i < before.len() ==> (#[trigger] after[i]).key() == before[i].key(),
        forall|i: int|
            0 <= i < before.len() && i != f ==> (#[trigger] after[i]).columns_view()
                == before[i].columns_view(),
        after[f].columns_view() == before[f].columns_view().push(row.column()),
    ensures
        is_grouping_of(after, rows.push(row)),
{
    let longer = rows.push(row);
    assert(longer.drop_last() =~= rows);
    assert forall|i: int| 0 <= i < after.len() implies {
        &&& first_row_of(longer, (#[trigger] after[i]).key()) == first_row_of(
            rows,
            before[i].key(),
        )
        &&& after[i].columns_view() == columns_of(longer, after[i].key())
    } by {
        lemma_first_row_of_push(rows, row, before[i].key());
        lemma_grouping_has_distinct_tables(before, rows);
    }
    assert forall|r: int| 0 <= r < longer.len() implies exists|i: int|
        0 <= i < after.len() && (#[trigger] after[i]).key() == (#[trigger] longer[r]).key() by {
        if r < rows.len() {
            let i = lemma_entry_of_row(before, rows, r);
            assert(after[i].key() == longer[r].key());
        }
    }
}

/// A grouping stays one when a row of a table that has no entry comes and
/// an entry with the row's column is added at the end.
proof fn lemma_row_opens_entry(
    before: Seq<Metadata>,
    after: Seq<Metadata>,
    rows: Seq<ColumnRow>,
    row: ColumnRow,
)
    requires
        is_grouping_of(before, rows),
        forall|i: int| 0 <= i < before.len() ==> (#[trigger] before[i]).key() != row.key(),
        after.len() == before.len() + 1,
        forall|i: int| 0 <= i < before.len() ==> (#[trigger] after[i]).key() == before[i].key(),
        forall|i: int|
            0 <= i < before.len() ==> (#[trigger] after[i]).columns_view()
                == before[i].columns_view(),
        after.last().key() == row.key(),
        after.last().columns_view() == seq![row.column()],
    ensures
        is_grouping_of(after, rows.push(row)),
{
    let longer = rows.push(row);
    let last = before.len() as int;
    assert(longer.drop_last() =~= rows);
    assert forall|r: int| 0 <= r < rows.len() implies (#[trigger] longer[r]).key()
        != row.key() by {
        // the row's table has an entry, and no entry is about the table of `row`
        lemma_entry_of_row(before, rows, r);
    }
    lemma_first_row_of_unique(longer, row.key(), rows.len() as int);
    assert(columns_of(longer, row.key()) =~= seq![row.column()]) by {
        lemma_columns_of_absent(rows, row.key());
    }
    assert forall|i: int| 0 <= i < last implies {
        &&& first_row_of(longer, (#[trigger] after[i]).key()) == first_row_of(
            rows,
            before[i].key(),
        )
        &&& after[i].columns_view() == columns_of(longer, after[i].key())
    } by {
        lemma_first_row_of_push(rows, row, before[i].key());
    }
    assert forall|r: int| 0 <= r < longer.len() implies exists|i: int|
        0 <= i < after.len() && (#[trigger] after[i]).key() == (#[trigger] longer[r]).key() by {
        if r < rows.len() {
            let i = lemma_entry_of_row(before, rows, r);
            assert(after[i].key() == longer[r].key());
        }
    }
}

/// Groups the rows of the column listing by table.
///
/// Each table that occurs gets one entry, and the entry lists the table's
/// columns in the order in which the rows named them. The entries stand in
/// the order in which their tables first occur; a caller that wants
/// another order sorts them.
pub fn group_columns(rows: Vec<ColumnRow>) -> (groups: Vec<Metadata>)
    ensures
        is_grouping_of(groups@, rows@),
{
    let mut groups: Vec<Metadata> = Vec::new();
    for row in it: rows
        invariant
            it.seq() == rows@,
            is_grouping_of(groups@, rows@.take(it.index() as int)),
    {
        let ghost seen = rows@.take(it.index() as int);
        let ghost before = groups@;
        let ghost taken = row;
        assert(rows@.take(it.index() + 1) =~= seen.push(row));
        match find_entry(&groups, &row) {
            Some(f) => {
                groups[f].columns.push((row.column_name, row.column_type));
                proof {
                    assert(groups@[f as int].columns_view() =~= before[f as int].columns_view().push(
                        taken.column(),
                    ));
                    lemma_row_joins_entry(before, groups@, seen, taken, f as int);
                }
            },
            None => {
                let mut columns: Vec<(String, String)> = Vec::new();
                columns.push((row.column_name, row.column_type));
                groups.push(Metadata { database: row.table_schema, table: row.table_name, columns });
                proof {
                    assert(groups@.last().columns_view() =~= seq![taken.column()]);
                    lemma_row_opens_entry(before, groups@, seen, taken);
                }
            },
        }
    }
    assert(rows@.take(rows@.len() as int) =~= rows@);
    groups
}

/// Finds the entry of the table to which `row` belongs.
fn find_entry(groups: &Vec<Metadata>, row: &ColumnRow) -> (found: Option<usize>)
    ensures
        found matches Some(f) ==> f < groups@.len() && groups@[f as int].key() == row.key(),
        found is None ==> forall|i: int|
            0 <= i < groups@.len() ==> (#[trigger] groups@[i]).key() != row.key(),
{
    let mut j: usize = 0;
    while j < groups.len()
        invariant
            j <= groups@.len(),
            forall|i: int| 0 <= i < j ==> (#[trigger] groups@[i]).key() != row.key(),
        decreases groups@.len() - j,
    {
        if groups[j].database == row.table_schema && groups[j].table == row.table_name {
            return Some(j);
        }
        j += 1;
    }
    None
}

} // verus!
