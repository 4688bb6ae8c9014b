//! From a stream of rows to a batch of typed columns.
//!
//! A `RowMaterializer` is made from the header of a result, takes the rows
//! one by one as they arrive, and keeps one buffer per column. When the
//! rows are exhausted it turns every buffer into the array that the
//! column's logical type asks for. The logical type of a column is looked up in one
//! place, `NativeColumnType::logical_type`, for the schema and for the
//! array alike.

use vstd::prelude::*;
use crate::error::{DialectError, ROW_LIMIT, ROW_SHAPE};
use crate::logical::{LogicalType, NativeColumnType};
use crate::value::{
    convert_to_f64_arr,
    convert_to_i64_arr,
    convert_to_str_arr,
    float_view,
    text_view,
    CanonicalValue,
    FloatCell,
    FloatCellView,
};

verus! {

/// What the header of a result says of one column.
#[derive(Clone, Debug, PartialEq, Eq)]
pub struct ColumnHeader {
    pub name: String,
    pub column_type: NativeColumnType,
}

/// How a column is announced to a reader: its name, and the name of its
/// native type as it is shown.
#[derive(Clone, Debug, PartialEq, Eq)]
pub struct Title {
    pub name: String,
    pub type_label: String,
}

/// One field of a batch's schema.
#[derive(Clone, Debug, PartialEq, Eq)]
pub struct Field {
    pub name: String,
    pub data_type: LogicalType,
    pub nullable: bool,
}

/// The array of one column. `None` is a null entry.
///
/// In a `Float64` array an entry that holds text is a value if the text
/// is a number and a null if it is not; see `FloatCell`.
///
/// A `Binary` column holds text: this dialect converts the cells of a
/// column of unrecognized type as it converts text and keeps no raw bytes.
#[derive(Clone, Debug, PartialEq, Eq)]
pub enum ColumnArray {
    Integer64(Vec<Option<i64>>),
    Float64(Vec<Option<FloatCell>>),
    Text(Vec<Option<String>>),
    Binary(Vec<Option<String>>),
}

/// The content of one entry of an array.
pub ghost enum Entry {
    Integer(Option<i64>),
    Float(Option<FloatCellView>),
    Text(Option<Seq<char>>),
}

impl Entry {
    /// Whether the entry is certain to be null.
    pub open spec fn is_null(self) -> bool {
        match self {
            Entry::Integer(e) => e is None,
            Entry::Float(e) => e is None,
            Entry::Text(e) => e is None,
        }
    }

    /// Whether the entry is certain to hold a value. A floating-point
    /// entry that holds text is neither certain to be null nor certain to
    /// hold a value.
    pub open spec fn is_value(self) -> bool {
        match self {
            Entry::Integer(e) => e is Some,
            Entry::Float(e) => e matches Some(cell) && !(cell is Text),
            Entry::Text(e) => e is Some,
        }
    }
}

/// The entry that cell `v` becomes in a column of logical type `t`.
pub open spec fn cell_entry(t: LogicalType, v: CanonicalValue) -> Entry {
    match t {
        LogicalType::Integer64 => Entry::Integer(v.as_integer()),
        LogicalType::Float64 => Entry::Float(v.as_float()),
        LogicalType::Text => Entry::Text(v.as_text()),
        LogicalType::Binary => Entry::Text(v.as_text()),
    }
}

/// Whether `v` has the form that a column of logical type `t` expects and
/// holds a value that fits: for `Integer64` an integer within 64 signed
/// bits, as an integer or spelled in decimal; for text well-formed UTF-8.
/// For a `Float64` column this covers the two floating-point forms only:
/// of a cell that arrived as bytes this crate does not say whether it is
/// a number.
pub open spec fn is_expected_form(t: LogicalType, v: CanonicalValue) -> bool {
    match t {
        LogicalType::Integer64 => v is SignedInt || (v matches CanonicalValue::UnsignedInt(u) && u
            <= i64::MAX) || (v matches CanonicalValue::Bytes(b) && crate::value::signed_of_bytes(
            b@,
        ) is Some),
        LogicalType::Float64 => v is Float32 || v is Float64,
        LogicalType::Text | LogicalType::Binary => v matches CanonicalValue::Bytes(b)
            && vstd::utf8::valid_utf8(b@),
    }
}

/// Whether the form of `v` is one that a column of logical type `t` cannot
/// take a value from.
pub open spec fn is_foreign_form(t: LogicalType, v: CanonicalValue) -> bool {
    match t {
        LogicalType::Integer64 => v is Float32 || v is Float64 || v is Date || v is Time
            || v is Null,
        LogicalType::Float64 => v is SignedInt || v is UnsignedInt || v is Date || v is Time
            || v is Null,
        LogicalType::Text | LogicalType::Binary => !(v is Bytes),
    }
}

/// A cell in the form that its column expects always becomes an entry
/// with a value, and a cell in a form foreign to its column always becomes
/// a null entry. No entry is both, and bytes in a floating-point column
/// are the one case that is neither.
pub proof fn lemma_null_policy(native: NativeColumnType, v: CanonicalValue)
    ensures
        is_expected_form(native.logical_type_spec(), v) ==> cell_entry(
            native.logical_type_spec(),
            v,
        ).is_value(),
        is_foreign_form(native.logical_type_spec(), v) ==> cell_entry(
            native.logical_type_spec(),
            v,
        ).is_null(),
        !(cell_entry(native.logical_type_spec(), v).is_value() && cell_entry(
            native.logical_type_spec(),
            v,
        ).is_null()),
        !cell_entry(native.logical_type_spec(), v).is_value() && !cell_entry(
            native.logical_type_spec(),
            v,
        ).is_null() <==> native.logical_type_spec() == LogicalType::Float64 && v is Bytes,
{
}

impl ColumnArray {
    /// The logical type of the array.
    pub open spec fn data_type_spec(&self) -> LogicalType {
        match self {
            ColumnArray::Integer64(_) => LogicalType::Integer64,
            ColumnArray::Float64(_) => LogicalType::Float64,
            ColumnArray::Text(_) => LogicalType::Text,
            ColumnArray::Binary(_) => LogicalType::Binary,
        }
    }

    /// The number of entries, nulls included.
    pub open spec fn len_spec(&self) -> nat {
        match self {
            ColumnArray::Integer64(a) => a@.len(),
            ColumnArray::Float64(a) => a@.len(),
            ColumnArray::Text(a) => a@.len(),
            ColumnArray::Binary(a) => a@.len(),
        }
    }

    /// The content of entry `r`.
    pub open spec fn entry(&self, r: int) -> Entry {
        match self {
            ColumnArray::Integer64(a) => Entry::Integer(a@[r]),
            ColumnArray::Float64(a) => Entry::Float(float_view(a@[r])),
            ColumnArray::Text(a) => Entry::Text(text_view(a@[r])),
            ColumnArray::Binary(a) => Entry::Text(text_view(a@[r])),
        }
    }

    /// The logical type of the array.
    pub fn data_type(&self) -> (t: LogicalType)
        ensures
            t == self.data_type_spec(),
    {
        match self {
            ColumnArray::Integer64(_) => LogicalType::Integer64,
            ColumnArray::Float64(_) => LogicalType::Float64,
            ColumnArray::Text(_) => LogicalType::Text,
            ColumnArray::Binary(_) => LogicalType::Binary,
        }
    }

    /// The number of entries, nulls included.
    pub fn len(&self) -> (n: usize)
        ensures
            n == self.len_spec(),
    {
        match self {
            ColumnArray::Integer64(a) => a.len(),
            ColumnArray::Float64(a) => a.len(),
            ColumnArray::Text(a) => a.len(),
            ColumnArray::Binary(a) => a.len(),
        }
    }
}

/// Converts the buffer of one column into the array of logical type `t`.
pub fn convert_column(t: LogicalType, cells: &Vec<CanonicalValue>) -> (a: ColumnArray)
    ensures
        a.data_type_spec() == t,
        a.len_spec() == cells@.len(),
        forall|r: int| 0 <= r < cells@.len() ==> #[trigger] a.entry(r) == cell_entry(t, cells@[r]),
{
    match t {
        LogicalType::Integer64 => ColumnArray::Integer64(convert_to_i64_arr(cells.as_slice())),
        LogicalType::Float64 => ColumnArray::Float64(convert_to_f64_arr(cells.as_slice())),
        LogicalType::Text => ColumnArray::Text(convert_to_str_arr(cells.as_slice())),
        LogicalType::Binary => ColumnArray::Binary(convert_to_str_arr(cells.as_slice())),
    }
}

/// The result of a query: a schema, one array per field of the schema, one
/// title per field, the number of rows, and the statement that was run.
#[derive(Clone, Debug, PartialEq, Eq)]
pub struct ColumnarBatch {
    pub schema: Vec<Field>,
    pub arrays: Vec<ColumnArray>,
    pub titles: Vec<Title>,
    pub total: usize,
    pub sql: String,
}

impl ColumnarBatch {
    /// Schema, arrays and titles have one element per column, every array
    /// has one entry per row, and every array is of the type that the
    /// schema declares for it.
    pub open spec fn is_consistent(&self) -> bool {
        &&& self.schema@.len() == self.arrays@.len()
        &&& self.arrays@.len() == self.titles@.len()
        &&& forall|i: int|
            0 <= i < self.arrays@.len() ==> (#[trigger] self.arrays@[i]).len_spec() == self.total
        &&& forall|i: int|
            0 <= i < self.arrays@.len() ==> (#[trigger] self.arrays@[i]).data_type_spec()
                == self.schema@[i].data_type
    }

    /// Whether the batch is the one that the result with the given header
    /// and rows, got by running `sql`, is turned into. Every row must hold
    /// one cell per column of the header.
    pub open spec fn describes(
        &self,
        header: Seq<ColumnHeader>,
        rows: Seq<Seq<CanonicalValue>>,
        sql: Seq<char>,
    ) -> bool {
        &&& self.schema@.len() == header.len()
        &&& self.arrays@.len() == header.len()
        &&& self.titles@.len() == header.len()
        &&& self.total == rows.len()
        &&& self.sql@ == sql
        &&& forall|i: int|
            0 <= i < header.len() ==> {
                &&& (#[trigger] self.schema@[i]).name@ == header[i].name@
                &&& self.schema@[i].data_type == header[i].column_type.logical_type_spec()
                &&& self.schema@[i].nullable
            }
        &&& forall|i: int|
            0 <= i < header.len() ==> {
                &&& (#[trigger] self.titles@[i]).name@ == header[i].name@
                &&& self.titles@[i].type_label@ == header[i].column_type.display_name_spec()
            }
        &&& forall|i: int|
            0 <= i < header.len() ==> {
                &&& (#[trigger] self.arrays@[i]).data_type_spec()
                    == header[i].column_type.logical_type_spec()
                &&& self.arrays@[i].len_spec() == rows.len()
            }
        &&& forall|i: int, r: int|
            0 <= i < header.len() && 0 <= r < rows.len() ==> #[trigger] self.arrays@[i].entry(r)
                == cell_entry(header[i].column_type.logical_type_spec(), rows[r][i])
    }

    /// The number of columns.
    pub fn num_columns(&self) -> (n: usize)
        ensures
            n == self.schema@.len(),
    {
        self.schema.len()
    }

    /// The number of rows.
    pub fn num_rows(&self) -> (n: usize)
        ensures
            n == self.total,
    {
        self.total
    }
}

/// The batch made from a result is consistent, whatever the result.
pub proof fn lemma_described_batch_is_consistent(
    batch: ColumnarBatch,
    header: Seq<ColumnHeader>,
    rows: Seq<Seq<CanonicalValue>>,
    sql: Seq<char>,
)
    requires
        batch.describes(header, rows, sql),
    ensures
        batch.is_consistent(),
        batch.schema@.len() == header.len(),
        batch.total == rows.len(),
{
}

/// The rows of a result as sequences of cells.
pub open spec fn rows_view(rows: Seq<Vec<CanonicalValue>>) -> Seq<Seq<CanonicalValue>> {
    rows.map_values(|row: Vec<CanonicalValue>| row@)
}

/// Whether every row holds exactly `k` cells.
pub open spec fn rows_have_width(rows: Seq<Seq<CanonicalValue>>, k: nat) -> bool {
    forall|r: int| 0 <= r < rows.len() ==> (#[trigger] rows[r]).len() == k
}

/// Collects the rows of one result, column by column.
#[derive(Debug)]
pub struct RowMaterializer {
    header: Vec<ColumnHeader>,
    buffers: Vec<Vec<CanonicalValue>>,
    rows: usize,
    sql: String,
}

impl View for RowMaterializer {
    type V = Seq<Seq<CanonicalValue>>;

    /// The rows taken so far, in the order in which they came.
    closed spec fn view(&self) -> Seq<Seq<CanonicalValue>> {
        Seq::new(
            self.rows as nat,
            |r: int| Seq::new(self.buffers@.len(), |i: int| self.buffers@[i]@[r]),
        )
    }
}

impl RowMaterializer {
    #[verifier::type_invariant]
    spec fn inv(self) -> bool {
        &&& self.buffers@.len() == self.header@.len()
        &&& forall|i: int|
            0 <= i < self.buffers@.len() ==> (#[trigger] self.buffers@[i])@.len() == self.rows
    }

    /// The header from which the materializer was made.
    pub closed spec fn columns(self) -> Seq<ColumnHeader> {
        self.header@
    }

    /// The statement whose result is collected.
    pub closed spec fn statement(self) -> Seq<char> {
        self.sql@
    }

    /// A materializer for the result of `sql`, which has the given header,
    /// with no row taken yet.
    pub fn new(header: Vec<ColumnHeader>, sql: &str) -> (m: Self)
        ensures
            m.columns() == header@,
            m.statement() == sql@,
            m@ == Seq::<Seq<CanonicalValue>>::empty(),
    {
        let k = header.len();
        let mut buffers: Vec<Vec<CanonicalValue>> = Vec::new();
        let mut i: usize = 0;
        while i < k
            invariant
                i <= k,
                buffers@.len() == i,
                forall|j: int| 0 <= j < i ==> (#[trigger] buffers@[j])@.len() == 0,
            decreases k - i,
        {
            buffers.push(Vec::new());
            i += 1;
        }
        RowMaterializer { header, buffers, rows: 0, sql: String::from_str(sql) }
    }

    /// The number of columns.
    pub fn width(&self) -> (k: usize)
        ensures
            k == self.columns().len(),
    {
        self.header.len()
    }

    /// The number of rows taken so far.
    pub fn row_count(&self) -> (n: usize)
        ensures
            n == self@.len(),
    {
        self.rows
    }

    /// Takes one row: cell `i` of the row goes to the end of buffer `i`.
    ///
    /// A row that does not hold one cell per column is not taken, and
    /// neither is a row beyond the `usize::MAX` rows that can be counted.
    /// Either is a `QueryExecution` failure that carries the statement,
    /// and the materializer is then left as it was.
    pub fn push_row(&mut self, row: Vec<CanonicalValue>) -> (taken: Result<(), DialectError>)
        ensures
            taken is Ok <==> row@.len() == old(self).columns().len() && old(self)@.len()
                < usize::MAX,
            taken is Ok ==> final(self)@ == old(self)@.push(row@),
            taken is Err ==> final(self)@ == old(self)@,
            taken matches Err(e) ==> e matches DialectError::QueryExecution { sql: s, message: m }
                && s@ == old(self).statement() && m@ == (if row@.len() != old(
                self,
            ).columns().len() {
                ROW_SHAPE@
            } else {
                ROW_LIMIT@
            }),
            final(self).columns() == old(self).columns(),
            final(self).statement() == old(self).statement(),
    {
        proof {
            use_type_invariant(&*self);
        }
        let k = self.buffers.len();
        if row.len() != k {
            return Err(
                DialectError::QueryExecution {
                    sql: self.sql.clone(),
                    message: String::from_str(ROW_SHAPE),
                },
            );
        }
        if self.rows == usize::MAX {
            return Err(
                DialectError::QueryExecution {
                    sql: self.sql.clone(),
                    message: String::from_str(ROW_LIMIT),
                },
            );
        }
        let mut row = row;
        let ghost given = row@;
        let ghost before = self.buffers@;
        let mut spare =
            RowMaterializer { header: Vec::new(), buffers: Vec::new(), rows: 0, sql: String::new() };
        core::mem::swap(self, &mut spare);
        let RowMaterializer { header, buffers, rows, sql } = spare;
        let mut buffers = buffers;
        let mut i: usize = k;
        while i > 0
            invariant
                i <= k,
                k == given.len(),
                buffers@.len() == k,
                before.len() == k,
                row@ == given.take(i as int),
                forall|j: int| 0 <= j < i ==> buffers@[j] == before[j],
                forall|j: int|
                    i <= j < k ==> (#[trigger] buffers@[j])@ == before[j]@.push(given[j]),
            decreases i,
        {
            i -= 1;
            let v = row.pop().unwrap();
            buffers[i].push(v);
        }
        *self = RowMaterializer { header, buffers, rows: rows + 1, sql };
        assert forall|r: int| 0 <= r < self.rows implies #[trigger] self@[r] =~= old(self)@.push(
            given,
        )[r] by {
            // buffer `j` holds what it held, and then cell `j` of the row
            assert forall|j: int| 0 <= j < k implies self.buffers@[j]@ == before[j]@.push(
                given[j],
            ) by {}
        }
        Ok(())
    }

    /// Turns the buffers into the batch of the result.
    pub fn finish(self) -> (batch: ColumnarBatch)
        ensures
            batch.describes(self.columns(), self@, self.statement()),
            batch.is_consistent(),
    {
        proof {
            use_type_invariant(&self);
        }
        let k = self.header.len();
        let mut schema: Vec<Field> = Vec::new();
        let mut titles: Vec<Title> = Vec::new();
        let mut arrays: Vec<ColumnArray> = Vec::new();
        let mut i: usize = 0;
        while i < k
            invariant
                i <= k,
                k == self.header@.len(),
                self.buffers@.len() == k,
                forall|j: int|
                    0 <= j < k ==> (#[trigger] self.buffers@[j])@.len() == self.rows,
                schema@.len() == i,
                titles@.len() == i,
                arrays@.len() == i,
                forall|j: int|
                    0 <= j < i ==> {
                        &&& (#[trigger] schema@[j]).name@ == self.header@[j].name@
                        &&& schema@[j].data_type == self.header@[j].column_type.logical_type_spec()
                        &&& schema@[j].nullable
                    },
                forall|j: int|
                    0 <= j < i ==> {
                        &&& (#[trigger] titles@[j]).name@ == self.header@[j].name@
                        &&& titles@[j].type_label@
                            == self.header@[j].column_type.display_name_spec()
                    },
                forall|j: int|
                    0 <= j < i ==> {
                        &&& (#[trigger] arrays@[j]).data_type_spec()
                            == self.header@[j].column_type.logical_type_spec()
                        &&& arrays@[j].len_spec() == self.rows
                    },
                forall|j: int, r: int|
                    0 <= j < i && 0 <= r < self.rows ==> #[trigger] arrays@[j].entry(r)
                        == cell_entry(
                        self.header@[j].column_type.logical_type_spec(),
                        self.buffers@[j]@[r],
                    ),
            decreases k - i,
        {
            let column = &self.header[i];
            let data_type = column.column_type.logical_type();
            schema.push(Field { name: column.name.clone(), data_type, nullable: true });
            titles.push(
                Title { name: column.name.clone(), type_label: column.column_type.display_name() },
            );
            arrays.push(convert_column(data_type, &self.buffers[i]));
            i += 1;
        }
        ColumnarBatch { schema, arrays, titles, total: self.rows, sql: self.sql }
    }
}

/// Makes the batch of a whole result: the header, all rows, and the
/// statement that was run.
///
/// A result in which some row does not hold one cell per column has no
/// batch; it fails as a `QueryExecution` error that carries the statement.
pub fn query(header: Vec<ColumnHeader>, rows: Vec<Vec<CanonicalValue>>, sql: &str) -> (result:
    Result<ColumnarBatch, DialectError>)
    ensures
        result is Ok <==> rows_have_width(rows_view(rows@), header@.len()),
        result matches Ok(batch) ==> batch.describes(header@, rows_view(rows@), sql@)
            && batch.is_consistent(),
        result matches Err(e) ==> e matches DialectError::QueryExecution { sql: s, message: m }
            && s@ == sql@ && m@ == ROW_SHAPE@,
{
    let ghost all = rows_view(rows@);
    let ghost k = header@.len();
    let count = rows.len();
    let mut m = RowMaterializer::new(header, sql);
    for row in it: rows
        invariant
            count == rows@.len(),
            all == rows_view(rows@),
            it.seq() == rows@,
            m.columns() == header@,
            m.statement() == sql@,
            k == header@.len(),
            m@ == all.take(it.index() as int),
            rows_have_width(all.take(it.index() as int), k),
    {
        let ghost n = it.index() as int;
        assert(row@ == all[n]);
        match m.push_row(row) {
            Ok(()) => {},
            Err(e) => {
                return Err(e);
            },
        }
    }
    assert(all.take(rows@.len() as int) =~= all);
    Ok(m.finish())
}

} // verus!
