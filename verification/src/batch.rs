//! The cells of an Arrow record batch, formatted as text.
use vstd::prelude::*;

use arrow::array::RecordBatch;
use arrow::error::ArrowError;
use arrow_cast::display::{ArrayFormatter, FormatOptions};

verus! {

/// A record batch of the `arrow` crate, held opaque; callers wrap their
/// batch as `Batch { inner: batch }`.
#[verifier::external_body]
pub struct Batch {
    pub inner: RecordBatch,
}

/// The error type of the `arrow` crate.
#[verifier::external_type_specification]
#[verifier::external_body]
pub struct ExArrowError(ArrowError);

/// What a record batch holds, column by column: the name of the column's
/// field, and the column's values as Arrow's default display writes them
/// (`None` for the column when no formatter can be made for its data type,
/// `None` for a value that fails to format).
pub uninterp spec fn batch_columns(batch: Batch) -> Seq<
    (Seq<char>, Option<Seq<Option<Seq<char>>>>),
>;

/// The number of rows of a record batch.
pub uninterp spec fn batch_num_rows(batch: Batch) -> nat;

/// The names of the fields, in column order.
pub open spec fn column_names(cols: Seq<(Seq<char>, Option<Seq<Option<Seq<char>>>>)>) -> Seq<
    Seq<char>,
> {
    Seq::new(cols.len(), |c: int| cols[c].0)
}

/// Whether every column can be formatted and every value of the first
/// `num_rows` rows formats.
pub open spec fn batch_formattable(
    cols: Seq<(Seq<char>, Option<Seq<Option<Seq<char>>>>)>,
    num_rows: nat,
) -> bool {
    &&& forall|c: int| 0 <= c < cols.len() ==> (#[trigger] cols[c]).1 is Some
    &&& forall|c: int, r: int|
        #![trigger cols[c].1->0[r]]
        0 <= c < cols.len() && 0 <= r < num_rows ==> cols[c].1->0[r] is Some
}

/// The formatted values, row by row.
pub open spec fn batch_rows(
    cols: Seq<(Seq<char>, Option<Seq<Option<Seq<char>>>>)>,
    num_rows: nat,
) -> Seq<Seq<Seq<char>>> {
    Seq::new(num_rows, |r: int| Seq::new(cols.len(), |c: int| cols[c].1->0[r]->0))
}

/// The number of rows of `batch`.
///
/// Calls `RecordBatch::num_rows`; as documented there, every column of the
/// batch holds that many values.
#[verifier::external_body]
fn num_rows(batch: &Batch) -> (n: usize)
    ensures
        n == batch_num_rows(*batch),
        forall|c: int|
            0 <= c < batch_columns(*batch).len() && (#[trigger] batch_columns(*batch)[c]).1 is Some
                ==> batch_columns(*batch)[c].1->0.len() == n,
{
    batch.inner.num_rows()
}

/// The number of columns of `batch`.
///
/// Calls `RecordBatch::num_columns`; a record batch has one column per field
/// of its schema.
#[verifier::external_body]
fn num_columns(batch: &Batch) -> (n: usize)
    ensures
        n == batch_columns(*batch).len(),
{
    batch.inner.num_columns()
}

/// The name of the field of column `c`.
///
/// Calls `Field::name` on the field at `c` of `RecordBatch::schema_ref`.
#[verifier::external_body]
fn field_name(batch: &Batch, c: usize) -> (name: String)
    requires
        c < batch_columns(*batch).len(),
    ensures
        name@ == batch_columns(*batch)[c as int].0,
{
    batch.inner.schema_ref().field(c).name().clone()
}

/// Whether a formatter can be made for column `c`.
///
/// Calls `ArrayFormatter::try_new` with the default `FormatOptions`.
#[verifier::external_body]
fn check_formatter(batch: &Batch, c: usize) -> (res: Result<(), ArrowError>)
    requires
        c < batch_columns(*batch).len(),
    ensures
        res is Ok <==> batch_columns(*batch)[c as int].1 is Some,
{
    ArrayFormatter::try_new(batch.inner.column(c).as_ref(), &FormatOptions::default()).map(|_f| ())
}

/// The value at row `r` of column `c`, as text.
///
/// Calls `ArrayFormatter::try_new` with the default `FormatOptions`, then
/// `ValueFormatter::try_to_string` on the value at `r`. Which `ArrowError` comes
/// back on a failure is left unsaid.
#[verifier::external_body]
fn cell_text(batch: &Batch, c: usize, r: usize) -> (res: Result<String, ArrowError>)
    requires
        c < batch_columns(*batch).len(),
        r < batch_num_rows(*batch),
        batch_columns(*batch)[c as int].1 is Some,
    ensures
        match batch_columns(*batch)[c as int].1->0[r as int] {
            Some(t) => res is Ok && res->Ok_0@ == t,
            None => res is Err,
        },
{
    let options = FormatOptions::default();
    ArrayFormatter::try_new(batch.inner.column(c).as_ref(), &options)?.value(r).try_to_string()
}

/// The field names and the formatted cells of a record batch.
pub struct RecordText {
    /// The field names, in column order.
    pub names: Vec<String>,
    /// The formatted values, row by row; each row has one value per field.
    pub rows: Vec<Vec<String>>,
}

impl RecordText {
    /// Every row has one value per field.
    pub open spec fn wf(&self) -> bool {
        forall|r: int| 0 <= r < self.rows.len() ==> (#[trigger] self.rows[r]).len() == self.names.len()
    }
}

/// Formats every value of `batch` as text with Arrow's default display
/// options: first a formatter is made for each column, left to right, then
/// the values are formatted row by row; the first failure is returned.
pub fn format_batch(batch: &Batch) -> (res: Result<RecordText, ArrowError>)
    ensures
        res is Ok <==> batch_formattable(batch_columns(*batch), batch_num_rows(*batch)),
        res matches Ok(text) ==> {
            &&& text.wf()
            &&& text.names.deep_view() == column_names(batch_columns(*batch))
            &&& text.rows.deep_view() == batch_rows(batch_columns(*batch), batch_num_rows(*batch))
        },
{
    let ghost cols = batch_columns(*batch);
    let ncols = num_columns(batch);
    let nrows = num_rows(batch);
    let mut c: usize = 0;
    while c < ncols
        invariant
            cols == batch_columns(*batch),
            ncols == cols.len(),
            0 <= c <= ncols,
            forall|k: int| 0 <= k < c ==> (#[trigger] cols[k]).1 is Some,
        decreases ncols - c,
    {
        match check_formatter(batch, c) {
            Ok(()) => {},
            Err(e) => {
                return Err(e);
            },
        }
        c = c + 1;
    }
    let mut names: Vec<String> = Vec::new();
    let mut c: usize = 0;
    while c < ncols
        invariant
            cols == batch_columns(*batch),
            ncols == cols.len(),
            0 <= c <= ncols,
            names.len() == c,
            forall|k: int| 0 <= k < c ==> (#[trigger] names[k])@ == cols[k].0,
        decreases ncols - c,
    {
        names.push(field_name(batch, c));
        c = c + 1;
    }
    let mut rows: Vec<Vec<String>> = Vec::new();
    let mut r: usize = 0;
    while r < nrows
        invariant
            cols == batch_columns(*batch),
            ncols == cols.len(),
            nrows == batch_num_rows(*batch),
            forall|k: int| 0 <= k < ncols ==> (#[trigger] cols[k]).1 is Some,
            forall|k: int| 0 <= k < ncols ==> (#[trigger] cols[k]).1->0.len() == nrows,
            0 <= r <= nrows,
            rows.len() == r,
            forall|i: int, k: int|
                #![trigger cols[k].1->0[i]]
                0 <= i < r && 0 <= k < ncols ==> cols[k].1->0[i] is Some,
            forall|i: int, k: int|
                #![trigger rows[i][k]]
                0 <= i < r && 0 <= k < ncols ==> rows[i][k]@ == cols[k].1->0[i]->0,
            forall|i: int| 0 <= i < r ==> (#[trigger] rows[i]).len() == ncols,
        decreases nrows - r,
    {
        let mut row: Vec<String> = Vec::new();
        let mut c: usize = 0;
        while c < ncols
            invariant
                cols == batch_columns(*batch),
                ncols == cols.len(),
                nrows == batch_num_rows(*batch),
                forall|k: int| 0 <= k < ncols ==> (#[trigger] cols[k]).1 is Some,
                forall|k: int| 0 <= k < ncols ==> (#[trigger] cols[k]).1->0.len() == nrows,
                r < nrows,
                0 <= c <= ncols,
                row.len() == c,
                forall|k: int| 0 <= k < c ==> (#[trigger] cols[k]).1->0[r as int] is Some,
                forall|k: int| 0 <= k < c ==> (#[trigger] row[k])@ == cols[k].1->0[r as int]->0,
            decreases ncols - c,
        {
            match cell_text(batch, c, r) {
                Ok(t) => {
                    row.push(t);
                },
                Err(e) => {
                    assert(cols[c as int].1->0[r as int] is None);
                    assert(!batch_formattable(cols, nrows as nat));
                    return Err(e);
                },
            }
            c = c + 1;
        }
        let ghost prev = rows@;
        rows.push(row);
        assert forall|i: int, k: int| 0 <= i < r + 1 && 0 <= k < ncols implies #[trigger] rows[i][k]@
            == cols[k].1->0[i]->0 by {
            if i < r {
                assert(rows[i] == prev[i]);
            }
        }
        r = r + 1;
    }
    let text = RecordText { names, rows };
    assert(text.names.deep_view() =~= column_names(cols));
    assert(text.rows.deep_view() =~= batch_rows(cols, nrows as nat)) by {
        assert forall|i: int| 0 <= i < nrows implies #[trigger] text.rows.deep_view()[i]
            =~= batch_rows(cols, nrows as nat)[i] by {
            assert(text.rows[i].len() == ncols);
        }
    }
    Ok(text)
}

} // verus!
