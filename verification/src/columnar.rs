//! The columnar boundary.
//!
//! The dataframe engine owns the nullable column representation; this module
//! is the only place that touches it. A column is read by casting it to the
//! 64-bit real type and walking its rows, substituting the sentinel for
//! every absent value; a finished dense buffer is wrapped back into a typed
//! column of the same length. Everything the verified code knows about a
//! column is expressed through uninterpreted views: its nullable
//! real-valued contents (as IEEE-754 bit patterns), its nullable integer
//! contents, its name, whether its element type is the 64-bit real or the
//! 32-bit integer type, and whether the engine can cast it to the real
//! type at all.

use vstd::prelude::*;

use polars::prelude::Float64Type;
use polars::prelude::PolarsNumericType;
use polars::prelude::IntoSeries;
use polars::prelude::Series;
use polars::prelude::PolarsError;

use crate::buffer::F64_SENTINEL_BITS;
use crate::errors::TaError;

verus! {

#[verifier::external_type_specification]
#[verifier::external_body]
pub struct ExSeries(Series);

#[verifier::external_type_specification]
#[verifier::external_body]
pub struct ExPolarsError(PolarsError);

/// The nullable real-valued contents of a column: one optional IEEE-754 bit
/// pattern per row, as produced by conversion to the 64-bit real element
/// type. For a column that conversion rejects outright, only the row count
/// is meaningful.
pub uninterp spec fn series_f64_bits(s: Series) -> Seq<Option<u64>>;

/// Whether the column's element type is the 64-bit real type, so that each
/// row reads back exactly as one of [`series_f64_bits`]'s entries.
pub uninterp spec fn series_is_f64(s: Series) -> bool;

/// The nullable contents of an integer-typed column, one optional 32-bit
/// value per row.
pub uninterp spec fn series_i32_vals(s: Series) -> Seq<Option<i32>>;

/// Whether the column's element type is the 32-bit integer type, so that
/// each row reads back exactly as one of [`series_i32_vals`]'s entries.
pub uninterp spec fn series_is_i32(s: Series) -> bool;

/// Whether the engine can cast this column to the 64-bit real type. The
/// cast's outcome is a function of the column's element type alone, so this
/// is a property of the column value; a column whose element type already
/// is the 64-bit real type is always castable (the cast is its clone path).
pub uninterp spec fn series_f64_castable(s: Series) -> bool;

/// The column's name, as its sequence of characters.
pub uninterp spec fn series_name(s: Series) -> Seq<char>;

/// A nullable view collapsed onto dense sentinel representation: each
/// present value keeps its bit pattern, each absent one becomes the
/// canonical NaN.
pub open spec fn densified(view: Seq<Option<u64>>) -> Seq<u64> {
    view.map_values(
        |o: Option<u64>|
            match o {
                Some(b) => b,
                None => F64_SENTINEL_BITS,
            },
    )
}

/// Relies on polars' `Series::cast` to the `Float64` data type: it yields a
/// real-typed column of the same row count whose rows are the real-valued
/// reading of the input's rows, which is what [`series_f64_bits`] denotes.
/// Whether the cast succeeds depends on the column's element type alone —
/// that is what [`series_f64_castable`] denotes — and a column already of
/// the real type takes the cast's clone path and always succeeds; a column
/// the engine cannot cast is reported as an error.
#[verifier::external_body]
fn cast_to_f64_raw(series: &Series) -> (r: Result<Series, PolarsError>)
    ensures
        r is Ok <==> series_f64_castable(*series),
        series_is_f64(*series) ==> r is Ok,
        r is Ok ==> series_is_f64(r->Ok_0),
        r is Ok ==> series_f64_bits(r->Ok_0) == series_f64_bits(*series),
{
    series.cast(&polars::prelude::DataType::Float64)
}

/// Relies on `Series::len`: the row count of a real-typed column is the
/// length of its nullable contents.
#[verifier::external_body]
fn series_len_raw(series: &Series) -> (r: usize)
    requires
        series_is_f64(*series),
    ensures
        r == series_f64_bits(*series).len(),
{
    series.len()
}

/// Relies on `Series::get` on a real-typed column: row `i` is either a
/// present real value or null. The value's bit pattern is taken with
/// `to_bits`, the exact inverse of the `from_bits` used when building a
/// column.
#[verifier::external_body]
fn series_get_bits(series: &Series, i: usize) -> (r: Option<u64>)
    requires
        series_is_f64(*series),
        i < series_f64_bits(*series).len(),
    ensures
        r == series_f64_bits(*series)[i as int],
{
    match series.get(i) {
        Ok(polars::prelude::AnyValue::Float64(v)) => Some(v.to_bits()),
        _ => None,
    }
}

/// Relies on `Float64Chunked::from_vec` wrapping a dense value buffer into
/// a real-typed column without nulls that carries the given name, and on
/// `from_bits`/`to_bits` being exact inverses: row `i` of the column holds
/// precisely bit pattern `values[i]`.
#[verifier::external_body]
fn bits_to_f64_series(name: &str, values: &Vec<u64>) -> (r: Series)
    ensures
        series_is_f64(r),
        series_name(r) == name@,
        series_f64_bits(r).len() == values@.len(),
        forall|i: int| 0 <= i < values@.len() ==> series_f64_bits(r)[i] == Some(values@[i]),
{
    let vals: Vec<<Float64Type as PolarsNumericType>::Native> = values.iter().map(
        |b| <<Float64Type as PolarsNumericType>::Native>::from_bits(*b),
    ).collect();
    let ca = polars::prelude::Float64Chunked::from_vec(name.into(), vals);
    ca.into_series()
}

/// Relies on `Int32Chunked::from_vec` wrapping a dense value buffer into an
/// integer-typed column without nulls that carries the given name: row `i`
/// holds precisely `values[i]`.
#[verifier::external_body]
fn i32s_to_series(name: &str, values: &Vec<i32>) -> (r: Series)
    ensures
        series_is_i32(r),
        series_name(r) == name@,
        series_i32_vals(r).len() == values@.len(),
        forall|i: int| 0 <= i < values@.len() ==> series_i32_vals(r)[i] == Some(values@[i]),
{
    let ca = polars::prelude::Int32Chunked::from_vec(name.into(), values.clone());
    ca.into_series()
}

/// Casts one input column to the 64-bit real type. It succeeds exactly on
/// castable columns — in particular on every column already of the real
/// type — and preserves their contents and row count; any other column is
/// surfaced as `TypeMismatch`.
pub fn cast_series_to_f64(series: &Series) -> (r: Result<Series, TaError>)
    ensures
        r is Ok <==> series_f64_castable(*series),
        series_is_f64(*series) ==> r is Ok,
        match r {
            Ok(c) => series_is_f64(c) && series_f64_bits(c) == series_f64_bits(*series),
            Err(e) => e == TaError::TypeMismatch,
        },
{
    match cast_to_f64_raw(series) {
        Ok(c) => Ok(c),
        Err(_) => Err(TaError::TypeMismatch),
    }
}

/// Materializes a real-typed column as a dense sentinel buffer: position
/// `i` holds the value's bit pattern if row `i` is present, the canonical
/// NaN if it is null. The input column is not changed.
pub fn series_to_sentinel_buffer(series: &Series) -> (r: Vec<u64>)
    requires
        series_is_f64(*series),
    ensures
        r@ == densified(series_f64_bits(*series)),
        r@.len() == series_f64_bits(*series).len(),
{
    let ghost view = series_f64_bits(*series);
    let n = series_len_raw(series);
    let mut out: Vec<u64> = Vec::new();
    let mut i: usize = 0;
    while i < n
        invariant
            i <= n,
            n == view.len(),
            series_is_f64(*series),
            view == series_f64_bits(*series),
            out@.len() == i,
            forall|j: int| 0 <= j < i ==> out@[j] == densified(view)[j],
        decreases n - i,
    {
        match series_get_bits(series, i) {
            Some(b) => out.push(b),
            None => out.push(F64_SENTINEL_BITS),
        }
        i = i + 1;
    }
    assert(out@ =~= densified(view));
    out
}

/// Reads one input column end to end: cast to the real type, then dense
/// sentinel materialization. This is the whole read path of one input; it
/// succeeds exactly on castable columns.
pub fn read_series_dense(series: &Series) -> (r: Result<Vec<u64>, TaError>)
    ensures
        r is Ok <==> series_f64_castable(*series),
        match r {
            Ok(v) => v@ == densified(series_f64_bits(*series)),
            Err(e) => e == TaError::TypeMismatch,
        },
{
    let cast = cast_series_to_f64(series)?;
    Ok(series_to_sentinel_buffer(&cast))
}

/// Wraps one finalized real-valued buffer into a column of the same length,
/// carrying exactly the given name.
pub fn build_f64_column(name: &str, values: &Vec<u64>) -> (r: Series)
    ensures
        series_is_f64(r),
        series_name(r) == name@,
        series_f64_bits(r).len() == values@.len(),
        forall|i: int| 0 <= i < values@.len() ==> series_f64_bits(r)[i] == Some(values@[i]),
{
    bits_to_f64_series(name, values)
}

/// Wraps one finalized integer-valued buffer into a column of the same
/// length, carrying exactly the given name.
pub fn build_i32_column(name: &str, values: &Vec<i32>) -> (r: Series)
    ensures
        series_is_i32(r),
        series_name(r) == name@,
        series_i32_vals(r).len() == values@.len(),
        forall|i: int| 0 <= i < values@.len() ==> series_i32_vals(r)[i] == Some(values@[i]),
{
    i32s_to_series(name, values)
}

} // verus!
