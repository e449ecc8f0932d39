//! The per-call marshaling pipeline.
//!
//! One indicator invocation runs: read each input column as a dense
//! sentinel buffer, resolve the shared begin index, fix the call plan from
//! the native lookback, and — outside this crate — invoke the native
//! compute function on the offset views. Its report is then reconciled
//! into full-length output buffers and wrapped into columns. The first half
//! is [`prepare_call`]; the second is [`plan::finish_call`] (or
//! [`plan::skipped_outputs`] when the plan says the native call is skipped)
//! followed by the column builders of [`columnar`].

use vstd::prelude::*;

use polars::prelude::Series;

use crate::begin::{is_begin_index, resolve_begin_index, row_all_valid};
use crate::buffer::{is_nan_bits, CustomDefault, F64_SENTINEL_BITS};
use crate::columnar::{
    build_f64_column, build_i32_column, densified, read_series_dense, series_f64_bits,
    series_f64_castable, series_i32_vals, series_is_f64, series_is_i32, series_name,
};
use crate::errors::{TaError, TA_SUCCESS};
use crate::plan::{
    finish_call, native_shape_ok, plan_call, offset_input, reconciled_column, skipped_outputs,
    views_of, CallPlan, NativeCallResult,
};

verus! {

/// The dense sentinel views of a family of input columns.
pub open spec fn dense_views(inputs: Seq<Series>) -> Seq<Seq<u64>> {
    inputs.map_values(|s: Series| densified(series_f64_bits(s)))
}

/// Every row of this nullable column view is sentinel: absent, or a present
/// NaN.
pub open spec fn all_rows_sentinel(view: Seq<Option<u64>>) -> bool {
    forall|i: int| 0 <= i < view.len() ==> (view[i] is None || is_nan_bits((#[trigger] view[i])->0))
}

/// Everything fixed before the native call: the plan, and — when the
/// native call is to run — each input as a dense buffer advanced by the
/// begin index, exactly the view the native function reads.
pub struct PreparedCall {
    /// The geometry of the call.
    pub plan: CallPlan,
    /// One offset dense buffer per input column; left empty when the plan
    /// skips the native call.
    pub inputs_offset: Vec<Vec<u64>>,
}

impl PreparedCall {
    /// What [`prepare_call`] promises of a prepared call for `inputs` and
    /// `lookback`.
    pub open spec fn wf_for(self, inputs: Seq<Series>, lookback: int) -> bool {
        &&& self.plan.wf()
        &&& self.plan.n == series_f64_bits(inputs[0]).len()
        &&& self.plan.lookback == lookback
        &&& is_begin_index(dense_views(inputs), self.plan.begin_idx as int)
        &&& self.plan.n > 0 ==> self.plan.begin_idx < self.plan.n
        &&& self.plan.run_native ==> {
            &&& self.inputs_offset@.len() == inputs.len()
            &&& forall|k: int|
                0 <= k < inputs.len() ==> (#[trigger] self.inputs_offset@[k])@ == dense_views(
                    inputs,
                )[k].subrange(self.plan.begin_idx as int, self.plan.n as int)
        }
    }
}

/// Reads the input columns and fixes the geometry of one native call.
///
/// The columns are materialized as dense sentinel buffers, the shared
/// begin index is resolved over them, and the call plan is derived from it
/// and the native-reported `lookback`. `TypeMismatch` is surfaced exactly
/// when some input column is not castable to the real type, before any
/// native call; `AllInvalidInput` exactly when every column is castable but
/// the input is non-empty and its shared leading invalid run never closes.
/// Every other admitted input succeeds: an empty input or an oversized
/// warm-up region yields a plan that skips the native call. On success the
/// offset input views handed to the native call are returned alongside the
/// plan.
pub fn prepare_call(inputs: &Vec<Series>, lookback: i32) -> (r: Result<PreparedCall, TaError>)
    requires
        1 <= inputs@.len() <= 4,
        0 <= lookback,
        forall|k: int|
            0 <= k < inputs@.len() ==> series_f64_bits(#[trigger] inputs@[k]).len()
                == series_f64_bits(inputs@[0]).len(),
        series_f64_bits(inputs@[0]).len() <= i32::MAX,
    ensures
        match r {
            Ok(p) => p.wf_for(inputs@, lookback as int),
            Err(e) => e == TaError::TypeMismatch || e == TaError::AllInvalidInput,
        },
        r == Err::<PreparedCall, TaError>(TaError::TypeMismatch) <==> (exists|k: int|
            0 <= k < inputs@.len() && !series_f64_castable(#[trigger] inputs@[k])),
        r == Err::<PreparedCall, TaError>(TaError::AllInvalidInput) <==> {
            &&& forall|k: int| 0 <= k < inputs@.len() ==> series_f64_castable(#[trigger] inputs@[k])
            &&& series_f64_bits(inputs@[0]).len() > 0
            &&& forall|i: int|
                0 <= i < series_f64_bits(inputs@[0]).len() ==> !row_all_valid(
                    dense_views(inputs@),
                    i,
                )
        },
        (series_f64_bits(inputs@[0]).len() > 0 && exists|k: int|
            0 <= k < inputs@.len() && all_rows_sentinel(
                series_f64_bits(#[trigger] inputs@[k]),
            )) ==> r is Err,
{
    let ghost views = dense_views(inputs@);
    let ghost n_spec = series_f64_bits(inputs@[0]).len();
    let mut dense: Vec<Vec<u64>> = Vec::new();
    let mut k: usize = 0;
    while k < inputs.len()
        invariant
            k <= inputs@.len(),
            1 <= inputs@.len() <= 4,
            views == dense_views(inputs@),
            forall|m: int|
                0 <= m < inputs@.len() ==> series_f64_bits(#[trigger] inputs@[m]).len() == n_spec,
            dense@.len() == k,
            forall|m: int| 0 <= m < k ==> series_f64_castable(#[trigger] inputs@[m]),
            forall|m: int| 0 <= m < k ==> (#[trigger] dense@[m])@ == views[m],
            forall|m: int| 0 <= m < k ==> (#[trigger] dense@[m])@.len() == n_spec,
        decreases inputs@.len() - k,
    {
        let buf = match read_series_dense(&inputs[k]) {
            Ok(b) => b,
            Err(e) => {
                proof {
                    assert(!series_f64_castable(inputs@[k as int]));
                }
                return Err(e);
            },
        };
        dense.push(buf);
        k = k + 1;
    }
    let n = dense[0].len();
    assert(n == n_spec);
    proof {
        assert(forall|m: int| 0 <= m < views.len() ==> #[trigger] views[m] =~= dense.deep_view()[m]);
        assert(views =~= dense.deep_view());
    }
    let begin_idx = resolve_begin_index(&dense, n)?;
    let plan = plan_call(n, begin_idx, lookback);
    let mut inputs_offset: Vec<Vec<u64>> = Vec::new();
    if plan.run_native {
        let mut m: usize = 0;
        while m < dense.len()
            invariant
                m <= dense@.len(),
                dense@.len() == inputs@.len(),
                begin_idx <= n,
                views == dense_views(inputs@),
                forall|j: int| 0 <= j < dense@.len() ==> (#[trigger] dense@[j])@ == views[j],
                forall|j: int| 0 <= j < dense@.len() ==> (#[trigger] dense@[j])@.len() == n,
                inputs_offset@.len() == m,
                forall|j: int|
                    0 <= j < m ==> (#[trigger] inputs_offset@[j])@ == views[j].subrange(
                        begin_idx as int,
                        n as int,
                    ),
            decreases dense@.len() - m,
        {
            let off = offset_input(&dense[m], begin_idx);
            inputs_offset.push(off);
            m = m + 1;
        }
    }
    proof {
        // An entirely-sentinel input cannot reach this point: the resolved
        // begin row is valid in every input, but that input has no valid
        // row.
        if n_spec > 0 && exists|k: int|
            0 <= k < inputs@.len() && all_rows_sentinel(series_f64_bits(#[trigger] inputs@[k])) {
            let k = choose|k: int|
                0 <= k < inputs@.len() && all_rows_sentinel(series_f64_bits(#[trigger] inputs@[k]));
            let b = begin_idx as int;
            crate::buffer::lemma_sentinel_is_nan();
            assert(row_all_valid(views, b));
            assert(!is_nan_bits(views[k][b]));
            let view_k = series_f64_bits(inputs@[k]);
            assert(views[k] == densified(view_k));
            assert(densified(view_k)[b] == match view_k[b] {
                Some(v) => v,
                None => F64_SENTINEL_BITS,
            });
            assert(view_k[b] is None || is_nan_bits(view_k[b]->0));
            assert(false);
        }
    }
    Ok(PreparedCall { plan, inputs_offset })
}

/// Length invariance, end to end: a prepared call fixes its row count to
/// the length of the first input column, and every output buffer
/// reconciled under that plan has exactly that row count — whatever the
/// native call produced.
pub proof fn lemma_length_invariance(
    inputs: Seq<Series>,
    lookback: int,
    p: PreparedCall,
    written: Seq<Seq<u64>>,
)
    requires
        inputs.len() > 0,
        p.wf_for(inputs, lookback),
    ensures
        forall|k: int|
            0 <= k < written.len() ==> #[trigger] reconciled_column(
                p.plan.n as int,
                p.plan.write_offset(),
                written[k],
                F64_SENTINEL_BITS,
            ).len() == series_f64_bits(inputs[0]).len(),
{
}

/// Reconciles one successful real-valued native call into named columns:
/// each output column carries its declared name in declared order, has
/// exactly the original row count, is sentinel over the warm-up region
/// `[0, begin + lookback)` and past the produced values, and holds the
/// produced values in between. A non-success status or a report that does
/// not fit the reserved region surfaces the corresponding error and no
/// column.
pub fn finish_f64_columns(
    plan: &CallPlan,
    res: &NativeCallResult,
    written: &Vec<Vec<u64>>,
    names: &Vec<&str>,
) -> (r: Result<Vec<Series>, TaError>)
    requires
        plan.wf(),
        plan.run_native,
        1 <= written@.len() <= 3,
        names@.len() == written@.len(),
    ensures
        res.status != TA_SUCCESS ==> r == Err::<Vec<Series>, TaError>(
            TaError::NativeComputeError(res.status),
        ),
        res.status == TA_SUCCESS && !native_shape_ok(*plan, *res, views_of(written@)) ==> r
            == Err::<Vec<Series>, TaError>(TaError::NativeOutputMismatch),
        res.status == TA_SUCCESS && native_shape_ok(*plan, *res, views_of(written@)) ==> {
            &&& r is Ok
            &&& r->Ok_0@.len() == written@.len()
            &&& forall|k: int|
                0 <= k < written@.len() ==> {
                    &&& series_is_f64(#[trigger] r->Ok_0@[k])
                    &&& series_name(r->Ok_0@[k]) == names@[k]@
                    &&& series_f64_bits(r->Ok_0@[k]).len() == plan.n
                    &&& forall|i: int|
                        0 <= i < plan.n ==> series_f64_bits(r->Ok_0@[k])[i] == Some(
                            #[trigger] reconciled_column(
                                plan.n as int,
                                plan.write_offset(),
                                written@[k]@,
                                F64_SENTINEL_BITS,
                            )[i],
                        )
                }
        },
{
    let bufs = finish_call::<u64>(plan, res, written)?;
    let mut cols: Vec<Series> = Vec::new();
    let mut k: usize = 0;
    while k < bufs.len()
        invariant
            k <= bufs@.len(),
            bufs@.len() == written@.len(),
            names@.len() == written@.len(),
            cols@.len() == k,
            forall|m: int|
                0 <= m < bufs@.len() ==> (#[trigger] bufs@[m])@ =~= reconciled_column(
                    plan.n as int,
                    plan.write_offset(),
                    written@[m]@,
                    F64_SENTINEL_BITS,
                ),
            forall|m: int|
                0 <= m < k ==> {
                    &&& series_is_f64(#[trigger] cols@[m])
                    &&& series_name(cols@[m]) == names@[m]@
                    &&& series_f64_bits(cols@[m]).len() == plan.n
                    &&& forall|i: int|
                        0 <= i < plan.n ==> series_f64_bits(cols@[m])[i] == Some(
                            #[trigger] reconciled_column(
                                plan.n as int,
                                plan.write_offset(),
                                written@[m]@,
                                F64_SENTINEL_BITS,
                            )[i],
                        )
                },
        decreases bufs@.len() - k,
    {
        let col = build_f64_column(names[k], &bufs[k]);
        cols.push(col);
        k = k + 1;
    }
    Ok(cols)
}

/// As [`finish_f64_columns`], for integer-typed outputs with their `0`
/// sentinel.
pub fn finish_i32_columns(
    plan: &CallPlan,
    res: &NativeCallResult,
    written: &Vec<Vec<i32>>,
    names: &Vec<&str>,
) -> (r: Result<Vec<Series>, TaError>)
    requires
        plan.wf(),
        plan.run_native,
        1 <= written@.len() <= 3,
        names@.len() == written@.len(),
    ensures
        res.status != TA_SUCCESS ==> r == Err::<Vec<Series>, TaError>(
            TaError::NativeComputeError(res.status),
        ),
        res.status == TA_SUCCESS && !native_shape_ok(*plan, *res, views_of(written@)) ==> r
            == Err::<Vec<Series>, TaError>(TaError::NativeOutputMismatch),
        res.status == TA_SUCCESS && native_shape_ok(*plan, *res, views_of(written@)) ==> {
            &&& r is Ok
            &&& r->Ok_0@.len() == written@.len()
            &&& forall|k: int|
                0 <= k < written@.len() ==> {
                    &&& series_is_i32(#[trigger] r->Ok_0@[k])
                    &&& series_name(r->Ok_0@[k]) == names@[k]@
                    &&& series_i32_vals(r->Ok_0@[k]).len() == plan.n
                    &&& forall|i: int|
                        0 <= i < plan.n ==> series_i32_vals(r->Ok_0@[k])[i] == Some(
                            #[trigger] reconciled_column(
                                plan.n as int,
                                plan.write_offset(),
                                written@[k]@,
                                0i32,
                            )[i],
                        )
                }
        },
{
    let bufs = finish_call::<i32>(plan, res, written)?;
    let mut cols: Vec<Series> = Vec::new();
    let mut k: usize = 0;
    while k < bufs.len()
        invariant
            k <= bufs@.len(),
            bufs@.len() == written@.len(),
            names@.len() == written@.len(),
            cols@.len() == k,
            forall|m: int|
                0 <= m < bufs@.len() ==> (#[trigger] bufs@[m])@ =~= reconciled_column(
                    plan.n as int,
                    plan.write_offset(),
                    written@[m]@,
                    0i32,
                ),
            forall|m: int|
                0 <= m < k ==> {
                    &&& series_is_i32(#[trigger] cols@[m])
                    &&& series_name(cols@[m]) == names@[m]@
                    &&& series_i32_vals(cols@[m]).len() == plan.n
                    &&& forall|i: int|
                        0 <= i < plan.n ==> series_i32_vals(cols@[m])[i] == Some(
                            #[trigger] reconciled_column(
                                plan.n as int,
                                plan.write_offset(),
                                written@[m]@,
                                0i32,
                            )[i],
                        )
                },
        decreases bufs@.len() - k,
    {
        let col = build_i32_column(names[k], &bufs[k]);
        cols.push(col);
        k = k + 1;
    }
    Ok(cols)
}

/// The named columns of a skipped native call: every one has the full row
/// count and every row is sentinel. With no rows at all they are empty —
/// the degenerate-length case.
pub fn skipped_f64_columns(plan: &CallPlan, names: &Vec<&str>) -> (r: Vec<Series>)
    requires
        plan.wf(),
        !plan.run_native,
        1 <= names@.len() <= 3,
    ensures
        r@.len() == names@.len(),
        forall|k: int|
            0 <= k < names@.len() ==> {
                &&& series_is_f64(#[trigger] r@[k])
                &&& series_name(r@[k]) == names@[k]@
                &&& series_f64_bits(r@[k]).len() == plan.n
                &&& forall|i: int|
                    0 <= i < plan.n ==> series_f64_bits(#[trigger] r@[k])[i] == Some(
                        F64_SENTINEL_BITS,
                    )
            },
{
    let bufs = skipped_outputs::<u64>(plan, names.len());
    let mut cols: Vec<Series> = Vec::new();
    let mut k: usize = 0;
    while k < bufs.len()
        invariant
            k <= bufs@.len(),
            bufs@.len() == names@.len(),
            cols@.len() == k,
            forall|m: int| 0 <= m < bufs@.len() ==> (#[trigger] bufs@[m])@.len() == plan.n,
            forall|m: int, i: int|
                0 <= m < bufs@.len() && 0 <= i < plan.n ==> #[trigger] bufs@[m]@[i]
                    == <u64 as CustomDefault>::default_spec(),
            forall|m: int|
                0 <= m < k ==> {
                    &&& series_is_f64(#[trigger] cols@[m])
                    &&& series_name(cols@[m]) == names@[m]@
                    &&& series_f64_bits(cols@[m]).len() == plan.n
                    &&& forall|i: int|
                        0 <= i < plan.n ==> series_f64_bits(#[trigger] cols@[m])[i] == Some(
                            F64_SENTINEL_BITS,
                        )
                },
        decreases bufs@.len() - k,
    {
        let col = build_f64_column(names[k], &bufs[k]);
        cols.push(col);
        k = k + 1;
    }
    cols
}

/// As [`skipped_f64_columns`], for integer-valued outputs.
pub fn skipped_i32_columns(plan: &CallPlan, names: &Vec<&str>) -> (r: Vec<Series>)
    requires
        plan.wf(),
        !plan.run_native,
        1 <= names@.len() <= 3,
    ensures
        r@.len() == names@.len(),
        forall|k: int|
            0 <= k < names@.len() ==> {
                &&& series_is_i32(#[trigger] r@[k])
                &&& series_name(r@[k]) == names@[k]@
                &&& series_i32_vals(r@[k]).len() == plan.n
                &&& forall|i: int|
                    0 <= i < plan.n ==> series_i32_vals(#[trigger] r@[k])[i] == Some(0i32)
            },
{
    let bufs = skipped_outputs::<i32>(plan, names.len());
    let mut cols: Vec<Series> = Vec::new();
    let mut k: usize = 0;
    while k < bufs.len()
        invariant
            k <= bufs@.len(),
            bufs@.len() == names@.len(),
            cols@.len() == k,
            forall|m: int| 0 <= m < bufs@.len() ==> (#[trigger] bufs@[m])@.len() == plan.n,
            forall|m: int, i: int|
                0 <= m < bufs@.len() && 0 <= i < plan.n ==> #[trigger] bufs@[m]@[i]
                    == <i32 as CustomDefault>::default_spec(),
            forall|m: int|
                0 <= m < k ==> {
                    &&& series_is_i32(#[trigger] cols@[m])
                    &&& series_name(cols@[m]) == names@[m]@
                    &&& series_i32_vals(cols@[m]).len() == plan.n
                    &&& forall|i: int|
                        0 <= i < plan.n ==> series_i32_vals(#[trigger] cols@[m])[i] == Some(0i32)
                },
        decreases bufs@.len() - k,
    {
        let col = build_i32_column(names[k], &bufs[k]);
        cols.push(col);
        k = k + 1;
    }
    cols
}

} // verus!
