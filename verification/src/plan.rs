//! Native-call planning and output reconciliation.
//!
//! One indicator call is marshaled in three steps. First a [`CallPlan`] is
//! fixed from the row count, the resolved begin index and the native
//! library's reported lookback: it says whether the native function is
//! invoked at all and, if so, over which index range of the offset view.
//! The native call itself happens outside this crate; its report comes back
//! as a [`NativeCallResult`] together with the values it produced. Finally
//! the reconciliation step validates that report against the reserved
//! output region and rebuilds full-length, sentinel-padded output buffers.
//!
//! Every output buffer keeps the original row count: rows the native call
//! never produced stay sentinel. The final valid length
//! `begin + out_begin + out_size` is computed in one place, [`final_len`],
//! and validated rather than trusted.

use vstd::prelude::*;

use crate::buffer::{make_vec, CustomDefault};
use crate::errors::{TaError, TA_SUCCESS};

verus! {

/// The `(status, out_begin, out_size)` triple reported by one native
/// compute call. `out_begin` counts from the begin-index-offset view, not
/// from row zero.
#[derive(Clone, Copy, Debug, PartialEq, Eq, Structural)]
pub struct NativeCallResult {
    pub status: i32,
    pub out_begin: i32,
    pub out_size: i32,
}

/// The fixed geometry of one native call: row count, begin index, lookback,
/// and the translated index range the native function is given.
#[derive(Clone, Copy, Debug, PartialEq, Eq, Structural)]
pub struct CallPlan {
    /// Total number of rows of every input and every output.
    pub n: usize,
    /// First row from which all inputs are valid.
    pub begin_idx: usize,
    /// Warm-up rows the indicator consumes past the begin index.
    pub lookback: usize,
    /// Whether the native function is invoked at all. It is skipped when
    /// there are no rows, or when the combined warm-up region
    /// `begin_idx + lookback` exceeds the input length.
    pub run_native: bool,
    /// Start index handed to the native call: always zero, since the input
    /// pointers are advanced by `begin_idx` first.
    pub start_idx: i32,
    /// End index handed to the native call, relative to the offset view.
    pub end_idx: i32,
}

impl CallPlan {
    /// First output position the native call may write: just past the
    /// combined warm-up region.
    pub open spec fn write_offset(self) -> int {
        self.begin_idx + self.lookback
    }

    /// Internal consistency of a plan.
    pub open spec fn wf(self) -> bool {
        &&& self.begin_idx <= self.n
        &&& self.n <= i32::MAX
        &&& self.start_idx == 0
        &&& self.run_native <==> (self.n > 0 && self.write_offset() <= self.n)
        &&& self.run_native ==> self.begin_idx < self.n
        &&& self.run_native ==> self.end_idx == self.n - self.begin_idx - 1
    }

    /// Executable form of [`CallPlan::write_offset`].
    pub fn write_offset_exec(&self) -> (r: usize)
        requires
            self.wf(),
            self.run_native,
        ensures
            r == self.write_offset(),
    {
        self.begin_idx + self.lookback
    }
}

/// Fixes the geometry of one native call.
///
/// The native function is invoked exactly when there is at least one row
/// and the combined warm-up region still fits; otherwise the call is
/// skipped and the outputs stay entirely sentinel. The index range handed
/// to the native call is `0 ..= n - begin_idx - 1`, positional in the view
/// whose pointers are advanced by `begin_idx`.
pub fn plan_call(n: usize, begin_idx: usize, lookback: i32) -> (r: CallPlan)
    requires
        begin_idx <= n,
        n > 0 ==> begin_idx < n,
        0 <= lookback,
        n <= i32::MAX,
    ensures
        r.wf(),
        r.n == n,
        r.begin_idx == begin_idx,
        r.lookback == lookback,
        r.run_native <==> (n > 0 && begin_idx + lookback <= n),
{
    let lb = lookback as usize;
    let run_native = n > 0 && lb <= n && begin_idx <= n - lb;
    let end_idx: i32 = if run_native {
        (n - begin_idx - 1) as i32
    } else {
        0
    };
    CallPlan { n, begin_idx, lookback: lb, run_native, start_idx: 0, end_idx }
}

/// Copies the tail of one dense input starting at the begin index: the
/// offset view the native call reads, in place of advancing a raw pointer.
pub fn offset_input(arr: &Vec<u64>, begin_idx: usize) -> (r: Vec<u64>)
    requires
        begin_idx <= arr@.len(),
    ensures
        r@ == arr@.subrange(begin_idx as int, arr@.len() as int),
{
    let mut out: Vec<u64> = Vec::new();
    let mut i: usize = begin_idx;
    while i < arr.len()
        invariant
            begin_idx <= i <= arr@.len(),
            out@ =~= arr@.subrange(begin_idx as int, i as int),
        decreases arr@.len() - i,
    {
        out.push(arr[i]);
        i = i + 1;
    }
    assert(out@ =~= arr@.subrange(begin_idx as int, arr@.len() as int));
    out
}

/// The reconciled final valid length: the caller-computed begin index plus
/// the native call's own begin/size report. Kept as the single shared
/// utility so no call site re-derives it.
pub fn final_len(begin_idx: usize, out_begin: i32, out_size: i32) -> (r: usize)
    requires
        0 <= out_begin,
        0 <= out_size,
        begin_idx + out_begin + out_size <= usize::MAX,
    ensures
        r == begin_idx + out_begin + out_size,
{
    begin_idx + (out_begin as usize) + (out_size as usize)
}

/// The contents of one reconciled output buffer: `written` placed at
/// `write_offset`, sentinel everywhere else, `n` rows in all.
pub open spec fn reconciled_column<T>(n: int, write_offset: int, written: Seq<T>, sentinel: T) -> Seq<
    T,
> {
    Seq::new(
        n as nat,
        |i: int|
            if write_offset <= i < write_offset + written.len() {
                written[i - write_offset]
            } else {
                sentinel
            },
    )
}

/// Length invariance: a reconciled output buffer always has exactly the
/// original row count, however many rows the native call produced.
pub proof fn lemma_output_length_invariance<T>(n: int, write_offset: int, written: Seq<T>, s: T)
    requires
        0 <= write_offset,
        write_offset + written.len() <= n,
    ensures
        reconciled_column(n, write_offset, written, s).len() == n,
{
}

/// Sentinel-region correctness: every row of a reconciled output before the
/// combined warm-up boundary is sentinel, and the boundary row itself is
/// the first that can hold a produced value.
pub proof fn lemma_warmup_region_is_sentinel<T>(n: int, write_offset: int, written: Seq<T>, s: T)
    requires
        0 <= write_offset,
        write_offset + written.len() <= n,
    ensures
        forall|i: int| 0 <= i < write_offset ==> reconciled_column(n, write_offset, written, s)[i]
            == s,
        written.len() > 0 ==> reconciled_column(n, write_offset, written, s)[write_offset]
            == written[0],
{
}

/// Multi-output consistency: two outputs reconciled from one call — same
/// row count, same warm-up boundary, same reported size — agree on their
/// length and on which rows are in the sentinel region.
pub proof fn lemma_multi_output_consistency<T>(
    n: int,
    write_offset: int,
    w1: Seq<T>,
    w2: Seq<T>,
    s: T,
)
    requires
        0 <= write_offset,
        w1.len() == w2.len(),
        write_offset + w1.len() <= n,
    ensures
        reconciled_column(n, write_offset, w1, s).len() == reconciled_column(
            n,
            write_offset,
            w2,
            s,
        ).len(),
        forall|i: int|
            0 <= i < n && !(write_offset <= i < write_offset + w1.len())
                ==> reconciled_column(n, write_offset, w1, s)[i] == s
                && reconciled_column(n, write_offset, w2, s)[i] == s,
{
}

/// Reconciliation correctness at the tail: every row at or past the final
/// valid length `begin + out_begin + out_size` of a reconciled output is
/// sentinel. With a fitting report this follows because produced rows start
/// at the warm-up boundary and their begin equals the lookback, so the
/// written region ends exactly at the final valid length.
pub proof fn lemma_rows_past_final_len_are_sentinel<T>(
    plan: CallPlan,
    res: NativeCallResult,
    written: Seq<T>,
    s: T,
)
    requires
        plan.wf(),
        0 <= res.out_begin,
        written.len() == res.out_size,
        plan.write_offset() + res.out_size <= plan.n,
        res.out_size != 0 ==> res.out_begin == plan.lookback,
    ensures
        forall|i: int|
            plan.begin_idx + res.out_begin + res.out_size <= i < plan.n ==> reconciled_column(
                plan.n as int,
                plan.write_offset(),
                written,
                s,
            )[i] == s,
{
}

/// Degenerate length: with no rows at all, a well-formed plan never runs
/// the native call and every output is the empty buffer.
pub proof fn lemma_empty_input_empty_output<T>(plan: CallPlan, s: T)
    requires
        plan.wf(),
        plan.n == 0,
    ensures
        !plan.run_native,
        reconciled_column(plan.n as int, 0, Seq::<T>::empty(), s).len() == 0,
{
}

/// The element-level views of a family of buffers.
pub open spec fn views_of<T>(s: Seq<Vec<T>>) -> Seq<Seq<T>> {
    s.map_values(|v: Vec<T>| v@)
}

/// Whether the native call's report fits the reserved output region: no
/// negative index, every produced buffer of exactly the reported size, the
/// written region inside the buffer, the reconciled final length not past
/// the row count, and — whenever rows were produced — the report's own
/// begin agreeing with the lookback, since the values were written just
/// past the warm-up region. A report that produced rows from anywhere else
/// would put a value at or past the final valid length.
pub open spec fn native_shape_ok<T>(
    plan: CallPlan,
    res: NativeCallResult,
    written: Seq<Seq<T>>,
) -> bool {
    &&& 0 <= res.out_begin
    &&& 0 <= res.out_size
    &&& forall|k: int| 0 <= k < written.len() ==> (#[trigger] written[k]).len() == res.out_size
    &&& plan.write_offset() + res.out_size <= plan.n
    &&& plan.begin_idx + res.out_begin + res.out_size <= plan.n
    &&& res.out_size != 0 ==> res.out_begin == plan.lookback
}

/// Rebuilds one full-length output buffer from the values the native call
/// produced: sentinel over the warm-up region and the tail, `written` in
/// between.
pub fn reconcile_output<T: Copy + CustomDefault>(
    n: usize,
    write_offset: usize,
    written: &Vec<T>,
) -> (r: Vec<T>)
    requires
        write_offset + written@.len() <= n,
        n <= i32::MAX,
    ensures
        r@ =~= reconciled_column(n as int, write_offset as int, written@, T::default_spec()),
        r@.len() == n,
{
    let (mut out, _first_writable) = make_vec::<T>(n, write_offset as i32);
    let mut j: usize = 0;
    while j < written.len()
        invariant
            j <= written@.len(),
            write_offset + written@.len() <= n,
            out@.len() == n,
            forall|i: int|
                0 <= i < n && !(write_offset <= i < write_offset + j) ==> out@[i]
                    == T::default_spec(),
            forall|i: int|
                write_offset <= i < write_offset + j ==> out@[i] == written@[i - write_offset],
        decreases written@.len() - j,
    {
        out.set(write_offset + j, written[j]);
        j = j + 1;
    }
    assert(out@ =~= reconciled_column(n as int, write_offset as int, written@, T::default_spec()));
    out
}

/// The all-sentinel outputs of a skipped native call: one buffer per output,
/// each of the full row count. With no rows at all this is a family of
/// empty buffers.
pub fn skipped_outputs<T: Copy + CustomDefault>(plan: &CallPlan, n_outputs: usize) -> (r: Vec<
    Vec<T>,
>)
    requires
        plan.wf(),
        !plan.run_native,
        1 <= n_outputs <= 3,
    ensures
        r@.len() == n_outputs,
        forall|k: int|
            0 <= k < n_outputs ==> (#[trigger] r@[k])@ =~= reconciled_column(
                plan.n as int,
                0,
                Seq::<T>::empty(),
                T::default_spec(),
            ),
        forall|k: int| 0 <= k < n_outputs ==> (#[trigger] r@[k])@.len() == plan.n,
        forall|k: int, i: int|
            0 <= k < n_outputs && 0 <= i < plan.n ==> #[trigger] r@[k]@[i] == T::default_spec(),
{
    let mut outs: Vec<Vec<T>> = Vec::new();
    let mut k: usize = 0;
    while k < n_outputs
        invariant
            k <= n_outputs,
            plan.n <= i32::MAX,
            outs@.len() == k,
            forall|m: int|
                0 <= m < k ==> (#[trigger] outs@[m])@ =~= reconciled_column(
                    plan.n as int,
                    0,
                    Seq::<T>::empty(),
                    T::default_spec(),
                ),
        decreases n_outputs - k,
    {
        let (buf, _first_writable) = make_vec::<T>(plan.n, 0);
        assert(buf@ =~= reconciled_column(plan.n as int, 0, Seq::<T>::empty(), T::default_spec()));
        outs.push(buf);
        k = k + 1;
    }
    outs
}

/// Reconciles one native call's report into full-length output buffers.
///
/// A non-success status propagates as `NativeComputeError` and no buffer is
/// produced. A success report that does not fit the reserved region —
/// however the native call misbehaved, including a producing report whose
/// own begin disagrees with the lookback — is rejected as
/// `NativeOutputMismatch` rather than trusted. Otherwise every output
/// buffer keeps the full row count: sentinel over `[0, begin + lookback)`,
/// the produced values next, sentinel from the final valid length
/// `begin + out_begin + out_size` to the end.
pub fn finish_call<T: Copy + CustomDefault>(
    plan: &CallPlan,
    res: &NativeCallResult,
    written: &Vec<Vec<T>>,
) -> (r: Result<Vec<Vec<T>>, TaError>)
    requires
        plan.wf(),
        plan.run_native,
        1 <= written@.len() <= 3,
    ensures
        res.status != TA_SUCCESS ==> r == Err::<Vec<Vec<T>>, TaError>(
            TaError::NativeComputeError(res.status),
        ),
        res.status == TA_SUCCESS && !native_shape_ok(*plan, *res, views_of(written@)) ==> r
            == Err::<Vec<Vec<T>>, TaError>(TaError::NativeOutputMismatch),
        res.status == TA_SUCCESS && native_shape_ok(*plan, *res, views_of(written@)) ==> {
            &&& r is Ok
            &&& r->Ok_0@.len() == written@.len()
            &&& forall|k: int|
                0 <= k < written@.len() ==> (#[trigger] r->Ok_0@[k])@ =~= reconciled_column(
                    plan.n as int,
                    plan.write_offset(),
                    written@[k]@,
                    T::default_spec(),
                )
        },
{
    let ghost vwritten = views_of(written@);
    assert(forall|k: int| 0 <= k < vwritten.len() ==> #[trigger] vwritten[k] =~= written@[k]@);
    if res.status != TA_SUCCESS {
        return Err(TaError::NativeComputeError(res.status));
    }
    if res.out_begin < 0 || res.out_size < 0 {
        return Err(TaError::NativeOutputMismatch);
    }
    let out_size = res.out_size as usize;
    let mut k: usize = 0;
    while k < written.len()
        invariant
            k <= written@.len(),
            1 <= written@.len(),
            res.status == TA_SUCCESS,
            0 <= res.out_begin,
            0 <= res.out_size,
            vwritten == views_of(written@),
            vwritten.len() == written@.len(),
            forall|m: int| 0 <= m < vwritten.len() ==> #[trigger] vwritten[m] =~= written@[m]@,
            out_size == res.out_size,
            forall|m: int| 0 <= m < k ==> (#[trigger] written@[m])@.len() == out_size,
        decreases written@.len() - k,
    {
        if written[k].len() != out_size {
            proof {
                assert(vwritten[k as int].len() != res.out_size);
                assert(!native_shape_ok(*plan, *res, vwritten));
            }
            return Err(TaError::NativeOutputMismatch);
        }
        k = k + 1;
    }
    let write_offset = plan.write_offset_exec();
    if out_size > plan.n - write_offset {
        return Err(TaError::NativeOutputMismatch);
    }
    let out_begin = res.out_begin as usize;
    if out_begin > plan.n || out_size > plan.n - out_begin {
        return Err(TaError::NativeOutputMismatch);
    }
    let reconciled_len = final_len(plan.begin_idx, res.out_begin, res.out_size);
    if reconciled_len > plan.n {
        return Err(TaError::NativeOutputMismatch);
    }
    if out_size != 0 && out_begin != plan.lookback {
        return Err(TaError::NativeOutputMismatch);
    }
    assert(native_shape_ok(*plan, *res, vwritten));
    let mut outs: Vec<Vec<T>> = Vec::new();
    let mut k2: usize = 0;
    while k2 < written.len()
        invariant
            k2 <= written@.len(),
            write_offset == plan.write_offset(),
            write_offset + out_size <= plan.n,
            plan.n <= i32::MAX,
            forall|m: int| 0 <= m < written@.len() ==> (#[trigger] written@[m])@.len() == out_size,
            outs@.len() == k2,
            forall|m: int|
                0 <= m < k2 ==> (#[trigger] outs@[m])@ =~= reconciled_column(
                    plan.n as int,
                    plan.write_offset(),
                    written@[m]@,
                    T::default_spec(),
                ),
        decreases written@.len() - k2,
    {
        let col = reconcile_output(plan.n, write_offset, &written[k2]);
        outs.push(col);
        k2 = k2 + 1;
    }
    Ok(outs)
}

} // verus!
