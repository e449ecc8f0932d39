//! Begin-index resolution.
//!
//! One indicator call reads one to four synchronized input buffers of equal
//! length. The native library must only ever see rows from which *every*
//! input is simultaneously valid; the begin index is the end of the shared
//! leading invalid run, found by scanning forward until a row holds no
//! sentinel in any input.

use vstd::prelude::*;

use crate::buffer::is_nan_bits;
use crate::errors::TaError;

verus! {

/// Row `i` holds a valid (non-sentinel) value in every one of `arrs`.
pub open spec fn row_all_valid(arrs: Seq<Seq<u64>>, i: int) -> bool {
    forall|k: int| 0 <= k < arrs.len() ==> !is_nan_bits(#[trigger] arrs[k][i])
}

/// The begin index of `arrs` is `b`: rows before `b` each hold a sentinel in
/// at least one input, and row `b` (if it exists) holds none.
pub open spec fn is_begin_index(arrs: Seq<Seq<u64>>, b: int) -> bool {
    &&& forall|j: int| 0 <= j < b ==> !row_all_valid(arrs, j)
    &&& b < arrs[0].len() ==> row_all_valid(arrs, b)
}

/// Scans one buffer and returns the length of its leading sentinel run.
pub fn check_begin_idx1(len: usize, arr: &Vec<u64>) -> (r: usize)
    requires
        arr@.len() == len,
    ensures
        r <= len,
        forall|j: int| 0 <= j < r ==> is_nan_bits(arr@[j]),
        r < len ==> !is_nan_bits(arr@[r as int]),
{
    let mut begin_idx: usize = 0;
    let mut i: usize = 0;
    while i < len
        invariant
            i <= len,
            begin_idx == i,
            arr@.len() == len,
            forall|j: int| 0 <= j < i ==> is_nan_bits(arr@[j]),
        decreases len - i,
    {
        if crate::buffer::f64_bits_is_nan(arr[i]) {
            begin_idx = i + 1;
        } else {
            return begin_idx;
        }
        i = i + 1;
    }
    begin_idx
}

/// Scans two same-length buffers in lock-step and returns the length of the
/// shared leading run of rows in which either holds a sentinel.
pub fn check_begin_idx2(len: usize, arr1: &Vec<u64>, arr2: &Vec<u64>) -> (r: usize)
    requires
        arr1@.len() == len,
        arr2@.len() == len,
    ensures
        r <= len,
        forall|j: int| 0 <= j < r ==> is_nan_bits(arr1@[j]) || is_nan_bits(arr2@[j]),
        r < len ==> !is_nan_bits(arr1@[r as int]) && !is_nan_bits(arr2@[r as int]),
{
    let mut begin_idx: usize = 0;
    let mut i: usize = 0;
    while i < len
        invariant
            i <= len,
            begin_idx == i,
            arr1@.len() == len,
            arr2@.len() == len,
            forall|j: int| 0 <= j < i ==> is_nan_bits(arr1@[j]) || is_nan_bits(arr2@[j]),
        decreases len - i,
    {
        if crate::buffer::f64_bits_is_nan(arr1[i]) || crate::buffer::f64_bits_is_nan(arr2[i]) {
            begin_idx = i + 1;
        } else {
            return begin_idx;
        }
        i = i + 1;
    }
    begin_idx
}

/// As [`check_begin_idx2`], over three buffers.
pub fn check_begin_idx3(len: usize, arr1: &Vec<u64>, arr2: &Vec<u64>, arr3: &Vec<u64>) -> (r: usize)
    requires
        arr1@.len() == len,
        arr2@.len() == len,
        arr3@.len() == len,
    ensures
        r <= len,
        forall|j: int| 0 <= j < r ==> is_nan_bits(arr1@[j]) || is_nan_bits(arr2@[j]) || is_nan_bits(
            arr3@[j],
        ),
        r < len ==> !is_nan_bits(arr1@[r as int]) && !is_nan_bits(arr2@[r as int]) && !is_nan_bits(
            arr3@[r as int],
        ),
{
    let mut begin_idx: usize = 0;
    let mut i: usize = 0;
    while i < len
        invariant
            i <= len,
            begin_idx == i,
            arr1@.len() == len,
            arr2@.len() == len,
            arr3@.len() == len,
            forall|j: int| 0 <= j < i ==> is_nan_bits(arr1@[j]) || is_nan_bits(arr2@[j])
                || is_nan_bits(arr3@[j]),
        decreases len - i,
    {
        if crate::buffer::f64_bits_is_nan(arr1[i]) || crate::buffer::f64_bits_is_nan(arr2[i])
            || crate::buffer::f64_bits_is_nan(arr3[i]) {
            begin_idx = i + 1;
        } else {
            return begin_idx;
        }
        i = i + 1;
    }
    begin_idx
}

/// As [`check_begin_idx2`], over four buffers.
pub fn check_begin_idx4(
    len: usize,
    arr1: &Vec<u64>,
    arr2: &Vec<u64>,
    arr3: &Vec<u64>,
    arr4: &Vec<u64>,
) -> (r: usize)
    requires
        arr1@.len() == len,
        arr2@.len() == len,
        arr3@.len() == len,
        arr4@.len() == len,
    ensures
        r <= len,
        forall|j: int| 0 <= j < r ==> is_nan_bits(arr1@[j]) || is_nan_bits(arr2@[j]) || is_nan_bits(
            arr3@[j],
        ) || is_nan_bits(arr4@[j]),
        r < len ==> !is_nan_bits(arr1@[r as int]) && !is_nan_bits(arr2@[r as int]) && !is_nan_bits(
            arr3@[r as int],
        ) && !is_nan_bits(arr4@[r as int]),
{
    let mut begin_idx: usize = 0;
    let mut i: usize = 0;
    while i < len
        invariant
            i <= len,
            begin_idx == i,
            arr1@.len() == len,
            arr2@.len() == len,
            arr3@.len() == len,
            arr4@.len() == len,
            forall|j: int| 0 <= j < i ==> is_nan_bits(arr1@[j]) || is_nan_bits(arr2@[j])
                || is_nan_bits(arr3@[j]) || is_nan_bits(arr4@[j]),
        decreases len - i,
    {
        if crate::buffer::f64_bits_is_nan(arr1[i]) || crate::buffer::f64_bits_is_nan(arr2[i])
            || crate::buffer::f64_bits_is_nan(arr3[i]) || crate::buffer::f64_bits_is_nan(arr4[i]) {
            begin_idx = i + 1;
        } else {
            return begin_idx;
        }
        i = i + 1;
    }
    begin_idx
}

/// Resolves the begin index across one to four synchronized buffers of equal
/// length `len`.
///
/// Returns the first row at which no buffer holds a sentinel. A zero-length
/// input resolves to `0` without scanning. If the shared leading invalid run
/// never closes before the buffers end, the call is rejected with
/// `AllInvalidInput` instead of exposing an empty native range.
pub fn resolve_begin_index(arrs: &Vec<Vec<u64>>, len: usize) -> (r: Result<usize, TaError>)
    requires
        1 <= arrs@.len() <= 4,
        forall|k: int| 0 <= k < arrs@.len() ==> (#[trigger] arrs@[k])@.len() == len,
    ensures
        len == 0 ==> r == Ok::<usize, TaError>(0),
        match r {
            Ok(b) => b <= len && is_begin_index(arrs.deep_view(), b as int) && (len > 0 ==> b
                < len),
            Err(e) => e == TaError::AllInvalidInput,
        },
        r is Err <==> (len > 0 && forall|i: int|
            0 <= i < len ==> !row_all_valid(arrs.deep_view(), i)),
{
    let ghost varrs = arrs.deep_view();
    assert(varrs.len() == arrs@.len());
    assert(forall|k: int| 0 <= k < varrs.len() ==> #[trigger] varrs[k] =~= arrs@[k]@);
    if len == 0 {
        return Ok(0);
    }
    let mut i: usize = 0;
    while i < len
        invariant
            i <= len,
            1 <= arrs@.len() <= 4,
            varrs == arrs.deep_view(),
            varrs.len() == arrs@.len(),
            forall|k: int| 0 <= k < varrs.len() ==> (#[trigger] varrs[k]).len() == len,
            forall|k: int| 0 <= k < arrs@.len() ==> (#[trigger] arrs@[k])@.len() == len,
            forall|k: int| 0 <= k < varrs.len() ==> #[trigger] varrs[k] =~= arrs@[k]@,
            forall|j: int| 0 <= j < i ==> !row_all_valid(varrs, j),
        decreases len - i,
    {
        let mut all_valid = true;
        let mut k: usize = 0;
        let ghost mut bad: int = 0;
        while k < arrs.len()
            invariant
                i < len,
                k <= arrs@.len(),
                varrs.len() == arrs@.len(),
                forall|m: int| 0 <= m < varrs.len() ==> (#[trigger] varrs[m]).len() == len,
                forall|m: int| 0 <= m < arrs@.len() ==> (#[trigger] arrs@[m])@.len() == len,
                forall|m: int| 0 <= m < varrs.len() ==> #[trigger] varrs[m] =~= arrs@[m]@,
                all_valid ==> (forall|m: int|
                    0 <= m < k ==> !is_nan_bits(#[trigger] varrs[m][i as int])),
                !all_valid ==> 0 <= bad < varrs.len() && is_nan_bits(varrs[bad][i as int]),
            decreases arrs@.len() - k,
        {
            if crate::buffer::f64_bits_is_nan(arrs[k][i]) {
                proof {
                    bad = k as int;
                }
                all_valid = false;
            }
            k = k + 1;
        }
        if all_valid {
            assert(row_all_valid(varrs, i as int));
            return Ok(i);
        }
        assert(!row_all_valid(varrs, i as int));
        i = i + 1;
    }
    Err(TaError::AllInvalidInput)
}

/// Begin-index monotonicity: when every input is shaped as a leading
/// sentinel run followed by valid rows only, the resolved begin index is the
/// length of the longest such run, no matter which input holds it.
pub proof fn lemma_begin_index_is_longest_leading_run(
    arrs: Seq<Seq<u64>>,
    runs: Seq<int>,
    k: int,
    b: int,
)
    requires
        arrs.len() == runs.len(),
        arrs.len() > 0,
        // every input is a leading sentinel run of length runs[m], then valid rows only
        forall|m: int| 0 <= m < arrs.len() ==> 0 <= #[trigger] runs[m] <= arrs[m].len(),
        forall|m: int, j: int|
            0 <= m < arrs.len() && 0 <= j < runs[m] ==> is_nan_bits(#[trigger] arrs[m][j]),
        forall|m: int, j: int|
            0 <= m < arrs.len() && runs[m] <= j < arrs[m].len() ==> !is_nan_bits(
                #[trigger] arrs[m][j],
            ),
        // the longest run is runs[k], and it closes before the arrays end
        0 <= k < runs.len(),
        forall|m: int| 0 <= m < runs.len() ==> #[trigger] runs[m] <= runs[k],
        runs[k] < arrs[0].len(),
        forall|m: int| 0 <= m < arrs.len() ==> #[trigger] arrs[m].len() == arrs[0].len(),
        is_begin_index(arrs, b),
        0 <= b <= arrs[0].len(),
    ensures
        b == runs[k],
{
    // row runs[k] is valid in every input, so b cannot lie past it
    assert(row_all_valid(arrs, runs[k]));
    // rows before runs[k] hold a sentinel in input k, so b cannot lie before it
    if b < runs[k] {
        assert(is_nan_bits(arrs[k][b]));
        assert(!row_all_valid(arrs, b));
        assert(b < arrs[0].len());
        assert(false);
    }
    if b > runs[k] {
        assert(!row_all_valid(arrs, runs[k]));
        assert(false);
    }
}

} // verus!
