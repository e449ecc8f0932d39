use polars::prelude::{IntoSeries, NamedFrom, Series};

use polars_talib::columnar::{build_f64_column, build_i32_column, read_series_dense};
use polars_talib::errors::TaError;
use polars_talib::pipeline::{
    finish_f64_columns, finish_i32_columns, prepare_call, skipped_f64_columns,
};
use polars_talib::plan::{finish_call, NativeCallResult};

const SENTINEL_BITS: u64 = 0x7ff8_0000_0000_0000;

fn bits_of(vals: &[f64]) -> Vec<u64> {
    vals.iter().map(|v| v.to_bits()).collect()
}

fn read_f64_column(s: &Series) -> Vec<Option<f64>> {
    s.f64().unwrap().iter().collect()
}

#[test]
fn test_ta_ht_dcperiod() {
    // Test case 1
    let input1 = vec![
        8843.0, 8810.0, 8850.0, 8829.0, 9200.0, 8951.0, 9190.0, 9115.0, 9073.0, 9230.0, 9300.0,
        9278.0, 9185.0, 9269.0, 9350.0, 9498.0, 9452.0, 9722.0, 9730.0, 9800.0, 9759.0, 9867.0,
        10030.0, 10149.0, 10145.0, 10167.0, 9980.0, 9988.0, 10090.0, 10293.0, 10160.0, 10286.0,
        10020.0, 9875.0, 9701.0, 9740.0, 9602.0, 9630.0, 9845.0, 9693.0, 9760.0, 9675.0, 9525.0,
        9565.0, 9520.0, 9687.0, 9520.0, 8854.0, 8848.0, 8590.0,
    ];
    let expected_output1 = vec![
        f64::NAN,
        f64::NAN,
        f64::NAN,
        f64::NAN,
        f64::NAN,
        f64::NAN,
        f64::NAN,
        f64::NAN,
        f64::NAN,
        f64::NAN,
        f64::NAN,
        f64::NAN,
        f64::NAN,
        f64::NAN,
        f64::NAN,
        f64::NAN,
        f64::NAN,
        f64::NAN,
        f64::NAN,
        f64::NAN,
        f64::NAN,
        f64::NAN,
        f64::NAN,
        f64::NAN,
        f64::NAN,
        f64::NAN,
        f64::NAN,
        f64::NAN,
        f64::NAN,
        f64::NAN,
        f64::NAN,
        f64::NAN,
        15.6467,
        17.2118,
        18.9332,
        20.8267,
        22.8463,
        25.0886,
        27.5691,
        30.307,
        33.0743,
        34.5043,
        34.6477,
        33.9828,
        32.8265,
        31.7664,
        30.7812,
        29.7826,
        28.7928,
        27.8388,
    ];

    // The Hilbert-transform dominant cycle period consumes a fixed warm-up
    // of 32 rows; the native call reports the values from row 32 on.
    let lookback = 32;
    let inputs = vec![Series::new("".into(), &input1)];
    let prepared = prepare_call(&inputs, lookback).unwrap();
    assert_eq!(prepared.plan.begin_idx, 0);
    assert!(prepared.plan.run_native);
    assert_eq!(prepared.plan.start_idx, 0);
    assert_eq!(prepared.plan.end_idx, 49);
    assert_eq!(prepared.inputs_offset.len(), 1);
    assert_eq!(prepared.inputs_offset[0], bits_of(&input1));

    let native_values: Vec<u64> = bits_of(&expected_output1[32..]);
    let res = NativeCallResult { status: 0, out_begin: 32, out_size: 18 };
    let outs = finish_call::<u64>(&prepared.plan, &res, &vec![native_values]).unwrap();
    let col = build_f64_column("", &outs[0]);

    assert_eq!(col.len(), input1.len());
    for (i, v) in read_f64_column(&col).iter().enumerate() {
        let v = v.unwrap();
        if v.is_nan() {
            assert!(expected_output1[i].is_nan());
        } else {
            assert_eq!((v * 10000.0).round() / 10000.0, expected_output1[i]);
        }
    }
}

#[test]
fn test_read_series_casts_and_fills() {
    // An integer column is cast to the real type before densification, so
    // the dense buffer holds real-valued bit patterns, not integer bits.
    let s = Series::new("a".into(), &[1i64, 2, 3]);
    let dense = read_series_dense(&s).unwrap();
    assert_eq!(dense, bits_of(&[1.0, 2.0, 3.0]));

    // Null rows become the canonical NaN sentinel.
    let s = Series::new("a".into(), &[Some(1.5f64), None, Some(-2.0)]);
    let dense = read_series_dense(&s).unwrap();
    assert_eq!(dense[0], (1.5f64).to_bits());
    assert_eq!(dense[1], SENTINEL_BITS);
    assert_eq!(dense[2], (-2.0f64).to_bits());
}

#[test]
fn test_read_series_type_mismatch() {
    // A list column has no real-valued reading: surfaced, not recovered.
    let inner = vec![Series::new("x".into(), &[1.0f64]), Series::new("y".into(), &[2.0f64])];
    let s = Series::new("lists".into(), &inner);
    assert_eq!(read_series_dense(&s), Err(TaError::TypeMismatch));
}

#[test]
fn test_build_f64_column_roundtrip() {
    let vals = vec![(0.5f64).to_bits(), SENTINEL_BITS, (8590.0f64).to_bits()];
    let col = build_f64_column("out".into(), &vals);
    assert_eq!(col.name().as_str(), "out");
    assert_eq!(col.len(), 3);
    let read = read_f64_column(&col);
    assert_eq!(read[0], Some(0.5));
    assert!(read[1].unwrap().is_nan());
    assert_eq!(read[2], Some(8590.0));
}

#[test]
fn test_build_i32_column_roundtrip() {
    let vals = vec![1i32, 0, -1, 100];
    let col = build_i32_column("trend".into(), &vals);
    assert_eq!(col.name().as_str(), "trend");
    let read: Vec<Option<i32>> = col.i32().unwrap().iter().collect();
    assert_eq!(read, vec![Some(1), Some(0), Some(-1), Some(100)]);
}

#[test]
fn test_empty_input_empty_column() {
    // A zero-length input resolves to begin index 0, skips the native call
    // and yields an empty column.
    let empty: Vec<f64> = vec![];
    let inputs = vec![Series::new("".into(), &empty)];
    let prepared = prepare_call(&inputs, 32).unwrap();
    assert_eq!(prepared.plan.n, 0);
    assert_eq!(prepared.plan.begin_idx, 0);
    assert!(!prepared.plan.run_native);
    let cols = skipped_f64_columns(&prepared.plan, &vec![""]);
    assert_eq!(cols.len(), 1);
    assert_eq!(cols[0].len(), 0);
}

#[test]
fn test_prepare_call_casts_inputs() {
    // Castable non-real columns succeed: the dense views hold the cast
    // values' bit patterns.
    let a = Series::new("a".into(), &[10i64, 20, 30]);
    let b = Series::new("b".into(), &[1i64, 2, 3]);
    let prepared = prepare_call(&vec![a, b], 0).unwrap();
    assert_eq!(prepared.plan.begin_idx, 0);
    assert!(prepared.plan.run_native);
    assert_eq!(prepared.inputs_offset[0], bits_of(&[10.0, 20.0, 30.0]));
    assert_eq!(prepared.inputs_offset[1], bits_of(&[1.0, 2.0, 3.0]));

    // One uncastable column rejects the whole call before any native work.
    let ok = Series::new("a".into(), &[1.0f64, 2.0]);
    let inner = vec![Series::new("x".into(), &[1.0f64]), Series::new("y".into(), &[2.0f64])];
    let bad = Series::new("lists".into(), &inner);
    assert_eq!(prepare_call(&vec![ok, bad], 0).err(), Some(TaError::TypeMismatch));
}

#[test]
fn test_all_sentinel_input_is_rejected() {
    let inputs = vec![Series::new("".into(), &[None::<f64>, None, None])];
    assert_eq!(prepare_call(&inputs, 1).err(), Some(TaError::AllInvalidInput));

    // A column of NaN values counts as all-sentinel too.
    let inputs = vec![Series::new("".into(), &[f64::NAN, f64::NAN])];
    assert_eq!(prepare_call(&inputs, 1).err(), Some(TaError::AllInvalidInput));
}

#[test]
fn test_multi_output_consistency() {
    // Two outputs of one call share the row count and the sentinel-region
    // boundaries.
    let data: Vec<f64> = (0..10).map(|i| i as f64).collect();
    let inputs = vec![Series::new("".into(), &data)];
    let prepared = prepare_call(&inputs, 3).unwrap();
    let res = NativeCallResult { status: 0, out_begin: 3, out_size: 7 };
    let w1 = bits_of(&[1.0, 2.0, 3.0, 4.0, 5.0, 6.0, 7.0]);
    let w2 = bits_of(&[9.0, 8.0, 7.0, 6.0, 5.0, 4.0, 3.0]);
    let cols =
        finish_f64_columns(&prepared.plan, &res, &vec![w1, w2], &vec!["inphase", "quadrature"])
            .unwrap();
    let inphase = cols[0].clone();
    let quadrature = cols[1].clone();
    assert_eq!(inphase.name().as_str(), "inphase");
    assert_eq!(quadrature.name().as_str(), "quadrature");
    assert_eq!(inphase.len(), quadrature.len());
    assert_eq!(inphase.len(), 10);
    let a = read_f64_column(&inphase);
    let b = read_f64_column(&quadrature);
    for i in 0..10 {
        assert_eq!(a[i].unwrap().is_nan(), b[i].unwrap().is_nan());
        assert_eq!(a[i].unwrap().is_nan(), i < 3);
    }
    assert_eq!(a[3], Some(1.0));
    assert_eq!(b[3], Some(9.0));
}

#[test]
fn test_status_propagation_yields_no_column() {
    let data: Vec<f64> = (0..5).map(|i| 1.0 + i as f64).collect();
    let inputs = vec![Series::new("".into(), &data)];
    let prepared = prepare_call(&inputs, 1).unwrap();
    let res = NativeCallResult { status: 3, out_begin: 0, out_size: 0 };
    let r = finish_call::<u64>(&prepared.plan, &res, &vec![vec![]]);
    assert_eq!(r, Err(TaError::NativeComputeError(3)));
    let r = finish_f64_columns(&prepared.plan, &res, &vec![vec![]], &vec![""]);
    assert_eq!(r.err(), Some(TaError::NativeComputeError(3)));
}

#[test]
fn test_begin_index_from_leading_nulls() {
    // Sentinel region: two leading nulls plus a lookback of three makes the
    // first five output rows sentinel; row five holds the first value.
    let high = Series::new("h".into(), &[None::<f64>, None, Some(3.0), Some(4.0), Some(5.0), Some(6.0), Some(7.0), Some(8.0)]);
    let low = Series::new("l".into(), &[Some(1.0f64), Some(1.0), Some(2.0), Some(3.0), Some(4.0), Some(5.0), Some(6.0), Some(7.0)]);
    let inputs = vec![high, low];
    let prepared = prepare_call(&inputs, 3).unwrap();
    assert_eq!(prepared.plan.begin_idx, 2);
    assert_eq!(prepared.plan.end_idx, 5);
    assert_eq!(prepared.inputs_offset[0].len(), 6);

    let res = NativeCallResult { status: 0, out_begin: 3, out_size: 3 };
    let written = bits_of(&[10.0, 11.0, 12.0]);
    let outs = finish_call::<u64>(&prepared.plan, &res, &vec![written]).unwrap();
    let col = build_f64_column("", &outs[0]);
    let read = read_f64_column(&col);
    assert_eq!(read.len(), 8);
    for i in 0..5 {
        assert!(read[i].unwrap().is_nan());
    }
    assert_eq!(read[5], Some(10.0));
    assert_eq!(read[6], Some(11.0));
    assert_eq!(read[7], Some(12.0));
}

#[test]
fn test_oversized_lookback_gives_all_sentinel_column() {
    // Lookback past the input length is a normal "no result": the native
    // call is skipped and the column is entirely sentinel at full length.
    let data = vec![1.0f64, 2.0, 3.0];
    let inputs = vec![Series::new("".into(), &data)];
    let prepared = prepare_call(&inputs, 7).unwrap();
    assert!(!prepared.plan.run_native);
    let cols = skipped_f64_columns(&prepared.plan, &vec![""]);
    let read = read_f64_column(&cols[0]);
    assert_eq!(read.len(), 3);
    for v in read {
        assert!(v.unwrap().is_nan());
    }
}

#[test]
fn test_i32_output_path() {
    // Integer-valued outputs use 0 as their sentinel.
    let data = vec![1.0f64, 2.0, 3.0, 4.0, 5.0, 6.0];
    let inputs = vec![Series::new("".into(), &data)];
    let prepared = prepare_call(&inputs, 2).unwrap();
    let res = NativeCallResult { status: 0, out_begin: 2, out_size: 4 };
    let written: Vec<i32> = vec![1, -1, 1, 0];
    let cols = finish_i32_columns(&prepared.plan, &res, &vec![written], &vec![""]).unwrap();
    let read: Vec<Option<i32>> = cols[0].i32().unwrap().iter().collect();
    assert_eq!(read, vec![Some(0), Some(0), Some(1), Some(-1), Some(1), Some(0)]);
}

#[test]
fn test_struct_style_pair_of_columns() {
    // A two-output indicator's named columns can be composed into one
    // struct-typed column by the engine; the named fields keep order.
    let data = vec![4.0f64, 5.0, 6.0, 7.0];
    let inputs = vec![Series::new("".into(), &data)];
    let prepared = prepare_call(&inputs, 1).unwrap();
    let res = NativeCallResult { status: 0, out_begin: 1, out_size: 3 };
    let sine = bits_of(&[0.1, 0.2, 0.3]);
    let leadsine = bits_of(&[0.4, 0.5, 0.6]);
    let outs = finish_call::<u64>(&prepared.plan, &res, &vec![sine, leadsine]).unwrap();
    let s = build_f64_column("sine".into(), &outs[0]);
    let l = build_f64_column("leadsine".into(), &outs[1]);
    let wrapped = Series::new("sine_leadsine".into(), &[s, l]);
    assert_eq!(wrapped.len(), 2);
    let unwrapped = wrapped.list().unwrap().get_as_series(0).unwrap().into_series();
    assert_eq!(unwrapped.len(), 4);
    let read = read_f64_column(&unwrapped);
    assert!(read[0].unwrap().is_nan());
    assert_eq!(read[1], Some(0.1));
    assert_eq!(read[3], Some(0.3));
}
