use gosonnx::ops::to_csv_str;
use gosonnx::utils::{f32_bits_csv, format_f32_bits_fixed2, i64_to_string, u64_to_string};

#[test]
fn decimal_writing() {
    assert_eq!(u64_to_string(0), "0");
    assert_eq!(u64_to_string(90210), "90210");
    assert_eq!(i64_to_string(-45), "-45");
    assert_eq!(i64_to_string(i64::MIN), format!("{}", i64::MIN));
    assert_eq!(to_csv_str(&vec![1, 2, 3]), "1,2,3");
    assert_eq!(to_csv_str(&vec![-7]), "-7");
    let empty: Vec<i64> = vec![];
    assert_eq!(to_csv_str(&empty), "");
}

#[test]
fn fixed_two_decimals_matches_the_standard_formatter() {
    let samples: [f32; 16] = [
        0.0, -0.0, 0.5, -1.0, 2.0, 1.5, 0.125, -0.125, 100.25, 0.005, 1e-5, 3.4e38, -3.4e38,
        123456.78, 0.995, -2.675,
    ];
    for v in samples {
        assert_eq!(
            format_f32_bits_fixed2(v.to_bits()),
            format!("{:.2}", v),
            "mismatch for {v}"
        );
    }
    assert_eq!(format_f32_bits_fixed2(f32::INFINITY.to_bits()), "inf");
    assert_eq!(format_f32_bits_fixed2(f32::NEG_INFINITY.to_bits()), "-inf");
    assert_eq!(format_f32_bits_fixed2(f32::NAN.to_bits()), "NaN");
    // a subnormal rounds to zero at two decimals
    assert_eq!(format_f32_bits_fixed2(1u32), "0.00");
}

#[test]
fn float_csv_uses_two_decimals() {
    let vals: Vec<u32> = [1.0f32, 1.5, 2.0].iter().map(|v| v.to_bits()).collect();
    assert_eq!(f32_bits_csv(&vals), "1.00,1.50,2.00");
}
