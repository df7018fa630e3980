use json_writer::{double_is_finite, to_json_string, write_double};

fn to_json_string_f64(v: f64) -> String {
    let mut out = String::new();
    let mut buf = ryu::Buffer::new();
    let rendered = if v.is_finite() { buf.format_finite(v) } else { "" };
    write_double(&mut out, v.to_bits(), rendered);
    out
}

fn to_json_string_f32(v: f32) -> String {
    to_json_string_f64(v as f64)
}

#[test]
fn test_numbers() {
    // unsigned
    assert_eq!(to_json_string(1u8), "1");
    assert_eq!(to_json_string(1u16), "1");
    assert_eq!(to_json_string(1u32), "1");
    assert_eq!(to_json_string(u8::MAX), "255");
    assert_eq!(to_json_string(u16::MAX), "65535");
    assert_eq!(to_json_string(u32::MAX), "4294967295");
    assert_eq!(to_json_string(u64::MAX), "18446744073709551615");
    assert_eq!(
        to_json_string(u128::MAX),
        "340282366920938463463374607431768211455"
    );

    // signed
    assert_eq!(to_json_string(-1i8), "-1");
    assert_eq!(to_json_string(-1i16), "-1");
    assert_eq!(to_json_string(-1i32), "-1");
    assert_eq!(to_json_string(-1i64), "-1");
    assert_eq!(to_json_string(-1i128), "-1");

    // float
    assert_eq!(to_json_string_f32(0f32), "0");
    assert_eq!(to_json_string_f32(2f32), "2");
    assert_eq!(to_json_string_f32(-2f32), "-2");

    assert_eq!(to_json_string_f64(0f64), "0");
    assert_eq!(to_json_string_f64(2f64), "2");
    assert_eq!(to_json_string_f64(-2f64), "-2");
    assert_eq!(to_json_string_f64(3.141592653589793), "3.141592653589793");
    assert_eq!(to_json_string_f64(0.1f64), "0.1");
    assert_eq!(to_json_string_f64(-0.1f64), "-0.1");
    assert_eq!(to_json_string_f64(1.5e30f64), "1.5e30");
    assert_eq!(
        to_json_string_f64(-2.220446049250313e-16f64),
        "-2.220446049250313e-16"
    );

    assert_eq!(to_json_string_f64(1.0 / 0.0), "null");
    assert_eq!(to_json_string_f64(f64::INFINITY), "null");
    assert_eq!(to_json_string_f64(f64::NEG_INFINITY), "null");
    assert_eq!(to_json_string_f64(f64::NAN), "null");
}

#[test]
fn test_dtoa() {
    assert_dtoa(0.0);
    assert_dtoa(1.0);
    assert_dtoa(-1.0);
    assert_dtoa(2.0);
}

fn assert_dtoa(v: f64) {
    let a = v.to_string();
    let b = to_json_string_f64(v);
    assert_eq!(b, a);
}

#[test]
fn finite_doubles_round_trip_bit_identically() {
    let samples: [f64; 8] = [
        0.1,
        3.141592653589793,
        1.5e30,
        -2.220446049250313e-16,
        12345.6789,
        -0.0,
        f64::MIN_POSITIVE,
        f64::MAX,
    ];
    for v in samples {
        let rendered = to_json_string_f64(v);
        let back: f64 = rendered.parse().unwrap();
        assert_eq!(back.to_bits(), v.to_bits());
    }
}

#[test]
fn whole_valued_doubles_render_without_fraction() {
    assert_eq!(to_json_string_f64(2.0), "2");
    assert_eq!(to_json_string_f64(-100.0), "-100");
    assert_eq!(to_json_string_f64(0.0), "0");
}

#[test]
fn non_finite_bits_are_reported_as_such() {
    assert!(double_is_finite(0.0f64.to_bits()));
    assert!(double_is_finite(1.5f64.to_bits()));
    assert!(!double_is_finite(f64::NAN.to_bits()));
    assert!(!double_is_finite(f64::INFINITY.to_bits()));
    assert!(!double_is_finite(f64::NEG_INFINITY.to_bits()));
}

#[test]
fn non_finite_bits_render_null_whatever_text_came_along() {
    let mut out = String::new();
    write_double(&mut out, f64::NAN.to_bits(), "1234");
    assert_eq!(&out, "null");
}
