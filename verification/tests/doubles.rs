use chatstronomy::clock::Duration;
use chatstronomy::double::Double;

fn double(x: f64) -> Double {
    Double { bits: x.to_bits() }
}

/// Numbers of every size, from a fixed recurrence.
fn samples(count: usize) -> Vec<f64> {
    let mut out = vec![
        0.0, -0.0, 1.0, -1.0, 0.5, 1.5, 2.5, 0.1, 0.05, 0.25, 0.35, 1e-300, 1e300, 5e-324,
        f64::MAX, f64::MIN_POSITIVE, 123456.789, -98765.4321, 99.995, 0.005, 1e15, 1e16, 4503599627370496.5,
    ];
    let mut state: u64 = 0x9e37_79b9_7f4a_7c15;
    while out.len() < count {
        state = state.wrapping_mul(6364136223846793005).wrapping_add(1442695040888963407);
        let x = f64::from_bits(state);
        if x.is_finite() {
            out.push(x);
        }
        let scaled = ((state >> 20) as f64) / 1048576.0 - 8000.0;
        out.push(scaled);
    }
    out
}

#[test]
fn fixed_text_agrees_with_the_machine() {
    for x in samples(300) {
        for places in [0usize, 1, 2, 3, 5] {
            assert_eq!(double(x).fixed(places), format!("{:.*}", places, x));
        }
        assert_eq!(double(x).fixed_signed(2), format!("{:+.2}", x));
    }
    assert_eq!(double(f64::NAN).fixed(2), "NaN");
    assert_eq!(double(f64::INFINITY).fixed(1), "inf");
    assert_eq!(double(f64::NEG_INFINITY).fixed(1), "-inf");
    assert_eq!(double(f64::INFINITY).fixed_signed(1), "+inf");
}

#[test]
fn arithmetic_agrees_with_the_machine() {
    let all = samples(400);
    for i in 0..all.len() {
        let x = all[i];
        for y in [all[(i * 7 + 3) % all.len()], all[(i + 1) % all.len()], 1.0, 100.0, 3.0] {
            assert_eq!(double(x).plus(double(y)), double(x + y), "{} + {}", x, y);
            assert_eq!(double(x).minus(double(y)), double(x - y), "{} - {}", x, y);
            assert_eq!(double(x).times(double(y)), double(x * y), "{} * {}", x, y);
            if y != 0.0 {
                assert_eq!(double(x).over(double(y)), double(x / y), "{} / {}", x, y);
            }
            assert_eq!(double(x).less(double(y)), x < y);
            assert_eq!(double(x).equals(double(y)), x == y);
            assert_eq!(
                double(x).total_less(double(y)),
                x.total_cmp(&y) == std::cmp::Ordering::Less
            );
        }
        assert_eq!(double(x).round_i64(), x.round() as i64, "{}", x);
    }
    assert!(double(1.0).over(double(0.0)) == double(f64::INFINITY));
    assert!(double(0.0).over(double(0.0)).is_nan());
    assert!(double(f64::INFINITY).minus(double(f64::INFINITY)).is_nan());
    assert!(double(f64::INFINITY).times(double(0.0)).is_nan());
}

#[test]
fn wholes_and_spans_convert_as_the_machine_does() {
    for n in [0u64, 1, 5, 10, 12, 999, 1 << 53, (1 << 53) + 1, u64::MAX] {
        assert_eq!(Double::from_whole(n), double(n as f64));
    }
    let span = Duration::from_millis(12_345);
    assert_eq!(
        span.as_secs_double(),
        double(std::time::Duration::from_millis(12_345).as_secs_f64())
    );
    assert_eq!(span.as_secs(), 12);
}

#[test]
fn the_shortest_text_agrees_with_the_machine() {
    let mut all = samples(200);
    all.extend([
        1e23, 9.999999999999999e22, 1e16, 9999999999999998.0, 1e15, 1e-4, 9.999999999999999e-5,
        1e-5, 0.1, 0.3, 123456789012345680.0, 1.7976931348623157e308, 2.2250738585072014e-308,
        2.225073858507201e-308, 1e21, 1.5e-7, 9007199254740993.0, 4.35, 100.0, 360.0, 5e-324,
        2f64.powi(60), 2f64.powi(-30), 2f64.powi(1000), 2f64.powi(-1000), 299792458.0,
        f64::INFINITY, f64::NEG_INFINITY, f64::NAN, -12.5, 17.25, 1.0 / 3.0, 2.0 / 3.0,
    ]);
    for x in all {
        assert_eq!(double(x).shortest(), format!("{:?}", x));
        assert_eq!(double(x).plain(), format!("{}", x));
    }
}

#[test]
fn powers_of_two_and_their_neighbours_are_written_as_the_machine_does() {
    for e in (-1074..1024).step_by(23) {
        let x = 2f64.powi(e);
        for y in [x, f64::from_bits(x.to_bits() + 1), f64::from_bits(x.to_bits() - 1)] {
            assert_eq!(double(y).shortest(), format!("{:?}", y));
        }
    }
}
