use ray::scalar::Scalar;

fn s(x: f32) -> Scalar {
    Scalar::from_bits(x.to_bits())
}

fn f(x: Scalar) -> f32 {
    f32::from_bits(x.to_bits())
}

fn samples() -> Vec<f32> {
    let mut out = vec![
        0.0,
        -0.0,
        1.0,
        -1.0,
        2.0,
        0.001,
        255.0,
        0.1,
        -0.3,
        1.0e-40,
        -1.0e-40,
        3.4e38,
        -3.4e38,
        16777216.0,
        16777217.0,
        4294967296.0,
        f32::INFINITY,
        f32::NEG_INFINITY,
        f32::NAN,
        f32::MIN_POSITIVE,
        f32::EPSILON,
        5.5,
        -7.25,
        1.0e10,
        123456.79,
    ];
    let mut state: u32 = 0x1234_5678;
    for _ in 0..40 {
        state = state.wrapping_mul(1664525).wrapping_add(1013904223);
        out.push(f32::from_bits(state));
    }
    out
}

fn same(a: f32, b: f32) -> bool {
    (a.is_nan() && b.is_nan()) || a.to_bits() == b.to_bits()
}

#[test]
fn addition_matches_hardware() {
    for &a in &samples() {
        for &b in &samples() {
            assert!(same(f(s(a).add(s(b))), a + b), "{a} + {b}");
        }
    }
}

#[test]
fn subtraction_matches_hardware() {
    for &a in &samples() {
        for &b in &samples() {
            assert!(same(f(s(a).sub(s(b))), a - b), "{a} - {b}");
        }
    }
}

#[test]
fn multiplication_matches_hardware() {
    for &a in &samples() {
        for &b in &samples() {
            assert!(same(f(s(a).mul(s(b))), a * b), "{a} * {b}");
        }
    }
}

#[test]
fn division_matches_hardware() {
    for &a in &samples() {
        for &b in &samples() {
            assert!(same(f(s(a).div(s(b))), a / b), "{a} / {b}");
        }
    }
}

#[test]
fn remainder_matches_hardware() {
    for &a in &samples() {
        for &b in &samples() {
            assert!(same(f(s(a).rem(s(b))), a % b), "{a} % {b}");
        }
    }
}

#[test]
fn square_root_matches_hardware() {
    for &a in &samples() {
        assert!(same(f(s(a).sqrt()), a.sqrt()), "sqrt {a}");
    }
    assert_eq!(f(s(9.0).sqrt()), 3.0);
    assert_eq!(f(s(2.0).sqrt()), 1.4142135);
}

#[test]
fn comparisons_match_hardware() {
    for &a in &samples() {
        for &b in &samples() {
            assert_eq!(s(a).lt(s(b)), a < b, "{a} < {b}");
            assert_eq!(s(a).le(s(b)), a <= b, "{a} <= {b}");
            assert_eq!(s(a).gt(s(b)), a > b, "{a} > {b}");
            assert_eq!(s(a).ge(s(b)), a >= b, "{a} >= {b}");
            assert_eq!(s(a).ne(s(b)), a != b, "{a} != {b}");
        }
    }
}

#[test]
fn negation_flips_the_sign() {
    for &a in &samples() {
        assert_eq!(s(a).neg().to_bits(), (-a).to_bits());
    }
    assert_eq!(f(s(1.5).neg()), -1.5);
    assert_eq!(s(0.0).neg().to_bits(), 0x8000_0000);
}

#[test]
fn truncation_matches_cast() {
    for &a in &samples() {
        assert_eq!(s(a).to_u32(), a as u32, "{a} as u32");
    }
    assert_eq!(s(2.0).to_u32(), 2);
    assert_eq!(s(2.9).to_u32(), 2);
    assert_eq!(s(0.99).to_u32(), 0);
    assert_eq!(s(-3.0).to_u32(), 0);
    assert_eq!(s(640.5).to_u32(), 640);
    assert_eq!(s(16777216.0).to_u32(), 16777216);
    assert_eq!(s(4294967040.0).to_u32(), 4294967040);
    assert_eq!(s(4294967296.0).to_u32(), u32::MAX);
    assert_eq!(s(f32::NAN).to_u32(), 0);
    assert_eq!(s(f32::INFINITY).to_u32(), u32::MAX);
}

#[test]
fn integer_conversion_matches_cast() {
    let mut n: u32 = 0;
    for _ in 0..200 {
        assert_eq!(Scalar::from_u32(n).to_bits(), (n as f32).to_bits(), "{n}");
        n = n.wrapping_mul(1664525).wrapping_add(1013904223);
    }
    for n in [0u32, 1, 2, 3, 255, 16777215, 16777216, 16777217, 16777219, u32::MAX] {
        assert_eq!(Scalar::from_u32(n).to_bits(), (n as f32).to_bits(), "{n}");
    }
}

#[test]
fn tangent_of_known_angles() {
    assert_eq!(f(s(0.0).tan()), 0.0);
    let quarter = f(s(std::f32::consts::FRAC_PI_4).tan());
    assert!((quarter - 1.0).abs() <= 2.0 * f32::EPSILON, "{quarter}");
    for i in 1..89 {
        let x = (i as f32).to_radians();
        let ours = f(s(x).tan()) as f64;
        let exact = (x as f64).tan();
        assert!(((ours - exact) / exact).abs() < 1.0e-6, "tan {x}: {ours} vs {exact}");
    }
}

fn step(state: &mut u32) -> u32 {
    *state ^= *state << 13;
    *state ^= *state >> 17;
    *state ^= *state << 5;
    *state
}

#[test]
fn arithmetic_matches_hardware_on_many_encodings() {
    let mut state: u32 = 0x9e37_79b9;
    for _ in 0..20000 {
        let a = f32::from_bits(step(&mut state));
        let b = f32::from_bits(step(&mut state));
        assert!(same(f(s(a).add(s(b))), a + b), "{a:e} + {b:e}");
        assert!(same(f(s(a).sub(s(b))), a - b), "{a:e} - {b:e}");
        assert!(same(f(s(a).mul(s(b))), a * b), "{a:e} * {b:e}");
        assert!(same(f(s(a).div(s(b))), a / b), "{a:e} / {b:e}");
        assert!(same(f(s(a).sqrt()), a.sqrt()), "sqrt {a:e}");
        assert_eq!(s(a).to_u32(), a as u32, "{a:e} as u32");
        assert_eq!(s(a).lt(s(b)), a < b, "{a:e} < {b:e}");
        assert_eq!(s(a).ge(s(b)), a >= b, "{a:e} >= {b:e}");
        assert_eq!(s(a).ne(s(b)), a != b, "{a:e} != {b:e}");
    }
}

#[test]
fn remainder_matches_hardware_on_many_encodings() {
    let mut state: u32 = 0x0bad_5eed;
    for _ in 0..4000 {
        let a = f32::from_bits(step(&mut state));
        let b = f32::from_bits(step(&mut state));
        assert!(same(f(s(a).rem(s(b))), a % b), "{a:e} % {b:e}");
        assert!(same(f(s(a).rem(s(2.0))), a % 2.0), "{a:e} % 2");
    }
}

#[test]
fn arithmetic_matches_hardware_near_one() {
    let mut state: u32 = 0x1357_9bdf;
    for _ in 0..20000 {
        let a = f32::from_bits(0x3f00_0000 + (step(&mut state) >> 8));
        let b = f32::from_bits(0x3f00_0000 + (step(&mut state) >> 8));
        assert!(same(f(s(a).add(s(b))), a + b), "{a:e} + {b:e}");
        assert!(same(f(s(a).sub(s(b))), a - b), "{a:e} - {b:e}");
        assert!(same(f(s(a).mul(s(b))), a * b), "{a:e} * {b:e}");
        assert!(same(f(s(a).div(s(b))), a / b), "{a:e} / {b:e}");
        assert!(same(f(s(a).rem(s(b))), a % b), "{a:e} % {b:e}");
        assert!(same(f(s(a).sqrt()), a.sqrt()), "sqrt {a:e}");
    }
}

#[test]
fn tangent_is_defined_on_every_kind_of_input() {
    let mut bits: u32 = 0;
    for _ in 0..30000 {
        let x = f32::from_bits(bits);
        let t = f(s(x).tan());
        if x.is_nan() || x.is_infinite() {
            assert!(t.is_nan(), "tan {x:e} = {t:e}");
        } else if x.abs() < 1.5 {
            let exact = (x as f64).tan();
            assert!((t as f64 - exact).abs() <= exact.abs() * 1.0e-6, "tan {x:e} = {t:e}");
        }
        bits = bits.wrapping_add(143_165_577);
    }
}
