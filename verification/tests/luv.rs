use palette::{Alpha, FromColorUnclamped, Luv, Luva};

#[derive(Debug)]
struct D65;

#[test]
fn new_sets_components() {
    let c = Luv::<D65, f32>::new(80.0, 20.0, 30.0);
    assert_eq!(c.l, 80.0);
    assert_eq!(c.u, 20.0);
    assert_eq!(c.v, 30.0);
    assert_eq!(c.into_components(), (80.0, 20.0, 30.0));
}

#[test]
fn components_round_trip() {
    let c = Luv::<D65, f64>::new(53.237116, 175.0098, 37.7650);
    let again = Luv::<D65, f64>::from_components(c.into_components());
    assert_eq!(again, c);
    let t = (87.73703, -83.07975, 107.40136);
    assert_eq!(Luv::<D65, f64>::from_components(t).into_components(), t);
}

#[test]
fn from_tuple_and_back() {
    let c: Luv<D65, f32> = Luv::from((32.30087, -9.40241, -130.35109));
    assert_eq!(c, Luv::new(32.30087, -9.40241, -130.35109));
    let t: (f32, f32, f32) = c.into();
    assert_eq!(t, (32.30087, -9.40241, -130.35109));
}

#[test]
fn luva_new_and_components() {
    let c = Luva::<D65, f32>::new(80.0, 20.0, 30.0, 0.5);
    assert_eq!(c.color, Luv::new(80.0, 20.0, 30.0));
    assert_eq!(c.alpha, 0.5);
    assert_eq!(c.into_components(), (80.0, 20.0, 30.0, 0.5));
}

#[test]
fn luva_components_round_trip() {
    let q = (100.0f64, 176.0, 108.0, 1.0);
    let c = Alpha::<Luv<D65, f64>, f64>::from_components(q);
    assert_eq!(c.into_components(), q);
    let c2 = Luva::<D65, f64>::from(q);
    let back: (f64, f64, f64, f64) = c2.into();
    assert_eq!(back, q);
}

#[test]
fn integer_components() {
    let c = Luv::<D65, i32>::new(1, -2, 3);
    let c2 = Luv::<D65, i32>::from_components(c.into_components());
    assert_eq!(c2, Luv::new(1, -2, 3));
}

#[test]
fn componentwise_arithmetic() {
    let a = Luv::<D65, f32>::new(120.0, 40.0, 30.0);
    let b = Luv::<D65, f32>::new(200.0, 30.0, 40.0);
    assert_eq!(a + b, Luv::new(320.0, 70.0, 70.0));
    assert_eq!(b - a, Luv::new(80.0, -10.0, 10.0));
    assert_eq!(a * b, Luv::new(24000.0, 1200.0, 1200.0));
    assert_eq!(b / Luv::new(2.0, 3.0, 4.0), Luv::new(100.0, 10.0, 10.0));
}

#[test]
fn scalar_arithmetic() {
    let a = Luv::<D65, f32>::new(120.0, 40.0, 30.0);
    assert_eq!(a + 0.5, Luv::new(120.5, 40.5, 30.5));
    assert_eq!(a - 10.0, Luv::new(110.0, 30.0, 20.0));
    assert_eq!(a * 2.0, Luv::new(240.0, 80.0, 60.0));
    assert_eq!(a / 4.0, Luv::new(30.0, 10.0, 7.5));
    let i = Luv::<D65, u32>::new(7, 8, 9);
    assert_eq!(i * 3, Luv::new(21, 24, 27));
    assert_eq!(i / 2, Luv::new(3, 4, 4));
}

#[test]
fn equality_is_componentwise() {
    let a = Luv::<D65, f32>::new(1.0, 2.0, 3.0);
    assert!(a == Luv::new(1.0, 2.0, 3.0));
    assert!(a != Luv::new(1.0, 2.0, 4.0));
    assert!(a != Luv::new(0.0, 2.0, 3.0));
    assert!(a != Luv::new(1.0, 0.0, 3.0));
    let nan = Luv::<D65, f32>::new(f32::NAN, 0.0, 0.0);
    assert!(nan != nan);
}

#[test]
fn clone_keeps_components() {
    let a = Luv::<D65, f64>::new(1.5, -2.5, 3.25);
    let b = a.clone();
    assert_eq!(a, b);
    let c = a;
    assert_eq!(c, b);
}

#[test]
fn from_color_unclamped_is_identity() {
    let a = Luv::<D65, f32>::new(150.0, -200.0, 300.0);
    let b: Luv<D65, f32> = Luv::from_color_unclamped(a);
    assert_eq!(b, Luv::new(150.0, -200.0, 300.0));
}
