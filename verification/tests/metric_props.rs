use blackhole::fixed::{Fx, SCALE};
use blackhole::metric::{horizon, radius, Metric};
use blackhole::types::BlackHole;
use blackhole::vecmath::Fx3;

fn flat_params() -> BlackHole {
    BlackHole {
        a: Fx::zero(),
        m: Fx::zero(),
        q: Fx::zero(),
        ..BlackHole::default()
    }
}

#[test]
fn flat_space_metric_is_minkowski() {
    // with mass = charge = spin = 0 the metric equals diag(-1, 1, 1, 1)
    let bh = flat_params();
    let p = Fx3::new(Fx::from_int(3), Fx::from_int(-4), Fx::from_int(10));
    let r = radius(&p, bh.a);
    let met = Metric::evaluate(&p, &bh, r);
    assert_eq!(met.f.v, 0);
    for i in 0..4usize {
        for j in 0..4usize {
            let e = met.entry(i, j).v;
            if i == j {
                assert_eq!(e, if i == 0 { -SCALE } else { SCALE });
            } else {
                assert_eq!(e, 0);
            }
        }
    }
}

#[test]
fn spinning_metric_differs_from_minkowski() {
    // a massive hole bends the metric away from flat space
    let bh = BlackHole::default();
    let p = Fx3::new(Fx::from_int(3), Fx::zero(), Fx::zero());
    let r = radius(&p, bh.a);
    let met = Metric::evaluate(&p, &bh, r);
    assert!(met.f.v != 0);
}

#[test]
fn radius_at_origin_is_zero_and_captured() {
    // the degenerate point (0, 0, 0) yields r = 0, below every horizon
    let a = Fx::from_ratio(3, 10);
    let r = radius(&Fx3::zero(), a);
    assert_eq!(r.v, 0);
    assert!(r.v < horizon(a).v);
}

#[test]
fn radius_of_flat_space_is_euclidean() {
    let r = radius(&Fx3::new(Fx::zero(), Fx::zero(), Fx::from_int(10)), Fx::zero());
    assert_eq!(r.v, 10 * SCALE);
    let r345 = radius(
        &Fx3::new(Fx::from_int(3), Fx::from_int(4), Fx::zero()),
        Fx::zero(),
    );
    assert_eq!(r345.v, 5 * SCALE);
}

#[test]
fn horizon_exact_values() {
    // 1 + sqrt(1 - a^2): 2.0 for no spin, about 1.954 for a = 0.3
    assert_eq!(horizon(Fx::zero()).v, 2 * SCALE);
    assert_eq!(horizon(Fx::from_ratio(3, 10)).v, 128054);
    let near_extremal = horizon(Fx::from_raw(SCALE - 1)).v;
    assert!(SCALE <= near_extremal && near_extremal < 2 * SCALE);
}
