use particle_swarm::de::{Coefficients, MetaConfig};
use particle_swarm::error::ConfigError;
use particle_swarm::scalar::Scalar;
use particle_swarm::swarm::{sweep_best_value, Motion, WorldState};
use particle_swarm::tuning::{TuningAction, TuningEvent, TuningSession};
use particle_swarm::vector::VectorN;

fn s(x: f64) -> Scalar {
    Scalar::from_bits(x.to_bits())
}

fn f(x: Scalar) -> f64 {
    f64::from_bits(x.to_bits())
}

fn vector(xs: &[f64]) -> VectorN {
    VectorN::new(xs.iter().map(|x| s(*x)).collect(), xs.len()).unwrap()
}

fn values(v: &VectorN) -> Vec<f64> {
    v.coordinates.iter().map(|c| f(*c)).collect()
}

fn sphere(v: &VectorN) -> f64 {
    values(v).iter().map(|x| x * x).sum()
}

fn meta() -> MetaConfig {
    MetaConfig::new(10, s(0.9), s(0.8), s(0.5), 5)
}

fn world(points: &[&[f64]], objective: fn(&VectorN) -> f64, coefs: (f64, f64, f64)) -> WorldState {
    let positions: Vec<VectorN> = points.iter().map(|p| vector(p)).collect();
    let vals: Vec<Scalar> = positions.iter().map(|p| s(objective(p))).collect();
    let dims = points[0].len();
    WorldState::new(points.len(), dims, (s(-5.0), s(5.0)), s(coefs.0), s(coefs.1), s(coefs.2), meta(), positions, vals)
        .unwrap()
}

/// The canonical PSO update, with the two random draws given.
fn motions(w: &WorldState, r1: f64, r2: f64) -> Vec<Motion> {
    let g = values(&w.best_solution);
    w.particles
        .iter()
        .map(|p| {
            let x = values(&p.coordinates);
            let v = values(&p.current_speed);
            let b = values(&p.best_found_solution);
            let (soc, cog, ine) = (f(p.social_coefficient), f(p.cognitive_coefficient), f(p.inertia_coefficient));
            let nv: Vec<f64> = (0..x.len())
                .map(|i| ine * v[i] + soc * r1 * (g[i] - x[i]) + cog * r2 * (b[i] - x[i]))
                .collect();
            let np: Vec<f64> = (0..x.len()).map(|i| x[i] + nv[i]).collect();
            Motion { velocity: vector(&nv), position: vector(&np) }
        })
        .collect()
}

fn iterate(w: &mut WorldState, objective: fn(&VectorN) -> f64, r1: f64, r2: f64) {
    let m = motions(w, r1, r2);
    let vals = w.do_iteration(&m, &|v: &VectorN| s(objective(v)));
    for (p, v) in w.particles.iter().zip(vals.iter()) {
        assert_eq!(f(*v).to_bits(), objective(&p.coordinates).to_bits());
    }
}

/// The same iteration in its two halves.
fn iterate_in_steps(w: &mut WorldState, objective: fn(&VectorN) -> f64, r1: f64, r2: f64) {
    let m = motions(w, r1, r2);
    w.commit_motion(&m);
    let vals: Vec<Scalar> = w.particles.iter().map(|p| s(objective(&p.coordinates))).collect();
    w.update_best_solutions(&vals);
}

#[test]
fn new_refuses_bad_configuration() {
    let p = vec![vector(&[1.0, 1.0])];
    let v = vec![s(2.0)];
    let r = WorldState::new(1, 2, (s(5.0), s(-5.0)), s(0.0), s(0.0), s(0.0), meta(), p.clone(), v.clone());
    assert_eq!(r.unwrap_err(), ConfigError::InvalidBounds);
    let r = WorldState::new(1, 2, (s(1.0), s(1.0)), s(0.0), s(0.0), s(0.0), meta(), p.clone(), v.clone());
    assert_eq!(r.unwrap_err(), ConfigError::InvalidBounds);
    let r = WorldState::new(0, 2, (s(-5.0), s(5.0)), s(0.0), s(0.0), s(0.0), meta(), vec![], vec![]);
    assert_eq!(r.unwrap_err(), ConfigError::NoParticles);
    let r = WorldState::new(2, 2, (s(-5.0), s(5.0)), s(0.0), s(0.0), s(0.0), meta(), p.clone(), v.clone());
    assert_eq!(r.unwrap_err(), ConfigError::DimensionMismatch);
    let r = WorldState::new(1, 3, (s(-5.0), s(5.0)), s(0.0), s(0.0), s(0.0), meta(), p.clone(), v.clone());
    assert_eq!(r.unwrap_err(), ConfigError::DimensionMismatch);
    let r = WorldState::new(1, 2, (s(-5.0), s(5.0)), s(0.0), s(0.0), s(0.0), meta(), p, vec![]);
    assert_eq!(r.unwrap_err(), ConfigError::DimensionMismatch);
}

#[test]
fn creation_takes_minimum_of_initial_values() {
    let mut rng = fastrand::Rng::with_seed(7);
    for _ in 0..20 {
        let pts: Vec<Vec<f64>> = (0..6).map(|_| (0..3).map(|_| rng.f64() * 10.0 - 5.0).collect()).collect();
        let refs: Vec<&[f64]> = pts.iter().map(|p| p.as_slice()).collect();
        let w = world(&refs, sphere, (0.5, 0.5, 0.5));
        let brute = pts.iter().map(|p| p.iter().map(|x| x * x).sum::<f64>()).fold(f64::INFINITY, f64::min);
        assert_eq!(f(w.best_solution_value()), brute);
        assert_eq!(sphere(&w.best_solution), brute);
        assert_eq!(w.particle_count(), 6);
        for (p, start) in w.particles.iter().zip(pts.iter()) {
            assert_eq!(&values(&p.coordinates), start);
            assert_eq!(&values(&p.best_found_solution), start);
            assert_eq!(values(&p.current_speed), vec![0.0; 3]);
            assert_eq!(f(p.best_found_solution_value), sphere(&p.coordinates));
        }
    }
}

#[test]
fn creation_ties_go_to_first() {
    let w = world(&[&[3.0], &[1.0], &[-1.0], &[2.0]], sphere, (0.0, 0.0, 0.0));
    assert_eq!(f(w.best_solution_value()), 1.0);
    assert_eq!(values(&w.best_solution), vec![1.0]);
}

#[test]
fn non_finite_values_never_become_best() {
    fn bad(v: &VectorN) -> f64 {
        if values(v)[0] < 0.0 {
            f64::NAN
        } else if values(v)[0] < 1.0 {
            f64::NEG_INFINITY
        } else {
            values(v)[0]
        }
    }
    let w = world(&[&[-1.0], &[0.5], &[4.0], &[2.0]], bad, (0.0, 0.0, 0.0));
    assert_eq!(f(w.best_solution_value()), 2.0);
    assert_eq!(values(&w.best_solution), vec![2.0]);
    let all_bad = world(&[&[-1.0], &[0.5]], bad, (0.0, 0.0, 0.0));
    assert_eq!(f(all_bad.best_solution_value()), f64::INFINITY);
    assert_eq!(values(&all_bad.best_solution), vec![0.0]);
}

#[test]
fn iterations_never_worsen_global_best() {
    let mut w = world(&[&[4.0, -3.0], &[-2.0, 2.5], &[1.0, 4.5], &[-4.0, -4.0]], sphere, (0.7, 1.2, 0.9));
    let mut rng = fastrand::Rng::with_seed(11);
    let mut last = f(w.best_solution_value());
    for _ in 0..200 {
        iterate(&mut w, sphere, rng.f64(), rng.f64());
        let now = f(w.best_solution_value());
        assert!(now <= last, "{} > {}", now, last);
        assert_eq!(sphere(&w.best_solution), now);
        last = now;
    }
}

#[test]
fn update_moves_personal_and_global_bests() {
    let mut w = world(&[&[3.0], &[4.0]], sphere, (0.0, 0.0, 0.0));
    let m = vec![
        Motion { velocity: vector(&[-2.0]), position: vector(&[1.0]) },
        Motion { velocity: vector(&[9.0]), position: vector(&[13.0]) },
    ];
    w.commit_motion(&m);
    assert_eq!(f(w.best_solution_value()), 9.0);
    assert_eq!(values(&w.particles[1].coordinates), vec![5.0]);
    assert_eq!(values(&w.particles[1].current_speed), vec![9.0]);
    w.update_best_solutions(&vec![s(1.0), s(25.0)]);
    assert_eq!(f(w.best_solution_value()), 1.0);
    assert_eq!(values(&w.best_solution), vec![1.0]);
    assert_eq!(values(&w.particles[0].best_found_solution), vec![1.0]);
    assert_eq!(f(w.particles[0].best_found_solution_value), 1.0);
    assert_eq!(values(&w.particles[1].best_found_solution), vec![4.0]);
    assert_eq!(f(w.particles[1].best_found_solution_value), 16.0);
}

#[test]
fn reset_forgets_earlier_bests() {
    let mut w = world(&[&[0.1, 0.1], &[3.0, 3.0]], sphere, (0.2, 0.3, 0.4));
    assert_eq!(f(w.best_solution_value()), 0.1 * 0.1 * 2.0);
    let fresh = vec![vector(&[2.0, 2.0]), vector(&[-1.0, 3.0])];
    let vals: Vec<Scalar> = fresh.iter().map(|p| s(sphere(p))).collect();
    w.reset(&fresh, &vals);
    assert_eq!(f(w.best_solution_value()), 8.0);
    assert_eq!(values(&w.best_solution), vec![2.0, 2.0]);
    for (p, start) in w.particles.iter().zip(fresh.iter()) {
        assert_eq!(p.coordinates.coordinates, start.coordinates);
        assert_eq!(p.best_found_solution.coordinates, start.coordinates);
        assert_eq!(values(&p.current_speed), vec![0.0, 0.0]);
    }
    assert_eq!(w.coefficients(), Coefficients::new(s(0.2), s(0.3), s(0.4)));
    let nothing = vec![s(f64::NAN), s(f64::INFINITY)];
    w.reset(&fresh, &nothing);
    assert_eq!(f(w.best_solution_value()), f64::INFINITY);
    assert_eq!(values(&w.best_solution), vec![0.0, 0.0]);
}

#[test]
fn apply_coefficients_reaches_every_particle() {
    let mut w = world(&[&[1.0], &[2.0], &[3.0]], sphere, (0.1, 0.2, 0.3));
    let c = Coefficients::new(s(0.9), s(0.8), s(0.7));
    w.apply_coefficients(c);
    assert_eq!(w.coefficients(), c);
    for p in &w.particles {
        assert_eq!((f(p.social_coefficient), f(p.cognitive_coefficient), f(p.inertia_coefficient)), (0.9, 0.8, 0.7));
    }
    assert_eq!(f(w.best_solution_value()), 1.0);
}

#[test]
fn snapshot_lists_positions() {
    let w = world(&[&[1.0, 2.0], &[3.0, 4.0]], sphere, (0.0, 0.0, 0.0));
    let snap = w.snapshot();
    assert_eq!(snap.iter().map(values).collect::<Vec<_>>(), vec![vec![1.0, 2.0], vec![3.0, 4.0]]);
}

#[test]
fn sweep_best_value_is_minimum() {
    assert_eq!(f(sweep_best_value(&vec![s(3.0), s(-1.0), s(2.0)])), -1.0);
    assert_eq!(f(sweep_best_value(&vec![])), f64::INFINITY);
    assert_eq!(f(sweep_best_value(&vec![s(f64::NAN), s(f64::NEG_INFINITY)])), f64::INFINITY);
    assert_eq!(f(sweep_best_value(&vec![s(f64::NAN), s(7.5)])), 7.5);
}

#[test]
fn zero_coefficients_keep_single_particle_still() {
    let mut rng = fastrand::Rng::with_seed(3);
    let start: Vec<f64> = (0..4).map(|_| rng.f64() * 10.0 - 5.0).collect();
    let mut w = world(&[&start], sphere, (0.0, 0.0, 0.0));
    let best = f(w.best_solution_value());
    for _ in 0..100 {
        iterate(&mut w, sphere, rng.f64(), rng.f64());
        assert_eq!(values(&w.particles[0].coordinates), start);
        assert_eq!(values(&w.particles[0].current_speed), vec![0.0; 4]);
        assert_eq!(f(w.best_solution_value()), best);
        assert_eq!(values(&w.best_solution), start);
    }
}

#[test]
fn pure_inertia_from_rest_keeps_swarm_still() {
    let mut w = world(&[&[1.0, -2.0], &[3.5, 0.5], &[-4.0, 4.0]], sphere, (0.4, 0.4, 0.4));
    let starts: Vec<Vec<f64>> = w.particles.iter().map(|p| values(&p.coordinates)).collect();
    let mut session = TuningSession::new();
    let mut allocated = 0;
    let mut freed = 0;
    let mut rng = fastrand::Rng::with_seed(5);
    for _ in 0..25 {
        let mut action = session.step(TuningEvent::Start(w.meta.de_config().unwrap()));
        let coefficients = loop {
            action = match action {
                TuningAction::CallMinimizer { .. } => {
                    allocated += 1;
                    session.step(TuningEvent::Returned(vec![s(0.0), s(0.0), s(1.0)]))
                }
                TuningAction::ReleaseResult => {
                    freed += 1;
                    session.step(TuningEvent::Released)
                }
                TuningAction::Apply(c) => break c,
                other => panic!("unexpected {:?}", other),
            };
        };
        // social 0, cognitive 0, inertia 1
        w.apply_coefficients(coefficients);
        iterate(&mut w, sphere, rng.f64(), rng.f64());
        assert_eq!(w.coefficients(), Coefficients::new(s(0.0), s(0.0), s(1.0)));
        for (p, start) in w.particles.iter().zip(starts.iter()) {
            assert_eq!(&values(&p.coordinates), start);
        }
    }
    assert_eq!(allocated, 25);
    assert_eq!(freed, 25);
}

#[test]
fn iteration_in_steps_matches_do_iteration() {
    let pts: [&[f64]; 3] = [&[4.0, -3.0], &[-2.0, 2.5], &[1.0, 4.5]];
    let mut a = world(&pts, sphere, (0.7, 1.2, 0.9));
    let mut b = a.clone();
    let mut rng = fastrand::Rng::with_seed(19);
    for _ in 0..30 {
        let (r1, r2) = (rng.f64(), rng.f64());
        iterate(&mut a, sphere, r1, r2);
        iterate_in_steps(&mut b, sphere, r1, r2);
        assert_eq!(a.best_solution_value(), b.best_solution_value());
        assert_eq!(a.best_solution.coordinates, b.best_solution.coordinates);
        assert_eq!(a.snapshot().len(), b.snapshot().len());
    }
}

#[test]
fn do_iteration_clamps_before_evaluating() {
    let mut w = world(&[&[4.0], &[-4.0]], sphere, (0.0, 0.0, 0.0));
    let m = vec![
        Motion { velocity: vector(&[3.0]), position: vector(&[7.0]) },
        Motion { velocity: vector(&[0.5]), position: vector(&[-3.5]) },
    ];
    let vals = w.do_iteration(&m, &|v: &VectorN| s(sphere(v)));
    assert_eq!(vals.iter().map(|v| f(*v)).collect::<Vec<_>>(), vec![25.0, 12.25]);
    assert_eq!(values(&w.particles[0].coordinates), vec![5.0]);
    assert_eq!(values(&w.particles[0].current_speed), vec![3.0]);
    assert_eq!(f(w.best_solution_value()), 12.25);
    assert_eq!(values(&w.best_solution), vec![-3.5]);
}
