use glissando::FitCycles;

/// Drives a loop over the given per-cycle outcomes the way a fit does.
fn drive(max: usize, outcomes: &[(bool, bool)]) -> (FitCycles, Vec<bool>) {
    let mut c = FitCycles::new(max);
    let mut reported = Vec::new();
    for &(p, d) in outcomes {
        if !c.wants_cycle() {
            break;
        }
        reported.push(c.finish_cycle(p, d));
    }
    (c, reported)
}

#[test]
fn first_cycle_never_converges() {
    let mut c = FitCycles::new(5);
    assert!(c.wants_cycle());
    assert!(!c.finish_cycle(true, true));
    assert!(!c.converged());
    assert_eq!(c.iterations(), 1);
    assert!(c.finish_cycle(true, true));
    assert!(c.converged());
    assert_eq!(c.iterations(), 2);
    assert!(!c.wants_cycle());
}

#[test]
fn convergence_needs_both_tests() {
    let (c, reported) = drive(10, &[(true, true), (false, true), (true, false), (true, true), (true, true)]);
    assert!(c.converged());
    assert_eq!(c.iterations(), 4);
    assert_eq!(reported, vec![false, true, true, true]);
}

#[test]
fn budget_caps_the_cycles() {
    let (c, reported) = drive(3, &[(false, false); 8]);
    assert!(!c.converged());
    assert_eq!(c.iterations(), 3);
    assert_eq!(reported.len(), 3);
    assert!(!c.wants_cycle());
}

#[test]
fn zero_budget_runs_no_cycle() {
    let c = FitCycles::new(0);
    assert!(!c.wants_cycle());
    assert_eq!(c.iterations(), 0);
    assert!(!c.converged());
}
