use flood_routing::algorithm::{find_exact_solution_range, RoutingError};

#[test]
fn first_sign_change_is_found() {
    match find_exact_solution_range(&[false, false, true, true, false]) {
        Ok((2, 3)) => {}
        other => panic!("unexpected {:?}", other),
    }
}

#[test]
fn sign_change_at_start() {
    match find_exact_solution_range(&[true]) {
        Ok((0, 1)) => {}
        other => panic!("unexpected {:?}", other),
    }
}

#[test]
fn no_sign_change_is_an_error() {
    assert!(matches!(
        find_exact_solution_range(&[false, false, false]),
        Err(RoutingError::NoExactSolutionRange)
    ));
    assert!(matches!(find_exact_solution_range(&[]), Err(RoutingError::NoExactSolutionRange)));
}

#[test]
fn window_from_storage_changes() {
    let delta_v: [f64; 5] = [3.0, 2.0, 0.5, -0.25, -1.0];
    let changes: Vec<bool> = delta_v.windows(2).map(|p| p[0] * p[1] < 0.0).collect();
    match find_exact_solution_range(&changes) {
        Ok((2, 3)) => {}
        other => panic!("unexpected {:?}", other),
    }
}
