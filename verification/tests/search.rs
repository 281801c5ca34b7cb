use crx_kinematics::error::KinematicsError;
use crx_kinematics::joints::JointVector;
use crx_kinematics::limits::{clamp_angle, JointLimits};
use crx_kinematics::mesh::{check_indices, flatten, link_meshes, LinkMesh};
use crx_kinematics::solver::{ik_request, ik_result, SolverAction, SolverState, MAX_ITERATIONS};

fn bits(values: &[f64]) -> Vec<u64> {
    values.iter().map(|x| x.to_bits()).collect()
}

fn bits6(values: [f64; 6]) -> [u64; 6] {
    values.map(|x| x.to_bits())
}

fn identity_flat() -> Vec<u64> {
    bits(&[1.0, 0.0, 0.0, 0.0, 0.0, 1.0, 0.0, 0.0, 0.0, 0.0, 1.0, 0.0, 0.0, 0.0, 0.0, 1.0])
}

fn drive(reports: &[bool]) -> (u32, SolverAction) {
    let mut state = SolverState::start(true).unwrap();
    let mut action = SolverAction::Step;
    for r in reports {
        let (next, a) = state.decide(*r);
        state = next;
        action = a;
        if a != SolverAction::Step {
            break;
        }
    }
    (state.iterations(), action)
}

#[test]
fn budget_is_a_hundred() {
    assert_eq!(MAX_ITERATIONS, 100);
}

#[test]
fn target_out_of_reach_is_refused_before_iterating() {
    assert_eq!(SolverState::start(false), Err(KinematicsError::UnreachablePose));
    assert_eq!(SolverState::start(true).unwrap().iterations(), 0);
}

#[test]
fn first_measurement_within_tolerance_is_accepted() {
    assert_eq!(drive(&[true]), (0, SolverAction::Accept));
    assert_eq!(drive(&[true, false, false]), (0, SolverAction::Accept));
}

#[test]
fn search_accepts_at_first_success() {
    assert_eq!(drive(&[false, false, true, true]), (2, SolverAction::Accept));
    let mut reports = vec![false; 99];
    reports.push(true);
    assert_eq!(drive(&reports), (99, SolverAction::Accept));
}

#[test]
fn search_steps_while_measurements_fail() {
    assert_eq!(drive(&[]), (0, SolverAction::Step));
    assert_eq!(drive(&[false]), (1, SolverAction::Step));
    assert_eq!(drive(&vec![false; 99]), (99, SolverAction::Step));
}

#[test]
fn search_gives_up_after_a_hundred_failures() {
    assert_eq!(drive(&vec![false; 100]), (100, SolverAction::GiveUp));
    let mut reports = vec![false; 100];
    reports.push(true);
    assert_eq!(drive(&reports), (100, SolverAction::GiveUp));
}

#[test]
fn exhausted_search_accepts_nothing_more() {
    let mut state = SolverState::start(true).unwrap();
    for _ in 0..100 {
        state = state.decide(false).0;
    }
    assert_eq!(state.iterations(), 100);
    assert_eq!(state.decide(true), (state, SolverAction::GiveUp));
    assert_eq!(state.decide(false), (state, SolverAction::GiveUp));
}

#[test]
fn request_checks_seed_before_target() {
    let seed = bits(&[0.0; 6]);
    let short_seed = bits(&[0.0; 5]);
    let bad_target = bits(&[0.0; 16]);
    let ok = ik_request(&identity_flat(), &seed).unwrap();
    assert_eq!(ok.target.to_flat(), identity_flat());
    assert_eq!(ok.seed.to_vec(), seed);
    assert_eq!(
        ik_request(&identity_flat(), &short_seed).err(),
        Some(KinematicsError::InvalidJointCount)
    );
    assert_eq!(ik_request(&bad_target, &seed).err(), Some(KinematicsError::InvalidTransform));
    assert_eq!(
        ik_request(&bad_target, &short_seed).err(),
        Some(KinematicsError::InvalidJointCount)
    );
}

#[test]
fn found_joints_are_the_answer() {
    let found = bits6([0.1, 0.2, 0.3, 0.4, 0.5, 0.6]);
    assert_eq!(ik_result(Some(found)).unwrap().to_array(), found);
    assert_eq!(ik_result(None).err(), Some(KinematicsError::NoSolutionFound));
}

#[test]
fn clamp_is_the_clamp_of_numbers() {
    let samples: [f64; 11] = [
        f64::NEG_INFINITY,
        -7.0,
        -3.1415,
        -1.0e-300,
        -0.0,
        0.0,
        0.5,
        3.1415,
        3.1416,
        1.0e9,
        f64::INFINITY,
    ];
    let ranges: [(f64, f64); 5] = [(-3.1415, 3.1415), (0.0, 0.0), (-1.0, 2.5), (0.5, 0.5), (-10.0, -2.0)];
    for x in samples {
        for (lo, hi) in ranges {
            let got = f64::from_bits(clamp_angle(x.to_bits(), lo.to_bits(), hi.to_bits()));
            assert_eq!(got, x.clamp(lo, hi));
        }
    }
    assert_eq!(f64::from_bits(clamp_angle(4.0f64.to_bits(), 0f64.to_bits(), 1f64.to_bits())), 1.0);
    assert_eq!(
        f64::from_bits(clamp_angle((-4.0f64).to_bits(), 0f64.to_bits(), 1f64.to_bits())),
        0.0
    );
    let nan = f64::NAN.to_bits();
    assert_eq!(clamp_angle(nan, (-1.0f64).to_bits(), 1.0f64.to_bits()), nan);
}

#[test]
fn limits_need_ordered_numbers() {
    let lower = bits6([-3.0, -2.0, -1.0, -3.0, -2.0, -1.0]);
    let upper = bits6([3.0, 2.0, 1.0, 3.0, 2.0, 1.0]);
    let limits = JointLimits::new(lower, upper).unwrap();
    for axis in 0..6 {
        assert_eq!(limits.bounds(axis), (lower[axis], upper[axis]));
    }
    assert!(JointLimits::new(upper, lower).is_none());
    let mut with_nan = upper;
    with_nan[4] = f64::NAN.to_bits();
    assert!(JointLimits::new(lower, with_nan).is_none());
    assert!(JointLimits::new(with_nan, upper).is_none());
    assert!(JointLimits::new(lower, lower).is_some());
}

#[test]
fn clamped_joints_lie_within_limits() {
    let limits = JointLimits::new(
        bits6([-3.0, -2.0, -1.0, -3.0, -2.0, -1.0]),
        bits6([3.0, 2.0, 1.0, 3.0, 2.0, 1.0]),
    )
    .unwrap();
    let wild = JointVector::from_array(bits6([5.0, -5.0, 0.25, -3.0, 2.5, -1.5]));
    assert!(!limits.contains(&wild));
    let kept = limits.clamp(&wild);
    assert_eq!(kept.to_array(), bits6([3.0, -2.0, 0.25, -3.0, 2.0, -1.0]));
    assert!(limits.contains(&kept));
    assert_eq!(limits.clamp(&kept).to_array(), kept.to_array());
    let nan = JointVector::from_array(bits6([0.0, f64::NAN, 0.0, 0.0, 0.0, 0.0]));
    assert!(!limits.contains(&nan));
    assert!(limits.contains(&JointVector::zero()));
}

#[test]
fn rows_are_laid_end_to_end() {
    let rows: Vec<[u32; 3]> = vec![[0, 1, 2], [2, 1, 3], [7, 8, 9]];
    assert_eq!(flatten(&rows), vec![0, 1, 2, 2, 1, 3, 7, 8, 9]);
    let none: Vec<[u64; 3]> = Vec::new();
    assert_eq!(flatten(&none), Vec::<u64>::new());
}

#[test]
fn indices_are_checked_against_the_vertex_count() {
    assert!(check_indices(&vec![0, 1, 2, 3], 4));
    assert!(!check_indices(&vec![0, 1, 2, 4], 4));
    assert!(check_indices(&Vec::new(), 0));
    assert!(!check_indices(&vec![0], 0));
}

fn square() -> (Vec<[u64; 3]>, Vec<[u32; 3]>) {
    let points = vec![[0.0, 0.0, 0.0], [1.0, 0.0, 0.0], [1.0, 1.0, 0.0], [0.0, 1.0, 0.5]]
        .into_iter()
        .map(|p: [f64; 3]| p.map(|x| x.to_bits()))
        .collect();
    (points, vec![[0, 1, 2], [0, 2, 3]])
}

#[test]
fn mesh_buffers_have_their_shape() {
    let (points, triangles) = square();
    let mesh = LinkMesh::from_triples(&points, &triangles).unwrap();
    assert_eq!(mesh.vertex_shape(), (4, 3));
    assert_eq!(mesh.face_shape(), (2, 3));
    assert_eq!(mesh.vertex_count(), 4);
    assert_eq!(mesh.face_count(), 2);
    assert_eq!(mesh.vertices().len(), 12);
    assert_eq!(*mesh.faces(), vec![0, 1, 2, 0, 2, 3]);
    assert_eq!(f64::from_bits(mesh.vertices()[11]), 0.5);
    assert_eq!(mesh.vertex(3), points[3]);
    assert_eq!(mesh.face(1), [0, 2, 3]);
}

#[test]
fn mesh_with_stray_index_is_refused() {
    let (points, mut triangles) = square();
    triangles.push([1, 2, 4]);
    assert!(LinkMesh::from_triples(&points, &triangles).is_none());
    assert!(LinkMesh::from_triples(&Vec::new(), &vec![[0, 0, 0]]).is_none());
    assert!(LinkMesh::from_triples(&Vec::new(), &Vec::new()).is_some());
}

#[test]
fn flat_buffers_are_checked() {
    let v = vec![0u64; 9];
    assert!(LinkMesh::from_buffers(v.clone(), vec![0, 1, 2]).is_some());
    assert!(LinkMesh::from_buffers(v.clone(), vec![0, 1, 3]).is_none());
    assert!(LinkMesh::from_buffers(v.clone(), vec![0, 1]).is_none());
    assert!(LinkMesh::from_buffers(vec![0u64; 10], vec![0, 1, 2]).is_none());
    let mesh = LinkMesh::from_buffers(v.clone(), vec![2, 1, 0, 0, 1, 2]).unwrap();
    assert_eq!(*mesh.vertices(), v);
    assert_eq!(*mesh.faces(), vec![2, 1, 0, 0, 1, 2]);
}

#[test]
fn link_meshes_keep_the_order_of_links() {
    let (points, triangles) = square();
    let small = (vec![[1u64, 2, 3], [4, 5, 6], [7, 8, 9]], vec![[2u32, 1, 0]]);
    let tables = vec![(points.clone(), triangles.clone()), small.clone()];
    let meshes = link_meshes(&tables).unwrap();
    assert_eq!(meshes.len(), 2);
    assert_eq!(*meshes[0].vertices(), flatten(&points));
    assert_eq!(*meshes[0].faces(), flatten(&triangles));
    assert_eq!(*meshes[1].vertices(), vec![1, 2, 3, 4, 5, 6, 7, 8, 9]);
    assert_eq!(*meshes[1].faces(), vec![2, 1, 0]);
    assert_eq!(link_meshes(&Vec::new()).unwrap().len(), 0);
}

#[test]
fn one_bad_table_refuses_all() {
    let (points, triangles) = square();
    let bad = (vec![[1u64, 2, 3]], vec![[0u32, 0, 1]]);
    assert!(link_meshes(&vec![(points, triangles), bad]).is_none());
}

#[test]
fn meshes_are_the_same_on_every_call() {
    let (points, triangles) = square();
    let tables = vec![(points, triangles)];
    let first = link_meshes(&tables).unwrap();
    let second = link_meshes(&tables).unwrap();
    assert_eq!(first.len(), second.len());
    for (a, b) in first.iter().zip(second.iter()) {
        assert_eq!(a.vertices(), b.vertices());
        assert_eq!(a.faces(), b.faces());
        assert_eq!(a.vertex_shape(), b.vertex_shape());
        assert_eq!(a.face_shape(), b.face_shape());
    }
}
