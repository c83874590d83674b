use neurolov::attestation::make_compute_proof;
use neurolov::attestation::verify_computation;

#[test]
fn built_proof_is_accepted() {
    let result_bytes = vec![1, 2, 3];
    let requirements = vec![10, 20];
    let proof_bytes = make_compute_proof(&result_bytes, &requirements);
    assert_eq!(proof_bytes.len(), 8);
    assert!(verify_computation(&proof_bytes, &result_bytes, &requirements));
}

#[test]
fn proof_for_other_result_is_rejected() {
    let requirements = vec![10, 20];
    let proof_bytes = make_compute_proof(&vec![1, 2, 3], &requirements);
    assert!(!verify_computation(&proof_bytes, &vec![1, 2, 4], &requirements));
}

#[test]
fn proof_under_other_requirements_is_rejected() {
    let result_bytes = vec![1, 2, 3];
    let proof_bytes = make_compute_proof(&result_bytes, &vec![10, 20]);
    assert!(!verify_computation(&proof_bytes, &result_bytes, &vec![10, 21]));
}

#[test]
fn malformed_proofs_are_rejected_not_a_fault() {
    let result_bytes = vec![1, 2, 3];
    let requirements = vec![10, 20];
    assert!(!verify_computation(&Vec::new(), &result_bytes, &requirements));
    assert!(!verify_computation(&vec![0, 0, 0], &result_bytes, &requirements));
    let mut tampered = make_compute_proof(&result_bytes, &requirements);
    tampered[0] = tampered[0].wrapping_add(1);
    assert!(!verify_computation(&tampered, &result_bytes, &requirements));
}

#[test]
fn verification_is_deterministic() {
    let result_bytes = vec![7; 100];
    let requirements = vec![8; 64];
    let once = make_compute_proof(&result_bytes, &requirements);
    let twice = make_compute_proof(&result_bytes, &requirements);
    assert_eq!(once, twice);
    assert!(verify_computation(&once, &result_bytes, &requirements));
    // empty inputs are handled like any other bytes
    let empty_proof = make_compute_proof(&Vec::new(), &Vec::new());
    assert!(verify_computation(&empty_proof, &Vec::new(), &Vec::new()));
}
