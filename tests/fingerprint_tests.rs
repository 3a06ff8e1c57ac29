use media_scanner::fingerprint::{fingerprint, plan_fingerprint, HashPlan, PARTIAL_CHUNK};

#[test]
fn threshold_size_is_hashed_whole() {
    assert_eq!(plan_fingerprint(1000, 1000), HashPlan::Full);
    assert_eq!(plan_fingerprint(0, 0), HashPlan::Full);
}

#[test]
fn one_byte_over_threshold_is_partial() {
    let t = 10 * PARTIAL_CHUNK;
    assert_eq!(
        plan_fingerprint(t + 1, t),
        HashPlan::Partial { head_len: PARTIAL_CHUNK, tail_start: Some(t + 1 - PARTIAL_CHUNK) }
    );
}

#[test]
fn small_partial_file_has_no_tail() {
    assert_eq!(
        plan_fingerprint(500, 100),
        HashPlan::Partial { head_len: 500, tail_start: None }
    );
    assert_eq!(
        plan_fingerprint(PARTIAL_CHUNK, 100),
        HashPlan::Partial { head_len: PARTIAL_CHUNK, tail_start: None }
    );
}

#[test]
fn digest_of_known_inputs() {
    let (h, partial) = fingerprint(HashPlan::Full, &Vec::new(), &Vec::new());
    assert_eq!(h, "d41d8cd98f00b204e9800998ecf8427e");
    assert!(!partial);
    let (h, _) = fingerprint(HashPlan::Full, &b"abc".to_vec(), &Vec::new());
    assert_eq!(h, "900150983cd24fb0d6963f7d28e17f72");
}

#[test]
fn partial_digest_covers_head_then_tail() {
    let plan = HashPlan::Partial { head_len: 1, tail_start: Some(2) };
    let (h, partial) = fingerprint(plan, &b"a".to_vec(), &b"bc".to_vec());
    assert!(partial);
    assert_eq!(h, "900150983cd24fb0d6963f7d28e17f72");
}
