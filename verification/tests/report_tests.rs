use vello_bench2::calibration::advance_search;
use vello_bench2::harness_core::initial_search;
use vello_bench2::probe_report::{join_strings, probe_mismatch_message};
use vello_bench2::rng::{texture_seed, Rng};

#[test]
fn probe_message_lists_failing_features() {
    let features = vec!["Gradient".to_string(), "Blending".to_string()];
    assert_eq!(
        probe_mismatch_message(&features, 40, 20, 40, 20),
        "Probe output did not match the bundled reference; failing features: Gradient, Blending"
    );
}

#[test]
fn probe_message_without_features_gives_sizes() {
    assert_eq!(
        probe_mismatch_message(&vec![], 40, 20, 38, 21),
        "Probe output did not match the bundled reference; failing features could not be isolated (expected 40x20, actual 38x21)"
    );
}

#[test]
fn join_strings_values() {
    assert_eq!(join_strings(&vec![], ", "), "");
    assert_eq!(join_strings(&vec!["a".to_string()], ", "), "a");
    assert_eq!(join_strings(&vec!["a".to_string(), "b".to_string(), "c".to_string()], "-"), "a-b-c");
}

#[test]
fn texture_seed_values() {
    assert_eq!(texture_seed(0), 0xCAFE_BABE ^ 0x9E37_79B9);
    assert_eq!(texture_seed(2), 0xCAFE_BABE ^ (3 * 0x9E37_79B9));
}

#[test]
fn xorshift_never_reaches_zero_from_nonzero_seed() {
    let mut rng = Rng::new(0xDEAD_BEEF);
    for _ in 0..10_000 {
        assert_ne!(rng.next_u64(), 0);
    }
}

#[test]
fn search_terminates_for_a_linear_frame_time() {
    // Frame time grows by 1 ms per 1000 shapes; target 16 ms, tolerance 5 ms.
    let frame_ms = |count: usize| count as f64 / 1000.0;
    let mut state = initial_search();
    let mut best = 1usize;
    let mut probes = 0;
    let result = loop {
        probes += 1;
        let ms = frame_ms(state.probe_count);
        if (ms - 16.0).abs() < (frame_ms(best) - 16.0).abs() {
            best = state.probe_count;
        }
        match advance_search(state, ms < 16.0, (ms - 16.0).abs() <= 5.0, best) {
            Ok(next) => state = next,
            Err(count) => break count,
        }
    };
    assert_eq!(result, 20_000);
    assert!(probes < 100);
}
