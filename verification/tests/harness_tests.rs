use vello_bench2::calibration::{advance_search, midpoint, next_probe_count, SearchState, BINARY_STEPS};
use vello_bench2::harness_core::{
    initial_search, BenchHarnessCore, CalibrationCore, CalibrationPhase, CalibrationStep,
    HarnessPhase, HarnessStep, ProbeOutcome, PROBE_MEASURED_FRAMES, PROBE_WARMUP_FRAMES,
};

#[test]
fn harness_runs_benchmarks_in_order() {
    let mut h = BenchHarnessCore::new();
    assert!(!h.is_running());
    h.start(vec![4, 2]);
    assert!(h.is_running());
    assert_eq!(h.current_bench_idx(), Some(4));
    assert_eq!(h.tick(), HarnessStep::Prepare { def_index: 4 });
    let mut counted = 0;
    let mut steps = 0;
    loop {
        steps += 1;
        match h.tick() {
            HarnessStep::Frame { def_index, counted: c, finished, all_done } => {
                assert_eq!(def_index, 4);
                assert!(!all_done);
                if c {
                    counted += 1;
                }
                if finished {
                    break;
                }
            }
            other => panic!("unexpected step {other:?}"),
        }
    }
    assert_eq!(steps, 3 + 15);
    assert_eq!(counted, 15);
    assert_eq!(h.phase, HarnessPhase::PendingBench(2));
    assert_eq!(h.tick(), HarnessStep::Prepare { def_index: 2 });
    let mut last = HarnessStep::Nothing;
    for _ in 0..18 {
        last = h.tick();
    }
    assert_eq!(last, HarnessStep::Frame { def_index: 2, counted: true, finished: true, all_done: true });
    assert_eq!(h.phase, HarnessPhase::Complete);
    assert_eq!(h.tick(), HarnessStep::Nothing);
    assert_eq!(h.current_bench_idx(), None);
}

#[test]
fn harness_with_nothing_selected_completes() {
    let mut h = BenchHarnessCore::new();
    h.start(vec![]);
    assert_eq!(h.phase, HarnessPhase::Complete);
    assert!(!h.is_running());
}

#[test]
fn midpoint_and_growth_values() {
    assert_eq!(midpoint(10, 20), 15);
    assert_eq!(midpoint(10, 11), 10);
    assert_eq!(next_probe_count(1), 2);
    assert_eq!(next_probe_count(9), 10);
    assert_eq!(next_probe_count(10), 20);
    assert_eq!(next_probe_count(90), 100);
    assert_eq!(next_probe_count(99), 109);
    assert_eq!(next_probe_count(150), 250);
    assert_eq!(next_probe_count(1_000_000), 2_000_000);
}

#[test]
fn search_grows_then_bisects() {
    let s = initial_search();
    assert_eq!(s, SearchState { probe_count: 1, lower: None, upper: None, binary_steps_left: BINARY_STEPS });
    let s = advance_search(s, true, false, 1).unwrap();
    assert_eq!(s.probe_count, 2);
    assert_eq!(s.lower, Some(1));
    let s = SearchState { probe_count: 40, lower: Some(30), upper: None, binary_steps_left: 7 };
    let s = advance_search(s, false, false, 30).unwrap();
    assert_eq!(s, SearchState { probe_count: 35, lower: Some(30), upper: Some(40), binary_steps_left: 7 });
    let s = advance_search(s, true, false, 35).unwrap();
    assert_eq!(s, SearchState { probe_count: 37, lower: Some(35), upper: Some(40), binary_steps_left: 6 });
}

#[test]
fn search_stops_within_tolerance_or_when_bracket_closes() {
    let s = SearchState { probe_count: 500, lower: Some(400), upper: None, binary_steps_left: 7 };
    assert_eq!(advance_search(s, true, true, 400), Err(500));
    let s = SearchState { probe_count: 1, lower: None, upper: None, binary_steps_left: 7 };
    assert_eq!(advance_search(s, false, false, 1), Err(1));
    let s = SearchState { probe_count: 11, lower: Some(10), upper: Some(12), binary_steps_left: 3 };
    assert_eq!(advance_search(s, true, false, 11), Err(11));
    let s = SearchState { probe_count: 15, lower: Some(10), upper: Some(20), binary_steps_left: 0 };
    assert_eq!(advance_search(s, false, false, 15), Err(15));
}

#[test]
fn search_stops_growing_at_limit() {
    let s = SearchState { probe_count: 10_000_000, lower: Some(9_000_000), upper: None, binary_steps_left: 7 };
    assert_eq!(advance_search(s, true, false, 9_999_999), Err(9_999_999));
}

#[test]
fn calibration_core_probe_cycle() {
    let mut c = CalibrationCore::new();
    c.start(2);
    assert!(c.is_running());
    let labels = vec!["Rects", "Images"];
    assert_eq!(c.current_status(&labels), Some("Calibrating 1/2: Rects (1)".to_string()));
    assert_eq!(c.tick(), CalibrationStep::Prepare { target_idx: 0, probe_count: 1 });
    let mut frames = 0;
    loop {
        frames += 1;
        if let CalibrationStep::Frame { probe_done: true, .. } = c.tick() {
            break;
        }
    }
    assert_eq!(frames, PROBE_WARMUP_FRAMES + PROBE_MEASURED_FRAMES);
    assert!(matches!(c.phase, CalibrationPhase::Measured { target_idx: 0, .. }));
    assert_eq!(c.finish_probe(true, false, false), ProbeOutcome::NextProbe { probe_count: 2 });
    assert_eq!(c.current_status(&labels), Some("Calibrating 1/2: Rects (2)".to_string()));
    for _ in 0..(1 + PROBE_WARMUP_FRAMES + PROBE_MEASURED_FRAMES) {
        c.tick();
    }
    assert_eq!(
        c.finish_probe(true, true, false),
        ProbeOutcome::TargetDone { target_idx: 0, count: 2, all_done: false }
    );
    for _ in 0..(1 + PROBE_WARMUP_FRAMES + PROBE_MEASURED_FRAMES) {
        c.tick();
    }
    assert_eq!(
        c.finish_probe(false, false, false),
        ProbeOutcome::TargetDone { target_idx: 1, count: 1, all_done: true }
    );
    assert_eq!(c.phase, CalibrationPhase::Complete);
    assert_eq!(c.current_status(&labels), None);
    assert_eq!(c.tick(), CalibrationStep::Nothing);
}

#[test]
fn calibration_of_no_targets_completes() {
    let mut c = CalibrationCore::new();
    c.start(0);
    assert_eq!(c.phase, CalibrationPhase::Complete);
    assert!(!c.is_running());
}

#[test]
fn calibration_keeps_closest_probed_count() {
    let mut c = CalibrationCore::new();
    c.start(1);
    for _ in 0..(1 + PROBE_WARMUP_FRAMES + PROBE_MEASURED_FRAMES) {
        c.tick();
    }
    assert_eq!(c.finish_probe(true, false, true), ProbeOutcome::NextProbe { probe_count: 2 });
    assert_eq!(c.best, Some(1));
    for _ in 0..(1 + PROBE_WARMUP_FRAMES + PROBE_MEASURED_FRAMES) {
        c.tick();
    }
    assert_eq!(
        c.finish_probe(false, false, true),
        ProbeOutcome::TargetDone { target_idx: 0, count: 1, all_done: true }
    );
    assert_eq!(c.best, None);
}
