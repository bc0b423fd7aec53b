use vello_bench2::render_mode::RenderMode;
use vello_bench2::texture_config::BenchConfig;
use vello_bench2::texture_runner::{CoreEvent, RunnerAction, RunnerCore, RunnerPhase};

fn config(image_counts: Vec<usize>, trials: usize) -> BenchConfig {
    BenchConfig {
        image_counts,
        texture_size: 64,
        texture_count: 2,
        draw_size: 16,
        warmup_frames: 1,
        measured_frames: 10,
        trials,
        memory_limit_mib: 64,
    }
}

fn status(events: &[CoreEvent]) -> Vec<String> {
    events
        .iter()
        .filter_map(|e| match e {
            CoreEvent::Status(s) => Some(s.clone()),
            _ => None,
        })
        .collect()
}

#[test]
fn runner_start_prepares_textures() {
    let mut r = RunnerCore::new();
    assert_eq!(r.phase, RunnerPhase::Idle);
    let events = r.start(config(vec![10], 1));
    assert_eq!(status(&events), vec!["Preparing 2 paired textures at 64×64".to_string()]);
    assert_eq!(r.phase, RunnerPhase::Preparing { next_texture: 0 });
}

#[test]
fn runner_full_run_sequence() {
    let mut r = RunnerCore::new();
    r.start(config(vec![10, 20], 2));

    let (ev, action) = r.texture_prepared(Ok(()));
    assert_eq!(status(&ev), vec!["Preparing paired 64×64 textures · 1/2".to_string()]);
    assert_eq!(action, RunnerAction::Nothing);
    let (ev, action) = r.texture_prepared(Ok(()));
    assert_eq!(status(&ev), vec!["Preparing paired 64×64 textures · 2/2".to_string()]);
    assert_eq!(action, RunnerAction::ConfigureScene { image_count: 10, draw_size: 16 });
    assert_eq!(r.phase, RunnerPhase::Configuring);

    let mut completed = Vec::new();
    let mut seen_complete = false;
    for count in [10usize, 20] {
        let ev = r.scene_configured(Ok(()));
        assert_eq!(status(&ev), vec![format!("Warming image paint · {count} images · 1 frames")]);
        let (ev, _) = r.warmup_rendered(Ok(()));
        assert_eq!(
            status(&ev),
            vec![format!("Warming external texture · {count} images · 1 frames")]
        );
        let (ev, action) = r.warmup_rendered(Ok(()));
        assert_eq!(status(&ev), vec![format!("Measuring image paint · {count} images · pair 1/2")]);
        assert_eq!(action, RunnerAction::BeginMeasurement { mode: RenderMode::ImagePaint });
        for pair in 1..=2usize {
            assert!(r.measured_frame_rendered(Ok(())).is_empty());
            let (ev, action) = r.measurement_finished();
            let second = if pair == 1 { RenderMode::ExternalTexture } else { RenderMode::ImagePaint };
            assert_eq!(action, RunnerAction::BeginMeasurement { mode: second });
            assert_eq!(
                status(&ev),
                vec![format!("Measuring {} · {count} images · pair {pair}/2", second.label())]
            );
            let (ev, action) = r.measurement_finished();
            for e in &ev {
                match e {
                    CoreEvent::TrialComplete { image_count, measurement, texture_size, texture_count } => {
                        assert_eq!((*image_count, *measurement), (count, pair));
                        assert_eq!((*texture_size, *texture_count), (64, 2));
                    }
                    CoreEvent::Progress { completed: c, total } => {
                        completed.push(*c);
                        assert_eq!(*total, 4);
                    }
                    CoreEvent::Complete => seen_complete = true,
                    _ => {}
                }
            }
            if pair == 1 {
                assert_eq!(action, RunnerAction::BeginMeasurement { mode: RenderMode::ExternalTexture });
            } else if count == 10 {
                assert_eq!(action, RunnerAction::ConfigureScene { image_count: 20, draw_size: 16 });
            } else {
                assert_eq!(action, RunnerAction::DeleteTextures);
            }
        }
    }
    assert_eq!(completed, vec![1, 2, 3, 4]);
    assert!(seen_complete);
    assert_eq!(r.phase, RunnerPhase::Complete);
    assert_eq!(r.completed_trials, 4);
}

#[test]
fn runner_failure_ends_run() {
    let mut r = RunnerCore::new();
    r.start(config(vec![10], 1));
    let (ev, action) = r.texture_prepared(Err("upload failed".to_string()));
    assert_eq!(action, RunnerAction::Nothing);
    assert!(matches!(&ev[..], [CoreEvent::Failed(m)] if m == "upload failed"));
    assert_eq!(r.phase, RunnerPhase::Complete);
}

#[test]
fn runner_scene_failure_ends_run() {
    let mut r = RunnerCore::new();
    r.start(config(vec![10], 1));
    r.texture_prepared(Ok(()));
    r.texture_prepared(Ok(()));
    let ev = r.scene_configured(Err("too many images".to_string()));
    assert!(matches!(&ev[..], [CoreEvent::Failed(m)] if m == "too many images"));
    assert_eq!(r.phase, RunnerPhase::Complete);
}

#[test]
fn runner_stop_returns_to_idle() {
    let mut r = RunnerCore::new();
    r.start(config(vec![10], 1));
    r.stop();
    assert_eq!(r.phase, RunnerPhase::Idle);
    assert!(r.config.is_none());
}

#[test]
fn render_mode_labels_and_other() {
    assert_eq!(RenderMode::ImagePaint.label(), "image paint");
    assert_eq!(RenderMode::ExternalTexture.label(), "external texture");
    assert_eq!(RenderMode::ExternalTexture.other(), RenderMode::ImagePaint);
    assert_eq!(RenderMode::ImagePaint.other().other(), RenderMode::ImagePaint);
}
